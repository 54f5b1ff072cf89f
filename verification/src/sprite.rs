//! Sprites, the symbolic texture keys, and the table that says where each
//! texture lies in the atlas.
//!
//! The atlas is a vertical strip: every texture starts at `x = 0`, one below
//! the other. The pixels are the front end's business; this module only
//! keeps the rectangles.

use vstd::prelude::*;
use crate::building::BuildingType;
use crate::general::Faction;
use crate::geometry::{Point, Rect};

verus! {

pub const TEXTURE_BUILDING_WIDTH: u32 = 128;

pub const TEXTURE_BUILDING_HEIGHT: u32 = 128;

pub const TEXTURE_UI_WIDTH: u32 = 64;

pub const TEXTURE_UI_HEIGHT: u32 = 64;

pub const TEXTURE_WORLD_WIDTH: u32 = 64;

pub const TEXTURE_WORLD_HEIGHT: u32 = 64;

/// Symbolic key of a texture.
#[derive(Clone, Copy, Debug, PartialEq, Eq, Hash, Structural)]
pub enum TextureType {
    Building { faction: Faction, b_type: BuildingType },
    World { tile_index: usize },
    UI { type_index: usize },
    Filler,
}

/// A request to copy the part `source` of the atlas to `target`.
#[derive(Clone, Copy, Debug, PartialEq, Eq, Structural)]
pub struct DrawCommand {
    pub source: Rect,
    pub target: Rect,
}

/// Single sprite to draw: where it goes and which part of the atlas it shows.
#[derive(Clone, Copy, Debug, PartialEq, Eq, Structural)]
pub struct Sprite {
    pub t_type: TextureType,
    pub loc_rect: Rect,
    pub texture_rect: Rect,
}

impl Sprite {
    pub open spec fn spec_new(loc_rect: Rect, t_type: TextureType, atlas: &TextureManager) -> Sprite {
        Sprite { t_type, loc_rect, texture_rect: atlas.spec_get_rect(t_type) }
    }

    /// A sprite at `loc_rect` that shows the texture `t_type`, which the
    /// atlas must hold.
    pub fn new(loc_rect: Rect, t_type: TextureType, atlas: &TextureManager) -> (s: Sprite)
        requires
            atlas.wf(),
            atlas@.dom().contains(t_type),
        ensures
            s == Sprite::spec_new(loc_rect, t_type, atlas),
    {
        Sprite { t_type, loc_rect, texture_rect: atlas.get_rect(t_type) }
    }

    pub fn _get_location(&self) -> (p: Point)
        ensures
            p == Point::spec_new(self.loc_rect.x as int, self.loc_rect.y as int),
    {
        Point::new(self.loc_rect.x, self.loc_rect.y)
    }

    pub fn set_location(&mut self, new_location: Point)
        ensures
            *final(self) == (Sprite {
                loc_rect: Rect { x: new_location.x, y: new_location.y, ..old(self).loc_rect },
                ..*old(self)
            }),
    {
        self.loc_rect.x = new_location.x;
        self.loc_rect.y = new_location.y;
    }

    pub fn get_loc_rect(&self) -> (r: Rect)
        ensures
            r == self.loc_rect,
    {
        self.loc_rect
    }

    pub fn set_loc_rect(&mut self, new: Rect)
        ensures
            *final(self) == (Sprite { loc_rect: new, ..*old(self) }),
    {
        self.loc_rect = new;
    }

    /// The command that draws the sprite where it stands.
    pub fn render(&self) -> (cmd: DrawCommand)
        ensures
            cmd == (DrawCommand { source: self.texture_rect, target: self.loc_rect }),
    {
        DrawCommand { source: self.texture_rect, target: self.loc_rect }
    }

    /// As `render`, with the target replaced by `loc` and the atlas part by
    /// `t_loc` where they are given.
    pub fn render_with_custom(&self, loc: Option<Rect>, t_loc: Option<Rect>) -> (cmd: DrawCommand)
        ensures
            cmd.source == (if let Some(t) = t_loc { t } else { self.texture_rect }),
            cmd.target == (if let Some(l) = loc { l } else { self.loc_rect }),
    {
        let source = match t_loc {
            Some(t) => t,
            None => self.texture_rect,
        };
        let target = match loc {
            Some(l) => l,
            None => self.loc_rect,
        };
        DrawCommand { source, target }
    }
}

/// One texture of the atlas: its key and the rectangle it fills.
#[derive(Clone, Copy, Debug, PartialEq, Eq, Structural)]
pub struct AtlasEntry {
    pub key: TextureType,
    pub rect: Rect,
}

/// An image that goes into the atlas: its key and its size in pixels.
#[derive(Clone, Copy, Debug, PartialEq, Eq, Structural)]
pub struct TextureSource {
    pub t_type: TextureType,
    pub width: u32,
    pub height: u32,
}

/// The atlas rectangle of a texture as it is used for drawing, given the
/// rectangle `raw` that the texture fills and the variant `die` of a world
/// tile.
pub open spec fn spec_rect_for(t_type: TextureType, raw: Rect, die: int) -> Rect {
    match t_type {
        TextureType::UI { .. } => Rect::spec_new(
            raw.x as int,
            raw.y as int,
            TEXTURE_UI_WIDTH as int,
            TEXTURE_UI_HEIGHT as int,
        ),
        TextureType::World { tile_index } => if tile_index != 0 {
            Rect::spec_new(
                die * raw.x,
                raw.y as int,
                TEXTURE_WORLD_WIDTH as int,
                TEXTURE_WORLD_HEIGHT as int,
            )
        } else {
            Rect::spec_new(
                raw.x as int,
                raw.y as int,
                TEXTURE_WORLD_WIDTH as int,
                TEXTURE_WORLD_HEIGHT as int,
            )
        },
        TextureType::Building { .. } => Rect::spec_new(
            raw.x as int,
            raw.y as int,
            TEXTURE_BUILDING_WIDTH as int,
            TEXTURE_BUILDING_HEIGHT as int,
        ),
        TextureType::Filler => Rect::spec_new(0, 0, 32, 32),
    }
}

/// Sum of the heights of the first `n` sources.
pub open spec fn spec_total_height(sources: Seq<TextureSource>, n: int) -> int
    decreases n,
{
    if n <= 0 {
        0
    } else {
        spec_total_height(sources, n - 1) + sources[n - 1].height
    }
}

/// Largest width among the first `n` sources; zero for none.
pub open spec fn spec_max_width(sources: Seq<TextureSource>, n: int) -> int
    decreases n,
{
    if n <= 0 {
        0
    } else {
        let rest = spec_max_width(sources, n - 1);
        if sources[n - 1].width > rest {
            sources[n - 1].width as int
        } else {
            rest
        }
    }
}

/// The rectangle that source `i` fills: at the left edge, below all the
/// sources before it.
pub open spec fn spec_slot(sources: Seq<TextureSource>, i: int) -> Rect {
    Rect::spec_new(
        0,
        (spec_total_height(sources, i) as u32) as i32 as int,
        sources[i].width as int,
        sources[i].height as int,
    )
}

/// The table that the first `n` sources give: each key with the rectangle of
/// the last source that carries it.
pub open spec fn spec_layout(sources: Seq<TextureSource>, n: int) -> Map<TextureType, Rect>
    decreases n,
{
    if n <= 0 {
        Map::empty()
    } else {
        spec_layout(sources, n - 1).insert(sources[n - 1].t_type, spec_slot(sources, n - 1))
    }
}

/// The heights only add up: a longer prefix is at least as high.
pub proof fn lemma_total_height_grows(sources: Seq<TextureSource>, i: int, n: int)
    requires
        0 <= i <= n,
    ensures
        0 <= spec_total_height(sources, i) <= spec_total_height(sources, n),
    decreases n - i,
{
    if i < n {
        lemma_total_height_grows(sources, i, n - 1);
    } else {
        lemma_total_height_nonnegative(sources, i);
    }
}

proof fn lemma_total_height_nonnegative(sources: Seq<TextureSource>, n: int)
    ensures
        0 <= spec_total_height(sources, n),
    decreases n,
{
    if n > 0 {
        lemma_total_height_nonnegative(sources, n - 1);
    }
}

/// A number drawn uniformly from `0..3` with the thread's generator of the
/// `rand` crate (`Uniform::from(0..3)` sampled once). Believed of it: the
/// number lies in that range. Nothing is said about which one comes.
#[verifier::external_body]
fn roll_die() -> (die: i32)
    ensures
        0 <= die < 3,
{
    rand::distributions::Distribution::sample(
        &rand::distributions::Uniform::from(0..3),
        &mut rand::thread_rng(),
    )
}

/// Where each texture lies in the atlas.
pub struct TextureManager {
    locations: Vec<AtlasEntry>,
}

impl View for TextureManager {
    type V = Map<TextureType, Rect>;

    closed spec fn view(&self) -> Map<TextureType, Rect> {
        Map::new(
            |t: TextureType| self.holds(t),
            |t: TextureType| self.locations[self.index_of(t)].rect,
        )
    }
}

impl TextureManager {
    spec fn holds(&self, t_type: TextureType) -> bool {
        exists|i: int| 0 <= i < self.locations.len() && (#[trigger] self.locations[i]).key == t_type
    }

    spec fn index_of(&self, t_type: TextureType) -> int {
        choose|i: int| 0 <= i < self.locations.len() && (#[trigger] self.locations[i]).key == t_type
    }

    /// No key is stored twice.
    pub closed spec fn keys_distinct(&self) -> bool {
        forall|i: int, j: int|
            0 <= i < j < self.locations.len() ==> (#[trigger] self.locations[i]).key != (
            #[trigger] self.locations[j]).key
    }

    /// The table is a vertical strip: every rectangle starts at `x = 0` and
    /// is inside the coordinate range.
    pub open spec fn wf(&self) -> bool {
        &&& self.keys_distinct()
        &&& forall|t: TextureType|
            self@.dom().contains(t) ==> (#[trigger] self@[t]).x == 0 && self@[t].in_range()
    }

    /// The rectangle used to draw `t_type`. As every entry starts at
    /// `x = 0`, the variant of a world tile does not move it.
    pub open spec fn spec_get_rect(&self, t_type: TextureType) -> Rect {
        spec_rect_for(t_type, self@[t_type], 0)
    }

    /// An empty table.
    pub fn new() -> (atlas: TextureManager)
        ensures
            atlas.wf(),
            atlas@ == Map::<TextureType, Rect>::empty(),
    {
        let atlas = TextureManager { locations: Vec::new() };
        atlas
    }

    fn find(&self, t_type: TextureType) -> (found: Option<usize>)
        ensures
            match found {
                Some(i) => i < self.locations.len() && self.locations[i as int].key == t_type,
                None => !self.holds(t_type),
            },
    {
        let mut i: usize = 0;
        while i < self.locations.len()
            invariant
                i <= self.locations.len(),
                forall|k: int| 0 <= k < i ==> (#[trigger] self.locations[k]).key != t_type,
            decreases self.locations.len() - i,
        {
            if self.locations[i].key == t_type {
                return Some(i);
            }
            i += 1;
        }
        None
    }

    proof fn lemma_lookup(&self, i: int)
        requires
            self.keys_distinct(),
            0 <= i < self.locations.len(),
        ensures
            self@.dom().contains(self.locations[i].key),
            self@[self.locations[i].key] == self.locations[i].rect,
    {
    }

    /// Stores `rect` under `key`, in place of what was stored under it.
    fn insert(&mut self, key: TextureType, rect: Rect)
        requires
            old(self).wf(),
            rect.x == 0,
            rect.in_range(),
        ensures
            final(self).wf(),
            final(self)@ == old(self)@.insert(key, rect),
    {
        let ghost before = *self;
        let found = self.find(key);
        match found {
            Some(i) => {
                self.locations[i] = AtlasEntry { key, rect };
            },
            None => {
                self.locations.push(AtlasEntry { key, rect });
            },
        }
        proof {
            let after = *self;
            assert forall|t: TextureType| after.holds(t) <==> (before.holds(t) || t == key) by {
                if after.holds(t) {
                    let j = after.index_of(t);
                }
                if before.holds(t) {
                    let j = before.index_of(t);
                    assert(after.locations[j].key == t);
                }
                if t == key {
                    match found {
                        Some(i) => {
                        },
                        None => {
                            assert(after.locations[before.locations.len() as int].key == t);
                        },
                    }
                }
            }
            assert forall|t: TextureType| after.holds(t) implies after@[t] == before@.insert(
                key,
                rect,
            )[t] by {
                let j = after.index_of(t);
                after.lemma_lookup(j);
                if t != key {
                    before.lemma_lookup(j);
                } else {
                    match found {
                        Some(i) => {
                        },
                        None => {
                        },
                    }
                }
            }
        }
    }

    /// Lays the sources out as a vertical strip, one below the other in the
    /// order given, and makes that the table. Returns the width and the
    /// height of the strip. A key that comes twice keeps its last place.
    pub fn update(&mut self, sources: &Vec<TextureSource>) -> (size: (u32, u32))
        requires
            spec_total_height(sources@, sources.len() as int) <= u32::MAX,
        ensures
            final(self).wf(),
            final(self)@ == spec_layout(sources@, sources.len() as int),
            size.0 == spec_max_width(sources@, sources.len() as int),
            size.1 == spec_total_height(sources@, sources.len() as int),
    {
        self.locations = Vec::new();
        let mut max_width: u32 = 0;
        let mut total_height: u32 = 0;
        let mut i: usize = 0;
        while i < sources.len()
            invariant
                i <= sources.len(),
                self.wf(),
                self@ == spec_layout(sources@, i as int),
                max_width == spec_max_width(sources@, i as int),
                total_height == spec_total_height(sources@, i as int),
                spec_total_height(sources@, sources.len() as int) <= u32::MAX,
            decreases sources.len() - i,
        {
            let source = sources[i];
            proof {
                lemma_total_height_grows(sources@, i as int + 1, sources.len() as int);
            }
            let value = Rect::new(
                0,
                #[verifier::truncate]
                (total_height as i32),
                source.width,
                source.height,
            );
            self.insert(source.t_type, value);
            if source.width > max_width {
                max_width = source.width;
            }
            total_height += source.height;
            i += 1;
        }
        (max_width, total_height)
    }

    /// Whether the table holds `t_type`.
    pub fn contains(&self, t_type: TextureType) -> (b: bool)
        ensures
            b == self@.dom().contains(t_type),
    {
        self.find(t_type).is_some()
    }

    /// The rectangle that `t_type` fills in the atlas.
    pub fn get_rect_raw(&self, t_type: TextureType) -> (r: Rect)
        requires
            self.wf(),
            self@.dom().contains(t_type),
        ensures
            r == self@[t_type],
    {
        let found = self.find(t_type);
        match found {
            Some(i) => {
                self.locations[i].rect
            },
            None => Rect { x: 0, y: 0, w: 1, h: 1 },
        }
    }

    /// The rectangle used to draw `t_type`, for the variant `die` of a world
    /// tile.
    pub fn get_rect_with(&self, t_type: TextureType, die: i32) -> (r: Rect)
        requires
            self.wf(),
            self@.dom().contains(t_type),
            0 <= die < 3,
        ensures
            r == spec_rect_for(t_type, self@[t_type], die as int),
            r == self.spec_get_rect(t_type),
            r.in_range(),
    {
        let raw = self.get_rect_raw(t_type);
        match t_type {
            TextureType::UI { .. } => Rect::new(raw.x, raw.y, TEXTURE_UI_WIDTH, TEXTURE_UI_HEIGHT),
            TextureType::World { tile_index } => {
                if tile_index != 0 {
                    Rect::new(die * raw.x, raw.y, TEXTURE_WORLD_WIDTH, TEXTURE_WORLD_HEIGHT)
                } else {
                    Rect::new(raw.x, raw.y, TEXTURE_WORLD_WIDTH, TEXTURE_WORLD_HEIGHT)
                }
            },
            TextureType::Building { .. } => Rect::new(
                raw.x,
                raw.y,
                TEXTURE_BUILDING_WIDTH,
                TEXTURE_BUILDING_HEIGHT,
            ),
            TextureType::Filler => Rect::new(0, 0, 32, 32),
        }
    }

    /// The rectangle used to draw `t_type`. A world tile other than the
    /// grid tile draws a variant by chance.
    pub fn get_rect(&self, t_type: TextureType) -> (r: Rect)
        requires
            self.wf(),
            self@.dom().contains(t_type),
        ensures
            exists|die: int| 0 <= die < 3 && r == spec_rect_for(t_type, self@[t_type], die),
            r == self.spec_get_rect(t_type),
            r.in_range(),
    {
        let die: i32 = match t_type {
            TextureType::World { tile_index } => {
                if tile_index != 0 {
                    roll_die()
                } else {
                    0
                }
            },
            _ => 0,
        };
        let r = self.get_rect_with(t_type, die);
        r
    }

    /// The table as a list: every key that is held, once, with its
    /// rectangle.
    pub fn entries(&self) -> (list: Vec<AtlasEntry>)
        requires
            self.wf(),
        ensures
            forall|i: int|
                0 <= i < list.len() ==> self@.dom().contains((#[trigger] list[i]).key) && self@[list[i].key]
                    == list[i].rect,
            forall|t: TextureType|
                self@.dom().contains(t) ==> exists|i: int|
                    0 <= i < list.len() && (#[trigger] list[i]).key == t,
            forall|i: int, j: int|
                0 <= i < j < list.len() ==> (#[trigger] list[i]).key != (#[trigger] list[j]).key,
    {
        let list = self.locations.clone();
        list
    }
}

} // verus!
