//! Buildings, their life cycle and their timed constructions.

use vstd::prelude::*;
use crate::general::{
    gen_button, spec_can_gen_button, spec_gen_button, Collidable, Faction, Selectable,
    Selection, BARRACKS_BUILD_TIME, CCBUILD_TIME,
};
use crate::geometry::{Point, Rect, MAX_COORD};
use crate::sprite::{DrawCommand, Sprite, TextureManager, TextureType};
use crate::ui::{copy_elements, Button, ButtonFunction, UiElement};
use crate::world::{
    clamp_snap, footprint, grid_change, grid_columns, grid_has_room, grid_in_bounds, grid_rows,
    grid_view, grid_wf, spec_clamp_snap, spec_footprint, Cell, CellChange, Footprint, World,
    CELL_SIZE,
};
use stopwatch::Stopwatch;

verus! {

/// Where a building stands in its life: produced but not yet put down,
/// following the pointer as a ghost, or standing on the grid.
#[derive(Clone, Copy, Debug, PartialEq, Eq, Structural)]
pub enum BuildingStatus {
    Built,
    Placing,
    NotBuilt,
}

/// The kinds of buildings. Size and build time hang on the kind alone.
#[derive(Clone, Copy, Debug, PartialEq, Eq, Hash, Structural)]
pub enum BuildingType {
    CommandCentre,
    Barracks,
}

impl BuildingType {
    /// Every building type, in declaration order.
    pub fn get_all_variants() -> (all: Vec<BuildingType>)
        ensures
            all@ == seq![BuildingType::CommandCentre, BuildingType::Barracks],
    {
        let mut all: Vec<BuildingType> = Vec::new();
        all.push(BuildingType::CommandCentre);
        all.push(BuildingType::Barracks);
        all
    }

    pub open spec fn spec_w(&self) -> u32 {
        match *self {
            BuildingType::CommandCentre => 150,
            BuildingType::Barracks => 100,
        }
    }

    pub open spec fn spec_h(&self) -> u32 {
        match *self {
            BuildingType::CommandCentre => 150,
            BuildingType::Barracks => 100,
        }
    }

    pub open spec fn spec_build_time(&self) -> u64 {
        match *self {
            BuildingType::CommandCentre => CCBUILD_TIME,
            BuildingType::Barracks => BARRACKS_BUILD_TIME,
        }
    }

    pub open spec fn spec_name(&self) -> Seq<char> {
        match *self {
            BuildingType::CommandCentre => "CommandCentre"@,
            BuildingType::Barracks => "Barracks"@,
        }
    }

    /// Width of the footprint in world units.
    pub fn get_w(&self) -> (w: u32)
        ensures
            w == self.spec_w(),
    {
        match self {
            BuildingType::CommandCentre => 150,
            BuildingType::Barracks => 100,
        }
    }

    /// Height of the footprint in world units.
    pub fn get_h(&self) -> (h: u32)
        ensures
            h == self.spec_h(),
    {
        match self {
            BuildingType::CommandCentre => 150,
            BuildingType::Barracks => 100,
        }
    }

    /// Time the type takes to build, in milliseconds.
    pub fn get_build_time(&self) -> (millis: u64)
        ensures
            millis == self.spec_build_time(),
    {
        match self {
            BuildingType::CommandCentre => CCBUILD_TIME,
            BuildingType::Barracks => BARRACKS_BUILD_TIME,
        }
    }

    /// The type's name, spelled as the variant is.
    pub fn name(&self) -> (s: &'static str)
        ensures
            s@ == self.spec_name(),
    {
        match self {
            BuildingType::CommandCentre => "CommandCentre",
            BuildingType::Barracks => "Barracks",
        }
    }
}

/// Number of slots in a button panel.
pub const PANEL_SLOTS: usize = 16;

/// How far to the right of a building's picture its ghost picture lies in
/// the atlas.
pub const GHOST_OFFSET: i32 = 128;

/// `Stopwatch` of the `stopwatch` crate, carried as an opaque value: the
/// crate's verified code never looks inside one.
#[verifier::external_type_specification]
#[verifier::external_body]
pub struct ExStopwatch(Stopwatch);

/// `Stopwatch::new` of the `stopwatch` crate: a stopwatch that is not
/// running. Nothing is claimed of it.
pub assume_specification[ Stopwatch::new ]() -> (timer: Stopwatch);

/// `Stopwatch::start`: notes the present instant as the start. Nothing is
/// claimed of the stopwatch afterwards.
pub assume_specification[ Stopwatch::start ](timer: &mut Stopwatch);

/// `Stopwatch::stop`: freezes the elapsed time. Nothing is claimed of the
/// stopwatch afterwards.
pub assume_specification[ Stopwatch::stop ](timer: &mut Stopwatch);

/// The time that the stopwatch shows (`Stopwatch::elapsed`), in whole
/// milliseconds (`Duration::as_millis`). It depends on the clock, so nothing
/// is claimed of the number.
#[verifier::external_body]
fn elapsed_millis(timer: &Stopwatch) -> (millis: u128) {
    timer.elapsed().as_millis()
}

/// A building in the making: what it will be, for whom, and the stopwatch
/// that times it.
pub struct Construction {
    pub building_type: BuildingType,
    pub faction: Faction,
    pub team: i32,
    pub bottom_right_ui: Vec<UiElement>,
    pub timer: Stopwatch,
    /// Time the construction takes, in milliseconds.
    pub timer_end: u64,
    pub finished: bool,
}

impl Construction {
    /// `after` is this construction after a poll that answered `done`: the
    /// order is the same, `finished` holds the answer, and a poll that finds
    /// the construction finished, or leaves it unfinished, changes nothing.
    pub open spec fn spec_polled(self, after: Construction, done: bool) -> bool {
        &&& after.building_type == self.building_type
        &&& after.faction == self.faction
        &&& after.team == self.team
        &&& after.bottom_right_ui == self.bottom_right_ui
        &&& after.timer_end == self.timer_end
        &&& after.finished == done
        &&& self.finished ==> done && after == self
        &&& !done ==> after == self
    }

    /// A construction of `building_type` that takes `timer_end`
    /// milliseconds, with its stopwatch started now.
    pub fn new(
        building_type: BuildingType,
        faction: Faction,
        team: i32,
        timer_end: u64,
        bottom_right_ui: Vec<UiElement>,
    ) -> (c: Construction)
        ensures
            c.building_type == building_type,
            c.faction == faction,
            c.team == team,
            c.timer_end == timer_end,
            c.bottom_right_ui == bottom_right_ui,
            !c.finished,
    {
        let mut timer = Stopwatch::new();
        timer.start();
        Construction {
            building_type,
            faction,
            team,
            bottom_right_ui,
            timer,
            timer_end,
            finished: false,
        }
    }

    /// Decides a poll from the elapsed time read off the stopwatch: the
    /// construction is done once it was found done before, or once the
    /// elapsed time has reached its duration. On becoming done the
    /// stopwatch is stopped.
    pub fn check_elapsed(&mut self, elapsed_millis: u128) -> (done: bool)
        ensures
            done == (old(self).finished || elapsed_millis >= old(self).timer_end),
            old(self).spec_polled(*final(self), done),
    {
        if self.finished {
            return true;
        }
        if elapsed_millis >= self.timer_end as u128 {
            self.timer.stop();
            self.finished = true;
            return true;
        }
        false
    }

    /// Polls the construction: reads the stopwatch and decides by
    /// `check_elapsed`. Once it has answered `true` it keeps doing so and
    /// changes nothing any more.
    pub fn check_timer(&mut self) -> (done: bool)
        ensures
            old(self).spec_polled(*final(self), done),
    {
        if self.finished {
            return true;
        }
        let elapsed: u128 = elapsed_millis(&self.timer);
        self.check_elapsed(elapsed)
    }

    /// The building that the construction was ordered for, not yet placed,
    /// at the world's origin.
    pub fn build_building(&self, atlas: &TextureManager) -> (b: Building)
        requires
            Building::spec_can_build(
                self.building_type,
                self.faction,
                self.bottom_right_ui@,
                atlas,
            ),
        ensures
            b.spec_is_new(
                Point { x: 0, y: 0 },
                self.building_type,
                self.faction,
                self.team,
                self.bottom_right_ui@,
                atlas,
            ),
    {
        Building::new(
            Point::new(0, 0),
            self.building_type,
            self.faction,
            self.team,
            copy_elements(&self.bottom_right_ui),
            atlas,
        )
    }
}

/// The function of the button in slot `slot` of tier `tier` in the menu of
/// a building of type `building_type`, if the slot holds one.
pub open spec fn spec_menu_slot(building_type: BuildingType, tier: int, slot: int) -> Option<
    ButtonFunction,
> {
    match building_type {
        BuildingType::CommandCentre => if tier == 0 && slot == 0 {
            Some(ButtonFunction::ShowTier1Buildings)
        } else if tier == 0 && slot == 1 {
            Some(ButtonFunction::ShowTier2Buildings)
        } else if tier == 0 && slot == 15 {
            Some(ButtonFunction::PlaceConstruction)
        } else if tier == 1 && slot == 0 {
            Some(ButtonFunction::MakeCC)
        } else if tier == 1 && slot == 1 {
            Some(ButtonFunction::MakeBarracks)
        } else if tier == 1 && slot == 15 {
            Some(ButtonFunction::Back)
        } else if tier == 2 && slot == 15 {
            Some(ButtonFunction::Back)
        } else {
            None
        },
        BuildingType::Barracks => None,
    }
}

/// Number of tiers in the menu of a building of type `building_type`.
pub open spec fn spec_menu_tiers(building_type: BuildingType) -> nat {
    match building_type {
        BuildingType::CommandCentre => 3,
        BuildingType::Barracks => 1,
    }
}

/// The menu of a building of type `building_type`: tier by tier, the
/// sixteen slots with their buttons.
pub open spec fn spec_menu(
    building_type: BuildingType,
    bottom_right_ui: Seq<UiElement>,
    atlas: &TextureManager,
) -> Seq<Seq<Option<Button>>> {
    Seq::new(
        spec_menu_tiers(building_type),
        |tier: int|
            Seq::new(
                PANEL_SLOTS as nat,
                |slot: int|
                    match spec_menu_slot(building_type, tier, slot) {
                        Some(f) => Some(spec_gen_button(atlas, bottom_right_ui, f, slot)),
                        None => None,
                    },
            ),
    )
}

/// The panels of an executable menu as sequences.
pub open spec fn panels_view(buttons: Vec<[Option<Button>; 16]>) -> Seq<Seq<Option<Button>>> {
    Seq::new(buttons.len() as nat, |tier: int| buttons[tier]@)
}

/// A building of a player, with its command menu and, while it produces,
/// its construction.
pub struct Building {
    pub sprite: Sprite,
    pub team: i32,
    pub building_type: BuildingType,
    pub faction: Faction,
    pub collider_type: Collidable,
    pub collider: Rect,
    /// The tiers of the command menu, each a panel of sixteen slots.
    pub buttons: Vec<[Option<Button>; 16]>,
    /// The tier that is shown.
    pub button_panel_index: usize,
    /// The number of tiers.
    pub button_panel_limit: usize,
    pub constructing: Option<Construction>,
    pub status: BuildingStatus,
    /// Set when the player has asked to place a finished construction.
    pub place_construction_flag: bool,
}

impl Building {
    /// The shown tier exists, the tier count is right, and collider and
    /// picture are inside the coordinate range.
    pub open spec fn wf(&self) -> bool {
        &&& self.buttons.len() == self.button_panel_limit
        &&& self.button_panel_index < self.button_panel_limit
        &&& self.collider.in_range()
        &&& self.sprite.texture_rect.in_range()
    }

    /// The key of the picture of a building.
    pub open spec fn spec_texture(building_type: BuildingType, faction: Faction) -> TextureType {
        TextureType::Building { faction, b_type: building_type }
    }

    /// What making a building needs of the atlas and of the panel: the
    /// building's picture is loaded and, where the menu has buttons, so is
    /// the strip of icons, and the panel has its sixteen slots.
    pub open spec fn spec_can_build(
        building_type: BuildingType,
        faction: Faction,
        bottom_right_ui: Seq<UiElement>,
        atlas: &TextureManager,
    ) -> bool {
        &&& atlas.wf()
        &&& atlas@.dom().contains(Building::spec_texture(building_type, faction))
        &&& building_type is CommandCentre ==> spec_can_gen_button(atlas, bottom_right_ui, 15)
    }

    /// The rectangle of a building of type `building_type` at `location`.
    pub open spec fn spec_collider_at(location: Point, building_type: BuildingType) -> Rect {
        Rect::spec_new(
            location.x as int,
            location.y as int,
            building_type.spec_w() as int,
            building_type.spec_h() as int,
        )
    }

    /// This is the building that `new` makes from the arguments given.
    pub open spec fn spec_is_new(
        &self,
        location: Point,
        building_type: BuildingType,
        faction: Faction,
        team: i32,
        bottom_right_ui: Seq<UiElement>,
        atlas: &TextureManager,
    ) -> bool {
        &&& self.team == team
        &&& self.building_type == building_type
        &&& self.faction == faction
        &&& self.collider_type == Collidable::GroundCollidable
        &&& self.collider == Building::spec_collider_at(location, building_type)
        &&& self.sprite == Sprite::spec_new(
            Building::spec_collider_at(location, building_type),
            Building::spec_texture(building_type, faction),
            atlas,
        )
        &&& panels_view(self.buttons) == spec_menu(building_type, bottom_right_ui, atlas)
        &&& self.button_panel_index == 0
        &&& self.button_panel_limit == spec_menu_tiers(building_type)
        &&& self.constructing is None
        &&& self.status == BuildingStatus::NotBuilt
        &&& !self.place_construction_flag
        &&& self.wf()
    }

    /// A building of type `building_type` at `location`, produced but not
    /// yet placed, with its command menu laid out over the panel
    /// `bottom_right_ui`.
    pub fn new(
        location: Point,
        building_type: BuildingType,
        faction: Faction,
        team: i32,
        bottom_right_ui: Vec<UiElement>,
        atlas: &TextureManager,
    ) -> (b: Building)
        requires
            Building::spec_can_build(building_type, faction, bottom_right_ui@, atlas),
        ensures
            b.spec_is_new(location, building_type, faction, team, bottom_right_ui@, atlas),
    {
        let mut new_building = Building {
            team,
            building_type,
            faction,
            buttons: Vec::new(),
            button_panel_index: 0,
            button_panel_limit: 1,
            place_construction_flag: false,
            status: BuildingStatus::NotBuilt,
            collider_type: Collidable::GroundCollidable,
            collider: Rect::new(
                location.x,
                location.y,
                building_type.get_w(),
                building_type.get_h(),
            ),
            constructing: None,
            sprite: Sprite::new(
                Rect::new(location.x, location.y, building_type.get_w(), building_type.get_h()),
                TextureType::Building { faction, b_type: building_type },
                atlas,
            ),
        };
        Building::init_buttons(&mut new_building, bottom_right_ui, atlas);
        assert(panels_view(new_building.buttons).len() == new_building.buttons.len());
        new_building
    }

    /// Lays out the command menu of the building's type.
    fn init_buttons(building: &mut Building, bottom_right_ui: Vec<UiElement>, atlas: &TextureManager)
        requires
            old(building).buttons.len() == 0,
            atlas.wf(),
            old(building).building_type is CommandCentre ==> spec_can_gen_button(
                atlas,
                bottom_right_ui@,
                15,
            ),
        ensures
            panels_view(final(building).buttons) == spec_menu(
                old(building).building_type,
                bottom_right_ui@,
                atlas,
            ),
            final(building).button_panel_limit == spec_menu_tiers(old(building).building_type),
            *final(building) == (Building {
                buttons: final(building).buttons,
                button_panel_limit: final(building).button_panel_limit,
                ..*old(building)
            }),
    {
        let ghost ui = bottom_right_ui@;
        match building.faction {
            Faction::PlaceholderFaction1 => {
                match building.building_type {
                    BuildingType::CommandCentre => {
                        building.button_panel_limit = 3;
                        building.buttons.push([None; 16]);
                        building.buttons.push([None; 16]);
                        building.buttons.push([None; 16]);

                        building.buttons[0][0] = gen_button(
                            atlas,
                            copy_elements(&bottom_right_ui),
                            ButtonFunction::ShowTier1Buildings,
                            0,
                        );
                        building.buttons[0][1] = gen_button(
                            atlas,
                            copy_elements(&bottom_right_ui),
                            ButtonFunction::ShowTier2Buildings,
                            1,
                        );
                        building.buttons[0][15] = gen_button(
                            atlas,
                            copy_elements(&bottom_right_ui),
                            ButtonFunction::PlaceConstruction,
                            15,
                        );

                        building.buttons[1][0] = gen_button(
                            atlas,
                            copy_elements(&bottom_right_ui),
                            ButtonFunction::MakeCC,
                            0,
                        );
                        building.buttons[1][1] = gen_button(
                            atlas,
                            copy_elements(&bottom_right_ui),
                            ButtonFunction::MakeBarracks,
                            1,
                        );
                        building.buttons[1][15] = gen_button(
                            atlas,
                            copy_elements(&bottom_right_ui),
                            ButtonFunction::Back,
                            15,
                        );

                        building.buttons[2][15] = gen_button(
                            atlas,
                            copy_elements(&bottom_right_ui),
                            ButtonFunction::Back,
                            15,
                        );
                    },
                    BuildingType::Barracks => {
                        building.button_panel_limit = 1;
                        building.buttons.push([None; 16]);
                    },
                }
            },
        }
        proof {
            let got = panels_view(building.buttons);
            let goal = spec_menu(building.building_type, ui, atlas);
            assert forall|tier: int| 0 <= tier < got.len() implies #[trigger] got[tier]
                == goal[tier] by {
                assert forall|slot: int| 0 <= slot < 16 implies #[trigger] got[tier][slot]
                    == goal[tier][slot] by {}
            }
        }
    }

    pub fn _get_texture_type(&self) -> (t: TextureType)
        ensures
            t == Building::spec_texture(self.building_type, self.faction),
    {
        TextureType::Building { faction: self.faction, b_type: self.building_type }
    }

    /// The cells that the building's collider covers.
    pub open spec fn spec_footprint(&self) -> Footprint {
        spec_footprint(self.collider)
    }

    /// The cells that the building's collider covers.
    pub fn footprint(&self) -> (f: Footprint)
        ensures
            f == self.spec_footprint(),
    {
        footprint(self.collider)
    }

    pub fn width_in_cells(&self) -> (cells: i32)
        ensures
            cells == self.spec_footprint().cell_w,
    {
        self.collider.w / CELL_SIZE
    }

    pub fn height_in_cells(&self) -> (cells: i32)
        ensures
            cells == self.spec_footprint().cell_h,
    {
        self.collider.h / CELL_SIZE
    }

    pub fn x_in_cells(&self) -> (cells: i32)
        ensures
            cells == self.spec_footprint().cell_x,
    {
        self.collider.x / CELL_SIZE
    }

    pub fn y_in_cells(&self) -> (cells: i32)
        ensures
            cells == self.spec_footprint().cell_y,
    {
        self.collider.y / CELL_SIZE
    }

    /// The building with tier `tier` shown. A tier that the menu does not
    /// have is not shown: the building stays as it is.
    pub open spec fn spec_show_tier(self, tier: usize) -> Building {
        if tier < self.button_panel_limit {
            Building { button_panel_index: tier, ..self }
        } else {
            self
        }
    }

    /// `after` is this building after a request to produce a
    /// `building_type`: a building that is already producing stays as it
    /// is; any other gets a fresh, unfinished construction of that type for
    /// its own faction and team, and nothing else about it changes.
    pub open spec fn spec_started(
        self,
        building_type: BuildingType,
        bottom_right_ui: Seq<UiElement>,
        after: Building,
    ) -> bool {
        if self.constructing is Some {
            after == self
        } else {
            &&& after.constructing matches Some(c)
            &&& c.building_type == building_type
            &&& c.faction == self.faction
            &&& c.team == self.team
            &&& c.timer_end == building_type.spec_build_time()
            &&& c.bottom_right_ui@ == bottom_right_ui
            &&& !c.finished
            &&& after == (Building { constructing: after.constructing, ..self })
        }
    }

    /// `after` is this building after `function` was dispatched to it.
    /// Navigation changes the shown tier, a production request may start a
    /// construction, a placement request sets the flag; every other function
    /// has no effect here.
    pub open spec fn spec_executed(
        self,
        function: ButtonFunction,
        bottom_right_ui: Seq<UiElement>,
        after: Building,
    ) -> bool {
        match function {
            ButtonFunction::ShowTier1Buildings => after == self.spec_show_tier(1),
            ButtonFunction::ShowTier2Buildings => after == self.spec_show_tier(2),
            ButtonFunction::Back => after == self.spec_show_tier(0),
            ButtonFunction::MakeBarracks => self.spec_started(
                BuildingType::Barracks,
                bottom_right_ui,
                after,
            ),
            ButtonFunction::MakeCC => self.spec_started(
                BuildingType::CommandCentre,
                bottom_right_ui,
                after,
            ),
            ButtonFunction::PlaceConstruction => after == (Building {
                place_construction_flag: true,
                ..self
            }),
            _ => after == self,
        }
    }

    /// Carries out the function of a button of this building's menu.
    /// `bottom_right_ui` is the panel of the player who owns the building;
    /// a construction that is started keeps it for the menu of the building
    /// it will give.
    pub fn execute_fn(&mut self, function: ButtonFunction, bottom_right_ui: Vec<UiElement>)
        ensures
            old(self).spec_executed(function, bottom_right_ui@, *final(self)),
            old(self).wf() ==> final(self).wf(),
    {
        match function {
            ButtonFunction::ShowTier1Buildings => {
                self.set_button_panel(1);
            },
            ButtonFunction::ShowTier2Buildings => {
                self.set_button_panel(2);
            },
            ButtonFunction::Back => {
                self.set_button_panel(0);
            },
            ButtonFunction::MakeBarracks => {
                self.start_construction(BuildingType::Barracks, bottom_right_ui);
            },
            ButtonFunction::MakeCC => {
                self.start_construction(BuildingType::CommandCentre, bottom_right_ui);
            },
            ButtonFunction::PlaceConstruction => {
                self.place_construction_flag = true;
            },
            _ => {},
        }
    }

    /// Polls the building's construction; see `Construction::check_timer`.
    /// There has to be a construction to poll.
    pub fn construction_done(&mut self) -> (done: bool)
        requires
            old(self).constructing is Some,
        ensures
            final(self).constructing is Some,
            old(self).constructing.unwrap().spec_polled(final(self).constructing.unwrap(), done),
            *final(self) == (Building { constructing: final(self).constructing, ..*old(self) }),
    {
        match &mut self.constructing {
            Some(temp_con) => temp_con.check_timer(),
            None => false,
        }
    }

    /// Hands out what a finished construction has produced: a new building
    /// of the ordered type, not yet placed, at the world's origin. The
    /// construction is cleared by this; the producing building is not
    /// changed otherwise. Without a finished construction there is nothing
    /// to hand out and nothing changes.
    pub fn get_constructed(&mut self, atlas: &TextureManager) -> (produced: Option<Building>)
        requires
            old(self).constructing matches Some(c) ==> (c.finished ==> Building::spec_can_build(
                c.building_type,
                c.faction,
                c.bottom_right_ui@,
                atlas,
            )),
        ensures
            match produced {
                Some(b) => {
                    &&& old(self).constructing matches Some(c)
                    &&& c.finished
                    &&& b.spec_is_new(
                        Point { x: 0, y: 0 },
                        c.building_type,
                        c.faction,
                        c.team,
                        c.bottom_right_ui@,
                        atlas,
                    )
                    &&& *final(self) == (Building { constructing: None, ..*old(self) })
                },
                None => {
                    &&& !(old(self).constructing matches Some(c) && c.finished)
                    &&& *final(self) == *old(self)
                },
            },
    {
        let produced = match &self.constructing {
            Some(temp_con) => {
                if temp_con.finished {
                    Some(temp_con.build_building(atlas))
                } else {
                    None
                }
            },
            None => None,
        };
        if produced.is_some() {
            self.constructing = None;
        }
        produced
    }

    fn set_button_panel(&mut self, index: usize)
        ensures
            *final(self) == old(self).spec_show_tier(index),
    {
        if index < self.button_panel_limit {
            self.button_panel_index = index;
        }
    }

    /// Where the ghost goes on the x axis for a pointer at `mouse_point` on
    /// a screen that shows the world from `cam_viewport` on.
    pub open spec fn spec_ghost_x(
        self,
        mouse_point: Point,
        cam_viewport: Rect,
        cells: Seq<Seq<Cell>>,
    ) -> int {
        spec_clamp_snap(
            cam_viewport.x + mouse_point.x - self.collider.w + CELL_SIZE,
            grid_columns(cells) * CELL_SIZE,
            self.spec_footprint().cell_w * CELL_SIZE,
        )
    }

    /// Where the ghost goes on the y axis.
    pub open spec fn spec_ghost_y(
        self,
        mouse_point: Point,
        cam_viewport: Rect,
        cells: Seq<Seq<Cell>>,
    ) -> int {
        spec_clamp_snap(
            cam_viewport.y + mouse_point.y - self.collider.h + CELL_SIZE,
            grid_rows(cells) * CELL_SIZE,
            self.spec_footprint().cell_h * CELL_SIZE,
        )
    }

    /// The building with collider and picture moved to `(x, y)`.
    pub open spec fn spec_moved_to(self, x: i32, y: i32) -> Building {
        Building {
            collider: Rect { x, y, ..self.collider },
            sprite: Sprite { loc_rect: Rect { x, y, ..self.sprite.loc_rect }, ..self.sprite },
            ..self
        }
    }

    /// Moves the building under the pointer: the pointer's world position
    /// is taken for the lower right cell of the building, clamped so that
    /// the building stays on the grid, and snapped to the cell size.
    /// The grid is only read, and it may be empty. The grid's extent has to
    /// be a coordinate, and so has the building's collider.
    pub fn move_building(
        &mut self,
        mouse_point: Point,
        cam_viewport: Rect,
        grid: &mut Vec<Vec<Cell>>,
    )
        requires
            old(self).collider.in_range(),
            grid_columns(grid_view(*old(grid))) * CELL_SIZE <= MAX_COORD,
            grid_rows(grid_view(*old(grid))) * CELL_SIZE <= MAX_COORD,
        ensures
            *final(grid) == *old(grid),
            *final(self) == old(self).spec_moved_to(
                old(self).spec_ghost_x(mouse_point, cam_viewport, grid_view(*old(grid))) as i32,
                old(self).spec_ghost_y(mouse_point, cam_viewport, grid_view(*old(grid))) as i32,
            ),
            final(self).collider.x % CELL_SIZE == 0,
            final(self).collider.y % CELL_SIZE == 0,
            final(self).collider.in_range(),
            old(self).wf() ==> final(self).wf(),
            grid_wf(grid_view(*old(grid))) && grid_has_room(
                grid_view(*old(grid)),
                old(self).spec_footprint(),
            ) ==> grid_in_bounds(grid_view(*old(grid)), final(self).spec_footprint()),
    {
        let columns: usize = grid.len();
        let rows: usize = if columns > 0 {
            grid[0].len()
        } else {
            0
        };
        let pointer_x: i64 = cam_viewport.x as i64 + mouse_point.x as i64 - self.collider.w as i64
            + 25;
        let pointer_y: i64 = cam_viewport.y as i64 + mouse_point.y as i64 - self.collider.h as i64
            + 25;
        let x: i32 = clamp_snap(pointer_x, columns as i32 * CELL_SIZE, self.width_in_cells() * CELL_SIZE);
        let y: i32 = clamp_snap(pointer_y, rows as i32 * CELL_SIZE, self.height_in_cells() * CELL_SIZE);
        self.sprite.set_location(Point { x, y });
        self.collider.x = x;
        self.collider.y = y;
    }

    /// Highlights the cells under the building, which have to exist.
    pub fn highlight_cells(&self, game_map: &mut World)
        requires
            grid_in_bounds(old(game_map).cells(), self.spec_footprint()),
        ensures
            final(game_map).cells() == grid_change(
                old(game_map).cells(),
                self.spec_footprint(),
                CellChange::Highlight,
            ),
            final(game_map).world_sprites == old(game_map).world_sprites,
            final(game_map).world_encode == old(game_map).world_encode,
            old(game_map).wf() ==> final(game_map).wf(),
    {
        game_map.highlight(self.footprint());
    }

    /// Takes the highlight from the cells under the building, which have to
    /// exist.
    pub fn dehighlight_cells(&self, game_map: &mut World)
        requires
            grid_in_bounds(old(game_map).cells(), self.spec_footprint()),
        ensures
            final(game_map).cells() == grid_change(
                old(game_map).cells(),
                self.spec_footprint(),
                CellChange::Dehighlight,
            ),
            final(game_map).world_sprites == old(game_map).world_sprites,
            final(game_map).world_encode == old(game_map).world_encode,
            old(game_map).wf() ==> final(game_map).wf(),
    {
        game_map.dehighlight(self.footprint());
    }

    /// Requests the production of a `building_type`. A building produces
    /// one thing at a time: while a construction is pending the request is
    /// dropped without a trace.
    pub fn start_construction(&mut self, building_type: BuildingType, bottom_right_ui: Vec<UiElement>)
        ensures
            old(self).spec_started(building_type, bottom_right_ui@, *final(self)),
            old(self).wf() ==> final(self).wf(),
    {
        if self.constructing.is_none() {
            self.constructing = Some(
                Construction::new(
                    building_type,
                    self.faction,
                    self.team,
                    building_type.get_build_time(),
                    bottom_right_ui,
                ),
            );
        }
    }

    /// How the building is drawn: as it is when built, with the ghost
    /// picture while it is being placed, and not at all before.
    pub open spec fn spec_render(&self) -> Option<DrawCommand> {
        match self.status {
            BuildingStatus::Built => Some(
                DrawCommand { source: self.sprite.texture_rect, target: self.sprite.loc_rect },
            ),
            BuildingStatus::Placing => Some(
                DrawCommand {
                    source: Rect {
                        x: (self.sprite.texture_rect.x + GHOST_OFFSET) as i32,
                        ..self.sprite.texture_rect
                    },
                    target: self.sprite.loc_rect,
                },
            ),
            BuildingStatus::NotBuilt => None,
        }
    }

    /// The command that draws the building, if it is drawn at all.
    pub fn render(&self) -> (cmd: Option<DrawCommand>)
        requires
            self.sprite.texture_rect.x + GHOST_OFFSET <= i32::MAX,
        ensures
            cmd == self.spec_render(),
    {
        match self.status {
            BuildingStatus::Built => Some(self.sprite.render()),
            BuildingStatus::Placing => {
                let mut temp_rect: Rect = self.sprite.texture_rect;
                temp_rect.x += GHOST_OFFSET;
                Some(self.sprite.render_with_custom(None, Some(temp_rect)))
            },
            BuildingStatus::NotBuilt => None,
        }
    }

    pub fn get_loc_rect(&self) -> (r: Rect)
        ensures
            r == self.sprite.loc_rect,
    {
        self.sprite.get_loc_rect()
    }
}

impl Selectable for Building {
    open spec fn spec_has_buttons(&self) -> bool {
        self.button_panel_index < self.buttons.len()
    }

    open spec fn spec_buttons(&self) -> Seq<Option<Button>> {
        self.buttons[self.button_panel_index as int]@
    }

    fn get_selection(&self, index: usize) -> (s: Selection)
        ensures
            s == Selection::Building(index),
    {
        Selection::Building(index)
    }

    /// The panel of the tier that is shown.
    fn get_buttons(&self) -> (panel: &[Option<Button>; 16]) {
        &self.buttons[self.button_panel_index]
    }
}

/// The once-done-stays-done law of polling: after a poll that answered
/// `true`, every further poll answers `true` and changes nothing.
pub proof fn lemma_done_is_final(
    before: Construction,
    between: Construction,
    after: Construction,
    first: bool,
    second: bool,
)
    requires
        before.spec_polled(between, first),
        between.spec_polled(after, second),
        first,
    ensures
        second,
        after == between,
{
}

/// The one-construction-at-a-time law: a production request to a building
/// that is already producing changes nothing.
pub proof fn lemma_second_request_is_dropped(
    building: Building,
    building_type: BuildingType,
    bottom_right_ui: Seq<UiElement>,
    after: Building,
)
    requires
        building.constructing is Some,
        building.spec_started(building_type, bottom_right_ui, after),
    ensures
        after == building,
        after.constructing == building.constructing,
{
}

} // verus!
