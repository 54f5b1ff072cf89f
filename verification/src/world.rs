//! The world: its tiles, and the grid of cells on which buildings stand.
//!
//! The grid is indexed `grid[column][row]`: the first index grows with x,
//! the second with y. A cell is `CELL_SIZE` world units wide and high.

use vstd::prelude::*;
use crate::general::Collidable;
use crate::geometry::{clamp_position_wide, Point, Rect, spec_div_trunc, MAX_COORD};
use crate::sprite::{DrawCommand, Sprite, TextureManager, TextureType};

verus! {

/// Edge length of a grid cell in world units.
pub const CELL_SIZE: i32 = 25;

/// Edge length of a world tile in world units.
pub const TILE_SIZE: i32 = 50;

/// Atlas offset of a free cell's picture.
pub const MARKER_BASE: i32 = 0;

/// Atlas offset of an occupied cell's picture.
pub const MARKER_OCCUPIED: i32 = 64;

/// Atlas offset of a highlighted cell's picture.
pub const MARKER_HIGHLIGHTED: i32 = 128;

/// How far beyond the viewport tiles are still drawn.
pub const RENDER_MARGIN: i32 = 100;

/// The block of cells that a rectangle covers: the columns
/// `cell_x .. cell_x + cell_w` and the rows `cell_y .. cell_y + cell_h`.
#[derive(Clone, Copy, Debug, PartialEq, Eq, Structural)]
pub struct Footprint {
    pub cell_x: i32,
    pub cell_y: i32,
    pub cell_w: i32,
    pub cell_h: i32,
}

impl Footprint {
    /// The cell in column `i` and row `j` belongs to the block.
    pub open spec fn covers(&self, i: int, j: int) -> bool {
        &&& self.cell_x <= i < self.cell_x + self.cell_w
        &&& self.cell_y <= j < self.cell_y + self.cell_h
    }

    /// The block holds at least one cell.
    pub open spec fn spec_nonempty(&self) -> bool {
        self.cell_w > 0 && self.cell_h > 0
    }
}

pub open spec fn spec_footprint(rect: Rect) -> Footprint {
    Footprint {
        cell_x: spec_div_trunc(rect.x as int, CELL_SIZE as int) as i32,
        cell_y: spec_div_trunc(rect.y as int, CELL_SIZE as int) as i32,
        cell_w: spec_div_trunc(rect.w as int, CELL_SIZE as int) as i32,
        cell_h: spec_div_trunc(rect.h as int, CELL_SIZE as int) as i32,
    }
}

/// The cells that a world rectangle covers: position and size divided by
/// the cell size, each rounded towards zero.
pub fn footprint(rect: Rect) -> (f: Footprint)
    ensures
        f == spec_footprint(rect),
{
    Footprint {
        cell_x: rect.x / CELL_SIZE,
        cell_y: rect.y / CELL_SIZE,
        cell_w: rect.w / CELL_SIZE,
        cell_h: rect.h / CELL_SIZE,
    }
}

/// The atlas offset that shows a cell's state: occupied wins over
/// highlighted, highlighted over free.
pub open spec fn spec_marker(occupied: bool, highlighted: bool) -> i32 {
    if occupied {
        MARKER_OCCUPIED
    } else if highlighted {
        MARKER_HIGHLIGHTED
    } else {
        MARKER_BASE
    }
}

/// One cell of the grid: whether a building stands on it, whether the
/// placement preview lies on it, and the picture that shows both.
#[derive(Clone, Copy, Debug, PartialEq, Eq, Structural)]
pub struct Cell {
    pub sprite: Sprite,
    pub occupied: bool,
    pub highlighted: bool,
}

/// One of the four changes that a cell can undergo.
#[derive(Clone, Copy, Debug, PartialEq, Eq, Structural)]
pub enum CellChange {
    Occupy,
    Deoccupy,
    Highlight,
    Dehighlight,
}

impl Cell {
    /// The picture shows the state.
    pub open spec fn wf(&self) -> bool {
        self.sprite.texture_rect.x == spec_marker(self.occupied, self.highlighted)
    }

    pub open spec fn spec_with(self, occupied: bool, highlighted: bool) -> Cell {
        Cell {
            sprite: Sprite {
                texture_rect: Rect {
                    x: spec_marker(occupied, highlighted),
                    ..self.sprite.texture_rect
                },
                ..self.sprite
            },
            occupied,
            highlighted,
        }
    }

    pub open spec fn spec_occupy(self) -> Cell {
        self.spec_with(true, self.highlighted)
    }

    pub open spec fn spec_deoccupy(self) -> Cell {
        self.spec_with(false, self.highlighted)
    }

    /// Highlighting leaves the picture of an occupied cell alone.
    pub open spec fn spec_highlight(self) -> Cell {
        if self.occupied {
            Cell { highlighted: true, ..self }
        } else {
            self.spec_with(false, true)
        }
    }

    /// As `spec_highlight`, for taking the highlight away.
    pub open spec fn spec_dehighlight(self) -> Cell {
        if self.occupied {
            Cell { highlighted: false, ..self }
        } else {
            self.spec_with(false, false)
        }
    }

    pub open spec fn spec_change(self, change: CellChange) -> Cell {
        match change {
            CellChange::Occupy => self.spec_occupy(),
            CellChange::Deoccupy => self.spec_deoccupy(),
            CellChange::Highlight => self.spec_highlight(),
            CellChange::Dehighlight => self.spec_dehighlight(),
        }
    }

    pub open spec fn spec_new(location: Point, t_type: TextureType, atlas: &TextureManager) -> Cell {
        Cell {
            sprite: Sprite::spec_new(
                Rect::spec_new(
                    location.x as int,
                    location.y as int,
                    CELL_SIZE as int,
                    CELL_SIZE as int,
                ),
                t_type,
                atlas,
            ),
            occupied: false,
            highlighted: false,
        }
    }

    /// A free cell with its upper left corner at `location`.
    pub fn new(location: Point, t_type: TextureType, atlas: &TextureManager) -> (c: Cell)
        requires
            atlas.wf(),
            atlas@.dom().contains(t_type),
        ensures
            c == Cell::spec_new(location, t_type, atlas),
            c.wf(),
    {
        Cell {
            sprite: Sprite::new(Rect::new(location.x, location.y, 25, 25), t_type, atlas),
            occupied: false,
            highlighted: false,
        }
    }

    pub fn occupy(&mut self)
        ensures
            *final(self) == old(self).spec_occupy(),
            final(self).wf(),
    {
        self.occupied = true;
        self.sprite.texture_rect.x = MARKER_OCCUPIED;
    }

    pub fn _deoccupy(&mut self)
        ensures
            *final(self) == old(self).spec_deoccupy(),
            final(self).wf(),
    {
        self.occupied = false;
        if self.highlighted {
            self.sprite.texture_rect.x = MARKER_HIGHLIGHTED;
        } else {
            self.sprite.texture_rect.x = MARKER_BASE;
        }
    }

    pub fn highlight(&mut self)
        ensures
            *final(self) == old(self).spec_highlight(),
            old(self).wf() ==> final(self).wf(),
    {
        self.highlighted = true;
        if !self.occupied {
            self.sprite.texture_rect.x = MARKER_HIGHLIGHTED;
        }
    }

    pub fn dehighlight(&mut self)
        ensures
            *final(self) == old(self).spec_dehighlight(),
            old(self).wf() ==> final(self).wf(),
    {
        self.highlighted = false;
        if !self.occupied {
            self.sprite.texture_rect.x = MARKER_BASE;
        }
    }

    /// Carries out `change`.
    pub fn change(&mut self, change: CellChange)
        ensures
            *final(self) == old(self).spec_change(change),
            old(self).wf() ==> final(self).wf(),
    {
        match change {
            CellChange::Occupy => self.occupy(),
            CellChange::Deoccupy => self._deoccupy(),
            CellChange::Highlight => self.highlight(),
            CellChange::Dehighlight => self.dehighlight(),
        }
    }

    pub fn render(&self) -> (cmd: DrawCommand)
        ensures
            cmd == (DrawCommand { source: self.sprite.texture_rect, target: self.sprite.loc_rect }),
    {
        self.sprite.render()
    }

    pub fn get_loc_rect(&self) -> (r: Rect)
        ensures
            r == self.sprite.loc_rect,
    {
        self.sprite.get_loc_rect()
    }
}

/// The grid has a cell in column `i`, row `j`.
pub open spec fn cell_exists(cells: Seq<Seq<Cell>>, i: int, j: int) -> bool {
    0 <= i < cells.len() && 0 <= j < cells[i].len()
}

/// Every cell of the footprint exists.
pub open spec fn grid_in_bounds(cells: Seq<Seq<Cell>>, f: Footprint) -> bool {
    forall|i: int, j: int| #[trigger] f.covers(i, j) ==> cell_exists(cells, i, j)
}

/// Every cell of the footprint exists and is free.
pub open spec fn grid_can_place(cells: Seq<Seq<Cell>>, f: Footprint) -> bool {
    forall|i: int, j: int| #[trigger]
        f.covers(i, j) ==> cell_exists(cells, i, j) && !cells[i][j].occupied
}

/// The grid after `change` has been made to every cell of the footprint.
pub open spec fn grid_change(cells: Seq<Seq<Cell>>, f: Footprint, change: CellChange) -> Seq<
    Seq<Cell>,
> {
    Seq::new(
        cells.len(),
        |i: int|
            Seq::new(
                cells[i].len(),
                |j: int|
                    if f.covers(i, j) {
                        cells[i][j].spec_change(change)
                    } else {
                        cells[i][j]
                    },
            ),
    )
}

/// Every column has as many rows as the first.
pub open spec fn grid_rectangular(cells: Seq<Seq<Cell>>) -> bool {
    forall|i: int| 0 <= i < cells.len() ==> (#[trigger] cells[i]).len() == cells[0].len()
}

/// In every cell the picture shows the state.
pub open spec fn grid_cells_wf(cells: Seq<Seq<Cell>>) -> bool {
    forall|i: int, j: int| cell_exists(cells, i, j) ==> (#[trigger] cells[i][j]).wf()
}

/// Number of columns.
pub open spec fn grid_columns(cells: Seq<Seq<Cell>>) -> int {
    cells.len() as int
}

/// Number of rows, taken from the first column.
pub open spec fn grid_rows(cells: Seq<Seq<Cell>>) -> int {
    if cells.len() > 0 {
        cells[0].len() as int
    } else {
        0
    }
}

/// A grid as the rest of the crate expects it: rectangular, with
/// consistent cells, and small enough for its extent in world units to be a
/// coordinate.
pub open spec fn grid_wf(cells: Seq<Seq<Cell>>) -> bool {
    &&& grid_rectangular(cells)
    &&& grid_cells_wf(cells)
    &&& grid_columns(cells) * CELL_SIZE <= MAX_COORD
    &&& grid_rows(cells) * CELL_SIZE <= MAX_COORD
}

/// The cells of an executable grid as sequences.
pub open spec fn grid_view(grid: Vec<Vec<Cell>>) -> Seq<Seq<Cell>> {
    Seq::new(grid.len() as nat, |i: int| grid[i]@)
}

/// The clamp-then-snap step on one axis: `position` is limited to at most
/// `grid_extent - footprint_extent`, raised to at least zero, and moved
/// down to a multiple of the cell size.
pub open spec fn spec_clamp_snap(position: int, grid_extent: int, footprint_extent: int) -> int {
    let limited = if position < grid_extent - footprint_extent {
        position
    } else {
        grid_extent - footprint_extent
    };
    let clamped = if limited > 0 {
        limited
    } else {
        0
    };
    clamped - clamped % (CELL_SIZE as int)
}

/// The clamp-then-snap step on one axis. The result is a multiple of the
/// cell size and not negative; where the footprint is no larger than the
/// grid, it ends inside the grid.
pub fn clamp_snap(position: i64, grid_extent: i32, footprint_extent: i32) -> (snapped: i32)
    requires
        0 <= grid_extent <= MAX_COORD,
        0 <= footprint_extent,
    ensures
        snapped == spec_clamp_snap(position as int, grid_extent as int, footprint_extent as int),
        snapped % CELL_SIZE == 0,
        0 <= snapped <= MAX_COORD,
        footprint_extent <= grid_extent ==> snapped + footprint_extent <= grid_extent,
{
    let limit: i64 = grid_extent as i64 - footprint_extent as i64;
    let limited: i64 = if position < limit {
        position
    } else {
        limit
    };
    let clamped: i64 = if limited > 0 {
        limited
    } else {
        0
    };
    let snapped: i64 = clamped - clamped % 25;
    snapped as i32
}

/// A footprint of `f`'s size fits on the grid somewhere.
pub open spec fn grid_has_room(cells: Seq<Seq<Cell>>, f: Footprint) -> bool {
    f.cell_w <= grid_columns(cells) && f.cell_h <= grid_rows(cells)
}

/// The rectangle `rect` moved to where the clamp-then-snap step puts it
/// for the wanted position `(x, y)`.
pub open spec fn spec_snapped_rect(cells: Seq<Seq<Cell>>, rect: Rect, x: int, y: int) -> Rect {
    Rect {
        x: spec_clamp_snap(
            x,
            grid_columns(cells) * CELL_SIZE,
            spec_footprint(rect).cell_w * CELL_SIZE,
        ) as i32,
        y: spec_clamp_snap(
            y,
            grid_rows(cells) * CELL_SIZE,
            spec_footprint(rect).cell_h * CELL_SIZE,
        ) as i32,
        ..rect
    }
}

/// The law of the clamp-then-snap step: whatever position is wanted, the
/// position that comes out is a multiple of the cell size on both axes, and
/// the footprint there lies entirely on the grid. It is stated for
/// rectangles whose footprint fits on the grid at all; a larger one cannot
/// lie on it anywhere.
pub proof fn lemma_clamp_snap_on_grid(cells: Seq<Seq<Cell>>, rect: Rect, x: int, y: int)
    requires
        grid_wf(cells),
        rect.in_range(),
        grid_has_room(cells, spec_footprint(rect)),
    ensures
        spec_snapped_rect(cells, rect, x, y).x % CELL_SIZE == 0,
        spec_snapped_rect(cells, rect, x, y).y % CELL_SIZE == 0,
        grid_in_bounds(cells, spec_footprint(spec_snapped_rect(cells, rect, x, y))),
{
}

/// The round trip of occupancy: a footprint that can be built on cannot be
/// built on once it is occupied, and freeing it again gives back the very
/// grid there was before, on which it can be built on again. It is stated
/// for footprints that hold a cell: one without cells occupies nothing.
pub proof fn lemma_occupy_round_trip(cells: Seq<Seq<Cell>>, f: Footprint)
    requires
        grid_wf(cells),
        grid_can_place(cells, f),
        f.spec_nonempty(),
    ensures
        !grid_can_place(grid_change(cells, f, CellChange::Occupy), f),
        grid_change(grid_change(cells, f, CellChange::Occupy), f, CellChange::Deoccupy) == cells,
        grid_can_place(
            grid_change(grid_change(cells, f, CellChange::Occupy), f, CellChange::Deoccupy),
            f,
        ),
{
    let taken = grid_change(cells, f, CellChange::Occupy);
    let freed = grid_change(taken, f, CellChange::Deoccupy);
    assert(f.covers(f.cell_x as int, f.cell_y as int));
    assert forall|i: int| 0 <= i < cells.len() implies #[trigger] freed[i] == cells[i] by {
        assert forall|j: int| 0 <= j < cells[i].len() implies #[trigger] freed[i][j]
            == cells[i][j] by {}
    }
}

/// Highlighting is independent of occupancy: putting a highlight on a
/// footprint, or taking it off, changes for no footprint whether it can be
/// built on.
pub proof fn lemma_highlight_keeps_occupancy(
    cells: Seq<Seq<Cell>>,
    f: Footprint,
    change: CellChange,
    g: Footprint,
)
    requires
        change == CellChange::Highlight || change == CellChange::Dehighlight,
    ensures
        grid_can_place(grid_change(cells, f, change), g) == grid_can_place(cells, g),
        grid_in_bounds(grid_change(cells, f, change), g) == grid_in_bounds(cells, g),
{
}

/// The sprites of an executable table of sprites as sequences.
pub open spec fn sprites_view(sprites: Vec<Vec<Sprite>>) -> Seq<Seq<Sprite>> {
    Seq::new(sprites.len() as nat, |i: int| sprites[i]@)
}

/// The key of the world tile that the map code `code` stands for.
pub open spec fn spec_tile_type(code: i32) -> TextureType {
    TextureType::World { tile_index: code as usize }
}

/// The key of the picture of a grid cell.
pub open spec fn spec_grid_texture() -> TextureType {
    TextureType::World { tile_index: 0 }
}

/// The sprite of the tile in column `i`, row `j` of the map.
pub open spec fn spec_tile_sprite(
    encode: Seq<Vec<i32>>,
    atlas: &TextureManager,
    i: int,
    j: int,
) -> Sprite {
    Sprite::spec_new(
        Rect::spec_new(i * TILE_SIZE, j * TILE_SIZE, TILE_SIZE as int, TILE_SIZE as int),
        spec_tile_type(encode[i][j]),
        atlas,
    )
}

/// The sprites of all tiles of the map.
pub open spec fn spec_tile_sprites(encode: Seq<Vec<i32>>, atlas: &TextureManager) -> Seq<
    Seq<Sprite>,
> {
    Seq::new(
        encode.len(),
        |i: int| Seq::new(encode[i].len() as nat, |j: int| spec_tile_sprite(encode, atlas, i, j)),
    )
}

/// The grid that belongs to the map: two columns and two rows of free cells
/// for every tile.
pub open spec fn spec_grid(encode: Seq<Vec<i32>>, atlas: &TextureManager) -> Seq<Seq<Cell>> {
    Seq::new(
        2 * encode.len(),
        |i: int|
            Seq::new(
                (2 * encode[i / 2].len()) as nat,
                |j: int|
                    Cell::spec_new(
                        Point::spec_new(i * CELL_SIZE, j * CELL_SIZE),
                        spec_grid_texture(),
                        atlas,
                    ),
            ),
    )
}

/// The map's extent in world units fits in an `i32`, column by column.
pub open spec fn spec_encode_fits(encode: Seq<Vec<i32>>) -> bool {
    &&& encode.len() * TILE_SIZE <= i32::MAX
    &&& forall|i: int| 0 <= i < encode.len() ==> (#[trigger] encode[i]).len() * TILE_SIZE <= i32::MAX
}

/// The atlas holds the texture of every tile of the map.
pub open spec fn spec_tiles_loaded(encode: Seq<Vec<i32>>, atlas: &TextureManager) -> bool {
    forall|i: int, j: int|
        0 <= i < encode.len() && 0 <= j < encode[i].len() ==> atlas@.dom().contains(
            #[trigger] spec_tile_type(encode[i][j]),
        )
}

/// The atlas holds the picture of a grid cell, if the map has a tile at all.
pub open spec fn spec_grid_loaded(encode: Seq<Vec<i32>>, atlas: &TextureManager) -> bool {
    (exists|i: int| 0 <= i < encode.len() && (#[trigger] encode[i]).len() > 0)
        ==> atlas@.dom().contains(spec_grid_texture())
}

/// Every column of the map has as many rows as the first, and the map's
/// extent is a coordinate.
pub open spec fn spec_encode_regular(encode: Seq<Vec<i32>>) -> bool {
    &&& forall|i: int| 0 <= i < encode.len() ==> (#[trigger] encode[i]).len() == encode[0].len()
    &&& encode.len() * TILE_SIZE <= MAX_COORD
    &&& encode.len() > 0 ==> encode[0].len() * TILE_SIZE <= MAX_COORD
}

/// The viewport widened by the drawing margin on every side of its origin:
/// moved up and left by the margin, and made wider and higher by it.
pub open spec fn spec_render_viewport(viewport: Rect) -> Rect {
    Rect {
        x: crate::geometry::spec_clamp_position(viewport.x - RENDER_MARGIN) as i32,
        y: crate::geometry::spec_clamp_position(viewport.y - RENDER_MARGIN) as i32,
        w: crate::geometry::spec_clamp_size((viewport.w as u32) + RENDER_MARGIN) as i32,
        h: crate::geometry::spec_clamp_size((viewport.h as u32) + RENDER_MARGIN) as i32,
    }
}

/// The draw commands of those among the first `n` sprites of a row that lie
/// inside `view`, in order.
pub open spec fn spec_visible_in_row(row: Seq<Sprite>, view: Rect, n: int) -> Seq<DrawCommand>
    decreases n,
{
    if n <= 0 {
        Seq::empty()
    } else {
        let rest = spec_visible_in_row(row, view, n - 1);
        if view.spec_contains_rect(row[n - 1].loc_rect) {
            rest.push(DrawCommand { source: row[n - 1].texture_rect, target: row[n - 1].loc_rect })
        } else {
            rest
        }
    }
}

/// The draw commands of the sprites inside `view` among the first `m` rows,
/// row after row.
pub open spec fn spec_visible(rows: Seq<Seq<Sprite>>, view: Rect, m: int) -> Seq<DrawCommand>
    decreases m,
{
    if m <= 0 {
        Seq::empty()
    } else {
        spec_visible(rows, view, m - 1) + spec_visible_in_row(
            rows[m - 1],
            view,
            rows[m - 1].len() as int,
        )
    }
}

/// The sprites of the cells of a grid.
pub open spec fn cell_sprites(cells: Seq<Seq<Cell>>) -> Seq<Seq<Sprite>> {
    Seq::new(cells.len(), |i: int| Seq::new(cells[i].len(), |j: int| cells[i][j].sprite))
}

/// Represents the current map; its extent also bounds the camera.
pub struct World {
    pub world_sprites: Vec<Vec<Sprite>>,
    pub world_encode: Vec<Vec<i32>>,
    pub grid: Vec<Vec<Cell>>,
}

impl World {
    /// The grid as sequences of cells, column by column.
    pub open spec fn cells(&self) -> Seq<Seq<Cell>> {
        grid_view(self.grid)
    }

    pub open spec fn wf(&self) -> bool {
        grid_wf(self.cells())
    }

    /// Whether every cell of the footprint exists.
    pub fn in_bounds(&self, f: Footprint) -> (ok: bool)
        ensures
            ok == grid_in_bounds(self.cells(), f),
    {
        let ghost cells = self.cells();
        if f.cell_w <= 0 || f.cell_h <= 0 {
            return true;
        }
        if f.cell_x < 0 || f.cell_y < 0 {
            assert(f.covers(f.cell_x as int, f.cell_y as int));
            return false;
        }
        let end_x: u64 = f.cell_x as u64 + f.cell_w as u64;
        let end_y: u64 = f.cell_y as u64 + f.cell_h as u64;
        if end_x > self.grid.len() as u64 {
            assert(f.covers(end_x - 1, f.cell_y as int));
            return false;
        }
        let mut i: usize = f.cell_x as usize;
        while i < end_x as usize
            invariant
                f.cell_x <= i <= end_x <= self.grid.len(),
                end_x == f.cell_x + f.cell_w,
                end_y == f.cell_y + f.cell_h,
                f.cell_y >= 0,
                f.cell_h > 0,
                cells == self.cells(),
                forall|a: int| f.cell_x <= a < i ==> end_y <= (#[trigger] cells[a]).len(),
            decreases end_x - i,
        {
            if end_y > self.grid[i].len() as u64 {
                assert(f.covers(i as int, end_y - 1));
                return false;
            }
            i += 1;
        }
        true
    }

    /// Whether the footprint can be built on: every cell of it exists and
    /// none is occupied.
    pub fn can_place(&self, f: Footprint) -> (ok: bool)
        ensures
            ok == grid_can_place(self.cells(), f),
    {
        let ghost cells = self.cells();
        if !self.in_bounds(f) {
            return false;
        }
        if f.cell_w <= 0 || f.cell_h <= 0 {
            return true;
        }
        assert(f.covers(f.cell_x as int, f.cell_y as int));
        assert(f.covers(f.cell_x + f.cell_w - 1, f.cell_y + f.cell_h - 1));
        let x0: usize = f.cell_x as usize;
        let x1: usize = x0 + f.cell_w as usize;
        let y0: usize = f.cell_y as usize;
        let y1: usize = y0 + f.cell_h as usize;
        let mut i: usize = x0;
        while i < x1
            invariant
                x0 <= i <= x1 <= self.grid.len(),
                x0 == f.cell_x,
                x1 == f.cell_x + f.cell_w,
                y0 == f.cell_y,
                y1 == f.cell_y + f.cell_h,
                y0 < y1,
                cells == self.cells(),
                grid_in_bounds(cells, f),
                forall|a: int, b: int| #[trigger]
                    f.covers(a, b) && a < i ==> !cells[a][b].occupied,
            decreases x1 - i,
        {
            let mut j: usize = y0;
            assert(f.covers(i as int, y1 - 1));
            while j < y1
                invariant
                    x0 <= i < x1 <= self.grid.len(),
                    x0 == f.cell_x,
                    x1 == f.cell_x + f.cell_w,
                    y0 == f.cell_y,
                    y1 == f.cell_y + f.cell_h,
                    y0 <= j <= y1 <= self.grid[i as int].len(),
                    cells == self.cells(),
                    grid_in_bounds(cells, f),
                    forall|a: int, b: int| #[trigger]
                        f.covers(a, b) && (a < i || (a == i && b < j)) ==> !cells[a][b].occupied,
                decreases y1 - j,
            {
                if self.grid[i][j].occupied {
                    assert(f.covers(i as int, j as int));
                    return false;
                }
                j += 1;
            }
            i += 1;
        }
        true
    }

    /// Makes `change` to every cell of the footprint, column by column.
    fn change_cells(&mut self, f: Footprint, change: CellChange)
        requires
            grid_in_bounds(old(self).cells(), f),
        ensures
            final(self).cells() == grid_change(old(self).cells(), f, change),
            final(self).world_sprites == old(self).world_sprites,
            final(self).world_encode == old(self).world_encode,
            old(self).wf() ==> final(self).wf(),
    {
        let ghost before = self.cells();
        if f.cell_w > 0 && f.cell_h > 0 {
            assert(f.covers(f.cell_x as int, f.cell_y as int));
            assert(f.covers(f.cell_x + f.cell_w - 1, f.cell_y + f.cell_h - 1));
            let x0: usize = f.cell_x as usize;
            let x1: usize = x0 + f.cell_w as usize;
            let y0: usize = f.cell_y as usize;
            let y1: usize = y0 + f.cell_h as usize;
            let mut i: usize = x0;
            while i < x1
                invariant
                    x0 <= i <= x1 <= self.grid.len(),
                    x0 == f.cell_x,
                    x1 == f.cell_x + f.cell_w,
                    y0 == f.cell_y,
                    y1 == f.cell_y + f.cell_h,
                    y0 < y1,
                    grid_in_bounds(before, f),
                    self.world_sprites == old(self).world_sprites,
                    self.world_encode == old(self).world_encode,
                    self.grid.len() == before.len(),
                    forall|a: int|
                        0 <= a < before.len() ==> (#[trigger] self.grid[a]).len() == before[a].len(),
                    forall|a: int, b: int|
                        cell_exists(before, a, b) ==> #[trigger] self.grid[a][b] == (if f.covers(
                            a,
                            b,
                        ) && a < i {
                            before[a][b].spec_change(change)
                        } else {
                            before[a][b]
                        }),
                decreases x1 - i,
            {
                let mut j: usize = y0;
                assert(f.covers(i as int, y1 - 1));
                while j < y1
                    invariant
                        x0 <= i < x1 <= self.grid.len(),
                        x0 == f.cell_x,
                        x1 == f.cell_x + f.cell_w,
                        y0 == f.cell_y,
                        y1 == f.cell_y + f.cell_h,
                        y0 <= j <= y1 <= before[i as int].len(),
                        grid_in_bounds(before, f),
                        self.world_sprites == old(self).world_sprites,
                        self.world_encode == old(self).world_encode,
                        self.grid.len() == before.len(),
                        forall|a: int|
                            0 <= a < before.len() ==> (#[trigger] self.grid[a]).len()
                                == before[a].len(),
                        forall|a: int, b: int|
                            cell_exists(before, a, b) ==> #[trigger] self.grid[a][b] == (
                            if f.covers(a, b) && (a < i || (a == i && b < j)) {
                                before[a][b].spec_change(change)
                            } else {
                                before[a][b]
                            }),
                    decreases y1 - j,
                {
                    self.grid[i][j].change(change);
                    j += 1;
                }
                i += 1;
            }
        }
        proof {
            let after = self.cells();
            let goal = grid_change(before, f, change);
            assert forall|a: int| 0 <= a < after.len() implies #[trigger] after[a] == goal[a] by {
                assert forall|b: int| 0 <= b < after[a].len() implies #[trigger] after[a][b]
                    == goal[a][b] by {}
            }
        }
    }

    /// Marks every cell of the footprint as occupied.
    pub fn occupy(&mut self, f: Footprint)
        requires
            grid_in_bounds(old(self).cells(), f),
        ensures
            final(self).cells() == grid_change(old(self).cells(), f, CellChange::Occupy),
            final(self).world_sprites == old(self).world_sprites,
            final(self).world_encode == old(self).world_encode,
            old(self).wf() ==> final(self).wf(),
    {
        self.change_cells(f, CellChange::Occupy);
    }

    /// Marks every cell of the footprint as free.
    pub fn deoccupy(&mut self, f: Footprint)
        requires
            grid_in_bounds(old(self).cells(), f),
        ensures
            final(self).cells() == grid_change(old(self).cells(), f, CellChange::Deoccupy),
            final(self).world_sprites == old(self).world_sprites,
            final(self).world_encode == old(self).world_encode,
            old(self).wf() ==> final(self).wf(),
    {
        self.change_cells(f, CellChange::Deoccupy);
    }

    /// Highlights every cell of the footprint. Occupancy is not touched.
    pub fn highlight(&mut self, f: Footprint)
        requires
            grid_in_bounds(old(self).cells(), f),
        ensures
            final(self).cells() == grid_change(old(self).cells(), f, CellChange::Highlight),
            final(self).world_sprites == old(self).world_sprites,
            final(self).world_encode == old(self).world_encode,
            old(self).wf() ==> final(self).wf(),
    {
        self.change_cells(f, CellChange::Highlight);
    }

    /// Takes the highlight from every cell of the footprint. Occupancy is
    /// not touched.
    pub fn dehighlight(&mut self, f: Footprint)
        requires
            grid_in_bounds(old(self).cells(), f),
        ensures
            final(self).cells() == grid_change(old(self).cells(), f, CellChange::Dehighlight),
            final(self).world_sprites == old(self).world_sprites,
            final(self).world_encode == old(self).world_encode,
            old(self).wf() ==> final(self).wf(),
    {
        self.change_cells(f, CellChange::Dehighlight);
    }

    /// What drawing the world with `viewport` gives: the tiles inside the
    /// widened viewport and, if asked for, the grid cells inside it.
    pub open spec fn spec_render(&self, viewport: Rect, show_grid: bool) -> Seq<DrawCommand> {
        let view = spec_render_viewport(viewport);
        let tiles = sprites_view(self.world_sprites);
        let cells = cell_sprites(self.cells());
        spec_visible(tiles, view, tiles.len() as int) + (if show_grid {
            spec_visible(cells, view, cells.len() as int)
        } else {
            Seq::empty()
        })
    }

    /// A world for the map `world_encode`, with a sprite for every tile and
    /// a grid of free cells over it.
    pub fn new(world_encode: Vec<Vec<i32>>, atlas: &TextureManager) -> (world: World)
        requires
            atlas.wf(),
            spec_encode_fits(world_encode@),
            spec_tiles_loaded(world_encode@, atlas),
            spec_grid_loaded(world_encode@, atlas),
        ensures
            world.world_encode == world_encode,
            sprites_view(world.world_sprites) == spec_tile_sprites(world_encode@, atlas),
            world.cells() == spec_grid(world_encode@, atlas),
            spec_encode_regular(world_encode@) ==> world.wf(),
    {
        let ghost given = world_encode;
        let mut new_world = World {
            world_encode,
            grid: Vec::new(),
            world_sprites: Vec::new(),
        };
        let ghost encode = new_world.world_encode@;
        new_world.load_sprites(atlas);
        let ghost goal = spec_grid(encode, atlas);
        let columns: usize = new_world.world_sprites.len() * 2;
        let mut i: usize = 0;
        while i < columns
            invariant
                i <= columns,
                atlas.wf(),
                spec_encode_fits(encode),
                spec_grid_loaded(encode, atlas),
                new_world.world_encode == given,
                columns == 2 * encode.len(),
                sprites_view(new_world.world_sprites) == spec_tile_sprites(encode, atlas),
                new_world.world_sprites.len() == encode.len(),
                goal == spec_grid(encode, atlas),
                new_world.grid.len() == i,
                forall|a: int| 0 <= a < i ==> (#[trigger] new_world.grid[a])@ == goal[a],
            decreases columns - i,
        {
            let mut grid_row: Vec<Cell> = Vec::new();
            assert(sprites_view(new_world.world_sprites)[i as int / 2] == spec_tile_sprites(
                encode,
                atlas,
            )[i as int / 2]);
            let rows: usize = new_world.world_sprites[i / 2].len() * 2;
            let mut j: usize = 0;
            while j < rows
                invariant
                    j <= rows,
                    i < columns,
                    atlas.wf(),
                    spec_encode_fits(encode),
                    spec_grid_loaded(encode, atlas),
                    columns == 2 * encode.len(),
                    rows == 2 * encode[i as int / 2].len(),
                    goal == spec_grid(encode, atlas),
                    grid_row.len() == j,
                    forall|b: int| 0 <= b < j ==> #[trigger] grid_row[b] == goal[i as int][b],
                decreases rows - j,
            {
                let cell = Cell::new(
                    Point::new(i as i32 * CELL_SIZE, j as i32 * CELL_SIZE),
                    TextureType::World { tile_index: 0 },
                    atlas,
                );
                grid_row.push(cell);
                j += 1;
            }
            new_world.grid.push(grid_row);
            i += 1;
        }
        new_world
    }

    /// Adds the sprites of all tiles of the map to `world_sprites`, one row
    /// of sprites for each column of the map.
    pub fn load_sprites(&mut self, atlas: &TextureManager)
        requires
            atlas.wf(),
            spec_encode_fits(old(self).world_encode@),
            spec_tiles_loaded(old(self).world_encode@, atlas),
        ensures
            final(self).world_encode == old(self).world_encode,
            final(self).grid == old(self).grid,
            sprites_view(final(self).world_sprites) == sprites_view(old(self).world_sprites)
                + spec_tile_sprites(old(self).world_encode@, atlas),
    {
        let ghost encode = self.world_encode@;
        let ghost before = sprites_view(self.world_sprites);
        let ghost goal = spec_tile_sprites(encode, atlas);
        let mut i: usize = 0;
        while i < self.world_encode.len()
            invariant
                i <= self.world_encode.len(),
                atlas.wf(),
                self.world_encode@ == encode,
                self.world_encode == old(self).world_encode,
                self.grid == old(self).grid,
                spec_encode_fits(encode),
                spec_tiles_loaded(encode, atlas),
                goal == spec_tile_sprites(encode, atlas),
                self.world_sprites.len() == before.len() + i,
                forall|a: int| 0 <= a < before.len() ==> (#[trigger] self.world_sprites[a])@ == before[a],
                forall|a: int| 0 <= a < i ==> (#[trigger] self.world_sprites[before.len() + a])@ == goal[a],
            decreases self.world_encode.len() - i,
        {
            let mut temp_sprites: Vec<Sprite> = Vec::new();
            let mut j: usize = 0;
            while j < self.world_encode[i].len()
                invariant
                    j <= self.world_encode[i as int].len(),
                    i < self.world_encode.len(),
                    atlas.wf(),
                    self.world_encode@ == encode,
                    spec_encode_fits(encode),
                    spec_tiles_loaded(encode, atlas),
                    goal == spec_tile_sprites(encode, atlas),
                    temp_sprites.len() == j,
                    forall|b: int| 0 <= b < j ==> #[trigger] temp_sprites[b] == goal[i as int][b],
                decreases self.world_encode[i as int].len() - j,
            {
                let code: i32 = self.world_encode[i][j];
                assert(atlas@.dom().contains(spec_tile_type(encode[i as int][j as int])));
                let sprite = Sprite::new(
                    Rect::new(i as i32 * TILE_SIZE, j as i32 * TILE_SIZE, 50, 50),
                    TextureType::World {
                        tile_index: #[verifier::truncate]
                        (code as usize),
                    },
                    atlas,
                );
                temp_sprites.push(sprite);
                j += 1;
            }
            self.world_sprites.push(temp_sprites);
            i += 1;
        }
        proof {
            let after = sprites_view(self.world_sprites);
            assert forall|a: int| 0 <= a < after.len() implies #[trigger] after[a] == (before
                + goal)[a] by {
                if a >= before.len() {
                    assert(self.world_sprites[before.len() + (a - before.len())]@ == goal[a
                        - before.len()]);
                }
            }
        }
    }

    /// The commands that draw the world as seen through `viewport`: the
    /// tiles first, the grid after them if `show_grid` is set. What lies
    /// outside the widened viewport is left out.
    pub fn render(&self, viewport: Rect, show_grid: bool) -> (commands: Vec<DrawCommand>)
        ensures
            commands@ == self.spec_render(viewport, show_grid),
    {
        let mut view: Rect = viewport;
        view.w = widen(view.width());
        view.h = widen(view.height());
        view.x = clamp_position_wide(view.x as i64 - RENDER_MARGIN as i64);
        view.y = clamp_position_wide(view.y as i64 - RENDER_MARGIN as i64);
        let mut commands: Vec<DrawCommand> = Vec::new();
        let ghost tiles = sprites_view(self.world_sprites);
        let mut i: usize = 0;
        while i < self.world_sprites.len()
            invariant
                i <= self.world_sprites.len(),
                tiles == sprites_view(self.world_sprites),
                commands@ == spec_visible(tiles, view, i as int),
            decreases self.world_sprites.len() - i,
        {
            let ghost base = commands@;
            let mut j: usize = 0;
            while j < self.world_sprites[i].len()
                invariant
                    i < self.world_sprites.len(),
                    j <= self.world_sprites[i as int].len(),
                    tiles == sprites_view(self.world_sprites),
                    commands@ == base + spec_visible_in_row(tiles[i as int], view, j as int),
                decreases self.world_sprites[i as int].len() - j,
            {
                let tile: Sprite = self.world_sprites[i][j];
                if view.contains_rect(tile.loc_rect) {
                    commands.push(tile.render());
                }
                j += 1;
            }
            i += 1;
        }
        if show_grid {
            let ghost drawn = commands@;
            let ghost cells = cell_sprites(self.cells());
            let mut i: usize = 0;
            while i < self.grid.len()
                invariant
                    i <= self.grid.len(),
                    cells == cell_sprites(self.cells()),
                    commands@ == drawn + spec_visible(cells, view, i as int),
                decreases self.grid.len() - i,
            {
                let ghost base = commands@;
                let mut j: usize = 0;
                while j < self.grid[i].len()
                    invariant
                        i < self.grid.len(),
                        j <= self.grid[i as int].len(),
                        cells == cell_sprites(self.cells()),
                        commands@ == base + spec_visible_in_row(cells[i as int], view, j as int),
                    decreases self.grid[i as int].len() - j,
                {
                    let cell: Cell = self.grid[i][j];
                    if view.contains_rect(cell.get_loc_rect()) {
                        commands.push(cell.render());
                    }
                    j += 1;
                }
                i += 1;
            }
        }
        commands
    }
}

/// A width or height made larger by the drawing margin, as a size.
fn widen(extent: u32) -> (r: i32)
    ensures
        r == crate::geometry::spec_clamp_size(extent + RENDER_MARGIN),
{
    let wide: u64 = extent as u64 + 100;
    if wide > 1073741823u64 {
        MAX_COORD
    } else {
        wide as i32
    }
}

/// Something that stands in the world without belonging to a player.
#[allow(dead_code)]
pub struct WorldObject {
    sprite: Sprite,
    collider: Rect,
    collider_type: Collidable,
}

#[allow(dead_code)]
impl WorldObject {
    pub closed spec fn spec_sprite(&self) -> Sprite {
        self.sprite
    }

    pub closed spec fn spec_collider(&self) -> Rect {
        self.collider
    }

    pub closed spec fn spec_collider_type(&self) -> Collidable {
        self.collider_type
    }

    pub fn new(
        t_type: TextureType,
        collider: Rect,
        collider_type: Collidable,
        atlas: &TextureManager,
    ) -> (object: WorldObject)
        requires
            atlas.wf(),
            atlas@.dom().contains(t_type),
        ensures
            object.spec_sprite() == Sprite::spec_new(collider, t_type, atlas),
            object.spec_collider() == collider,
            object.spec_collider_type() == collider_type,
    {
        WorldObject { sprite: Sprite::new(collider, t_type, atlas), collider, collider_type }
    }

    pub fn render(&self) -> (cmd: DrawCommand)
        ensures
            cmd == (DrawCommand {
                source: self.spec_sprite().texture_rect,
                target: self.spec_sprite().loc_rect,
            }),
    {
        self.sprite.render()
    }

    pub fn get_loc_rect(&self) -> (r: Rect)
        ensures
            r == self.spec_collider(),
    {
        self.collider
    }
}

} // verus!
