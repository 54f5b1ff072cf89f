//! The player: owner of the buildings, of the selection and of the panel,
//! and the place where clicks are resolved.
//!
//! Buildings are referred to by their index in `buildings` only. Entries
//! are appended and never removed, so an index that was valid stays valid.

use vstd::prelude::*;
use crate::building::{Building, BuildingStatus, BuildingType};
use crate::general::{
    gen_button, lemma_max_z_bounded, spec_button_texture, spec_gen_button, Faction, Selectable,
    Selection,
};
use crate::geometry::{Point, Rect};
use crate::sprite::{DrawCommand, Sprite, TextureManager, TextureType};
use crate::ui::{
    copy_elements, spec_organized, Button, ButtonFunction, UIManager, UIProperties, UiElement,
    XAlignment, YAlignment,
};
use crate::unit::Unit;
use crate::world::{
    cell_exists, grid_can_place, grid_change, grid_has_room, grid_in_bounds, Cell, CellChange,
    World,
};

verus! {

/// One player: what they own, what they have selected, and their panel.
pub struct Player {
    pub buildings: Vec<Building>,
    pub units: Vec<Unit>,
    pub faction: Faction,
    /// The panel in the lower right corner: its container, followed by the
    /// sixteen slots for buttons.
    pub bottom_right_ui: Vec<UiElement>,
    pub selected: Selection,
    /// A building is following the pointer as a ghost.
    pub placing_building: bool,
    /// The menu that replaces every building's panel while a placement is
    /// requested.
    pub construction_buttons: [Option<Button>; 16],
}

/// Edge length of the panel's container on screen.
pub const PANEL_SIZE: u32 = 280;

/// Distance between the slots of the panel, from origin to origin.
pub const SLOT_STEP: i32 = 60;

/// Distance of the first slot from the container's origin.
pub const SLOT_INSET: i32 = 30;

/// The texture of the panel's container and of its slots.
pub open spec fn spec_panel_texture() -> TextureType {
    TextureType::UI { type_index: 1 }
}

/// The panel's container: a square in the lower right corner of the
/// viewport.
pub open spec fn spec_container(viewport: Rect, atlas: &TextureManager) -> UiElement {
    spec_organized(
        viewport,
        UiElement::spec_new(
            Sprite::spec_new(
                Rect::spec_new(0, 0, PANEL_SIZE as int, PANEL_SIZE as int),
                spec_panel_texture(),
                atlas,
            ),
            Some(
                UIProperties {
                    x_align: XAlignment::Right,
                    y_align: YAlignment::Bottom,
                    margin: 0,
                    t_padding: 0,
                    b_padding: 0,
                    l_padding: 0,
                    r_padding: 0,
                    z_layer: 0,
                },
            ),
            0,
        ),
    )
}

/// Slot `k` of the panel: the slots fill four rows of four, row by row.
pub open spec fn spec_slot_element(container: UiElement, k: int, atlas: &TextureManager) -> UiElement {
    UiElement::spec_new(
        Sprite::spec_new(
            Rect::spec_new(
                container.collider.x + (k % 4) * SLOT_STEP + SLOT_INSET,
                container.collider.y + (k / 4) * SLOT_STEP + SLOT_INSET,
                50,
                50,
            ),
            spec_panel_texture(),
            atlas,
        ),
        Some(
            UIProperties {
                x_align: XAlignment::Centre,
                y_align: YAlignment::Centre,
                margin: 0,
                t_padding: 0,
                b_padding: 0,
                l_padding: 0,
                r_padding: 0,
                z_layer: 1,
            },
        ),
        1,
    )
}

/// The elements of the panel: the container and its sixteen slots.
pub open spec fn spec_panel_elements(viewport: Rect, atlas: &TextureManager) -> Seq<UiElement> {
    Seq::new(
        17,
        |k: int|
            if k == 0 {
                spec_container(viewport, atlas)
            } else {
                spec_slot_element(spec_container(viewport, atlas), k - 1, atlas)
            },
    )
}

/// The function of the button in slot `slot` of the construction menu, if
/// the slot holds one.
pub open spec fn spec_construction_slot(slot: int) -> Option<ButtonFunction> {
    if slot == 0 {
        Some(ButtonFunction::PlaceCommandCentre)
    } else if slot == 1 {
        Some(ButtonFunction::PlaceBarracks)
    } else if slot == 15 {
        Some(ButtonFunction::Back)
    } else {
        None
    }
}

/// The construction menu laid out over the panel `bottom_right_ui`.
pub open spec fn spec_construction_menu(
    bottom_right_ui: Seq<UiElement>,
    atlas: &TextureManager,
) -> Seq<Option<Button>> {
    Seq::new(
        16,
        |slot: int|
            match spec_construction_slot(slot) {
                Some(f) => Some(spec_gen_button(atlas, bottom_right_ui, f, slot)),
                None => None,
            },
    )
}

/// The building with its menu back at the first tier and no placement
/// requested.
pub open spec fn spec_menu_reset(b: Building) -> Building {
    Building { button_panel_index: 0, place_construction_flag: false, ..b }
}

/// The buildings after the selection `selected` was given up: a selected
/// building has its menu reset, nothing else changes.
pub open spec fn spec_deselected(buildings: Seq<Building>, selected: Selection) -> Seq<Building> {
    match selected {
        Selection::Building(index) => buildings.update(
            index as int,
            spec_menu_reset(buildings[index as int]),
        ),
        _ => buildings,
    }
}

/// The building type that a placement button stands for.
pub open spec fn spec_placed_type(action_type: ButtonFunction) -> Option<BuildingType> {
    match action_type {
        ButtonFunction::PlaceBarracks => Some(BuildingType::Barracks),
        ButtonFunction::PlaceCommandCentre => Some(BuildingType::CommandCentre),
        _ => None,
    }
}

/// The building is of type `building_type` and waits to be placed.
pub open spec fn spec_pending(b: Building, building_type: BuildingType) -> bool {
    b.status == BuildingStatus::NotBuilt && b.building_type == building_type
}

/// `index` is the first building of type `building_type` that waits to be
/// placed.
pub open spec fn spec_first_pending(
    buildings: Seq<Building>,
    building_type: BuildingType,
    index: int,
) -> bool {
    &&& 0 <= index < buildings.len()
    &&& spec_pending(buildings[index], building_type)
    &&& forall|k: int| 0 <= k < index ==> !spec_pending(#[trigger] buildings[k], building_type)
}

/// `index` is the first building whose collider holds `click`.
pub open spec fn spec_first_hit(buildings: Seq<Building>, click: Point, index: int) -> bool {
    &&& 0 <= index < buildings.len()
    &&& buildings[index].collider.spec_contains_point(click)
    &&& forall|k: int|
        0 <= k < index ==> !(#[trigger] buildings[k]).collider.spec_contains_point(click)
}

/// Some building has asked for a placement.
pub open spec fn spec_any_flag(buildings: Seq<Building>) -> bool {
    exists|i: int| 0 <= i < buildings.len() && (#[trigger] buildings[i]).place_construction_flag
}

/// The construction of the building at `index` was completed between
/// `before` and `after`.
pub open spec fn spec_completed_at(before: Seq<Building>, after: Seq<Building>, index: int) -> bool {
    before[index].constructing is Some && after[index].constructing is None
}

/// Number of buildings among the first `n` whose construction was completed
/// between `before` and `after`.
pub open spec fn spec_completed(before: Seq<Building>, after: Seq<Building>, n: int) -> int
    decreases n,
{
    if n <= 0 {
        0
    } else {
        spec_completed(before, after, n - 1) + (if spec_completed_at(before, after, n - 1) {
            1int
        } else {
            0int
        })
    }
}

/// `after` is the building `before` after a tick: without a construction
/// it is untouched; with one it is either untouched, the construction
/// still running, or it has handed its product out and has no construction
/// any more. A construction that was already finished is always handed out.
pub open spec fn spec_ticked(before: Building, after: Building) -> bool {
    match before.constructing {
        Some(c) => {
            &&& after == before || after == (Building { constructing: None, ..before })
            &&& c.finished ==> after.constructing is None
        },
        None => after == before,
    }
}

/// The draw commands of the first `n` buildings, in order; a building that
/// is not drawn gives none.
pub open spec fn spec_building_commands(buildings: Seq<Building>, n: int) -> Seq<DrawCommand>
    decreases n,
{
    if n <= 0 {
        Seq::empty()
    } else {
        let rest = spec_building_commands(buildings, n - 1);
        match buildings[n - 1].spec_render() {
            Some(cmd) => rest.push(cmd),
            None => rest,
        }
    }
}

/// The draw commands of the first `n` elements, in order.
pub open spec fn spec_element_commands(elems: Seq<UiElement>, n: int) -> Seq<DrawCommand>
    decreases n,
{
    if n <= 0 {
        Seq::empty()
    } else {
        spec_element_commands(elems, n - 1).push(
            DrawCommand {
                source: elems[n - 1].sprite.texture_rect,
                target: elems[n - 1].sprite.loc_rect,
            },
        )
    }
}

/// The draw commands of the buttons in the first `n` slots of a panel, in
/// order.
pub open spec fn spec_button_commands(panel: Seq<Option<Button>>, n: int) -> Seq<DrawCommand>
    decreases n,
{
    if n <= 0 {
        Seq::empty()
    } else {
        let rest = spec_button_commands(panel, n - 1);
        match panel[n - 1] {
            Some(button) => rest.push(
                DrawCommand {
                    source: button.ui.sprite.texture_rect,
                    target: button.ui.sprite.loc_rect,
                },
            ),
            None => rest,
        }
    }
}

/// The count of completed constructions looks at the constructions of the
/// first `n` buildings only.
proof fn lemma_completed_frame(
    before: Seq<Building>,
    after1: Seq<Building>,
    after2: Seq<Building>,
    n: int,
)
    requires
        n <= before.len(),
        n <= after1.len(),
        n <= after2.len(),
        forall|k: int| 0 <= k < n ==> (#[trigger] after1[k]).constructing is None == (
        #[trigger] after2[k]).constructing is None,
    ensures
        spec_completed(before, after1, n) == spec_completed(before, after2, n),
    decreases n,
{
    if n > 0 {
        lemma_completed_frame(before, after1, after2, n - 1);
    }
}

/// At most `n` constructions are completed among the first `n` buildings.
proof fn lemma_completed_bounds(before: Seq<Building>, after: Seq<Building>, n: int)
    requires
        0 <= n,
    ensures
        0 <= spec_completed(before, after, n) <= n,
    decreases n,
{
    if n > 0 {
        lemma_completed_bounds(before, after, n - 1);
    }
}

/// The buildings claim their ground: every built building stands on
/// occupied cells of the grid, and no two built buildings share a cell.
pub open spec fn spec_claims(buildings: Seq<Building>, cells: Seq<Seq<Cell>>) -> bool {
    &&& forall|i: int, a: int, b: int|
        0 <= i < buildings.len() && buildings[i].status == BuildingStatus::Built && (
        #[trigger] buildings[i].spec_footprint().covers(a, b)) ==> cell_exists(cells, a, b)
            && cells[a][b].occupied
    &&& forall|i: int, j: int, a: int, b: int|
        0 <= i < j < buildings.len() && buildings[i].status == BuildingStatus::Built
            && buildings[j].status == BuildingStatus::Built ==> !((
        #[trigger] buildings[i].spec_footprint().covers(a, b)) && (
        #[trigger] buildings[j].spec_footprint().covers(a, b)))
}

/// Between `before` and `after` no building was removed, and what is built
/// in `after` was built before, at the same place.
pub open spec fn spec_built_stay(before: Seq<Building>, after: Seq<Building>) -> bool {
    &&& before.len() <= after.len()
    &&& forall|k: int|
        0 <= k < after.len() && (#[trigger] after[k]).status == BuildingStatus::Built ==> k
            < before.len() && before[k].status == BuildingStatus::Built && before[k].collider
            == after[k].collider
}

/// Where the built buildings stay, they go on claiming their ground.
pub proof fn lemma_built_stay_keeps_claims(
    before: Seq<Building>,
    after: Seq<Building>,
    cells: Seq<Seq<Cell>>,
)
    requires
        spec_built_stay(before, after),
        spec_claims(before, cells),
    ensures
        spec_claims(after, cells),
{
    assert forall|i: int, a: int, b: int|
        0 <= i < after.len() && after[i].status == BuildingStatus::Built && (
        #[trigger] after[i].spec_footprint().covers(a, b)) implies cell_exists(cells, a, b)
        && cells[a][b].occupied by {
        assert(before[i].spec_footprint().covers(a, b));
    }
    assert forall|i: int, j: int, a: int, b: int|
        0 <= i < j < after.len() && after[i].status == BuildingStatus::Built && after[j].status
            == BuildingStatus::Built implies !((#[trigger] after[i].spec_footprint().covers(a, b))
        && (#[trigger] after[j].spec_footprint().covers(a, b))) by {
        if after[i].spec_footprint().covers(a, b) && after[j].spec_footprint().covers(a, b) {
            assert(before[i].spec_footprint().covers(a, b));
            assert(before[j].spec_footprint().covers(a, b));
        }
    }
}

/// The law of the grid: a building that is put down takes cells that no
/// built building stands on, so that putting it down keeps every claim:
/// after the attempt, whatever its outcome, every built building stands on
/// occupied cells and no two of them share a cell.
pub proof fn lemma_placing_keeps_claims(
    player: Player,
    map: World,
    after: Player,
    map_after: World,
    placed: bool,
)
    requires
        player.selection_valid(),
        player.selected is Building,
        spec_claims(player.buildings@, map.cells()),
        player.spec_after_place_attempt(&map, &after, &map_after, placed),
    ensures
        spec_claims(after.buildings@, map_after.cells()),
{
}

impl Player {
    /// The selection refers to an existing entry.
    pub open spec fn selection_valid(&self) -> bool {
        self.selected.in_range(self.buildings.len() as nat, self.units.len() as nat)
    }

    /// The selection is valid, every building is well-formed, and a ghost
    /// is only followed while a building is selected.
    pub open spec fn wf(&self) -> bool {
        &&& self.selection_valid()
        &&& forall|i: int| 0 <= i < self.buildings.len() ==> (#[trigger] self.buildings[i]).wf()
        &&& self.placing_building ==> self.selected is Building
    }

    /// What no operation on the selection or on the buildings touches.
    pub open spec fn spec_same_setup(&self, other: &Player) -> bool {
        &&& self.units == other.units
        &&& self.faction == other.faction
        &&& self.bottom_right_ui == other.bottom_right_ui
        &&& self.construction_buttons == other.construction_buttons
    }

    /// `after` is this player after the selection was given up.
    pub open spec fn spec_after_deselect(&self, after: &Player) -> bool {
        &&& after.buildings@ == spec_deselected(self.buildings@, self.selected)
        &&& after.selected is Nothing
        &&& !after.placing_building
        &&& self.spec_same_setup(after)
    }

    /// `after` is this player after the button with `action_type` of the
    /// construction menu was clicked. A placement button picks the first
    /// building of its type that waits to be placed: the selection is
    /// given up, that building is selected in its place and follows the
    /// pointer from now on. If no such building waits, nothing happens.
    /// Any other button gives the selection up.
    pub open spec fn spec_after_start_placing(
        &self,
        action_type: ButtonFunction,
        after: &Player,
    ) -> bool {
        match spec_placed_type(action_type) {
            Some(building_type) => {
                &&& forall|i: int| #[trigger]
                    spec_first_pending(self.buildings@, building_type, i) ==> {
                        let reset = spec_deselected(self.buildings@, self.selected);
                        &&& after.buildings@ == reset.update(
                            i,
                            Building { status: BuildingStatus::Placing, ..reset[i] },
                        )
                        &&& after.selected == Selection::Building(i as usize)
                        &&& after.placing_building
                        &&& self.spec_same_setup(after)
                    }
                &&& (forall|i: int|
                    0 <= i < self.buildings.len() ==> !spec_pending(
                        #[trigger] self.buildings[i],
                        building_type,
                    )) ==> *after == *self
            },
            None => self.spec_after_deselect(after),
        }
    }

    /// Whether a building is following the pointer.
    pub fn is_placing(&self) -> (placing: bool)
        ensures
            placing == self.placing_building,
    {
        self.placing_building
    }

    /// Gives the selection up. A building that was selected gets its menu
    /// back to the first tier and loses its placement request, so that
    /// nothing of this session shows when it is selected again.
    pub fn deselect(&mut self)
        requires
            old(self).selection_valid(),
        ensures
            old(self).spec_after_deselect(final(self)),
            final(self).selection_valid(),
            spec_built_stay(old(self).buildings@, final(self).buildings@),
            old(self).wf() ==> final(self).wf(),
    {
        if self.selected.is_unit() {
            self.selected = Selection::Nothing;
        }
        if self.selected.is_building() {
            let index: usize = self.selected.index();
            self.buildings[index].button_panel_index = 0;
            self.buildings[index].place_construction_flag = false;
            self.selected = Selection::Nothing;
        }
        self.placing_building = false;
        assert(self.buildings@ =~= spec_deselected(old(self).buildings@, old(self).selected));
    }

    /// Whether some building has asked for a placement. While one has, the
    /// construction menu takes the place of every building's panel.
    pub fn check_place_construction_flag(&self) -> (any: bool)
        ensures
            any == spec_any_flag(self.buildings@),
    {
        let mut i: usize = 0;
        while i < self.buildings.len()
            invariant
                i <= self.buildings.len(),
                forall|k: int| 0 <= k < i ==> !(#[trigger] self.buildings[k]).place_construction_flag,
            decreases self.buildings.len() - i,
        {
            if self.buildings[i].place_construction_flag {
                return true;
            }
            i += 1;
        }
        false
    }

    /// The panel of the selection: the shown tier of a selected building.
    /// Units have no panel yet.
    pub fn get_buttons(&self) -> (panel: Option<&[Option<Button>; 16]>)
        requires
            self.wf(),
        ensures
            match self.selected {
                Selection::Building(index) => panel matches Some(p) && p@
                    == self.buildings[index as int].spec_buttons(),
                _ => panel is None,
            },
    {
        match self.selected {
            Selection::Building(index) => Some(self.buildings[index].get_buttons()),
            _ => None,
        }
    }

    /// A selection for every entry that can be selected, in the order in
    /// which they are tried against a click.
    pub fn get_selectables(&self) -> (all: Vec<Selection>)
        ensures
            all.len() == self.buildings.len(),
            forall|i: int| 0 <= i < all.len() ==> #[trigger] all[i] == Selection::Building(i as usize),
    {
        let mut selectables: Vec<Selection> = Vec::new();
        let mut i: usize = 0;
        while i < self.buildings.len()
            invariant
                i <= self.buildings.len(),
                selectables.len() == i,
                forall|k: int|
                    0 <= k < i ==> #[trigger] selectables[k] == Selection::Building(k as usize),
            decreases self.buildings.len() - i,
        {
            selectables.push(self.buildings[i].get_selection(i));
            i += 1;
        }
        selectables
    }

    /// Whether `click` falls on the entry that `selection` names.
    pub fn check_selecting_click(&self, selection: Selection, click: Point) -> (hit: bool)
        requires
            selection.in_range(self.buildings.len() as nat, self.units.len() as nat),
        ensures
            hit == (selection matches Selection::Building(index)
                && self.buildings[index as int].collider.spec_contains_point(click)),
    {
        match selection {
            Selection::Building(index) => self.buildings[index].collider.contains_point(click),
            _ => false,
        }
    }

    /// `after` is this player after a try to select at `click` that
    /// answered `found`: the first building under the click, if there is
    /// one, is the selection now; nothing else has changed.
    pub open spec fn spec_after_select(&self, click: Point, after: &Player, found: bool) -> bool {
        &&& found == exists|i: int| spec_first_hit(self.buildings@, click, i)
        &&& forall|i: int| #[trigger]
            spec_first_hit(self.buildings@, click, i) ==> after.selected == Selection::Building(
                i as usize,
            )
        &&& !found ==> after.selected == self.selected
        &&& after.buildings == self.buildings
        &&& after.placing_building == self.placing_building
        &&& self.spec_same_setup(after)
    }

    /// Selects the first building under `click`, if there is one, and says
    /// whether there was. Nothing but the selection changes.
    pub fn try_selecting(&mut self, click: Point) -> (selected: bool)
        ensures
            old(self).spec_after_select(click, final(self), selected),
            old(self).selection_valid() ==> final(self).selection_valid(),
            old(self).wf() ==> final(self).wf(),
    {
        let selectables = self.get_selectables();
        let mut i: usize = 0;
        while i < selectables.len()
            invariant
                i <= selectables.len(),
                selectables.len() == self.buildings.len(),
                *self == *old(self),
                forall|k: int|
                    0 <= k < selectables.len() ==> #[trigger] selectables[k] == Selection::Building(
                        k as usize,
                    ),
                forall|k: int|
                    0 <= k < i ==> !(#[trigger] self.buildings[k]).collider.spec_contains_point(click),
            decreases selectables.len() - i,
        {
            let selectable: Selection = selectables[i];
            if self.check_selecting_click(selectable, click) {
                self.selected = selectable;
                assert(spec_first_hit(old(self).buildings@, click, i as int));
                return true;
            }
            i += 1;
        }
        false
    }

    /// Takes the highlight from the cells under the selected building.
    /// The player itself does not change.
    pub fn dehighlight(&mut self, game_map: &mut World)
        requires
            old(self).selection_valid(),
            old(self).selected matches Selection::Building(index) ==> grid_in_bounds(
                old(game_map).cells(),
                old(self).buildings[index as int].spec_footprint(),
            ),
        ensures
            *final(self) == *old(self),
            match old(self).selected {
                Selection::Building(index) => final(game_map).cells() == grid_change(
                    old(game_map).cells(),
                    old(self).buildings[index as int].spec_footprint(),
                    CellChange::Dehighlight,
                ),
                _ => final(game_map).cells() == old(game_map).cells(),
            },
            final(game_map).world_sprites == old(game_map).world_sprites,
            final(game_map).world_encode == old(game_map).world_encode,
            old(game_map).wf() ==> final(game_map).wf(),
    {
        if self.selected.is_building() {
            let index: usize = self.selected.index();
            self.buildings[index].dehighlight_cells(game_map);
        }
    }

    /// Carries out a click on the button with `action_type` of the
    /// construction menu; see `spec_after_start_placing`.
    pub fn start_placing_building(&mut self, action_type: ButtonFunction)
        requires
            old(self).selection_valid(),
        ensures
            old(self).spec_after_start_placing(action_type, final(self)),
            final(self).selection_valid(),
            spec_built_stay(old(self).buildings@, final(self).buildings@),
            old(self).wf() ==> final(self).wf(),
    {
        let building_type: BuildingType;
        match action_type {
            ButtonFunction::PlaceBarracks => {
                building_type = BuildingType::Barracks;
            },
            ButtonFunction::PlaceCommandCentre => {
                building_type = BuildingType::CommandCentre;
            },
            ButtonFunction::Back => {
                self.deselect();
                return;
            },
            _ => {
                self.deselect();
                return;
            },
        }
        let mut i: usize = 0;
        while i < self.buildings.len()
            invariant
                i <= self.buildings.len(),
                *self == *old(self),
                self.selection_valid(),
                spec_placed_type(action_type) == Some(building_type),
                forall|k: int| 0 <= k < i ==> !spec_pending(#[trigger] self.buildings[k], building_type),
            decreases self.buildings.len() - i,
        {
            if self.buildings[i].status == BuildingStatus::NotBuilt {
                if self.buildings[i].building_type == building_type {
                    self.deselect();
                    self.selected = Selection::Building(i);
                    self.buildings[i].status = BuildingStatus::Placing;
                    self.placing_building = true;
                    return;
                }
            }
            i += 1;
        }
    }

    /// `after` is this player after its selected building, the one at
    /// `index`, was placed: the building is built and the selection is
    /// given up.
    pub open spec fn spec_after_placing(&self, index: int, after: &Player) -> bool {
        &&& after.buildings@ == self.buildings@.update(
            index,
            Building { status: BuildingStatus::Built, ..spec_menu_reset(self.buildings[index]) },
        )
        &&& after.selected is Nothing
        &&& !after.placing_building
        &&& self.spec_same_setup(after)
    }

    /// `after` and `map_after` are this player and the map `map` after an
    /// attempt to put the selected building down that answered `placed`.
    /// The attempt succeeds exactly if the building's footprint can be
    /// built on. If it does, the footprint is occupied, the building is
    /// built and the selection is given up; if not, nothing has changed.
    pub open spec fn spec_after_place_attempt(
        &self,
        map: &World,
        after: &Player,
        map_after: &World,
        placed: bool,
    ) -> bool {
        let index = self.selected.spec_index() as int;
        let f = self.buildings[index].spec_footprint();
        &&& placed == grid_can_place(map.cells(), f)
        &&& placed ==> {
            &&& map_after.cells() == grid_change(map.cells(), f, CellChange::Occupy)
            &&& map_after.world_sprites == map.world_sprites
            &&& map_after.world_encode == map.world_encode
            &&& self.spec_after_placing(index, after)
        }
        &&& !placed ==> *after == *self && *map_after == *map
    }

    /// Tries to put the selected building down where it stands. It is put
    /// down if every cell under it exists and is free: the cells become
    /// occupied, the building is built and the selection is given up.
    /// If not, the attempt is refused and nothing changes. The answer says
    /// which of the two happened.
    pub fn place_building(&mut self, game_map: &mut World) -> (placed: bool)
        requires
            old(self).selection_valid(),
            old(self).selected is Building,
        ensures
            old(self).spec_after_place_attempt(old(game_map), final(self), final(game_map), placed),
            final(self).selection_valid(),
            spec_claims(old(self).buildings@, old(game_map).cells()) ==> spec_claims(
                final(self).buildings@,
                final(game_map).cells(),
            ),
            old(self).wf() ==> final(self).wf(),
            old(game_map).wf() ==> final(game_map).wf(),
    {
        let index: usize = self.selected.index();
        let f = self.buildings[index].footprint();
        if !game_map.can_place(f) {
            return false;
        }
        game_map.occupy(f);
        self.buildings[index].status = BuildingStatus::Built;
        self.deselect();
        assert(self.buildings@ =~= old(self).buildings@.update(
            index as int,
            Building {
                status: BuildingStatus::Built,
                ..spec_menu_reset(old(self).buildings[index as int])
            },
        ));
        true
    }

    /// The slots of the panel that clicks go to: the construction menu
    /// while a placement is requested, else the shown tier of a selected
    /// building, else none.
    pub open spec fn spec_active_panel(&self) -> Option<Seq<Option<Button>>> {
        if spec_any_flag(self.buildings@) {
            Some(self.construction_buttons@)
        } else {
            match self.selected {
                Selection::Building(index) => Some(self.buildings[index as int].spec_buttons()),
                _ => None,
            }
        }
    }

    /// The function of the button that a click at `point` hits in slot
    /// `index` of the active panel, if it hits one there.
    pub open spec fn spec_hit(&self, point: Point, index: int) -> Option<ButtonFunction> {
        match self.spec_active_panel() {
            Some(panel) => match panel[index] {
                Some(button) => if button.ui.collider.spec_contains_point(point) {
                    Some(button.btn_function)
                } else {
                    None
                },
                None => None,
            },
            None => None,
        }
    }

    /// `after` is this player after `function` was dispatched to its
    /// selected building, the one at `index`.
    pub open spec fn spec_after_execute(
        &self,
        index: int,
        function: ButtonFunction,
        after: &Player,
    ) -> bool {
        &&& after.buildings.len() == self.buildings.len()
        &&& self.buildings[index].spec_executed(
            function,
            self.bottom_right_ui@,
            after.buildings[index],
        )
        &&& after.buildings@ == self.buildings@.update(index, after.buildings[index])
        &&& after.selected == self.selected
        &&& after.placing_building == self.placing_building
        &&& self.spec_same_setup(after)
    }

    /// `after` is this player after a click at `point` was resolved
    /// against slot `index` of the active panel. A click that hits the
    /// slot's button goes to the construction menu while a placement is
    /// requested, else to the selected building; one that hits no button
    /// changes nothing.
    pub open spec fn spec_after_button(&self, point: Point, index: int, after: &Player) -> bool {
        match self.spec_hit(point, index) {
            Some(function) => if spec_any_flag(self.buildings@) {
                self.spec_after_start_placing(function, after)
            } else {
                self.spec_after_execute(self.selected.spec_index() as int, function, after)
            },
            None => *after == *self,
        }
    }

    /// Resolves a click at `point` against slot `index` of the active
    /// panel. While any building has a placement requested, the click goes
    /// to the construction menu and to nothing else, whatever is selected.
    /// Otherwise it goes to the shown tier of the selected building. The
    /// answer says whether the click hit the button of that slot; if it did,
    /// the button's function has been carried out, and if not, nothing has
    /// changed.
    pub fn check_button(&mut self, point: Point, index: usize) -> (hit: bool)
        requires
            old(self).wf(),
            index < 16,
        ensures
            hit == old(self).spec_hit(point, index as int) is Some,
            old(self).spec_after_button(point, index as int, final(self)),
            spec_built_stay(old(self).buildings@, final(self).buildings@),
            final(self).wf(),
    {
        if self.check_place_construction_flag() {
            match self.construction_buttons[index] {
                Some(button) => {
                    if button.ui.collider.contains_point(point) {
                        self.start_placing_building(button.btn_function);
                        return true;
                    }
                },
                None => {},
            }
        } else if self.selected.is_building() {
            let selected: usize = self.selected.index();
            let slot: Option<Button> = self.buildings[selected].get_buttons()[index];
            match slot {
                Some(button) => {
                    if button.ui.collider.contains_point(point) {
                        let panel = crate::ui::copy_elements(&self.bottom_right_ui);
                        self.buildings[selected].execute_fn(button.btn_function, panel);
                        return true;
                    }
                },
                None => {},
            }
        }
        false
    }

    /// Every construction can hand out its product: the atlas and the panel
    /// that the construction keeps allow making the building.
    pub open spec fn spec_can_tick(&self, atlas: &TextureManager) -> bool {
        forall|i: int|
            0 <= i < self.buildings.len() ==> ((#[trigger] self.buildings[i]).constructing matches Some(
                c,
            ) ==> Building::spec_can_build(c.building_type, c.faction, c.bottom_right_ui@, atlas))
    }

    /// The product of the construction of the building at `index`, where
    /// that construction was completed, stands behind the buildings that
    /// were there before, in the order of the producing buildings.
    pub open spec fn spec_product_appended(
        before: Seq<Building>,
        after: Seq<Building>,
        index: int,
        atlas: &TextureManager,
    ) -> bool {
        spec_completed_at(before, after, index) ==> {
            let c = before[index].constructing.unwrap();
            let place = before.len() + spec_completed(before, after, index);
            &&& place < after.len()
            &&& after[place].spec_is_new(
                Point { x: 0, y: 0 },
                c.building_type,
                c.faction,
                c.team,
                c.bottom_right_ui@,
                atlas,
            )
        }
    }

    /// The tick of the constructions: polls the construction of every
    /// building, in order. Where one is finished, the new building is
    /// appended to the buildings, produced but not yet placed, and the
    /// construction is cleared. Nothing else changes; no index moves.
    pub fn check_completed_constructions(&mut self, tx_mgr: &TextureManager)
        requires
            old(self).wf(),
            old(self).spec_can_tick(tx_mgr),
        ensures
            final(self).buildings.len() == old(self).buildings.len() + spec_completed(
                old(self).buildings@,
                final(self).buildings@,
                old(self).buildings.len() as int,
            ),
            forall|i: int|
                0 <= i < old(self).buildings.len() ==> spec_ticked(
                    old(self).buildings[i],
                    #[trigger] final(self).buildings[i],
                ),
            forall|i: int|
                0 <= i < old(self).buildings.len() ==> #[trigger] Player::spec_product_appended(
                    old(self).buildings@,
                    final(self).buildings@,
                    i,
                    tx_mgr,
                ),
            final(self).selected == old(self).selected,
            final(self).placing_building == old(self).placing_building,
            old(self).spec_same_setup(final(self)),
            spec_built_stay(old(self).buildings@, final(self).buildings@),
            final(self).wf(),
            final(self).spec_can_tick(tx_mgr),
    {
        let ghost before = self.buildings@;
        let count: usize = self.buildings.len();
        let mut i: usize = 0;
        while i < count
            invariant
                i <= count,
                count == before.len(),
                before == old(self).buildings@,
                self.buildings.len() == count + spec_completed(before, self.buildings@, i as int),
                forall|k: int| 0 <= k < i ==> spec_ticked(before[k], #[trigger] self.buildings[k]),
                forall|k: int| i <= k < count ==> #[trigger] self.buildings[k] == before[k],
                forall|k: int|
                    0 <= k < i ==> #[trigger] Player::spec_product_appended(
                        before,
                        self.buildings@,
                        k,
                        tx_mgr,
                    ),
                self.selected == old(self).selected,
                self.placing_building == old(self).placing_building,
                old(self).spec_same_setup(self),
                old(self).spec_can_tick(tx_mgr),
                spec_built_stay(before, self.buildings@),
                self.wf(),
                self.spec_can_tick(tx_mgr),
            decreases count - i,
        {
            let ghost entering = self.buildings@;
            if self.buildings[i].constructing.is_some() {
                if self.buildings[i].construction_done() {
                    let produced = self.buildings[i].get_constructed(tx_mgr);
                    match produced {
                        Some(building) => {
                            self.buildings.push(building);
                        },
                        None => {},
                    }
                }
            }
            proof {
                let now = self.buildings@;
                lemma_completed_frame(before, entering, now, i as int);
                assert forall|k: int| 0 <= k < i + 1 implies #[trigger] Player::spec_product_appended(
                    before,
                    now,
                    k,
                    tx_mgr,
                ) by {
                    if k < i {
                        assert(Player::spec_product_appended(before, entering, k, tx_mgr));
                        lemma_completed_frame(before, entering, now, k);
                        lemma_completed_bounds(before, entering, k);
                    }
                }
            }
            i += 1;
        }
    }

    /// The commands that draw what the player owns: the buildings in
    /// order. Units have nothing to draw yet.
    pub fn render_owned(&self) -> (commands: Vec<DrawCommand>)
        requires
            self.wf(),
        ensures
            commands@ == spec_building_commands(self.buildings@, self.buildings.len() as int),
    {
        let mut commands: Vec<DrawCommand> = Vec::new();
        let mut i: usize = 0;
        while i < self.buildings.len()
            invariant
                i <= self.buildings.len(),
                self.wf(),
                commands@ == spec_building_commands(self.buildings@, i as int),
            decreases self.buildings.len() - i,
        {
            match self.buildings[i].render() {
                Some(cmd) => {
                    commands.push(cmd);
                },
                None => {},
            }
            i += 1;
        }
        commands
    }

    /// What drawing the interface gives: the panel's elements, followed by
    /// the buttons of the active panel.
    pub open spec fn spec_render_ui(&self) -> Seq<DrawCommand> {
        spec_element_commands(self.bottom_right_ui@, self.bottom_right_ui.len() as int) + (
        match self.spec_active_panel() {
            Some(panel) => spec_button_commands(panel, 16),
            None => Seq::empty(),
        })
    }

    /// The commands that draw the interface: the panel, and on it the
    /// buttons of the construction menu while a placement is requested,
    /// else those of the selected building's shown tier.
    pub fn render_ui(&self) -> (commands: Vec<DrawCommand>)
        requires
            self.wf(),
        ensures
            commands@ == self.spec_render_ui(),
    {
        let mut commands: Vec<DrawCommand> = Vec::new();
        let mut i: usize = 0;
        while i < self.bottom_right_ui.len()
            invariant
                i <= self.bottom_right_ui.len(),
                commands@ == spec_element_commands(self.bottom_right_ui@, i as int),
            decreases self.bottom_right_ui.len() - i,
        {
            commands.push(self.bottom_right_ui[i].render());
            i += 1;
        }
        if self.check_place_construction_flag() {
            push_buttons(&self.construction_buttons, &mut commands);
        } else if self.selected.is_some() {
            match self.get_buttons() {
                Some(buttons) => {
                    push_buttons(buttons, &mut commands);
                },
                None => {
                },
            }
        }
        commands
    }

    /// A player of `faction` without buildings, with the panel laid out in
    /// the lower right corner of `viewport` and the construction menu on it.
    /// The manager takes `viewport` as its own.
    pub fn new(
        faction: Faction,
        viewport: Rect,
        tx_mgr: &TextureManager,
        ui_mgr: &mut UIManager,
    ) -> (player: Player)
        requires
            tx_mgr.wf(),
            tx_mgr@.dom().contains(spec_panel_texture()),
            tx_mgr@.dom().contains(spec_button_texture()),
        ensures
            player.buildings.len() == 0,
            player.units.len() == 0,
            player.faction == faction,
            player.selected is Nothing,
            !player.placing_building,
            player.bottom_right_ui@ == spec_panel_elements(viewport, tx_mgr),
            player.construction_buttons@ == spec_construction_menu(
                player.bottom_right_ui@,
                tx_mgr,
            ),
            final(ui_mgr).spec_viewport() == viewport,
            player.wf(),
    {
        let mut bottom_right_ui: Vec<UiElement> = Vec::new();
        bottom_right_ui.push(
            UiElement::new(
                Sprite::new(
                    Rect::new(0, 0, PANEL_SIZE, PANEL_SIZE),
                    TextureType::UI { type_index: 1 },
                    tx_mgr,
                ),
                Some(UIProperties::new((XAlignment::Right, YAlignment::Bottom), 0, (0, 0, 0, 0), 0)),
                0,
            ),
        );
        assert(crate::ui::spec_max_managed_z(viewport, bottom_right_ui@, 1) == 0) by {
            assert(crate::ui::spec_max_managed_z(viewport, bottom_right_ui@, 0) == 0);
        }
        ui_mgr.organize_simple(viewport, &mut bottom_right_ui);
        let container: UiElement = bottom_right_ui[0];
        let ghost goal = spec_panel_elements(viewport, tx_mgr);
        let mut i: i32 = 0;
        while i < 4
            invariant
                0 <= i <= 4,
                tx_mgr.wf(),
                tx_mgr@.dom().contains(spec_panel_texture()),
                container == spec_container(viewport, tx_mgr),
                container.collider.in_range(),
                goal == spec_panel_elements(viewport, tx_mgr),
                bottom_right_ui.len() == 1 + 4 * i,
                forall|k: int| 0 <= k < bottom_right_ui.len() ==> #[trigger] bottom_right_ui[k] == goal[k],
            decreases 4 - i,
        {
            let mut j: i32 = 0;
            while j < 4
                invariant
                    0 <= i < 4,
                    0 <= j <= 4,
                    tx_mgr.wf(),
                    tx_mgr@.dom().contains(spec_panel_texture()),
                    container == spec_container(viewport, tx_mgr),
                    container.collider.in_range(),
                    goal == spec_panel_elements(viewport, tx_mgr),
                    bottom_right_ui.len() == 1 + 4 * i + j,
                    forall|k: int|
                        0 <= k < bottom_right_ui.len() ==> #[trigger] bottom_right_ui[k] == goal[k],
                decreases 4 - j,
            {
                let slot = UiElement::new(
                    Sprite::new(
                        Rect::new(
                            container.collider.x + j * SLOT_STEP + SLOT_INSET,
                            container.collider.y + i * SLOT_STEP + SLOT_INSET,
                            50,
                            50,
                        ),
                        TextureType::UI { type_index: 1 },
                        tx_mgr,
                    ),
                    Some(
                        UIProperties::new((XAlignment::Centre, YAlignment::Centre), 0, (0, 0, 0, 0), 1),
                    ),
                    1,
                );
                bottom_right_ui.push(slot);
                j += 1;
            }
            i += 1;
        }
        proof {
            lemma_max_z_bounded(bottom_right_ui@, 17, 1);
        }
        let mut construction_buttons: [Option<Button>; 16] = [None; 16];
        construction_buttons[0] = gen_button(
            tx_mgr,
            copy_elements(&bottom_right_ui),
            ButtonFunction::PlaceCommandCentre,
            0,
        );
        construction_buttons[1] = gen_button(
            tx_mgr,
            copy_elements(&bottom_right_ui),
            ButtonFunction::PlaceBarracks,
            1,
        );
        construction_buttons[15] = gen_button(
            tx_mgr,
            copy_elements(&bottom_right_ui),
            ButtonFunction::Back,
            15,
        );
        Player {
            buildings: Vec::new(),
            units: Vec::new(),
            faction,
            selected: Selection::Nothing,
            construction_buttons,
            placing_building: false,
            bottom_right_ui,
        }
    }

    /// `slot` is the first slot of the active panel whose button a click at
    /// `point` hits.
    pub open spec fn spec_first_slot_hit(&self, point: Point, slot: int) -> bool {
        &&& 0 <= slot < 16
        &&& self.spec_hit(point, slot) is Some
        &&& forall|k: int| 0 <= k < slot ==> (#[trigger] self.spec_hit(point, k)) is None
    }

    /// `after` and `map_after` are this player and the map `map` after a
    /// click at `point` was resolved, with the answer `interacted`. The
    /// click is resolved by the first of these that applies:
    /// on the panel, the first button of the active panel that it hits is
    /// carried out; off the panel, while a building follows the pointer, the
    /// building is put down if it can be; else the first building under the
    /// click is selected; else, off the panel, the selection is given up.
    /// Only the last case, and a click on the panel that hits nothing,
    /// answer `false`.
    pub open spec fn spec_after_click(
        &self,
        point: Point,
        map: &World,
        after: &Player,
        map_after: &World,
        interacted: bool,
    ) -> bool {
        let on_panel = self.bottom_right_ui[0].collider.spec_contains_point(point);
        if on_panel && exists|slot: int| self.spec_first_slot_hit(point, slot) {
            &&& interacted
            &&& *map_after == *map
            &&& forall|slot: int| #[trigger]
                self.spec_first_slot_hit(point, slot) ==> self.spec_after_button(point, slot, after)
        } else if !on_panel && self.placing_building {
            &&& interacted
            &&& exists|placed: bool| #[trigger]
                self.spec_after_place_attempt(map, after, map_after, placed)
        } else if exists|i: int| spec_first_hit(self.buildings@, point, i) {
            &&& interacted
            &&& *map_after == *map
            &&& self.spec_after_select(point, after, true)
        } else if on_panel {
            &&& !interacted
            &&& *map_after == *map
            &&& *after == *self
        } else {
            &&& !interacted
            &&& *map_after == *map
            &&& self.spec_after_deselect(after)
        }
    }

    /// Resolves a click at the screen point `point`; see
    /// `spec_after_click`. Element 0 of the panel, its container, has to
    /// exist.
    pub fn handle_click(&mut self, point: Point, game_map: &mut World) -> (interacted: bool)
        requires
            old(self).wf(),
            old(self).bottom_right_ui.len() > 0,
        ensures
            old(self).spec_after_click(point, old(game_map), final(self), final(game_map), interacted),
            spec_claims(old(self).buildings@, old(game_map).cells()) ==> spec_claims(
                final(self).buildings@,
                final(game_map).cells(),
            ),
            final(self).wf(),
            old(game_map).wf() ==> final(game_map).wf(),
    {
        let on_panel: bool = self.bottom_right_ui[0].collider.contains_point(point);
        let mut interacted: bool = false;
        if on_panel {
            let mut i: usize = 0;
            while i < 16
                invariant_except_break
                    !interacted,
                    *self == *old(self),
                    forall|k: int| 0 <= k < i ==> (#[trigger] self.spec_hit(point, k)) is None,
                invariant
                    i <= 16,
                    self.wf(),
                    old(self).wf(),
                ensures
                    spec_built_stay(old(self).buildings@, self.buildings@),
                    interacted ==> exists|slot: int| old(self).spec_first_slot_hit(point, slot),
                    interacted ==> forall|slot: int| #[trigger]
                        old(self).spec_first_slot_hit(point, slot) ==> old(self).spec_after_button(
                            point,
                            slot,
                            self,
                        ),
                    !interacted ==> *self == *old(self) && forall|k: int|
                        0 <= k < 16 ==> (#[trigger] old(self).spec_hit(point, k)) is None,
                decreases 16 - i,
            {
                if self.check_button(point, i) {
                    interacted = true;
                    proof {
                        assert(old(self).spec_first_slot_hit(point, i as int));
                    }
                    break;
                }
                i += 1;
            }
        } else if self.placing_building {
            self.place_building(game_map);
            interacted = true;
        }
        let ghost settled = self.buildings@;
        if !interacted {
            interacted = self.try_selecting(point);
        }
        if !interacted && !on_panel {
            self.deselect();
        }
        proof {
            if spec_claims(old(self).buildings@, old(game_map).cells()) {
                assert(spec_claims(settled, game_map.cells())) by {
                    if on_panel || !old(self).placing_building {
                        lemma_built_stay_keeps_claims(
                            old(self).buildings@,
                            settled,
                            game_map.cells(),
                        );
                    }
                }
                lemma_built_stay_keeps_claims(settled, self.buildings@, game_map.cells());
            }
        }
        interacted
    }

    /// `after` and `map_after` are this player and the map `map` after the
    /// pointer moved to `mouse_point`. Without a ghost nothing changes. With
    /// one, the selected building moves under the pointer, and the
    /// highlight moves with it: off the cells it stood on, onto the cells it
    /// stands on now.
    pub open spec fn spec_after_motion(
        &self,
        mouse_point: Point,
        cam_viewport: Rect,
        map: &World,
        after: &Player,
        map_after: &World,
    ) -> bool {
        if self.placing_building {
            let index = self.selected.spec_index() as int;
            let b = self.buildings[index];
            let moved = b.spec_moved_to(
                b.spec_ghost_x(mouse_point, cam_viewport, map.cells()) as i32,
                b.spec_ghost_y(mouse_point, cam_viewport, map.cells()) as i32,
            );
            &&& after.buildings@ == self.buildings@.update(index, moved)
            &&& after.selected == self.selected
            &&& after.placing_building
            &&& self.spec_same_setup(after)
            &&& map_after.cells() == grid_change(
                grid_change(map.cells(), b.spec_footprint(), CellChange::Dehighlight),
                moved.spec_footprint(),
                CellChange::Highlight,
            )
            &&& map_after.world_sprites == map.world_sprites
            &&& map_after.world_encode == map.world_encode
            &&& grid_in_bounds(map_after.cells(), moved.spec_footprint())
            &&& grid_has_room(map_after.cells(), moved.spec_footprint())
        } else {
            *after == *self && *map_after == *map
        }
    }

    /// What following the pointer needs while a ghost is shown: the ghost
    /// stands on the grid, and the grid has room for it.
    pub open spec fn spec_ghost_on_grid(&self, map: &World) -> bool {
        self.placing_building ==> {
            let f = self.buildings[self.selected.spec_index() as int].spec_footprint();
            grid_in_bounds(map.cells(), f) && grid_has_room(map.cells(), f)
        }
    }

    /// The building that follows the pointer is one that stands built
    /// already. This comes about when a built building is selected while
    /// a ghost is shown.
    pub open spec fn spec_ghost_is_built(&self) -> bool {
        self.placing_building && self.buildings[self.selected.spec_index() as int].status
            == BuildingStatus::Built
    }

    /// Lets the ghost follow the pointer; see `spec_after_motion`. Unless
    /// the ghost is a built building, the claims of the built buildings on
    /// their ground are kept.
    pub fn handle_motion(&mut self, mouse_point: Point, cam_viewport: Rect, game_map: &mut World)
        requires
            old(self).wf(),
            old(game_map).wf(),
            old(self).spec_ghost_on_grid(old(game_map)),
        ensures
            old(self).spec_after_motion(
                mouse_point,
                cam_viewport,
                old(game_map),
                final(self),
                final(game_map),
            ),
            !old(self).spec_ghost_is_built() && spec_claims(
                old(self).buildings@,
                old(game_map).cells(),
            ) ==> spec_claims(final(self).buildings@, final(game_map).cells()),
            final(self).wf(),
            final(game_map).wf(),
            final(self).spec_ghost_on_grid(final(game_map)),
    {
        if self.placing_building {
            self.dehighlight(game_map);
            let index: usize = self.selected.index();
            self.buildings[index].move_building(mouse_point, cam_viewport, &mut game_map.grid);
            self.buildings[index].highlight_cells(game_map);
        }
    }
}

/// Appends the draw commands of the buttons of a panel.
fn push_buttons(panel: &[Option<Button>; 16], commands: &mut Vec<DrawCommand>)
    ensures
        final(commands)@ == old(commands)@ + spec_button_commands(panel@, 16),
{
    let ghost base = commands@;
    let mut i: usize = 0;
    while i < 16
        invariant
            i <= 16,
            commands@ == base + spec_button_commands(panel@, i as int),
        decreases 16 - i,
    {
        match panel[i] {
            Some(button) => {
                commands.push(button.render());
            },
            None => {},
        }
        i += 1;
    }
}

} // verus!
