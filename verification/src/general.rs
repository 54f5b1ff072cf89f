//! Types and helpers shared by the whole crate: factions, collision classes,
//! the player's selection, and the making of panel buttons.

use vstd::prelude::*;
use crate::geometry::Rect;
use crate::sprite::{Sprite, TextureManager, TextureType};
use crate::ui::{Button, ButtonFunction, UIProperties, UiElement, XAlignment, YAlignment};

verus! {

/// Time a command centre takes to build, in milliseconds.
pub const CCBUILD_TIME: u64 = 1000;

/// Time a barracks takes to build, in milliseconds.
pub const BARRACKS_BUILD_TIME: u64 = 1000;

/// With what a thing collides.
#[allow(dead_code)]
#[derive(Clone, Copy, Debug, PartialEq, Eq, Hash, Structural)]
pub enum Collidable {
    GroundCollidable,
    GroundUncollidable,
    AirCollidable,
    AirUncollidable,
    AbsoluteCollidable,
    World,
    UI,
}

/// The factions of the game.
#[derive(Clone, Copy, Debug, PartialEq, Eq, Hash, Structural)]
pub enum Faction {
    PlaceholderFaction1,
}

impl Faction {
    pub open spec fn spec_name(&self) -> Seq<char> {
        "PlaceholderFaction1"@
    }

    /// The faction's name, spelled as the variant is.
    pub fn name(&self) -> (s: &'static str)
        ensures
            s@ == self.spec_name(),
    {
        "PlaceholderFaction1"
    }
}

/// Edge length of a panel button on screen.
pub const BUTTON_SIZE: u32 = 50;

/// The texture that holds the strip of button icons.
pub open spec fn spec_button_texture() -> TextureType {
    TextureType::UI { type_index: 0 }
}

/// Highest layer among the first `n` elements that have properties; zero
/// where there is none.
pub open spec fn spec_max_z(elems: Seq<UiElement>, n: int) -> int
    decreases n,
{
    if n <= 0 {
        0
    } else {
        let rest = spec_max_z(elems, n - 1);
        if elems[n - 1].props is Some && elems[n - 1].props.unwrap().z_layer > rest {
            elems[n - 1].props.unwrap().z_layer as int
        } else {
            rest
        }
    }
}

/// Where no element among the first `n` lies above layer `bound`, the
/// highest layer does not either.
pub proof fn lemma_max_z_bounded(elems: Seq<UiElement>, n: int, bound: int)
    requires
        0 <= n <= elems.len(),
        0 <= bound,
        forall|i: int|
            0 <= i < n ==> ((#[trigger] elems[i]).props matches Some(p) ==> p.z_layer <= bound),
    ensures
        0 <= spec_max_z(elems, n) <= bound,
    decreases n,
{
    if n > 0 {
        lemma_max_z_bounded(elems, n - 1, bound);
    }
}

/// The button for `btn_function` in slot `order` of the panel whose
/// container and slots are `bottom_right_ui`: it stands where the slot
/// stands, one layer above everything in the panel, and shows the
/// function's icon.
pub open spec fn spec_gen_button(
    atlas: &TextureManager,
    bottom_right_ui: Seq<UiElement>,
    btn_function: ButtonFunction,
    order: int,
) -> Button {
    Button {
        ui: UiElement::spec_new(
            Sprite::spec_new(
                Rect::spec_new(
                    bottom_right_ui[order + 1].collider.x as int,
                    bottom_right_ui[order + 1].collider.y as int,
                    BUTTON_SIZE as int,
                    BUTTON_SIZE as int,
                ),
                spec_button_texture(),
                atlas,
            ),
            Some(
                UIProperties {
                    x_align: XAlignment::Unset,
                    y_align: YAlignment::Unset,
                    margin: 0,
                    t_padding: 0,
                    b_padding: 0,
                    l_padding: 0,
                    r_padding: 0,
                    z_layer: (spec_max_z(bottom_right_ui, bottom_right_ui.len() as int) + 1) as usize,
                },
            ),
            btn_function.spec_texture_index(),
        ),
        btn_function,
    }
}

/// What `gen_button` needs: the icon strip is loaded, the slot exists, and
/// there is room for one more layer.
pub open spec fn spec_can_gen_button(
    atlas: &TextureManager,
    bottom_right_ui: Seq<UiElement>,
    order: int,
) -> bool {
    &&& atlas.wf()
    &&& atlas@.dom().contains(spec_button_texture())
    &&& 0 <= order
    &&& order + 1 < bottom_right_ui.len()
    &&& spec_max_z(bottom_right_ui, bottom_right_ui.len() as int) < usize::MAX
}

/// Makes the button for `btn_function` in slot `order` of the panel.
/// Element 0 of `bottom_right_ui` is the container, element `order + 1` the
/// slot.
pub fn gen_button(
    atlas: &TextureManager,
    bottom_right_ui: Vec<UiElement>,
    btn_function: ButtonFunction,
    order: usize,
) -> (button: Option<Button>)
    requires
        spec_can_gen_button(atlas, bottom_right_ui@, order as int),
    ensures
        button == Some(spec_gen_button(atlas, bottom_right_ui@, btn_function, order as int)),
{
    let slot: Rect = bottom_right_ui[order + 1].collider;
    let layer: usize = get_max_z(&bottom_right_ui) + 1;
    Some(
        Button::new(
            UiElement::new(
                Sprite::new(
                    Rect::new(slot.x, slot.y, BUTTON_SIZE, BUTTON_SIZE),
                    TextureType::UI { type_index: 0 },
                    atlas,
                ),
                Some(UIProperties::new((XAlignment::Unset, YAlignment::Unset), 0, (0, 0, 0, 0), layer)),
                btn_function.get_texture_index(),
            ),
            btn_function,
        ),
    )
}

/// Highest layer among the elements that have properties.
pub fn get_max_z(elems: &Vec<UiElement>) -> (max_z: usize)
    ensures
        max_z == spec_max_z(elems@, elems.len() as int),
{
    let mut max_z: usize = 0;
    let mut i: usize = 0;
    while i < elems.len()
        invariant
            i <= elems.len(),
            max_z == spec_max_z(elems@, i as int),
        decreases elems.len() - i,
    {
        match elems[i].props {
            Some(props) => {
                if props.z_layer > max_z {
                    max_z = props.z_layer;
                }
            },
            None => {},
        }
        i += 1;
    }
    max_z
}

/// `needle` stands in `haystack` from position `at` on.
pub open spec fn occurs_at(haystack: Seq<char>, needle: Seq<char>, at: int) -> bool {
    &&& 0 <= at
    &&& at + needle.len() <= haystack.len()
    &&& haystack.subrange(at, at + needle.len()) == needle
}

/// `needle` is a contiguous part of `haystack`.
pub open spec fn spec_contains(haystack: Seq<char>, needle: Seq<char>) -> bool {
    exists|at: int| occurs_at(haystack, needle, at)
}

/// `str::contains` with a string pattern: whether the pattern is a
/// contiguous part of the text, character for character. Believed of std.
#[verifier::external_body]
pub(crate) fn str_contains(haystack: &str, needle: &str) -> (found: bool)
    ensures
        found == spec_contains(haystack@, needle@),
{
    haystack.contains(needle)
}

/// Whether at least one of `options` is a contiguous part of `str`.
#[allow(dead_code)]
pub fn string_contains_any(str: String, options: Vec<String>) -> (found: bool)
    ensures
        found == exists|k: int|
            0 <= k < options.len() && spec_contains(str@, #[trigger] options[k]@),
{
    let mut i: usize = 0;
    while i < options.len()
        invariant
            i <= options.len(),
            forall|k: int| 0 <= k < i ==> !spec_contains(str@, #[trigger] options[k]@),
        decreases options.len() - i,
    {
        if str_contains(str.as_str(), options[i].as_str()) {
            return true;
        }
        i += 1;
    }
    false
}

/// What the player has selected: nothing, or one building or one unit, named
/// by its index in the player's collection.
#[allow(dead_code)]
#[derive(Clone, Copy, Debug, PartialEq, Eq, Structural)]
pub enum Selection {
    Building(usize),
    Unit(usize),
    Nothing,
}

impl Selection {
    pub fn is_some(&self) -> (b: bool)
        ensures
            b == !(*self is Nothing),
    {
        match self {
            Selection::Nothing => false,
            _ => true,
        }
    }

    pub fn is_building(&self) -> (b: bool)
        ensures
            b == (*self is Building),
    {
        match self {
            Selection::Building(..) => true,
            _ => false,
        }
    }

    pub fn is_unit(&self) -> (b: bool)
        ensures
            b == (*self is Unit),
    {
        match self {
            Selection::Unit(..) => true,
            _ => false,
        }
    }

    /// Whether the selection equals `selection_type`, index included.
    #[allow(dead_code)]
    pub fn is_type(&self, selection_type: Selection) -> (b: bool)
        ensures
            b == (*self == selection_type),
    {
        *self == selection_type
    }

    pub open spec fn spec_index(&self) -> usize {
        match *self {
            Selection::Building(index) => index,
            Selection::Unit(index) => index,
            Selection::Nothing => 0,
        }
    }

    /// The index of the selected building or unit. There is none to give
    /// for an empty selection.
    pub fn index(&self) -> (i: usize)
        requires
            !(*self is Nothing),
        ensures
            i == self.spec_index(),
    {
        match self {
            Selection::Unit(index) => *index,
            Selection::Building(index) => *index,
            Selection::Nothing => 0,
        }
    }

    /// The index, where there is one, refers to an existing entry.
    pub open spec fn in_range(&self, building_count: nat, unit_count: nat) -> bool {
        match *self {
            Selection::Building(index) => index < building_count,
            Selection::Unit(index) => index < unit_count,
            Selection::Nothing => true,
        }
    }
}

/// Something that the player can select and that shows a panel of buttons
/// while it is selected.
pub trait Selectable {
    /// The panel that is to be shown exists.
    spec fn spec_has_buttons(&self) -> bool;

    /// The sixteen slots of the panel that is shown.
    spec fn spec_buttons(&self) -> Seq<Option<Button>>;

    /// The selection that names this entry, which stands at `index` in its
    /// collection.
    fn get_selection(&self, index: usize) -> (s: Selection)
        ensures
            !(s is Nothing),
            s.spec_index() == index,
    ;

    /// The panel that is shown.
    fn get_buttons(&self) -> (panel: &[Option<Button>; 16])
        requires
            self.spec_has_buttons(),
        ensures
            panel@ == self.spec_buttons(),
    ;
}

} // verus!
