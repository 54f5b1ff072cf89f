//! The elements of the user interface: buttons, their functions, and the
//! manager that aligns elements inside a viewport.

use vstd::prelude::*;
use crate::general::Collidable;
use crate::geometry::{clamp_position_wide, half, Rect};
use crate::sprite::{DrawCommand, Sprite};

verus! {

/// How an element is aligned along the x axis of the viewport.
#[allow(dead_code)]
#[derive(Clone, Copy, Debug, PartialEq, Eq, Structural)]
pub enum XAlignment {
    Left,
    Right,
    Centre,
    /// The element keeps its own x.
    Unset,
}

/// How an element is aligned along the y axis of the viewport.
#[allow(dead_code)]
#[derive(Clone, Copy, Debug, PartialEq, Eq, Structural)]
pub enum YAlignment {
    Top,
    Bottom,
    Centre,
    /// The element keeps its own y.
    Unset,
}

/// What a button asks for when it is clicked. Which building it acts on
/// follows from the selection; the function carries nothing itself.
#[allow(dead_code)]
#[derive(Clone, Copy, Debug, PartialEq, Eq, Hash, Structural)]
pub enum ButtonFunction {
    ShowTier1Buildings,
    ShowTier2Buildings,
    MakeWorker,
    Back,
    MakeBarracks,
    MakeCC,
    PlaceConstruction,
    PlaceBarracks,
    PlaceCommandCentre,
}

impl ButtonFunction {
    pub open spec fn spec_texture_index(&self) -> i32 {
        match *self {
            ButtonFunction::ShowTier1Buildings => 0,
            ButtonFunction::ShowTier2Buildings => 1,
            ButtonFunction::MakeWorker => 5,
            ButtonFunction::Back => 2,
            ButtonFunction::MakeBarracks => 4,
            ButtonFunction::MakeCC => 3,
            ButtonFunction::PlaceBarracks => 4,
            ButtonFunction::PlaceCommandCentre => 3,
            ButtonFunction::PlaceConstruction => 6,
        }
    }

    /// Which icon of the button strip shows the function.
    pub fn get_texture_index(&self) -> (index: i32)
        ensures
            index == self.spec_texture_index(),
            0 <= index <= 6,
    {
        match self {
            ButtonFunction::ShowTier1Buildings => 0,
            ButtonFunction::ShowTier2Buildings => 1,
            ButtonFunction::MakeWorker => 5,
            ButtonFunction::Back => 2,
            ButtonFunction::MakeBarracks => 4,
            ButtonFunction::MakeCC => 3,
            ButtonFunction::PlaceBarracks => 4,
            ButtonFunction::PlaceCommandCentre => 3,
            ButtonFunction::PlaceConstruction => 6,
        }
    }
}

/// How an element is aligned inside the viewport, and its drawing layer.
#[derive(Clone, Copy, Debug, PartialEq, Eq, Structural)]
pub struct UIProperties {
    pub x_align: XAlignment,
    pub y_align: YAlignment,
    pub margin: i32,
    pub t_padding: i32,
    pub b_padding: i32,
    pub l_padding: i32,
    pub r_padding: i32,
    pub z_layer: usize,
}

impl UIProperties {
    /// `padding` is given as top, bottom, left, right.
    pub fn new(
        align: (XAlignment, YAlignment),
        margin: i32,
        padding: (i32, i32, i32, i32),
        z_layer: usize,
    ) -> (props: UIProperties)
        ensures
            props == (UIProperties {
                x_align: align.0,
                y_align: align.1,
                margin,
                t_padding: padding.0,
                b_padding: padding.1,
                l_padding: padding.2,
                r_padding: padding.3,
                z_layer,
            }),
    {
        UIProperties {
            x_align: align.0,
            y_align: align.1,
            margin,
            t_padding: padding.0,
            b_padding: padding.1,
            l_padding: padding.2,
            r_padding: padding.3,
            z_layer,
        }
    }
}

/// Width of one icon in a strip of icons.
pub const ICON_WIDTH: i32 = 64;

/// A rectangle of the interface with its picture and, if the manager is to
/// align it, its properties.
#[derive(Clone, Copy, Debug, PartialEq, Eq, Structural)]
pub struct UiElement {
    pub sprite: Sprite,
    pub collider_type: Collidable,
    pub collider: Rect,
    pub props: Option<UIProperties>,
}

impl UiElement {
    pub open spec fn spec_new(
        sprite: Sprite,
        props: Option<UIProperties>,
        texture_rect_order: i32,
    ) -> UiElement {
        UiElement {
            collider_type: Collidable::UI,
            sprite: Sprite {
                texture_rect: Rect {
                    x: (texture_rect_order * ICON_WIDTH) as i32,
                    ..sprite.texture_rect
                },
                ..sprite
            },
            collider: sprite.loc_rect,
            props,
        }
    }

    /// An element that shows `sprite` with icon number `texture_rect_order`
    /// of its strip, and collides where the sprite stands.
    pub fn new(sprite: Sprite, props: Option<UIProperties>, texture_rect_order: i32) -> (e:
        UiElement)
        requires
            i32::MIN <= texture_rect_order * ICON_WIDTH <= i32::MAX,
        ensures
            e == UiElement::spec_new(sprite, props, texture_rect_order),
    {
        let mut sprite = sprite;
        let collider = sprite.loc_rect;
        sprite.texture_rect.x = texture_rect_order * ICON_WIDTH;
        UiElement { collider_type: Collidable::UI, sprite, collider, props }
    }

    pub fn render(&self) -> (cmd: DrawCommand)
        ensures
            cmd == (DrawCommand { source: self.sprite.texture_rect, target: self.sprite.loc_rect }),
    {
        self.sprite.render()
    }

    pub fn get_loc_rect(&self) -> (r: Rect)
        ensures
            r == self.sprite.loc_rect,
    {
        self.sprite.get_loc_rect()
    }

    pub open spec fn spec_set_loc_rect(self, new: Rect) -> UiElement {
        UiElement { collider: new, sprite: Sprite { loc_rect: new, ..self.sprite }, ..self }
    }

    /// Moves the element: collider and sprite both take `new`.
    pub fn set_loc_rect(&mut self, new: Rect)
        ensures
            *final(self) == old(self).spec_set_loc_rect(new),
    {
        self.collider = new;
        self.sprite.set_loc_rect(new);
    }
}

/// An element that carries out a function when it is clicked.
#[derive(Clone, Copy, Debug, PartialEq, Eq, Structural)]
pub struct Button {
    pub ui: UiElement,
    pub btn_function: ButtonFunction,
}

impl Button {
    pub fn new(ui_elem: UiElement, btn_function: ButtonFunction) -> (b: Button)
        ensures
            b == (Button { ui: ui_elem, btn_function }),
    {
        Button { ui: ui_elem, btn_function }
    }

    pub fn render(&self) -> (cmd: DrawCommand)
        ensures
            cmd == (DrawCommand {
                source: self.ui.sprite.texture_rect,
                target: self.ui.sprite.loc_rect,
            }),
    {
        self.ui.render()
    }

    pub fn get_loc_rect(&self) -> (r: Rect)
        ensures
            r == self.ui.sprite.loc_rect,
    {
        self.ui.get_loc_rect()
    }

    pub fn set_loc_rect(&mut self, new: Rect)
        ensures
            *final(self) == (Button { ui: old(self).ui.spec_set_loc_rect(new), ..*old(self) }),
    {
        self.ui.set_loc_rect(new);
    }
}

/// A copy of the elements, one for one.
pub fn copy_elements(elems: &Vec<UiElement>) -> (copy: Vec<UiElement>)
    ensures
        copy@ == elems@,
{
    let copy = elems.clone();
    copy
}

/// The x that the alignment asks for, before it is clamped.
pub open spec fn spec_aligned_x(viewport: Rect, props: UIProperties, elem_rect: Rect) -> int {
    match props.x_align {
        XAlignment::Left => 0 + props.margin + props.l_padding,
        XAlignment::Right => viewport.w - elem_rect.w - props.margin - props.r_padding,
        XAlignment::Centre => (viewport.w as int / 2 - elem_rect.w as int / 2) + props.l_padding
            - props.r_padding + props.margin as int / 2,
        XAlignment::Unset => elem_rect.x as int,
    }
}

/// The y that the alignment asks for, before it is clamped.
pub open spec fn spec_aligned_y(viewport: Rect, props: UIProperties, elem_rect: Rect) -> int {
    match props.y_align {
        YAlignment::Top => 0 + props.margin + props.t_padding,
        YAlignment::Bottom => viewport.h - elem_rect.h - props.margin - props.b_padding,
        YAlignment::Centre => (viewport.h as int / 2 - elem_rect.h as int / 2) + props.t_padding
            - props.b_padding + props.margin as int / 2,
        YAlignment::Unset => elem_rect.y as int,
    }
}

/// The manager moves an element if it has properties and lies inside the
/// viewport.
pub open spec fn spec_is_managed(viewport: Rect, elem: UiElement) -> bool {
    elem.props is Some && viewport.spec_contains_rect(elem.sprite.loc_rect)
}

/// The element after the manager has aligned it; an element that is not
/// managed stays as it is.
pub open spec fn spec_organized(viewport: Rect, elem: UiElement) -> UiElement {
    if spec_is_managed(viewport, elem) {
        let props = elem.props.unwrap();
        let rect = elem.sprite.loc_rect;
        elem.spec_set_loc_rect(
            Rect::spec_new(
                spec_aligned_x(viewport, props, rect),
                spec_aligned_y(viewport, props, rect),
                (rect.w as u32) as int,
                (rect.h as u32) as int,
            ),
        )
    } else {
        elem
    }
}

/// Highest layer among the managed ones of the first `n` elements; zero
/// where there is none.
pub open spec fn spec_max_managed_z(viewport: Rect, elems: Seq<UiElement>, n: int) -> int
    decreases n,
{
    if n <= 0 {
        0
    } else {
        let rest = spec_max_managed_z(viewport, elems, n - 1);
        if spec_is_managed(viewport, elems[n - 1]) && elems[n - 1].props.unwrap().z_layer > rest {
            elems[n - 1].props.unwrap().z_layer as int
        } else {
            rest
        }
    }
}

/// No managed element among the first `n` lies above the highest layer.
pub proof fn lemma_max_managed_z_bounds(viewport: Rect, elems: Seq<UiElement>, n: int, i: int)
    requires
        0 <= i < n <= elems.len(),
        spec_is_managed(viewport, elems[i]),
    ensures
        elems[i].props.unwrap().z_layer <= spec_max_managed_z(viewport, elems, n),
    decreases n,
{
    if i < n - 1 {
        lemma_max_managed_z_bounds(viewport, elems, n - 1, i);
    }
}

/// Aligns interface elements inside a viewport.
pub struct UIManager {
    viewport: Rect,
}

impl UIManager {
    pub closed spec fn spec_viewport(&self) -> Rect {
        self.viewport
    }

    pub fn new(viewport: Rect) -> (m: UIManager)
        ensures
            m.spec_viewport() == viewport,
    {
        UIManager { viewport }
    }

    pub fn set_viewport(&mut self, new: Rect)
        ensures
            final(self).spec_viewport() == new,
    {
        self.viewport = new;
    }

    pub fn viewport(&self) -> (r: Rect)
        ensures
            r == self.spec_viewport(),
    {
        self.viewport
    }

    fn is_managed(&self, elem: &UiElement) -> (b: bool)
        ensures
            b == spec_is_managed(self.viewport, *elem),
    {
        self.viewport.contains_rect(elem.get_loc_rect()) && elem.props.is_some()
    }

    fn get_max_z(&self, elems: &Vec<UiElement>) -> (max_z: usize)
        ensures
            max_z == spec_max_managed_z(self.viewport, elems@, elems.len() as int),
    {
        let mut max_z: usize = 0;
        let mut i: usize = 0;
        while i < elems.len()
            invariant
                i <= elems.len(),
                max_z == spec_max_managed_z(self.viewport, elems@, i as int),
            decreases elems.len() - i,
        {
            if self.is_managed(&elems[i]) {
                let z: usize = elems[i].props.unwrap().z_layer;
                if z > max_z {
                    max_z = z;
                }
            }
            i += 1;
        }
        max_z
    }

    fn get_x(&self, props: UIProperties, elem_rect: Rect) -> (x: i32)
        ensures
            x == crate::geometry::spec_clamp_position(
                spec_aligned_x(self.viewport, props, elem_rect),
            ),
    {
        let wide: i64 = match props.x_align {
            XAlignment::Left => 0 + props.margin as i64 + props.l_padding as i64,
            XAlignment::Right => self.viewport.w as i64 - elem_rect.w as i64 - props.margin as i64
                - props.r_padding as i64,
            XAlignment::Centre => (half(self.viewport.w) as i64 - half(elem_rect.w) as i64)
                + props.l_padding as i64 - props.r_padding as i64 + half(props.margin) as i64,
            XAlignment::Unset => elem_rect.x as i64,
        };
        clamp_position_wide(wide)
    }

    fn get_y(&self, props: UIProperties, elem_rect: Rect) -> (y: i32)
        ensures
            y == crate::geometry::spec_clamp_position(
                spec_aligned_y(self.viewport, props, elem_rect),
            ),
    {
        let wide: i64 = match props.y_align {
            YAlignment::Top => 0 + props.margin as i64 + props.t_padding as i64,
            YAlignment::Bottom => self.viewport.h as i64 - elem_rect.h as i64 - props.margin as i64
                - props.b_padding as i64,
            YAlignment::Centre => (half(self.viewport.h) as i64 - half(elem_rect.h) as i64)
                + props.t_padding as i64 - props.b_padding as i64 + half(props.margin) as i64,
            YAlignment::Unset => elem_rect.y as i64,
        };
        clamp_position_wide(wide)
    }

    /// Takes `context` as the viewport and aligns every managed element in
    /// it, layer by layer from the lowest. Each element is moved at most
    /// once, by its own properties and its own rectangle.
    pub fn organize_simple(&mut self, context: Rect, elems: &mut Vec<UiElement>)
        requires
            spec_max_managed_z(context, old(elems)@, old(elems).len() as int) < usize::MAX,
        ensures
            final(self).spec_viewport() == context,
            final(elems).len() == old(elems).len(),
            forall|i: int|
                0 <= i < old(elems).len() ==> #[trigger] final(elems)[i] == spec_organized(
                    context,
                    old(elems)[i],
                ),
    {
        self.set_viewport(context);
        let ghost before = elems@;
        let max_z: usize = self.get_max_z(elems) + 1;
        let mut cur_z: usize = 0;
        while cur_z < max_z
            invariant
                cur_z <= max_z,
                self.viewport == context,
                max_z == spec_max_managed_z(context, before, before.len() as int) + 1,
                elems.len() == before.len(),
                forall|i: int|
                    0 <= i < before.len() ==> #[trigger] elems[i] == (if spec_is_managed(
                        context,
                        before[i],
                    ) && before[i].props.unwrap().z_layer < cur_z {
                        spec_organized(context, before[i])
                    } else {
                        before[i]
                    }),
            decreases max_z - cur_z,
        {
            let mut k: usize = 0;
            while k < elems.len()
                invariant
                    k <= elems.len(),
                    cur_z < max_z,
                    self.viewport == context,
                    elems.len() == before.len(),
                    forall|i: int|
                        0 <= i < before.len() ==> #[trigger] elems[i] == (if spec_is_managed(
                            context,
                            before[i],
                        ) && (before[i].props.unwrap().z_layer < cur_z || (before[i].props.unwrap().z_layer
                            == cur_z && i < k)) {
                            spec_organized(context, before[i])
                        } else {
                            before[i]
                        }),
                decreases elems.len() - k,
            {
                let mut elem: UiElement = elems[k];
                if self.is_managed(&elem) && cur_z == elem.props.unwrap().z_layer {
                    let props: UIProperties = elem.props.unwrap();
                    let rect: Rect = elem.get_loc_rect();
                    let temp_rect = Rect::new(
                        self.get_x(props, rect),
                        self.get_y(props, rect),
                        rect.width(),
                        rect.height(),
                    );
                    elem.set_loc_rect(temp_rect);
                    elems[k] = elem;
                }
                k += 1;
            }
            cur_z += 1;
        }
        proof {
            assert forall|i: int| 0 <= i < before.len() implies #[trigger] elems[i]
                == spec_organized(context, before[i]) by {
                if spec_is_managed(context, before[i]) {
                    lemma_max_managed_z_bounds(context, before, before.len() as int, i);
                }
            }
        }
    }
}

} // verus!
