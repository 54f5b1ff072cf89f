//! The player's camera: which part of the world the screen shows, and how
//! keys and the pointer at the screen's edge scroll it.

use vstd::prelude::*;
use crate::geometry::{clamp_position_wide, spec_clamp_position, Rect};
use crate::world::World;

verus! {

/// Width of the band along each edge of the screen in which the pointer
/// scrolls the camera.
pub const PAN_BAND: i32 = 5;

/// Smallest x and y that the camera scrolls to.
pub const CAMERA_MIN: i32 = 40;

/// How far the camera may look past the far edge of the world.
pub const CAMERA_OVERHANG: i32 = 55;

/// Bindings and state of the player's camera. Keys are named by their
/// key codes.
pub struct Camera {
    pub move_up: bool,
    pub move_down: bool,
    pub move_left: bool,
    pub move_right: bool,
    pub can_move: bool,
    pub up_keycode: i32,
    pub down_keycode: i32,
    pub left_keycode: i32,
    pub right_keycode: i32,
    pub viewport: Rect,
    pub speed: u32,
}

/// The step along one axis for a speed and the two directions that may be
/// asked for at once; opposite directions cancel.
pub open spec fn spec_step(speed: u32, back: bool, forth: bool) -> int {
    (if forth {
        speed as i32 as int
    } else {
        0
    }) - (if back {
        speed as i32 as int
    } else {
        0
    })
}

/// A camera coordinate after one step, held between `CAMERA_MIN` and
/// `limit`; where the two contradict each other, `limit` wins.
pub open spec fn spec_scrolled(position: i32, step: int, limit: int) -> int {
    let moved = spec_clamp_position(position + step);
    let raised = if moved > CAMERA_MIN {
        moved
    } else {
        CAMERA_MIN as int
    };
    spec_clamp_position(if raised < limit {
        raised
    } else {
        limit
    })
}

impl Camera {
    /// A camera at `viewport` that stands still and may move.
    pub fn new(viewport: Rect, up: i32, down: i32, left: i32, right: i32, speed: u32) -> (cam:
        Camera)
        ensures
            cam == (Camera {
                move_up: false,
                move_down: false,
                move_left: false,
                move_right: false,
                can_move: true,
                up_keycode: up,
                down_keycode: down,
                left_keycode: left,
                right_keycode: right,
                viewport,
                speed,
            }),
    {
        Camera {
            move_up: false,
            move_down: false,
            move_left: false,
            move_right: false,
            can_move: true,
            up_keycode: up,
            down_keycode: down,
            left_keycode: left,
            right_keycode: right,
            viewport,
            speed,
        }
    }

    /// A key was released: every direction bound to it stops.
    pub fn check_up_key(&mut self, up_key: i32)
        ensures
            *final(self) == (Camera {
                move_up: old(self).move_up && up_key != old(self).up_keycode,
                move_down: old(self).move_down && up_key != old(self).down_keycode,
                move_left: old(self).move_left && up_key != old(self).left_keycode,
                move_right: old(self).move_right && up_key != old(self).right_keycode,
                ..*old(self)
            }),
    {
        if up_key == self.up_keycode {
            self.move_up = false;
        }
        if up_key == self.down_keycode {
            self.move_down = false;
        }
        if up_key == self.left_keycode {
            self.move_left = false;
        }
        if up_key == self.right_keycode {
            self.move_right = false;
        }
    }

    /// A key was pressed: every direction bound to it starts.
    pub fn check_down_key(&mut self, down_key: i32)
        ensures
            *final(self) == (Camera {
                move_up: old(self).move_up || down_key == old(self).up_keycode,
                move_down: old(self).move_down || down_key == old(self).down_keycode,
                move_left: old(self).move_left || down_key == old(self).left_keycode,
                move_right: old(self).move_right || down_key == old(self).right_keycode,
                ..*old(self)
            }),
    {
        if down_key == self.up_keycode {
            self.move_up = true;
        }
        if down_key == self.down_keycode {
            self.move_down = true;
        }
        if down_key == self.left_keycode {
            self.move_left = true;
        }
        if down_key == self.right_keycode {
            self.move_right = true;
        }
    }

    /// The pointer moved to `(x, y)` on the screen: the camera scrolls
    /// towards every edge in whose band the pointer is, and towards no
    /// other.
    pub fn mouse_panning(&mut self, x: i32, y: i32)
        ensures
            *final(self) == (Camera {
                move_up: 0 <= y <= PAN_BAND,
                move_down: old(self).viewport.h - PAN_BAND <= y <= old(self).viewport.h,
                move_left: 0 <= x <= PAN_BAND,
                move_right: old(self).viewport.w - PAN_BAND <= x <= old(self).viewport.w,
                ..*old(self)
            }),
    {
        let height: i64 = self.viewport.h as i64;
        let width: i64 = self.viewport.w as i64;
        if y >= 0 && y <= PAN_BAND {
            self.move_up = true;
        } else {
            self.move_up = false;
        }
        if y as i64 >= height - 5 && y as i64 <= height {
            self.move_down = true;
        } else {
            self.move_down = false;
        }
        if x >= 0 && x <= PAN_BAND {
            self.move_left = true;
        } else {
            self.move_left = false;
        }
        if x as i64 >= width - 5 && x as i64 <= width {
            self.move_right = true;
        } else {
            self.move_right = false;
        }
    }

    /// The largest x that the camera scrolls to on `game_map`: one tile
    /// short of the world's width, less the screen's width, plus the
    /// overhang. The tile size is taken from the first tile.
    pub open spec fn spec_limit_x(&self, game_map: &World) -> int {
        (game_map.world_sprites.len() - 1) * game_map.world_sprites[0][0].loc_rect.w
            - self.viewport.w + CAMERA_OVERHANG
    }

    /// The largest y that the camera scrolls to on `game_map`: the world's
    /// height, less the screen's height, plus the overhang.
    pub open spec fn spec_limit_y(&self, game_map: &World) -> int {
        game_map.world_sprites[0].len() * game_map.world_sprites[0][0].loc_rect.h
            - self.viewport.h + CAMERA_OVERHANG
    }

    /// One step of the camera. A camera that may move goes by its speed in
    /// the directions asked for and is held inside the world; one that may
    /// not move stays. The world has to have a first tile, and the number of
    /// its tiles along each axis has to fit in an `i32`.
    pub fn move_cam(&mut self, game_map: &World)
        requires
            0 < game_map.world_sprites.len() <= i32::MAX,
            0 < game_map.world_sprites[0].len() <= i32::MAX,
        ensures
            *final(self) == (if old(self).can_move {
                Camera {
                    viewport: Rect {
                        x: spec_scrolled(
                            old(self).viewport.x,
                            spec_step(old(self).speed, old(self).move_left, old(self).move_right),
                            old(self).spec_limit_x(game_map),
                        ) as i32,
                        y: spec_scrolled(
                            old(self).viewport.y,
                            spec_step(old(self).speed, old(self).move_up, old(self).move_down),
                            old(self).spec_limit_y(game_map),
                        ) as i32,
                        ..old(self).viewport
                    },
                    ..*old(self)
                }
            } else {
                *old(self)
            }),
    {
        if self.can_move {
            let step: i64 = #[verifier::truncate]
            (self.speed as i32) as i64;
            let mut x_move: i64 = 0;
            let mut y_move: i64 = 0;
            if self.move_up {
                y_move -= step;
            }
            if self.move_down {
                y_move += step;
            }
            if self.move_left {
                x_move -= step;
            }
            if self.move_right {
                x_move += step;
            }
            let tile: Rect = game_map.world_sprites[0][0].loc_rect;
            let columns: i64 = game_map.world_sprites.len() as i64;
            let rows: i64 = game_map.world_sprites[0].len() as i64;
            assert((columns - 1) * tile.w as i64 <= 0x4000_0000_0000_0000 && (columns - 1)
                * tile.w as i64 >= -0x4000_0000_0000_0000) by (nonlinear_arith)
                requires
                    0 < columns <= 0x7fff_ffff,
                    -0x8000_0000 <= tile.w as i64 <= 0x7fff_ffff,
            ;
            assert(rows * tile.h as i64 <= 0x4000_0000_0000_0000 && rows * tile.h as i64
                >= -0x4000_0000_0000_0000) by (nonlinear_arith)
                requires
                    0 < rows <= 0x7fff_ffff,
                    -0x8000_0000 <= tile.h as i64 <= 0x7fff_ffff,
            ;
            let limit_x: i64 = (columns - 1) * tile.w as i64 - self.viewport.w as i64 + 55;
            let limit_y: i64 = rows * tile.h as i64 - self.viewport.h as i64 + 55;
            self.viewport.x = scroll(self.viewport.x, x_move, limit_x);
            self.viewport.y = scroll(self.viewport.y, y_move, limit_y);
        }
    }
}

/// One camera coordinate after a step; see `spec_scrolled`.
fn scroll(position: i32, step: i64, limit: i64) -> (r: i32)
    requires
        -0x1_0000_0000 <= step <= 0x1_0000_0000,
    ensures
        r == spec_scrolled(position, step as int, limit as int),
{
    let moved: i32 = clamp_position_wide(position as i64 + step);
    let raised: i32 = if moved > CAMERA_MIN {
        moved
    } else {
        CAMERA_MIN
    };
    let held: i64 = if (raised as i64) < limit {
        raised as i64
    } else {
        limit
    };
    clamp_position_wide(held)
}

} // verus!
