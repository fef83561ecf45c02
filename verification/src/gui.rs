use vstd::prelude::*;

verus! {

/// A position or displacement on the canvas, in pixels of texture space:
/// the origin is the bottom-left corner.
#[derive(Clone, Copy, PartialEq, Eq, Structural, Debug)]
pub struct Pixels {
    pub x: i64,
    pub y: i64,
}

/// What the pointer state holds.
pub struct GuiState {
    pub mouse_pressed: bool,
    /// Where the pointer was last seen while pressed.
    pub mouse_pos: Pixels,
    /// How far the pointer went with its last move.
    pub mouse_vec: Pixels,
    pub width: i32,
    pub height: i32,
}

/// The pointer as the simulation sees it. Dividing the position and the
/// displacement by the width and height of the canvas gives their
/// normalized values.
#[derive(Clone, Copy, Debug)]
pub struct Gui {
    mouse_pressed: bool,
    mouse_pos: Pixels,
    mouse_vec: Pixels,
    width: i32,
    height: i32,
}

/// The canvas point `(x, y)`, whose origin is the top-left corner, in
/// texture space.
pub open spec fn flipped(height: i32, x: i32, y: i32) -> Pixels {
    Pixels { x: x as i64, y: (height - y) as i64 }
}

/// `by` is the way from `from` to `to`.
pub open spec fn displaces(from: Pixels, to: Pixels, by: Pixels) -> bool {
    &&& by.x == to.x - from.x
    &&& by.y == to.y - from.y
}

impl View for Gui {
    type V = GuiState;

    closed spec fn view(&self) -> GuiState {
        GuiState {
            mouse_pressed: self.mouse_pressed,
            mouse_pos: self.mouse_pos,
            mouse_vec: self.mouse_vec,
            width: self.width,
            height: self.height,
        }
    }
}

impl Gui {
    #[verifier::type_invariant]
    spec fn on_canvas(self) -> bool {
        &&& -0x8000_0000 <= self.mouse_pos.x <= 0x7fff_ffff
        &&& -0xffff_ffff <= self.mouse_pos.y <= 0xffff_ffff
    }

    /// A released pointer at the origin of a `width` x `height` canvas.
    pub fn new(width: i32, height: i32) -> (gui: Gui)
        ensures
            gui@ == (GuiState {
                mouse_pressed: false,
                mouse_pos: Pixels { x: 0, y: 0 },
                mouse_vec: Pixels { x: 0, y: 0 },
                width,
                height,
            }),
    {
        Gui {
            mouse_pressed: false,
            mouse_pos: Pixels { x: 0, y: 0 },
            mouse_vec: Pixels { x: 0, y: 0 },
            width,
            height,
        }
    }

    /// The pointer is pressed at the canvas point `(x, y)`; it has not moved
    /// yet.
    pub fn set_mouse_down(&mut self, x: i32, y: i32)
        ensures
            final(self)@ == (GuiState {
                mouse_pressed: true,
                mouse_pos: flipped(old(self)@.height, x, y),
                mouse_vec: Pixels { x: 0, y: 0 },
                ..old(self)@
            }),
    {
        let pos = Pixels { x: x as i64, y: self.height as i64 - y as i64 };
        *self = Gui {
            mouse_pressed: true,
            mouse_pos: pos,
            mouse_vec: Pixels { x: 0, y: 0 },
            width: self.width,
            height: self.height,
        };
    }

    /// The pointer is at the canvas point `(x, y)`. While it is pressed, the
    /// displacement is the way from the last position to this one; a
    /// released pointer is not tracked.
    pub fn set_mouse_move(&mut self, x: i32, y: i32)
        ensures
            !old(self)@.mouse_pressed ==> final(self)@ == old(self)@,
            old(self)@.mouse_pressed ==> {
                &&& final(self)@ == (GuiState {
                    mouse_pos: flipped(old(self)@.height, x, y),
                    mouse_vec: final(self)@.mouse_vec,
                    ..old(self)@
                })
                &&& displaces(
                    old(self)@.mouse_pos,
                    flipped(old(self)@.height, x, y),
                    final(self)@.mouse_vec,
                )
            },
    {
        proof {
            use_type_invariant(&*self);
        }
        if !self.mouse_pressed {
            return ;
        }
        let old_pos = self.mouse_pos;
        let pos = Pixels { x: x as i64, y: self.height as i64 - y as i64 };
        *self = Gui {
            mouse_pressed: true,
            mouse_pos: pos,
            mouse_vec: Pixels { x: pos.x - old_pos.x, y: pos.y - old_pos.y },
            width: self.width,
            height: self.height,
        };
    }

    /// The pointer is released: nothing is injected any more, and the
    /// displacement is zero.
    pub fn set_mouse_up(&mut self)
        ensures
            final(self)@ == (GuiState {
                mouse_pressed: false,
                mouse_vec: Pixels { x: 0, y: 0 },
                ..old(self)@
            }),
    {
        proof {
            use_type_invariant(&*self);
        }
        *self = Gui {
            mouse_pressed: false,
            mouse_pos: self.mouse_pos,
            mouse_vec: Pixels { x: 0, y: 0 },
            width: self.width,
            height: self.height,
        };
    }

    /// Whether the pointer is pressed.
    pub fn mouse_pressed(&self) -> (pressed: bool)
        ensures
            pressed == self@.mouse_pressed,
    {
        self.mouse_pressed
    }

    /// Where the pointer was last seen while pressed.
    pub fn mouse_pos(&self) -> (pos: Pixels)
        ensures
            pos == self@.mouse_pos,
    {
        self.mouse_pos
    }

    /// How far the pointer went with its last move.
    pub fn mouse_vec(&self) -> (vec: Pixels)
        ensures
            vec == self@.mouse_vec,
    {
        self.mouse_vec
    }

    /// Width of the canvas.
    pub fn width(&self) -> (width: i32)
        ensures
            width == self@.width,
    {
        self.width
    }

    /// Height of the canvas.
    pub fn height(&self) -> (height: i32)
        ensures
            height == self@.height,
    {
        self.height
    }
}

} // verus!
