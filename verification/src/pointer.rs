//! What the pointing device and the on-screen controls report in a frame.

use crate::scalar::CanvasPos;
use vstd::prelude::*;

verus! {

/// The brush radius at launch: four cells.
pub const INIT_RADIUS_BITS: u32 = 0x4080_0000;

/// A button of the pointing device.
#[derive(Clone, Copy, Debug, PartialEq, Eq, Structural)]
pub enum MouseButton {
    Left,
    Right,
    Middle,
    Other(u16),
}

/// Whether a button went down or came up.
#[derive(Clone, Copy, Debug, PartialEq, Eq, Structural)]
pub enum ButtonState {
    Pressed,
    Released,
}

/// One change of one button.
#[derive(Clone, Copy, Debug, PartialEq, Eq)]
pub struct MouseButtonInput {
    pub button: MouseButton,
    pub state: ButtonState,
}

/// What the window and the controls report for one frame.
#[derive(Clone, Debug)]
pub struct PointerReport {
    /// The on-screen controls claim the pointer.
    pub gui_wants_pointer: bool,
    /// Button changes since the last frame, oldest first.
    pub buttons: Vec<MouseButtonInput>,
    /// The pause key went down in this frame.
    pub pause_pressed: bool,
    /// The pointer's position in grid-local space, if it is over the window.
    pub cursor: Option<CanvasPos>,
}

/// Whether the brush is down after a run of button changes: as the last
/// change of the left button left it, or as before if there was none.
pub open spec fn drawing_after(drawing: bool, buttons: Seq<MouseButtonInput>) -> bool
    decreases buttons.len(),
{
    if buttons.len() == 0 {
        drawing
    } else if buttons.last().button == MouseButton::Left {
        buttons.last().state == ButtonState::Pressed
    } else {
        drawing_after(drawing, buttons.drop_last())
    }
}

} // verus!
