//! The input snapshot: where the pointer is, whether it draws, and with what.

use crate::frame::FrameCounter;
use crate::pointer::{
    drawing_after,
    ButtonState,
    MouseButton,
    PointerReport,
    INIT_RADIUS_BITS,
};
use crate::sand::matter::Matter;
use crate::sand::settings::SandAppSettings;
use crate::scalar::{CanvasPos, FloatBits};
use vstd::prelude::*;

verus! {

/// What the sequencer reads of the user's input in a frame.
#[derive(Clone, Debug)]
pub struct AutomataParams {
    pub radius: FloatBits,
    pub mouse_pos: CanvasPos,
    pub can_scroll: bool,
    pub is_drawing: bool,
    pub prev_mouse_pos: CanvasPos,
    pub use_square_brush: bool,
    pub selected_matter: Matter,
    pub frame: FrameCounter,
}

impl AutomataParams {
    /// The frame the shared counter stands at.
    pub fn get_frame(&self) -> usize {
        self.frame.get()
    }
}

impl Default for AutomataParams {
    /// A round brush of radius four loaded with sand, lifted, at the grid's
    /// centre, with a counter of its own.
    fn default() -> (params: AutomataParams)
        ensures
            params.radius == FloatBits(INIT_RADIUS_BITS),
            params.can_scroll,
            !params.is_drawing,
            params.mouse_pos == CanvasPos::spec_zero(),
            !params.use_square_brush,
            params.prev_mouse_pos == CanvasPos::spec_zero(),
            params.selected_matter == Matter::spec_sand(),
    {
        AutomataParams {
            radius: FloatBits(INIT_RADIUS_BITS),
            can_scroll: true,
            is_drawing: false,
            mouse_pos: CanvasPos::zero(),
            use_square_brush: false,
            prev_mouse_pos: CanvasPos::zero(),
            selected_matter: Matter::sand(),
            frame: FrameCounter::new(),
        }
    }
}

/// Brings the input snapshot and the pause flag up to date with one frame's
/// report.
///
/// While the controls claim the pointer, the brush is lifted, scrolling is
/// off and nothing else changes. Otherwise scrolling is on, the brush
/// follows the left button, the pause key toggles the pause, and a pointer
/// over the window moves the stroke: its old end becomes the start of the
/// next segment.
pub fn update_input_state(
    params: &mut AutomataParams,
    settings: &mut SandAppSettings,
    report: &PointerReport,
)
    ensures
        report.gui_wants_pointer ==> *final(params) == (AutomataParams {
            is_drawing: false,
            can_scroll: false,
            ..*old(params)
        }) && *final(settings) == *old(settings),
        !report.gui_wants_pointer ==> *final(params) == (AutomataParams {
            can_scroll: true,
            is_drawing: drawing_after(old(params).is_drawing, report.buttons@),
            prev_mouse_pos: if report.cursor is Some {
                old(params).mouse_pos
            } else {
                old(params).prev_mouse_pos
            },
            mouse_pos: match report.cursor {
                Some(position) => position,
                None => old(params).mouse_pos,
            },
            ..*old(params)
        }) && *final(settings) == (SandAppSettings {
            is_paused: old(settings).is_paused != report.pause_pressed,
            ..*old(settings)
        }),
{
    if report.gui_wants_pointer {
        params.is_drawing = false;
        params.can_scroll = false;
        return ;
    } else {
        params.can_scroll = true;
    }

    let mut i: usize = 0;
    while i < report.buttons.len()
        invariant
            i <= report.buttons.len(),
            params.is_drawing == drawing_after(
                old(params).is_drawing,
                report.buttons@.take(i as int),
            ),
            *params == (AutomataParams {
                can_scroll: true,
                is_drawing: params.is_drawing,
                ..*old(params)
            }),
        decreases report.buttons.len() - i,
    {
        let event = report.buttons[i];
        proof {
            let seen = report.buttons@.take(i + 1);
            assert(seen.drop_last() == report.buttons@.take(i as int));
            assert(seen.last() == event);
        }
        if event.button == MouseButton::Left {
            params.is_drawing = event.state == ButtonState::Pressed;
        }
        i += 1;
    }
    assert(report.buttons@.take(i as int) == report.buttons@);

    if report.pause_pressed {
        settings.is_paused = !settings.is_paused;
    }

    if let Some(position) = report.cursor {
        params.prev_mouse_pos = params.mouse_pos;
        params.mouse_pos = position;
    }
}

} // verus!
