//! The per-frame snapshot of brush and mode state.
//!
//! Cursor coordinates are single-precision floats in simulation space. Nothing
//! here computes with them: they are carried by their IEEE-754 bit patterns, so
//! that a position handed in comes out of the push-constant payload bit for bit.

use vstd::prelude::*;
use crate::CurrentElement;

verus! {

/// A position on the canvas; each coordinate is the bit pattern of a
/// single-precision float.
#[derive(Clone, Copy, Debug, PartialEq, Eq, Structural)]
pub struct CanvasPos {
    pub x: u32,
    pub y: u32,
}

/// What the brush is doing this frame.
#[derive(Clone, Copy, Debug, PartialEq, Eq, Structural)]
pub struct DrawingParams {
    /// Cursor position in the current frame.
    pub mouse_pos: CanvasPos,
    /// Whether the brush is down.
    pub is_drawing: bool,
    /// Cursor position in the frame before.
    pub prev_mouse_pos: CanvasPos,
    /// Whether the eraser is held, which pauses the automata.
    pub is_erasing: bool,
    /// The element the brush paints.
    pub element: CurrentElement,
}

impl DrawingParams {
    /// The snapshot before any input: cursor at the origin, brush up, eraser
    /// released, painting air.
    pub open spec fn idle() -> DrawingParams {
        DrawingParams {
            mouse_pos: CanvasPos { x: 0, y: 0 },
            is_drawing: false,
            prev_mouse_pos: CanvasPos { x: 0, y: 0 },
            is_erasing: false,
            element: CurrentElement::Air,
        }
    }
}

impl Default for DrawingParams {
    fn default() -> (params: DrawingParams)
        ensures
            params == DrawingParams::idle(),
    {
        DrawingParams {
            mouse_pos: CanvasPos { x: 0, y: 0 },
            is_drawing: false,
            prev_mouse_pos: CanvasPos { x: 0, y: 0 },
            is_erasing: false,
            element: CurrentElement::Air,
        }
    }
}

/// A mouse button, as far as the brush tells them apart.
#[derive(Clone, Copy, Debug, PartialEq, Eq, Structural)]
pub enum MouseButton {
    /// Holds the brush down.
    Left,
    /// Holds the eraser.
    Right,
    /// Any other button; the brush ignores it.
    Other,
}

/// A button going down or coming up.
#[derive(Clone, Copy, Debug, PartialEq, Eq, Structural)]
pub struct MouseButtonEvent {
    pub button: MouseButton,
    pub pressed: bool,
}

/// Which of the element keys are held this frame.
#[derive(Clone, Copy, Debug, PartialEq, Eq, Structural)]
pub struct ElementKeys {
    pub air: bool,
    pub sand: bool,
    pub water: bool,
    pub rock: bool,
}

impl ElementKeys {
    /// The element the held keys select, if any. When several are held, air
    /// wins over sand, sand over water, water over rock.
    pub open spec fn selection(self) -> Option<CurrentElement> {
        if self.air {
            Some(CurrentElement::Air)
        } else if self.sand {
            Some(CurrentElement::Sand)
        } else if self.water {
            Some(CurrentElement::Water)
        } else if self.rock {
            Some(CurrentElement::Rock)
        } else {
            None
        }
    }

    /// Picks the element the held keys select.
    pub fn selected(&self) -> (element: Option<CurrentElement>)
        ensures
            element == self.selection(),
    {
        if self.air {
            Some(CurrentElement::Air)
        } else if self.sand {
            Some(CurrentElement::Sand)
        } else if self.water {
            Some(CurrentElement::Water)
        } else if self.rock {
            Some(CurrentElement::Rock)
        } else {
            None
        }
    }
}

/// Whether `button` ends up pressed after `events`, or `None` if no event
/// concerns it: the latest event on a button decides.
pub open spec fn last_press(events: Seq<MouseButtonEvent>, button: MouseButton) -> Option<bool>
    decreases events.len(),
{
    if events.len() == 0 {
        None
    } else if events.last().button == button {
        Some(events.last().pressed)
    } else {
        last_press(events.drop_last(), button)
    }
}

/// The latest event on `button` decides, and no event on it leaves `None`.
pub proof fn last_press_is_latest(events: Seq<MouseButtonEvent>, button: MouseButton)
    ensures
        last_press(events, button) is None <==> forall|i: int|
            0 <= i < events.len() ==> (#[trigger] events[i]).button != button,
        last_press(events, button) matches Some(pressed) ==> exists|i: int|
            0 <= i < events.len() && (#[trigger] events[i]).button == button && events[i].pressed
                == pressed && forall|j: int|
                i < j < events.len() ==> (#[trigger] events[j]).button != button,
    decreases events.len(),
{
    if events.len() == 0 {
    } else if events.last().button == button {
        let i = events.len() - 1;
        assert(events[i].button == button && events[i].pressed == events.last().pressed);
    } else {
        let shorter = events.drop_last();
        last_press_is_latest(shorter, button);
        assert forall|i: int| 0 <= i < shorter.len() implies shorter[i] == events[i] by {}
        if last_press(shorter, button) is None {
            assert forall|i: int| 0 <= i < events.len() implies (#[trigger] events[i]).button
                != button by {
                if i < shorter.len() {
                    assert(shorter[i].button != button);
                }
            }
        } else {
            let pressed = last_press(shorter, button)->0;
            let i = choose|i: int|
                0 <= i < shorter.len() && (#[trigger] shorter[i]).button == button
                    && shorter[i].pressed == pressed && forall|j: int|
                    i < j < shorter.len() ==> (#[trigger] shorter[j]).button != button;
            assert(events[i].button == button && events[i].pressed == pressed);
            assert forall|j: int| i < j < events.len() implies (#[trigger] events[j]).button
                != button by {
                if j < shorter.len() {
                    assert(shorter[j].button != button);
                }
            }
        }
    }
}

impl DrawingParams {
    /// The snapshot after one frame of input.
    ///
    /// The left button sets the brush and the right button the eraser, each by
    /// its latest event. A held element key selects that element. A cursor on
    /// the canvas becomes the current position, and the position it replaces
    /// becomes the previous one. Whatever the frame's input does not touch
    /// stays as it was.
    pub open spec fn updated(
        self,
        keys: ElementKeys,
        events: Seq<MouseButtonEvent>,
        cursor: Option<CanvasPos>,
    ) -> DrawingParams {
        DrawingParams {
            mouse_pos: match cursor {
                Some(position) => position,
                None => self.mouse_pos,
            },
            is_drawing: match last_press(events, MouseButton::Left) {
                Some(pressed) => pressed,
                None => self.is_drawing,
            },
            prev_mouse_pos: match cursor {
                Some(_) => self.mouse_pos,
                None => self.prev_mouse_pos,
            },
            is_erasing: match last_press(events, MouseButton::Right) {
                Some(pressed) => pressed,
                None => self.is_erasing,
            },
            element: match keys.selection() {
                Some(element) => element,
                None => self.element,
            },
        }
    }
}

/// After a frame in which the cursor is over the canvas, the snapshot's
/// current position is that cursor and its previous position is the one the
/// snapshot held before: the cursor of the frame before.
pub proof fn cursor_history(
    before: DrawingParams,
    keys: ElementKeys,
    events: Seq<MouseButtonEvent>,
    cursor: CanvasPos,
)
    ensures
        before.updated(keys, events, Some(cursor)).mouse_pos == cursor,
        before.updated(keys, events, Some(cursor)).prev_mouse_pos == before.mouse_pos,
{
}

/// Brings the snapshot up to date with one frame of input: the held element
/// keys, the mouse button events in the order they arrived, and the cursor's
/// canvas position if it is over the window.
pub fn update_input_state(
    keys: &ElementKeys,
    input_state: &mut DrawingParams,
    events: &[MouseButtonEvent],
    cursor: Option<CanvasPos>,
)
    ensures
        *final(input_state) == old(input_state).updated(*keys, events@, cursor),
{
    let mut is_drawing = input_state.is_drawing;
    let mut is_erasing = input_state.is_erasing;
    let mut i: usize = 0;
    while i < events.len()
        invariant
            i <= events@.len(),
            is_drawing == match last_press(events@.take(i as int), MouseButton::Left) {
                Some(pressed) => pressed,
                None => input_state.is_drawing,
            },
            is_erasing == match last_press(events@.take(i as int), MouseButton::Right) {
                Some(pressed) => pressed,
                None => input_state.is_erasing,
            },
        decreases events@.len() - i,
    {
        let event = events[i];
        proof {
            let seen = events@.take(i + 1);
            assert(seen.last() == event);
            assert(seen.drop_last() =~= events@.take(i as int));
        }
        match event.button {
            MouseButton::Left => {
                is_drawing = event.pressed;
            },
            MouseButton::Right => {
                is_erasing = event.pressed;
            },
            MouseButton::Other => {},
        }
        i += 1;
    }
    assert(events@.take(i as int) =~= events@);
    input_state.is_drawing = is_drawing;
    input_state.is_erasing = is_erasing;
    match keys.selected() {
        Some(element) => {
            input_state.element = element;
        },
        None => {},
    }
    match cursor {
        Some(position) => {
            input_state.prev_mouse_pos = input_state.mouse_pos;
            input_state.mouse_pos = position;
        },
        None => {},
    }
}

} // verus!
