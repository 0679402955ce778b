//! The pane's event controllers: toolkit events in, seat input out.
//!
//! Each handler turns one toolkit event into at most one [`SpikeInput`] and sends it. Pointer events
//! on the bars beside the image, unknown buttons and keycodes without a key are dropped, and so is
//! everything on a pane whose compositor never started.

use crate::channel::forward;
use crate::channel::Outbox;
use crate::channel::OutboxView;
use crate::geometry::widget_to_output;
use crate::input::gtk_button_to_evdev;
use crate::input::keycode_to_evdev;
use crate::input::SpikeInput;
use crate::pane::WaylandPane;
use vstd::prelude::*;

verus! {

/// A pointer position in sub-pixels, and the size in pixels of the widget that it is relative to.
#[derive(Debug, Clone, Copy, PartialEq, Eq)]
pub struct PointerAt {
    pub x: i64,
    pub y: i64,
    pub widget_w: i32,
    pub widget_h: i32,
}

impl PointerAt {
    /// The position in an output of size `out` under the pointer.
    pub open spec fn in_output(self, out: (i32, i32)) -> Option<(i64, i64)> {
        match crate::geometry::output_position(
            self.x as int,
            self.y as int,
            self.widget_w as int,
            self.widget_h as int,
            out.0 as int,
            out.1 as int,
        ) {
            Some((x, y)) => Some((x as i64, y as i64)),
            None => None,
        }
    }

    fn to_output(&self, out: (i32, i32)) -> (position: Option<(i64, i64)>)
        ensures
            position == self.in_output(out),
    {
        widget_to_output(self.x, self.y, self.widget_w, self.widget_h, out.0, out.1)
    }
}

/// What a pointer button that goes down or up becomes.
pub open spec fn button_input(
    at: PointerAt,
    out: (i32, i32),
    button: u32,
    pressed: bool,
) -> Option<SpikeInput> {
    match (crate::input::evdev_button(button), at.in_output(out)) {
        (Some(code), Some((x, y))) => Some(SpikeInput::Button { x, y, button: code, pressed }),
        _ => None,
    }
}

/// What a pointer that moves becomes.
pub open spec fn motion_input(at: PointerAt, out: (i32, i32)) -> Option<SpikeInput> {
    match at.in_output(out) {
        Some((x, y)) => Some(SpikeInput::Motion { x, y }),
        None => None,
    }
}

/// What a key that goes down or up becomes.
pub open spec fn key_input(keycode: u32, pressed: bool) -> Option<SpikeInput> {
    match crate::input::evdev_key(keycode) {
        Some(evdev) => Some(SpikeInput::Key { evdev, pressed }),
        None => None,
    }
}

/// What a scroll delta becomes.
pub open spec fn scroll_input(dx: u64, dy: u64) -> Option<SpikeInput> {
    Some(SpikeInput::Scroll { dx, dy })
}

/// What keyboard focus that enters or leaves becomes.
pub open spec fn focus_input(entered: bool) -> Option<SpikeInput> {
    Some(SpikeInput::Focus(entered))
}

/// A queue after at most one message.
pub open spec fn after_input(
    seat: Option<OutboxView<SpikeInput>>,
    input: Option<SpikeInput>,
) -> Option<OutboxView<SpikeInput>> {
    match input {
        Some(message) => crate::channel::forwarded(seat, message),
        None => seat,
    }
}

/// The seat input for a pointer button that went down or up over a nested output of size `out`.
pub fn button_event(at: PointerAt, out: (i32, i32), button: u32, pressed: bool) -> (input: Option<
    SpikeInput,
>)
    ensures
        input == button_input(at, out, button, pressed),
        match input {
            Some(sent) => {
                &&& sent matches SpikeInput::Button { x: _, y: _, button: code, pressed: down }
                &&& down == pressed
                &&& code == 0x110 <==> button == 1
                &&& code == 0x112 <==> button == 2
                &&& code == 0x111 <==> button == 3
            },
            None => true,
        },
{
    let code = match gtk_button_to_evdev(button) {
        Some(code) => code,
        None => {
            return None;
        },
    };
    match at.to_output(out) {
        Some((x, y)) => Some(SpikeInput::Button { x, y, button: code, pressed }),
        None => None,
    }
}

/// The seat input for a pointer that moved over a nested output of size `out`.
pub fn motion_event(at: PointerAt, out: (i32, i32)) -> (input: Option<SpikeInput>)
    ensures
        input == motion_input(at, out),
{
    match at.to_output(out) {
        Some((x, y)) => Some(SpikeInput::Motion { x, y }),
        None => None,
    }
}

/// The seat input for a key that went down or up.
pub fn key_event(keycode: u32, pressed: bool) -> (input: Option<SpikeInput>)
    ensures
        input == key_input(keycode, pressed),
{
    match keycode_to_evdev(keycode) {
        Some(evdev) => Some(SpikeInput::Key { evdev, pressed }),
        None => None,
    }
}

/// The handlers attached to one pane, with their own handle to the seat's queue.
pub struct SeatControllers {
    seat: Option<Outbox<SpikeInput>>,
}

impl View for SeatControllers {
    type V = Option<OutboxView<SpikeInput>>;

    closed spec fn view(&self) -> Option<OutboxView<SpikeInput>> {
        crate::channel::outbox_view(self.seat)
    }
}

impl SeatControllers {
    fn deliver(&mut self, input: Option<SpikeInput>)
        ensures
            final(self)@ == after_input(old(self)@, input),
    {
        if let Some(message) = input {
            forward(&mut self.seat, message);
        }
    }

    /// A pointer button went down. The caller has given the widget focus before.
    pub fn pressed(&mut self, pane: &WaylandPane, at: PointerAt, button: u32)
        ensures
            final(self)@ == after_input(
                old(self)@,
                button_input(at, pane@.out_size, button, true),
            ),
    {
        self.deliver(button_event(at, pane.output_size(), button, true));
    }

    /// A pointer button went up.
    pub fn released(&mut self, pane: &WaylandPane, at: PointerAt, button: u32)
        ensures
            final(self)@ == after_input(
                old(self)@,
                button_input(at, pane@.out_size, button, false),
            ),
    {
        self.deliver(button_event(at, pane.output_size(), button, false));
    }

    /// The pointer moved.
    pub fn motion(&mut self, pane: &WaylandPane, at: PointerAt)
        ensures
            final(self)@ == after_input(old(self)@, motion_input(at, pane@.out_size)),
    {
        self.deliver(motion_event(at, pane.output_size()));
    }

    /// A scroll delta, each component as the bit pattern of its binary64 value.
    pub fn scroll(&mut self, dx: u64, dy: u64)
        ensures
            final(self)@ == after_input(old(self)@, scroll_input(dx, dy)),
            old(self)@ matches Some(seat) ==> final(self)@ == Some(
                OutboxView {
                    channel: seat.channel,
                    offered: seat.offered.push(SpikeInput::Scroll { dx, dy }),
                },
            ),
    {
        self.deliver(Some(SpikeInput::Scroll { dx, dy }));
    }

    /// A key went down.
    pub fn key_pressed(&mut self, keycode: u32)
        ensures
            final(self)@ == after_input(old(self)@, key_input(keycode, true)),
            old(self)@ matches Some(seat) ==> final(self)@ == Some(
                OutboxView {
                    channel: seat.channel,
                    offered: if keycode >= 8 {
                        seat.offered.push(
                            SpikeInput::Key { evdev: (keycode - 8) as u32, pressed: true },
                        )
                    } else {
                        seat.offered
                    },
                },
            ),
    {
        self.deliver(key_event(keycode, true));
    }

    /// A key went up.
    pub fn key_released(&mut self, keycode: u32)
        ensures
            final(self)@ == after_input(old(self)@, key_input(keycode, false)),
            old(self)@ matches Some(seat) ==> final(self)@ == Some(
                OutboxView {
                    channel: seat.channel,
                    offered: if keycode >= 8 {
                        seat.offered.push(
                            SpikeInput::Key { evdev: (keycode - 8) as u32, pressed: false },
                        )
                    } else {
                        seat.offered
                    },
                },
            ),
    {
        self.deliver(key_event(keycode, false));
    }

    /// Keyboard focus entered the pane.
    pub fn focus_entered(&mut self)
        ensures
            final(self)@ == after_input(old(self)@, focus_input(true)),
            old(self)@ matches Some(seat) ==> final(self)@ == Some(
                OutboxView {
                    channel: seat.channel,
                    offered: seat.offered.push(SpikeInput::Focus(true)),
                },
            ),
    {
        self.deliver(Some(SpikeInput::Focus(true)));
    }

    /// Keyboard focus left the pane.
    pub fn focus_left(&mut self)
        ensures
            final(self)@ == after_input(old(self)@, focus_input(false)),
            old(self)@ matches Some(seat) ==> final(self)@ == Some(
                OutboxView {
                    channel: seat.channel,
                    offered: seat.offered.push(SpikeInput::Focus(false)),
                },
            ),
    {
        self.deliver(Some(SpikeInput::Focus(false)));
    }
}

impl WaylandPane {
    /// The handlers for this pane. They share its seat's queue as it is now; a pane whose
    /// compositor did not start gets handlers that do nothing.
    pub fn install_controllers(&self) -> (controllers: SeatControllers)
        ensures
            controllers@ == (match self@.seat {
                Some(seat) => Some(OutboxView::unused(seat.channel)),
                None => None,
            }),
            self@.seat matches Some(seat) ==> controllers@ matches Some(own) && own.channel
                == seat.channel && own.offered.len() == 0,
    {
        let seat = match self.input_sender() {
            Some(sender) => Some(Outbox::new(sender)),
            None => None,
        };
        SeatControllers { seat }
    }
}

/// The two edges of a click at one place reach the seat at one place: either both are forwarded,
/// with the same position and button, or neither is.
pub proof fn law_click_edges_agree(at: PointerAt, out: (i32, i32), button: u32)
    ensures
        match button_input(at, out, button, true) {
            Some(input) => {
                &&& input matches SpikeInput::Button { x, y, button: code, pressed }
                &&& pressed
                &&& button_input(at, out, button, false) == Some(
                    SpikeInput::Button { x, y, button: code, pressed: false },
                )
            },
            None => button_input(at, out, button, false) is None,
        },
{
}

/// A button lands where the pointer is: wherever a button event is forwarded, a motion to the same
/// place is forwarded with the same position.
pub proof fn law_button_lands_under_the_pointer(
    at: PointerAt,
    out: (i32, i32),
    button: u32,
    pressed: bool,
)
    ensures
        button_input(at, out, button, pressed) matches Some(
            SpikeInput::Button { x, y, button: _, pressed: _ },
        ) ==> motion_input(at, out) == Some(SpikeInput::Motion { x, y }),
        motion_input(at, out) is None ==> button_input(at, out, button, pressed) is None,
{
}

/// Every forwarded pointer position lies on the nested output.
pub proof fn law_pointer_input_is_on_the_output(
    at: PointerAt,
    out: (i32, i32),
    button: u32,
    pressed: bool,
)
    ensures
        motion_input(at, out) matches Some(SpikeInput::Motion { x, y }) ==> {
            &&& 0 <= x <= crate::geometry::SUBPIXELS * out.0
            &&& 0 <= y <= crate::geometry::SUBPIXELS * out.1
        },
        button_input(at, out, button, pressed) matches Some(
            SpikeInput::Button { x, y, button: _, pressed: _ },
        ) ==> {
            &&& 0 <= x <= crate::geometry::SUBPIXELS * out.0
            &&& 0 <= y <= crate::geometry::SUBPIXELS * out.1
        },
{
    crate::geometry::law_position_is_on_the_output(
        at.x as int,
        at.y as int,
        at.widget_w as int,
        at.widget_h as int,
        out.0 as int,
        out.1 as int,
    );
}

/// Handlers without a seat stay without one: on a pane whose compositor did not start, no event
/// does anything.
pub proof fn law_no_seat_no_input(input: Option<SpikeInput>)
    ensures
        after_input(None, input) is None,
{
}

/// A motion is forwarded exactly where the output lies under the pointer, and it carries that
/// position of the output, each axis as its own.
pub proof fn law_motion_is_forwarded_from_the_image(at: PointerAt, out: (i32, i32))
    ensures
        match crate::geometry::output_position(
            at.x as int,
            at.y as int,
            at.widget_w as int,
            at.widget_h as int,
            out.0 as int,
            out.1 as int,
        ) {
            Some((ox, oy)) => motion_input(at, out) matches Some(SpikeInput::Motion { x, y }) && x
                == ox && y == oy,
            None => motion_input(at, out) is None,
        },
{
    crate::geometry::law_position_is_on_the_output(
        at.x as int,
        at.y as int,
        at.widget_w as int,
        at.widget_h as int,
        out.0 as int,
        out.1 as int,
    );
}

/// The seat is told which button it was: where a motion would be forwarded, the left button is
/// forwarded as 0x110, the middle one as 0x112 and the right one as 0x111, with the edge that it
/// was; other buttons, and buttons elsewhere, are not forwarded.
pub proof fn law_button_is_forwarded_by_its_code(
    at: PointerAt,
    out: (i32, i32),
    button: u32,
    pressed: bool,
)
    ensures
        match motion_input(at, out) {
            Some(SpikeInput::Motion { x, y }) => {
                &&& button == 1 ==> button_input(at, out, button, pressed) == Some(
                    SpikeInput::Button { x, y, button: 0x110, pressed },
                )
                &&& button == 2 ==> button_input(at, out, button, pressed) == Some(
                    SpikeInput::Button { x, y, button: 0x112, pressed },
                )
                &&& button == 3 ==> button_input(at, out, button, pressed) == Some(
                    SpikeInput::Button { x, y, button: 0x111, pressed },
                )
                &&& button == 0 || button > 3 ==> button_input(at, out, button, pressed) is None
            },
            _ => button_input(at, out, button, pressed) is None,
        },
{
}

/// Different buttons, and the two edges of one button, never look the same to the seat.
pub proof fn law_button_messages_are_told_apart(
    at: PointerAt,
    out: (i32, i32),
    button_a: u32,
    pressed_a: bool,
    button_b: u32,
    pressed_b: bool,
)
    ensures
        button_input(at, out, button_a, pressed_a) is Some && button_input(
            at,
            out,
            button_a,
            pressed_a,
        ) == button_input(at, out, button_b, pressed_b) ==> button_a == button_b && pressed_a
            == pressed_b,
{
}

/// Every key from keycode 8 on is forwarded as the evdev code eight below, with the edge that it
/// was, and no lower keycode is.
pub proof fn law_key_is_forwarded_by_its_code(keycode: u32, pressed: bool)
    ensures
        match key_input(keycode, pressed) {
            Some(input) => input matches SpikeInput::Key { evdev, pressed: down } && evdev + 8
                == keycode && down == pressed,
            None => keycode < 8,
        },
{
}

/// Every scroll delta and every change of focus is forwarded, as it is.
pub proof fn law_scroll_and_focus_are_forwarded_as_they_are(dx: u64, dy: u64, entered: bool)
    ensures
        scroll_input(dx, dy) == Some(SpikeInput::Scroll { dx, dy }),
        focus_input(entered) == Some(SpikeInput::Focus(entered)),
{
}

/// Handlers with a seat send every input that they are given, whatever it is: it comes at the end of
/// their queue, behind everything sent before and on the same channel. An event that became no input
/// leaves the queue as it is.
pub proof fn law_seat_gets_every_input(seat: OutboxView<SpikeInput>, input: SpikeInput)
    ensures
        after_input(Some(seat), Some(input)) matches Some(after) && {
            &&& after.channel == seat.channel
            &&& after.offered.len() == seat.offered.len() + 1
            &&& after.offered[seat.offered.len() as int] == input
            &&& forall|i: int|
                0 <= i < seat.offered.len() ==> #[trigger] after.offered[i] == seat.offered[i]
        },
        after_input(Some(seat), None) == Some(seat),
{
}

} // verus!
