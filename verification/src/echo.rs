//! The X11 test client: it paints its window and reports each event in one line of text.
//!
//! The client fills its whole window on every exposure, follows the size that the window manager
//! gives it, and prints `mapped`, `exposed`, `key-press <keycode>` and `button-press <n>`.

use vstd::prelude::*;

verus! {

/// The fill colour, `#FF00FF`, as a `0x00RRGGBB` pixel.
pub const MAGENTA: u32 = 0x00ff_00ff;

/// Initial window width.
pub const INIT_W: u16 = 640;

/// Initial window height.
pub const INIT_H: u16 = 480;

/// One event from the X server, as far as the client cares.
#[derive(Debug, Clone, Copy, PartialEq, Eq)]
pub enum EchoEvent {
    /// The window was mapped.
    Mapped,
    /// The window has this size now.
    Configured { width: u16, height: u16 },
    /// The window has to be painted.
    Exposed,
    /// A key went down.
    KeyPress(u8),
    /// A pointer button went down.
    ButtonPress(u8),
    /// Anything else.
    Other,
}

/// A rectangle to fill.
#[derive(Debug, Clone, Copy, PartialEq, Eq)]
pub struct Fill {
    pub x: i16,
    pub y: i16,
    pub width: u16,
    pub height: u16,
}

/// What to do about one event: paint first, then print the line.
#[derive(Debug, PartialEq, Eq)]
pub struct EchoReply {
    /// A rectangle to fill.
    pub fill: Option<Fill>,
    /// A line to print.
    pub line: Option<String>,
}

/// The client's state: its window's size.
#[derive(Debug, Clone, Copy, PartialEq, Eq)]
pub struct EchoClient {
    pub width: u16,
    pub height: u16,
}

/// The decimal digit of `d`, for `d` below ten.
pub open spec fn digit_char(d: nat) -> char {
    ('0' as nat + d) as char
}

/// `n` in decimal, without leading zeros.
pub open spec fn decimal(n: nat) -> Seq<char>
    decreases n,
{
    if n < 10 {
        seq![digit_char(n)]
    } else {
        decimal(n / 10).push(digit_char(n % 10))
    }
}

/// The line that an event is reported with, if it is.
pub open spec fn event_line(event: EchoEvent) -> Option<Seq<char>> {
    match event {
        EchoEvent::Mapped => Some("mapped"@),
        EchoEvent::Configured { .. } => None,
        EchoEvent::Exposed => Some("exposed"@),
        EchoEvent::KeyPress(keycode) => Some("key-press "@ + decimal(keycode as nat)),
        EchoEvent::ButtonPress(button) => Some("button-press "@ + decimal(button as nat)),
        EchoEvent::Other => None,
    }
}

/// The client after an event: only a new size changes it.
pub open spec fn after_event(client: EchoClient, event: EchoEvent) -> EchoClient {
    match event {
        EchoEvent::Configured { width, height } => EchoClient { width, height },
        _ => client,
    }
}

/// What an exposure has the client paint: its whole window.
pub open spec fn event_fill(client: EchoClient, event: EchoEvent) -> Option<Fill> {
    if event is Exposed {
        Some(Fill { x: 0, y: 0, width: client.width, height: client.height })
    } else {
        None
    }
}

fn digit_text(d: u8) -> (text: &'static str)
    requires
        d < 10,
    ensures
        text@ == seq![digit_char(d as nat)],
{
    proof {
        reveal_strlit("0");
        reveal_strlit("1");
        reveal_strlit("2");
        reveal_strlit("3");
        reveal_strlit("4");
        reveal_strlit("5");
        reveal_strlit("6");
        reveal_strlit("7");
        reveal_strlit("8");
        reveal_strlit("9");
    }
    match d {
        0 => "0",
        1 => "1",
        2 => "2",
        3 => "3",
        4 => "4",
        5 => "5",
        6 => "6",
        7 => "7",
        8 => "8",
        _ => "9",
    }
}

/// Appends `n` in decimal.
fn append_decimal(text: &mut String, n: u8)
    ensures
        final(text)@ == old(text)@ + decimal(n as nat),
    decreases n,
{
    if n >= 10 {
        append_decimal(text, n / 10);
    }
    text.append(digit_text(n % 10));
}

/// `label` followed by `n` in decimal.
fn labelled(label: &str, n: u8) -> (line: String)
    ensures
        line@ == label@ + decimal(n as nat),
{
    let mut line = label.to_owned();
    append_decimal(&mut line, n);
    line
}

impl EchoClient {
    /// The client before the first event.
    pub fn new() -> (client: Self)
        ensures
            client.width == INIT_W,
            client.height == INIT_H,
            client.width == 640,
            client.height == 480,
    {
        EchoClient { width: INIT_W, height: INIT_H }
    }

    /// Takes in one event.
    pub fn handle(&mut self, event: EchoEvent) -> (reply: EchoReply)
        ensures
            *final(self) == after_event(*old(self), event),
            reply.fill == event_fill(*old(self), event),
            crate::text::text_view(reply.line) == event_line(event),
    {
        match event {
            EchoEvent::Mapped => EchoReply { fill: None, line: Some("mapped".to_owned()) },
            EchoEvent::Configured { width, height } => {
                self.width = width;
                self.height = height;
                EchoReply { fill: None, line: None }
            },
            EchoEvent::Exposed => EchoReply {
                fill: Some(Fill { x: 0, y: 0, width: self.width, height: self.height }),
                line: Some("exposed".to_owned()),
            },
            EchoEvent::KeyPress(keycode) => EchoReply {
                fill: None,
                line: Some(labelled("key-press ", keycode)),
            },
            EchoEvent::ButtonPress(button) => EchoReply {
                fill: None,
                line: Some(labelled("button-press ", button)),
            },
            EchoEvent::Other => EchoReply { fill: None, line: None },
        }
    }
}

/// The client after a run of events.
pub open spec fn after_events(client: EchoClient, events: Seq<EchoEvent>) -> EchoClient
    decreases events.len(),
{
    if events.len() == 0 {
        client
    } else {
        after_event(after_events(client, events.drop_last()), events.last())
    }
}

/// An exposure paints the window at its latest size: the one last configured, however many other
/// events came after that.
pub proof fn law_latest_size_is_painted(
    client: EchoClient,
    earlier: Seq<EchoEvent>,
    width: u16,
    height: u16,
    later: Seq<EchoEvent>,
)
    requires
        forall|i: int| 0 <= i < later.len() ==> !(#[trigger] later[i] is Configured),
    ensures
        event_fill(
            after_events(client, earlier.push(EchoEvent::Configured { width, height }) + later),
            EchoEvent::Exposed,
        ) == Some(Fill { x: 0, y: 0, width, height }),
    decreases later.len(),
{
    let configured = earlier.push(EchoEvent::Configured { width, height });
    if later.len() == 0 {
        assert(configured + later =~= configured);
        assert(configured.drop_last() =~= earlier);
    } else {
        law_latest_size_is_painted(client, earlier, width, height, later.drop_last());
        assert((configured + later).drop_last() =~= configured + later.drop_last());
        assert(!(later[later.len() - 1] is Configured));
    }
}

/// A window that was never configured is painted at its initial size.
pub proof fn law_unconfigured_window_keeps_its_size(client: EchoClient, events: Seq<EchoEvent>)
    requires
        forall|i: int| 0 <= i < events.len() ==> !(#[trigger] events[i] is Configured),
    ensures
        after_events(client, events) == client,
    decreases events.len(),
{
    if events.len() > 0 {
        law_unconfigured_window_keeps_its_size(client, events.drop_last());
        assert(!(events[events.len() - 1] is Configured));
    }
}

proof fn lemma_decimal_is_injective(a: nat, b: nat)
    requires
        a < 256,
        b < 256,
        decimal(a) == decimal(b),
    ensures
        a == b,
    decreases a,
{
    assert(decimal(a).last() == digit_char(a % 10));
    assert(decimal(b).last() == digit_char(b % 10));
    if a >= 10 && b >= 10 {
        assert(decimal(a).drop_last() =~= decimal(a / 10));
        assert(decimal(b).drop_last() =~= decimal(b / 10));
        lemma_decimal_is_injective(a / 10, b / 10);
    } else if a >= 10 {
        lemma_decimal_is_not_empty(a / 10);
    } else if b >= 10 {
        lemma_decimal_is_not_empty(b / 10);
    }
}

proof fn lemma_decimal_is_not_empty(n: nat)
    ensures
        decimal(n).len() > 0,
{
}

/// A line tells which event it reports: two reported events with the same line are the same.
pub proof fn law_line_identifies_the_event(a: EchoEvent, b: EchoEvent)
    requires
        event_line(a) is Some,
        event_line(a) == event_line(b),
    ensures
        a == b,
{
    reveal_strlit("mapped");
    reveal_strlit("exposed");
    reveal_strlit("key-press ");
    reveal_strlit("button-press ");
    let line = event_line(a)->Some_0;
    assert(line == event_line(b)->Some_0);
    assert(line[0] == (match a {
        EchoEvent::Mapped => 'm',
        EchoEvent::Exposed => 'e',
        EchoEvent::KeyPress(_) => 'k',
        _ => 'b',
    }));
    assert(line[0] == (match b {
        EchoEvent::Mapped => 'm',
        EchoEvent::Exposed => 'e',
        EchoEvent::KeyPress(_) => 'k',
        _ => 'b',
    }));
    match (a, b) {
        (EchoEvent::KeyPress(m), EchoEvent::KeyPress(n)) => {
            assert(line.skip(10) =~= decimal(m as nat));
            assert(line.skip(10) =~= decimal(n as nat));
            lemma_decimal_is_injective(m as nat, n as nat);
        },
        (EchoEvent::ButtonPress(m), EchoEvent::ButtonPress(n)) => {
            assert(line.skip(13) =~= decimal(m as nat));
            assert(line.skip(13) =~= decimal(n as nat));
            lemma_decimal_is_injective(m as nat, n as nat);
        },
        _ => {},
    }
}

/// The number that a run of decimal digits stands for, read from the left.
pub open spec fn number(digits: Seq<char>) -> int
    decreases digits.len(),
{
    if digits.len() == 0 {
        0
    } else {
        number(digits.drop_last()) * 10 + (digits.last() as int - 48)
    }
}

/// A number is written so that reading it gives it back: only the digits `0` to `9`, at least one,
/// and no zero in front of another digit.
pub proof fn law_decimal_reads_back(n: nat)
    ensures
        number(decimal(n)) == n,
        decimal(n).len() > 0,
        forall|i: int| 0 <= i < decimal(n).len() ==> '0' <= #[trigger] decimal(n)[i] <= '9',
        decimal(n)[0] == '0' ==> n == 0,
        decimal(n).len() > 1 ==> decimal(n)[0] != '0',
    decreases n,
{
    if n < 10 {
        let digits = decimal(n);
        assert(digits.drop_last() =~= Seq::<char>::empty());
        assert(number(digits.drop_last()) == 0);
    } else {
        law_decimal_reads_back(n / 10);
        assert(decimal(n).drop_last() =~= decimal(n / 10));
        assert(decimal(n)[0] == decimal(n / 10)[0]);
    }
}

/// A key or button is reported by its kind and its number, and the other reported events by their
/// names. A new size and events that do not matter are not reported.
pub proof fn law_line_tells_what_happened(event: EchoEvent)
    ensures
        match event {
            EchoEvent::Mapped => event_line(event) == Some("mapped"@),
            EchoEvent::Exposed => event_line(event) == Some("exposed"@),
            EchoEvent::KeyPress(keycode) => event_line(event) matches Some(line) && line.take(10)
                == "key-press "@ && line.len() > 10 && number(line.skip(10)) == keycode,
            EchoEvent::ButtonPress(button) => event_line(event) matches Some(line) && line.take(13)
                == "button-press "@ && line.len() > 13 && number(line.skip(13)) == button,
            EchoEvent::Configured { .. } => event_line(event) is None,
            EchoEvent::Other => event_line(event) is None,
        },
{
    reveal_strlit("key-press ");
    reveal_strlit("button-press ");
    match event {
        EchoEvent::KeyPress(n) => {
            law_decimal_reads_back(n as nat);
            let line = event_line(event)->Some_0;
            assert(line.skip(10) =~= decimal(n as nat));
            assert(line.take(10) =~= "key-press "@);
        },
        EchoEvent::ButtonPress(n) => {
            law_decimal_reads_back(n as nat);
            let line = event_line(event)->Some_0;
            assert(line.skip(13) =~= decimal(n as nat));
            assert(line.take(13) =~= "button-press "@);
        },
        _ => {},
    }
}

/// An exposure, and nothing else, has the whole window painted, from its corner to its full size; a
/// new size, and nothing else, changes the window.
pub proof fn law_exposure_paints_the_whole_window(client: EchoClient, event: EchoEvent)
    ensures
        MAGENTA == 0xff00ff,
        INIT_W == 640,
        INIT_H == 480,
        match event_fill(client, event) {
            Some(fill) => {
                &&& event is Exposed
                &&& fill.x == 0
                &&& fill.y == 0
                &&& fill.width == client.width
                &&& fill.height == client.height
            },
            None => !(event is Exposed),
        },
        match event {
            EchoEvent::Configured { width, height } => after_event(client, event).width == width
                && after_event(client, event).height == height,
            _ => after_event(client, event) == client,
        },
{
}

} // verus!
