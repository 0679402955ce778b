//! The pane: the state of one embedded application, and what each toolkit event makes of it.
//!
//! A pane has two lifecycles. Being mapped and unmapped only concerns the view: the frame pump and
//! the resize poll run while the pane is mapped. The compositor lives as long as the pane object:
//! it is started once, when the pane is constructed, and stopped once, by [`WaylandPane::close`] or
//! [`WaylandPane::dispose`].
//!
//! The toolkit and the compositor stay outside. A method here takes what they report and returns
//! what they are to do.

use crate::channel::forward;
use crate::channel::release_capacity;
use crate::channel::seat_capacity;
use crate::channel::Outbox;
use crate::channel::OutboxView;
use crate::geometry::requested_output;
use crate::input::SpikeInput;
use crate::present::build_dmabuf_texture;
use crate::present::memory_texture;
use crate::present::DmabufFrame;
use crate::present::DmabufImport;
use crate::present::Frame;
use crate::present::KeptSlot;
use crate::present::MemoryTexture;
use crate::present::ReturnedSlot;
use crate::present::SlotRelease;
use crate::text::eq_ignore_ascii_case;
use crate::text::from_utf8_lossy;
use crate::text::same_text;
use crossbeam_channel::Sender;
use vstd::prelude::*;

verus! {

/// Initial nested output width, in device pixels, until the first resize poll.
pub const INIT_OUT_W: u32 = 1280;

/// Initial nested output height, in device pixels, until the first resize poll.
pub const INIT_OUT_H: u32 = 800;

/// Interval of the frame pump in milliseconds.
pub const FRAME_PUMP_MS: u64 = 16;

/// Interval of the resize poll in milliseconds.
pub const RESIZE_POLL_MS: u64 = 150;

/// What a compositor that has started hands to its pane. Both channels are unbounded.
pub struct Started {
    /// Name of the nested Wayland socket.
    pub socket_name: String,
    /// Path of the control socket, as bytes, if there is one.
    pub control_socket_path: Option<Vec<u8>>,
    /// Where seat input goes.
    pub input_tx: Sender<SpikeInput>,
    /// Where pool slots go back to.
    pub release_tx: Sender<u64>,
}

/// A compositor that is running: how its clients reach it.
struct Session {
    socket_name: String,
    control_socket_path: Option<Vec<u8>>,
}

/// What is on screen.
#[derive(Debug, Clone, Copy, PartialEq, Eq, Structural)]
pub enum Shown {
    /// Nothing: no frame yet, or the pane is hidden or closed.
    Nothing,
    /// A texture over the compositor's buffer in this pool slot.
    Dmabuf(u64),
    /// A texture over a copy of the frame.
    Memory,
}

/// Timers that have to be started, each with its interval in milliseconds.
#[derive(Debug, Clone, Copy, PartialEq, Eq, Structural)]
pub struct MapOrders {
    /// Start the frame pump.
    pub start_pump: Option<u64>,
    /// Start the resize poll.
    pub start_resize_poll: Option<u64>,
}

/// Timers that have to be removed.
#[derive(Debug, Clone, Copy, PartialEq, Eq, Structural)]
pub struct UnmapOrders {
    /// Remove the frame pump.
    pub stop_pump: bool,
    /// Remove the resize poll.
    pub stop_resize_poll: bool,
}

/// What has to be taken down.
#[derive(Debug, Clone, Copy, PartialEq, Eq, Structural)]
pub struct TeardownOrders {
    /// Remove the frame pump.
    pub stop_pump: bool,
    /// Remove the resize poll.
    pub stop_resize_poll: bool,
    /// Shut the compositor down, and with it the hosted client.
    pub shutdown: bool,
}

/// The next thing to do in one round of the frame pump.
pub enum PumpStep {
    /// Ask the compositor for its latest dmabuf, and report it to
    /// [`WaylandPane::dmabuf_answered`].
    QueryDmabuf,
    /// Build a texture from a dmabuf, and report to [`WaylandPane::import_finished`].
    Import(DmabufImport),
    /// Put the texture just built on screen. The round is over.
    ShowImported,
    /// Ask the compositor for its latest frame in memory, and report it to
    /// [`WaylandPane::present_readback`]. Before that, warn of the failed import if `warn` is set.
    QueryReadback { warn: bool },
    /// Put a frame in memory on screen. The round is over.
    ShowMemory(MemoryTexture),
    /// Leave the screen as it is. The round is over. Warn of the failed import if `warn` is set.
    Idle { warn: bool },
}

/// How clients reach a running compositor.
#[verifier::ext_equal]
pub struct SessionView {
    pub socket_name: Seq<char>,
    pub control_socket_path: Option<Seq<u8>>,
}

/// The state of a pane.
#[verifier::ext_equal]
pub struct PaneView {
    /// The running compositor.
    pub session: Option<SessionView>,
    /// The pane's own handle to the seat's queue.
    pub seat: Option<OutboxView<SpikeInput>>,
    /// The pane's own handle to the queue over which pool slots go back. It is only copied: each
    /// import sends on handles of its own.
    pub release: Option<OutboxView<u64>>,
    /// The zero-copy path is preferred.
    pub prefer_dmabuf: bool,
    /// A failed import has been reported.
    pub warned: bool,
    /// The current size of the nested output.
    pub out_size: (i32, i32),
    /// The last width, height and scale factor that led to a resize.
    pub applied: (i32, i32, i32),
    /// The frame pump is running.
    pub pumping: bool,
    /// The resize poll is running.
    pub polling: bool,
    /// What is on screen.
    pub shown: Shown,
    /// Why the compositor did not start.
    pub startup_error: Option<Seq<char>>,
}

/// The private state of one pane.
pub struct WaylandPane {
    session: Option<Session>,
    input_tx: Option<Outbox<SpikeInput>>,
    release_tx: Option<Outbox<u64>>,
    present_dmabuf: bool,
    dmabuf_warned: bool,
    out_size: (i32, i32),
    applied: (i32, i32, i32),
    pump_running: bool,
    resize_polling: bool,
    shown: Shown,
    startup_error: Option<String>,
}

impl View for WaylandPane {
    type V = PaneView;

    closed spec fn view(&self) -> PaneView {
        PaneView {
            session: match self.session {
                Some(s) => Some(
                    SessionView {
                        socket_name: s.socket_name@,
                        control_socket_path: crate::text::path_view(s.control_socket_path),
                    },
                ),
                None => None,
            },
            seat: crate::channel::outbox_view(self.input_tx),
            release: crate::channel::outbox_view(self.release_tx),
            prefer_dmabuf: self.present_dmabuf,
            warned: self.dmabuf_warned,
            out_size: self.out_size,
            applied: self.applied,
            pumping: self.pump_running,
            polling: self.resize_polling,
            shown: self.shown,
            startup_error: crate::text::text_view(self.startup_error),
        }
    }
}

/// The zero-copy path is preferred unless the setting asks for readback, in any case.
pub open spec fn prefers_dmabuf(setting: Option<Seq<char>>) -> bool {
    match setting {
        Some(value) => !crate::text::same_ignoring_ascii_case(value, "readback"@),
        None => true,
    }
}

/// Whether to prefer the zero-copy dmabuf path, given the value of `KLAMOTTENKISTE_PRESENT`.
///
/// `readback` forces frames through memory; anything else, or no value, prefers dmabuf. It is a
/// preference: a round of the pump that gets no dmabuf still tries the readback.
pub fn present_dmabuf_preferred(setting: Option<&str>) -> (preferred: bool)
    ensures
        preferred == prefers_dmabuf(
            match setting {
                Some(value) => Some(value@),
                None => None,
            },
        ),
{
    match setting {
        Some(value) => !eq_ignore_ascii_case(value, "readback"),
        None => true,
    }
}

/// The output size that a request stands for.
pub open spec fn requested_size(sample: (i32, i32, i32)) -> Option<(i32, i32)> {
    match crate::geometry::output_request(sample.0 as int, sample.1 as int, sample.2 as int) {
        Some((width, height)) => Some((width as i32, height as i32)),
        None => None,
    }
}

/// How a started compositor is reached.
pub open spec fn session_view(started: Started) -> SessionView {
    SessionView {
        socket_name: started.socket_name@,
        control_socket_path: crate::text::path_view(started.control_socket_path),
    }
}

/// A start that a pane can take over: it failed, or both of the compositor's queues are unbounded.
pub open spec fn never_waits(spawned: Result<Started, String>) -> bool {
    match spawned {
        Ok(started) => {
            &&& crate::channel::seat_limit(started.input_tx) is None
            &&& crate::channel::release_limit(started.release_tx) is None
        },
        Err(_) => true,
    }
}

/// The name of a property that a pane has.
pub open spec fn known_property(name: Seq<char>) -> bool {
    name == "wayland-socket"@ || name == "control-socket-path"@
}

impl PaneView {
    /// A pane before anything has happened to it.
    pub open spec fn blank(setting: Option<Seq<char>>) -> Self {
        PaneView {
            session: None,
            seat: None,
            release: None,
            prefer_dmabuf: prefers_dmabuf(setting),
            warned: false,
            out_size: (INIT_OUT_W as i32, INIT_OUT_H as i32),
            applied: (0, 0, 0),
            pumping: false,
            polling: false,
            shown: Shown::Nothing,
            startup_error: None,
        }
    }

    /// After the compositor has started or has failed to.
    pub open spec fn constructed(self, spawned: Result<Started, String>) -> Self {
        match spawned {
            Ok(started) => PaneView {
                session: Some(session_view(started)),
                seat: Some(OutboxView::unused(started.input_tx)),
                release: Some(OutboxView::unused(started.release_tx)),
                ..self
            },
            Err(message) => PaneView { startup_error: Some(message@), ..self },
        }
    }

    /// With the frame pump running.
    pub open spec fn pump_started(self) -> Self {
        PaneView { pumping: true, ..self }
    }

    /// With the frame pump paused.
    pub open spec fn pump_stopped(self) -> Self {
        PaneView { pumping: false, ..self }
    }

    /// With the resize poll running.
    pub open spec fn poll_started(self) -> Self {
        PaneView { polling: true, ..self }
    }

    /// With the resize poll paused.
    pub open spec fn poll_stopped(self) -> Self {
        PaneView { polling: false, ..self }
    }

    /// The timer that starting the frame pump adds: none if it is running.
    pub open spec fn pump_timer(self) -> Option<u64> {
        if self.pumping {
            None
        } else {
            Some(FRAME_PUMP_MS)
        }
    }

    /// The timer that starting the resize poll adds: none if it is running.
    pub open spec fn poll_timer(self) -> Option<u64> {
        if self.polling {
            None
        } else {
            Some(RESIZE_POLL_MS)
        }
    }

    /// The name of the socket that clients connect to.
    pub open spec fn wayland_socket(self) -> Option<Seq<char>> {
        match self.session {
            Some(session) => Some(session.socket_name),
            None => None,
        }
    }

    /// The path of the control socket.
    pub open spec fn control_socket_path(self) -> Option<Seq<u8>> {
        match self.session {
            Some(session) => session.control_socket_path,
            None => None,
        }
    }

    /// After the pane has become visible.
    pub open spec fn mapped(self, has_focus: bool) -> Self {
        PaneView {
            seat: if has_focus {
                crate::channel::forwarded(self.seat, SpikeInput::Focus(true))
            } else {
                self.seat
            },
            ..self.pump_started().poll_started()
        }
    }

    /// After the pane has been hidden.
    pub open spec fn unmapped(self) -> Self {
        PaneView { shown: Shown::Nothing, ..self.pump_stopped().poll_stopped() }
    }

    /// After the compositor has been taken down.
    pub open spec fn torn_down(self) -> Self {
        PaneView {
            session: None,
            seat: None,
            release: None,
            shown: Shown::Nothing,
            ..self.pump_stopped().poll_stopped()
        }
    }

    /// After the resize poll has seen an allocation: a new one that makes sense is recorded and
    /// asked for.
    pub open spec fn sampled(self, sample: (i32, i32, i32)) -> Self {
        match requested_size(sample) {
            Some((width, height)) if sample != self.applied => PaneView {
                applied: sample,
                out_size: (width, height),
                seat: crate::channel::forwarded(self.seat, SpikeInput::Resize { width, height }),
                ..self
            },
            _ => self,
        }
    }

    /// After the toolkit has taken or rejected the buffer in `slot`.
    pub open spec fn imported(self, slot: u64, accepted: bool) -> Self {
        if accepted {
            PaneView { shown: Shown::Dmabuf(slot), ..self }
        } else {
            PaneView { warned: true, ..self }
        }
    }

    /// After the compositor was asked for a frame in memory.
    pub open spec fn read_back(self, got_frame: bool) -> Self {
        if got_frame {
            PaneView { shown: Shown::Memory, ..self }
        } else {
            self
        }
    }

    /// The readback half of a round: only a running compositor can be asked.
    pub open spec fn readback_step(self, warn: bool) -> PumpStep {
        if self.session is Some {
            PumpStep::QueryReadback { warn }
        } else {
            PumpStep::Idle { warn }
        }
    }

    /// How a round of the frame pump begins.
    pub open spec fn first_step(self) -> PumpStep {
        if self.prefer_dmabuf && self.session is Some {
            PumpStep::QueryDmabuf
        } else {
            self.readback_step(false)
        }
    }

    /// The pane's invariant.
    ///
    /// The three ways to the compositor come and go together; a compositor that failed to start is
    /// not running; and the output size is the initial one or what the last sample asked for.
    pub open spec fn valid(self) -> bool {
        &&& self.session is Some <==> self.seat is Some
        &&& self.session is Some <==> self.release is Some
        &&& self.startup_error is Some ==> self.session is None
        &&& {
            ||| self.applied == (0i32, 0i32, 0i32) && self.out_size == (
                INIT_OUT_W as i32,
                INIT_OUT_H as i32,
            )
            ||| requested_size(self.applied) == Some(self.out_size)
        }
    }
}

/// The names of a pane's properties. Each is a string that can only be read.
pub fn properties() -> (names: Vec<&'static str>)
    ensures
        names@.len() == 2,
        names@[0]@ == "wayland-socket"@,
        names@[1]@ == "control-socket-path"@,
{
    vec!["wayland-socket", "control-socket-path"]
}

impl WaylandPane {
    /// A pane whose compositor has started, or has failed to start for the reason given.
    ///
    /// `setting` is the value of `KLAMOTTENKISTE_PRESENT`, if it has one. A pane without a
    /// compositor is built all the same, and shows nothing: see [`WaylandPane::startup_error`].
    ///
    /// The compositor's queues have to be unbounded; [`WaylandPane::new_checked`] looks.
    pub fn new(setting: Option<&str>, spawned: Result<Started, String>) -> (pane: Self)
        requires
            never_waits(spawned),
        ensures
            pane@ == PaneView::blank(
                match setting {
                    Some(value) => Some(value@),
                    None => None,
                },
            ).constructed(spawned),
            pane@.valid(),
    {
        let mut pane = WaylandPane {
            session: None,
            input_tx: None,
            release_tx: None,
            present_dmabuf: present_dmabuf_preferred(setting),
            dmabuf_warned: false,
            out_size: (INIT_OUT_W as i32, INIT_OUT_H as i32),
            applied: (0, 0, 0),
            pump_running: false,
            resize_polling: false,
            shown: Shown::Nothing,
            startup_error: None,
        };
        pane.constructed(spawned);
        pane
    }

    /// A pane as [`WaylandPane::new`] makes it, or nothing if one of the compositor's queues is
    /// bounded: a pane could then be made to wait.
    pub fn new_checked(setting: Option<&str>, spawned: Result<Started, String>) -> (pane: Option<
        Self,
    >)
        ensures
            pane is Some <==> never_waits(spawned),
            pane matches Some(p) ==> {
                &&& p@ == PaneView::blank(
                    match setting {
                        Some(value) => Some(value@),
                        None => None,
                    },
                ).constructed(spawned)
                &&& p@.valid()
            },
    {
        if let Ok(started) = &spawned {
            if seat_capacity(&started.input_tx).is_some() || release_capacity(
                &started.release_tx,
            ).is_some() {
                return None;
            }
        }
        Some(WaylandPane::new(setting, spawned))
    }

    /// Takes over the compositor that was started for this pane, or the reason why there is none.
    fn constructed(&mut self, spawned: Result<Started, String>)
        requires
            never_waits(spawned),
        ensures
            final(self)@ == old(self)@.constructed(spawned),
    {
        match spawned {
            Ok(started) => {
                self.input_tx = Some(Outbox::new(started.input_tx));
                self.release_tx = Some(Outbox::new(started.release_tx));
                self.session = Some(
                    Session {
                        socket_name: started.socket_name,
                        control_socket_path: started.control_socket_path,
                    },
                );
            },
            Err(message) => {
                self.startup_error = Some(message);
            },
        }
    }

    /// Starts the frame pump if it is not running: returns the interval of the timer to start.
    /// [`WaylandPane::map`] does this.
    pub fn start_pump(&mut self) -> (interval: Option<u64>)
        ensures
            final(self)@ == old(self)@.pump_started(),
            interval == old(self)@.pump_timer(),
    {
        if self.pump_running {
            return None;
        }
        self.pump_running = true;
        Some(FRAME_PUMP_MS)
    }

    /// Starts the resize poll if it is not running: returns the interval of the timer to start.
    /// [`WaylandPane::map`] does this.
    pub fn start_resize_poll(&mut self) -> (interval: Option<u64>)
        ensures
            final(self)@ == old(self)@.poll_started(),
            interval == old(self)@.poll_timer(),
    {
        if self.resize_polling {
            return None;
        }
        self.resize_polling = true;
        Some(RESIZE_POLL_MS)
    }

    /// Pauses the frame pump: returns whether there is a timer to remove. [`WaylandPane::unmap`],
    /// [`WaylandPane::close`] and [`WaylandPane::dispose`] do this.
    pub fn stop_pump(&mut self) -> (running: bool)
        ensures
            final(self)@ == old(self)@.pump_stopped(),
            running == old(self)@.pumping,
    {
        let running = self.pump_running;
        self.pump_running = false;
        running
    }

    /// Pauses the resize poll: returns whether there is a timer to remove. [`WaylandPane::unmap`],
    /// [`WaylandPane::close`] and [`WaylandPane::dispose`] do this.
    pub fn stop_resize_poll(&mut self) -> (running: bool)
        ensures
            final(self)@ == old(self)@.poll_stopped(),
            running == old(self)@.polling,
    {
        let running = self.resize_polling;
        self.resize_polling = false;
        running
    }

    /// The pane has become visible: presentation and resize tracking resume.
    ///
    /// The seat's keyboard focus mirrors the widget's, and hiding the pane took it away. A widget
    /// that is mapped again while it still holds focus is not told so again, so the focus is
    /// asserted here.
    pub fn map(&mut self, has_focus: bool) -> (orders: MapOrders)
        requires
            old(self)@.valid(),
        ensures
            final(self)@ == old(self)@.mapped(has_focus),
            final(self)@.valid(),
            orders.start_pump == old(self)@.pump_timer(),
            orders.start_resize_poll == old(self)@.poll_timer(),
    {
        let start_pump = self.start_pump();
        let start_resize_poll = self.start_resize_poll();
        if has_focus {
            forward(&mut self.input_tx, SpikeInput::Focus(true));
        }
        MapOrders { start_pump, start_resize_poll }
    }

    /// The pane has been hidden: presentation and resize tracking pause, and whatever is on screen
    /// is let go of, so that a hidden pane holds no buffer. The compositor is left alone.
    pub fn unmap(&mut self) -> (orders: UnmapOrders)
        requires
            old(self)@.valid(),
        ensures
            final(self)@ == old(self)@.unmapped(),
            final(self)@.valid(),
            orders.stop_pump == old(self)@.pumping,
            orders.stop_resize_poll == old(self)@.polling,
    {
        let stop_pump = self.stop_pump();
        let stop_resize_poll = self.stop_resize_poll();
        self.shown = Shown::Nothing;
        UnmapOrders { stop_pump, stop_resize_poll }
    }

    /// The widget is going away: the compositor and its hosted client go with it.
    pub fn dispose(&mut self) -> (orders: TeardownOrders)
        requires
            old(self)@.valid(),
        ensures
            final(self)@ == old(self)@.torn_down(),
            final(self)@.valid(),
            orders.stop_pump == old(self)@.pumping,
            orders.stop_resize_poll == old(self)@.polling,
            orders.shutdown == (old(self)@.session is Some),
    {
        let stop_pump = self.stop_pump();
        let stop_resize_poll = self.stop_resize_poll();
        let shutdown = self.session.is_some();
        self.session = None;
        self.input_tx = None;
        self.release_tx = None;
        self.shown = Shown::Nothing;
        TeardownOrders { stop_pump, stop_resize_poll, shutdown }
    }

    /// Takes the compositor and its hosted client down now, and keeps the widget.
    ///
    /// Hiding the pane is not this: that preserves the hosted application.
    pub fn close(&mut self) -> (orders: TeardownOrders)
        requires
            old(self)@.valid(),
        ensures
            final(self)@ == old(self)@.torn_down(),
            final(self)@.valid(),
            orders.stop_pump == old(self)@.pumping,
            orders.stop_resize_poll == old(self)@.polling,
            orders.shutdown == (old(self)@.session is Some),
    {
        self.dispose()
    }

    /// One round of the resize poll: a changed allocation becomes a request for a new output size.
    ///
    /// What is asked for is recorded first, so that the next mapping of a coordinate and the next
    /// comparison go by it.
    pub fn resize_poll_tick(&mut self, width: i32, height: i32, scale_factor: i32)
        requires
            old(self)@.valid(),
        ensures
            final(self)@ == old(self)@.sampled((width, height, scale_factor)),
            final(self)@.valid(),
            width > 0 && height > 0 && scale_factor > 0 ==> final(self)@.applied == (
                width,
                height,
                scale_factor,
            ),
            !(width > 0 && height > 0 && scale_factor > 0) ==> final(self)@ == old(self)@,
            old(self)@.applied == (width, height, scale_factor) ==> final(self)@ == old(self)@,
            width > 0 && height > 0 && scale_factor > 0 && old(self)@.applied != (
                width,
                height,
                scale_factor,
            ) ==> match (old(self)@.seat, final(self)@.seat) {
                (Some(before), Some(after)) => after.channel == before.channel && after.offered
                    == before.offered.push(
                    SpikeInput::Resize {
                        width: final(self)@.out_size.0,
                        height: final(self)@.out_size.1,
                    },
                ),
                (None, None) => true,
                _ => false,
            },
    {
        if width == self.applied.0 && height == self.applied.1 && scale_factor == self.applied.2 {
            return ;
        }
        let (out_w, out_h) = match requested_output(width, height, scale_factor) {
            Some(size) => size,
            None => {
                return ;
            },
        };
        self.applied = (width, height, scale_factor);
        self.out_size = (out_w, out_h);
        forward(&mut self.input_tx, SpikeInput::Resize { width: out_w, height: out_h });
    }

    /// One round of the frame pump begins.
    pub fn pump_tick(&self) -> (step: PumpStep)
        ensures
            step == self@.first_step(),
            self@.session is Some && self@.prefer_dmabuf ==> step is QueryDmabuf,
            self@.session is Some && !self@.prefer_dmabuf ==> step is QueryReadback,
            self@.session is None ==> step is Idle,
    {
        if self.present_dmabuf && self.session.is_some() {
            PumpStep::QueryDmabuf
        } else {
            self.readback(false)
        }
    }

    /// The step that tries the readback.
    fn readback(&self, warn: bool) -> (step: PumpStep)
        ensures
            step == self@.readback_step(warn),
    {
        if self.session.is_some() {
            PumpStep::QueryReadback { warn }
        } else {
            PumpStep::Idle { warn }
        }
    }

    /// The compositor's latest dmabuf, if it has one: import it, else try the readback.
    pub fn dmabuf_answered(&self, frame: Option<DmabufFrame>) -> (step: PumpStep)
        ensures
            match (frame, self@.release) {
                (Some(f), Some(release)) => step matches PumpStep::Import(import)
                    && import.imports(f, release.channel),
                _ => step == self@.readback_step(false),
            },
    {
        match (frame, &self.release_tx) {
            (Some(f), Some(release_tx)) => PumpStep::Import(
                build_dmabuf_texture(&f, &release_tx.sender()),
            ),
            _ => self.readback(false),
        }
    }

    /// The toolkit took or rejected the buffer behind `on_failure`.
    ///
    /// A texture that was built goes on screen, and its slot is kept until the texture goes. A
    /// rejected buffer goes straight back, the readback is tried instead, and the first such failure
    /// in the life of the pane is reported.
    pub fn import_finished(&mut self, on_failure: SlotRelease, accepted: bool) -> (outcome: (
        PumpStep,
        Result<KeptSlot, ReturnedSlot>,
    ))
        requires
            old(self)@.valid(),
        ensures
            final(self)@ == old(self)@.imported(on_failure@.slot, accepted),
            final(self)@.valid(),
            outcome.0 == (if accepted {
                PumpStep::ShowImported
            } else {
                old(self)@.readback_step(!old(self)@.warned)
            }),
            crate::present::settles(outcome.1, on_failure@, accepted),
    {
        if accepted {
            self.shown = Shown::Dmabuf(on_failure.slot());
            return (PumpStep::ShowImported, Ok(on_failure.keep()));
        }
        let returned = on_failure.release();
        let warn = !self.dmabuf_warned;
        self.dmabuf_warned = true;
        (self.readback(warn), Err(returned))
    }

    /// The compositor's latest frame in memory, if it has one: put it on screen.
    pub fn present_readback(&mut self, frame: Option<Frame>) -> (step: PumpStep)
        requires
            old(self)@.valid(),
        ensures
            final(self)@ == old(self)@.read_back(frame is Some),
            final(self)@.valid(),
            match frame {
                Some(f) => step matches PumpStep::ShowMemory(texture) && texture.shows(f),
                None => step == (PumpStep::Idle { warn: false }),
            },
    {
        match frame {
            Some(f) => {
                self.shown = Shown::Memory;
                PumpStep::ShowMemory(memory_texture(f))
            },
            None => PumpStep::Idle { warn: false },
        }
    }

    /// The nested `WAYLAND_DISPLAY` socket name for clients, if the compositor is running.
    pub fn wayland_socket(&self) -> (name: Option<String>)
        ensures
            crate::text::text_view(name) == self@.wayland_socket(),
    {
        match &self.session {
            Some(session) => Some(session.socket_name.clone()),
            None => None,
        }
    }

    /// The path of the control socket, as bytes, if the compositor is running and has one.
    pub fn control_socket_path(&self) -> (path: Option<Vec<u8>>)
        ensures
            crate::text::path_view(path) == self@.control_socket_path(),
    {
        match &self.session {
            Some(session) => match &session.control_socket_path {
                Some(path) => Some(path.clone()),
                None => None,
            },
            None => None,
        }
    }

    /// Another handle to the seat's queue, for an embedder that injects input itself.
    pub fn input_sender(&self) -> (sender: Option<Sender<SpikeInput>>)
        ensures
            sender == (match self@.seat {
                Some(seat) => Some(seat.channel),
                None => None,
            }),
            sender matches Some(tx) ==> crate::channel::seat_limit(tx) is None,
    {
        match &self.input_tx {
            Some(outbox) => Some(outbox.sender()),
            None => None,
        }
    }

    /// Why the compositor did not start, if it did not.
    pub fn startup_error(&self) -> (message: Option<String>)
        ensures
            crate::text::text_view(message) == self@.startup_error,
    {
        match &self.startup_error {
            Some(message) => Some(message.clone()),
            None => None,
        }
    }

    /// Whether the compositor is running: it has started, and has not been taken down.
    pub fn is_running(&self) -> (running: bool)
        ensures
            running == (self@.session is Some),
    {
        self.session.is_some()
    }

    /// The size of the nested output, in device pixels.
    pub fn output_size(&self) -> (size: (i32, i32))
        ensures
            size == self@.out_size,
    {
        self.out_size
    }

    /// The value of one of the pane's two properties.
    pub fn property(&self, name: &str) -> (value: Option<String>)
        requires
            known_property(name@),
        ensures
            name@ == "wayland-socket"@ ==> crate::text::text_view(value) == self@.wayland_socket(),
            name@ == "control-socket-path"@ ==> match self@.control_socket_path() {
                Some(path) => {
                    &&& crate::text::text_view(value) == Some(crate::text::lossy_text(path))
                    &&& vstd::utf8::valid_utf8(path) ==> crate::text::text_view(value) == Some(
                        vstd::utf8::decode_utf8(path),
                    )
                },
                None => value is None,
            },
    {
        proof {
            reveal_strlit("wayland-socket");
            reveal_strlit("control-socket-path");
            assert("wayland-socket"@.len() != "control-socket-path"@.len());
        }
        if same_text(name, "wayland-socket") {
            return self.wayland_socket();
        }
        match &self.session {
            Some(session) => match &session.control_socket_path {
                Some(path) => Some(from_utf8_lossy(path)),
                None => None,
            },
            None => None,
        }
    }
}

} // verus!
