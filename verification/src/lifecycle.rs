//! What holds of a pane over its whole life: statements about any sequence of events.

use crate::input::SpikeInput;
use crate::pane::PaneView;
use crate::pane::PumpStep;
use crate::pane::Shown;
use crate::pane::Started;
use crate::pane::WaylandPane;
use crate::present::DmabufFrame;
use crate::present::Frame;
use crate::present::KeptSlot;
use crate::present::MemoryTexture;
use crate::present::ReturnedSlot;
use crate::present::SlotRelease;
use crate::present::SlotReleaseView;
use crate::present::TexturePlan;
use vstd::prelude::*;

verus! {

/// One event in the life of a pane.
pub enum PaneEvent {
    /// The pane becomes visible, with or without keyboard focus.
    Show { has_focus: bool },
    /// The pane is hidden.
    Hide,
    /// The resize timer fires and finds this width, height and scale factor.
    ResizeTick { sample: (i32, i32, i32) },
    /// The pump timer fires. The compositor has a dmabuf in this slot or none, the toolkit would
    /// accept it or not, and the compositor has a frame in memory or not.
    PumpTick { dmabuf: Option<u64>, accepted: bool, readback: bool },
    /// The embedder closes the pane.
    Close,
    /// The widget goes away.
    Dispose,
}

impl PaneEvent {
    /// The event takes the compositor down.
    pub open spec fn tears_down(self) -> bool {
        self is Close || self is Dispose
    }
}

impl PaneView {
    /// After the readback half of a round, which asks the compositor only if the step says so.
    pub open spec fn after_readback_step(self, step: PumpStep, readback: bool) -> Self {
        if step is QueryReadback {
            self.read_back(readback)
        } else {
            self
        }
    }

    /// After a whole round of the frame pump.
    pub open spec fn after_round(self, dmabuf: Option<u64>, accepted: bool, readback: bool) -> Self {
        match (self.first_step(), dmabuf, self.release) {
            (PumpStep::QueryDmabuf, Some(slot), Some(_)) => {
                let imported = self.imported(slot, accepted);
                if accepted {
                    imported
                } else {
                    imported.after_readback_step(self.readback_step(!self.warned), readback)
                }
            },
            _ => self.after_readback_step(self.readback_step(false), readback),
        }
    }

    /// A round that begins like this tries to import a buffer.
    pub open spec fn round_imports(self, dmabuf: Option<u64>) -> bool {
        self.first_step() is QueryDmabuf && dmabuf is Some && self.release is Some
    }

    /// A round that begins like this has an import rejected.
    pub open spec fn round_fails(self, dmabuf: Option<u64>, accepted: bool) -> bool {
        self.round_imports(dmabuf) && !accepted
    }

    /// A round that begins like this reports a failed import.
    pub open spec fn round_warns(self, dmabuf: Option<u64>, accepted: bool) -> bool {
        self.round_fails(dmabuf, accepted) && !self.warned
    }

    /// A round that begins like this asks for a frame in memory.
    pub open spec fn round_reads_back(self, dmabuf: Option<u64>, accepted: bool) -> bool {
        self.session is Some && !(self.round_imports(dmabuf) && accepted)
    }

    /// After one event. A timer that is not running does not fire.
    pub open spec fn after(self, event: PaneEvent) -> Self {
        match event {
            PaneEvent::Show { has_focus } => self.mapped(has_focus),
            PaneEvent::Hide => self.unmapped(),
            PaneEvent::ResizeTick { sample } => if self.polling {
                self.sampled(sample)
            } else {
                self
            },
            PaneEvent::PumpTick { dmabuf, accepted, readback } => if self.pumping {
                self.after_round(dmabuf, accepted, readback)
            } else {
                self
            },
            PaneEvent::Close => self.torn_down(),
            PaneEvent::Dispose => self.torn_down(),
        }
    }

    /// After a run of events.
    pub open spec fn after_all(self, events: Seq<PaneEvent>) -> Self
        decreases events.len(),
    {
        if events.len() == 0 {
            self
        } else {
            self.after_all(events.drop_last()).after(events.last())
        }
    }
}

/// The slot behind an optional dmabuf.
pub open spec fn slot_of(dmabuf: Option<DmabufFrame>) -> Option<u64> {
    match dmabuf {
        Some(frame) => Some(frame.buffer_id),
        None => None,
    }
}

/// What came of one whole round of the frame pump.
pub struct PumpRound {
    /// The import that was tried: what was to be built, and the texture's duty to return the slot.
    pub import: Option<(TexturePlan, SlotRelease)>,
    /// The other side of that import: the slot was kept for the texture, or has gone back.
    pub settlement: Option<Result<KeptSlot, ReturnedSlot>>,
    /// The frame in memory that goes on screen.
    pub memory: Option<MemoryTexture>,
    /// A failed import has to be reported.
    pub warn: bool,
}

impl WaylandPane {
    /// One whole round of the frame pump, for answers that are known beforehand: the compositor's
    /// latest dmabuf, whether the toolkit accepts it, and the compositor's latest frame in memory.
    pub fn pump_round(
        &mut self,
        dmabuf: Option<DmabufFrame>,
        accepted: bool,
        readback: Option<Frame>,
    ) -> (round: PumpRound)
        requires
            old(self)@.valid(),
        ensures
            final(self)@ == old(self)@.after_round(slot_of(dmabuf), accepted, readback is Some),
            final(self)@.valid(),
            round.import is Some <==> old(self)@.round_imports(slot_of(dmabuf)),
            (round.import, dmabuf, old(self)@.release) matches (
                Some((plan, on_release)),
                Some(frame),
                Some(release),
            ) ==> plan.describes(frame) && on_release@ == SlotReleaseView::due(
                frame.buffer_id,
                release.channel,
            ),
            round.settlement is Some <==> old(self)@.round_imports(slot_of(dmabuf)),
            (round.settlement, dmabuf, old(self)@.release) matches (
                Some(settlement),
                Some(frame),
                Some(release),
            ) ==> crate::present::settles(
                settlement,
                SlotReleaseView::due(frame.buffer_id, release.channel),
                accepted,
            ),
            round.memory is Some <==> readback is Some && old(self)@.round_reads_back(
                slot_of(dmabuf),
                accepted,
            ),
            (round.memory, readback) matches (Some(texture), Some(frame)) ==> texture.shows(frame),
            round.warn == old(self)@.round_warns(slot_of(dmabuf), accepted),
            old(self)@.session is Some ==> final(self)@.shown == (match (dmabuf, readback) {
                (Some(frame), _) if old(self)@.prefer_dmabuf && accepted => Shown::Dmabuf(
                    frame.buffer_id,
                ),
                (_, Some(_)) => Shown::Memory,
                _ => old(self)@.shown,
            }),
            old(self)@.session is None ==> final(self)@ == old(self)@,
    {
        let mut round = PumpRound { import: None, settlement: None, memory: None, warn: false };
        let step = match self.pump_tick() {
            PumpStep::QueryDmabuf => self.dmabuf_answered(dmabuf),
            step => step,
        };
        let step = match step {
            PumpStep::Import(import) => {
                let (step, settlement) = self.import_finished(import.on_failure, accepted);
                round.import = Some((import.plan, import.on_release));
                round.settlement = Some(settlement);
                step
            },
            step => step,
        };
        if let PumpStep::QueryReadback { warn } = step {
            round.warn = warn;
            if let PumpStep::ShowMemory(texture) = self.present_readback(readback) {
                round.memory = Some(texture);
            }
        }
        round
    }
}

/// Some event of the run takes the compositor down.
pub open spec fn torn_down_in(events: Seq<PaneEvent>) -> bool {
    exists|i: int| 0 <= i < events.len() && (#[trigger] events[i]).tears_down()
}

/// After the run the pane is visible: it was mapped, and not hidden since.
pub open spec fn visible_after(events: Seq<PaneEvent>) -> bool
    decreases events.len(),
{
    if events.len() == 0 {
        false
    } else {
        match events.last() {
            PaneEvent::Show { .. } => true,
            PaneEvent::Hide => false,
            _ => visible_after(events.drop_last()),
        }
    }
}

/// How many events of the run have the compositor shut down.
pub open spec fn shutdowns(pane: PaneView, events: Seq<PaneEvent>) -> nat
    decreases events.len(),
{
    if events.len() == 0 {
        0
    } else {
        let before = pane.after_all(events.drop_last());
        shutdowns(pane, events.drop_last()) + if events.last().tears_down() && before.session is Some {
            1nat
        } else {
            0nat
        }
    }
}

/// How many rounds of the frame pump in the run report a failed import.
pub open spec fn warnings(pane: PaneView, events: Seq<PaneEvent>) -> nat
    decreases events.len(),
{
    if events.len() == 0 {
        0
    } else {
        let before = pane.after_all(events.drop_last());
        warnings(pane, events.drop_last()) + match events.last() {
            PaneEvent::PumpTick { dmabuf, accepted, .. } if before.pumping && before.round_warns(
                dmabuf,
                accepted,
            ) => 1nat,
            _ => 0nat,
        }
    }
}

/// How many rounds of the frame pump in the run have an import rejected.
pub open spec fn failures(pane: PaneView, events: Seq<PaneEvent>) -> nat
    decreases events.len(),
{
    if events.len() == 0 {
        0
    } else {
        let before = pane.after_all(events.drop_last());
        failures(pane, events.drop_last()) + match events.last() {
            PaneEvent::PumpTick { dmabuf, accepted, .. } if before.pumping && before.round_fails(
                dmabuf,
                accepted,
            ) => 1nat,
            _ => 0nat,
        }
    }
}

/// The last output size asked for in a run of seat input.
pub open spec fn last_resize(offered: Seq<SpikeInput>) -> Option<(i32, i32)>
    decreases offered.len(),
{
    if offered.len() == 0 {
        None
    } else {
        match offered.last() {
            SpikeInput::Resize { width, height } => Some((width, height)),
            _ => last_resize(offered.drop_last()),
        }
    }
}

/// A pane as it is constructed.
pub open spec fn constructed(setting: Option<Seq<char>>, spawned: Result<Started, String>) -> PaneView {
    PaneView::blank(setting).constructed(spawned)
}

proof fn lemma_torn_down_in_step(events: Seq<PaneEvent>)
    requires
        events.len() > 0,
    ensures
        torn_down_in(events) <==> torn_down_in(events.drop_last()) || events.last().tears_down(),
{
    let before = events.drop_last();
    if torn_down_in(before) {
        let i = choose|i: int| 0 <= i < before.len() && (#[trigger] before[i]).tears_down();
        assert(events[i].tears_down());
    }
    if events.last().tears_down() {
        assert(events[events.len() - 1].tears_down());
    }
    if torn_down_in(events) && !events.last().tears_down() {
        let i = choose|i: int| 0 <= i < events.len() && (#[trigger] events[i]).tears_down();
        assert(before[i].tears_down());
    }
}

/// No event breaks the pane's invariant.
pub proof fn law_every_event_keeps_the_invariant(pane: PaneView, events: Seq<PaneEvent>)
    requires
        pane.valid(),
    ensures
        pane.after_all(events).valid(),
    decreases events.len(),
{
    if events.len() > 0 {
        law_every_event_keeps_the_invariant(pane, events.drop_last());
    }
}

/// Hiding and showing a pane, resizing it and presenting frames leave the hosted application alone,
/// any number of times over: the same compositor keeps running, reached over the same queues.
pub proof fn law_only_teardown_touches_the_compositor(pane: PaneView, events: Seq<PaneEvent>)
    requires
        !torn_down_in(events),
    ensures
        pane.after_all(events).session == pane.session,
        pane.after_all(events).release == pane.release,
        pane.after_all(events).startup_error == pane.startup_error,
        match (pane.seat, pane.after_all(events).seat) {
            (Some(before), Some(after)) => before.channel == after.channel,
            (None, None) => true,
            _ => false,
        },
    decreases events.len(),
{
    if events.len() > 0 {
        lemma_torn_down_in_step(events);
        law_only_teardown_touches_the_compositor(pane, events.drop_last());
    }
}

/// A pane is running from its construction, if its compositor started, until it is closed or
/// disposed of, and never again after that.
pub proof fn law_runs_until_torn_down(
    setting: Option<Seq<char>>,
    spawned: Result<Started, String>,
    events: Seq<PaneEvent>,
)
    ensures
        constructed(setting, spawned).after_all(events).session is Some <==> spawned is Ok
            && !torn_down_in(events),
    decreases events.len(),
{
    if events.len() > 0 {
        lemma_torn_down_in_step(events);
        law_runs_until_torn_down(setting, spawned, events.drop_last());
    }
}

/// A compositor that started is shut down once if the pane is ever taken down, and not otherwise,
/// however often it is closed and disposed of.
pub proof fn law_compositor_is_shut_down_once(
    setting: Option<Seq<char>>,
    spawned: Result<Started, String>,
    events: Seq<PaneEvent>,
)
    ensures
        shutdowns(constructed(setting, spawned), events) == (if spawned is Ok && torn_down_in(
            events,
        ) {
            1nat
        } else {
            0nat
        }),
    decreases events.len(),
{
    if events.len() > 0 {
        lemma_torn_down_in_step(events);
        law_compositor_is_shut_down_once(setting, spawned, events.drop_last());
        law_runs_until_torn_down(setting, spawned, events.drop_last());
    }
}

/// Closing a pane does what disposing of it does, and doing it again changes nothing and leaves
/// nothing to stop.
pub proof fn law_close_is_dispose_and_idempotent(pane: PaneView)
    ensures
        pane.after(PaneEvent::Close) == pane.after(PaneEvent::Dispose),
        pane.torn_down().torn_down() == pane.torn_down(),
        !pane.torn_down().pumping,
        !pane.torn_down().polling,
        pane.torn_down().session is None,
{
}

/// The frame pump and the resize poll run only while the pane is visible, and until the pane is
/// taken down they run all that time.
pub proof fn law_timers_run_only_while_visible(
    setting: Option<Seq<char>>,
    spawned: Result<Started, String>,
    events: Seq<PaneEvent>,
)
    ensures
        ({
            let pane = constructed(setting, spawned).after_all(events);
            &&& pane.pumping ==> visible_after(events)
            &&& pane.polling ==> visible_after(events)
            &&& !torn_down_in(events) && visible_after(events) ==> pane.pumping && pane.polling
        }),
    decreases events.len(),
{
    if events.len() > 0 {
        lemma_torn_down_in_step(events);
        law_timers_run_only_while_visible(setting, spawned, events.drop_last());
    }
}

/// A hidden pane has nothing on screen, and so holds none of the compositor's buffers.
pub proof fn law_hidden_pane_shows_nothing(
    setting: Option<Seq<char>>,
    spawned: Result<Started, String>,
    events: Seq<PaneEvent>,
)
    ensures
        !visible_after(events) ==> constructed(setting, spawned).after_all(events).shown
            == Shown::Nothing,
    decreases events.len(),
{
    if events.len() > 0 {
        law_hidden_pane_shows_nothing(setting, spawned, events.drop_last());
        law_timers_run_only_while_visible(setting, spawned, events.drop_last());
    }
}

/// A pane without a compositor, because it failed to start or was taken down, shows nothing.
pub proof fn law_stopped_pane_shows_nothing(
    setting: Option<Seq<char>>,
    spawned: Result<Started, String>,
    events: Seq<PaneEvent>,
)
    ensures
        constructed(setting, spawned).after_all(events).session is None ==> constructed(
            setting,
            spawned,
        ).after_all(events).shown == Shown::Nothing,
    decreases events.len(),
{
    if events.len() > 0 {
        law_stopped_pane_shows_nothing(setting, spawned, events.drop_last());
    }
}

/// A failed import is reported exactly once in the life of a pane that has any. As this holds of
/// every run, also of one that ends with the first failure, it is the first failure that is
/// reported.
pub proof fn law_failed_import_is_reported_once(
    setting: Option<Seq<char>>,
    spawned: Result<Started, String>,
    events: Seq<PaneEvent>,
)
    ensures
        constructed(setting, spawned).after_all(events).warned <==> failures(
            constructed(setting, spawned),
            events,
        ) > 0,
        warnings(constructed(setting, spawned), events) == (if failures(
            constructed(setting, spawned),
            events,
        ) > 0 {
            1nat
        } else {
            0nat
        }),
    decreases events.len(),
{
    if events.len() > 0 {
        law_failed_import_is_reported_once(setting, spawned, events.drop_last());
    }
}

/// A pane that was set to readback never imports a buffer.
pub proof fn law_readback_setting_is_kept(
    setting: Option<Seq<char>>,
    spawned: Result<Started, String>,
    events: Seq<PaneEvent>,
)
    requires
        !crate::pane::prefers_dmabuf(setting),
    ensures
        !(constructed(setting, spawned).after_all(events).first_step() is QueryDmabuf),
        !(constructed(setting, spawned).after_all(events).shown is Dmabuf),
        !constructed(setting, spawned).after_all(events).warned,
    decreases events.len(),
{
    if events.len() > 0 {
        law_readback_setting_is_kept(setting, spawned, events.drop_last());
    }
}

/// The size that coordinates are mapped to is the size last asked for over the seat's queue, or
/// the initial one.
pub proof fn law_output_size_is_the_last_one_asked_for(
    setting: Option<Seq<char>>,
    started: Started,
    events: Seq<PaneEvent>,
)
    requires
        !torn_down_in(events),
    ensures
        ({
            let pane = constructed(setting, Ok(started)).after_all(events);
            &&& pane.seat matches Some(seat)
            &&& pane.out_size == (match last_resize(seat.offered) {
                Some(size) => size,
                None => (crate::pane::INIT_OUT_W as i32, crate::pane::INIT_OUT_H as i32),
            })
        }),
    decreases events.len(),
{
    let first = constructed(setting, Ok(started));
    if events.len() > 0 {
        lemma_torn_down_in_step(events);
        law_output_size_is_the_last_one_asked_for(setting, started, events.drop_last());
        let before = first.after_all(events.drop_last());
        let after = first.after_all(events);
        if before.seat->Some_0.offered != after.seat->Some_0.offered {
            assert(after.seat->Some_0.offered.drop_last() =~= before.seat->Some_0.offered);
        }
    }
}

/// The size that coordinates are mapped to is the initial one, until an allocation is applied, and
/// from then on what the allocation last applied asks for. Either way it is within the limits.
pub proof fn law_output_size_follows_the_applied_allocation(
    setting: Option<Seq<char>>,
    spawned: Result<Started, String>,
    events: Seq<PaneEvent>,
)
    ensures
        ({
            let pane = constructed(setting, spawned).after_all(events);
            &&& {
                ||| pane.applied == (0i32, 0i32, 0i32) && pane.out_size == (
                    crate::pane::INIT_OUT_W as i32,
                    crate::pane::INIT_OUT_H as i32,
                )
                ||| crate::geometry::output_request(
                    pane.applied.0 as int,
                    pane.applied.1 as int,
                    pane.applied.2 as int,
                ) == Some((pane.out_size.0 as int, pane.out_size.1 as int))
            }
            &&& crate::geometry::MIN_OUT_PX <= pane.out_size.0 <= crate::geometry::MAX_OUT_PX
            &&& crate::geometry::MIN_OUT_PX <= pane.out_size.1 <= crate::geometry::MAX_OUT_PX
        }),
{
    let pane = constructed(setting, spawned).after_all(events);
    law_every_event_keeps_the_invariant(constructed(setting, spawned), events);
    law_output_size_is_within_limits(pane);
    crate::geometry::law_request_is_within_limits(
        pane.applied.0 as int,
        pane.applied.1 as int,
        pane.applied.2 as int,
    );
}

/// The nested output always has a size within the limits.
pub proof fn law_output_size_is_within_limits(pane: PaneView)
    requires
        pane.valid(),
    ensures
        crate::geometry::MIN_OUT_PX <= pane.out_size.0 <= crate::geometry::MAX_OUT_PX,
        crate::geometry::MIN_OUT_PX <= pane.out_size.1 <= crate::geometry::MAX_OUT_PX,
{
    crate::geometry::law_request_is_within_limits(
        pane.applied.0 as int,
        pane.applied.1 as int,
        pane.applied.2 as int,
    );
}

/// An allocation that has not changed asks for nothing: a second look at it does nothing.
pub proof fn law_same_allocation_asks_once(pane: PaneView, sample: (i32, i32, i32))
    ensures
        pane.sampled(sample).sampled(sample) == pane.sampled(sample),
{
}

/// A pane that is shown again while it holds focus tells the seat so, as its last word.
pub proof fn law_remapped_pane_regains_focus(pane: PaneView)
    ensures
        pane.unmapped().mapped(true).seat == crate::channel::forwarded(
            pane.seat,
            SpikeInput::Focus(true),
        ),
        pane.unmapped().mapped(false).seat == pane.seat,
{
}

/// What was sent to the seat is never taken back: later events only add to it.
pub proof fn law_seat_input_is_only_added(pane: PaneView, events: Seq<PaneEvent>)
    ensures
        (pane.seat, pane.after_all(events).seat) matches (Some(before), Some(after)) ==> {
            &&& before.channel == after.channel
            &&& before.offered.is_prefix_of(after.offered)
        },
        pane.seat is None ==> pane.after_all(events).seat is None,
    decreases events.len(),
{
    if events.len() > 0 {
        law_seat_input_is_only_added(pane, events.drop_last());
    }
}

/// Starting a timer that runs, or stopping one that does not, does nothing: a second start adds no
/// timer, a stopped timer can be started again, and neither timer touches the other or anything
/// else of the pane.
pub proof fn law_timers_start_and_stop_once(pane: PaneView)
    ensures
        pane.pump_timer() is Some <==> !pane.pumping,
        pane.pump_started().pump_timer() is None,
        pane.pump_started().pump_started() == pane.pump_started(),
        pane.pump_stopped().pump_timer() == Some(crate::pane::FRAME_PUMP_MS),
        pane.pump_stopped().pump_stopped() == pane.pump_stopped(),
        pane.pump_stopped().pump_started() == pane.pump_started(),
        pane.pump_started() == (PaneView { pumping: true, ..pane }),
        pane.pump_stopped() == (PaneView { pumping: false, ..pane }),
        pane.poll_timer() is Some <==> !pane.polling,
        pane.poll_started().poll_timer() is None,
        pane.poll_started().poll_started() == pane.poll_started(),
        pane.poll_stopped().poll_timer() == Some(crate::pane::RESIZE_POLL_MS),
        pane.poll_stopped().poll_stopped() == pane.poll_stopped(),
        pane.poll_stopped().poll_started() == pane.poll_started(),
        pane.poll_started() == (PaneView { polling: true, ..pane }),
        pane.poll_stopped() == (PaneView { polling: false, ..pane }),
{
}

/// Showing a pane that is shown adds no timer, hiding one that is hidden removes none, and a hidden
/// pane that is shown again gets both.
pub proof fn law_showing_and_hiding_twice_is_once(pane: PaneView, has_focus: bool)
    ensures
        pane.mapped(has_focus).pump_timer() is None,
        pane.mapped(has_focus).poll_timer() is None,
        pane.mapped(has_focus).mapped(false) == pane.mapped(has_focus),
        !pane.unmapped().pumping,
        !pane.unmapped().polling,
        pane.unmapped().unmapped() == pane.unmapped(),
        pane.unmapped().pump_timer() == Some(crate::pane::FRAME_PUMP_MS),
        pane.unmapped().poll_timer() == Some(crate::pane::RESIZE_POLL_MS),
{
}

/// Two panes whose compositors were started on different sockets never report the same one, whatever
/// happens to either: each reports its own while it runs, and none after that.
pub proof fn law_panes_keep_their_own_sockets(
    setting_a: Option<Seq<char>>,
    started_a: Started,
    events_a: Seq<PaneEvent>,
    setting_b: Option<Seq<char>>,
    started_b: Started,
    events_b: Seq<PaneEvent>,
)
    requires
        started_a.socket_name@ != started_b.socket_name@,
        (started_a.control_socket_path, started_b.control_socket_path) matches (
            Some(path_a),
            Some(path_b),
        ) && path_a@ != path_b@,
    ensures
        ({
            let a = constructed(setting_a, Ok(started_a)).after_all(events_a);
            let b = constructed(setting_b, Ok(started_b)).after_all(events_b);
            &&& a.session is Some && b.session is Some ==> {
                &&& a.wayland_socket() is Some && b.wayland_socket() is Some
                &&& a.wayland_socket() != b.wayland_socket()
                &&& a.control_socket_path() is Some && b.control_socket_path() is Some
                &&& a.control_socket_path() != b.control_socket_path()
            }
            &&& a.session is None ==> a.wayland_socket() is None && a.control_socket_path() is None
        }),
{
    law_runs_until_torn_down(setting_a, Ok(started_a), events_a);
    law_runs_until_torn_down(setting_b, Ok(started_b), events_b);
    if !torn_down_in(events_a) && !torn_down_in(events_b) {
        law_only_teardown_touches_the_compositor(constructed(setting_a, Ok(started_a)), events_a);
        law_only_teardown_touches_the_compositor(constructed(setting_b, Ok(started_b)), events_b);
    }
}

/// Whether and why a pane has a startup error is settled when it is constructed: no later event
/// sets, changes or clears it, and a pane whose compositor started never gets one.
pub proof fn law_startup_error_is_settled_at_construction(
    setting: Option<Seq<char>>,
    spawned: Result<Started, String>,
    events: Seq<PaneEvent>,
)
    ensures
        constructed(setting, spawned).after_all(events).startup_error == constructed(
            setting,
            spawned,
        ).startup_error,
        constructed(setting, spawned).startup_error == (match spawned {
            Ok(_) => None,
            Err(message) => Some(message@),
        }),
    decreases events.len(),
{
    if events.len() > 0 {
        law_startup_error_is_settled_at_construction(setting, spawned, events.drop_last());
    }
}

/// A pane whose compositor did not start keeps the reason, and offers no way to a compositor.
pub proof fn law_failed_start_stays_failed(
    setting: Option<Seq<char>>,
    message: String,
    events: Seq<PaneEvent>,
)
    ensures
        ({
            let pane = constructed(setting, Err(message)).after_all(events);
            &&& pane.startup_error == Some(message@)
            &&& pane.session is None
            &&& pane.seat is None
            &&& pane.release is None
        }),
    decreases events.len(),
{
    if events.len() > 0 {
        law_failed_start_stays_failed(setting, message, events.drop_last());
    }
}

} // verus!
