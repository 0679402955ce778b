//! What each operation of a pane is for: how the state after it relates to the state before, to what
//! was reported, and to nothing else.

use crate::input::SpikeInput;
use crate::pane::PaneView;
use crate::pane::PumpStep;
use crate::pane::Shown;
use crate::pane::Started;
use crate::present::DmabufFrame;
use vstd::prelude::*;

verus! {

/// Frames go through memory only if the setting spells `readback`, in capital or small letters;
/// without a setting, and with any other, the zero-copy path is preferred.
pub proof fn law_only_readback_turns_dmabuf_off(value: Seq<char>)
    ensures
        crate::pane::prefers_dmabuf(None),
        !crate::pane::prefers_dmabuf(Some(value)) <==> {
            &&& value.len() == 8
            &&& value[0] == 'r' || value[0] == 'R'
            &&& value[1] == 'e' || value[1] == 'E'
            &&& value[2] == 'a' || value[2] == 'A'
            &&& value[3] == 'd' || value[3] == 'D'
            &&& value[4] == 'b' || value[4] == 'B'
            &&& value[5] == 'a' || value[5] == 'A'
            &&& value[6] == 'c' || value[6] == 'C'
            &&& value[7] == 'k' || value[7] == 'K'
        },
{
    reveal_strlit("readback");
    let word = "readback"@;
    if crate::text::same_ignoring_ascii_case(value, word) {
        assert forall|i: int| 0 <= i < 8 implies #[trigger] crate::text::ascii_lower(value[i])
            == word[i] by {
            assert(crate::text::ascii_lower(value[i]) == crate::text::ascii_lower(word[i]));
        }
        assert(crate::text::ascii_lower(value[0]) == 'r');
        assert(crate::text::ascii_lower(value[1]) == 'e');
        assert(crate::text::ascii_lower(value[2]) == 'a');
        assert(crate::text::ascii_lower(value[3]) == 'd');
        assert(crate::text::ascii_lower(value[4]) == 'b');
        assert(crate::text::ascii_lower(value[5]) == 'a');
        assert(crate::text::ascii_lower(value[6]) == 'c');
        assert(crate::text::ascii_lower(value[7]) == 'k');
    }
}

/// A new pane is hidden and shows nothing, takes the output to be 1280 by 800, and has sent and
/// reported nothing. It reaches the compositor that started just as the compositor said, or, if none
/// did, not at all, and then it knows why.
pub proof fn law_new_pane_reaches_its_compositor(
    setting: Option<Seq<char>>,
    spawned: Result<Started, String>,
)
    ensures
        ({
            let pane = PaneView::blank(setting).constructed(spawned);
            &&& pane.prefer_dmabuf == crate::pane::prefers_dmabuf(setting)
            &&& !pane.warned
            &&& pane.out_size.0 == 1280
            &&& pane.out_size.1 == 800
            &&& pane.applied.0 == 0
            &&& pane.applied.1 == 0
            &&& pane.applied.2 == 0
            &&& !pane.pumping
            &&& !pane.polling
            &&& pane.shown == Shown::Nothing
            &&& match spawned {
                Ok(started) => {
                    &&& pane.session matches Some(session)
                    &&& session.socket_name == started.socket_name@
                    &&& match started.control_socket_path {
                        Some(path) => session.control_socket_path == Some(path@),
                        None => session.control_socket_path is None,
                    }
                    &&& pane.seat matches Some(seat)
                    &&& seat.channel == started.input_tx
                    &&& seat.offered.len() == 0
                    &&& pane.release matches Some(release)
                    &&& release.channel == started.release_tx
                    &&& release.offered.len() == 0
                    &&& pane.startup_error is None
                },
                Err(message) => {
                    &&& pane.session is None
                    &&& pane.seat is None
                    &&& pane.release is None
                    &&& pane.startup_error == Some(message@)
                },
            }
        }),
{
}

/// A start is fit to be taken over unless one of its two queues has a limit.
pub proof fn law_only_a_bounded_queue_is_refused(started: Started, message: String)
    ensures
        crate::pane::never_waits(Err(message)),
        !crate::pane::never_waits(Ok(started)) <==> crate::channel::seat_limit(started.input_tx)
            is Some || crate::channel::release_limit(started.release_tx) is Some,
{
}

/// A running pane reports the socket and the path that its session has, and one that is not running
/// reports neither.
pub proof fn law_sockets_are_the_session_s(pane: PaneView)
    ensures
        match pane.session {
            Some(session) => {
                &&& pane.wayland_socket() == Some(session.socket_name)
                &&& pane.control_socket_path() == session.control_socket_path
            },
            None => pane.wayland_socket() is None && pane.control_socket_path() is None,
        },
        crate::pane::known_property("wayland-socket"@),
        crate::pane::known_property("control-socket-path"@),
{
}

/// The frame pump is a timer of 16 milliseconds and the resize poll one of 150; each is added only
/// where it is not running.
pub proof fn law_timers_have_their_intervals(pane: PaneView)
    ensures
        pane.pump_timer() == Some(16u64) <==> !pane.pumping,
        pane.pump_timer() is None <==> pane.pumping,
        pane.poll_timer() == Some(150u64) <==> !pane.polling,
        pane.poll_timer() is None <==> pane.polling,
{
}

/// Showing a pane sets both timers going and, if it holds focus, tells the seat so; and that is all.
pub proof fn law_showing_resumes_the_view(pane: PaneView, has_focus: bool)
    ensures
        ({
            let shown = pane.mapped(has_focus);
            &&& shown.pumping
            &&& shown.polling
            &&& match pane.seat {
                Some(before) => {
                    &&& shown.seat matches Some(after)
                    &&& after.channel == before.channel
                    &&& has_focus ==> after.offered == before.offered.push(SpikeInput::Focus(true))
                    &&& !has_focus ==> after.offered == before.offered
                },
                None => shown.seat is None,
            }
            &&& shown.session == pane.session
            &&& shown.release == pane.release
            &&& shown.prefer_dmabuf == pane.prefer_dmabuf
            &&& shown.warned == pane.warned
            &&& shown.out_size == pane.out_size
            &&& shown.applied == pane.applied
            &&& shown.shown == pane.shown
            &&& shown.startup_error == pane.startup_error
        }),
{
}

/// Hiding a pane stops both timers and clears the screen; and that is all.
pub proof fn law_hiding_pauses_the_view(pane: PaneView)
    ensures
        ({
            let hidden = pane.unmapped();
            &&& !hidden.pumping
            &&& !hidden.polling
            &&& hidden.shown == Shown::Nothing
            &&& hidden.session == pane.session
            &&& hidden.seat == pane.seat
            &&& hidden.release == pane.release
            &&& hidden.prefer_dmabuf == pane.prefer_dmabuf
            &&& hidden.warned == pane.warned
            &&& hidden.out_size == pane.out_size
            &&& hidden.applied == pane.applied
            &&& hidden.startup_error == pane.startup_error
        }),
{
}

/// Taking a pane down cuts every way to the compositor, stops both timers and clears the screen; and
/// that is all.
pub proof fn law_teardown_cuts_every_way(pane: PaneView)
    ensures
        ({
            let down = pane.torn_down();
            &&& down.session is None
            &&& down.seat is None
            &&& down.release is None
            &&& !down.pumping
            &&& !down.polling
            &&& down.shown == Shown::Nothing
            &&& down.prefer_dmabuf == pane.prefer_dmabuf
            &&& down.warned == pane.warned
            &&& down.out_size == pane.out_size
            &&& down.applied == pane.applied
            &&& down.startup_error == pane.startup_error
        }),
{
}

/// The output follows the pane: after a look at an allocation with area, the output is as large as
/// the allocation in device pixels, within 16 to 16384 on each edge, whatever it was before.
pub proof fn law_output_follows_the_allocation(pane: PaneView, sample: (i32, i32, i32))
    requires
        pane.valid(),
        sample.0 > 0,
        sample.1 > 0,
        sample.2 > 0,
    ensures
        pane.sampled(sample).applied.0 == sample.0,
        pane.sampled(sample).applied.1 == sample.1,
        pane.sampled(sample).applied.2 == sample.2,
        pane.sampled(sample).out_size.0 == (if sample.0 * sample.2 < 16 {
            16
        } else if sample.0 * sample.2 > 16384 {
            16384
        } else {
            sample.0 * sample.2
        }),
        pane.sampled(sample).out_size.1 == (if sample.1 * sample.2 < 16 {
            16
        } else if sample.1 * sample.2 > 16384 {
            16384
        } else {
            sample.1 * sample.2
        }),
{
}

/// The compositor is asked once for each change: an allocation that differs from the one applied in
/// its width, its height or its scale factor sends one request, for the size that coordinates are
/// mapped to from then on, and the one applied already sends none.
pub proof fn law_every_change_of_allocation_is_asked_for(pane: PaneView, sample: (i32, i32, i32))
    requires
        sample.0 > 0,
        sample.1 > 0,
        sample.2 > 0,
    ensures
        ({
            let after = pane.sampled(sample);
            let changed = sample.0 != pane.applied.0 || sample.1 != pane.applied.1 || sample.2
                != pane.applied.2;
            &&& !changed ==> after == pane
            &&& changed ==> match pane.seat {
                Some(before) => {
                    &&& after.seat matches Some(seat)
                    &&& seat.channel == before.channel
                    &&& seat.offered == before.offered.push(
                        SpikeInput::Resize { width: after.out_size.0, height: after.out_size.1 },
                    )
                },
                None => after.seat is None,
            }
        }),
{
}

/// A look at an allocation without area changes nothing, and no look at any allocation changes more
/// than the output size, the allocation applied and the seat's queue.
pub proof fn law_resizing_touches_nothing_else(pane: PaneView, sample: (i32, i32, i32))
    ensures
        sample.0 <= 0 || sample.1 <= 0 || sample.2 <= 0 ==> pane.sampled(sample) == pane,
        ({
            let after = pane.sampled(sample);
            &&& after.session == pane.session
            &&& after.release == pane.release
            &&& after.prefer_dmabuf == pane.prefer_dmabuf
            &&& after.warned == pane.warned
            &&& after.pumping == pane.pumping
            &&& after.polling == pane.polling
            &&& after.shown == pane.shown
            &&& after.startup_error == pane.startup_error
        }),
{
}

/// A running pane always asks the compositor for something, mapped or not: for a dmabuf if it prefers
/// that, and else for a frame in memory. One that is not running asks for nothing.
pub proof fn law_running_pane_asks_for_a_frame(pane: PaneView, warn: bool)
    ensures
        pane.session is Some && pane.prefer_dmabuf ==> pane.first_step() == PumpStep::QueryDmabuf,
        pane.session is Some && !pane.prefer_dmabuf ==> pane.first_step()
            == (PumpStep::QueryReadback { warn: false }),
        pane.session is None ==> pane.first_step() == (PumpStep::Idle { warn: false }),
        pane.session is Some ==> pane.readback_step(warn) == (PumpStep::QueryReadback { warn }),
        pane.session is None ==> pane.readback_step(warn) == (PumpStep::Idle { warn }),
{
}

/// A buffer that the toolkit took goes on screen, and one that it rejected leaves the screen as it
/// is and is remembered as a failure; a frame in memory goes on screen. Nothing else changes.
pub proof fn law_what_came_goes_on_screen(pane: PaneView, slot: u64)
    ensures
        pane.imported(slot, true).shown == Shown::Dmabuf(slot),
        pane.imported(slot, true).warned == pane.warned,
        pane.imported(slot, false).shown == pane.shown,
        pane.imported(slot, false).warned,
        pane.read_back(true).shown == Shown::Memory,
        pane.read_back(true).warned == pane.warned,
        pane.read_back(false) == pane,
        pane.imported(slot, true) == (PaneView { shown: Shown::Dmabuf(slot), ..pane }),
        pane.imported(slot, false) == (PaneView { warned: true, ..pane }),
        pane.read_back(true) == (PaneView { shown: Shown::Memory, ..pane }),
{
}

/// A whole round of a running pane puts the newest frame on screen, mapped or not and with either
/// setting: the dmabuf, if dmabufs are preferred, there is one and the toolkit takes it; in every
/// other case the frame in memory, if there is one. With neither, the screen stays as it is.
pub proof fn law_round_shows_the_newest_frame(
    pane: PaneView,
    dmabuf: Option<u64>,
    accepted: bool,
    readback: bool,
)
    requires
        pane.valid(),
        pane.session is Some,
    ensures
        ({
            let after = pane.after_round(dmabuf, accepted, readback);
            &&& pane.prefer_dmabuf && accepted ==> match dmabuf {
                Some(slot) => after.shown == Shown::Dmabuf(slot),
                None => true,
            }
            &&& !pane.prefer_dmabuf || !accepted || dmabuf is None ==> {
                &&& readback ==> after.shown == Shown::Memory
                &&& !readback ==> after.shown == pane.shown
            }
            &&& after.warned <==> pane.warned || (pane.prefer_dmabuf && dmabuf is Some && !accepted)
            &&& after == PaneView { shown: after.shown, warned: after.warned, ..pane }
        }),
{
}

/// A round of a pane that is not running does nothing, whatever the answers would be.
pub proof fn law_round_without_a_compositor_does_nothing(
    pane: PaneView,
    dmabuf: Option<u64>,
    accepted: bool,
    readback: bool,
)
    requires
        pane.session is None,
    ensures
        pane.after_round(dmabuf, accepted, readback) == pane,
        !pane.round_imports(dmabuf),
        !pane.round_fails(dmabuf, accepted),
        !pane.round_warns(dmabuf, accepted),
        !pane.round_reads_back(dmabuf, accepted),
{
}

/// A running pane imports the dmabuf, if there is one and dmabufs are preferred, and asks for a frame
/// in memory in every round in which no dmabuf was taken. The first rejected dmabuf is reported, and
/// no later one.
pub proof fn law_round_tries_dmabuf_then_memory(
    pane: PaneView,
    dmabuf: Option<u64>,
    accepted: bool,
)
    requires
        pane.valid(),
        pane.session is Some,
    ensures
        pane.round_imports(dmabuf) <==> pane.prefer_dmabuf && dmabuf is Some,
        pane.round_fails(dmabuf, accepted) <==> pane.prefer_dmabuf && dmabuf is Some && !accepted,
        pane.round_warns(dmabuf, accepted) <==> pane.prefer_dmabuf && dmabuf is Some && !accepted
            && !pane.warned,
        pane.round_reads_back(dmabuf, accepted) <==> !(pane.prefer_dmabuf && dmabuf is Some
            && accepted),
{
}

/// The slot of a dmabuf is the one that the compositor gave it.
pub proof fn law_slot_is_the_frame_s(frame: DmabufFrame)
    ensures
        crate::lifecycle::slot_of(Some(frame)) == Some(frame.buffer_id),
        crate::lifecycle::slot_of(None) is None,
{
}

/// A pane has either all ways to the compositor or none, and none if the compositor failed to start;
/// and the output is as large as the allocation last applied asked for, or 1280 by 800 before any.
pub proof fn law_valid_pane_is_all_or_nothing(pane: PaneView)
    requires
        pane.valid(),
    ensures
        pane.session is Some <==> pane.seat is Some,
        pane.session is Some <==> pane.release is Some,
        pane.startup_error is Some ==> pane.session is None && pane.seat is None && pane.release
            is None,
        pane.applied.2 <= 0 ==> pane.applied == (0i32, 0i32, 0i32) && pane.out_size == (
            1280i32,
            800i32,
        ),
        pane.applied.2 > 0 ==> {
            &&& pane.applied.0 > 0
            &&& pane.applied.1 > 0
            &&& pane.out_size.0 == pane.applied.0 * pane.applied.2 || pane.out_size.0 == 16
                || pane.out_size.0 == 16384
            &&& pane.out_size.1 == pane.applied.1 * pane.applied.2 || pane.out_size.1 == 16
                || pane.out_size.1 == 16384
        },
{
}

} // verus!
