//! The pane's lifecycles, its presentation and its properties.

use crossbeam_channel::{bounded, unbounded, Receiver, Sender};
use klamottenkiste::input::SpikeInput;
use klamottenkiste::pane::{
    present_dmabuf_preferred, properties, MapOrders, PumpStep, Started, TeardownOrders, UnmapOrders,
    FRAME_PUMP_MS, INIT_OUT_H, INIT_OUT_W, RESIZE_POLL_MS,
};
use klamottenkiste::present::{DmabufFrame, DmabufPlane, Frame, PlaneSetting, SlotRelease};
use klamottenkiste::WaylandPane;

struct Ends {
    input: Receiver<SpikeInput>,
    release: Receiver<u64>,
}

fn running(setting: Option<&str>) -> (WaylandPane, Ends) {
    let (input_tx, input) = unbounded();
    let (release_tx, release) = unbounded();
    let started = Started {
        socket_name: "wayland-3".to_string(),
        control_socket_path: Some(b"/tmp/control-1-0.sock".to_vec()),
        input_tx,
        release_tx,
    };
    (
        WaylandPane::new(setting, Ok(started)),
        Ends { input, release },
    )
}

fn dmabuf(buffer_id: u64) -> DmabufFrame {
    DmabufFrame {
        width: 1280,
        height: 800,
        fourcc: 0x3432_5241,
        modifier: 0x0100_0000_0000_0002,
        planes: vec![
            DmabufPlane {
                fd: 11,
                offset: 0,
                stride: 5120,
            },
            DmabufPlane {
                fd: 12,
                offset: 4096,
                stride: 640,
            },
        ],
        buffer_id,
    }
}

fn frame() -> Frame {
    Frame {
        bytes: vec![1, 2, 3, 4, 5, 6, 7, 8],
        width: 2,
        height: 1,
        stride: 8,
    }
}

fn name_of(step: &PumpStep) -> &'static str {
    match step {
        PumpStep::QueryDmabuf => "query dmabuf",
        PumpStep::Import(_) => "import",
        PumpStep::ShowImported => "show imported",
        PumpStep::QueryReadback { warn: false } => "query readback",
        PumpStep::QueryReadback { warn: true } => "warn and query readback",
        PumpStep::ShowMemory(_) => "show memory",
        PumpStep::Idle { warn: false } => "idle",
        PumpStep::Idle { warn: true } => "warn and idle",
    }
}

#[test]
fn the_present_setting_is_read_without_regard_to_case() {
    assert!(present_dmabuf_preferred(None));
    assert!(present_dmabuf_preferred(Some("dmabuf")));
    assert!(present_dmabuf_preferred(Some("")));
    assert!(present_dmabuf_preferred(Some("readbac")));
    assert!(present_dmabuf_preferred(Some("readback ")));
    assert!(present_dmabuf_preferred(Some("r\u{e9}adback")));
    assert!(!present_dmabuf_preferred(Some("readback")));
    assert!(!present_dmabuf_preferred(Some("READBACK")));
    assert!(!present_dmabuf_preferred(Some("ReadBack")));
}

#[test]
fn a_running_pane_can_be_reached() {
    let (pane, ends) = running(None);
    assert!(pane.is_running());
    assert_eq!(pane.wayland_socket(), Some("wayland-3".to_string()));
    assert_eq!(
        pane.control_socket_path(),
        Some(b"/tmp/control-1-0.sock".to_vec())
    );
    assert_eq!(pane.startup_error(), None);
    assert_eq!(pane.output_size(), (INIT_OUT_W as i32, INIT_OUT_H as i32));
    pane.input_sender()
        .unwrap()
        .send(SpikeInput::Text("typed".to_string()))
        .unwrap();
    assert_eq!(
        ends.input.try_recv(),
        Ok(SpikeInput::Text("typed".to_string()))
    );
}

#[test]
fn a_failed_start_leaves_the_reason_and_nothing_else() {
    let mut pane = WaylandPane::new(None, Err("no render node".to_string()));
    assert!(!pane.is_running());
    assert_eq!(pane.startup_error(), Some("no render node".to_string()));
    assert_eq!(pane.wayland_socket(), None);
    assert_eq!(pane.control_socket_path(), None);
    assert!(pane.input_sender().is_none());
    pane.map(true);
    assert_eq!(name_of(&pane.pump_tick()), "idle");
    pane.resize_poll_tick(900, 300, 2);
    assert_eq!(pane.output_size(), (1800, 600));
    assert!(!pane.close().shutdown);
    assert_eq!(pane.startup_error(), Some("no render node".to_string()));
}

#[test]
fn mapping_starts_each_timer_once() {
    let (mut pane, ends) = running(None);
    assert_eq!(
        pane.map(false),
        MapOrders {
            start_pump: Some(FRAME_PUMP_MS),
            start_resize_poll: Some(RESIZE_POLL_MS)
        }
    );
    assert_eq!((FRAME_PUMP_MS, RESIZE_POLL_MS), (16, 150));
    assert_eq!(
        pane.map(false),
        MapOrders {
            start_pump: None,
            start_resize_poll: None
        }
    );
    assert_eq!(
        pane.unmap(),
        UnmapOrders {
            stop_pump: true,
            stop_resize_poll: true
        }
    );
    assert_eq!(
        pane.unmap(),
        UnmapOrders {
            stop_pump: false,
            stop_resize_poll: false
        }
    );
    assert!(ends.input.is_empty());
}

#[test]
fn mapping_a_focused_pane_asserts_focus() {
    let (mut pane, ends) = running(None);
    pane.map(false);
    assert!(ends.input.is_empty());
    pane.unmap();
    pane.map(true);
    assert_eq!(ends.input.try_recv(), Ok(SpikeInput::Focus(true)));
    assert!(ends.input.is_empty());
}

#[test]
fn hiding_and_showing_preserves_the_session() {
    let (mut pane, ends) = running(None);
    for _ in 0..4 {
        pane.map(false);
        pane.unmap();
        assert!(pane.is_running());
        assert_eq!(pane.wayland_socket(), Some("wayland-3".to_string()));
    }
    pane.input_sender()
        .unwrap()
        .send(SpikeInput::Focus(false))
        .unwrap();
    assert_eq!(ends.input.try_recv(), Ok(SpikeInput::Focus(false)));
}

#[test]
fn closing_shuts_down_once() {
    let (mut pane, _ends) = running(None);
    pane.map(false);
    assert_eq!(
        pane.close(),
        TeardownOrders {
            stop_pump: true,
            stop_resize_poll: true,
            shutdown: true
        }
    );
    assert!(!pane.is_running());
    assert_eq!(pane.wayland_socket(), None);
    assert_eq!(pane.control_socket_path(), None);
    assert!(pane.input_sender().is_none());
    assert_eq!(pane.startup_error(), None);
    let nothing = TeardownOrders {
        stop_pump: false,
        stop_resize_poll: false,
        shutdown: false,
    };
    assert_eq!(pane.close(), nothing);
    assert_eq!(pane.dispose(), nothing);
}

#[test]
fn disposing_does_what_closing_does() {
    let (mut pane, _ends) = running(None);
    assert_eq!(
        pane.dispose(),
        TeardownOrders {
            stop_pump: false,
            stop_resize_poll: false,
            shutdown: true
        }
    );
    assert!(!pane.is_running());
    assert!(!pane.close().shutdown);
}

#[test]
fn closing_drops_the_pane_s_ends_of_the_queues() {
    let (mut pane, ends) = running(None);
    pane.close();
    assert!(ends.input.recv().is_err());
    assert!(ends.release.recv().is_err());
}

#[test]
fn controllers_outlive_a_closed_pane_quietly() {
    let (mut pane, ends) = running(None);
    let mut controllers = pane.install_controllers();
    pane.close();
    controllers.key_pressed(38);
    assert_eq!(
        ends.input.try_recv(),
        Ok(SpikeInput::Key {
            evdev: 30,
            pressed: true
        })
    );
}

#[test]
fn a_new_allocation_is_asked_for_once() {
    let (mut pane, ends) = running(None);
    pane.resize_poll_tick(900, 300, 2);
    pane.resize_poll_tick(900, 300, 2);
    assert_eq!(
        ends.input.try_recv(),
        Ok(SpikeInput::Resize {
            width: 1800,
            height: 600
        })
    );
    assert!(ends.input.is_empty());
    assert_eq!(pane.output_size(), (1800, 600));
    pane.resize_poll_tick(900, 300, 1);
    assert_eq!(
        ends.input.try_recv(),
        Ok(SpikeInput::Resize {
            width: 900,
            height: 300
        })
    );
    assert_eq!(pane.output_size(), (900, 300));
}

#[test]
fn an_allocation_without_area_is_ignored() {
    let (mut pane, ends) = running(None);
    pane.resize_poll_tick(0, 0, 0);
    pane.resize_poll_tick(0, 300, 1);
    pane.resize_poll_tick(900, 300, 0);
    assert!(ends.input.is_empty());
    assert_eq!(pane.output_size(), (1280, 800));
    pane.resize_poll_tick(900, 300, 1);
    pane.resize_poll_tick(0, 0, 1);
    assert_eq!(pane.output_size(), (900, 300));
    pane.resize_poll_tick(900, 300, 1);
    assert_eq!(ends.input.len(), 1);
}

#[test]
fn a_dmabuf_is_imported_and_returned_when_the_texture_goes() {
    let (mut pane, ends) = running(None);
    pane.map(false);
    assert_eq!(name_of(&pane.pump_tick()), "query dmabuf");
    let import = match pane.dmabuf_answered(Some(dmabuf(2))) {
        PumpStep::Import(import) => import,
        other => panic!("{}", name_of(&other)),
    };
    let plan = &import.plan;
    assert_eq!((plan.width, plan.height), (1280, 800));
    assert_eq!(plan.fourcc, 0x3432_5241);
    assert_eq!(plan.modifier, 0x0100_0000_0000_0002);
    assert_eq!(plan.n_planes, 2);
    assert!(!plan.premultiplied);
    assert_eq!(
        plan.planes,
        vec![
            PlaneSetting {
                index: 0,
                fd: 11,
                offset: 0,
                stride: 5120
            },
            PlaneSetting {
                index: 1,
                fd: 12,
                offset: 4096,
                stride: 640
            },
        ]
    );
    assert_eq!(import.on_release.slot(), 2);
    let (step, settlement) = pane.import_finished(import.on_failure, true);
    assert_eq!(name_of(&step), "show imported");
    assert_eq!(settlement.map(|kept| kept.slot()).ok(), Some(2));
    assert!(ends.release.is_empty());
    assert_eq!(import.on_release.release().slot(), 2);
    assert_eq!(ends.release.try_recv(), Ok(2));
    assert!(ends.release.is_empty());
}

#[test]
fn a_rejected_dmabuf_goes_straight_back_and_is_reported_once() {
    let (mut pane, ends) = running(None);
    pane.map(false);
    for (round, expected) in ["warn and query readback", "query readback", "query readback"]
        .iter()
        .enumerate()
    {
        let import = match pane.dmabuf_answered(Some(dmabuf(round as u64))) {
            PumpStep::Import(import) => import,
            other => panic!("{}", name_of(&other)),
        };
        let (step, settlement) = pane.import_finished(import.on_failure, false);
        assert_eq!(name_of(&step), *expected);
        assert_eq!(settlement.map_err(|slot| slot.slot()).err(), Some(round as u64));
        assert_eq!(ends.release.try_recv(), Ok(round as u64));
        assert!(ends.release.is_empty());
    }
}

#[test]
fn a_round_shows_an_accepted_dmabuf_and_asks_for_nothing_else() {
    let (mut pane, ends) = running(None);
    let round = pane.pump_round(Some(dmabuf(4)), true, Some(frame()));
    let (plan, on_release) = round.import.expect("an import");
    assert_eq!(plan.n_planes, 2);
    assert!(matches!(round.settlement, Some(Ok(_))));
    assert!(round.memory.is_none());
    assert!(!round.warn);
    assert!(ends.release.is_empty());
    on_release.release();
    assert_eq!(ends.release.try_recv(), Ok(4));
}

#[test]
fn rounds_report_the_first_rejected_dmabuf_and_fall_back_each_time() {
    let (mut pane, ends) = running(None);
    let reports: Vec<bool> = [(true, 0), (false, 1), (true, 2), (false, 3), (false, 4)]
        .iter()
        .map(|&(accepted, slot)| {
            let round = pane.pump_round(Some(dmabuf(slot)), accepted, Some(frame()));
            assert!(round.import.is_some());
            assert_eq!(matches!(round.settlement, Some(Err(_))), !accepted);
            assert_eq!(round.memory.is_some(), !accepted);
            round.warn
        })
        .collect();
    assert_eq!(reports, vec![false, true, false, false, false]);
    let slots: Vec<u64> = ends.release.try_iter().collect();
    assert_eq!(slots, vec![1, 3, 4]);
}

#[test]
fn a_round_without_a_dmabuf_reads_back() {
    let (mut pane, ends) = running(Some("READBACK"));
    let round = pane.pump_round(Some(dmabuf(4)), true, Some(frame()));
    assert!(round.import.is_none());
    assert_eq!(round.memory.expect("a frame").stride, 8);
    assert!(ends.release.is_empty());

    let (mut pane, _ends) = running(None);
    assert!(pane.pump_round(None, true, None).memory.is_none());
    assert!(pane.pump_round(None, true, Some(frame())).memory.is_some());
    pane.close();
    let round = pane.pump_round(Some(dmabuf(4)), false, Some(frame()));
    assert!(round.import.is_none() && round.memory.is_none() && !round.warn);
}

#[test]
fn a_timer_is_started_and_stopped_once() {
    let (mut pane, _ends) = running(None);
    assert_eq!(pane.start_pump(), Some(16));
    assert_eq!(pane.start_pump(), None);
    assert!(pane.stop_pump());
    assert!(!pane.stop_pump());
    assert_eq!(pane.start_pump(), Some(16));
    assert_eq!(pane.start_resize_poll(), Some(150));
    assert_eq!(pane.start_resize_poll(), None);
    assert!(pane.stop_resize_poll());
    assert!(!pane.stop_resize_poll());
    assert!(pane.stop_pump());
}

#[test]
fn a_pane_takes_unbounded_queues_only() {
    let build = |input_tx: Sender<SpikeInput>, release_tx: Sender<u64>| {
        WaylandPane::new_checked(
            None,
            Ok(Started {
                socket_name: "wayland-5".to_string(),
                control_socket_path: None,
                input_tx,
                release_tx,
            }),
        )
    };
    let pane = build(unbounded().0, unbounded().0).expect("a pane");
    assert!(pane.is_running());
    assert!(build(bounded(8).0, unbounded().0).is_none());
    assert!(build(unbounded().0, bounded(8).0).is_none());
    assert!(build(bounded(0).0, bounded(0).0).is_none());
    let failed = WaylandPane::new_checked(None, Err("no EGL".to_string())).expect("a pane");
    assert_eq!(failed.startup_error(), Some("no EGL".to_string()));
}

#[test]
fn a_running_pane_never_gets_a_startup_error() {
    let (mut pane, _ends) = running(None);
    pane.map(true);
    pane.pump_round(Some(dmabuf(1)), false, None);
    pane.unmap();
    assert_eq!(pane.startup_error(), None);
    pane.close();
    assert_eq!(pane.startup_error(), None);
}

#[test]
fn two_panes_report_their_own_sockets() {
    let (first, _first_ends) = running(None);
    let (input_tx, _input_rx) = unbounded();
    let (release_tx, _release_rx) = unbounded();
    let mut second = WaylandPane::new(
        None,
        Ok(Started {
            socket_name: "wayland-4".to_string(),
            control_socket_path: Some(b"/tmp/control-1-1.sock".to_vec()),
            input_tx,
            release_tx,
        }),
    );
    assert_ne!(first.wayland_socket(), second.wayland_socket());
    assert_ne!(first.control_socket_path(), second.control_socket_path());
    second.close();
    assert_eq!(second.control_socket_path(), None);
    assert_eq!(first.wayland_socket(), Some("wayland-3".to_string()));
}

#[test]
fn without_a_dmabuf_the_readback_is_tried() {
    let (mut pane, _ends) = running(None);
    assert_eq!(name_of(&pane.dmabuf_answered(None)), "query readback");
    match pane.present_readback(Some(frame())) {
        PumpStep::ShowMemory(texture) => {
            assert_eq!(texture.bytes, vec![1, 2, 3, 4, 5, 6, 7, 8]);
            assert_eq!((texture.width, texture.height), (2, 1));
            assert_eq!(texture.stride, 8);
        }
        other => panic!("{}", name_of(&other)),
    }
    assert_eq!(name_of(&pane.present_readback(None)), "idle");
}

#[test]
fn the_readback_setting_never_asks_for_a_dmabuf() {
    let (mut pane, _ends) = running(Some("readback"));
    assert_eq!(name_of(&pane.pump_tick()), "query readback");
    pane.close();
    assert_eq!(name_of(&pane.pump_tick()), "idle");
}

#[test]
fn a_closed_pane_presents_nothing() {
    let (mut pane, _ends) = running(None);
    pane.close();
    assert_eq!(name_of(&pane.pump_tick()), "idle");
    assert_eq!(name_of(&pane.dmabuf_answered(Some(dmabuf(1)))), "idle");
}

#[test]
fn properties_mirror_the_getters() {
    assert_eq!(properties(), vec!["wayland-socket", "control-socket-path"]);
    let (mut pane, _ends) = running(None);
    assert_eq!(
        pane.property("wayland-socket"),
        Some("wayland-3".to_string())
    );
    assert_eq!(
        pane.property("control-socket-path"),
        Some("/tmp/control-1-0.sock".to_string())
    );
    pane.close();
    assert_eq!(pane.property("wayland-socket"), None);
    assert_eq!(pane.property("control-socket-path"), None);
}

#[test]
fn a_path_that_is_not_text_is_shown_with_replacements() {
    let (input_tx, _input_rx) = unbounded();
    let (release_tx, _release_rx) = unbounded();
    let pane = WaylandPane::new(
        None,
        Ok(Started {
            socket_name: "wayland-3".to_string(),
            control_socket_path: Some(b"/tmp/\xffx".to_vec()),
            input_tx,
            release_tx,
        }),
    );
    assert_eq!(pane.control_socket_path(), Some(b"/tmp/\xffx".to_vec()));
    assert_eq!(
        pane.property("control-socket-path"),
        Some("/tmp/\u{fffd}x".to_string())
    );
}

#[test]
fn a_compositor_without_a_control_socket() {
    let (input_tx, _input_rx) = unbounded();
    let (release_tx, _release_rx) = unbounded();
    let pane = WaylandPane::new(
        None,
        Ok(Started {
            socket_name: "wayland-4".to_string(),
            control_socket_path: None,
            input_tx,
            release_tx,
        }),
    );
    assert_eq!(pane.control_socket_path(), None);
    assert_eq!(pane.property("control-socket-path"), None);
}

fn sendable<T: Send + 'static>() -> bool {
    true
}

#[test]
fn a_slot_can_be_returned_from_another_thread() {
    assert!(sendable::<SlotRelease>());
    assert!(sendable::<WaylandPane>());
}
