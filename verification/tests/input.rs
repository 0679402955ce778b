//! Codes, and the controllers that use them.

use crossbeam_channel::{unbounded, Receiver};
use klamottenkiste::controllers::{button_event, key_event, motion_event, PointerAt, SeatControllers};
use klamottenkiste::geometry::SUBPIXELS;
use klamottenkiste::input::{gtk_button_to_evdev, keycode_to_evdev, SpikeInput};
use klamottenkiste::pane::Started;
use klamottenkiste::WaylandPane;

fn running_pane() -> (WaylandPane, Receiver<SpikeInput>) {
    let (input_tx, input_rx) = unbounded();
    let (release_tx, _release_rx) = unbounded();
    let started = Started {
        socket_name: "wayland-7".to_string(),
        control_socket_path: None,
        input_tx,
        release_tx,
    };
    (WaylandPane::new(None, Ok(started)), input_rx)
}

fn at(x: i64, y: i64) -> PointerAt {
    PointerAt {
        x: x * SUBPIXELS,
        y: y * SUBPIXELS,
        widget_w: 1280,
        widget_h: 1000,
    }
}

fn sent(rx: &Receiver<SpikeInput>) -> Vec<SpikeInput> {
    rx.try_iter().collect()
}

#[test]
fn buttons_map_to_evdev() {
    assert_eq!(gtk_button_to_evdev(1), Some(0x110));
    assert_eq!(gtk_button_to_evdev(2), Some(0x112));
    assert_eq!(gtk_button_to_evdev(3), Some(0x111));
    assert_eq!(gtk_button_to_evdev(9), None);
}

#[test]
fn other_buttons_have_no_code() {
    assert_eq!(gtk_button_to_evdev(0), None);
    assert_eq!(gtk_button_to_evdev(4), None);
    assert_eq!(gtk_button_to_evdev(u32::MAX), None);
}

#[test]
fn keycodes_lie_eight_above_evdev() {
    assert_eq!(keycode_to_evdev(8), Some(0));
    assert_eq!(keycode_to_evdev(38), Some(30));
    assert_eq!(keycode_to_evdev(7), None);
    assert_eq!(keycode_to_evdev(0), None);
    assert_eq!(keycode_to_evdev(u32::MAX), Some(u32::MAX - 8));
}

#[test]
fn pointer_events_are_mapped_into_the_output() {
    // A 1280x1000 widget shows the initial 1280x800 output with bars of 100 px above and below.
    let (pane, rx) = running_pane();
    let mut controllers = pane.install_controllers();
    controllers.pressed(&pane, at(640, 500), 1);
    controllers.released(&pane, at(640, 500), 1);
    controllers.motion(&pane, at(10, 120));
    let x = 640 * SUBPIXELS;
    let y = 400 * SUBPIXELS;
    assert_eq!(
        sent(&rx),
        vec![
            SpikeInput::Button {
                x,
                y,
                button: 0x110,
                pressed: true
            },
            SpikeInput::Button {
                x,
                y,
                button: 0x110,
                pressed: false
            },
            SpikeInput::Motion {
                x: 10 * SUBPIXELS,
                y: 20 * SUBPIXELS
            },
        ]
    );
}

#[test]
fn pointer_events_on_the_bars_are_dropped() {
    let (pane, rx) = running_pane();
    let mut controllers = pane.install_controllers();
    controllers.pressed(&pane, at(640, 50), 1);
    controllers.released(&pane, at(640, 950), 3);
    controllers.motion(&pane, at(640, 99));
    assert_eq!(sent(&rx), vec![]);
}

#[test]
fn unknown_buttons_are_dropped() {
    let (pane, rx) = running_pane();
    let mut controllers = pane.install_controllers();
    controllers.pressed(&pane, at(640, 500), 8);
    controllers.released(&pane, at(640, 500), 0);
    assert_eq!(sent(&rx), vec![]);
}

#[test]
fn keys_scroll_and_focus_are_forwarded() {
    let (pane, rx) = running_pane();
    let mut controllers = pane.install_controllers();
    controllers.focus_entered();
    controllers.key_pressed(38);
    controllers.key_released(38);
    controllers.key_pressed(3);
    controllers.key_released(3);
    let dx = (-0.5f64).to_bits();
    let dy = 1.25f64.to_bits();
    controllers.scroll(dx, dy);
    controllers.focus_left();
    assert_eq!(
        sent(&rx),
        vec![
            SpikeInput::Focus(true),
            SpikeInput::Key {
                evdev: 30,
                pressed: true
            },
            SpikeInput::Key {
                evdev: 30,
                pressed: false
            },
            SpikeInput::Scroll { dx, dy },
            SpikeInput::Focus(false),
        ]
    );
}

#[test]
fn the_controllers_follow_the_output_size() {
    let (mut pane, rx) = running_pane();
    let mut controllers = pane.install_controllers();
    pane.resize_poll_tick(1280, 1000, 2);
    controllers.motion(&pane, at(640, 50));
    assert_eq!(
        sent(&rx),
        vec![
            SpikeInput::Resize {
                width: 2560,
                height: 2000
            },
            SpikeInput::Motion {
                x: 1280 * SUBPIXELS,
                y: 100 * SUBPIXELS
            },
        ]
    );
}

#[test]
fn without_a_compositor_the_controllers_do_nothing() {
    let pane = WaylandPane::new(None, Err("no render node".to_string()));
    let mut controllers: SeatControllers = pane.install_controllers();
    controllers.pressed(&pane, at(640, 500), 1);
    controllers.motion(&pane, at(640, 500));
    controllers.key_pressed(38);
    controllers.scroll(0, 0);
    controllers.focus_entered();
    assert!(pane.input_sender().is_none());
}

#[test]
fn a_compositor_that_is_gone_is_no_obstacle() {
    let (pane, rx) = running_pane();
    let mut controllers = pane.install_controllers();
    drop(rx);
    controllers.key_pressed(38);
    controllers.focus_left();
    assert!(pane.is_running());
}

#[test]
fn single_events_without_a_pane() {
    let out = (1280, 800);
    assert_eq!(
        button_event(at(640, 500), out, 2, false),
        Some(SpikeInput::Button {
            x: 640 * SUBPIXELS,
            y: 400 * SUBPIXELS,
            button: 0x112,
            pressed: false
        })
    );
    assert_eq!(button_event(at(640, 500), out, 4, false), None);
    assert_eq!(button_event(at(640, 0), out, 2, false), None);
    assert_eq!(motion_event(at(640, 0), out), None);
    assert_eq!(
        motion_event(at(0, 100), out),
        Some(SpikeInput::Motion { x: 0, y: 0 })
    );
    assert_eq!(
        key_event(9, true),
        Some(SpikeInput::Key {
            evdev: 1,
            pressed: true
        })
    );
    assert_eq!(key_event(7, true), None);
}

#[test]
fn input_can_be_cloned_and_told_apart() {
    let text = SpikeInput::Text("hi".to_string());
    assert_eq!(text.clone(), text);
    assert_ne!(text, SpikeInput::Focus(true));
}
