//! The X11 test client.

use klamottenkiste::echo::{EchoClient, EchoEvent, EchoReply, Fill, INIT_H, INIT_W, MAGENTA};

fn line(event: EchoEvent) -> Option<String> {
    EchoClient::new().handle(event).line
}

#[test]
fn each_event_has_its_line() {
    assert_eq!(line(EchoEvent::Mapped), Some("mapped".to_string()));
    assert_eq!(line(EchoEvent::Exposed), Some("exposed".to_string()));
    assert_eq!(
        line(EchoEvent::KeyPress(38)),
        Some("key-press 38".to_string())
    );
    assert_eq!(
        line(EchoEvent::ButtonPress(1)),
        Some("button-press 1".to_string())
    );
    assert_eq!(line(EchoEvent::Other), None);
    assert_eq!(
        line(EchoEvent::Configured {
            width: 1,
            height: 2
        }),
        None
    );
}

#[test]
fn numbers_are_printed_as_the_formatter_prints_them() {
    for n in 0..=u8::MAX {
        assert_eq!(
            line(EchoEvent::KeyPress(n)),
            Some(format!("key-press {n}"))
        );
        assert_eq!(
            line(EchoEvent::ButtonPress(n)),
            Some(format!("button-press {n}"))
        );
    }
}

#[test]
fn an_exposure_paints_the_whole_window_at_its_latest_size() {
    let mut client = EchoClient::new();
    assert_eq!((INIT_W, INIT_H), (640, 480));
    assert_eq!(MAGENTA, 0xff00ff);
    assert_eq!(
        client.handle(EchoEvent::Exposed),
        EchoReply {
            fill: Some(Fill {
                x: 0,
                y: 0,
                width: 640,
                height: 480
            }),
            line: Some("exposed".to_string()),
        }
    );
    client.handle(EchoEvent::Configured {
        width: 800,
        height: 600,
    });
    client.handle(EchoEvent::KeyPress(9));
    client.handle(EchoEvent::Other);
    assert_eq!(
        client.handle(EchoEvent::Exposed).fill,
        Some(Fill {
            x: 0,
            y: 0,
            width: 800,
            height: 600
        })
    );
}

#[test]
fn only_exposures_paint() {
    let mut client = EchoClient::new();
    for event in [
        EchoEvent::Mapped,
        EchoEvent::Configured {
            width: 5,
            height: 6,
        },
        EchoEvent::KeyPress(1),
        EchoEvent::ButtonPress(1),
        EchoEvent::Other,
    ] {
        assert_eq!(client.handle(event).fill, None);
    }
}
