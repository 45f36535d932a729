use webview_bridge::bridge::{handle_request, pump_step, Bridge, HandlerAction, PumpStep};
use webview_bridge::channel::{Channel, Received};
use webview_bridge::window_manager::UserEvent;

fn recv_text(c: &mut Channel) -> String {
    match c.try_recv() {
        Received::Message(m) => m,
        Received::Pending => panic!("pending"),
        Received::Closed => panic!("closed"),
    }
}

#[test]
fn receives_in_send_order() {
    let mut c = Channel::new();
    let sent = ["one", "two", "three", "four"];
    for m in sent {
        assert!(c.send(m.to_string()).is_ok());
    }
    assert_eq!(c.pending_len(), 4);
    for m in sent {
        assert_eq!(recv_text(&mut c), m);
    }
    assert!(matches!(c.try_recv(), Received::Pending));
}

#[test]
fn empty_open_channel_is_pending() {
    let mut c = Channel::new();
    assert!(matches!(c.try_recv(), Received::Pending));
    assert!(c.is_sender_open());
    assert!(c.is_receiver_open());
}

#[test]
fn dropped_sender_closes_a_waiting_receive() {
    let mut c = Channel::new();
    assert!(matches!(c.try_recv(), Received::Pending));
    c.close_sender();
    assert!(matches!(c.try_recv(), Received::Closed));
    assert!(matches!(c.try_recv(), Received::Closed));
}

#[test]
fn dropped_sender_still_delivers_what_is_queued() {
    let mut c = Channel::new();
    c.send("last".to_string()).ok().unwrap();
    c.close_sender();
    assert_eq!(recv_text(&mut c), "last");
    assert!(matches!(c.try_recv(), Received::Closed));
}

#[test]
fn send_after_receiver_dropped_is_shutdown() {
    let mut c = Channel::new();
    c.send("lost".to_string()).ok().unwrap();
    c.close_receiver();
    assert!(c.send("x".to_string()).is_err());
    assert_eq!(c.pending_len(), 0);
    assert!(!c.is_receiver_open());
}

#[test]
fn deno_request_reaches_the_script_runtime() {
    let mut bridge = Bridge::new();
    match handle_request("deno:ping", 7, "u", "t") {
        HandlerAction::ToScript(text) => bridge.send_inbound(text).ok().unwrap(),
        _ => panic!("expected a message for the script runtime"),
    }
    assert_eq!(bridge.to_script.pending_len(), 1);
    match bridge.receive_inbound() {
        Received::Message(m) => assert_eq!(m, "ping"),
        _ => panic!("expected the message"),
    }
    assert!(matches!(bridge.receive_inbound(), Received::Pending));
    assert_eq!(bridge.to_native.pending_len(), 0);
}

#[test]
fn outbound_messages_are_pumped_in_order() {
    let mut bridge = Bridge::new();
    bridge.send_outbound("a".to_string()).ok().unwrap();
    bridge.send_outbound("b".to_string()).ok().unwrap();
    for want in ["a", "b"] {
        match bridge.pump() {
            PumpStep::Forward(UserEvent::Message(m)) => assert_eq!(m, want),
            _ => panic!("expected a message"),
        }
    }
    assert!(matches!(bridge.pump(), PumpStep::Wait));
    bridge.to_native.close_sender();
    assert!(matches!(bridge.pump(), PumpStep::Stop));
}

#[test]
fn outbound_send_fails_once_the_loop_is_gone() {
    let mut bridge = Bridge::new();
    bridge.to_native.close_receiver();
    assert!(bridge.send_outbound("late".to_string()).is_err());
}

#[test]
fn pump_step_on_a_channel() {
    let mut c = Channel::new();
    c.send("x".to_string()).ok().unwrap();
    assert!(matches!(pump_step(&mut c), PumpStep::Forward(UserEvent::Message(ref m)) if m == "x"));
    assert!(matches!(pump_step(&mut c), PumpStep::Wait));
}

#[test]
fn handler_actions() {
    assert!(matches!(handle_request("fullscreen", 1, "u", "t"), HandlerAction::ToggleFullscreen));
    assert!(matches!(handle_request("minimize", 1, "u", "t"), HandlerAction::Minimize));
    assert!(matches!(handle_request("maximize", 1, "u", "t"), HandlerAction::ToggleMaximize));
    assert!(matches!(handle_request("close", 9, "u", "t"), HandlerAction::Post(UserEvent::CloseWindow(9))));
    assert!(matches!(handle_request("drag_window", 1, "u", "t"), HandlerAction::DragWindow));
    assert!(matches!(handle_request("hello", 1, "u", "t"), HandlerAction::Ignore));
    match handle_request("window:n.html,N", 1, "u", "t") {
        HandlerAction::Post(UserEvent::NewWindow(url, title)) => {
            assert_eq!(url, "n.html");
            assert_eq!(title, "N");
        }
        _ => panic!("expected a new window"),
    }
}
