use webview_bridge::config::{
    create_webview_config, source_specifier, window_settings, Metadata, WINDOW_HEIGHT, WINDOW_WIDTH,
};
use webview_bridge::window_manager::{
    trigger_script, ControlFlow, Effect, LoopEvent, UserEvent, WindowManager,
};

fn two_windows() -> WindowManager<&'static str> {
    let mut m = WindowManager::new();
    m.insert(1, "first");
    m.insert(2, "second");
    m
}

#[test]
fn trigger_script_wraps_the_message() {
    assert_eq!(trigger_script("hi"), "window.deno.triggerMessage(`hi`)");
    assert_eq!(trigger_script(""), "window.deno.triggerMessage(``)");
}

#[test]
fn broadcast_reaches_both_windows() {
    let mut m = two_windows();
    let (flow, effect) = m.handle_event(LoopEvent::User(UserEvent::Message("hello".to_string())));
    assert_eq!(flow, ControlFlow::Wait);
    match effect {
        Effect::Evaluate { targets, script } => {
            assert_eq!(targets, vec![1, 2]);
            assert_eq!(script, "window.deno.triggerMessage(`hello`)");
        }
        _ => panic!("expected a broadcast"),
    }
    assert_eq!(m.len(), 2);
}

#[test]
fn broadcast_to_no_window_reaches_none() {
    let mut m: WindowManager<u8> = WindowManager::new();
    let (_, effect) = m.handle_event(LoopEvent::User(UserEvent::Message("x".to_string())));
    match effect {
        Effect::Evaluate { targets, .. } => assert!(targets.is_empty()),
        _ => panic!("expected a broadcast"),
    }
}

#[test]
fn closing_the_last_window_exits() {
    let mut m = two_windows();
    let (flow, _) = m.handle_event(LoopEvent::CloseRequested(1));
    assert_eq!(flow, ControlFlow::Wait);
    assert!(!m.contains(1));
    let (flow, _) = m.handle_event(LoopEvent::User(UserEvent::CloseWindow(2)));
    assert_eq!(flow, ControlFlow::Exit);
    assert!(m.is_empty());
}

#[test]
fn closing_an_unknown_window_changes_nothing() {
    let mut m = two_windows();
    let (flow, effect) = m.handle_event(LoopEvent::CloseRequested(42));
    assert_eq!(flow, ControlFlow::Wait);
    assert!(matches!(effect, Effect::Nothing));
    assert_eq!(m.window_ids(), vec![1, 2]);
}

#[test]
fn new_window_event_asks_for_a_window() {
    let mut m = two_windows();
    let (flow, effect) = m.handle_event(LoopEvent::User(UserEvent::NewWindow(
        "c.html".to_string(),
        "C".to_string(),
    )));
    assert_eq!(flow, ControlFlow::Wait);
    match effect {
        Effect::CreateWindow { url, title } => {
            assert_eq!(url, "c.html");
            assert_eq!(title, "C");
        }
        _ => panic!("expected a window request"),
    }
    assert_eq!(m.len(), 2);
}

#[test]
fn other_events_do_nothing() {
    let mut m = two_windows();
    for ev in [LoopEvent::Started, LoopEvent::Resized(1), LoopEvent::Other] {
        let (flow, effect) = m.handle_event(ev);
        assert_eq!(flow, ControlFlow::Wait);
        assert!(matches!(effect, Effect::Nothing));
    }
    assert_eq!(m.window_ids(), vec![1, 2]);
}

#[test]
fn registry_insert_get_remove() {
    let mut m = two_windows();
    assert_eq!(m.get(2), Some(&"second"));
    m.insert(2, "again");
    assert_eq!(m.len(), 2);
    assert_eq!(m.get(2), Some(&"again"));
    assert_eq!(m.remove(1), Some("first"));
    assert_eq!(m.remove(1), None);
    assert_eq!(m.get(1), None);
    assert_eq!(m.window_ids(), vec![2]);
}

#[test]
fn config_defaults() {
    let md = Metadata {
        webview_url: None,
        title: None,
        decorations: true,
        transparent: false,
        dev_tools: true,
    };
    assert_eq!(source_specifier(&md), "./index.html");
    let c = create_webview_config(&md, "file:///app/index.html".to_string());
    assert_eq!(c.default_title, "Webview");
    assert_eq!(c.default_url, "file:///app/index.html");
    assert_eq!(c.decorations, Some(true));
    assert_eq!(c.transparent, Some(false));
    assert_eq!(c.dev_tools, Some(true));
}

#[test]
fn config_from_metadata() {
    let md = Metadata {
        webview_url: Some("https://example.com/".to_string()),
        title: Some("My App".to_string()),
        decorations: false,
        transparent: true,
        dev_tools: false,
    };
    assert_eq!(source_specifier(&md), "https://example.com/");
    let c = create_webview_config(&md, "https://example.com/".to_string());
    assert_eq!(c.default_title, "My App");
    let s = window_settings(&c);
    assert!(!s.decorations);
    assert!(s.transparent);
    assert!(!s.dev_tools);
    assert_eq!((s.width, s.height), (1680, 840));
    assert_eq!((WINDOW_WIDTH, WINDOW_HEIGHT), (1680, 840));
}

#[test]
fn window_settings_defaults() {
    let c = webview_bridge::config::WebViewConfig {
        default_title: "t".to_string(),
        default_url: "u".to_string(),
        decorations: None,
        transparent: None,
        dev_tools: None,
    };
    let s = window_settings(&c);
    assert!(s.decorations);
    assert!(!s.transparent);
    assert!(!s.dev_tools);
}
