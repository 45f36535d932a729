use webview_bridge::command::{parse_command, Command};
use webview_bridge::text::{find_char_from, starts_with_text, text_eq};

fn spawn(req: &str) -> (String, String) {
    match parse_command(req, "cur.html", "Current") {
        Command::SpawnWindow { url, title } => (url, title),
        _ => panic!("not a spawn request: {}", req),
    }
}

#[test]
fn window_with_url_and_title() {
    assert_eq!(spawn("window:a.html,Foo"), ("a.html".to_string(), "Foo".to_string()));
}

#[test]
fn window_with_url_keeps_title() {
    assert_eq!(spawn("window:a.html"), ("a.html".to_string(), "Current".to_string()));
}

#[test]
fn bare_window_keeps_url_and_title() {
    assert_eq!(spawn("window"), ("cur.html".to_string(), "Current".to_string()));
}

#[test]
fn window_with_empty_arguments_keeps_url_and_title() {
    assert_eq!(spawn("window:"), ("cur.html".to_string(), "Current".to_string()));
}

#[test]
fn window_extra_parts_are_ignored() {
    assert_eq!(spawn("window:b.html,Bar,Baz"), ("b.html".to_string(), "Bar".to_string()));
}

#[test]
fn window_with_empty_title() {
    assert_eq!(spawn("window:b.html,"), ("b.html".to_string(), "".to_string()));
}

#[test]
fn window_prefix_without_colon_is_the_url() {
    assert_eq!(spawn("windowx.html"), ("windowx.html".to_string(), "Current".to_string()));
}

#[test]
fn exact_commands() {
    assert!(matches!(parse_command("fullscreen", "u", "t"), Command::Fullscreen));
    assert!(matches!(parse_command("minimize", "u", "t"), Command::Minimize));
    assert!(matches!(parse_command("maximize", "u", "t"), Command::Maximize));
    assert!(matches!(parse_command("close", "u", "t"), Command::Close));
    assert!(matches!(parse_command("drag_window", "u", "t"), Command::DragWindow));
}

#[test]
fn deno_prefix_forwards_the_rest() {
    match parse_command("deno:ping", "u", "t") {
        Command::ForwardToScript { text } => assert_eq!(text, "ping"),
        _ => panic!("expected a forward"),
    }
    match parse_command("deno:", "u", "t") {
        Command::ForwardToScript { text } => assert_eq!(text, ""),
        _ => panic!("expected a forward"),
    }
}

#[test]
fn commands_are_case_sensitive_and_exact() {
    assert!(matches!(parse_command("Fullscreen", "u", "t"), Command::Unknown));
    assert!(matches!(parse_command("close ", "u", "t"), Command::Unknown));
    assert!(matches!(parse_command("", "u", "t"), Command::Unknown));
    assert!(matches!(parse_command("deno", "u", "t"), Command::Unknown));
    assert!(matches!(parse_command("drag", "u", "t"), Command::Unknown));
}

#[test]
fn parsing_is_repeatable() {
    for req in ["window:x,y", "deno:hi", "close", "nothing"] {
        let a = parse_command(req, "u", "t");
        let b = parse_command(req, "u", "t");
        assert_eq!(std::mem::discriminant(&a), std::mem::discriminant(&b));
    }
}

#[test]
fn text_helpers() {
    assert!(text_eq("abc", "abc"));
    assert!(!text_eq("abc", "abd"));
    assert!(!text_eq("ab", "abc"));
    assert!(starts_with_text("window:x", "window"));
    assert!(!starts_with_text("win", "window"));
    assert_eq!(find_char_from("a,b,c", ',', 0), 1);
    assert_eq!(find_char_from("a,b,c", ',', 2), 3);
    assert_eq!(find_char_from("abc", ',', 0), 3);
    assert_eq!(find_char_from("é,x", ',', 0), 1);
}
