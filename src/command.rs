use vstd::prelude::*;
use vstd::string::*;

use crate::text::{find_char_from, find_from, is_prefix, lemma_find_from_bounds, starts_with_text, text_eq};

verus! {

/// A request sent by a window through its native message channel, decoded.
pub enum Command {
    /// Toggle borderless fullscreen on the window that sent the request.
    Fullscreen,
    /// Minimize the window that sent the request.
    Minimize,
    /// Toggle the maximized state of the window that sent the request.
    Maximize,
    /// Close the window that sent the request.
    Close,
    /// Open a new window at `url` with the title `title`.
    SpawnWindow { url: String, title: String },
    /// Hand `text` to the script runtime.
    ForwardToScript { text: String },
    /// Start an OS-level drag of the window that sent the request.
    DragWindow,
    /// Anything else; it is ignored.
    Unknown,
}

/// The mathematical value of a [`Command`].
pub enum CommandView {
    Fullscreen,
    Minimize,
    Maximize,
    Close,
    SpawnWindow { url: Seq<char>, title: Seq<char> },
    ForwardToScript { text: Seq<char> },
    DragWindow,
    Unknown,
}

impl View for Command {
    type V = CommandView;

    open spec fn view(&self) -> CommandView {
        match self {
            Command::Fullscreen => CommandView::Fullscreen,
            Command::Minimize => CommandView::Minimize,
            Command::Maximize => CommandView::Maximize,
            Command::Close => CommandView::Close,
            Command::SpawnWindow { url, title } => CommandView::SpawnWindow { url: url@, title: title@ },
            Command::ForwardToScript { text } => CommandView::ForwardToScript { text: text@ },
            Command::DragWindow => CommandView::DragWindow,
            Command::Unknown => CommandView::Unknown,
        }
    }
}

/// The argument text of a `window` request: what follows `window:`, nothing for
/// a bare `window`, and otherwise the request itself.
pub open spec fn window_args(req: Seq<char>) -> Seq<char> {
    if is_prefix("window:"@, req) {
        req.subrange("window:"@.len() as int, req.len() as int)
    } else if req == "window"@ {
        Seq::empty()
    } else {
        req
    }
}

/// Url and title of the window that a `window` request asks for, given its
/// argument text and the requesting window's own url and title: no argument keeps
/// both, one comma-free argument is the url, otherwise the text up to the first
/// comma is the url and the text up to the next comma (or the end) is the title.
pub open spec fn spawn_target(args: Seq<char>, url: Seq<char>, title: Seq<char>) -> (Seq<char>, Seq<char>) {
    if args.len() == 0 {
        (url, title)
    } else {
        let e = find_from(args, ',', 0);
        if e == args.len() {
            (args, title)
        } else {
            let e2 = find_from(args, ',', e + 1);
            (args.subrange(0, e), args.subrange(e + 1, e2))
        }
    }
}

/// The command that the request text `req` decodes to, for a window whose url and
/// title are `url` and `title`. The forms are tried in this order.
pub open spec fn parse_spec(req: Seq<char>, url: Seq<char>, title: Seq<char>) -> CommandView {
    if req == "fullscreen"@ {
        CommandView::Fullscreen
    } else if req == "minimize"@ {
        CommandView::Minimize
    } else if req == "maximize"@ {
        CommandView::Maximize
    } else if req == "close"@ {
        CommandView::Close
    } else if is_prefix("window"@, req) {
        let t = spawn_target(window_args(req), url, title);
        CommandView::SpawnWindow { url: t.0, title: t.1 }
    } else if is_prefix("deno:"@, req) {
        CommandView::ForwardToScript { text: req.subrange("deno:"@.len() as int, req.len() as int) }
    } else if req == "drag_window"@ {
        CommandView::DragWindow
    } else {
        CommandView::Unknown
    }
}

/// How many of the recognized request forms `req` has, each tested on its own,
/// with no regard to the order in which they are tried.
pub open spec fn form_count(req: Seq<char>) -> int {
    (if req == "fullscreen"@ { 1int } else { 0int }) + (if req == "minimize"@ { 1int } else { 0int })
        + (if req == "maximize"@ { 1int } else { 0int }) + (if req == "close"@ { 1int } else { 0int })
        + (if is_prefix("window"@, req) { 1int } else { 0int }) + (if is_prefix("deno:"@, req) { 1int } else { 0int })
        + (if req == "drag_window"@ { 1int } else { 0int })
}

/// Decoding is total and each request has one meaning: no text has two of the
/// recognized forms, a text of one form decodes to that form's command whatever
/// the window's url and title, and exactly the texts of no form are unknown.
pub proof fn lemma_parse_one_form(req: Seq<char>, url: Seq<char>, title: Seq<char>)
    ensures
        form_count(req) <= 1,
        req == "fullscreen"@ ==> parse_spec(req, url, title) == CommandView::Fullscreen,
        req == "minimize"@ ==> parse_spec(req, url, title) == CommandView::Minimize,
        req == "maximize"@ ==> parse_spec(req, url, title) == CommandView::Maximize,
        req == "close"@ ==> parse_spec(req, url, title) == CommandView::Close,
        is_prefix("window"@, req) ==> parse_spec(req, url, title) is SpawnWindow,
        is_prefix("deno:"@, req) ==> parse_spec(req, url, title) == (CommandView::ForwardToScript {
            text: req.subrange(5, req.len() as int),
        }),
        req == "drag_window"@ ==> parse_spec(req, url, title) == CommandView::DragWindow,
        form_count(req) == 0 <==> parse_spec(req, url, title) == CommandView::Unknown,
{
    reveal_strlit("fullscreen");
    reveal_strlit("minimize");
    reveal_strlit("maximize");
    reveal_strlit("close");
    reveal_strlit("window");
    reveal_strlit("deno:");
    reveal_strlit("drag_window");
    if is_prefix("window"@, req) {
        assert(req[0] == req.subrange(0, 6)[0]);
        assert(req[0] == 'w');
    }
    if is_prefix("deno:"@, req) {
        assert(req[0] == req.subrange(0, 5)[0]);
        assert(req[1] == req.subrange(0, 5)[1]);
        assert(req[0] == 'd' && req[1] == 'e');
    }
    if req == "fullscreen"@ {
        assert(req[0] == 'f' && req.len() == 10);
    }
    if req == "close"@ {
        assert(req[0] == 'c' && req.len() == 5);
    }
    if req == "drag_window"@ {
        assert(req[0] == 'd' && req[1] == 'r' && req.len() == 11);
    }
    if req == "minimize"@ {
        assert(req[1] == 'i');
    }
    if req == "maximize"@ {
        assert(req[1] == 'a');
    }
}

fn owned(s: &str) -> (r: String)
    ensures
        r@ == s@,
{
    s.to_owned()
}

fn window_arguments<'a>(req: &'a str) -> (r: &'a str)
    ensures
        r@ == window_args(req@),
{
    let n = req.unicode_len();
    if starts_with_text(req, "window:") {
        let k = "window:".unicode_len();
        req.substring_char(k, n)
    } else if text_eq(req, "window") {
        req.substring_char(0, 0)
    } else {
        req
    }
}

/// Decodes the request text `req` of a window whose url and title are
/// `current_url` and `current_title`.
pub fn parse_command(req: &str, current_url: &str, current_title: &str) -> (r: Command)
    ensures
        r@ == parse_spec(req@, current_url@, current_title@),
{
    if text_eq(req, "fullscreen") {
        Command::Fullscreen
    } else if text_eq(req, "minimize") {
        Command::Minimize
    } else if text_eq(req, "maximize") {
        Command::Maximize
    } else if text_eq(req, "close") {
        Command::Close
    } else if starts_with_text(req, "window") {
        let args = window_arguments(req);
        let n = args.unicode_len();
        if n == 0 {
            Command::SpawnWindow { url: owned(current_url), title: owned(current_title) }
        } else {
            let e = find_char_from(args, ',', 0);
            proof {
                lemma_find_from_bounds(args@, ',', 0);
            }
            if e == n {
                Command::SpawnWindow { url: owned(args), title: owned(current_title) }
            } else {
                let e2 = find_char_from(args, ',', e + 1);
                proof {
                    lemma_find_from_bounds(args@, ',', e + 1);
                }
                let url = owned(args.substring_char(0, e));
                let title = owned(args.substring_char(e + 1, e2));
                Command::SpawnWindow { url, title }
            }
        }
    } else if starts_with_text(req, "deno:") {
        let k = "deno:".unicode_len();
        let n = req.unicode_len();
        Command::ForwardToScript { text: owned(req.substring_char(k, n)) }
    } else if text_eq(req, "drag_window") {
        Command::DragWindow
    } else {
        Command::Unknown
    }
}

} // verus!
