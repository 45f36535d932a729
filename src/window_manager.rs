use vstd::prelude::*;
use vstd::string::*;

verus! {

/// A signal sent into the native event loop from outside its own thread.
pub enum UserEvent {
    /// Hand `text` to the script context of every open window.
    Message(String),
    /// Close the window with this identifier.
    CloseWindow(u64),
    /// Open a window at the url with the title.
    NewWindow(String, String),
}

/// An event that the native event loop hands to the window manager.
pub enum LoopEvent {
    /// The loop has started.
    Started,
    /// The user asked to close the window with this identifier.
    CloseRequested(u64),
    /// The window with this identifier was resized.
    Resized(u64),
    /// A signal from another thread.
    User(UserEvent),
    /// Any other native event.
    Other,
}

/// Whether the event loop goes on waiting for events or stops.
#[derive(PartialEq, Eq, Structural, Clone, Copy, Debug)]
pub enum ControlFlow {
    Wait,
    Exit,
}

/// The native work that an event asks of the event loop.
pub enum Effect {
    Nothing,
    /// Build a window at `url` titled `title`, and register it on success.
    CreateWindow { url: String, title: String },
    /// Run `script` in the script context of each window of `targets`.
    Evaluate { targets: Vec<u64>, script: String },
}

/// The mathematical value of a [`UserEvent`].
pub enum UserEventView {
    Message(Seq<char>),
    CloseWindow(u64),
    NewWindow(Seq<char>, Seq<char>),
}

/// The mathematical value of a [`LoopEvent`].
pub enum LoopEventView {
    Started,
    CloseRequested(u64),
    Resized(u64),
    User(UserEventView),
    Other,
}

/// The mathematical value of an [`Effect`].
pub enum EffectView {
    Nothing,
    CreateWindow { url: Seq<char>, title: Seq<char> },
    Evaluate { targets: Seq<u64>, script: Seq<char> },
}

impl View for UserEvent {
    type V = UserEventView;

    open spec fn view(&self) -> UserEventView {
        match self {
            UserEvent::Message(m) => UserEventView::Message(m@),
            UserEvent::CloseWindow(id) => UserEventView::CloseWindow(*id),
            UserEvent::NewWindow(u, t) => UserEventView::NewWindow(u@, t@),
        }
    }
}

impl View for LoopEvent {
    type V = LoopEventView;

    open spec fn view(&self) -> LoopEventView {
        match self {
            LoopEvent::Started => LoopEventView::Started,
            LoopEvent::CloseRequested(id) => LoopEventView::CloseRequested(*id),
            LoopEvent::Resized(id) => LoopEventView::Resized(*id),
            LoopEvent::User(u) => LoopEventView::User(u@),
            LoopEvent::Other => LoopEventView::Other,
        }
    }
}

impl View for Effect {
    type V = EffectView;

    open spec fn view(&self) -> EffectView {
        match self {
            Effect::Nothing => EffectView::Nothing,
            Effect::CreateWindow { url, title } => EffectView::CreateWindow { url: url@, title: title@ },
            Effect::Evaluate { targets, script } => EffectView::Evaluate { targets: targets@, script: script@ },
        }
    }
}

/// The script that delivers `message` to a window's script context.
pub open spec fn trigger_script_spec(message: Seq<char>) -> Seq<char> {
    "window.deno.triggerMessage(`"@ + message + "`)"@
}

/// Builds the script that delivers `message` to a window's script context.
pub fn trigger_script(message: &str) -> (r: String)
    ensures
        r@ == trigger_script_spec(message@),
{
    let mut code = "window.deno.triggerMessage(`".to_owned();
    code.append(message);
    code.append("`)");
    code
}

/// Index of the first `id` in `ids` at or after `start`, or `ids.len()`.
pub open spec fn position_from(ids: Seq<u64>, id: u64, start: int) -> int
    decreases ids.len() - start,
{
    if start >= ids.len() {
        ids.len() as int
    } else if ids[start] == id {
        start
    } else {
        position_from(ids, id, start + 1)
    }
}

pub proof fn lemma_position_from(ids: Seq<u64>, id: u64, start: int)
    requires
        0 <= start <= ids.len(),
    ensures
        start <= position_from(ids, id, start) <= ids.len(),
        position_from(ids, id, start) < ids.len() ==> ids[position_from(ids, id, start)] == id,
        forall|j: int| start <= j < position_from(ids, id, start) ==> ids[j] != id,
    decreases ids.len() - start,
{
    if start < ids.len() && ids[start] != id {
        lemma_position_from(ids, id, start + 1);
    }
}

/// The registry's identifiers after the window `id` is removed.
pub open spec fn remove_id(ids: Seq<u64>, id: u64) -> Seq<u64> {
    let p = position_from(ids, id, 0);
    if p < ids.len() {
        ids.remove(p)
    } else {
        ids
    }
}

/// The registry's identifiers after the window `id` is registered.
pub open spec fn insert_id(ids: Seq<u64>, id: u64) -> Seq<u64> {
    if ids.contains(id) {
        ids
    } else {
        ids.push(id)
    }
}

/// Whether the event loop stops once the registry holds `ids`: exactly when no
/// window is left.
pub open spec fn flow_for(ids: Seq<u64>) -> ControlFlow {
    if ids.len() == 0 {
        ControlFlow::Exit
    } else {
        ControlFlow::Wait
    }
}

/// The registry's identifiers after `ev`.
pub open spec fn step_ids(ids: Seq<u64>, ev: LoopEventView) -> Seq<u64> {
    match ev {
        LoopEventView::CloseRequested(id) => remove_id(ids, id),
        LoopEventView::User(UserEventView::CloseWindow(id)) => remove_id(ids, id),
        _ => ids,
    }
}

/// The native work that `ev` asks for, with `ids` registered.
pub open spec fn step_effect(ids: Seq<u64>, ev: LoopEventView) -> EffectView {
    match ev {
        LoopEventView::User(UserEventView::NewWindow(url, title)) => EffectView::CreateWindow {
            url,
            title,
        },
        LoopEventView::User(UserEventView::Message(m)) => EffectView::Evaluate {
            targets: ids,
            script: trigger_script_spec(m),
        },
        _ => EffectView::Nothing,
    }
}

/// No window left means the loop stops: a close that removes the last open
/// window is answered, in that same step, with [`ControlFlow::Exit`], and a close
/// that leaves a window open keeps the loop waiting.
pub proof fn lemma_last_close_exits(ids: Seq<u64>, id: u64, from_user: bool)
    requires
        ids.no_duplicates(),
    ensures
        ({
            let ev = close_event(id, from_user);
            &&& ids == seq![id] ==> step_ids(ids, ev).len() == 0 && flow_for(step_ids(ids, ev))
                == ControlFlow::Exit
            &&& (exists|j: int| 0 <= j < ids.len() && ids[j] != id) ==> flow_for(step_ids(ids, ev))
                == ControlFlow::Wait
        }),
{
    lemma_position_from(ids, id, 0);
    if ids == seq![id] {
        assert(ids[0] == id);
    }
    if exists|j: int| 0 <= j < ids.len() && ids[j] != id {
        let j = choose|j: int| 0 <= j < ids.len() && ids[j] != id;
        let p = position_from(ids, id, 0);
        if p < ids.len() {
            let k = if j < p { j } else { j - 1 };
            assert(ids.remove(p)[k] == ids[j] || j == p);
        }
    }
}

/// The close of window `id`: by the user through the window's frame, or by a
/// request from the window's page.
pub open spec fn close_event(id: u64, from_user: bool) -> LoopEventView {
    if from_user {
        LoopEventView::CloseRequested(id)
    } else {
        LoopEventView::User(UserEventView::CloseWindow(id))
    }
}

/// A broadcast reaches every open window and no other, and each with the same
/// script carrying the same text: with two windows both are named once, with
/// none nothing is named. The registry is left as it was.
pub proof fn lemma_broadcast_all(ids: Seq<u64>, m: Seq<char>)
    requires
        ids.no_duplicates(),
    ensures
        step_ids(ids, LoopEventView::User(UserEventView::Message(m))) == ids,
        step_effect(ids, LoopEventView::User(UserEventView::Message(m))) == (EffectView::Evaluate {
            targets: ids,
            script: trigger_script_spec(m),
        }),
        ids.len() == 0 ==> step_effect(ids, LoopEventView::User(UserEventView::Message(m)))->Evaluate_targets.len() == 0,
{
}

/// The open windows of the event loop, each with the handle that owns it.
pub struct WindowManager<V> {
    windows: Vec<(u64, V)>,
}

impl<V> WindowManager<V> {
    /// The identifiers of the open windows, in the order they were registered.
    pub closed spec fn ids(&self) -> Seq<u64> {
        self.windows@.map_values(|e: (u64, V)| e.0)
    }

    /// The handle of the open window at position `i` of [`Self::ids`].
    pub closed spec fn handle_at(&self, i: int) -> V {
        self.windows@[i].1
    }

    /// No window is registered twice.
    pub open spec fn wf(&self) -> bool {
        self.ids().no_duplicates()
    }

    /// A manager with no window.
    pub fn new() -> (r: Self)
        ensures
            r.wf(),
            r.ids() == Seq::<u64>::empty(),
    {
        let r = WindowManager { windows: Vec::new() };
        assert(r.ids() =~= Seq::<u64>::empty());
        r
    }

    /// Number of open windows.
    pub fn len(&self) -> (r: usize)
        ensures
            r == self.ids().len(),
    {
        self.windows.len()
    }

    /// Whether no window is open.
    pub fn is_empty(&self) -> (r: bool)
        ensures
            r == (self.ids().len() == 0),
    {
        self.windows.len() == 0
    }

    /// Position of `id` in [`Self::ids`], or the number of windows.
    fn position(&self, id: u64) -> (r: usize)
        ensures
            r == position_from(self.ids(), id, 0),
    {
        let n = self.windows.len();
        let mut i: usize = 0;
        while i < n
            invariant
                n == self.ids().len(),
                i <= n,
                position_from(self.ids(), id, 0) == position_from(self.ids(), id, i as int),
            decreases n - i,
        {
            if self.windows[i].0 == id {
                return i;
            }
            i = i + 1;
        }
        i
    }

    /// Whether the window `id` is open.
    pub fn contains(&self, id: u64) -> (r: bool)
        ensures
            r == self.ids().contains(id),
    {
        let p = self.position(id);
        proof {
            lemma_position_from(self.ids(), id, 0);
            if self.ids().contains(id) {
                let j = choose|j: int| 0 <= j < self.ids().len() && self.ids()[j] == id;
                assert(j >= position_from(self.ids(), id, 0));
            }
        }
        p < self.windows.len()
    }

    /// The handle of the window `id`, if it is open.
    pub fn get(&self, id: u64) -> (r: Option<&V>)
        ensures
            r is Some <==> self.ids().contains(id),
            r is Some ==> *r->0 == self.handle_at(position_from(self.ids(), id, 0)),
    {
        let p = self.position(id);
        proof {
            lemma_position_from(self.ids(), id, 0);
            if self.ids().contains(id) {
                let j = choose|j: int| 0 <= j < self.ids().len() && self.ids()[j] == id;
                assert(j >= position_from(self.ids(), id, 0));
            }
        }
        if p < self.windows.len() {
            Some(&self.windows[p].1)
        } else {
            None
        }
    }
    /// Registers the window `id` with its handle; a window already open keeps its
    /// place and takes the new handle.
    pub fn insert(&mut self, id: u64, handle: V)
        requires
            old(self).wf(),
        ensures
            final(self).wf(),
            final(self).ids() == insert_id(old(self).ids(), id),
            final(self).handle_at(position_from(final(self).ids(), id, 0)) == handle,
    {
        let p = self.position(id);
        proof {
            lemma_position_from(self.ids(), id, 0);
        }
        if p < self.windows.len() {
            self.windows.set(p, (id, handle));
            assert(self.ids() =~= old(self).ids());
            assert(old(self).ids().contains(id));
            assert(self.handle_at(p as int) == handle);
        } else {
            self.windows.push((id, handle));
            assert(self.ids() =~= old(self).ids().push(id));
            assert(!old(self).ids().contains(id));
            proof {
                lemma_position_from(self.ids(), id, 0);
                let q = position_from(self.ids(), id, 0);
                if q < p {
                    assert(self.ids()[q] == old(self).ids()[q]);
                    assert(old(self).ids()[q] == id);
                }
                assert(self.ids()[p as int] == id);
                assert(q == p);
                assert(self.handle_at(p as int) == handle);
                assert forall|a: int, b: int|
                    0 <= a < self.ids().len() && 0 <= b < self.ids().len() && a != b implies self.ids()[a]
                        != self.ids()[b] by {
                    if a == p {
                        assert(old(self).ids()[b] != id);
                    } else if b == p {
                        assert(old(self).ids()[a] != id);
                    }
                }
            }
        }
    }

    /// Unregisters the window `id` and hands back its handle, if it was open.
    pub fn remove(&mut self, id: u64) -> (r: Option<V>)
        requires
            old(self).wf(),
        ensures
            final(self).wf(),
            final(self).ids() == remove_id(old(self).ids(), id),
            r is Some <==> old(self).ids().contains(id),
            r is Some ==> r->0 == old(self).handle_at(position_from(old(self).ids(), id, 0)),
            !final(self).ids().contains(id),
    {
        let p = self.position(id);
        proof {
            lemma_position_from(self.ids(), id, 0);
            if self.ids().contains(id) {
                let j = choose|j: int| 0 <= j < self.ids().len() && self.ids()[j] == id;
                assert(j >= position_from(self.ids(), id, 0));
            }
        }
        if p < self.windows.len() {
            let e = self.windows.remove(p);
            assert(self.ids() =~= old(self).ids().remove(p as int));
            proof {
                let o = old(self).ids();
                assert forall|a: int, b: int|
                    0 <= a < self.ids().len() && 0 <= b < self.ids().len() && a != b implies self.ids()[a]
                        != self.ids()[b] by {
                    let a2 = if a < p { a } else { a + 1 };
                    let b2 = if b < p { b } else { b + 1 };
                    assert(o[a2] != o[b2]);
                }
                if self.ids().contains(id) {
                    let j = choose|j: int| 0 <= j < self.ids().len() && self.ids()[j] == id;
                    let j2 = if j < p { j } else { j + 1 };
                    assert(o[j2] == id);
                    assert(o[p as int] == id);
                }
            }
            Some(e.1)
        } else {
            Option::None
        }
    }

    /// The identifiers of the open windows.
    pub fn window_ids(&self) -> (r: Vec<u64>)
        ensures
            r@ == self.ids(),
    {
        let n = self.windows.len();
        let mut out: Vec<u64> = Vec::new();
        let mut i: usize = 0;
        while i < n
            invariant
                n == self.ids().len(),
                i <= n,
                out@ == self.ids().subrange(0, i as int),
            decreases n - i,
        {
            out.push(self.windows[i].0);
            i = i + 1;
            assert(out@ =~= self.ids().subrange(0, i as int));
        }
        assert(self.ids().subrange(0, n as int) =~= self.ids());
        out
    }

    /// Reacts to one event of the native loop: removes the window that a close
    /// names, and says what native work the event asks for and whether the loop
    /// stops, which it does exactly when no window is left open.
    pub fn handle_event(&mut self, ev: LoopEvent) -> (r: (ControlFlow, Effect))
        requires
            old(self).wf(),
        ensures
            final(self).wf(),
            final(self).ids() == step_ids(old(self).ids(), ev@),
            r.1@ == step_effect(old(self).ids(), ev@),
            r.0 == flow_for(final(self).ids()),
    {
        let effect = match ev {
            LoopEvent::CloseRequested(id) => {
                let _ = self.remove(id);
                Effect::Nothing
            },
            LoopEvent::User(UserEvent::CloseWindow(id)) => {
                let _ = self.remove(id);
                Effect::Nothing
            },
            LoopEvent::User(UserEvent::NewWindow(url, title)) => Effect::CreateWindow { url, title },
            LoopEvent::User(UserEvent::Message(text)) => {
                let targets = self.window_ids();
                let script = trigger_script(text.as_str());
                Effect::Evaluate { targets, script }
            },
            _ => Effect::Nothing,
        };
        let flow = if self.is_empty() {
            ControlFlow::Exit
        } else {
            ControlFlow::Wait
        };
        (flow, effect)
    }
}

} // verus!
