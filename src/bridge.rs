use vstd::prelude::*;

use crate::channel::{
    recv_result, recv_spec, send_spec, Channel, ChannelView, Received, ReceivedView,
    ShutdownError,
};
use crate::command::{parse_command, parse_spec, Command, CommandView};
use crate::text::is_prefix;
use crate::window_manager::{UserEvent, UserEventView};

verus! {

/// The two directions of traffic between the script runtime and the native
/// event loop.
pub struct Bridge {
    /// Messages from the native side to the script runtime.
    pub to_script: Channel,
    /// Messages from the script runtime to the native side.
    pub to_native: Channel,
}

/// What the thread that pumps messages into the event loop does next.
pub enum PumpStep {
    /// Post this event into the event loop.
    Forward(UserEvent),
    /// Wait for the next message.
    Wait,
    /// The script runtime is gone: the thread ends.
    Stop,
}

/// The mathematical value of a [`PumpStep`].
pub enum PumpStepView {
    Forward(UserEventView),
    Wait,
    Stop,
}

impl View for PumpStep {
    type V = PumpStepView;

    open spec fn view(&self) -> PumpStepView {
        match self {
            PumpStep::Forward(e) => PumpStepView::Forward(e@),
            PumpStep::Wait => PumpStepView::Wait,
            PumpStep::Stop => PumpStepView::Stop,
        }
    }
}

/// The pump's next step when a receive on its channel finds `r`.
pub open spec fn pump_spec(r: ReceivedView) -> PumpStepView {
    match r {
        ReceivedView::Message(m) => PumpStepView::Forward(UserEventView::Message(m)),
        ReceivedView::Pending => PumpStepView::Wait,
        ReceivedView::Closed => PumpStepView::Stop,
    }
}

/// What a window's message handler does with one request.
pub enum HandlerAction {
    ToggleFullscreen,
    Minimize,
    ToggleMaximize,
    /// Post this event into the event loop.
    Post(UserEvent),
    /// Send this text to the script runtime, from a thread of its own.
    ToScript(String),
    DragWindow,
    Ignore,
}

/// The mathematical value of a [`HandlerAction`].
pub enum HandlerActionView {
    ToggleFullscreen,
    Minimize,
    ToggleMaximize,
    Post(UserEventView),
    ToScript(Seq<char>),
    DragWindow,
    Ignore,
}

impl View for HandlerAction {
    type V = HandlerActionView;

    open spec fn view(&self) -> HandlerActionView {
        match self {
            HandlerAction::ToggleFullscreen => HandlerActionView::ToggleFullscreen,
            HandlerAction::Minimize => HandlerActionView::Minimize,
            HandlerAction::ToggleMaximize => HandlerActionView::ToggleMaximize,
            HandlerAction::Post(e) => HandlerActionView::Post(e@),
            HandlerAction::ToScript(t) => HandlerActionView::ToScript(t@),
            HandlerAction::DragWindow => HandlerActionView::DragWindow,
            HandlerAction::Ignore => HandlerActionView::Ignore,
        }
    }
}

/// What the handler of window `window` does with a request that decodes to `c`.
pub open spec fn action_spec(c: CommandView, window: u64) -> HandlerActionView {
    match c {
        CommandView::Fullscreen => HandlerActionView::ToggleFullscreen,
        CommandView::Minimize => HandlerActionView::Minimize,
        CommandView::Maximize => HandlerActionView::ToggleMaximize,
        CommandView::Close => HandlerActionView::Post(UserEventView::CloseWindow(window)),
        CommandView::SpawnWindow { url, title } => HandlerActionView::Post(
            UserEventView::NewWindow(url, title),
        ),
        CommandView::ForwardToScript { text } => HandlerActionView::ToScript(text),
        CommandView::DragWindow => HandlerActionView::DragWindow,
        CommandView::Unknown => HandlerActionView::Ignore,
    }
}

/// Decides what the handler of window `window`, whose url and title are `url`
/// and `title`, does with the request text `req`.
pub fn handle_request(req: &str, window: u64, url: &str, title: &str) -> (r: HandlerAction)
    ensures
        r@ == action_spec(parse_spec(req@, url@, title@), window),
{
    match parse_command(req, url, title) {
        Command::Fullscreen => HandlerAction::ToggleFullscreen,
        Command::Minimize => HandlerAction::Minimize,
        Command::Maximize => HandlerAction::ToggleMaximize,
        Command::Close => HandlerAction::Post(UserEvent::CloseWindow(window)),
        Command::SpawnWindow { url, title } => HandlerAction::Post(UserEvent::NewWindow(url, title)),
        Command::ForwardToScript { text } => HandlerAction::ToScript(text),
        Command::DragWindow => HandlerAction::DragWindow,
        Command::Unknown => HandlerAction::Ignore,
    }
}

/// One step of the pump: takes the oldest message that the script runtime sent
/// and turns it into an event for the loop; waits while nothing is queued; stops
/// once the script runtime has dropped its sender.
pub fn pump_step(from_script: &mut Channel) -> (r: PumpStep)
    ensures
        r@ == pump_spec(recv_result(old(from_script)@)),
        final(from_script)@ == recv_spec(old(from_script)@),
{
    match from_script.try_recv() {
        Received::Message(m) => PumpStep::Forward(UserEvent::Message(m)),
        Received::Pending => PumpStep::Wait,
        Received::Closed => PumpStep::Stop,
    }
}

impl Bridge {
    /// Both directions with nothing queued and both sides open.
    pub fn new() -> (r: Bridge)
        ensures
            r.to_script@ == crate::channel::fresh_spec(),
            r.to_native@ == crate::channel::fresh_spec(),
    {
        Bridge { to_script: Channel::new(), to_native: Channel::new() }
    }

    /// The script runtime's receive: the oldest message from the native side, or
    /// whether to wait or give up.
    pub fn receive_inbound(&mut self) -> (r: Received)
        ensures
            r@ == recv_result(old(self).to_script@),
            final(self).to_script@ == recv_spec(old(self).to_script@),
            final(self).to_native@ == old(self).to_native@,
    {
        self.to_script.try_recv()
    }

    /// The script runtime's send: queues `text` for the native side; fails when
    /// the event loop has dropped its receiver.
    pub fn send_outbound(&mut self, text: String) -> (r: Result<(), ShutdownError>)
        ensures
            r is Ok <==> old(self).to_native@.receiver_open,
            final(self).to_native@ == send_spec(old(self).to_native@, text@),
            final(self).to_script@ == old(self).to_script@,
    {
        self.to_native.send(text)
    }

    /// The native side's send: queues `text` for the script runtime; fails when
    /// the script runtime has dropped its receiver.
    pub fn send_inbound(&mut self, text: String) -> (r: Result<(), ShutdownError>)
        ensures
            r is Ok <==> old(self).to_script@.receiver_open,
            final(self).to_script@ == send_spec(old(self).to_script@, text@),
            final(self).to_native@ == old(self).to_native@,
    {
        self.to_script.send(text)
    }

    /// One step of the pump on the messages from the script runtime.
    pub fn pump(&mut self) -> (r: PumpStep)
        ensures
            r@ == pump_spec(recv_result(old(self).to_native@)),
            final(self).to_native@ == recv_spec(old(self).to_native@),
            final(self).to_script@ == old(self).to_script@,
    {
        pump_step(&mut self.to_native)
    }
}

/// A `deno:` request, whatever the window, puts exactly one message on an idle
/// channel to the script runtime, the text after the prefix, and the next
/// receive there delivers that text and leaves nothing behind.
pub proof fn lemma_forward_reaches_script(
    req: Seq<char>,
    url: Seq<char>,
    title: Seq<char>,
    window: u64,
    c: ChannelView,
)
    requires
        is_prefix("deno:"@, req),
        c.receiver_open,
        c.queue.len() == 0,
    ensures
        ({
            let text = req.subrange(5, req.len() as int);
            let sent = send_spec(c, text);
            &&& action_spec(parse_spec(req, url, title), window) == HandlerActionView::ToScript(text)
            &&& sent.queue == seq![text]
            &&& recv_result(sent) == ReceivedView::Message(text)
            &&& recv_spec(sent).queue.len() == 0
        }),
{
    crate::command::lemma_parse_one_form(req, url, title);
    let text = req.subrange(5, req.len() as int);
    assert(c.queue.push(text) =~= seq![text]);
}

} // verus!
