//! The coordinator: the bridge between the lines that arrive at any time and
//! the one thread that owns the native handles.
//!
//! Lines are taken in as they come and wait in a queue. On each wake the
//! coordinator takes the oldest command, says what the windowing side has to
//! do for it, takes in what came of that, and hands out the line that answers
//! it, before it turns to the next command. The caller performs each action
//! and hands back the event that it led to.

use vstd::prelude::*;
use std::collections::VecDeque;
use crate::handler::{
    answers, asks_for_window, create_failed, create_failed_envelope, create_window,
    handle_message, pending_of, success, success_envelope, unknown_method_envelope, AppState,
    Pending, PendingView, Routed, WindowRequest, WindowRequestView,
};
use crate::ipc::{decode, decode_spec, encode, encode_spec, EnvelopeView, IPCMessage};

verus! {

/// What the coordinator is told.
pub enum Event<L, W> {
    /// The thread woke up; nothing was made.
    Wake,
    /// What creating the event loop returned.
    EventLoop(Result<L, String>),
    /// What building the window and its surface returned.
    Window(Result<W, String>),
}

/// What the coordinator asks of its caller.
#[derive(Debug, Clone, PartialEq)]
pub enum Action {
    /// Wait for the next native event: no command is queued.
    Wait,
    /// Create the event loop and hand it back.
    CreateEventLoop,
    /// Build this window on the event loop and hand it back.
    CreateWindow(WindowRequest),
    /// Write this line to the output stream and flush.
    Write(String),
}

/// An `Action` as the contracts see it.
pub enum ActionView {
    Wait,
    CreateEventLoop,
    CreateWindow(WindowRequestView),
    Write(Seq<char>),
}

impl View for Action {
    type V = ActionView;

    open spec fn view(&self) -> ActionView {
        match self {
            Action::Wait => ActionView::Wait,
            Action::CreateEventLoop => ActionView::CreateEventLoop,
            Action::CreateWindow(request) => ActionView::CreateWindow(request@),
            Action::Write(line) => ActionView::Write(line@),
        }
    }
}

/// The native work that a command in flight waits for: the event loop first,
/// where none is held, then the window.
pub open spec fn due(p: PendingView, has_event_loop: bool) -> ActionView {
    if has_event_loop {
        ActionView::CreateWindow(p.request)
    } else {
        ActionView::CreateEventLoop
    }
}

/// The coordinator's state: the native handles, the commands that wait, and
/// the command in flight.
pub struct Coordinator<L, W> {
    state: AppState<L, W>,
    inbox: VecDeque<IPCMessage>,
    pending: Option<Pending>,
    accepted: Ghost<Seq<EnvelopeView>>,
    written: Ghost<Seq<EnvelopeView>>,
}

impl<L, W> Coordinator<L, W> {
    /// The window that is shown.
    pub closed spec fn window(&self) -> Option<W> {
        self.state.window
    }

    /// The event loop that is held.
    pub closed spec fn event_loop(&self) -> Option<L> {
        self.state.event_loop
    }

    /// The commands that wait, oldest first.
    pub closed spec fn queued(&self) -> Seq<EnvelopeView> {
        self.inbox@.map_values(|m: IPCMessage| m@)
    }

    /// The command that waits for the windowing side.
    pub closed spec fn in_flight(&self) -> Option<PendingView> {
        match self.pending {
            Some(p) => Some(p@),
            None => None,
        }
    }

    /// Every command that was ever taken in, in the order of arrival.
    pub closed spec fn accepted(&self) -> Seq<EnvelopeView> {
        self.accepted@
    }

    /// Every response that was ever handed out, in the order of writing.
    pub closed spec fn written(&self) -> Seq<EnvelopeView> {
        self.written@
    }

    /// The number of commands in flight: 0 or 1.
    pub open spec fn busy(&self) -> nat {
        if self.in_flight() is Some {
            1
        } else {
            0
        }
    }

    /// The coordinator's invariant. The commands taken in are, in order, those
    /// answered, the one in flight, and those that wait; the responses
    /// written answer them one for one; a window is shown only with an event
    /// loop.
    pub open spec fn wf(&self) -> bool {
        &&& self.accepted().len() == self.written().len() + self.busy() + self.queued().len()
        &&& forall|i: int|
            0 <= i < self.written().len() ==> answers(
                #[trigger] self.accepted()[i],
                self.written()[i],
            )
        &&& self.in_flight() matches Some(p) ==> {
            &&& asks_for_window(self.accepted()[self.written().len() as int])
            &&& p == pending_of(self.accepted()[self.written().len() as int])
        }
        &&& forall|i: int|
            0 <= i < self.queued().len() ==> #[trigger] self.queued()[i] == self.accepted()[self.written().len()
                + self.busy() + i]
        &&& self.window() is Some ==> self.event_loop() is Some
    }

    /// Whether `post` keeps the handles and the record of commands of `pre`.
    pub open spec fn keeps_handles(pre: Self, post: Self) -> bool {
        &&& post.window() == pre.window()
        &&& post.event_loop() == pre.event_loop()
        &&& post.accepted() == pre.accepted()
    }

    /// Whether `post` differs from `pre` in that the command in flight was
    /// answered with `reply`, and `action` writes that reply's line.
    pub open spec fn replies(pre: Self, post: Self, reply: EnvelopeView, action: ActionView)
        -> bool {
        &&& post.in_flight() is None
        &&& post.queued() == pre.queued()
        &&& post.accepted() == pre.accepted()
        &&& post.written() == pre.written().push(reply)
        &&& action == ActionView::Write(encode_spec(reply))
    }

    /// A wake. A command in flight has its due native work asked for again.
    /// Otherwise the oldest waiting command, if there is one, leaves the
    /// queue: a `window.create` command comes in flight, any other is
    /// answered at once.
    pub open spec fn wakes(pre: Self, post: Self, action: ActionView) -> bool {
        &&& Self::keeps_handles(pre, post)
        &&& match pre.in_flight() {
            Some(p) => {
                &&& post.in_flight() == Some(p)
                &&& post.queued() == pre.queued()
                &&& post.written() == pre.written()
                &&& action == due(p, pre.event_loop() is Some)
            },
            None => if pre.queued().len() == 0 {
                &&& post.in_flight() is None
                &&& post.queued() == pre.queued()
                &&& post.written() == pre.written()
                &&& action == ActionView::Wait
            } else {
                let head = pre.queued()[0];
                &&& post.queued() == pre.queued().subrange(1, pre.queued().len() as int)
                &&& if asks_for_window(head) {
                    &&& post.in_flight() == Some(pending_of(head))
                    &&& post.written() == pre.written()
                    &&& action == due(pending_of(head), pre.event_loop() is Some)
                } else {
                    &&& post.in_flight() is None
                    &&& post.written() == pre.written().push(
                        unknown_method_envelope(head.id, head.method),
                    )
                    &&& action == ActionView::Write(
                        encode_spec(unknown_method_envelope(head.id, head.method)),
                    )
                }
            },
        }
    }

    /// The event loop was made, or could not be made, for the command `p` in
    /// flight. The coordinator keeps a loop that it holds, else takes the
    /// fresh one, and asks for the window; without a loop the command fails.
    pub open spec fn loop_made(
        pre: Self,
        p: PendingView,
        made: Result<L, String>,
        post: Self,
        action: ActionView,
    ) -> bool {
        &&& post.window() == pre.window()
        &&& match (pre.event_loop(), made) {
            (None, Err(cause)) => {
                &&& post.event_loop() is None
                &&& Self::replies(pre, post, create_failed_envelope(p.id, p.method, cause@), action)
            },
            (held, _) => {
                &&& post.event_loop() == (match held {
                    Some(l) => Some(l),
                    None => made.ok(),
                })
                &&& post.in_flight() == Some(p)
                &&& post.queued() == pre.queued()
                &&& post.accepted() == pre.accepted()
                &&& post.written() == pre.written()
                &&& action == ActionView::CreateWindow(p.request)
            },
        }
    }

    /// The window was built, or could not be built, for the command `p` in
    /// flight, on the event loop that is held. A window that was built
    /// replaces the one shown before; either way the command is answered.
    pub open spec fn window_built(
        pre: Self,
        p: PendingView,
        built: Result<W, String>,
        post: Self,
        action: ActionView,
    ) -> bool {
        &&& post.event_loop() == pre.event_loop()
        &&& match built {
            Ok(window) => {
                &&& post.window() == Some(window)
                &&& Self::replies(pre, post, success_envelope(p.id, p.method), action)
            },
            Err(cause) => {
                &&& post.window() == pre.window()
                &&& Self::replies(pre, post, create_failed_envelope(p.id, p.method, cause@), action)
            },
        }
    }

    /// What one step does. An event that reports native work counts only
    /// while a command waits for that work; at any other time it is a wake
    /// and what it carries is let go.
    pub open spec fn steps(pre: Self, event: Event<L, W>, post: Self, action: ActionView) -> bool {
        match (event, pre.in_flight()) {
            (Event::EventLoop(made), Some(p)) => Self::loop_made(pre, p, made, post, action),
            (Event::Window(built), Some(p)) => if pre.event_loop() is Some {
                Self::window_built(pre, p, built, post, action)
            } else {
                Self::wakes(pre, post, action)
            },
            _ => Self::wakes(pre, post, action),
        }
    }

    /// A coordinator that holds no handle and has taken in no command.
    pub fn new() -> (c: Self)
        ensures
            c.wf(),
            c.window() is None,
            c.event_loop() is None,
            c.in_flight() is None,
            c.queued() == Seq::<EnvelopeView>::empty(),
            c.accepted() == Seq::<EnvelopeView>::empty(),
            c.written() == Seq::<EnvelopeView>::empty(),
    {
        let c = Coordinator {
            state: AppState::new(),
            inbox: VecDeque::new(),
            pending: None,
            accepted: Ghost(Seq::empty()),
            written: Ghost(Seq::empty()),
        };
        assert(c.queued() =~= Seq::<EnvelopeView>::empty());
        c
    }

    /// Takes in one input line: a line that decodes as a command envelope
    /// joins the queue behind those that wait; any other line is dropped and
    /// changes nothing. Says whether the line was taken.
    pub fn accept_line(&mut self, line: &str) -> (taken: bool)
        requires
            old(self).wf(),
        ensures
            final(self).wf(),
            final(self).window() == old(self).window(),
            final(self).event_loop() == old(self).event_loop(),
            final(self).in_flight() == old(self).in_flight(),
            final(self).written() == old(self).written(),
            match decode_spec(line@) {
                Ok(cmd) => {
                    &&& taken
                    &&& final(self).queued() == old(self).queued().push(cmd)
                    &&& final(self).accepted() == old(self).accepted().push(cmd)
                },
                Err(_) => {
                    &&& !taken
                    &&& final(self).queued() == old(self).queued()
                    &&& final(self).accepted() == old(self).accepted()
                },
            },
    {
        match decode(line) {
            Ok(msg) => {
                self.accepted = Ghost(self.accepted@.push(msg@));
                self.inbox.push_back(msg);
                assert(self.queued() =~= old(self).queued().push(msg@));
                true
            },
            Err(_) => false,
        }
    }

    /// The action that asks for the native work of the command in flight.
    fn ask(&self) -> (action: Action)
        requires
            self.in_flight() is Some,
        ensures
            action@ == due(self.in_flight().unwrap(), self.event_loop() is Some),
    {
        match &self.pending {
            Some(p) => if self.state.event_loop.is_some() {
                Action::CreateWindow(p.request.duplicate())
            } else {
                Action::CreateEventLoop
            },
            None => Action::Wait,
        }
    }

    /// The response to the command `p` in flight, by what came of its native
    /// work: success, or the failure with its cause.
    pub open spec fn outcome_reply(p: PendingView, outcome: Result<(), String>) -> EnvelopeView {
        match outcome {
            Ok(_) => success_envelope(p.id, p.method),
            Err(cause) => create_failed_envelope(p.id, p.method, cause@),
        }
    }

    /// Answers the command in flight by what came of its native work.
    fn answer(&mut self, outcome: Result<(), String>) -> (action: Action)
        requires
            old(self).wf(),
            old(self).in_flight() is Some,
        ensures
            final(self).wf(),
            final(self).window() == old(self).window(),
            final(self).event_loop() == old(self).event_loop(),
            Self::replies(
                *old(self),
                *final(self),
                Self::outcome_reply(old(self).in_flight().unwrap(), outcome),
                action@,
            ),
    {
        match self.pending.take() {
            Some(p) => {
                let reply = match outcome {
                    Ok(()) => success(p.id, p.method),
                    Err(cause) => create_failed(p.id, p.method, cause.as_str()),
                };
                self.written = Ghost(self.written@.push(reply@));
                Action::Write(encode(&reply))
            },
            None => Action::Wait,
        }
    }

    /// Takes the oldest command from the queue, if no command is in flight.
    fn wake(&mut self) -> (action: Action)
        requires
            old(self).wf(),
        ensures
            final(self).wf(),
            Self::wakes(*old(self), *final(self), action@),
    {
        if self.pending.is_some() {
            return self.ask();
        }
        match self.inbox.pop_front() {
            None => Action::Wait,
            Some(msg) => {
                assert(self.queued() =~= old(self).queued().subrange(
                    1,
                    old(self).queued().len() as int,
                ));
                assert(msg@ == old(self).queued()[0]);
                match handle_message(msg) {
                    Routed::Open(p) => {
                        self.pending = Some(p);
                        self.ask()
                    },
                    Routed::Reply(reply) => {
                        self.written = Ghost(self.written@.push(reply@));
                        Action::Write(encode(&reply))
                    },
                }
            },
        }
    }

    /// Takes one event and says what the caller has to do next.
    ///
    /// The caller performs the action and hands back the event that it led
    /// to: after `CreateEventLoop` the event `EventLoop`, after `CreateWindow`
    /// the event `Window`, after `Write` and at each native wake the event
    /// `Wake`. After `Wait` it waits for the next native event.
    pub fn step(&mut self, event: Event<L, W>) -> (action: Action)
        requires
            old(self).wf(),
        ensures
            final(self).wf(),
            Self::steps(*old(self), event, *final(self), action@),
    {
        if self.pending.is_none() {
            return self.wake();
        }
        match event {
            Event::Wake => self.wake(),
            Event::EventLoop(made) => {
                match self.state.get_or_create_event_loop(made) {
                    Ok(()) => self.ask(),
                    Err(cause) => self.answer(Err(cause)),
                }
            },
            Event::Window(built) => {
                if self.state.event_loop.is_none() {
                    return self.wake();
                }
                let outcome = create_window(&mut self.state, built);
                self.answer(outcome)
            },
        }
    }

    /// The window that is shown.
    pub fn window_handle(&self) -> (r: Option<&W>)
        ensures
            match r {
                Some(w) => self.window() == Some(*w),
                None => self.window() is None,
            },
    {
        self.state.window.as_ref()
    }

    /// Whether an event loop is held.
    pub fn has_event_loop(&self) -> (r: bool)
        ensures
            r == (self.event_loop() is Some),
    {
        self.state.event_loop.is_some()
    }

    /// The event loop that is held.
    pub fn event_loop_handle(&self) -> (r: Option<&L>)
        ensures
            match r {
                Some(l) => self.event_loop() == Some(*l),
                None => self.event_loop() is None,
            },
    {
        self.state.event_loop.as_ref()
    }

    /// Whether a command waits for the windowing side.
    pub fn is_busy(&self) -> (r: bool)
        ensures
            r == (self.in_flight() is Some),
    {
        self.pending.is_some()
    }

    /// The number of commands that wait in the queue.
    pub fn backlog(&self) -> (r: usize)
        ensures
            r == self.queued().len(),
    {
        self.inbox.len()
    }

    /// Responses leave in the order in which their commands came: the k-th
    /// response ever written answers the k-th command ever taken in, and
    /// carries its correlation token and its method.
    pub proof fn lemma_responses_in_order(&self, k: int)
        requires
            self.wf(),
            0 <= k < self.written().len(),
        ensures
            k < self.accepted().len(),
            answers(self.accepted()[k], self.written()[k]),
            self.written()[k].id == self.accepted()[k].id,
            self.written()[k].method == self.accepted()[k].method,
    {
    }

    /// One step writes at most one line. The record of commands stays as it
    /// was; the record of responses stays as it was while the step writes
    /// nothing, and grows at its end by the one response whose line the step
    /// hands out.
    pub proof fn lemma_one_line_per_step(pre: Self, event: Event<L, W>, post: Self, action: Action)
        requires
            pre.wf(),
            Self::steps(pre, event, post, action@),
        ensures
            post.accepted() == pre.accepted(),
            match action {
                Action::Write(line) => {
                    &&& post.written().len() == pre.written().len() + 1
                    &&& post.written().drop_last() == pre.written()
                    &&& line@ == encode_spec(post.written().last())
                    &&& post.in_flight() is None
                },
                _ => post.written() == pre.written(),
            },
    {
        if post.written().len() == pre.written().len() + 1 {
            assert(post.written().drop_last() =~= pre.written());
        }
    }

    /// The coordinator waits only when it has drained the queue: by then every
    /// command that it took in has its response.
    pub proof fn lemma_waits_only_when_drained(
        pre: Self,
        event: Event<L, W>,
        post: Self,
        action: Action,
    )
        requires
            pre.wf(),
            post.wf(),
            Self::steps(pre, event, post, action@),
            action@ == ActionView::Wait,
        ensures
            post.queued().len() == 0,
            post.in_flight() is None,
            post.written().len() == post.accepted().len(),
    {
    }

    /// A window that was built takes the place of the window shown before,
    /// whatever that was, and the command is answered with success.
    pub proof fn lemma_new_window_replaces(pre: Self, window: W, post: Self, action: Action)
        requires
            pre.wf(),
            pre.in_flight() is Some,
            pre.event_loop() is Some,
            Self::steps(pre, Event::Window(Ok(window)), post, action@),
        ensures
            post.window() == Some(window),
            post.event_loop() == pre.event_loop(),
            post.in_flight() is None,
            action@ == ActionView::Write(
                encode_spec(
                    success_envelope(pre.in_flight().unwrap().id, pre.in_flight().unwrap().method),
                ),
            ),
    {
    }

    /// The event loop is made at most once: a coordinator that holds one asks
    /// for no other, and keeps the one it holds through every step.
    pub proof fn lemma_event_loop_kept(pre: Self, event: Event<L, W>, post: Self, action: Action)
        requires
            pre.wf(),
            pre.event_loop() is Some,
            Self::steps(pre, event, post, action@),
        ensures
            post.event_loop() == pre.event_loop(),
            action@ != ActionView::CreateEventLoop,
    {
    }
}

} // verus!
