//! The dispatcher: what a command asks of the windowing side, and the
//! response envelope that answers it.
//!
//! The windowing side is not part of this library. Its handles are values of
//! two types that the caller chooses, `L` for the event loop and `W` for a
//! window with its rendering surface; the library stores them and never looks
//! inside.

use vstd::prelude::*;
use vstd::string::*;
use serde_json::Value;
use crate::ipc::{reports_success, text_view, EnvelopeView, ErrorView, IPCError, IPCMessage};
use crate::json::{
    as_str, as_u64, flag_object, json_flag_object, json_member, json_str, json_u64, member,
};

verus! {

/// The native handles of the process: at most one event loop and at most one
/// window.
pub struct AppState<L, W> {
    /// The window that is shown.
    pub window: Option<W>,
    /// The event loop, once the first window was asked for.
    pub event_loop: Option<L>,
}

/// What a `window.create` command asks the windowing side to build.
#[derive(Debug, Clone, PartialEq)]
pub struct WindowRequest {
    pub url: String,
    pub title: String,
    pub width: u32,
    pub height: u32,
}

/// A `WindowRequest` as the contracts see it.
pub struct WindowRequestView {
    pub url: Seq<char>,
    pub title: Seq<char>,
    pub width: u32,
    pub height: u32,
}

impl View for WindowRequest {
    type V = WindowRequestView;

    open spec fn view(&self) -> WindowRequestView {
        WindowRequestView {
            url: self.url@,
            title: self.title@,
            width: self.width,
            height: self.height,
        }
    }
}

/// A `window.create` command that waits for the windowing side.
#[derive(Debug, Clone, PartialEq)]
pub struct Pending {
    /// The command's correlation token.
    pub id: Option<u64>,
    /// The command's method, which its response echoes.
    pub method: Option<String>,
    /// What the windowing side is asked to build.
    pub request: WindowRequest,
}

/// A `Pending` as the contracts see it.
pub struct PendingView {
    pub id: Option<u64>,
    pub method: Option<Seq<char>>,
    pub request: WindowRequestView,
}

impl View for Pending {
    type V = PendingView;

    open spec fn view(&self) -> PendingView {
        PendingView { id: self.id, method: text_view(self.method), request: self.request@ }
    }
}

/// The command in flight that a `window.create` command becomes.
pub open spec fn pending_of(cmd: EnvelopeView) -> PendingView {
    PendingView { id: cmd.id, method: cmd.method, request: request_of(cmd.params) }
}

/// Whether `reply` is the envelope that reports the window of the command
/// with the token `id` and the method `method` as built.
pub open spec fn is_success(id: Option<u64>, method: Option<Seq<char>>, reply: EnvelopeView)
    -> bool {
    reply == success_envelope(id, method) && reports_success(reply)
}

/// Whether `reply` is a response that the dispatcher may give to `cmd`: for a
/// `window.create` command the success envelope or a `WINDOW_CREATE_ERROR`
/// with some cause, for any other the `UNKNOWN_METHOD` error; each with the
/// command's correlation token and the command's method.
pub open spec fn answers(cmd: EnvelopeView, reply: EnvelopeView) -> bool {
    if asks_for_window(cmd) {
        is_success(cmd.id, cmd.method, reply) || exists|cause: Seq<char>|
            reply == #[trigger] create_failed_envelope(cmd.id, cmd.method, cause)
    } else {
        reply == unknown_method_envelope(cmd.id, cmd.method)
    }
}

/// What routing makes of a command.
#[derive(Debug, Clone, PartialEq)]
pub enum Routed {
    /// The command is answered without native work.
    Reply(IPCMessage),
    /// The command asks for a window: the answer follows the native work.
    Open(Pending),
}

/// The method that opens a window.
pub open spec fn window_create() -> Seq<char> {
    "window.create"@
}

/// Whether a command asks for a window.
pub open spec fn asks_for_window(cmd: EnvelopeView) -> bool {
    cmd.method == Some(window_create())
}

/// The string that `params` gives under `key`, or `default` where it gives
/// none: where there are no parameters, no such member, or a member that is
/// no string.
pub open spec fn text_param(params: Option<Value>, key: Seq<char>, default: Seq<char>) -> Seq<
    char,
> {
    match params {
        Some(p) => match json_member(p, key) {
            Some(m) => match json_str(m) {
                Some(s) => s,
                None => default,
            },
            None => default,
        },
        None => default,
    }
}

/// The size that `params` gives under `key`, cut to 32 bits, or `default`
/// where it gives none: where there are no parameters, no such member, or a
/// member that is no unsigned integer.
pub open spec fn size_param(params: Option<Value>, key: Seq<char>, default: u32) -> u32 {
    match params {
        Some(p) => match json_member(p, key) {
            Some(m) => match json_u64(m) {
                Some(n) => (n % 0x1_0000_0000) as u32,
                None => default,
            },
            None => default,
        },
        None => default,
    }
}

/// The window that a `window.create` command with these parameters asks for.
pub open spec fn request_of(params: Option<Value>) -> WindowRequestView {
    WindowRequestView {
        url: text_param(params, "url"@, "https://www.baidu.com"@),
        title: text_param(params, "title"@, "Nidvy"@),
        width: size_param(params, "width"@, 800),
        height: size_param(params, "height"@, 600),
    }
}

/// The message of an error envelope: the kind, a colon and a space, then the
/// cause.
pub open spec fn error_message(kind: Seq<char>, cause: Seq<char>) -> Seq<char> {
    kind + ": "@ + cause
}

/// The error envelope for a failure of the given kind, before it is given
/// the method of the command that it answers. Its numeric code is always -1.
pub open spec fn error_envelope(id: Option<u64>, kind: Seq<char>, cause: Seq<char>)
    -> EnvelopeView {
    EnvelopeView {
        id,
        kind: "error"@,
        method: None,
        params: None,
        result: None,
        error: Some(ErrorView { code: -1i32, message: error_message(kind, cause) }),
    }
}

/// The envelope `reply` with the method of the command that it answers: the
/// method where the command had one, none where it had none.
pub open spec fn echoing(reply: EnvelopeView, method: Option<Seq<char>>) -> EnvelopeView {
    EnvelopeView { method, ..reply }
}

/// The envelope that answers a command whose window was built.
pub open spec fn success_envelope(id: Option<u64>, method: Option<Seq<char>>) -> EnvelopeView {
    EnvelopeView {
        id,
        kind: "response"@,
        method,
        params: None,
        result: Some(json_flag_object("success"@, true)),
        error: None,
    }
}

/// The envelope that answers a command for which no handler exists.
pub open spec fn unknown_method_envelope(id: Option<u64>, method: Option<Seq<char>>)
    -> EnvelopeView {
    echoing(error_envelope(id, "UNKNOWN_METHOD"@, "method not found"@), method)
}

/// The envelope that answers a command whose native work failed for the
/// given cause.
pub open spec fn create_failed_envelope(
    id: Option<u64>,
    method: Option<Seq<char>>,
    cause: Seq<char>,
) -> EnvelopeView {
    echoing(error_envelope(id, "WINDOW_CREATE_ERROR"@, cause), method)
}

/// Whether `s` holds exactly the characters of `text`.
fn is_text(s: &String, text: &str) -> (r: bool)
    ensures
        r == (s@ == text@),
{
    let other = String::from_str(text);
    *s == other
}

/// The string parameter under `key`, or `default`.
fn text_or(params: &Option<Value>, key: &str, default: &str) -> (r: String)
    ensures
        r@ == text_param(*params, key@, default@),
{
    match params {
        Some(p) => match member(p, key) {
            Some(m) => match as_str(m) {
                Some(s) => s.to_owned(),
                None => default.to_owned(),
            },
            None => default.to_owned(),
        },
        None => default.to_owned(),
    }
}

/// The size parameter under `key`, or `default`.
fn size_or(params: &Option<Value>, key: &str, default: u32) -> (r: u32)
    ensures
        r == size_param(*params, key@, default),
{
    match params {
        Some(p) => match member(p, key) {
            Some(m) => match as_u64(m) {
                Some(n) => (n % 0x1_0000_0000) as u32,
                None => default,
            },
            None => default,
        },
        None => default,
    }
}

impl WindowRequest {
    /// A second request for the same window.
    pub fn duplicate(&self) -> (r: Self)
        ensures
            r@ == self@,
    {
        WindowRequest {
            url: self.url.clone(),
            title: self.title.clone(),
            width: self.width,
            height: self.height,
        }
    }
}

/// Reads the window that a `window.create` command asks for out of its
/// parameters. A parameter that is missing or of the wrong shape takes its
/// default: the URL `https://www.baidu.com`, the title `Nidvy`, 800 by 600.
pub fn window_request(params: &Option<Value>) -> (r: WindowRequest)
    ensures
        r@ == request_of(*params),
{
    WindowRequest {
        url: text_or(params, "url", "https://www.baidu.com"),
        title: text_or(params, "title", "Nidvy"),
        width: size_or(params, "width", 800),
        height: size_or(params, "height", 600),
    }
}

/// Builds the error envelope for a failure of kind `code` with the cause
/// `message`. It names no method yet: the dispatcher gives it the method of
/// the command that it answers.
pub fn error(id: Option<u64>, code: &str, message: &str) -> (r: IPCMessage)
    ensures
        r@ == error_envelope(id, code@, message@),
{
    let mut text = String::from_str(code);
    text.append(": ");
    text.append(message);
    IPCMessage {
        id,
        kind: String::from_str("error"),
        method: None,
        params: None,
        result: None,
        error: Some(IPCError { code: -1, message: text }),
    }
}

/// Builds the envelope that reports the window of a command as built.
pub fn success(id: Option<u64>, method: Option<String>) -> (r: IPCMessage)
    ensures
        r@ == success_envelope(id, text_view(method)),
        reports_success(r@),
{
    IPCMessage {
        id,
        kind: String::from_str("response"),
        method,
        params: None,
        result: Some(flag_object("success", true)),
        error: None,
    }
}

/// Builds the envelope that answers a command for which no handler exists.
pub fn unknown_method(id: Option<u64>, method: Option<String>) -> (r: IPCMessage)
    ensures
        r@ == unknown_method_envelope(id, text_view(method)),
{
    let mut reply = error(id, "UNKNOWN_METHOD", "method not found");
    reply.method = method;
    reply
}

/// Builds the envelope that answers a command whose native work failed.
pub fn create_failed(id: Option<u64>, method: Option<String>, cause: &str) -> (r: IPCMessage)
    ensures
        r@ == create_failed_envelope(id, text_view(method), cause@),
{
    let mut reply = error(id, "WINDOW_CREATE_ERROR", cause);
    reply.method = method;
    reply
}

/// Routes one command by its method.
///
/// A `window.create` command is held back for the windowing side, with the
/// window that its parameters ask for. Any other command, and one without a
/// method, is answered at once with an `UNKNOWN_METHOD` error that echoes
/// the command's method.
pub fn handle_message(msg: IPCMessage) -> (r: Routed)
    ensures
        match r {
            Routed::Open(p) => asks_for_window(msg@) && p@ == pending_of(msg@),
            Routed::Reply(reply) => !asks_for_window(msg@) && reply@ == unknown_method_envelope(
                msg.id,
                msg@.method,
            ),
        },
{
    let wanted = match &msg.method {
        Some(m) => is_text(m, "window.create"),
        None => false,
    };
    if wanted {
        let request = window_request(&msg.params);
        Routed::Open(Pending { id: msg.id, method: msg.method, request })
    } else {
        Routed::Reply(unknown_method(msg.id, msg.method))
    }
}

impl<L, W> AppState<L, W> {
    /// The state of a process that has asked for no window yet: it holds no
    /// handle.
    pub fn new() -> (s: Self)
        ensures
            s.window is None,
            s.event_loop is None,
    {
        AppState { window: None, event_loop: None }
    }

    /// Keeps the event loop that the state holds, or takes the one that the
    /// windowing side has just made.
    ///
    /// `made` is what creating an event loop returned. It is asked for only
    /// while the state holds none, so that at most one is ever kept: a state
    /// that holds one already keeps it and lets `made` go. The call fails,
    /// with the cause, exactly when the state holds none and none could be
    /// made.
    pub fn get_or_create_event_loop(&mut self, made: Result<L, String>) -> (r: Result<
        (),
        String,
    >)
        ensures
            final(self).window == old(self).window,
            final(self).event_loop == match old(self).event_loop {
                Some(held) => Some(held),
                None => match made {
                    Ok(fresh) => Some(fresh),
                    Err(_) => None,
                },
            },
            r == match (old(self).event_loop, made) {
                (None, Err(cause)) => Err::<(), String>(cause),
                _ => Ok::<(), String>(()),
            },
    {
        if self.event_loop.is_some() {
            return Ok(());
        }
        match made {
            Ok(fresh) => {
                self.event_loop = Some(fresh);
                Ok(())
            },
            Err(cause) => Err(cause),
        }
    }
}

/// Takes in what building a window returned.
///
/// A window that was built becomes the state's window and replaces the one
/// that was shown before, which is let go without being closed. A failure
/// leaves the state as it was and is handed on with its cause.
pub fn create_window<L, W>(state: &mut AppState<L, W>, built: Result<W, String>) -> (r: Result<
    (),
    String,
>)
    ensures
        final(state).event_loop == old(state).event_loop,
        final(state).window == match built {
            Ok(window) => Some(window),
            Err(_) => old(state).window,
        },
        r == match built {
            Ok(_) => Ok::<(), String>(()),
            Err(cause) => Err::<(), String>(cause),
        },
{
    match built {
        Ok(window) => {
            state.window = Some(window);
            Ok(())
        },
        Err(cause) => Err(cause),
    }
}

/// A response carries a result or an error, never both and never neither;
/// the response to a `window.create` command reports success exactly when it
/// carries no error.
pub proof fn lemma_result_xor_error(cmd: EnvelopeView, reply: EnvelopeView)
    requires
        answers(cmd, reply),
    ensures
        (reply.result is Some) != (reply.error is Some),
        asks_for_window(cmd) ==> (reports_success(reply) != (reply.error is Some)),
{
}

/// A response carries the correlation token of its command, and none where
/// the command had none.
pub proof fn lemma_reply_echoes_id(cmd: EnvelopeView, reply: EnvelopeView)
    requires
        answers(cmd, reply),
    ensures
        reply.id == cmd.id,
{
}

/// A response carries the method of its command, on success and on every
/// error alike, and none where the command had none.
pub proof fn lemma_reply_echoes_method(cmd: EnvelopeView, reply: EnvelopeView)
    requires
        answers(cmd, reply),
    ensures
        reply.method == cmd.method,
{
}

/// An error envelope carries the code -1, and its message begins with the
/// failure's kind and a colon.
pub proof fn lemma_error_names_kind(id: Option<u64>, kind: Seq<char>, cause: Seq<char>)
    ensures
        error_envelope(id, kind, cause).error is Some,
        error_envelope(id, kind, cause).error.unwrap().code == -1,
        error_envelope(id, kind, cause).error.unwrap().message.len() > kind.len(),
        error_envelope(id, kind, cause).error.unwrap().message.subrange(
            0,
            kind.len() as int + 1,
        ) == kind.push(':'),
{
    reveal_strlit(": ");
    let message = error_envelope(id, kind, cause).error.unwrap().message;
    assert(message.len() == kind.len() + 2 + cause.len());
    assert(message.subrange(0, kind.len() as int + 1) =~= kind.push(':'));
}

/// A command that names no method, or another method than `window.create`,
/// is answered with the `UNKNOWN_METHOD` error.
pub proof fn lemma_unknown_method(cmd: EnvelopeView, reply: EnvelopeView)
    requires
        !asks_for_window(cmd),
        answers(cmd, reply),
    ensures
        reply.kind == "error"@,
        reply.error is Some,
        reply.error.unwrap().code == -1,
        reply.error.unwrap().message.subrange(0, 15) == "UNKNOWN_METHOD:"@,
{
    reveal_strlit("UNKNOWN_METHOD");
    reveal_strlit("UNKNOWN_METHOD:");
    lemma_error_names_kind(cmd.id, "UNKNOWN_METHOD"@, "method not found"@);
    assert("UNKNOWN_METHOD"@.push(':') =~= "UNKNOWN_METHOD:"@);
}

/// Parameters that give nothing ask for the default window.
pub proof fn lemma_default_request(params: Option<Value>)
    requires
        params matches Some(p) ==> {
            &&& json_member(p, "url"@) is None
            &&& json_member(p, "title"@) is None
            &&& json_member(p, "width"@) is None
            &&& json_member(p, "height"@) is None
        },
    ensures
        request_of(params) == (WindowRequestView {
            url: "https://www.baidu.com"@,
            title: "Nidvy"@,
            width: 800,
            height: 600,
        }),
{
}

} // verus!
