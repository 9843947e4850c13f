use nidvy_host::handler::{
    create_failed, create_window, error, handle_message, success, unknown_method,
    window_request, AppState, Routed, WindowRequest,
};
use nidvy_host::ipc::{decode, encode, IPCError, IPCMessage};
use serde_json::Value;

fn params(text: &str) -> Option<Value> {
    Some(serde_json::from_str::<Value>(text).unwrap())
}

fn default_request() -> WindowRequest {
    WindowRequest {
        url: "https://www.baidu.com".to_string(),
        title: "Nidvy".to_string(),
        width: 800,
        height: 600,
    }
}

#[test]
fn empty_params_give_the_defaults() {
    let msg = decode("{\"method\":\"window.create\",\"params\":{}}").unwrap();
    match handle_message(msg) {
        Routed::Open(pending) => {
            assert_eq!(pending.id, None);
            assert_eq!(pending.method, Some("window.create".to_string()));
            assert_eq!(pending.request.url, "https://www.baidu.com");
            assert_eq!(pending.request.title, "Nidvy");
            assert_eq!(pending.request.width, 800);
            assert_eq!(pending.request.height, 600);
        }
        Routed::Reply(_) => panic!("a window.create command was answered at once"),
    }
}

#[test]
fn missing_params_give_the_defaults() {
    assert_eq!(window_request(&None), default_request());
    let msg = decode("{\"id\":4,\"method\":\"window.create\"}").unwrap();
    match handle_message(msg) {
        Routed::Open(pending) => {
            assert_eq!(pending.id, Some(4));
            assert_eq!(pending.request, default_request());
        }
        Routed::Reply(_) => panic!("a window.create command was answered at once"),
    }
}

#[test]
fn params_are_read() {
    let request = window_request(&params(
        "{\"url\":\"https://example.com/a\",\"title\":\"Main\",\"width\":1024,\"height\":768}",
    ));
    assert_eq!(
        request,
        WindowRequest {
            url: "https://example.com/a".to_string(),
            title: "Main".to_string(),
            width: 1024,
            height: 768,
        }
    );
}

#[test]
fn each_param_falls_back_alone() {
    let request = window_request(&params("{\"title\":\"Only\",\"height\":10}"));
    assert_eq!(
        request,
        WindowRequest {
            url: "https://www.baidu.com".to_string(),
            title: "Only".to_string(),
            width: 800,
            height: 10,
        }
    );
}

#[test]
fn params_of_the_wrong_shape_give_the_defaults() {
    let request = window_request(&params(
        "{\"url\":5,\"title\":[\"x\"],\"width\":\"1024\",\"height\":-3}",
    ));
    assert_eq!(request, default_request());
    let request = window_request(&params("{\"url\":null,\"title\":{},\"width\":1.5,\"height\":true}"));
    assert_eq!(request, default_request());
}

#[test]
fn params_that_are_no_object_give_the_defaults() {
    assert_eq!(window_request(&params("\"url\"")), default_request());
    assert_eq!(window_request(&params("[1024,768]")), default_request());
    assert_eq!(window_request(&params("7")), default_request());
}

#[test]
fn sizes_are_cut_to_32_bits() {
    let request = window_request(&params("{\"width\":4294967301,\"height\":4294967295}"));
    assert_eq!(request.width, 5);
    assert_eq!(request.height, 4294967295);
    let request = window_request(&params("{\"width\":4294967296,\"height\":0}"));
    assert_eq!(request.width, 0);
    assert_eq!(request.height, 0);
}

#[test]
fn empty_strings_are_kept() {
    let request = window_request(&params("{\"url\":\"\",\"title\":\"\"}"));
    assert_eq!(request.url, "");
    assert_eq!(request.title, "");
}

#[test]
fn unknown_method_is_an_error() {
    let msg = decode("{\"method\":\"frobnicate\"}").unwrap();
    match handle_message(msg) {
        Routed::Reply(reply) => {
            let failure = reply.error.clone().unwrap();
            assert_eq!(failure.code, -1);
            assert!(failure.message.starts_with("UNKNOWN_METHOD:"));
            assert_eq!(failure.message, "UNKNOWN_METHOD: method not found");
            assert_eq!(reply.kind, "error");
            assert_eq!(reply.id, None);
            assert_eq!(reply.method, Some("frobnicate".to_string()));
            assert_eq!(reply.params, None);
            assert_eq!(reply.result, None);
            assert_eq!(
                encode(&reply),
                "{\"type\":\"error\",\"method\":\"frobnicate\",\"error\":{\"code\":-1,\"message\":\"UNKNOWN_METHOD: method not found\"}}"
            );
        }
        Routed::Open(_) => panic!("an unknown method was held back"),
    }
}

#[test]
fn missing_method_is_an_error() {
    let msg = decode("{\"id\":9,\"params\":{\"url\":\"x\"}}").unwrap();
    match handle_message(msg) {
        Routed::Reply(reply) => {
            assert_eq!(reply.id, Some(9));
            assert_eq!(reply.method, None);
            assert_eq!(
                reply.error,
                Some(IPCError { code: -1, message: "UNKNOWN_METHOD: method not found".to_string() })
            );
        }
        Routed::Open(_) => panic!("a command without a method was held back"),
    }
}

#[test]
fn method_names_are_matched_exactly() {
    for method in ["window.Create", "window.create ", "window", "", "window.create.now"] {
        let msg = IPCMessage {
            id: Some(1),
            kind: String::new(),
            method: Some(method.to_string()),
            params: None,
            result: None,
            error: None,
        };
        match handle_message(msg) {
            Routed::Reply(reply) => assert_eq!(reply.method, Some(method.to_string())),
            Routed::Open(_) => panic!("the method {:?} was held back", method),
        }
    }
}

#[test]
fn error_joins_kind_and_cause() {
    let reply = error(Some(3), "WINDOW_CREATE_ERROR", "no display");
    assert_eq!(
        reply,
        IPCMessage {
            id: Some(3),
            kind: "error".to_string(),
            method: None,
            params: None,
            result: None,
            error: Some(IPCError {
                code: -1,
                message: "WINDOW_CREATE_ERROR: no display".to_string(),
            }),
        }
    );
    let reply = error(None, "K", "");
    assert_eq!(reply.error.unwrap().message, "K: ");
}

#[test]
fn unknown_method_echoes_the_method() {
    let reply = unknown_method(Some(2), Some("window.close".to_string()));
    assert_eq!(
        reply,
        IPCMessage {
            id: Some(2),
            kind: "error".to_string(),
            method: Some("window.close".to_string()),
            params: None,
            result: None,
            error: Some(IPCError {
                code: -1,
                message: "UNKNOWN_METHOD: method not found".to_string(),
            }),
        }
    );
    assert_eq!(unknown_method(None, None).method, None);
}

#[test]
fn create_failed_echoes_the_method() {
    let reply = create_failed(Some(8), Some("window.create".to_string()), "no display");
    assert_eq!(
        reply,
        IPCMessage {
            id: Some(8),
            kind: "error".to_string(),
            method: Some("window.create".to_string()),
            params: None,
            result: None,
            error: Some(IPCError {
                code: -1,
                message: "WINDOW_CREATE_ERROR: no display".to_string(),
            }),
        }
    );
    assert_eq!(
        encode(&reply),
        "{\"id\":8,\"type\":\"error\",\"method\":\"window.create\",\"error\":{\"code\":-1,\"message\":\"WINDOW_CREATE_ERROR: no display\"}}"
    );
}

#[test]
fn success_reports_success() {
    let reply = success(Some(5), Some("window.create".to_string()));
    assert_eq!(reply.id, Some(5));
    assert_eq!(reply.kind, "response");
    assert_eq!(reply.method, Some("window.create".to_string()));
    assert_eq!(reply.params, None);
    assert_eq!(reply.error, None);
    assert_eq!(reply.result, params("{\"success\":true}"));
    assert!(reply.succeeded());
    assert_eq!(
        encode(&reply),
        "{\"id\":5,\"type\":\"response\",\"method\":\"window.create\",\"result\":{\"success\":true}}"
    );
}

#[test]
fn duplicate_gives_the_same_request() {
    let request = window_request(&params("{\"url\":\"u\",\"title\":\"t\",\"width\":1,\"height\":2}"));
    assert_eq!(request.duplicate(), request);
}

#[test]
fn new_state_holds_nothing() {
    let state: AppState<u32, u32> = AppState::new();
    assert_eq!(state.window, None);
    assert_eq!(state.event_loop, None);
}

#[test]
fn event_loop_is_taken_once() {
    let mut state: AppState<u32, u32> = AppState::new();
    assert_eq!(state.get_or_create_event_loop(Err("no display".to_string())), Err("no display".to_string()));
    assert_eq!(state.event_loop, None);
    assert_eq!(state.get_or_create_event_loop(Ok(1)), Ok(()));
    assert_eq!(state.event_loop, Some(1));
    assert_eq!(state.get_or_create_event_loop(Ok(2)), Ok(()));
    assert_eq!(state.event_loop, Some(1));
    assert_eq!(state.get_or_create_event_loop(Err("late".to_string())), Ok(()));
    assert_eq!(state.event_loop, Some(1));
    assert_eq!(state.window, None);
}

#[test]
fn create_window_replaces_the_window() {
    let mut state: AppState<u32, u32> = AppState::new();
    assert_eq!(state.get_or_create_event_loop(Ok(1)), Ok(()));
    assert_eq!(create_window(&mut state, Ok(10)), Ok(()));
    assert_eq!(state.window, Some(10));
    assert_eq!(create_window(&mut state, Err("out of memory".to_string())), Err("out of memory".to_string()));
    assert_eq!(state.window, Some(10));
    assert_eq!(create_window(&mut state, Ok(11)), Ok(()));
    assert_eq!(state.window, Some(11));
    assert_eq!(state.event_loop, Some(1));
}
