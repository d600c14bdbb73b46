use cynthiaweb::plugin_server::{
    eps_disabled, feed_line, frame_request, runtime_args, EPSCommunicationData, EPSQueueCheck,
    EPSResponse, EPSResponseBody, RuntimeLine,
};

fn ok(id: u32, v: &str) -> EPSResponse {
    EPSResponse { id, body: EPSResponseBody::OkString { value: v.to_string() } }
}

#[test]
fn claimed_ids_are_free_ones() {
    let mut d = EPSCommunicationData::new();
    assert!(d.claim_id(7));
    assert_eq!(d.unreturned_ids, vec![7]);
    d.receive(ok(9, "x"));
    assert!(!d.id_is_free(9));
    assert!(!d.claim_id(9));
    assert_eq!(d.unreturned_ids, vec![7]);
    let r = d.claim_random_id().unwrap();
    assert_ne!(r, 9);
    assert_eq!(d.unreturned_ids, vec![7, r]);
}

#[test]
fn a_received_response_is_taken_once() {
    let mut d = EPSCommunicationData::new();
    assert!(d.claim_id(1));
    assert!(d.claim_id(2));
    assert!(d.claim_id(3));
    d.receive(ok(2, "second"));
    d.receive(ok(1, "first"));
    match d.take_response(1) {
        EPSQueueCheck::Found(EPSResponseBody::OkString { value }) => assert_eq!(value, "first"),
        _ => panic!("expected the response"),
    }
    assert_eq!(d.unreturned_ids, vec![2, 3]);
    assert!(matches!(d.take_response(1), EPSQueueCheck::Waiting));
    match d.take_response(2) {
        EPSQueueCheck::Found(EPSResponseBody::OkString { value }) => assert_eq!(value, "second"),
        _ => panic!("expected the response"),
    }
    assert_eq!(d.unreturned_ids, vec![3]);
}

#[test]
fn a_stray_response_with_a_lone_request_is_corrupt() {
    let mut d = EPSCommunicationData::new();
    assert!(d.claim_id(5));
    d.receive(ok(6, "stray"));
    assert!(matches!(d.take_response(5), EPSQueueCheck::Corrupt));
}

#[test]
fn runtime_lines() {
    let mut buf = String::from("old");
    assert!(matches!(feed_line(&mut buf, "parse: {\"id\":1}"), RuntimeLine::Parse));
    assert_eq!(buf, "old{\"id\":1}");
    assert!(matches!(feed_line(&mut buf, "\n\n"), RuntimeLine::Blank));
    assert_eq!(buf, "old{\"id\":1}");
    match feed_line(&mut buf, "info: hello info: again") {
        RuntimeLine::Info(m) => assert_eq!(m, "hello "),
        _ => panic!("expected info"),
    }
    assert_eq!(buf, "");
    assert!(matches!(feed_line(&mut buf, "warn: w"), RuntimeLine::Warn(m) if m == "w"));
    assert!(matches!(feed_line(&mut buf, "error: e"), RuntimeLine::Error(m) if m == "e"));
    assert!(matches!(feed_line(&mut buf, "debug: d"), RuntimeLine::Debug(m) if m == "d"));
    assert!(matches!(feed_line(&mut buf, "log: l"), RuntimeLine::Log(m) if m == "l"));
    assert!(matches!(feed_line(&mut buf, "something"), RuntimeLine::Other));
}

#[test]
fn requests_and_runtime_arguments() {
    assert_eq!(frame_request("{}"), "parse: {}");
    assert_eq!(runtime_args("deno", "main.mjs"), vec!["run", "--allow-read", "main.mjs"]);
    assert_eq!(runtime_args("/usr/bin/node", "main.mjs"), vec!["main.mjs"]);
    assert!(eps_disabled(false, "bun"));
    assert!(eps_disabled(true, "disabled"));
    assert!(!eps_disabled(true, "bun"));
}
