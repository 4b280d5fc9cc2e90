use jd_take_bean::protocol::{
    decode, decode_task, endpoint_url, envelope_reply, form_body, sign_in_request, strip_quotes, sub_task_action,
    sub_task_request, success_code, task_list_request, Kind, Reply, SubAction,
};

fn ok(text: &str) -> Result<String, String> {
    Ok(text.to_string())
}

#[test]
fn sign_in_payload_is_fixed() {
    let r = sign_in_request();
    assert_eq!(r.kind, Kind::SignIn);
    assert_eq!(r.function_id, "signBeanAct");
    assert_eq!(
        r.body,
        r#"{"rnVersion":"4.7","fp":"-1","eid":"","shshshfp":"-1","userAgent":"-1","shshshfpa":"-1","referUrl":"-1","jda":"-1"}"#
    );
}

#[test]
fn task_list_payload_is_fixed() {
    let r = task_list_request();
    assert_eq!(r.kind, Kind::TaskList);
    assert_eq!(r.function_id, "beanTaskList");
    assert_eq!(r.body, r#"{"viewChannel":"wojing3","beanVersion":1}"#);
}

#[test]
fn sub_task_payloads_quote_the_token() {
    let start = sub_task_action(SubAction::Start, "T1");
    assert_eq!(start.kind, Kind::SubTask);
    assert_eq!(start.function_id, "beanDoTask");
    assert_eq!(start.body, r#"{"actionType":1,"taskToken":"T1"}"#);
    let done = sub_task_action(SubAction::Complete, "a\"b");
    assert_eq!(done.body, r#"{"actionType":0,"taskToken":"a\"b"}"#);
    let raw = sub_task_request(SubAction::Start, "\"x\"");
    assert_eq!(raw.body, "{\"actionType\":1,\"taskToken\":\"x\"}");
}

#[test]
fn url_and_form_body() {
    assert_eq!(endpoint_url("a=1&b=2"), "https://api.m.jd.com/client.action?a=1&b=2");
    assert_eq!(form_body(r#"{"a":1}"#), r#"body="{\"a\":1}""#);
}

#[test]
fn quotes_are_stripped() {
    assert_eq!(strip_quotes("\"T1\""), "T1");
    assert_eq!(strip_quotes("a\"b\"c"), "abc");
    assert_eq!(strip_quotes(""), "");
    assert_eq!(strip_quotes("12"), "12");
}

#[test]
fn success_code_is_exactly_zero() {
    assert!(success_code(Some("0")));
    assert!(!success_code(Some("1")));
    assert!(!success_code(Some("00")));
    assert!(!success_code(None));
}

#[test]
fn rejected_envelopes_are_soft() {
    assert!(matches!(decode(Kind::SignIn, ok(r#"{"code":"1"}"#)), Reply::Rejected));
    assert!(matches!(decode(Kind::TaskList, ok(r#"{"data":{}}"#)), Reply::Rejected));
    assert!(matches!(decode(Kind::SubTask, ok(r#"{"code":0}"#)), Reply::Rejected));
    assert!(matches!(decode(Kind::SubTask, ok("[]")), Reply::Rejected));
}

#[test]
fn transport_and_parse_failures_are_hard() {
    assert!(matches!(decode(Kind::SignIn, Err("connection refused".to_string())), Reply::Failed));
    assert!(matches!(decode(Kind::TaskList, ok("<html>")), Reply::Failed));
    assert!(matches!(decode(Kind::SubTask, ok("")), Reply::Failed));
}

#[test]
fn accepted_sub_task() {
    assert!(matches!(decode(Kind::SubTask, ok(r#"{"code":"0"}"#)), Reply::Accepted));
}

#[test]
fn sign_in_status_is_read() {
    match decode(Kind::SignIn, ok(r#"{"code":"0","data":{"status":"1"}}"#)) {
        Reply::SignIn(Some(s)) => assert_eq!(s, "1"),
        other => panic!("unexpected {:?}", other),
    }
    match decode(Kind::SignIn, ok(r#"{"code":"0","data":{"status":2}}"#)) {
        Reply::SignIn(Some(s)) => assert_eq!(s, "2"),
        other => panic!("unexpected {:?}", other),
    }
    assert!(matches!(decode(Kind::SignIn, ok(r#"{"code":"0"}"#)), Reply::SignIn(None)));
}

#[test]
fn missing_or_non_array_task_infos_give_no_tasks() {
    for text in [
        r#"{"code":"0"}"#,
        r#"{"code":"0","data":{}}"#,
        r#"{"code":"0","data":{"taskInfos":{"taskId":1}}}"#,
        r#"{"code":"0","data":{"taskInfos":"x"}}"#,
    ] {
        match decode(Kind::TaskList, ok(text)) {
            Reply::Tasks(v) => assert!(v.is_empty()),
            other => panic!("unexpected {:?}", other),
        }
    }
}

#[test]
fn task_entries_are_decoded_and_malformed_skipped() {
    let text = r#"{"code":"0","data":{"taskInfos":[
        {"taskId":7,"taskName":"Daily","status":0,"times":1,"maxTimes":3,"waitDuration":5,
         "subTaskVOS":[{"taskToken":"T1","title":"Watch"}]},
        {"taskId":8,"status":0},
        {"taskId":9,"taskName":"Shop","status":2,"times":3,"maxTimes":3,"waitDuration":0,"subTaskVOS":[]}
    ]}}"#;
    match decode(Kind::TaskList, ok(text)) {
        Reply::Tasks(v) => {
            assert_eq!(v.len(), 2);
            assert_eq!(v[0].task_id, 7);
            assert_eq!(v[0].name, "Daily");
            assert_eq!(v[0].status, 0);
            assert_eq!(v[0].times, 1);
            assert_eq!(v[0].max_times, 3);
            assert_eq!(v[0].wait_duration, 5);
            let sub = v[0].sub_task.as_ref().unwrap();
            assert_eq!(sub.token, "T1");
            assert_eq!(sub.title, "Watch");
            assert_eq!(v[1].task_id, 9);
            assert!(v[1].sub_task.is_none());
        }
        other => panic!("unexpected {:?}", other),
    }
}

#[test]
fn envelope_code_decides() {
    let data: serde_json::Value = serde_json::from_str(r#"{"status":"2"}"#).unwrap();
    assert!(matches!(envelope_reply(Kind::SubTask, Some("1"), Some(&data)), Reply::Rejected));
    assert!(matches!(envelope_reply(Kind::SubTask, None, Some(&data)), Reply::Rejected));
    assert!(matches!(envelope_reply(Kind::SubTask, Some("0"), None), Reply::Accepted));
    match envelope_reply(Kind::SignIn, Some("0"), Some(&data)) {
        Reply::SignIn(Some(s)) => assert_eq!(s, "2"),
        other => panic!("unexpected {:?}", other),
    }
    match envelope_reply(Kind::TaskList, Some("0"), None) {
        Reply::Tasks(v) => assert!(v.is_empty()),
        other => panic!("unexpected {:?}", other),
    }
}

#[test]
fn decode_task_reads_every_field() {
    let v: serde_json::Value = serde_json::from_str(
        r#"{"taskId":4,"taskName":"N","status":1,"times":0,"maxTimes":2,"waitDuration":9,
            "subTaskVOS":[{"taskToken":"tok","title":"t"},{"taskToken":"other","title":"u"}]}"#,
    )
    .unwrap();
    let t = decode_task(&v).unwrap();
    assert_eq!((t.task_id, t.status, t.times, t.max_times, t.wait_duration), (4, 1, 0, 2, 9));
    assert_eq!(t.name, "N");
    let sub = t.sub_task.unwrap();
    assert_eq!((sub.token.as_str(), sub.title.as_str()), ("tok", "t"));
    let bad: serde_json::Value = serde_json::from_str(r#"{"taskId":"4","taskName":"N"}"#).unwrap();
    assert!(decode_task(&bad).is_none());
}
