//! The request protocol: payloads, the wire form of a request, and the
//! success envelope of every reply.
use vstd::prelude::*;
use vstd::string::StrSliceExecFns;
use vstd::string::StringExecFns;
use crate::json::{
    array_of, debug_quote, debug_str_of, field, field_of, json_quote, json_string_of, parse_json,
    parsed_value, parses_as_json, str_of, text_of, u64_of, value_text,
};
use crate::task::{SubTask, SubTaskView, Task, TaskView, task_views};

verus! {

/// Removes every double quote from a text.
pub open spec fn without_quotes(s: Seq<char>) -> Seq<char> {
    s.filter(|c: char| c != '"')
}

pub fn strip_quotes(s: &str) -> (r: String)
    ensures
        r@ == without_quotes(s@),
{
    let n = s.unicode_len();
    let mut out = String::new();
    let mut i: usize = 0;
    while i < n
        invariant
            n == s@.len(),
            i <= n,
            out@ == without_quotes(s@.subrange(0, i as int)),
        decreases n - i,
    {
        let c = s.get_char(i);
        proof {
            let t = s@.subrange(0, i as int + 1);
            assert(t.drop_last() == s@.subrange(0, i as int));
            assert(t.last() == c);
            reveal(Seq::filter);
        }
        if c != '"' {
            let piece = s.substring_char(i, i + 1);
            proof {
                assert(piece@ =~= seq![c]);
            }
            out.append(piece);
        }
        i = i + 1;
    }
    proof {
        assert(s@.subrange(0, n as int) == s@);
    }
    out
}

} // verus!

verus! {

/// What a request asks for; a reply is read according to it.
#[derive(Clone, Copy, PartialEq, Eq, Debug, Structural)]
pub enum Kind {
    SignIn,
    TaskList,
    SubTask,
}

/// The two sub-task actions.
#[derive(Clone, Copy, PartialEq, Eq, Debug, Structural)]
pub enum SubAction {
    Complete,
    Start,
}

/// One call of the remote API: the endpoint identifier and the JSON payload.
#[derive(Debug)]
pub struct Request {
    pub kind: Kind,
    pub function_id: String,
    pub body: String,
}

pub open spec fn base_url() -> Seq<char> {
    "https://api.m.jd.com/client.action"@
}

pub open spec fn sign_in_id() -> Seq<char> {
    "signBeanAct"@
}

pub open spec fn task_list_id() -> Seq<char> {
    "beanTaskList"@
}

pub open spec fn sub_task_id() -> Seq<char> {
    "beanDoTask"@
}

pub open spec fn sign_in_body() -> Seq<char> {
    "{\"rnVersion\":\"4.7\",\"fp\":\"-1\",\"eid\":\"\",\"shshshfp\":\"-1\",\"userAgent\":\"-1\",\"shshshfpa\":\"-1\",\"referUrl\":\"-1\",\"jda\":\"-1\"}"@
}

pub open spec fn task_list_body() -> Seq<char> {
    "{\"viewChannel\":\"wojing3\",\"beanVersion\":1}"@
}

pub open spec fn action_digit(a: SubAction) -> Seq<char> {
    match a {
        SubAction::Complete => "0"@,
        SubAction::Start => "1"@,
    }
}

/// The payload of a sub-task action, given the token as a JSON literal.
pub open spec fn sub_task_body(a: SubAction, quoted_token: Seq<char>) -> Seq<char> {
    "{\"actionType\":"@ + action_digit(a) + ",\"taskToken\":"@ + quoted_token + "}"@
}

/// The request is a call of `id` with payload `body`.
pub open spec fn is_call(r: Request, kind: Kind, id: Seq<char>, body: Seq<char>) -> bool {
    r.kind == kind && r.function_id@ == id && r.body@ == body
}

pub fn sign_in_request() -> (r: Request)
    ensures
        is_call(r, Kind::SignIn, sign_in_id(), sign_in_body()),
{
    Request {
        kind: Kind::SignIn,
        function_id: String::from_str("signBeanAct"),
        body: String::from_str(
            "{\"rnVersion\":\"4.7\",\"fp\":\"-1\",\"eid\":\"\",\"shshshfp\":\"-1\",\"userAgent\":\"-1\",\"shshshfpa\":\"-1\",\"referUrl\":\"-1\",\"jda\":\"-1\"}",
        ),
    }
}

pub fn task_list_request() -> (r: Request)
    ensures
        is_call(r, Kind::TaskList, task_list_id(), task_list_body()),
{
    Request {
        kind: Kind::TaskList,
        function_id: String::from_str("beanTaskList"),
        body: String::from_str("{\"viewChannel\":\"wojing3\",\"beanVersion\":1}"),
    }
}

/// A sub-task action on a token already written as a JSON literal.
pub fn sub_task_request(action: SubAction, quoted_token: &str) -> (r: Request)
    ensures
        is_call(r, Kind::SubTask, sub_task_id(), sub_task_body(action, quoted_token@)),
{
    let digit = match action {
        SubAction::Complete => "0",
        SubAction::Start => "1",
    };
    let body = String::from_str("{\"actionType\":").concat(digit).concat(",\"taskToken\":").concat(
        quoted_token,
    ).concat("}");
    Request { kind: Kind::SubTask, function_id: String::from_str("beanDoTask"), body }
}

/// A sub-task action on a plain token.
pub fn sub_task_action(action: SubAction, token: &str) -> (r: Request)
    ensures
        is_call(r, Kind::SubTask, sub_task_id(), sub_task_body(action, json_string_of(token@))),
{
    let quoted = json_quote(token);
    sub_task_request(action, quoted.as_str())
}

/// The URL a signed request is posted to: the base URL with the signature as query.
pub fn endpoint_url(signature: &str) -> (r: String)
    ensures
        r@ == base_url() + "?"@ + signature@,
{
    String::from_str("https://api.m.jd.com/client.action").concat("?").concat(signature)
}

/// The form body posted for a payload: `body=` and the payload, quoted.
pub fn form_body(payload: &str) -> (r: String)
    ensures
        r@ == "body="@ + debug_str_of(payload@),
{
    let quoted = debug_quote(payload);
    String::from_str("body=").concat(quoted.as_str())
}

/// The envelope's success sentinel.
pub open spec fn is_success_code(code: Option<Seq<char>>) -> bool {
    code == Some("0"@)
}

pub fn success_code(code: Option<&str>) -> (r: bool)
    ensures
        r == is_success_code(
            match code {
                Some(c) => Some(c@),
                None => None,
            },
        ),
{
    match code {
        Some(c) => {
            let a = String::from_str(c);
            let b = String::from_str("0");
            a == b
        },
        None => false,
    }
}

} // verus!

verus! {

/// A reply read according to the kind of its request.
#[derive(Debug)]
pub enum Reply {
    /// The call failed in transport, or its body was no JSON.
    Failed,
    /// The envelope's code was not the success sentinel.
    Rejected,
    /// A sign-in was accepted; its status with quotes removed, where present.
    SignIn(Option<String>),
    /// A task list was accepted: its well-formed entries, in catalogue order.
    Tasks(Vec<Task>),
    /// A sub-task action was accepted.
    Accepted,
}

/// The variants an accepted reply of each kind takes.
pub open spec fn fits_kind(kind: Kind, r: Reply) -> bool {
    match kind {
        Kind::SignIn => r is SignIn,
        Kind::TaskList => r is Tasks,
        Kind::SubTask => r is Accepted,
    }
}

/// A call's outcome is a hard failure: a transport error, or a body that
/// is not JSON.
pub open spec fn is_hard_failure(raw: Result<String, String>) -> bool {
    match raw {
        Ok(text) => !parses_as_json(text@),
        Err(_) => true,
    }
}

/// The number under a key of an object.
pub open spec fn u64_field_of(v: serde_json::Value, key: Seq<char>) -> Option<u64> {
    match field_of(v, key) {
        Some(x) => u64_of(x),
        None => None,
    }
}

/// The text under a key of an object, where it is a JSON string.
pub open spec fn str_field_of(v: serde_json::Value, key: Seq<char>) -> Option<Seq<char>> {
    match field_of(v, key) {
        Some(x) => str_of(x),
        None => None,
    }
}

/// The first entry of `subTaskVOS`, where it has a token and a title; the
/// token is the entry's JSON text with quotes removed.
pub open spec fn sub_task_of(v: serde_json::Value) -> Option<SubTaskView> {
    match field_of(v, "subTaskVOS"@) {
        Some(x) => match array_of(x) {
            Some(items) => if items.len() == 0 {
                None
            } else {
                match field_of(items[0], "taskToken"@) {
                    Some(t) => match str_field_of(items[0], "title"@) {
                        Some(title) => Some(SubTaskView { token: without_quotes(text_of(t)), title }),
                        None => None,
                    },
                    None => None,
                }
            },
            None => None,
        },
        None => None,
    }
}

/// A catalogue entry as the runner reads it: present exactly when `taskId`,
/// `status`, `waitDuration`, `maxTimes` and `times` are unsigned integers and
/// `taskName` is a string.
pub open spec fn task_of(v: serde_json::Value) -> Option<TaskView> {
    match (
        u64_field_of(v, "taskId"@),
        str_field_of(v, "taskName"@),
        u64_field_of(v, "status"@),
        u64_field_of(v, "waitDuration"@),
        u64_field_of(v, "maxTimes"@),
        u64_field_of(v, "times"@),
    ) {
        (Some(task_id), Some(name), Some(status), Some(wait_duration), Some(max_times), Some(times)) => Some(
            TaskView { task_id, name, status, wait_duration, max_times, times, sub_task: sub_task_of(v) },
        ),
        _ => None,
    }
}

/// The entries that `task_of` accepts, decoded, in order.
pub open spec fn tasks_of(items: Seq<serde_json::Value>) -> Seq<TaskView>
    decreases items.len(),
{
    if items.len() == 0 {
        Seq::empty()
    } else {
        let rest = tasks_of(items.drop_last());
        match task_of(items.last()) {
            Some(t) => rest.push(t),
            None => rest,
        }
    }
}

/// The tasks that accepted list data holds: none without a `taskInfos` array.
pub open spec fn listed_tasks(data: Option<serde_json::Value>) -> Seq<TaskView> {
    match data {
        Some(d) => match field_of(d, "taskInfos"@) {
            Some(t) => match array_of(t) {
                Some(items) => tasks_of(items),
                None => Seq::empty(),
            },
            None => Seq::empty(),
        },
        None => Seq::empty(),
    }
}

/// The sign-in status that accepted data holds, as text with quotes removed.
pub open spec fn sign_in_status(data: Option<serde_json::Value>) -> Option<Seq<char>> {
    match data {
        Some(d) => match field_of(d, "status"@) {
            Some(s) => Some(without_quotes(text_of(s))),
            None => None,
        },
        None => None,
    }
}

/// The code of an envelope, where it is a JSON string.
pub open spec fn code_of(v: serde_json::Value) -> Option<Seq<char>> {
    str_field_of(v, "code"@)
}

/// `r` is the reading, for a request of `kind`, of an envelope with this
/// code and data.
pub open spec fn reads_as(kind: Kind, code: Option<Seq<char>>, data: Option<serde_json::Value>, r: Reply) -> bool {
    if !is_success_code(code) {
        r is Rejected
    } else {
        match kind {
            Kind::SignIn => r matches Reply::SignIn(s) && match s {
                Some(t) => sign_in_status(data) == Some(t@),
                None => sign_in_status(data) is None,
            },
            Kind::TaskList => r matches Reply::Tasks(ts) && task_views(ts@) == listed_tasks(data),
            Kind::SubTask => r is Accepted,
        }
    }
}

/// Reads the response to a request of `kind`. Transport errors and bodies
/// that are not JSON are hard failures; a parsed body is read by its envelope.
pub fn decode(kind: Kind, raw: Result<String, String>) -> (r: Reply)
    ensures
        r is Failed <==> is_hard_failure(raw),
        match raw {
            Ok(text) => match parsed_value(text@) {
                Some(v) => reads_as(kind, code_of(v), field_of(v, "data"@), r),
                None => true,
            },
            Err(_) => true,
        },
{
    match raw {
        Err(_) => Reply::Failed,
        Ok(text) => match parse_json(text.as_str()) {
            None => Reply::Failed,
            Some(v) => decode_envelope(kind, &v),
        },
    }
}

/// Unwraps the `{code, data}` envelope of a parsed reply.
pub fn decode_envelope(kind: Kind, v: &serde_json::Value) -> (r: Reply)
    ensures
        reads_as(kind, code_of(*v), field_of(*v, "data"@), r),
        !(r is Failed),
{
    let code = match field(v, "code") {
        Some(c) => c.as_str(),
        None => None,
    };
    envelope_reply(kind, code, field(v, "data"))
}

/// The reply for an envelope with this code (as a JSON string, where it is
/// one) and data: rejected unless the code is the success sentinel, else the
/// data read according to `kind`.
pub fn envelope_reply(kind: Kind, code: Option<&str>, data: Option<&serde_json::Value>) -> (r: Reply)
    ensures
        reads_as(
            kind,
            match code {
                Some(c) => Some(c@),
                None => None,
            },
            match data {
                Some(d) => Some(*d),
                None => None,
            },
            r,
        ),
        !(r is Failed),
{
    if !success_code(code) {
        return Reply::Rejected;
    }
    match kind {
        Kind::SignIn => {
            let status = match data {
                Some(d) => match field(d, "status") {
                    Some(s) => {
                        let text = value_text(s);
                        Some(strip_quotes(text.as_str()))
                    },
                    None => None,
                },
                None => None,
            };
            Reply::SignIn(status)
        },
        Kind::TaskList => {
            let infos = match data {
                Some(d) => match field(d, "taskInfos") {
                    Some(t) => t.as_array(),
                    None => None,
                },
                None => None,
            };
            Reply::Tasks(task_list_of(infos))
        },
        Kind::SubTask => Reply::Accepted,
    }
}

/// The well-formed tasks of a `taskInfos` array, decoded, in order; none
/// where it is absent or not an array.
pub fn task_list_of(infos: Option<&Vec<serde_json::Value>>) -> (r: Vec<Task>)
    ensures
        task_views(r@) == match infos {
            Some(items) => tasks_of(items@),
            None => Seq::empty(),
        },
{
    let mut out: Vec<Task> = Vec::new();
    match infos {
        None => {
            assert(task_views(out@) =~= Seq::empty());
            out
        },
        Some(items) => {
            let mut i: usize = 0;
            while i < items.len()
                invariant
                    i <= items@.len(),
                    task_views(out@) == tasks_of(items@.subrange(0, i as int)),
                decreases items@.len() - i,
            {
                let ghost pre = items@.subrange(0, i as int + 1);
                assert(pre.drop_last() == items@.subrange(0, i as int));
                let ghost before = out@;
                match decode_task(&items[i]) {
                    Some(t) => {
                        out.push(t);
                        assert(task_views(out@) =~= task_views(before).push(out@.last()@));
                    },
                    None => {},
                }
                i = i + 1;
            }
            assert(items@.subrange(0, i as int) == items@);
            out
        },
    }
}

fn u64_field(v: &serde_json::Value, key: &str) -> (r: Option<u64>)
    ensures
        r == u64_field_of(*v, key@),
{
    match field(v, key) {
        Some(x) => x.as_u64(),
        None => None,
    }
}

fn str_field(v: &serde_json::Value, key: &str) -> (r: Option<String>)
    ensures
        r is Some <==> str_field_of(*v, key@) is Some,
        r matches Some(s) ==> str_field_of(*v, key@) == Some(s@),
{
    match field(v, key) {
        Some(x) => match x.as_str() {
            Some(s) => Some(String::from_str(s)),
            None => None,
        },
        None => None,
    }
}

/// The first entry of `subTaskVOS`, where it has a token and a title.
fn first_sub_task(v: &serde_json::Value) -> (r: Option<SubTask>)
    ensures
        r is Some <==> sub_task_of(*v) is Some,
        r matches Some(st) ==> sub_task_of(*v) == Some(st@),
{
    let list = match field(v, "subTaskVOS") {
        Some(x) => x.as_array(),
        None => None,
    };
    match list {
        Some(items) => {
            if items.len() == 0 {
                return None;
            }
            let first = &items[0];
            let token = match field(first, "taskToken") {
                Some(t) => {
                    let text = value_text(t);
                    strip_quotes(text.as_str())
                },
                None => return None,
            };
            match str_field(first, "title") {
                Some(title) => Some(SubTask { token, title }),
                None => None,
            }
        },
        None => None,
    }
}

/// One catalogue entry; `None` where a field the runner reads is missing.
pub fn decode_task(v: &serde_json::Value) -> (r: Option<Task>)
    ensures
        r is Some <==> task_of(*v) is Some,
        r matches Some(t) ==> task_of(*v) == Some(t@),
{
    let task_id = u64_field(v, "taskId")?;
    let name = str_field(v, "taskName")?;
    let status = u64_field(v, "status")?;
    let wait_duration = u64_field(v, "waitDuration")?;
    let max_times = u64_field(v, "maxTimes")?;
    let times = u64_field(v, "times")?;
    let sub_task = first_sub_task(v);
    Some(Task { task_id, name, status, wait_duration, max_times, times, sub_task })
}

} // verus!
