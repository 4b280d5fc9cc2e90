//! The per-account task runner: sign in, read the catalogue, then work each
//! unfinished task through its remaining attempts. Each step takes the event
//! that the host observed and returns the next action for the host to perform
//! (send a request, sleep, or go on), so every network call and every timed
//! wait is a visible step of the machine.
use vstd::prelude::*;
use vstd::string::StringExecFns;
use crate::json::json_quote;
use crate::json::json_string_of;
use crate::protocol::{
    Kind, Reply, Request, SubAction, is_call, sign_in_id, sign_in_body, sign_in_request,
    sub_task_body, sub_task_id, sub_task_request, task_list_body, task_list_id, task_list_request,
};
use crate::task::{SubTask, Task, COMPLETED, attempts};

verus! {

/// The courtesy delay, in seconds, after each attempt.
pub const PAUSE_SECS: u64 = 2;

/// What the host observed since the last step.
#[derive(Debug)]
pub enum Event {
    /// The last action was a sleep or `Resume`, and it is over.
    Resume,
    /// The reply to the request that the last action sent.
    Replied(Reply),
}

/// What the host is to do next.
#[derive(Debug)]
pub enum Action {
    /// Sign, post and read back this request; then step with its reply.
    Send(Request),
    /// Suspend for this many seconds; then step with `Resume`.
    Sleep(u64),
    /// Step again at once with `Resume`.
    Resume,
    /// The run is over: `true` when it ended normally, `false` on a hard error.
    Finish(bool),
}

/// Something worth logging that a step observed.
#[derive(Debug)]
pub enum Note {
    /// The sign-in was reported as successful, or not.
    SignIn(bool),
    /// The task at this index was already completed and is skipped.
    AlreadyDone(usize),
    /// A sub-task was started; the runner now waits `wait` seconds.
    Running { index: usize, title: String, wait: u64 },
    /// A sub-task's completion was accepted, or not.
    Completed { index: usize, title: String, ok: bool },
}

#[derive(Debug)]
pub struct Step {
    pub note: Option<Note>,
    pub action: Action,
}

/// Where a run stands. `index` is a position in the catalogue read at
/// discovery; `attempt` counts the attempts made on that task in this run.
#[derive(Debug)]
pub enum Phase {
    Idle,
    SigningIn,
    Discovering,
    Next { index: usize },
    Refetching { index: usize, attempt: u64 },
    Starting { index: usize, attempt: u64, title: String, quoted: String },
    Dwelling { index: usize, attempt: u64, title: String, quoted: String },
    Completing { index: usize, attempt: u64, title: String },
    Pausing { index: usize, attempt: u64 },
    Done,
}

#[derive(Debug)]
pub struct Runner {
    pub phase: Phase,
    /// The catalogue as read at discovery.
    pub tasks: Vec<Task>,
}

/// The phase waits for the reply to a request.
pub open spec fn awaits_reply(p: Phase) -> bool {
    p is SigningIn || p is Discovering || p is Refetching || p is Starting || p is Completing
}

/// The event is one the phase can take.
pub open spec fn event_fits(p: Phase, e: Event) -> bool {
    !(p is Done) && (awaits_reply(p) <==> e is Replied)
}

/// The task that a phase is working on, if any.
pub open spec fn working_on(p: Phase) -> Option<(usize, u64)> {
    match p {
        Phase::Refetching { index, attempt } => Some((index, attempt)),
        Phase::Starting { index, attempt, .. } => Some((index, attempt)),
        Phase::Dwelling { index, attempt, .. } => Some((index, attempt)),
        Phase::Completing { index, attempt, .. } => Some((index, attempt)),
        Phase::Pausing { index, attempt } => Some((index, attempt)),
        _ => None,
    }
}

pub open spec fn phase_wf(tasks: Seq<Task>, p: Phase) -> bool {
    &&& p matches Phase::Next { index } ==> index <= tasks.len()
    &&& working_on(p) matches Some((i, a)) ==> i < tasks.len() && a < attempts(tasks[i as int])
}

/// A sign-in status of 1 or 2 means success.
pub open spec fn signed_in(r: Reply) -> bool {
    match r {
        Reply::SignIn(Some(t)) => t@ == "1"@ || t@ == "2"@,
        _ => false,
    }
}

/// The position of the first task with this id.
pub open spec fn find_first(list: Seq<Task>, id: u64) -> Option<int>
    decreases list.len(),
{
    if list.len() == 0 {
        None
    } else {
        match find_first(list.drop_last(), id) {
            Some(j) => Some(j),
            None => if list.last().task_id == id {
                Some(list.len() - 1)
            } else {
                None
            },
        }
    }
}

/// The first entry with this id, where there is one.
pub open spec fn fresh_entry(list: Seq<Task>, id: u64) -> Option<Task> {
    match find_first(list, id) {
        Some(j) => Some(list[j]),
        None => None,
    }
}

/// A listing shows the task completed, or with no attempts left.
pub open spec fn finished(t: Task) -> bool {
    t.status == COMPLETED || t.max_times <= t.times
}

/// The tasks a reply to a list request carries; none unless it was accepted.
pub open spec fn listed(r: Reply) -> Seq<Task> {
    match r {
        Reply::Tasks(v) => v@,
        _ => Seq::empty(),
    }
}

pub open spec fn sends(a: Action, kind: Kind, id: Seq<char>, body: Seq<char>) -> bool {
    a matches Action::Send(req) && is_call(req, kind, id, body)
}

/// What happens on reaching attempt `attempt` of the task at `index`: a
/// completed task is noted and passed over without a request, a task with
/// attempts left is fetched afresh, any other is passed over; past the last
/// task the run ends.
pub open spec fn entered(tasks: Seq<Task>, index: int, attempt: int, p: Phase, s: Step) -> bool {
    if index >= tasks.len() {
        p == Phase::Done && s.note is None && s.action == Action::Finish(true)
    } else if tasks[index].status == COMPLETED {
        p == (Phase::Next { index: (index + 1) as usize }) && s.note == Some(
            Note::AlreadyDone(index as usize),
        ) && s.action is Resume
    } else if attempt < attempts(tasks[index]) {
        p == (Phase::Refetching { index: index as usize, attempt: attempt as u64 }) && s.note is None
            && sends(s.action, Kind::TaskList, task_list_id(), task_list_body())
    } else {
        p == (Phase::Next { index: (index + 1) as usize }) && s.note is None && s.action is Resume
    }
}

/// One step of the machine: from catalogue `t0` in phase `p0`, event `e` leads
/// to catalogue `t1`, phase `p1`, and the note and action of `s`.
pub open spec fn next(t0: Seq<Task>, p0: Phase, e: Event, t1: Seq<Task>, p1: Phase, s: Step) -> bool {
    match p0 {
        Phase::Idle => t1 == t0 && p1 == Phase::SigningIn && s.note is None && sends(
            s.action,
            Kind::SignIn,
            sign_in_id(),
            sign_in_body(),
        ),
        Phase::SigningIn => t1 == t0 && match e {
            Event::Replied(Reply::Failed) => p1 == Phase::Done && s.note is None && s.action
                == Action::Finish(false),
            Event::Replied(r) => p1 == Phase::Discovering && s.note == Some(Note::SignIn(signed_in(r)))
                && sends(s.action, Kind::TaskList, task_list_id(), task_list_body()),
            Event::Resume => false,
        },
        Phase::Discovering => match e {
            Event::Replied(Reply::Failed) => t1 == t0 && p1 == Phase::Done && s.note is None
                && s.action == Action::Finish(false),
            Event::Replied(r) => t1 == listed(r) && entered(t1, 0, 0, p1, s),
            Event::Resume => false,
        },
        Phase::Next { index } => t1 == t0 && entered(t0, index as int, 0, p1, s),
        Phase::Refetching { index, attempt } => t1 == t0 && match e {
            Event::Replied(Reply::Failed) => p1 == Phase::Done && s.note is None && s.action
                == Action::Finish(false),
            Event::Replied(r) => s.note is None && match fresh_entry(listed(r), t0[index as int].task_id) {
                Some(f) => if finished(f) {
                    p1 == (Phase::Next { index: (index + 1) as usize }) && s.action is Resume
                } else {
                    match f.sub_task {
                        Some(st) => p1 matches Phase::Starting { index: i1, attempt: a1, title, quoted } && i1
                            == index && a1 == attempt && title == st.title && quoted@ == json_string_of(st.token@)
                            && sends(s.action, Kind::SubTask, sub_task_id(), sub_task_body(SubAction::Start, quoted@)),
                        None => p1 == (Phase::Pausing { index, attempt }) && s.action == Action::Sleep(PAUSE_SECS),
                    }
                },
                None => p1 == (Phase::Pausing { index, attempt }) && s.action == Action::Sleep(PAUSE_SECS),
            },
            Event::Resume => false,
        },
        Phase::Starting { index, attempt, title, quoted } => t1 == t0 && p1 == (Phase::Dwelling {
            index,
            attempt,
            title,
            quoted,
        }) && s.note == Some(
            Note::Running { index, title, wait: t0[index as int].wait_duration },
        ) && s.action == Action::Sleep(t0[index as int].wait_duration),
        Phase::Dwelling { index, attempt, title, quoted } => t1 == t0 && p1 == (Phase::Completing {
            index,
            attempt,
            title,
        }) && s.note is None && sends(s.action, Kind::SubTask, sub_task_id(), sub_task_body(SubAction::Complete, quoted@)),
        Phase::Completing { index, attempt, title } => t1 == t0 && p1 == (Phase::Pausing { index, attempt })
            && s.action == Action::Sleep(PAUSE_SECS) && match e {
            Event::Replied(r) => s.note == Some(Note::Completed { index, title, ok: r is Accepted }),
            Event::Resume => false,
        },
        Phase::Pausing { index, attempt } => t1 == t0 && entered(t0, index as int, attempt + 1, p1, s),
        Phase::Done => false,
    }
}

impl Runner {
    pub open spec fn wf(&self) -> bool {
        phase_wf(self.tasks@, self.phase)
    }

    /// A runner that has done nothing yet.
    pub fn new() -> (r: Runner)
        ensures
            r.phase == Phase::Idle,
            r.tasks@.len() == 0,
            r.wf(),
    {
        Runner { phase: Phase::Idle, tasks: Vec::new() }
    }

    pub fn is_done(&self) -> (r: bool)
        ensures
            r == (self.phase is Done),
    {
        match self.phase {
            Phase::Done => true,
            _ => false,
        }
    }

    /// Whether the next event must be the reply to a request.
    pub fn awaiting_reply(&self) -> (r: bool)
        ensures
            r == awaits_reply(self.phase),
    {
        match self.phase {
            Phase::SigningIn | Phase::Discovering | Phase::Refetching { .. } | Phase::Starting { .. }
            | Phase::Completing { .. } => true,
            _ => false,
        }
    }

    fn enter(&self, index: usize, attempt: u64) -> (r: (Phase, Step))
        requires
            index <= self.tasks@.len(),
        ensures
            entered(self.tasks@, index as int, attempt as int, r.0, r.1),
            phase_wf(self.tasks@, r.0),
    {
        if index >= self.tasks.len() {
            return (Phase::Done, Step { note: None, action: Action::Finish(true) });
        }
        let t = &self.tasks[index];
        if t.status == COMPLETED {
            (Phase::Next { index: index + 1 }, Step { note: Some(Note::AlreadyDone(index)), action: Action::Resume })
        } else if attempt < t.remaining_attempts() {
            (Phase::Refetching { index, attempt }, Step { note: None, action: Action::Send(task_list_request()) })
        } else {
            (Phase::Next { index: index + 1 }, Step { note: None, action: Action::Resume })
        }
    }
}

proof fn lemma_find_first_prefix(t: Seq<Task>, n: int, id: u64)
    requires
        0 <= n <= t.len(),
        find_first(t.subrange(0, n), id) is Some,
    ensures
        find_first(t, id) == find_first(t.subrange(0, n), id),
    decreases t.len() - n,
{
    if n < t.len() {
        let d = t.drop_last();
        assert(d.subrange(0, n) == t.subrange(0, n));
        lemma_find_first_prefix(d, n, id);
    } else {
        assert(t.subrange(0, n) == t);
    }
}

/// The position of the first task with this id.
pub fn position_of(list: &Vec<Task>, id: u64) -> (r: Option<usize>)
    ensures
        match r {
            Some(j) => j < list@.len() && find_first(list@, id) == Some(j as int),
            None => find_first(list@, id) is None,
        },
{
    let mut j: usize = 0;
    while j < list.len()
        invariant
            j <= list@.len(),
            find_first(list@.subrange(0, j as int), id) is None,
        decreases list@.len() - j,
    {
        let ghost pre = list@.subrange(0, j as int + 1);
        assert(pre.drop_last() == list@.subrange(0, j as int));
        if list[j].task_id == id {
            proof {
                assert(find_first(pre, id) == Some(j as int));
                lemma_find_first_prefix(list@, j as int + 1, id);
            }
            return Some(j);
        }
        j = j + 1;
    }
    assert(list@.subrange(0, j as int) == list@);
    None
}

fn signed_in_exec(r: &Reply) -> (ok: bool)
    ensures
        ok == signed_in(*r),
{
    match r {
        Reply::SignIn(Some(t)) => {
            let one = String::from_str("1");
            let two = String::from_str("2");
            *t == one || *t == two
        },
        _ => false,
    }
}

impl Runner {
    /// Advances the run by one event.
    pub fn step(&mut self, event: Event) -> (s: Step)
        requires
            old(self).wf(),
            event_fits(old(self).phase, event),
        ensures
            final(self).wf(),
            next(old(self).tasks@, old(self).phase, event, final(self).tasks@, final(self).phase, s),
    {
        // Take the phase out; it stays `Done` unless a branch sets another.
        // The `Resume` arms of phases that await a reply, and the `Done` arm,
        // are excluded by `event_fits`.
        let mut phase = Phase::Done;
        std::mem::swap(&mut phase, &mut self.phase);
        match phase {
            Phase::Idle => {
                self.phase = Phase::SigningIn;
                Step { note: None, action: Action::Send(sign_in_request()) }
            },
            Phase::SigningIn => match event {
                Event::Replied(Reply::Failed) => Step { note: None, action: Action::Finish(false) },
                Event::Replied(r) => {
                    let ok = signed_in_exec(&r);
                    self.phase = Phase::Discovering;
                    Step { note: Some(Note::SignIn(ok)), action: Action::Send(task_list_request()) }
                },
                Event::Resume => Step { note: None, action: Action::Finish(false) },
            },
            Phase::Discovering => match event {
                Event::Replied(Reply::Failed) => Step { note: None, action: Action::Finish(false) },
                Event::Replied(r) => {
                    self.tasks = match r {
                        Reply::Tasks(v) => v,
                        _ => Vec::new(),
                    };
                    let (p, s) = self.enter(0, 0);
                    self.phase = p;
                    s
                },
                Event::Resume => Step { note: None, action: Action::Finish(false) },
            },
            Phase::Next { index } => {
                let (p, s) = self.enter(index, 0);
                self.phase = p;
                s
            },
            Phase::Refetching { index, attempt } => match event {
                Event::Replied(Reply::Failed) => Step { note: None, action: Action::Finish(false) },
                Event::Replied(r) => {
                    let mut list = match r {
                        Reply::Tasks(v) => v,
                        _ => Vec::new(),
                    };
                    let id = self.tasks[index].task_id;
                    let count = self.tasks.len();
                    assert(index < count);
                    let found = match position_of(&list, id) {
                        Some(j) => Some(list.remove(j)),
                        None => None,
                    };
                    match found {
                        Some(fresh) => {
                            if fresh.status == COMPLETED || fresh.max_times <= fresh.times {
                                self.phase = Phase::Next { index: index + 1 };
                                Step { note: None, action: Action::Resume }
                            } else {
                                match fresh.sub_task {
                                    Some(st) => {
                                        let quoted = json_quote(st.token.as_str());
                                        let req = sub_task_request(SubAction::Start, quoted.as_str());
                                        self.phase = Phase::Starting { index, attempt, title: st.title, quoted };
                                        Step { note: None, action: Action::Send(req) }
                                    },
                                    None => {
                                        self.phase = Phase::Pausing { index, attempt };
                                        Step { note: None, action: Action::Sleep(PAUSE_SECS) }
                                    },
                                }
                            }
                        },
                        None => {
                            self.phase = Phase::Pausing { index, attempt };
                            Step { note: None, action: Action::Sleep(PAUSE_SECS) }
                        },
                    }
                },
                Event::Resume => Step { note: None, action: Action::Finish(false) },
            },
            Phase::Starting { index, attempt, title, quoted } => {
                let wait = self.tasks[index].wait_duration;
                let shown = title.clone();
                self.phase = Phase::Dwelling { index, attempt, title, quoted };
                Step { note: Some(Note::Running { index, title: shown, wait }), action: Action::Sleep(wait) }
            },
            Phase::Dwelling { index, attempt, title, quoted } => {
                let req = sub_task_request(SubAction::Complete, quoted.as_str());
                self.phase = Phase::Completing { index, attempt, title };
                Step { note: None, action: Action::Send(req) }
            },
            Phase::Completing { index, attempt, title } => {
                let ok = match event {
                    Event::Replied(Reply::Accepted) => true,
                    _ => false,
                };
                self.phase = Phase::Pausing { index, attempt };
                Step { note: Some(Note::Completed { index, title, ok }), action: Action::Sleep(PAUSE_SECS) }
            },
            Phase::Pausing { index, attempt } => {
                let (p, s) = self.enter(index, attempt + 1);
                self.phase = p;
                s
            },
            Phase::Done => Step { note: None, action: Action::Finish(false) },
        }
    }
}

/// No request ever concerns a completed task: a task found completed is
/// passed over with no request when reached, and every request sent after
/// discovery is for a task whose status is not completed.
pub proof fn completed_tasks_get_no_request(
    t0: Seq<Task>,
    p0: Phase,
    e: Event,
    t1: Seq<Task>,
    p1: Phase,
    s: Step,
)
    requires
        phase_wf(t0, p0),
        event_fits(p0, e),
        next(t0, p0, e, t1, p1, s),
        phase_wf(t1, p1),
    ensures
        s.action is Send ==> (p1 is SigningIn || p1 is Discovering || (working_on(p1) matches Some((i, _))
            && t1[i as int].status != COMPLETED)),
        forall|index: usize|
            p0 == (Phase::Next { index }) && index < t0.len() && t0[index as int].status == COMPLETED
                ==> s.action is Resume && p1 == (Phase::Next { index: (index + 1) as usize }),
{
}

/// One attempt on a task whose fresh listing shows its sub-task: the runner
/// starts the sub-task with its token, sleeps the task's `waitDuration`,
/// completes it with the same token, sleeps two seconds, and then reaches
/// the next attempt on the same task, whatever the replies were.
pub proof fn attempt_cycle(
    t: Seq<Task>,
    i: usize,
    a: u64,
    r1: Reply,
    t1: Seq<Task>,
    p1: Phase,
    s1: Step,
    r2: Reply,
    t2: Seq<Task>,
    p2: Phase,
    s2: Step,
    t3: Seq<Task>,
    p3: Phase,
    s3: Step,
    r4: Reply,
    t4: Seq<Task>,
    p4: Phase,
    s4: Step,
    t5: Seq<Task>,
    p5: Phase,
    s5: Step,
)
    requires
        phase_wf(t, Phase::Refetching { index: i, attempt: a }),
        !(r1 is Failed),
        fresh_entry(listed(r1), t[i as int].task_id) matches Some(f) && !finished(f) && f.sub_task is Some,
        next(t, Phase::Refetching { index: i, attempt: a }, Event::Replied(r1), t1, p1, s1),
        next(t1, p1, Event::Replied(r2), t2, p2, s2),
        next(t2, p2, Event::Resume, t3, p3, s3),
        next(t3, p3, Event::Replied(r4), t4, p4, s4),
        next(t4, p4, Event::Resume, t5, p5, s5),
    ensures
        ({
            let token = fresh_entry(listed(r1), t[i as int].task_id)->Some_0.sub_task->Some_0.token@;
            &&& sends(s1.action, Kind::SubTask, sub_task_id(), sub_task_body(SubAction::Start, json_string_of(token)))
            &&& s2.action == Action::Sleep(t[i as int].wait_duration)
            &&& sends(s3.action, Kind::SubTask, sub_task_id(), sub_task_body(SubAction::Complete, json_string_of(token)))
            &&& s4.action == Action::Sleep(PAUSE_SECS)
            &&& s4.note matches Some(Note::Completed { index, ok, .. }) && index == i && ok == (r4 is Accepted)
            &&& t5 == t
            &&& entered(t, i as int, a + 1, p5, s5)
        }),
{
}

/// An attempt whose fresh listing lacks the task, or shows it unfinished
/// without a sub-task, sends no action: the runner sleeps two seconds and
/// reaches the next attempt.
pub proof fn attempt_without_sub_task(
    t: Seq<Task>,
    i: usize,
    a: u64,
    r1: Reply,
    t1: Seq<Task>,
    p1: Phase,
    s1: Step,
    t2: Seq<Task>,
    p2: Phase,
    s2: Step,
)
    requires
        phase_wf(t, Phase::Refetching { index: i, attempt: a }),
        !(r1 is Failed),
        match fresh_entry(listed(r1), t[i as int].task_id) {
            Some(f) => !finished(f) && f.sub_task is None,
            None => true,
        },
        next(t, Phase::Refetching { index: i, attempt: a }, Event::Replied(r1), t1, p1, s1),
        next(t1, p1, Event::Resume, t2, p2, s2),
    ensures
        s1.action == Action::Sleep(PAUSE_SECS),
        t2 == t,
        entered(t, i as int, a + 1, p2, s2),
{
}

/// A task not yet completed, with `times < maxTimes`, gets exactly
/// `maxTimes - times` attempts: reaching attempt `a` begins it (with a fresh
/// listing) exactly when `a < maxTimes - times`, and otherwise moves on to
/// the next task.
pub proof fn attempts_counted(tasks: Seq<Task>, i: int, a: int, p: Phase, s: Step)
    requires
        0 <= i < tasks.len(),
        0 <= a,
        tasks[i].status != COMPLETED,
        tasks[i].times < tasks[i].max_times,
        entered(tasks, i, a, p, s),
    ensures
        p is Refetching <==> a < tasks[i].max_times - tasks[i].times,
        p is Refetching ==> sends(s.action, Kind::TaskList, task_list_id(), task_list_body()),
        !(p is Refetching) ==> p == (Phase::Next { index: (i + 1) as usize }) && s.action is Resume,
{
}

/// A fresh listing that shows the task completed, or out of attempts, ends
/// the work on it: no action is sent for it, and the run moves to the next
/// task of the catalogue.
pub proof fn fresh_completion_ends_task(
    t: Seq<Task>,
    i: usize,
    a: u64,
    r: Reply,
    t1: Seq<Task>,
    p1: Phase,
    s1: Step,
)
    requires
        phase_wf(t, Phase::Refetching { index: i, attempt: a }),
        !(r is Failed),
        fresh_entry(listed(r), t[i as int].task_id) matches Some(f) && finished(f),
        next(t, Phase::Refetching { index: i, attempt: a }, Event::Replied(r), t1, p1, s1),
    ensures
        s1.action is Resume,
        s1.note is None,
        t1 == t,
        p1 == (Phase::Next { index: (i + 1) as usize }),
{
}

} // verus!
