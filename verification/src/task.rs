//! Job descriptors, the command registry, and tasks.
//!
//! A [`TaskMeta`] is the static configuration of one recurring job. Binding
//! it to an action yields a [`Task`]: the cron expression is validated
//! eagerly, so a task can always be scheduled, and an unknown command name
//! degrades to the fallback action instead of failing construction.

use vstd::prelude::*;

verus! {

use crate::cron_clock::cron_parses;
use crate::cron_clock::cron_expr_valid;
use crate::cron_clock::next_fire_millis;
use crate::cron_clock::parse_schedule;
use crate::records::AniItemResult;
use crate::textutil::str_eq;

/// Static configuration for one recurring job, as read from the
/// configuration file.
#[derive(Debug, Clone, PartialEq, Eq)]
pub struct TaskMeta {
    pub name: String,
    pub cron_expr: String,
    pub cmd: String,
    pub arg: String,
    pub retry_times: u8,
}

/// The abstract value of a [`TaskMeta`]: its fields as sequences.
pub struct TaskMetaView {
    pub name: Seq<char>,
    pub cron_expr: Seq<char>,
    pub cmd: Seq<char>,
    pub arg: Seq<char>,
    pub retry_times: u8,
}

impl View for TaskMeta {
    type V = TaskMetaView;

    open spec fn view(&self) -> TaskMetaView {
        TaskMetaView {
            name: self.name@,
            cron_expr: self.cron_expr@,
            cmd: self.cmd@,
            arg: self.arg@,
            retry_times: self.retry_times,
        }
    }
}

/// The fixed registry of known actions. An unrecognised command name maps
/// to [`CmdKind::Fallback`], an action that always fails descriptively.
#[derive(Debug, Clone, Copy, PartialEq, Eq, Structural)]
pub enum CmdKind {
    FetchBilibiliAniData,
    FetchIqiyiAniData,
    FetchMikananiAniData,
    FetchAgedmAniData,
    FetchYoukuAniData,
    FetchQqAniData,
    Fallback,
}

/// Which action a command name resolves to.
pub open spec fn spec_resolve_cmd(n: Seq<char>) -> CmdKind {
    if n == "fetch_bilibili_ani_data"@ {
        CmdKind::FetchBilibiliAniData
    } else if n == "fetch_iqiyi_ani_data"@ {
        CmdKind::FetchIqiyiAniData
    } else if n == "fetch_mikanani_ani_data"@ {
        CmdKind::FetchMikananiAniData
    } else if n == "fetch_agedm_ani_data"@ {
        CmdKind::FetchAgedmAniData
    } else if n == "fetch_youku_ani_data"@ {
        CmdKind::FetchYoukuAniData
    } else if n == "fetch_qq_ani_data"@ {
        CmdKind::FetchQqAniData
    } else {
        CmdKind::Fallback
    }
}

/// Resolve a command name against the registry.
pub fn resolve_cmd(name: &str) -> (r: CmdKind)
    ensures
        r == spec_resolve_cmd(name@),
{
    if str_eq(name, "fetch_bilibili_ani_data") {
        CmdKind::FetchBilibiliAniData
    } else if str_eq(name, "fetch_iqiyi_ani_data") {
        CmdKind::FetchIqiyiAniData
    } else if str_eq(name, "fetch_mikanani_ani_data") {
        CmdKind::FetchMikananiAniData
    } else if str_eq(name, "fetch_agedm_ani_data") {
        CmdKind::FetchAgedmAniData
    } else if str_eq(name, "fetch_youku_ani_data") {
        CmdKind::FetchYoukuAniData
    } else if str_eq(name, "fetch_qq_ani_data") {
        CmdKind::FetchQqAniData
    } else {
        CmdKind::Fallback
    }
}

/// A schedulable job: a descriptor whose cron expression has been
/// validated and whose command name has been resolved.
#[derive(Debug, Clone, PartialEq, Eq)]
pub struct Task {
    pub name: String,
    pub cron_expr: String,
    pub cmd: CmdKind,
    pub arg: String,
    pub retry_times: u8,
}

/// The abstract value of a [`Task`].
pub struct TaskView {
    pub name: Seq<char>,
    pub cron_expr: Seq<char>,
    pub cmd: CmdKind,
    pub arg: Seq<char>,
    pub retry_times: u8,
}

impl View for Task {
    type V = TaskView;

    open spec fn view(&self) -> TaskView {
        TaskView {
            name: self.name@,
            cron_expr: self.cron_expr@,
            cmd: self.cmd,
            arg: self.arg@,
            retry_times: self.retry_times,
        }
    }
}

/// The task a well-formed descriptor builds.
pub open spec fn built_task_view(m: TaskMetaView) -> TaskView {
    TaskView {
        name: m.name,
        cron_expr: m.cron_expr,
        cmd: spec_resolve_cmd(m.cmd),
        arg: m.arg,
        retry_times: m.retry_times,
    }
}

/// Round trip: a task built from a descriptor, inspected again, exposes
/// the descriptor's name, cron expression and retry budget unchanged.
/// This holds of every descriptor whose cron expression parses; one whose
/// expression does not parse is rejected at construction, so there is no
/// task to inspect. [`Task::new`] and [`build_tasks_from_meta`] promise
/// that every built task's value is `built_task_view` of its descriptor.
pub proof fn lemma_task_round_trip(m: TaskMetaView)
    requires
        cron_parses(m.cron_expr),
    ensures
        built_task_view(m).name == m.name,
        built_task_view(m).cron_expr == m.cron_expr,
        built_task_view(m).retry_times == m.retry_times,
{
}

/// Why a descriptor was rejected at construction time.
#[derive(Debug, Clone, PartialEq, Eq)]
pub enum TaskBuildError {
    InvalidCronExpr { name: String, cron_expr: String },
}

impl Task {
    /// A task's cron expression parses for the life of the process.
    pub open spec fn wf(&self) -> bool {
        cron_parses(self.cron_expr@)
    }

    /// Bind a descriptor to its action. Succeeds exactly when the cron
    /// expression parses; the name, expression, argument and retry budget
    /// are carried over unchanged.
    pub fn new(name: String, cron_expr: String, cmd: String, arg: String, retry_times: u8) -> (r:
        Result<Task, TaskBuildError>)
        ensures
            r is Ok <==> cron_parses(cron_expr@),
            r is Ok ==> r->Ok_0@ == (TaskView {
                name: name@,
                cron_expr: cron_expr@,
                cmd: spec_resolve_cmd(cmd@),
                arg: arg@,
                retry_times,
            }) && r->Ok_0.wf(),
            r is Err ==> (r->Err_0 matches TaskBuildError::InvalidCronExpr {
                name: n,
                cron_expr: c,
            } && n@ == name@ && c@ == cron_expr@),
    {
        if cron_expr_valid(cron_expr.as_str()) {
            let cmd_kind = resolve_cmd(cmd.as_str());
            Ok(Task { name, cron_expr, cmd: cmd_kind, arg, retry_times })
        } else {
            Err(TaskBuildError::InvalidCronExpr { name, cron_expr })
        }
    }

    /// The parsed cron schedule; present exactly when the stored
    /// expression parses, so always for a well-formed task.
    pub fn schedule(&self) -> (r: Option<cron::Schedule>)
        ensures
            r is Some <==> cron_parses(self.cron_expr@),
    {
        parse_schedule(self.cron_expr.as_str())
    }

    /// The task's next firing instant after `now_millis`, if its schedule
    /// yields one; instants past the cron clock's range yield none. The
    /// instant comes from the cron clock and is otherwise unconstrained;
    /// callers clamp it against the current time.
    pub fn next_fire(&self, now_millis: i64) -> (r: Option<i64>)
        ensures
            r is Some ==> cron_parses(self.cron_expr@),
            now_millis >= crate::cron_clock::MAX_CRON_INSTANT_MILLIS ==> r is None,
    {
        if now_millis >= crate::cron_clock::MAX_CRON_INSTANT_MILLIS {
            return None;
        }
        match self.schedule() {
            Some(sched) => next_fire_millis(&sched, now_millis),
            None => None,
        }
    }
}

/// The terminal outcome of one firing: the producing task's name, and the
/// fetched payload when the firing succeeded.
#[derive(Debug, Clone, PartialEq, Eq)]
pub struct TaskResult {
    pub name: String,
    pub result: Option<AniItemResult>,
}

impl TaskResult {
    /// The result a successful firing emits: the producing task's name
    /// with the fetched payload, both carried over unchanged.
    pub fn success(name: String, payload: AniItemResult) -> (r: TaskResult)
        ensures
            r.name == name,
            r.result == Some(payload),
    {
        TaskResult { name, result: Some(payload) }
    }
}

/// Build a task from every descriptor, in order: entry `i` holds the task
/// for descriptor `i`, or the rejection when its cron expression does not
/// parse.
pub fn build_tasks_from_meta(metas: &Vec<TaskMeta>) -> (r: Vec<Result<Task, TaskBuildError>>)
    ensures
        r@.len() == metas@.len(),
        forall|i: int|
            0 <= i < r@.len() ==> (#[trigger] r@[i] is Ok <==> cron_parses(metas@[i]@.cron_expr)),
        forall|i: int|
            0 <= i < r@.len() ==> (#[trigger] r@[i] is Ok ==> r@[i]->Ok_0@ == built_task_view(
                metas@[i]@,
            ) && r@[i]->Ok_0.wf()),
        forall|i: int|
            0 <= i < r@.len() ==> (#[trigger] r@[i] is Err ==> (r@[i]->Err_0
                matches TaskBuildError::InvalidCronExpr { name: n, cron_expr: c } && n@
                == metas@[i]@.name && c@ == metas@[i]@.cron_expr)),
{
    let n = metas.len();
    let mut out: Vec<Result<Task, TaskBuildError>> = Vec::new();
    let mut i: usize = 0;
    while i < n
        invariant
            n == metas@.len(),
            i <= n,
            out@.len() == i,
            forall|k: int|
                0 <= k < i ==> (#[trigger] out@[k] is Ok <==> cron_parses(metas@[k]@.cron_expr)),
            forall|k: int|
                0 <= k < i ==> (#[trigger] out@[k] is Ok ==> out@[k]->Ok_0@ == built_task_view(
                    metas@[k]@,
                ) && out@[k]->Ok_0.wf()),
            forall|k: int|
                0 <= k < i ==> (#[trigger] out@[k] is Err ==> (out@[k]->Err_0
                    matches TaskBuildError::InvalidCronExpr { name: nm, cron_expr: c } && nm@
                    == metas@[k]@.name && c@ == metas@[k]@.cron_expr)),
        decreases n - i,
    {
        let m = &metas[i];
        let built = Task::new(
            m.name.clone(),
            m.cron_expr.clone(),
            m.cmd.clone(),
            m.arg.clone(),
            m.retry_times,
        );
        out.push(built);
        i = i + 1;
    }
    out
}

/// Keep the successfully built tasks, in order; every kept task is
/// well-formed.
pub fn schedulable_tasks(built: &Vec<Result<Task, TaskBuildError>>) -> (r: Vec<Task>)
    requires
        forall|i: int|
            0 <= i < built@.len() ==> (#[trigger] built@[i] is Ok ==> built@[i]->Ok_0.wf()),
    ensures
        r@.map_values(|t: Task| t@) == built@.filter(
            |b: Result<Task, TaskBuildError>| b is Ok,
        ).map_values(|b: Result<Task, TaskBuildError>| b->Ok_0@),
        forall|k: int| 0 <= k < r@.len() ==> (#[trigger] r@[k]).wf(),
{
    let n = built.len();
    let mut out: Vec<Task> = Vec::new();
    let mut i: usize = 0;
    while i < n
        invariant
            n == built@.len(),
            i <= n,
            forall|k: int|
                0 <= k < built@.len() ==> (#[trigger] built@[k] is Ok ==> built@[k]->Ok_0.wf()),
            out@.map_values(|t: Task| t@) == built@.subrange(0, i as int).filter(
                |b: Result<Task, TaskBuildError>| b is Ok,
            ).map_values(|b: Result<Task, TaskBuildError>| b->Ok_0@),
            forall|k: int| 0 <= k < out@.len() ==> (#[trigger] out@[k]).wf(),
        decreases n - i,
    {
        let ghost prefix = built@.subrange(0, i as int);
        let ghost prefix_next = built@.subrange(0, i + 1);
        proof {
            assert(prefix_next.drop_last() =~= prefix);
            assert(prefix_next.last() == built@[i as int]);
        }
        match &built[i] {
            Ok(t) => {
                let task = Task {
                    name: t.name.clone(),
                    cron_expr: t.cron_expr.clone(),
                    cmd: t.cmd,
                    arg: t.arg.clone(),
                    retry_times: t.retry_times,
                };
                proof {
                    assert(task@ == built@[i as int]->Ok_0@);
                }
                let ghost old_out = out@;
                out.push(task);
                proof {
                    reveal(Seq::filter);
                    assert(prefix_next.filter(|b: Result<Task, TaskBuildError>| b is Ok)
                        == prefix.filter(|b: Result<Task, TaskBuildError>| b is Ok).push(
                        built@[i as int],
                    ));
                    assert(out@.map_values(|t: Task| t@) =~= old_out.map_values(
                        |t: Task| t@,
                    ).push(built@[i as int]->Ok_0@));
                    assert(prefix_next.filter(|b: Result<Task, TaskBuildError>| b is Ok).map_values(
                        |b: Result<Task, TaskBuildError>| b->Ok_0@,
                    ) =~= prefix.filter(|b: Result<Task, TaskBuildError>| b is Ok).map_values(
                        |b: Result<Task, TaskBuildError>| b->Ok_0@,
                    ).push(built@[i as int]->Ok_0@));
                    assert(out@.map_values(|t: Task| t@) =~= prefix_next.filter(
                        |b: Result<Task, TaskBuildError>| b is Ok,
                    ).map_values(|b: Result<Task, TaskBuildError>| b->Ok_0@));
                }
            },
            Err(_) => {
                proof {
                    reveal(Seq::filter);
                    assert(prefix_next.filter(|b: Result<Task, TaskBuildError>| b is Ok)
                        == prefix.filter(|b: Result<Task, TaskBuildError>| b is Ok));
                    assert(out@.map_values(|t: Task| t@) =~= prefix_next.filter(
                        |b: Result<Task, TaskBuildError>| b is Ok,
                    ).map_values(|b: Result<Task, TaskBuildError>| b->Ok_0@));
                }
            },
        }
        i = i + 1;
    }
    proof {
        assert(built@.subrange(0, n as int) =~= built@);
    }
    out
}

} // verus!
