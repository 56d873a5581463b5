//! The readiness tracker: which startup phases have completed, and when the
//! splash window gives way to the main window.
use vstd::prelude::*;
use crate::text::same_text;

verus! {

/// How long, in seconds, the backend warm-up work takes before it reports.
pub const BACKEND_WARMUP_SECS: u64 = 3;

/// One of the two startup phases that must complete before the main window
/// is revealed.
#[derive(Clone, Copy, Debug, PartialEq, Eq, Structural)]
pub enum Task {
    /// The UI layer has finished loading.
    Frontend,
    /// The backend warm-up work has finished.
    Backend,
}

/// Where the handshake stands.
#[derive(Clone, Copy, Debug, PartialEq, Eq, Structural)]
pub enum Phase {
    /// Neither phase has reported.
    WaitingBoth,
    /// Exactly the given phase has reported.
    OneReady(Task),
    /// Both phases have reported.
    Ready,
}

/// A task name that is neither `"frontend"` nor `"backend"`.
#[derive(Clone, Copy, Debug, PartialEq, Eq, Structural)]
pub enum TaskError {
    InvalidTask,
}

/// The name under which a phase reports.
pub open spec fn task_name(t: Task) -> Seq<char> {
    match t {
        Task::Frontend => "frontend"@,
        Task::Backend => "backend"@,
    }
}

/// The phase that a name stands for, if any.
pub open spec fn task_of(s: Seq<char>) -> Option<Task> {
    if s == "frontend"@ {
        Some(Task::Frontend)
    } else if s == "backend"@ {
        Some(Task::Backend)
    } else {
        None
    }
}

/// The phase of the handshake after `t` reports in phase `p`.
pub open spec fn next(p: Phase, t: Task) -> Phase {
    match p {
        Phase::WaitingBoth => Phase::OneReady(t),
        Phase::OneReady(u) => if u == t {
            Phase::OneReady(u)
        } else {
            Phase::Ready
        },
        Phase::Ready => Phase::Ready,
    }
}

/// Whether the report of `t` in phase `p` is the one that completes the
/// handshake, so that the window swap fires on it.
pub open spec fn fires(p: Phase, t: Task) -> bool {
    p != Phase::Ready && next(p, t) == Phase::Ready
}

/// Whether phase `t` has reported in `p`.
pub open spec fn is_done(p: Phase, t: Task) -> bool {
    match p {
        Phase::WaitingBoth => false,
        Phase::OneReady(u) => u == t,
        Phase::Ready => true,
    }
}

/// The phase reached from `p` by the reports `ts`, in order.
pub open spec fn run(p: Phase, ts: Seq<Task>) -> Phase
    decreases ts.len(),
{
    if ts.len() == 0 {
        p
    } else {
        run(next(p, ts[0]), ts.drop_first())
    }
}

/// How many of the reports `ts`, made in order from `p`, fire the swap.
pub open spec fn fire_count(p: Phase, ts: Seq<Task>) -> nat
    decreases ts.len(),
{
    if ts.len() == 0 {
        0
    } else {
        (if fires(p, ts[0]) { 1nat } else { 0nat }) + fire_count(next(p, ts[0]), ts.drop_first())
    }
}

/// Whether, starting from `p`, the reports `ts` leave both phases done.
pub open spec fn covers(p: Phase, ts: Seq<Task>) -> bool {
    &&& (is_done(p, Task::Frontend) || ts.contains(Task::Frontend))
    &&& (is_done(p, Task::Backend) || ts.contains(Task::Backend))
}

proof fn lemma_next_is_done(p: Phase, t: Task, u: Task)
    ensures
        is_done(next(p, t), u) == (is_done(p, u) || u == t),
{
}

proof fn lemma_ready_iff_both_done(p: Phase)
    ensures
        (p == Phase::Ready) == (is_done(p, Task::Frontend) && is_done(p, Task::Backend)),
{
}

proof fn lemma_run_from(p: Phase, ts: Seq<Task>)
    ensures
        (run(p, ts) == Phase::Ready) == covers(p, ts),
        fire_count(p, ts) == (if p != Phase::Ready && covers(p, ts) { 1nat } else { 0nat }),
    decreases ts.len(),
{
    lemma_ready_iff_both_done(p);
    if ts.len() > 0 {
        let t = ts[0];
        let rest = ts.drop_first();
        lemma_run_from(next(p, t), rest);
        lemma_next_is_done(p, t, Task::Frontend);
        lemma_next_is_done(p, t, Task::Backend);
        lemma_ready_iff_both_done(next(p, t));
        assert forall|u: Task| ts.contains(u) == (u == t || rest.contains(u)) by {
            if ts.contains(u) {
                let k = choose|k: int| 0 <= k < ts.len() && ts[k] == u;
                if k > 0 {
                    assert(rest[k - 1] == u);
                }
            }
            if rest.contains(u) {
                let k = choose|k: int| 0 <= k < rest.len() && rest[k] == u;
                assert(ts[k + 1] == u);
            }
            if u == t {
                assert(ts[0] == u);
            }
        }
    }
}

/// Whatever the order and the number of the reports, the window swap fires
/// exactly once if both phases are among them, and never otherwise; the
/// handshake ends complete exactly when both have reported.
pub proof fn law_swap_fires_once(ts: Seq<Task>)
    ensures
        fire_count(Phase::WaitingBoth, ts) == (if ts.contains(Task::Frontend) && ts.contains(
            Task::Backend,
        ) {
            1nat
        } else {
            0nat
        }),
        (run(Phase::WaitingBoth, ts) == Phase::Ready) == (ts.contains(Task::Frontend)
            && ts.contains(Task::Backend)),
{
    lemma_run_from(Phase::WaitingBoth, ts);
}

proof fn lemma_run_push(p: Phase, a: Seq<Task>, t: Task)
    ensures
        run(p, a.push(t)) == next(run(p, a), t),
    decreases a.len(),
{
    if a.len() == 0 {
        assert(a.push(t).drop_first() =~= Seq::<Task>::empty());
        assert(run(next(p, t), a.push(t).drop_first()) == next(p, t));
    } else {
        assert(a.push(t)[0] == a[0]);
        assert(a.push(t).drop_first() =~= a.drop_first().push(t));
        lemma_run_push(next(p, a[0]), a.drop_first(), t);
        assert(run(p, a) == run(next(p, a[0]), a.drop_first()));
    }
}

/// Among reports made in order, the one at position `i` fires the swap
/// exactly when one phase had not reported before it and both have reported
/// once it is made.
pub proof fn law_fires_on_completing_report(ts: Seq<Task>, i: int)
    requires
        0 <= i < ts.len(),
    ensures
        fires(run(Phase::WaitingBoth, ts.take(i)), ts[i]) == (!(ts.take(i).contains(Task::Frontend)
            && ts.take(i).contains(Task::Backend)) && (ts.take(i + 1).contains(Task::Frontend)
            && ts.take(i + 1).contains(Task::Backend))),
{
    assert(ts.take(i + 1) =~= ts.take(i).push(ts[i]));
    lemma_run_push(Phase::WaitingBoth, ts.take(i), ts[i]);
    law_swap_fires_once(ts.take(i));
    law_swap_fires_once(ts.take(i + 1));
}

/// Of two reports of different phases, in either order, the first does not
/// fire the swap and the second does, leaving the handshake complete.
pub proof fn law_both_orders(a: Task, b: Task)
    requires
        a != b,
    ensures
        !fires(Phase::WaitingBoth, a),
        fires(next(Phase::WaitingBoth, a), b),
        next(next(Phase::WaitingBoth, a), b) == Phase::Ready,
{
}

/// Reports of one phase alone, however many, never fire the swap: the main
/// window stays hidden and the splash window stays open.
pub proof fn law_one_phase_never_swaps(ts: Seq<Task>, t: Task)
    requires
        forall|i: int| 0 <= i < ts.len() ==> ts[i] == t,
    ensures
        fire_count(Phase::WaitingBoth, ts) == 0,
        run(Phase::WaitingBoth, ts) != Phase::Ready,
{
    let other = if t == Task::Frontend { Task::Backend } else { Task::Frontend };
    assert(!ts.contains(other));
    law_swap_fires_once(ts);
}

/// The name under which a phase reports is read back as that phase.
pub proof fn law_name_round_trip(t: Task)
    ensures
        task_of(task_name(t)) == Some(t),
{
    reveal_strlit("frontend");
    reveal_strlit("backend");
    assert("frontend"@ != "backend"@) by {
        assert("frontend"@[0] != "backend"@[0]);
    }
}

impl Task {
    /// The name under which this phase reports.
    pub fn name(&self) -> (r: &'static str)
        ensures
            r@ == task_name(*self),
    {
        match self {
            Task::Frontend => "frontend",
            Task::Backend => "backend",
        }
    }
}

/// The phase that `name` stands for: `"frontend"` or `"backend"`, and no
/// other name.
pub fn task_from_name(name: &str) -> (r: Option<Task>)
    ensures
        r == task_of(name@),
{
    if same_text(name, "frontend") {
        Some(Task::Frontend)
    } else if same_text(name, "backend") {
        Some(Task::Backend)
    } else {
        None
    }
}

/// The flags of the two startup phases. A flag, once set, stays set.
pub struct ReadinessState {
    frontend_task: bool,
    backend_task: bool,
}

impl View for ReadinessState {
    type V = Phase;

    closed spec fn view(&self) -> Phase {
        if self.frontend_task && self.backend_task {
            Phase::Ready
        } else if self.frontend_task {
            Phase::OneReady(Task::Frontend)
        } else if self.backend_task {
            Phase::OneReady(Task::Backend)
        } else {
            Phase::WaitingBoth
        }
    }
}

impl ReadinessState {
    /// A tracker on which no phase has reported yet.
    pub fn new() -> (r: Self)
        ensures
            r@ == Phase::WaitingBoth,
    {
        ReadinessState { frontend_task: false, backend_task: false }
    }

    /// Whether the frontend has reported.
    pub fn frontend_ready(&self) -> (r: bool)
        ensures
            r == is_done(self@, Task::Frontend),
    {
        self.frontend_task
    }

    /// Whether the backend has reported.
    pub fn backend_ready(&self) -> (r: bool)
        ensures
            r == is_done(self@, Task::Backend),
    {
        self.backend_task
    }

    /// Whether both phases have reported.
    pub fn is_ready(&self) -> (r: bool)
        ensures
            r == (self@ == Phase::Ready),
    {
        self.frontend_task && self.backend_task
    }

    /// Records that `task` has completed. Returns whether this report is the
    /// one that completes the handshake: then, and only then, the caller
    /// swaps the splash window for the main window.
    pub fn report(&mut self, task: Task) -> (fire: bool)
        ensures
            final(self)@ == next(old(self)@, task),
            fire == fires(old(self)@, task),
            is_done(final(self)@, task),
            forall|u: Task| is_done(old(self)@, u) ==> is_done(final(self)@, u),
    {
        let was_ready = self.frontend_task && self.backend_task;
        match task {
            Task::Frontend => self.frontend_task = true,
            Task::Backend => self.backend_task = true,
        }
        !was_ready && self.frontend_task && self.backend_task
    }

    /// Records that the phase named `task` has completed, as `report` does.
    /// A name other than `"frontend"` or `"backend"` is refused with
    /// `InvalidTask`, and the tracker is left as it was.
    pub fn set_complete(&mut self, task: &str) -> (r: Result<bool, TaskError>)
        ensures
            match task_of(task@) {
                Some(t) => {
                    &&& r == Ok::<bool, TaskError>(fires(old(self)@, t))
                    &&& final(self)@ == next(old(self)@, t)
                },
                None => {
                    &&& r == Err::<bool, TaskError>(TaskError::InvalidTask)
                    &&& *final(self) == *old(self)
                },
            },
    {
        match task_from_name(task) {
            Some(t) => Ok(self.report(t)),
            None => Err(TaskError::InvalidTask),
        }
    }
}

} // verus!
