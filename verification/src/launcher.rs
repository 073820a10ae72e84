//! The launcher's protocol: it has the steps of a plan performed one after
//! the other, and stops at the first that fails. A failure never leads on to
//! the target program: the process releases the filter context, if it
//! holds one, and exits with the engine's failure status.

use vstd::prelude::*;
use crate::exit_code::UNKNOWN;
use crate::process::{
    directory_steps, filter_steps, launch_plan, limit_steps, redirect_steps, rule_steps, LaunchStep,
    LaunchStepView, ProcessView,
};

verus! {

/// What the launcher is waiting for.
#[derive(Debug, Clone, Copy, PartialEq, Eq, Structural)]
pub enum LaunchPhase {
    /// A step of the plan is being performed.
    Running,
    /// The filter context is being released after a failure.
    Releasing,
    /// The process is to exit; nothing more will be performed.
    Halted,
}

/// Where the launcher stands.
#[derive(Debug, Clone, Copy, PartialEq, Eq, Structural)]
pub struct LaunchState {
    pub phase: LaunchPhase,
    /// Index in the plan of the step that is being performed.
    pub index: usize,
    /// Whether the process held a filter context when that step began.
    pub filter_open: bool,
}

/// What the launcher asks the caller to do next.
#[derive(Debug, Clone, Copy, PartialEq, Eq, Structural)]
pub enum LaunchAction {
    /// Perform the step of the plan at `index` and report whether it
    /// succeeded.
    Perform { index: usize },
    /// Release the filter context and report back.
    Release,
    /// Exit with `status`.
    Exit { status: i32 },
}

/// Whether the process holds a filter context once the step in flight has
/// reported `succeeded`.
pub open spec fn context_after(plan: Seq<LaunchStepView>, state: LaunchState, succeeded: bool) -> bool {
    if state.index < plan.len() {
        match plan[state.index as int] {
            LaunchStepView::ReleaseFilter => false,
            LaunchStepView::InitFilter { .. } => succeeded || state.filter_open,
            _ => state.filter_open,
        }
    } else {
        state.filter_open
    }
}

/// Whether the launcher goes on to the next step of the plan: the step in
/// flight has succeeded, it was not the replacement of the process image
/// (from which no report comes back unless it failed), and the plan has a
/// step after it.
pub open spec fn goes_on(plan: Seq<LaunchStepView>, state: LaunchState, succeeded: bool) -> bool {
    &&& state.phase == LaunchPhase::Running
    &&& succeeded
    &&& state.index + 1 < plan.len()
    &&& plan[state.index as int] != LaunchStepView::Exec
}

/// The state and action that follow the report `succeeded` in `state`.
pub open spec fn advance_spec(plan: Seq<LaunchStepView>, state: LaunchState, succeeded: bool) -> (
    LaunchState,
    LaunchAction,
) {
    if goes_on(plan, state, succeeded) {
        (
            LaunchState {
                phase: LaunchPhase::Running,
                index: (state.index + 1) as usize,
                filter_open: context_after(plan, state, succeeded),
            },
            LaunchAction::Perform { index: (state.index + 1) as usize },
        )
    } else if state.phase == LaunchPhase::Running && context_after(plan, state, succeeded) {
        (
            LaunchState { phase: LaunchPhase::Releasing, index: state.index, filter_open: false },
            LaunchAction::Release,
        )
    } else {
        (
            LaunchState { phase: LaunchPhase::Halted, index: state.index, filter_open: false },
            LaunchAction::Exit { status: UNKNOWN },
        )
    }
}

/// The state and action with which the launcher sets out on `plan`.
pub open spec fn begin_spec(plan: Seq<LaunchStepView>) -> (LaunchState, LaunchAction) {
    if plan.len() > 0 {
        (
            LaunchState { phase: LaunchPhase::Running, index: 0, filter_open: false },
            LaunchAction::Perform { index: 0 },
        )
    } else {
        (
            LaunchState { phase: LaunchPhase::Halted, index: 0, filter_open: false },
            LaunchAction::Exit { status: UNKNOWN },
        )
    }
}

/// Sets out on `plan`: asks for its first step. A plan without steps has
/// nothing to run, and the process exits.
pub fn begin(plan: &Vec<LaunchStep>) -> (next: (LaunchState, LaunchAction))
    ensures
        next == begin_spec(plan.deep_view()),
{
    if plan.len() > 0 {
        (
            LaunchState { phase: LaunchPhase::Running, index: 0, filter_open: false },
            LaunchAction::Perform { index: 0 },
        )
    } else {
        (
            LaunchState { phase: LaunchPhase::Halted, index: 0, filter_open: false },
            LaunchAction::Exit { status: UNKNOWN },
        )
    }
}

/// Takes the report on the action that was asked for last, and decides what
/// happens next.
pub fn advance(plan: &Vec<LaunchStep>, state: LaunchState, succeeded: bool) -> (next: (
    LaunchState,
    LaunchAction,
))
    ensures
        next == advance_spec(plan.deep_view(), state, succeeded),
{
    let halted = (
        LaunchState { phase: LaunchPhase::Halted, index: state.index, filter_open: false },
        LaunchAction::Exit { status: UNKNOWN },
    );
    match state.phase {
        LaunchPhase::Running => {},
        _ => {
            return halted;
        },
    }
    let mut is_exec = false;
    let mut context = state.filter_open;
    if state.index < plan.len() {
        assert(plan.deep_view()[state.index as int] == plan[state.index as int].deep_view());
        match &plan[state.index] {
            LaunchStep::ReleaseFilter => {
                context = false;
            },
            LaunchStep::InitFilter { .. } => {
                context = succeeded || state.filter_open;
            },
            LaunchStep::Exec => {
                is_exec = true;
            },
            _ => {},
        }
    }
    if succeeded && !is_exec && state.index < plan.len() && state.index + 1 < plan.len() {
        (
            LaunchState { phase: LaunchPhase::Running, index: state.index + 1, filter_open: context },
            LaunchAction::Perform { index: state.index + 1 },
        )
    } else if context {
        (
            LaunchState { phase: LaunchPhase::Releasing, index: state.index, filter_open: false },
            LaunchAction::Release,
        )
    } else {
        halted
    }
}


/// The actions with which the launcher answers a series of reports, one
/// action for each report, when the first report finds it in `state`.
pub open spec fn answers(plan: Seq<LaunchStepView>, state: LaunchState, reports: Seq<bool>) -> Seq<
    LaunchAction,
>
    decreases reports.len(),
{
    if reports.len() == 0 {
        seq![]
    } else {
        let next = advance_spec(plan, state, reports[0]);
        seq![next.1] + answers(plan, next.0, reports.drop_first())
    }
}

/// Whether the process holds a filter context when the step at `index`
/// begins, all steps before it having succeeded.
pub open spec fn open_before(plan: Seq<LaunchStepView>, index: int) -> bool
    decreases index,
{
    if index <= 0 || index > plan.len() {
        false
    } else {
        match plan[index - 1] {
            LaunchStepView::ReleaseFilter => false,
            LaunchStepView::InitFilter { .. } => true,
            _ => open_before(plan, index - 1),
        }
    }
}

/// There is one answer for each report.
proof fn lemma_answers_len(plan: Seq<LaunchStepView>, state: LaunchState, reports: Seq<bool>)
    ensures
        answers(plan, state, reports).len() == reports.len(),
    decreases reports.len(),
{
    if reports.len() > 0 {
        lemma_answers_len(plan, advance_spec(plan, state, reports[0]).0, reports.drop_first());
    }
}

/// How the answer to a later report is found: as an answer to the reports
/// after the first, from the state that the first report leads to.
proof fn lemma_answers_step(
    plan: Seq<LaunchStepView>,
    state: LaunchState,
    reports: Seq<bool>,
    k: int,
)
    requires
        0 <= k < reports.len(),
    ensures
        answers(plan, state, reports).len() == reports.len(),
        k == 0 ==> answers(plan, state, reports)[k] == advance_spec(plan, state, reports[0]).1,
        k > 0 ==> answers(plan, state, reports)[k] == answers(
            plan,
            advance_spec(plan, state, reports[0]).0,
            reports.drop_first(),
        )[k - 1],
{
    lemma_answers_len(plan, state, reports);
    lemma_answers_len(plan, advance_spec(plan, state, reports[0]).0, reports.drop_first());
}

/// A launcher that no longer runs a step answers every report by asking
/// for the exit.
proof fn lemma_stopped(plan: Seq<LaunchStepView>, state: LaunchState, reports: Seq<bool>, k: int)
    requires
        state.phase != LaunchPhase::Running,
        0 <= k < reports.len(),
    ensures
        answers(plan, state, reports)[k] == (LaunchAction::Exit { status: UNKNOWN }),
    decreases reports.len(),
{
    lemma_answers_step(plan, state, reports, k);
    if k > 0 {
        lemma_stopped(plan, advance_spec(plan, state, reports[0]).0, reports.drop_first(), k - 1);
    }
}

/// Whether the first `count` reports say that the steps from `first` on
/// succeeded, none of which replaces the process image.
pub open spec fn all_succeeded(
    plan: Seq<LaunchStepView>,
    first: int,
    reports: Seq<bool>,
    count: int,
) -> bool {
    forall|j: int|
        0 <= j < count ==> #[trigger] reports[j] && plan[first + j] != LaunchStepView::Exec
}

/// The reports after the first speak of the steps after the first.
proof fn lemma_all_succeeded_rest(
    plan: Seq<LaunchStepView>,
    first: int,
    reports: Seq<bool>,
    count: int,
)
    requires
        0 < count <= reports.len(),
    ensures
        all_succeeded(plan, first, reports, count) <==> reports[0] && plan[first]
            != LaunchStepView::Exec && all_succeeded(
            plan,
            first + 1,
            reports.drop_first(),
            count - 1,
        ),
{
    let rest = reports.drop_first();
    if all_succeeded(plan, first, reports, count) {
        assert(reports[0] && plan[first + 0] != LaunchStepView::Exec);
        assert forall|j: int| 0 <= j < count - 1 implies #[trigger] rest[j] && plan[first + 1 + j]
            != LaunchStepView::Exec by {
            let after = j + 1;
            assert(0 <= after < count);
            assert(rest[j] == reports[after]);
            assert(reports[after] && plan[first + after] != LaunchStepView::Exec);
        }
    }
    if reports[0] && plan[first] != LaunchStepView::Exec && all_succeeded(
        plan,
        first + 1,
        rest,
        count - 1,
    ) {
        assert forall|j: int| 0 <= j < count implies #[trigger] reports[j] && plan[first + j]
            != LaunchStepView::Exec by {
            if j > 0 {
                let before = j - 1;
                assert(0 <= before < count - 1);
                assert(rest[before] == reports[j]);
                assert(rest[before] && plan[first + 1 + before] != LaunchStepView::Exec);
            }
        }
    }
}

/// A launcher that runs a step asks for a later one only after all the
/// steps between have succeeded.
proof fn lemma_running_perform(
    plan: Seq<LaunchStepView>,
    state: LaunchState,
    reports: Seq<bool>,
    k: int,
)
    requires
        plan.len() <= usize::MAX,
        state.phase == LaunchPhase::Running,
        0 <= k < reports.len(),
    ensures
        answers(plan, state, reports)[k] matches LaunchAction::Perform { index } ==> {
            &&& index == state.index + k + 1
            &&& index < plan.len()
            &&& all_succeeded(plan, state.index as int, reports, k + 1)
        },
    decreases reports.len(),
{
    lemma_answers_step(plan, state, reports, k);
    let next = advance_spec(plan, state, reports[0]).0;
    let rest = reports.drop_first();
    lemma_all_succeeded_rest(plan, state.index as int, reports, k + 1);
    if k > 0 {
        if goes_on(plan, state, reports[0]) {
            lemma_running_perform(plan, next, rest, k - 1);
        } else {
            lemma_stopped(plan, next, rest, k - 1);
        }
    }
}

/// What a launcher that runs a step answers to the first report of a
/// failure.
proof fn lemma_running_failure(
    plan: Seq<LaunchStepView>,
    state: LaunchState,
    reports: Seq<bool>,
    k: int,
)
    requires
        plan.len() <= usize::MAX,
        state.phase == LaunchPhase::Running,
        state.filter_open == open_before(plan, state.index as int),
        0 <= k < reports.len(),
        state.index + k < plan.len(),
        all_succeeded(plan, state.index as int, reports, k),
        !reports[k],
    ensures
        answers(plan, state, reports)[k] == (if open_before(plan, state.index + k) && plan[state.index
            + k] != LaunchStepView::ReleaseFilter {
            LaunchAction::Release
        } else {
            LaunchAction::Exit { status: UNKNOWN }
        }),
    decreases reports.len(),
{
    lemma_answers_step(plan, state, reports, k);
    let next = advance_spec(plan, state, reports[0]).0;
    let rest = reports.drop_first();
    if k > 0 {
        lemma_all_succeeded_rest(plan, state.index as int, reports, k);
        assert(goes_on(plan, state, reports[0]));
        assert(next.filter_open == open_before(plan, next.index as int));
        lemma_running_failure(plan, next, rest, k - 1);
    }
}

/// A launcher that runs a step asks for the exit in answer to every
/// report after one of a failure.
proof fn lemma_running_after_failure(
    plan: Seq<LaunchStepView>,
    state: LaunchState,
    reports: Seq<bool>,
    j: int,
    k: int,
)
    requires
        plan.len() <= usize::MAX,
        0 <= j < k < reports.len(),
        !reports[j],
    ensures
        answers(plan, state, reports)[k] == (LaunchAction::Exit { status: UNKNOWN }),
    decreases reports.len(),
{
    lemma_answers_step(plan, state, reports, k);
    let next = advance_spec(plan, state, reports[0]).0;
    let rest = reports.drop_first();
    if j == 0 {
        if next.phase == LaunchPhase::Running {
            assert(false);
        }
        lemma_stopped(plan, next, rest, k - 1);
    } else {
        lemma_running_after_failure(plan, next, rest, j - 1, k - 1);
    }
}

/// The launcher fails closed. It asks for a step of the plan only when
/// every step before it was performed and reported success, and none of
/// them was the replacement of the process image. So the target program
/// is never reached past a step that failed.
pub proof fn step_follows_success_of_all_before(
    plan: Seq<LaunchStepView>,
    reports: Seq<bool>,
    k: int,
)
    requires
        plan.len() <= usize::MAX,
        0 <= k < reports.len(),
    ensures
        answers(plan, begin_spec(plan).0, reports)[k] matches LaunchAction::Perform { index } ==> {
            &&& index == k + 1
            &&& index < plan.len()
            &&& all_succeeded(plan, 0, reports, k + 1)
        },
{
    let state = begin_spec(plan).0;
    if plan.len() > 0 {
        lemma_running_perform(plan, state, reports, k);
    } else {
        lemma_stopped(plan, state, reports, k);
    }
}

/// The first failure ends the launch. The launcher answers it by asking
/// for the release of the filter context, if the process holds one and
/// the failed step was not itself the release, and else for the exit with
/// the engine's failure status.
pub proof fn first_failure_releases_or_exits(plan: Seq<LaunchStepView>, reports: Seq<bool>, k: int)
    requires
        plan.len() <= usize::MAX,
        0 <= k < reports.len(),
        k < plan.len(),
        all_succeeded(plan, 0, reports, k),
        !reports[k],
    ensures
        answers(plan, begin_spec(plan).0, reports)[k] == (if open_before(plan, k) && plan[k]
            != LaunchStepView::ReleaseFilter {
            LaunchAction::Release
        } else {
            LaunchAction::Exit { status: UNKNOWN }
        }),
{
    lemma_running_failure(plan, begin_spec(plan).0, reports, k);
}

/// After a failure nothing more is performed: every later report is
/// answered by asking for the exit with the engine's failure status.
pub proof fn failure_is_final(plan: Seq<LaunchStepView>, reports: Seq<bool>, j: int, k: int)
    requires
        plan.len() <= usize::MAX,
        0 <= j < k < reports.len(),
        !reports[j],
    ensures
        answers(plan, begin_spec(plan).0, reports)[k] == (LaunchAction::Exit { status: UNKNOWN }),
{
    lemma_running_after_failure(plan, begin_spec(plan).0, reports, j, k);
}


/// No context is held before the first step that creates one.
proof fn lemma_closed_before_init(plan: Seq<LaunchStepView>, i: int)
    requires
        0 <= i <= plan.len(),
        forall|k: int| 0 <= k < i ==> !(#[trigger] plan[k] is InitFilter),
    ensures
        !open_before(plan, i),
    decreases i,
{
    if i > 0 {
        assert(!(plan[i - 1] is InitFilter));
        lemma_closed_before_init(plan, i - 1);
    }
}

/// The context is held from the step after its creation up to the step
/// that releases it.
proof fn lemma_open_after_init(plan: Seq<LaunchStepView>, init: int, i: int)
    requires
        0 <= init < i <= plan.len(),
        plan[init] is InitFilter,
        forall|k: int| init < k < i ==> !(#[trigger] plan[k] is ReleaseFilter),
    ensures
        open_before(plan, i),
    decreases i,
{
    if i - 1 > init {
        assert(!(plan[i - 1] is ReleaseFilter));
        lemma_open_after_init(plan, init, i - 1);
    }
}

/// In a launch plan the process holds a filter context exactly while the
/// policy is being installed: when a rule is added, when the context is
/// loaded and when it is released. The replacement of the process image
/// begins without one.
pub proof fn context_is_held_only_while_installing(process: ProcessView, i: int)
    requires
        0 <= i < launch_plan(process).len(),
    ensures
        open_before(launch_plan(process), i) <==> {
            ||| launch_plan(process)[i] is AddRule
            ||| launch_plan(process)[i] is LoadFilter
            ||| launch_plan(process)[i] is ReleaseFilter
        },
{
    let before = limit_steps(process.limits) + directory_steps(process.dir) + redirect_steps(
        process.stdin,
        process.stdout,
    );
    let filter = filter_steps(process.syscall_filters);
    let plan = launch_plan(process);
    let start = before.len() as int;
    assert(plan =~= before + filter + seq![LaunchStepView::Exec]);
    assert forall|k: int| 0 <= k < start implies {
        &&& !(#[trigger] plan[k] is InitFilter)
        &&& !(plan[k] is AddRule)
        &&& !(plan[k] is LoadFilter)
        &&& !(plan[k] is ReleaseFilter)
    } by {
        assert(plan[k] == before[k]);
        let limits = limit_steps(process.limits);
        let directory = directory_steps(process.dir);
        let redirect = redirect_steps(process.stdin, process.stdout);
        if k < limits.len() {
            assert(before[k] == limits[k]);
        } else if k < limits.len() + directory.len() {
            assert(before[k] == directory[k - limits.len()]);
        } else {
            assert(before[k] == redirect[k - limits.len() - directory.len()]);
        }
    }
    match process.syscall_filters {
        Some(policy) => {
            let rules = rule_steps(policy.rules);
            let count = rules.len() as int;
            assert(filter.len() == count + 3);
            assert(plan[start] is InitFilter) by {
                assert(plan[start] == filter[0]);
            }
            assert forall|k: int| start < k <= start + count implies #[trigger] plan[k] is AddRule by {
                assert(plan[k] == filter[k - start]);
                assert(filter[k - start] == rules[k - start - 1]);
            }
            assert(plan[start + count + 1] is LoadFilter) by {
                assert(plan[start + count + 1] == filter[count + 1]);
            }
            assert(plan[start + count + 2] is ReleaseFilter) by {
                assert(plan[start + count + 2] == filter[count + 2]);
            }
            assert(plan[start + count + 3] is Exec);
            if i <= start {
                lemma_closed_before_init(plan, i);
            } else if i <= start + count + 2 {
                assert forall|k: int| start < k < i implies !(#[trigger] plan[k] is ReleaseFilter) by {
                    if k <= start + count {
                        assert(plan[k] is AddRule);
                    }
                }
                lemma_open_after_init(plan, start, i);
            }
        },
        None => {
            assert(filter.len() == 0);
            lemma_closed_before_init(plan, i);
            if i < start {
                assert(!(plan[i] is InitFilter));
            }
        },
    }
}

} // verus!
