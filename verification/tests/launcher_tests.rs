use sandbox::exit_code::UNKNOWN;
use sandbox::launcher::{advance, begin, LaunchAction, LaunchPhase, LaunchState};
use sandbox::process::{Directory, LaunchStep, Process, Resource};
use sandbox::seccomp::{SyscallFilter, SyscallFilterAction};

/// Runs the launcher against `reports`, one for each action that asks for
/// one, and returns every action it asked for.
fn drive(plan: &Vec<LaunchStep>, reports: &[bool]) -> Vec<LaunchAction> {
    let (mut state, mut action) = begin(plan);
    let mut actions = vec![action];
    for report in reports {
        let next = advance(plan, state, *report);
        state = next.0;
        action = next.1;
        actions.push(action);
    }
    actions
}

fn small_policy_plan() -> Vec<LaunchStep> {
    let mut process = Process::new("/bin/true".to_string()).dir(Directory {
        working_dir: None,
        root_dir: Some("/sandbox".to_string()),
    });
    let mut filter = SyscallFilter::default();
    filter
        .default_action(SyscallFilterAction::Allow)
        .add("fork", SyscallFilterAction::Kill)
        .add("vfork", SyscallFilterAction::Kill);
    process.syscall_filters = Some(filter);
    // 0 core dump, 1 root, 2 init, 3 fork, 4 vfork, 5 load, 6 release, 7 exec
    process.plan()
}

const EXIT: LaunchAction = LaunchAction::Exit { status: 50000 };

#[test]
fn the_failure_status_lies_outside_the_exit_codes() {
    assert_eq!(UNKNOWN, 50000);
    assert!(UNKNOWN > 255);
}

#[test]
fn an_empty_plan_exits_at_once() {
    let plan = Vec::new();
    assert_eq!(
        begin(&plan),
        (LaunchState { phase: LaunchPhase::Halted, index: 0, filter_open: false }, EXIT)
    );
    assert_eq!(drive(&plan, &[true, true]), vec![EXIT, EXIT, EXIT]);
}

#[test]
fn the_steps_are_performed_in_order_while_they_succeed() {
    let plan = small_policy_plan();
    assert_eq!(plan.len(), 8);
    assert_eq!(plan[7], LaunchStep::Exec);
    let actions = drive(&plan, &[true; 7]);
    let expected: Vec<LaunchAction> = (0..8).map(|index| LaunchAction::Perform { index }).collect();
    assert_eq!(actions, expected);
}

#[test]
fn a_failed_limit_exits_without_going_on() {
    let plan = small_policy_plan();
    assert_eq!(plan[0], LaunchStep::SetLimit { resource: Resource::CoreDump, value: 0 });
    assert_eq!(drive(&plan, &[false, true, true]), vec![LaunchAction::Perform { index: 0 }, EXIT, EXIT, EXIT]);
}

#[test]
fn a_failed_change_of_root_exits_without_going_on() {
    let plan = small_policy_plan();
    assert_eq!(
        drive(&plan, &[true, false, true]),
        vec![LaunchAction::Perform { index: 0 }, LaunchAction::Perform { index: 1 }, EXIT, EXIT]
    );
}

#[test]
fn a_filter_that_cannot_be_created_leaves_nothing_to_release() {
    let plan = small_policy_plan();
    assert!(matches!(plan[2], LaunchStep::InitFilter { default_action: 0x7fff_0000 }));
    let actions = drive(&plan, &[true, true, false, true]);
    assert_eq!(&actions[3..], &[EXIT, EXIT]);
}

#[test]
fn a_failed_rule_releases_the_filter_and_exits() {
    let plan = small_policy_plan();
    let actions = drive(&plan, &[true, true, true, true, false, true, true]);
    assert_eq!(
        actions,
        vec![
            LaunchAction::Perform { index: 0 },
            LaunchAction::Perform { index: 1 },
            LaunchAction::Perform { index: 2 },
            LaunchAction::Perform { index: 3 },
            LaunchAction::Perform { index: 4 },
            LaunchAction::Release,
            EXIT,
            EXIT,
        ]
    );
}

#[test]
fn a_failed_load_releases_the_filter_and_exits() {
    let plan = small_policy_plan();
    let actions = drive(&plan, &[true, true, true, true, true, false, false]);
    assert_eq!(&actions[5..], &[LaunchAction::Perform { index: 5 }, LaunchAction::Release, EXIT]);
}

#[test]
fn a_failed_release_is_not_tried_again() {
    let plan = small_policy_plan();
    let actions = drive(&plan, &[true, true, true, true, true, true, false]);
    assert_eq!(&actions[6..], &[LaunchAction::Perform { index: 6 }, EXIT]);
}

#[test]
fn an_exec_that_comes_back_has_failed() {
    let plan = small_policy_plan();
    let failed = drive(&plan, &[true, true, true, true, true, true, true, false]);
    assert_eq!(&failed[7..], &[LaunchAction::Perform { index: 7 }, EXIT]);
    let returned = drive(&plan, &[true, true, true, true, true, true, true, true]);
    assert_eq!(&returned[7..], &[LaunchAction::Perform { index: 7 }, EXIT]);
}

#[test]
fn the_state_counts_the_steps_and_knows_of_the_filter() {
    let plan = small_policy_plan();
    let (state, _) = begin(&plan);
    assert_eq!(state, LaunchState { phase: LaunchPhase::Running, index: 0, filter_open: false });
    let (state, _) = advance(&plan, state, true);
    let (state, _) = advance(&plan, state, true);
    assert_eq!(state, LaunchState { phase: LaunchPhase::Running, index: 2, filter_open: false });
    let (state, _) = advance(&plan, state, true);
    assert_eq!(state, LaunchState { phase: LaunchPhase::Running, index: 3, filter_open: true });
    let (state, action) = advance(&plan, state, false);
    assert_eq!(state, LaunchState { phase: LaunchPhase::Releasing, index: 3, filter_open: false });
    assert_eq!(action, LaunchAction::Release);
    let (state, action) = advance(&plan, state, true);
    assert_eq!(state, LaunchState { phase: LaunchPhase::Halted, index: 3, filter_open: false });
    assert_eq!(action, EXIT);
}

#[test]
fn a_plan_that_ends_without_exec_exits() {
    let plan = vec![LaunchStep::SetLimit { resource: Resource::CPUTime, value: 1 }];
    assert_eq!(drive(&plan, &[true]), vec![LaunchAction::Perform { index: 0 }, EXIT]);
    let open = vec![LaunchStep::InitFilter { default_action: 0 }];
    assert_eq!(
        drive(&open, &[true, true]),
        vec![LaunchAction::Perform { index: 0 }, LaunchAction::Release, EXIT]
    );
}

#[test]
fn a_state_beyond_the_plan_exits() {
    let plan = small_policy_plan();
    let beyond = LaunchState { phase: LaunchPhase::Running, index: 99, filter_open: false };
    assert_eq!(advance(&plan, beyond, true).1, EXIT);
    let holding = LaunchState { phase: LaunchPhase::Running, index: 99, filter_open: true };
    assert_eq!(advance(&plan, holding, true).1, LaunchAction::Release);
}
