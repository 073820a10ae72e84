use sandbox::command::{compile, run, CompileOption, RunOption};
use sandbox::executor::{
    prepare, supervise, ExecutionRequest, ResourceUsage, SupervisorAction, SupervisorEvent,
    SupervisorState,
};
use sandbox::judge::{judge, ResultKind};
use sandbox::launcher::{advance, begin, LaunchAction};
use sandbox::process::{Directory, LaunchStep, Resource};

/// What the simulated child does once its image is replaced.
struct Program {
    /// Raw status it ends with.
    status: i32,
    /// Polls that find it still running.
    polls_while_running: u32,
    /// Usage sample taken after its end: seconds, microseconds, kilobytes.
    user_secs: i64,
    user_micros: i64,
    peak_kilobytes: i64,
}

/// Plays the launcher in the child with every step succeeding, and checks
/// that it arrives at the replacement of the process image.
fn launch_succeeds(request: ExecutionRequest) -> Vec<LaunchStep> {
    let process = prepare(request);
    let plan = process.plan();
    let (mut state, mut action) = begin(&plan);
    let mut performed = Vec::new();
    loop {
        match action {
            LaunchAction::Perform { index } => {
                performed.push(plan[index].clone());
                if plan[index] == LaunchStep::Exec {
                    return performed;
                }
            }
            other => panic!("the launch stopped with {:?}", other),
        }
        let next = advance(&plan, state, true);
        state = next.0;
        action = next.1;
    }
}

/// Plays the supervisor in the parent against a simulated child and returns
/// the status and the usage that it finishes with.
fn supervise_child(program: &Program) -> (i32, ResourceUsage) {
    let child = 4242;
    let (state, action) = supervise(SupervisorState::Idle, SupervisorEvent::Begin);
    assert_eq!(action, SupervisorAction::Fork);
    let (mut state, mut action) = supervise(state, SupervisorEvent::ForkedParent { child });
    let mut polls = 0;
    loop {
        let event = match action {
            SupervisorAction::Poll { child: asked } => {
                assert_eq!(asked, child);
                polls += 1;
                if polls <= program.polls_while_running {
                    let so_far = ResourceUsage::from_sample(0, 0, 0, 0, 0).unwrap();
                    SupervisorEvent::Polled { wait_result: 0, status: 0, usage: so_far }
                } else {
                    let usage = ResourceUsage::from_sample(
                        program.user_secs,
                        program.user_micros,
                        0,
                        0,
                        program.peak_kilobytes,
                    )
                    .unwrap();
                    SupervisorEvent::Polled { wait_result: child, status: program.status, usage }
                }
            }
            SupervisorAction::Sleep { micros } => {
                assert_eq!(micros, 10000);
                SupervisorEvent::Slept
            }
            SupervisorAction::Finish { status, usage } => {
                assert_eq!(polls, program.polls_while_running + 1);
                return (status, usage);
            }
            other => panic!("the supervisor asked for {:?}", other),
        };
        let next = supervise(state, event);
        state = next.0;
        action = next.1;
    }
}

/// Runs a program written in C under a memory limit in bytes and a time
/// limit in seconds, and judges what it wrote against `answer`.
fn run_and_judge(
    memory_limit: u64,
    time_limit: u64,
    program: &Program,
    output: &[u8],
    answer: &[u8],
) -> ResultKind {
    let compilation = compile(CompileOption {
        language: "c".to_string(),
        input_path: "main.c".to_string(),
        output_path: "main".to_string(),
    })
    .unwrap();
    assert_eq!(compilation.binary, "/usr/bin/gcc");
    assert_eq!(compilation.args[1], "main.c");
    assert_eq!(compilation.args[6], "main");
    let compiler_steps = launch_succeeds(compilation);
    assert_eq!(compiler_steps.last(), Some(&LaunchStep::Exec));

    let request = run(RunOption {
        language: "c".to_string(),
        file_path: "main".to_string(),
        input_path: None,
        output_path: Some("main.out".to_string()),
        answer_path: Some("main.ans".to_string()),
        time_limit,
        memory_limit,
        envs: Vec::new(),
        directory: Directory { working_dir: None, root_dir: None },
    })
    .unwrap();
    let option = request.option.clone();
    let steps = launch_succeeds(request);
    assert_eq!(steps[0], LaunchStep::SetLimit { resource: Resource::AddressSpace, value: memory_limit });
    assert_eq!(steps[1], LaunchStep::SetLimit { resource: Resource::CPUTime, value: time_limit });
    assert_eq!(steps[2], LaunchStep::SetLimit { resource: Resource::CoreDump, value: 0 });
    assert_eq!(steps[3], LaunchStep::RedirectStdout { path: "main.out".to_string() });

    let (status, usage) = supervise_child(program);
    let judge_option = option.judge_option().unwrap();
    judge(status, usage, judge_option, output, answer).result
}

#[test]
fn a_program_that_prints_the_answer_is_accepted() {
    let program = Program {
        status: 0,
        polls_while_running: 1,
        user_secs: 0,
        user_micros: 900,
        peak_kilobytes: 1400,
    };
    assert_eq!(run_and_judge(262144000, 2, &program, b"5\n", b"5\n"), ResultKind::Accepted);
}

#[test]
fn a_program_that_prints_another_number_gets_wrong_answer() {
    let program = Program {
        status: 0,
        polls_while_running: 0,
        user_secs: 0,
        user_micros: 900,
        peak_kilobytes: 1400,
    };
    assert_eq!(run_and_judge(262144000, 2, &program, b"6\n", b"5\n"), ResultKind::WrongAnswer);
}

#[test]
fn a_program_that_loops_forever_gets_time_limit_exceeded() {
    // The kernel kills it once it has used up its second of processor time.
    let program = Program {
        status: 9,
        polls_while_running: 100,
        user_secs: 1,
        user_micros: 3000,
        peak_kilobytes: 1200,
    };
    assert_eq!(run_and_judge(262144000, 1, &program, b"", b"5\n"), ResultKind::TimeLimitExceeded);
}

#[test]
fn a_program_that_allocates_too_much_gets_memory_limit_exceeded() {
    let program = Program {
        status: 11,
        polls_while_running: 3,
        user_secs: 0,
        user_micros: 50_000,
        peak_kilobytes: 256_001,
    };
    assert_eq!(run_and_judge(262144000, 2, &program, b"", b"5\n"), ResultKind::MemoryLimitExceeded);
}

#[test]
fn a_program_that_crashes_gets_runtime_error() {
    let program = Program {
        status: 139,
        polls_while_running: 2,
        user_secs: 0,
        user_micros: 100,
        peak_kilobytes: 800,
    };
    assert_eq!(run_and_judge(262144000, 2, &program, b"5\n", b"5\n"), ResultKind::RuntimeError);
}
