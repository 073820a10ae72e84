use sandbox::command::{compile, run, CompileOption, RunOption};
use sandbox::executor::{prepare, ExecuteOption, ExecutionRequest, ResourceLimit};
use sandbox::process::{Directory, LaunchStep, Process, Resource};
use sandbox::seccomp::{SyscallFilter, SyscallFilterAction};

fn strings(texts: &[&str]) -> Vec<String> {
    texts.iter().map(|text| text.to_string()).collect()
}

fn confined() -> Directory {
    Directory { working_dir: Some("/work".to_string()), root_dir: Some("/sandbox".to_string()) }
}

#[test]
fn working_dir_is_looked_up_below_the_new_root() {
    assert_eq!(confined().effective_working_dir(), Some("/sandbox/work".to_string()));
}

#[test]
fn working_dir_without_a_root_is_taken_as_it_is() {
    let directory = Directory { working_dir: Some("/work".to_string()), root_dir: None };
    assert_eq!(directory.effective_working_dir(), Some("/work".to_string()));
}

#[test]
fn the_configuration_does_not_place_a_relative_or_absent_working_dir() {
    let relative = Directory { working_dir: Some("work".to_string()), root_dir: Some("/sandbox".to_string()) };
    assert_eq!(relative.effective_working_dir(), None);
    let empty = Directory { working_dir: Some(String::new()), root_dir: None };
    assert_eq!(empty.effective_working_dir(), None);
    let root_only = Directory { working_dir: None, root_dir: Some("/sandbox".to_string()) };
    assert_eq!(root_only.effective_working_dir(), None);
    let nothing = Directory { working_dir: None, root_dir: None };
    assert_eq!(nothing.effective_working_dir(), None);
}

#[test]
fn a_new_process_has_nothing_set() {
    let process = Process::new("/bin/true".to_string());
    assert_eq!(
        process,
        Process {
            path: "/bin/true".to_string(),
            args: Vec::new(),
            envs: None,
            limits: Vec::new(),
            dir: None,
            stdin: None,
            stdout: None,
            syscall_filters: None,
        }
    );
}

#[test]
fn the_builder_sets_one_thing_at_a_time() {
    let process = Process::new("/bin/echo".to_string())
        .args(vec!["echo", "hello"])
        .envs(strings(&["LANG=C"]))
        .limit(Resource::CPUTime, 1)
        .limit(Resource::AddressSpace, 4096)
        .dir(confined())
        .stdin("in.txt".to_string())
        .stdout("out.txt".to_string())
        .use_syscall_filter(true);
    assert_eq!(process.path, "/bin/echo");
    assert_eq!(process.args, strings(&["echo", "hello"]));
    assert_eq!(process.envs, Some(strings(&["LANG=C"])));
    assert_eq!(process.limits, vec![(Resource::CPUTime, 1), (Resource::AddressSpace, 4096)]);
    assert_eq!(process.dir, Some(confined()));
    assert_eq!(process.stdin, Some("in.txt".to_string()));
    assert_eq!(process.stdout, Some("out.txt".to_string()));
    assert_eq!(process.syscall_filters, Some(SyscallFilter::new()));
    let without = process.use_syscall_filter(false);
    assert_eq!(without.syscall_filters, None);
    assert_eq!(without.args, strings(&["echo", "hello"]));
}

#[test]
fn the_plan_of_a_bare_process_zeroes_core_dumps_and_executes() {
    let plan = Process::new("/bin/true".to_string()).plan();
    assert_eq!(
        plan,
        vec![LaunchStep::SetLimit { resource: Resource::CoreDump, value: 0 }, LaunchStep::Exec]
    );
}

#[test]
fn core_dumps_are_zeroed_after_whatever_was_asked_for() {
    let plan = Process::new("/bin/true".to_string()).limit(Resource::CoreDump, 1 << 20).plan();
    assert_eq!(
        plan,
        vec![
            LaunchStep::SetLimit { resource: Resource::CoreDump, value: 1 << 20 },
            LaunchStep::SetLimit { resource: Resource::CoreDump, value: 0 },
            LaunchStep::Exec,
        ]
    );
}

#[test]
fn the_root_is_changed_before_the_working_dir() {
    let plan = Process::new("/bin/true".to_string()).dir(confined()).plan();
    assert_eq!(
        plan,
        vec![
            LaunchStep::SetLimit { resource: Resource::CoreDump, value: 0 },
            LaunchStep::ChangeRoot { path: "/sandbox".to_string() },
            LaunchStep::ChangeDir { path: "/work".to_string() },
            LaunchStep::Exec,
        ]
    );
}

#[test]
fn a_policy_is_created_filled_loaded_and_released() {
    let mut process = Process::new("/bin/true".to_string());
    let mut filter = SyscallFilter::default();
    filter.add("fork", SyscallFilterAction::Allow).add("fork", SyscallFilterAction::Errno(0x50001));
    process.syscall_filters = Some(filter);
    assert_eq!(
        process.plan(),
        vec![
            LaunchStep::SetLimit { resource: Resource::CoreDump, value: 0 },
            LaunchStep::InitFilter { default_action: 0 },
            LaunchStep::AddRule { syscall: "fork".to_string(), action: 0x7fff_0000 },
            LaunchStep::AddRule { syscall: "fork".to_string(), action: 0x50001 },
            LaunchStep::LoadFilter,
            LaunchStep::ReleaseFilter,
            LaunchStep::Exec,
        ]
    );
}

#[test]
fn the_plan_of_a_run_is_in_the_order_of_the_set_up() {
    let request = run(RunOption {
        language: "c".to_string(),
        file_path: "./main".to_string(),
        input_path: Some("1.in".to_string()),
        output_path: Some("1.out".to_string()),
        answer_path: Some("1.ans".to_string()),
        time_limit: 2,
        memory_limit: 262144000,
        envs: Vec::new(),
        directory: confined(),
    })
    .unwrap();
    let process = prepare(request);
    assert_eq!(process.path, "./main");
    assert_eq!(process.args, strings(&["./main"]));
    assert_eq!(process.envs, Some(Vec::new()));
    let plan = process.plan();
    assert_eq!(plan.len(), 3 + 2 + 2 + 1 + 54 + 2 + 1);
    assert_eq!(
        &plan[..8],
        &[
            LaunchStep::SetLimit { resource: Resource::AddressSpace, value: 262144000 },
            LaunchStep::SetLimit { resource: Resource::CPUTime, value: 2 },
            LaunchStep::SetLimit { resource: Resource::CoreDump, value: 0 },
            LaunchStep::ChangeRoot { path: "/sandbox".to_string() },
            LaunchStep::ChangeDir { path: "/work".to_string() },
            LaunchStep::RedirectStdin { path: "1.in".to_string() },
            LaunchStep::RedirectStdout { path: "1.out".to_string() },
            LaunchStep::InitFilter { default_action: 0x7fff_0000 },
        ]
    );
    assert_eq!(plan[8], LaunchStep::AddRule { syscall: "_sysctl".to_string(), action: 0 });
    assert_eq!(plan[61], LaunchStep::AddRule { syscall: "vfork".to_string(), action: 0 });
    assert_eq!(&plan[62..], &[LaunchStep::LoadFilter, LaunchStep::ReleaseFilter, LaunchStep::Exec]);
}

#[test]
fn the_plan_of_a_compilation_has_no_confinement() {
    let request = compile(CompileOption {
        language: "cpp".to_string(),
        input_path: "a.cpp".to_string(),
        output_path: "a".to_string(),
    })
    .unwrap();
    let process = prepare(request);
    assert_eq!(process.path, "/usr/bin/g++");
    assert_eq!(process.envs, None);
    assert_eq!(process.limits, Vec::new());
    assert_eq!(
        process.plan(),
        vec![LaunchStep::SetLimit { resource: Resource::CoreDump, value: 0 }, LaunchStep::Exec]
    );
}

#[test]
fn prepare_names_the_limits_of_the_request() {
    let process = prepare(ExecutionRequest {
        binary: "/bin/cat".to_string(),
        args: strings(&["cat", "-"]),
        option: ExecuteOption {
            envs: Some(strings(&["A=1"])),
            limits: Some(ResourceLimit { memory: 1 << 30, time: 5 }),
            input_path: Some("in".to_string()),
            output_path: None,
            answer_path: Some("answer".to_string()),
            directory: None,
            use_syscall: false,
        },
    });
    assert_eq!(
        process,
        Process {
            path: "/bin/cat".to_string(),
            args: strings(&["cat", "-"]),
            envs: Some(strings(&["A=1"])),
            limits: vec![(Resource::AddressSpace, 1 << 30), (Resource::CPUTime, 5)],
            dir: None,
            stdin: Some("in".to_string()),
            stdout: None,
            syscall_filters: None,
        }
    );
}
