//! The confined process: what is to run, under which limits and in which
//! confinement, and the ordered steps that set it up before the target
//! program replaces the process image.

use vstd::prelude::*;
use vstd::string::*;
use crate::seccomp::{RuleView, SyscallFilter, SyscallFilterAction, SyscallFilterView};

verus! {

/// A resource that the operating system caps for a process.
#[derive(Debug, Clone, Copy, PartialEq, Eq, Structural)]
pub enum Resource {
    /// Size of the address space, in bytes.
    AddressSpace,
    /// Processor time, in seconds.
    CPUTime,
    /// Size of a core dump, in bytes.
    CoreDump,
}

impl DeepView for Resource {
    type V = Resource;

    open spec fn deep_view(&self) -> Resource {
        *self
    }
}

/// Directory confinement: an optional change of the filesystem root and an
/// optional change of the working directory.
#[derive(Debug, Clone, PartialEq, Eq)]
pub struct Directory {
    pub working_dir: Option<String>,
    pub root_dir: Option<String>,
}

/// A `Directory` as contracts see it.
pub struct DirectoryView {
    pub working_dir: Option<Seq<char>>,
    pub root_dir: Option<Seq<char>>,
}

impl DeepView for Directory {
    type V = DirectoryView;

    open spec fn deep_view(&self) -> DirectoryView {
        DirectoryView {
            working_dir: self.working_dir.deep_view(),
            root_dir: self.root_dir.deep_view(),
        }
    }
}

/// Whether `path` starts at the root.
pub open spec fn is_absolute(path: Seq<char>) -> bool {
    path.len() > 0 && path[0] == '/'
}

impl DirectoryView {
    /// Where the process ends up, as a path of the filesystem before the
    /// confinement, as far as the configuration alone decides it. The root is
    /// changed first, so an absolute working directory lies below the new
    /// root. A relative one, or none, leaves the process where its inherited
    /// directory puts it, which the configuration does not say.
    pub open spec fn effective_working_dir(self) -> Option<Seq<char>> {
        match self.working_dir {
            Some(dir) if is_absolute(dir) => match self.root_dir {
                Some(root) => Some(root + dir),
                None => Some(dir),
            },
            _ => None,
        }
    }
}

impl Directory {
    /// Where the process ends up, seen from outside the confinement.
    pub fn effective_working_dir(&self) -> (path: Option<String>)
        ensures
            path.deep_view() == self.deep_view().effective_working_dir(),
    {
        match &self.working_dir {
            Some(dir) => {
                if dir.as_str().is_empty() {
                    return None;
                }
                if dir.as_str().get_char(0) != '/' {
                    return None;
                }
                match &self.root_dir {
                    Some(root) => Some(root.clone().concat(dir.as_str())),
                    None => Some(dir.clone()),
                }
            },
            None => None,
        }
    }
}

/// One step of setting up the confined process.
#[derive(Debug, Clone, PartialEq, Eq)]
pub enum LaunchStep {
    /// Cap `resource` at `value`, as soft and as hard limit.
    SetLimit { resource: Resource, value: u64 },
    /// Make `path` the root of the filesystem.
    ChangeRoot { path: String },
    /// Make `path` the working directory.
    ChangeDir { path: String },
    /// Read standard input from the file `path`.
    RedirectStdin { path: String },
    /// Write standard output to the file `path`.
    RedirectStdout { path: String },
    /// Create a filter context with the action word `default_action`.
    InitFilter { default_action: u32 },
    /// Add to the context a rule with the action word `action` for the call
    /// named `syscall`.
    AddRule { syscall: String, action: u32 },
    /// Load the context into the kernel. This cannot be undone.
    LoadFilter,
    /// Release the filter context.
    ReleaseFilter,
    /// Replace the process image with the target program.
    Exec,
}

/// A `LaunchStep` as contracts see it.
pub enum LaunchStepView {
    SetLimit { resource: Resource, value: u64 },
    ChangeRoot { path: Seq<char> },
    ChangeDir { path: Seq<char> },
    RedirectStdin { path: Seq<char> },
    RedirectStdout { path: Seq<char> },
    InitFilter { default_action: u32 },
    AddRule { syscall: Seq<char>, action: u32 },
    LoadFilter,
    ReleaseFilter,
    Exec,
}

impl DeepView for LaunchStep {
    type V = LaunchStepView;

    open spec fn deep_view(&self) -> LaunchStepView {
        match self {
            LaunchStep::SetLimit { resource, value } => LaunchStepView::SetLimit {
                resource: *resource,
                value: *value,
            },
            LaunchStep::ChangeRoot { path } => LaunchStepView::ChangeRoot { path: path@ },
            LaunchStep::ChangeDir { path } => LaunchStepView::ChangeDir { path: path@ },
            LaunchStep::RedirectStdin { path } => LaunchStepView::RedirectStdin { path: path@ },
            LaunchStep::RedirectStdout { path } => LaunchStepView::RedirectStdout { path: path@ },
            LaunchStep::InitFilter { default_action } => LaunchStepView::InitFilter {
                default_action: *default_action,
            },
            LaunchStep::AddRule { syscall, action } => LaunchStepView::AddRule {
                syscall: syscall@,
                action: *action,
            },
            LaunchStep::LoadFilter => LaunchStepView::LoadFilter,
            LaunchStep::ReleaseFilter => LaunchStepView::ReleaseFilter,
            LaunchStep::Exec => LaunchStepView::Exec,
        }
    }
}

/// The process to launch.
#[derive(Debug, Clone, PartialEq, Eq)]
pub struct Process {
    /// Path of the target executable.
    pub path: String,
    /// Argument vector of the target, its own name first.
    pub args: Vec<String>,
    /// Environment of the target; `None` hands on the launcher's own.
    pub envs: Option<Vec<String>>,
    /// Limits to set, in this order.
    pub limits: Vec<(Resource, u64)>,
    pub dir: Option<Directory>,
    /// File that standard input is read from.
    pub stdin: Option<String>,
    /// File that standard output is written to.
    pub stdout: Option<String>,
    /// Policy to install before the target runs.
    pub syscall_filters: Option<SyscallFilter>,
}

/// A `Process` as contracts see it.
pub struct ProcessView {
    pub path: Seq<char>,
    pub args: Seq<Seq<char>>,
    pub envs: Option<Seq<Seq<char>>>,
    pub limits: Seq<(Resource, u64)>,
    pub dir: Option<DirectoryView>,
    pub stdin: Option<Seq<char>>,
    pub stdout: Option<Seq<char>>,
    pub syscall_filters: Option<SyscallFilterView>,
}

impl DeepView for Process {
    type V = ProcessView;

    open spec fn deep_view(&self) -> ProcessView {
        ProcessView {
            path: self.path@,
            args: self.args.deep_view(),
            envs: self.envs.deep_view(),
            limits: self.limits@,
            dir: self.dir.deep_view(),
            stdin: self.stdin.deep_view(),
            stdout: self.stdout.deep_view(),
            syscall_filters: self.syscall_filters.deep_view(),
        }
    }
}

/// The steps that set the limits: those asked for, in their order, and
/// after them a core dump size of zero, whatever was asked for.
pub open spec fn limit_steps(limits: Seq<(Resource, u64)>) -> Seq<LaunchStepView> {
    limits.map_values(
        |limit: (Resource, u64)| LaunchStepView::SetLimit { resource: limit.0, value: limit.1 },
    ).push(LaunchStepView::SetLimit { resource: Resource::CoreDump, value: 0 })
}

/// The steps of the directory confinement: the root first, then the working
/// directory, which is thereby looked up below the new root.
pub open spec fn directory_steps(dir: Option<DirectoryView>) -> Seq<LaunchStepView> {
    match dir {
        Some(dir) => {
            let root = match dir.root_dir {
                Some(path) => seq![LaunchStepView::ChangeRoot { path }],
                None => seq![],
            };
            let working = match dir.working_dir {
                Some(path) => seq![LaunchStepView::ChangeDir { path }],
                None => seq![],
            };
            root + working
        },
        None => seq![],
    }
}

/// The steps that redirect standard input and standard output.
pub open spec fn redirect_steps(stdin: Option<Seq<char>>, stdout: Option<Seq<char>>) -> Seq<
    LaunchStepView,
> {
    let input = match stdin {
        Some(path) => seq![LaunchStepView::RedirectStdin { path }],
        None => seq![],
    };
    let output = match stdout {
        Some(path) => seq![LaunchStepView::RedirectStdout { path }],
        None => seq![],
    };
    input + output
}

/// The steps that add the rules of a policy to its context, in their order.
pub open spec fn rule_steps(rules: Seq<RuleView>) -> Seq<LaunchStepView> {
    rules.map_values(
        |rule: RuleView| LaunchStepView::AddRule { syscall: rule.0, action: rule.1.action_word() },
    )
}

/// The steps that install a policy: create the context, add each rule, load
/// the context into the kernel, release it.
pub open spec fn filter_steps(filter: Option<SyscallFilterView>) -> Seq<LaunchStepView> {
    match filter {
        Some(filter) => seq![
            LaunchStepView::InitFilter { default_action: filter.default_action.action_word() },
        ] + rule_steps(filter.rules) + seq![
            LaunchStepView::LoadFilter,
            LaunchStepView::ReleaseFilter,
        ],
        None => seq![],
    }
}

/// Everything that happens in the confined process, in order: limits,
/// directory confinement, redirections, syscall policy, and last the
/// replacement of the process image.
pub open spec fn launch_plan(process: ProcessView) -> Seq<LaunchStepView> {
    limit_steps(process.limits) + directory_steps(process.dir) + redirect_steps(
        process.stdin,
        process.stdout,
    ) + filter_steps(process.syscall_filters) + seq![LaunchStepView::Exec]
}

impl Process {
    /// A process that runs `path` with no arguments, the launcher's
    /// environment, no limits, no confinement and no policy.
    pub fn new(path: String) -> (process: Process)
        ensures
            process.deep_view() == (ProcessView {
                path: path@,
                args: seq![],
                envs: None,
                limits: seq![],
                dir: None,
                stdin: None,
                stdout: None,
                syscall_filters: None,
            }),
    {
        let process = Process {
            path,
            args: Vec::new(),
            envs: None,
            limits: Vec::new(),
            dir: None,
            stdin: None,
            stdout: None,
            syscall_filters: None,
        };
        assert(process.args.deep_view() =~= seq![]);
        process
    }

    /// Sets the argument vector.
    pub fn args(self, args: Vec<&str>) -> (process: Process)
        ensures
            process.deep_view() == (ProcessView { args: args.deep_view(), ..self.deep_view() }),
    {
        let mut owned: Vec<String> = Vec::new();
        let mut i: usize = 0;
        while i < args.len()
            invariant
                i <= args.len(),
                owned.deep_view() == args.deep_view().take(i as int),
            decreases args.len() - i,
        {
            let ghost before = owned.deep_view();
            owned.push(args[i].to_string());
            assert(owned.deep_view() =~= before.push(args[i as int]@));
            assert(args.deep_view().take(i + 1) =~= before.push(args.deep_view()[i as int]));
            i += 1;
        }
        assert(args.deep_view().take(i as int) =~= args.deep_view());
        let mut process = self;
        process.args = owned;
        process
    }

    /// Sets the environment, each entry in the form `NAME=value`.
    pub fn envs(self, envs: Vec<String>) -> (process: Process)
        ensures
            process.deep_view() == (ProcessView {
                envs: Some(envs.deep_view()),
                ..self.deep_view()
            }),
    {
        let mut process = self;
        process.envs = Some(envs);
        process
    }

    /// Adds a limit to those that are set before the target runs.
    pub fn limit(self, resource: Resource, value: u64) -> (process: Process)
        ensures
            process.deep_view() == (ProcessView {
                limits: self.limits@.push((resource, value)),
                ..self.deep_view()
            }),
    {
        let mut process = self;
        process.limits.push((resource, value));
        process
    }

    /// Sets the directory confinement.
    pub fn dir(self, directory: Directory) -> (process: Process)
        ensures
            process.deep_view() == (ProcessView {
                dir: Some(directory.deep_view()),
                ..self.deep_view()
            }),
    {
        let mut process = self;
        process.dir = Some(directory);
        process
    }

    /// Has standard input read from the file `path`.
    pub fn stdin(self, path: String) -> (process: Process)
        ensures
            process.deep_view() == (ProcessView { stdin: Some(path@), ..self.deep_view() }),
    {
        let mut process = self;
        process.stdin = Some(path);
        process
    }

    /// Has standard output written to the file `path`.
    pub fn stdout(self, path: String) -> (process: Process)
        ensures
            process.deep_view() == (ProcessView { stdout: Some(path@), ..self.deep_view() }),
    {
        let mut process = self;
        process.stdout = Some(path);
        process
    }

    /// Asks for the default syscall policy, or for none.
    pub fn use_syscall_filter(self, enabled: bool) -> (process: Process)
        ensures
            process.deep_view() == (ProcessView {
                syscall_filters: if enabled {
                    Some(crate::seccomp::default_policy())
                } else {
                    None
                },
                ..self.deep_view()
            }),
    {
        let mut process = self;
        if enabled {
            process.syscall_filters = Some(SyscallFilter::new());
        } else {
            process.syscall_filters = None;
        }
        process
    }
}


/// Appends the steps that set the limits.
fn push_limit_steps(limits: &Vec<(Resource, u64)>, steps: &mut Vec<LaunchStep>)
    ensures
        final(steps).deep_view() == old(steps).deep_view() + limit_steps(limits@),
{
    let ghost before = steps.deep_view();
    let ghost asked = limits@.map_values(
        |limit: (Resource, u64)| LaunchStepView::SetLimit { resource: limit.0, value: limit.1 },
    );
    let mut i: usize = 0;
    assert(steps.deep_view() =~= before + asked.take(0));
    while i < limits.len()
        invariant
            i <= limits.len(),
            asked == limits@.map_values(
                |limit: (Resource, u64)| LaunchStepView::SetLimit {
                    resource: limit.0,
                    value: limit.1,
                },
            ),
            steps.deep_view() == before + asked.take(i as int),
        decreases limits.len() - i,
    {
        let ghost so_far = steps.deep_view();
        let step = LaunchStep::SetLimit { resource: limits[i].0, value: limits[i].1 };
        steps.push(step);
        assert(steps.deep_view() =~= so_far.push(step.deep_view()));
        assert(steps.deep_view() =~= before + asked.take(i + 1));
        i += 1;
    }
    let ghost so_far = steps.deep_view();
    let last = LaunchStep::SetLimit { resource: Resource::CoreDump, value: 0 };
    steps.push(last);
    assert(steps.deep_view() =~= so_far.push(last.deep_view()));
    assert(asked.take(i as int) =~= asked);
    assert(steps.deep_view() =~= before + limit_steps(limits@));
}

/// Appends `step`.
fn push_step(steps: &mut Vec<LaunchStep>, step: LaunchStep)
    ensures
        final(steps).deep_view() == old(steps).deep_view().push(step.deep_view()),
{
    let ghost before = steps.deep_view();
    steps.push(step);
    assert(steps.deep_view() =~= before.push(step.deep_view()));
}

/// Appends the steps of the directory confinement.
fn push_directory_steps(dir: &Option<Directory>, steps: &mut Vec<LaunchStep>)
    ensures
        final(steps).deep_view() == old(steps).deep_view() + directory_steps(dir.deep_view()),
{
    let ghost before = steps.deep_view();
    match dir {
        Some(dir) => {
            match &dir.root_dir {
                Some(path) => {
                    push_step(steps, LaunchStep::ChangeRoot { path: path.clone() });
                },
                None => {},
            }
            match &dir.working_dir {
                Some(path) => {
                    push_step(steps, LaunchStep::ChangeDir { path: path.clone() });
                },
                None => {},
            }
        },
        None => {},
    }
    assert(steps.deep_view() =~= before + directory_steps(dir.deep_view()));
}

/// Appends the steps that redirect standard input and standard output.
fn push_redirect_steps(
    stdin: &Option<String>,
    stdout: &Option<String>,
    steps: &mut Vec<LaunchStep>,
)
    ensures
        final(steps).deep_view() == old(steps).deep_view() + redirect_steps(
            stdin.deep_view(),
            stdout.deep_view(),
        ),
{
    let ghost before = steps.deep_view();
    match stdin {
        Some(path) => {
            push_step(steps, LaunchStep::RedirectStdin { path: path.clone() });
        },
        None => {},
    }
    match stdout {
        Some(path) => {
            push_step(steps, LaunchStep::RedirectStdout { path: path.clone() });
        },
        None => {},
    }
    assert(steps.deep_view() =~= before + redirect_steps(stdin.deep_view(), stdout.deep_view()));
}

/// Appends the steps that install a policy.
fn push_filter_steps(filter: &Option<SyscallFilter>, steps: &mut Vec<LaunchStep>)
    ensures
        final(steps).deep_view() == old(steps).deep_view() + filter_steps(filter.deep_view()),
{
    let ghost before = steps.deep_view();
    match filter {
        Some(filter) => {
            let ghost rules = rule_steps(filter.rules.deep_view());
            let init = LaunchStep::InitFilter {
                default_action: filter.default_action.to_seccomp_action(),
            };
            push_step(steps, init);
            let ghost opened = steps.deep_view();
            let mut i: usize = 0;
            assert(steps.deep_view() =~= opened + rules.take(0));
            while i < filter.rules.len()
                invariant
                    i <= filter.rules.len(),
                    rules == rule_steps(filter.rules.deep_view()),
                    steps.deep_view() == opened + rules.take(i as int),
                decreases filter.rules.len() - i,
            {
                let rule = LaunchStep::AddRule {
                    syscall: filter.rules[i].0.clone(),
                    action: filter.rules[i].1.to_seccomp_action(),
                };
                assert(rule.deep_view() == rules[i as int]);
                push_step(steps, rule);
                assert(steps.deep_view() =~= opened + rules.take(i + 1));
                i += 1;
            }
            assert(rules.take(i as int) =~= rules);
            push_step(steps, LaunchStep::LoadFilter);
            push_step(steps, LaunchStep::ReleaseFilter);
            assert(steps.deep_view() =~= before + filter_steps(Some(filter.deep_view())));
        },
        None => {
            assert(steps.deep_view() =~= before + filter_steps(None));
        },
    }
}

impl Process {
    /// The steps to perform in the confined process, in order. The last of
    /// them replaces the process image.
    pub fn plan(&self) -> (steps: Vec<LaunchStep>)
        ensures
            steps.deep_view() == launch_plan(self.deep_view()),
    {
        let mut steps: Vec<LaunchStep> = Vec::new();
        assert(steps.deep_view() =~= seq![]);
        push_limit_steps(&self.limits, &mut steps);
        push_directory_steps(&self.dir, &mut steps);
        push_redirect_steps(&self.stdin, &self.stdout, &mut steps);
        push_filter_steps(&self.syscall_filters, &mut steps);
        push_step(&mut steps, LaunchStep::Exec);
        assert(steps.deep_view() =~= launch_plan(self.deep_view()));
        steps
    }
}


/// The place of a step in the order of the set-up.
pub open spec fn stage(step: LaunchStepView) -> nat {
    match step {
        LaunchStepView::SetLimit { .. } => 0,
        LaunchStepView::ChangeRoot { .. } => 1,
        LaunchStepView::ChangeDir { .. } => 2,
        LaunchStepView::RedirectStdin { .. } => 3,
        LaunchStepView::RedirectStdout { .. } => 4,
        LaunchStepView::InitFilter { .. } => 5,
        LaunchStepView::AddRule { .. } => 6,
        LaunchStepView::LoadFilter => 7,
        LaunchStepView::ReleaseFilter => 8,
        LaunchStepView::Exec => 9,
    }
}

/// Whether `steps` are in the order of the set-up and belong to the stages
/// from `low` to `high`.
pub open spec fn in_order(steps: Seq<LaunchStepView>, low: nat, high: nat) -> bool {
    &&& forall|i: int| 0 <= i < steps.len() ==> low <= stage(#[trigger] steps[i]) <= high
    &&& forall|i: int, j: int|
        0 <= i <= j < steps.len() ==> stage(#[trigger] steps[i]) <= stage(#[trigger] steps[j])
}

/// Steps in order, followed by steps in order of later stages, are in
/// order.
proof fn lemma_in_order_concat(
    first: Seq<LaunchStepView>,
    second: Seq<LaunchStepView>,
    low: nat,
    middle: nat,
    high: nat,
)
    requires
        low <= middle <= high,
        in_order(first, low, middle),
        in_order(second, middle, high),
    ensures
        in_order(first + second, low, high),
{
    let both = first + second;
    assert forall|i: int| 0 <= i < both.len() implies low <= stage(#[trigger] both[i]) <= high by {
        if i < first.len() {
            assert(both[i] == first[i]);
        } else {
            assert(both[i] == second[i - first.len()]);
        }
    }
    assert forall|i: int, j: int| 0 <= i <= j < both.len() implies stage(#[trigger] both[i])
        <= stage(#[trigger] both[j]) by {
        if j < first.len() {
            assert(both[i] == first[i]);
            assert(both[j] == first[j]);
        } else if i < first.len() {
            assert(both[i] == first[i]);
            assert(both[j] == second[j - first.len()]);
        } else {
            assert(both[i] == second[i - first.len()]);
            assert(both[j] == second[j - first.len()]);
        }
    }
}

/// The steps before the replacement of the process image are in order.
proof fn lemma_setup_in_order(process: ProcessView)
    ensures
        in_order(
            limit_steps(process.limits) + directory_steps(process.dir) + redirect_steps(
                process.stdin,
                process.stdout,
            ) + filter_steps(process.syscall_filters),
            0,
            8,
        ),
{
    let limits = limit_steps(process.limits);
    let directory = directory_steps(process.dir);
    let redirect = redirect_steps(process.stdin, process.stdout);
    let filter = filter_steps(process.syscall_filters);
    assert(in_order(limits, 0, 0));
    assert(in_order(directory, 0, 2));
    assert(in_order(redirect, 2, 4));
    assert(in_order(filter, 4, 8)) by {
        match process.syscall_filters {
            Some(policy) => {
                let rules = rule_steps(policy.rules);
                let opened = seq![
                    LaunchStepView::InitFilter {
                        default_action: policy.default_action.action_word(),
                    },
                ];
                let closed = seq![LaunchStepView::LoadFilter, LaunchStepView::ReleaseFilter];
                assert(in_order(opened, 4, 6));
                assert(in_order(rules, 6, 6));
                assert(in_order(closed, 6, 8));
                lemma_in_order_concat(opened, rules, 4, 6, 6);
                lemma_in_order_concat(opened + rules, closed, 4, 6, 8);
            },
            None => {},
        }
    }
    lemma_in_order_concat(limits, directory, 0, 0, 2);
    lemma_in_order_concat(limits + directory, redirect, 0, 2, 4);
    lemma_in_order_concat(limits + directory + redirect, filter, 0, 4, 8);
}

/// The launch plan keeps the order of the set-up: limits, then the change
/// of root, then the change of working directory, then the redirections,
/// then the syscall policy, and the replacement of the process image after
/// everything else.
pub proof fn plan_keeps_the_order(process: ProcessView, i: int, j: int)
    requires
        0 <= i <= j < launch_plan(process).len(),
    ensures
        stage(launch_plan(process)[i]) <= stage(launch_plan(process)[j]),
{
    lemma_setup_in_order(process);
    let setup = limit_steps(process.limits) + directory_steps(process.dir) + redirect_steps(
        process.stdin,
        process.stdout,
    ) + filter_steps(process.syscall_filters);
    let last = seq![LaunchStepView::Exec];
    assert(in_order(last, 8, 9));
    lemma_in_order_concat(setup, last, 0, 8, 9);
    let plan = launch_plan(process);
    assert(stage(plan[i]) <= stage(plan[j]));
}

/// The replacement of the process image is the last step of the launch
/// plan and occurs nowhere else in it.
pub proof fn plan_ends_with_exec(process: ProcessView, i: int)
    requires
        0 <= i < launch_plan(process).len(),
    ensures
        launch_plan(process)[i] == LaunchStepView::Exec <==> i == launch_plan(process).len() - 1,
{
    lemma_setup_in_order(process);
    let setup = limit_steps(process.limits) + directory_steps(process.dir) + redirect_steps(
        process.stdin,
        process.stdout,
    ) + filter_steps(process.syscall_filters);
    let plan = launch_plan(process);
    if i < setup.len() {
        assert(plan[i] == setup[i]);
        assert(stage(setup[i]) <= 8);
    }
}

/// Core dumps are always switched off: the last limit that the launch plan
/// sets is a core dump size of zero, whatever limits were asked for.
pub proof fn plan_zeroes_core_dump(process: ProcessView, i: int)
    requires
        0 <= i < launch_plan(process).len(),
    ensures
        launch_plan(process)[process.limits.len() as int] == (LaunchStepView::SetLimit {
            resource: Resource::CoreDump,
            value: 0,
        }),
        launch_plan(process)[i] is SetLimit <==> i <= process.limits.len(),
{
    let limits = limit_steps(process.limits);
    let rest = directory_steps(process.dir) + redirect_steps(process.stdin, process.stdout)
        + filter_steps(process.syscall_filters) + seq![LaunchStepView::Exec];
    let plan = launch_plan(process);
    assert(plan =~= limits + rest);
    assert(plan[process.limits.len() as int] == limits[process.limits.len() as int]);
    if i <= process.limits.len() {
        assert(plan[i] == limits[i]);
    } else {
        plan_keeps_the_order(process, i - 1, i);
        plan_keeps_the_order(process, process.limits.len() as int + 1, i);
        let after = plan[process.limits.len() as int + 1];
        assert(after == rest[0]);
        lemma_setup_in_order(process);
        let directory = directory_steps(process.dir);
        let redirect = redirect_steps(process.stdin, process.stdout);
        let filter = filter_steps(process.syscall_filters);
        let tail = directory + redirect + filter + seq![LaunchStepView::Exec];
        assert(rest =~= tail);
        assert(stage(rest[0]) >= 1) by {
            if directory.len() > 0 {
                assert(rest[0] == directory[0]);
            } else if redirect.len() > 0 {
                assert(rest[0] == redirect[0]);
            } else if filter.len() > 0 {
                assert(rest[0] == filter[0]);
            } else {
                assert(rest[0] == LaunchStepView::Exec);
            }
        }
    }
}

/// The root is changed before the working directory: where both are
/// given, the step that changes the root comes right before the step that
/// changes the working directory, which is thereby looked up below the
/// new root.
pub proof fn root_is_changed_before_working_dir(
    process: ProcessView,
    root: Seq<char>,
    working: Seq<char>,
)
    requires
        process.dir == Some(DirectoryView { working_dir: Some(working), root_dir: Some(root) }),
    ensures
        process.limits.len() + 2 < launch_plan(process).len(),
        launch_plan(process)[process.limits.len() as int + 1] == (LaunchStepView::ChangeRoot {
            path: root,
        }),
        launch_plan(process)[process.limits.len() as int + 2] == (LaunchStepView::ChangeDir {
            path: working,
        }),
        is_absolute(working) ==> process.dir.unwrap().effective_working_dir() == Some(
            root + working,
        ),
{
    let limits = limit_steps(process.limits);
    let directory = directory_steps(process.dir);
    let rest = redirect_steps(process.stdin, process.stdout) + filter_steps(
        process.syscall_filters,
    ) + seq![LaunchStepView::Exec];
    let plan = launch_plan(process);
    assert(plan =~= limits + directory + rest);
    assert(directory =~= seq![
        LaunchStepView::ChangeRoot { path: root },
        LaunchStepView::ChangeDir { path: working },
    ]);
    assert(plan[process.limits.len() as int + 1] == directory[0]);
    assert(plan[process.limits.len() as int + 2] == directory[1]);
}

} // verus!
