//! The supervisor: the request it carries out, the process that the child
//! becomes for it, what is measured of the run, and the protocol by which
//! the parent waits for its child.

use vstd::prelude::*;
use crate::exit_code::UNKNOWN;
use crate::judge::{JudgeOption, JudgeOptionView};
use crate::process::{Directory, DirectoryView, Process, ProcessView, Resource};
use crate::seccomp::default_policy;

verus! {

/// A span of processor time, as the operating system reports it: whole
/// seconds and the microseconds beyond them.
#[derive(Debug, Clone, Copy, PartialEq, Eq, Structural)]
pub struct TimeSpan {
    pub secs: u64,
    pub micros: u32,
}

impl TimeSpan {
    /// The span in whole milliseconds, rounded down.
    pub open spec fn millis(self) -> nat {
        (self.secs as nat) * 1000 + (self.micros as nat) / 1000
    }

    /// The span in whole milliseconds, rounded down.
    pub fn as_millis(&self) -> (ms: u128)
        ensures
            ms == self.millis(),
    {
        let whole: u128 = (self.secs as u128) * 1000;
        let part: u128 = (self.micros / 1000) as u128;
        whole + part
    }
}

/// Resources that a finished child consumed.
#[derive(Debug, Clone, Copy, PartialEq, Eq, Structural)]
pub struct ResourceUsage {
    /// Processor time spent in user mode.
    pub user_time: TimeSpan,
    /// Processor time spent in the kernel on the child's behalf.
    pub cpu_time: TimeSpan,
    /// Peak resident set size in kilobytes.
    pub memory: u64,
}

/// Whether five raw numbers of a usage sample describe a usage: none is
/// negative and each microsecond part is below one second.
pub open spec fn sample_is_valid(
    utime_sec: i64,
    utime_usec: i64,
    stime_sec: i64,
    stime_usec: i64,
    maxrss: i64,
) -> bool {
    &&& 0 <= utime_sec
    &&& 0 <= utime_usec < 1_000_000
    &&& 0 <= stime_sec
    &&& 0 <= stime_usec < 1_000_000
    &&& 0 <= maxrss
}

impl ResourceUsage {
    /// Reads a usage sample as the operating system hands it out: two
    /// `timeval` pairs and the peak resident set size in kilobytes.
    pub fn from_sample(
        utime_sec: i64,
        utime_usec: i64,
        stime_sec: i64,
        stime_usec: i64,
        maxrss: i64,
    ) -> (usage: Option<ResourceUsage>)
        ensures
            usage is Some <==> sample_is_valid(utime_sec, utime_usec, stime_sec, stime_usec, maxrss),
            usage matches Some(u) ==> {
                &&& u.user_time.secs == utime_sec
                &&& u.user_time.micros == utime_usec
                &&& u.cpu_time.secs == stime_sec
                &&& u.cpu_time.micros == stime_usec
                &&& u.memory == maxrss
            },
    {
        if utime_sec < 0 || stime_sec < 0 || maxrss < 0 {
            return None;
        }
        if utime_usec < 0 || utime_usec >= 1_000_000 || stime_usec < 0 || stime_usec >= 1_000_000 {
            return None;
        }
        Some(
            ResourceUsage {
                user_time: TimeSpan { secs: utime_sec as u64, micros: utime_usec as u32 },
                cpu_time: TimeSpan { secs: stime_sec as u64, micros: stime_usec as u32 },
                memory: maxrss as u64,
            },
        )
    }
}

/// Hard caps that the operating system enforces on the child.
#[derive(Debug, Clone, Copy, PartialEq, Eq, Structural)]
pub struct ResourceLimit {
    /// Address space in bytes.
    pub memory: u64,
    /// Processor time in whole seconds.
    pub time: u64,
}

/// How a program is to be run.
#[derive(Debug, Clone, PartialEq, Eq)]
pub struct ExecuteOption {
    /// Environment of the program; `None` hands on the caller's own.
    pub envs: Option<Vec<String>>,
    pub limits: Option<ResourceLimit>,
    /// File that the program reads as standard input.
    pub input_path: Option<String>,
    /// File that the program's standard output is written to.
    pub output_path: Option<String>,
    /// File that holds the expected output.
    pub answer_path: Option<String>,
    pub directory: Option<Directory>,
    /// Whether the default syscall policy is installed.
    pub use_syscall: bool,
}

/// An `ExecuteOption` as contracts see it.
pub struct ExecuteOptionView {
    pub envs: Option<Seq<Seq<char>>>,
    pub limits: Option<ResourceLimit>,
    pub input_path: Option<Seq<char>>,
    pub output_path: Option<Seq<char>>,
    pub answer_path: Option<Seq<char>>,
    pub directory: Option<DirectoryView>,
    pub use_syscall: bool,
}

impl DeepView for ExecuteOption {
    type V = ExecuteOptionView;

    open spec fn deep_view(&self) -> ExecuteOptionView {
        ExecuteOptionView {
            envs: self.envs.deep_view(),
            limits: self.limits,
            input_path: self.input_path.deep_view(),
            output_path: self.output_path.deep_view(),
            answer_path: self.answer_path.deep_view(),
            directory: self.directory.deep_view(),
            use_syscall: self.use_syscall,
        }
    }
}

impl ExecuteOptionView {
    /// A run under the syscall policy is a run under limits: without them
    /// its outcome cannot be judged.
    pub open spec fn well_formed(self) -> bool {
        self.use_syscall ==> self.limits is Some
    }

    /// What the judge needs to know of the run: the limits it ran under and
    /// the files to compare. A run without limits is not judged.
    pub open spec fn judge_option(self) -> Option<JudgeOptionView> {
        match self.limits {
            Some(limits) => Some(
                JudgeOptionView {
                    memory_limit: limits.memory,
                    time_limit: limits.time,
                    output_path: self.output_path,
                    answer_path: self.answer_path,
                },
            ),
            None => None,
        }
    }
}

impl ExecuteOption {
    /// What the judge needs to know of the run, if it is to be judged.
    pub fn judge_option(self) -> (option: Option<JudgeOption>)
        ensures
            option.deep_view() == self.deep_view().judge_option(),
    {
        match self.limits {
            Some(limits) => Some(
                JudgeOption {
                    memory_limit: limits.memory,
                    time_limit: limits.time,
                    output_path: self.output_path,
                    answer_path: self.answer_path,
                },
            ),
            None => None,
        }
    }
}

/// One run: the program, its argument vector and how it is to be run.
#[derive(Debug, Clone, PartialEq, Eq)]
pub struct ExecutionRequest {
    /// Path of the executable.
    pub binary: String,
    /// Argument vector, the program's own name first.
    pub args: Vec<String>,
    pub option: ExecuteOption,
}

/// An `ExecutionRequest` as contracts see it.
pub struct ExecutionRequestView {
    pub binary: Seq<char>,
    pub args: Seq<Seq<char>>,
    pub option: ExecuteOptionView,
}

impl DeepView for ExecutionRequest {
    type V = ExecutionRequestView;

    open spec fn deep_view(&self) -> ExecutionRequestView {
        ExecutionRequestView {
            binary: self.binary@,
            args: self.args.deep_view(),
            option: self.option.deep_view(),
        }
    }
}

impl ExecutionRequestView {
    /// The process that carries out this request. Of the limits it names
    /// the address space and the processor time; the launch plan adds the
    /// core dump size by itself.
    pub open spec fn process(self) -> ProcessView {
        ProcessView {
            path: self.binary,
            args: self.args,
            envs: self.option.envs,
            limits: match self.option.limits {
                Some(limits) => seq![
                    (Resource::AddressSpace, limits.memory),
                    (Resource::CPUTime, limits.time),
                ],
                None => seq![],
            },
            dir: self.option.directory,
            stdin: self.option.input_path,
            stdout: self.option.output_path,
            syscall_filters: if self.option.use_syscall {
                Some(default_policy())
            } else {
                None
            },
        }
    }
}

/// Describes the process that the child becomes for `request`.
pub fn prepare(request: ExecutionRequest) -> (process: Process)
    ensures
        process.deep_view() == request.deep_view().process(),
{
    let option = request.option;
    let mut process = Process::new(request.binary);
    process.args = request.args;
    process.envs = option.envs;
    match option.limits {
        Some(limits) => {
            process = process.limit(Resource::AddressSpace, limits.memory).limit(
                Resource::CPUTime,
                limits.time,
            );
        },
        None => {},
    }
    process.dir = option.directory;
    process.stdin = option.input_path;
    process.stdout = option.output_path;
    process = process.use_syscall_filter(option.use_syscall);
    assert(process.deep_view().limits =~= request.deep_view().process().limits);
    process
}

/// Pause between two polls of a child that is still running, in microseconds.
pub const POLL_INTERVAL_MICROS: u32 = 10000;

/// Where the supervisor stands in its protocol.
#[derive(Debug, Clone, Copy, PartialEq, Eq, Structural)]
pub enum SupervisorState {
    /// Nothing has happened yet.
    Idle,
    /// The process is being duplicated.
    Forking,
    /// This process is the child and hands over to the launcher.
    Child,
    /// The parent has asked for the child's status.
    Polling { child: i32 },
    /// The parent pauses before it asks again.
    Sleeping { child: i32 },
    /// The run is over, with a result or with a failure.
    Finished,
}

/// What the caller reports back to the supervisor.
#[derive(Debug, Clone, Copy, PartialEq, Eq, Structural)]
pub enum SupervisorEvent {
    /// The caller asks for the first action.
    Begin,
    /// The process could not be duplicated.
    ForkFailed,
    /// The duplication succeeded and this is the child.
    ForkedChild,
    /// The duplication succeeded and this is the parent of `child`.
    ForkedParent { child: i32 },
    /// Answer to a poll: what the non-blocking wait returned, the raw status
    /// it stored, and the usage sampled right after it.
    Polled { wait_result: i32, status: i32, usage: ResourceUsage },
    /// The pause is over.
    Slept,
}

/// What the supervisor asks the caller to do next.
#[derive(Debug, Clone, Copy, PartialEq, Eq, Structural)]
pub enum SupervisorAction {
    /// Duplicate the process.
    Fork,
    /// Run the launcher in this process; it never comes back.
    Launch,
    /// Ask for the status of `child` without blocking, then sample the
    /// cumulative usage of the children.
    Poll { child: i32 },
    /// Pause for `micros` microseconds.
    Sleep { micros: u32 },
    /// The child has terminated with the raw status `status`; `usage` is the
    /// sample taken after its termination was seen.
    Finish { status: i32, usage: ResourceUsage },
    /// The run could not be supervised; `status` is the engine's own
    /// failure status and no verdict is to be given.
    Fail { status: i32 },
}

/// The supervisor's protocol: the state and action that follow `event` in
/// `state`. An event that the state does not expect ends the run in failure.
pub open spec fn supervise_spec(state: SupervisorState, event: SupervisorEvent) -> (
    SupervisorState,
    SupervisorAction,
) {
    match (state, event) {
        (SupervisorState::Idle, SupervisorEvent::Begin) => (
            SupervisorState::Forking,
            SupervisorAction::Fork,
        ),
        (SupervisorState::Forking, SupervisorEvent::ForkedChild) => (
            SupervisorState::Child,
            SupervisorAction::Launch,
        ),
        (SupervisorState::Forking, SupervisorEvent::ForkedParent { child }) => (
            SupervisorState::Polling { child },
            SupervisorAction::Poll { child },
        ),
        (SupervisorState::Polling { child }, SupervisorEvent::Polled { wait_result, status, usage }) => {
            if wait_result == 0 {
                (
                    SupervisorState::Sleeping { child },
                    SupervisorAction::Sleep { micros: POLL_INTERVAL_MICROS },
                )
            } else if wait_result == child {
                (SupervisorState::Finished, SupervisorAction::Finish { status, usage })
            } else {
                (SupervisorState::Finished, SupervisorAction::Fail { status: UNKNOWN })
            }
        },
        (SupervisorState::Sleeping { child }, SupervisorEvent::Slept) => (
            SupervisorState::Polling { child },
            SupervisorAction::Poll { child },
        ),
        _ => (SupervisorState::Finished, SupervisorAction::Fail { status: UNKNOWN }),
    }
}

/// One step of the supervisor: takes what the caller reports and decides
/// what it does next.
pub fn supervise(state: SupervisorState, event: SupervisorEvent) -> (next: (
    SupervisorState,
    SupervisorAction,
))
    ensures
        next == supervise_spec(state, event),
{
    let failed = (SupervisorState::Finished, SupervisorAction::Fail { status: UNKNOWN });
    match state {
        SupervisorState::Idle => match event {
            SupervisorEvent::Begin => (SupervisorState::Forking, SupervisorAction::Fork),
            _ => failed,
        },
        SupervisorState::Forking => match event {
            SupervisorEvent::ForkedChild => (SupervisorState::Child, SupervisorAction::Launch),
            SupervisorEvent::ForkedParent { child } => (
                SupervisorState::Polling { child },
                SupervisorAction::Poll { child },
            ),
            _ => failed,
        },
        SupervisorState::Polling { child } => match event {
            SupervisorEvent::Polled { wait_result, status, usage } => {
                if wait_result == 0 {
                    (
                        SupervisorState::Sleeping { child },
                        SupervisorAction::Sleep { micros: POLL_INTERVAL_MICROS },
                    )
                } else if wait_result == child {
                    (SupervisorState::Finished, SupervisorAction::Finish { status, usage })
                } else {
                    failed
                }
            },
            _ => failed,
        },
        SupervisorState::Sleeping { child } => match event {
            SupervisorEvent::Slept => (
                SupervisorState::Polling { child },
                SupervisorAction::Poll { child },
            ),
            _ => failed,
        },
        _ => failed,
    }
}


/// The supervisor reports the end of the child only in answer to a poll
/// that has seen it, and hands on the status and the usage sample of that
/// very poll: the sample was taken after the child had terminated.
pub proof fn finish_hands_on_the_final_sample(state: SupervisorState, event: SupervisorEvent)
    ensures
        supervise_spec(state, event).1 matches SupervisorAction::Finish { status, usage } ==> {
            &&& state matches SupervisorState::Polling { child }
            &&& event == (SupervisorEvent::Polled { wait_result: child, status, usage })
            &&& child != 0
        },
{
}

/// A failure of the supervisor carries the engine's failure status and
/// ends the run, as does a fork that failed; it is never a verdict.
pub proof fn failure_ends_the_run(state: SupervisorState, event: SupervisorEvent)
    ensures
        supervise_spec(state, SupervisorEvent::ForkFailed).1 == (SupervisorAction::Fail {
            status: UNKNOWN,
        }),
        supervise_spec(state, event).1 matches SupervisorAction::Fail { status } ==> status
            == UNKNOWN && supervise_spec(state, event).0 == SupervisorState::Finished,
        state == SupervisorState::Finished || state == SupervisorState::Child ==> supervise_spec(
            state,
            event,
        ) == (SupervisorState::Finished, SupervisorAction::Fail { status: UNKNOWN }),
{
}

/// While the child runs, the parent polls and pauses in turn: a poll that
/// finds the child still running is followed by a pause, and a pause by
/// the next poll of the same child.
pub proof fn parent_polls_and_pauses_in_turn(
    child: i32,
    status: i32,
    usage: ResourceUsage,
)
    ensures
        supervise_spec(
            SupervisorState::Polling { child },
            SupervisorEvent::Polled { wait_result: 0, status, usage },
        ) == (
            SupervisorState::Sleeping { child },
            SupervisorAction::Sleep { micros: POLL_INTERVAL_MICROS },
        ),
        supervise_spec(SupervisorState::Sleeping { child }, SupervisorEvent::Slept) == (
            SupervisorState::Polling { child },
            SupervisorAction::Poll { child },
        ),
{
}

} // verus!
