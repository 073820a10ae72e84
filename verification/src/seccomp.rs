//! The syscall policy: a default action and an ordered list of rules, each
//! naming a system call and what the kernel filter does with it.

use vstd::prelude::*;

verus! {

/// What the kernel filter does with a system call.
#[derive(Debug, Clone, Copy, PartialEq, Eq, Structural)]
pub enum SyscallFilterAction {
    /// The call goes through.
    Allow,
    /// The caller is killed.
    Kill,
    /// Another action, given as the complete action word that the filter
    /// library takes (an error return, for one, is `0x00050000` with the
    /// error number in the low sixteen bits).
    Errno(u32),
}

impl DeepView for SyscallFilterAction {
    type V = SyscallFilterAction;

    open spec fn deep_view(&self) -> SyscallFilterAction {
        *self
    }
}

/// The action word by which the filter library lets a call through.
pub const SCMP_ACT_ALLOW: u32 = 0x7fff_0000;

/// The action word by which the filter library kills the calling thread.
pub const SCMP_ACT_KILL: u32 = 0;

impl SyscallFilterAction {
    /// The action word that the filter library takes for this action.
    pub open spec fn action_word(self) -> u32 {
        match self {
            SyscallFilterAction::Allow => SCMP_ACT_ALLOW,
            SyscallFilterAction::Kill => SCMP_ACT_KILL,
            SyscallFilterAction::Errno(word) => word,
        }
    }

    /// The action word that the filter library takes for this action.
    pub fn to_seccomp_action(&self) -> (word: u32)
        ensures
            word == self.action_word(),
    {
        match self {
            SyscallFilterAction::Allow => SCMP_ACT_ALLOW,
            SyscallFilterAction::Kill => SCMP_ACT_KILL,
            SyscallFilterAction::Errno(word) => *word,
        }
    }
}

/// A rule as contracts see it: the name of a system call and its action.
pub type RuleView = (Seq<char>, SyscallFilterAction);

/// What a policy does with the call `name`: the last rule that names it
/// decides, and the default action where no rule does.
pub open spec fn action_of(
    rules: Seq<RuleView>,
    default_action: SyscallFilterAction,
    name: Seq<char>,
) -> SyscallFilterAction
    decreases rules.len(),
{
    if rules.len() == 0 {
        default_action
    } else if rules.last().0 == name {
        rules.last().1
    } else {
        action_of(rules.drop_last(), default_action, name)
    }
}

/// The system calls that the default policy denies: those by which a
/// confined program could create processes, leave its confinement, load
/// kernel code, change the limits set on it, or inspect other processes.
pub open spec fn denied_calls() -> Seq<Seq<char>> {
    seq![
        "_sysctl"@,
        "acct"@,
        "add_key"@,
        "bpf"@,
        "chroot"@,
        "clock_adjtime"@,
        "clock_settime"@,
        "clone"@,
        "connect"@,
        "create_module"@,
        "delete_module"@,
        "finit_module"@,
        "fork"@,
        "get_kernel_syms"@,
        "get_mempolicy"@,
        "getdents"@,
        "getdents64"@,
        "init_module"@,
        "ioperm"@,
        "iopl"@,
        "kcmp"@,
        "kexec_file_load"@,
        "kexec_load"@,
        "keyctl"@,
        "lookup_dcookie"@,
        "mbind"@,
        "mount"@,
        "move_pages"@,
        "name_to_handle_at"@,
        "nfsservctl"@,
        "open_by_handle_at"@,
        "perf_event_open"@,
        "personality"@,
        "pivot_root"@,
        "process_vm_readv"@,
        "process_vm_writev"@,
        "ptrace"@,
        "query_module"@,
        "quotactl"@,
        "reboot"@,
        "request_key"@,
        "set_mempolicy"@,
        "setns"@,
        "setrlimit"@,
        "settimeofday"@,
        "swapoff"@,
        "swapon"@,
        "sysfs"@,
        "umount2"@,
        "unshare"@,
        "uselib"@,
        "userfaultfd"@,
        "ustat"@,
        "vfork"@,
    ]
}

/// The rules that kill the caller of each call in `names`, in their order.
pub open spec fn kill_rules(names: Seq<Seq<char>>) -> Seq<RuleView> {
    names.map_values(|name: Seq<char>| (name, SyscallFilterAction::Kill))
}

/// A policy as contracts see it.
pub struct SyscallFilterView {
    pub default_action: SyscallFilterAction,
    pub rules: Seq<RuleView>,
}

impl SyscallFilterView {
    /// What this policy does with the call `name`.
    pub open spec fn action_for(self, name: Seq<char>) -> SyscallFilterAction {
        action_of(self.rules, self.default_action, name)
    }
}

/// The policy of a confined run: everything is allowed but the calls in
/// `denied_calls`, which kill the caller.
pub open spec fn default_policy() -> SyscallFilterView {
    SyscallFilterView {
        default_action: SyscallFilterAction::Allow,
        rules: kill_rules(denied_calls()),
    }
}

/// A syscall policy. The rules are handed to the kernel filter in their
/// order here, and the last rule for a call is the one that counts.
#[derive(Debug, Clone, PartialEq, Eq)]
pub struct SyscallFilter {
    pub default_action: SyscallFilterAction,
    pub rules: Vec<(String, SyscallFilterAction)>,
}

impl DeepView for SyscallFilter {
    type V = SyscallFilterView;

    open spec fn deep_view(&self) -> SyscallFilterView {
        SyscallFilterView {
            default_action: self.default_action,
            rules: self.rules.deep_view(),
        }
    }
}

impl Default for SyscallFilter {
    /// The empty policy, which kills on every call.
    fn default() -> (filter: SyscallFilter)
        ensures
            filter.deep_view() == (SyscallFilterView {
                default_action: SyscallFilterAction::Kill,
                rules: seq![],
            }),
    {
        let filter = SyscallFilter { default_action: SyscallFilterAction::Kill, rules: Vec::new() };
        assert(filter.rules.deep_view() =~= seq![]);
        filter
    }
}

impl SyscallFilter {
    /// The policy of a confined run.
    pub fn new() -> (filter: SyscallFilter)
        ensures
            filter.deep_view() == default_policy(),
    {
        let mut filter = SyscallFilter::default();
        filter.default_action(SyscallFilterAction::Allow);
        let names: Vec<&'static str> = vec![
            "_sysctl",
            "acct",
            "add_key",
            "bpf",
            "chroot",
            "clock_adjtime",
            "clock_settime",
            "clone",
            "connect",
            "create_module",
            "delete_module",
            "finit_module",
            "fork",
            "get_kernel_syms",
            "get_mempolicy",
            "getdents",
            "getdents64",
            "init_module",
            "ioperm",
            "iopl",
            "kcmp",
            "kexec_file_load",
            "kexec_load",
            "keyctl",
            "lookup_dcookie",
            "mbind",
            "mount",
            "move_pages",
            "name_to_handle_at",
            "nfsservctl",
            "open_by_handle_at",
            "perf_event_open",
            "personality",
            "pivot_root",
            "process_vm_readv",
            "process_vm_writev",
            "ptrace",
            "query_module",
            "quotactl",
            "reboot",
            "request_key",
            "set_mempolicy",
            "setns",
            "setrlimit",
            "settimeofday",
            "swapoff",
            "swapon",
            "sysfs",
            "umount2",
            "unshare",
            "uselib",
            "userfaultfd",
            "ustat",
            "vfork",
        ];
        assert(names.deep_view() =~= denied_calls());
        let mut i: usize = 0;
        while i < names.len()
            invariant
                i <= names.len(),
                names.deep_view() == denied_calls(),
                filter.default_action == SyscallFilterAction::Allow,
                filter.rules.deep_view() == kill_rules(denied_calls().take(i as int)),
            decreases names.len() - i,
        {
            filter.add(names[i], SyscallFilterAction::Kill);
            assert(names.deep_view()[i as int] == names[i as int]@);
            assert(filter.rules.deep_view() =~= kill_rules(denied_calls().take(i + 1)));
            i += 1;
        }
        assert(denied_calls().take(i as int) =~= denied_calls());
        filter
    }

    /// Sets the action for the calls that no rule names.
    pub fn default_action(&mut self, action: SyscallFilterAction) -> (filter: &mut Self)
        ensures
            filter.default_action == action,
            filter.rules == old(self).rules,
            *final(self) == *final(filter),
    {
        self.default_action = action;
        self
    }

    /// Appends a rule. It overrides every earlier rule for the same call.
    pub fn add(&mut self, syscall: &str, action: SyscallFilterAction) -> (filter: &mut Self)
        ensures
            filter.default_action == old(self).default_action,
            filter.rules.deep_view() == old(self).rules.deep_view().push((syscall@, action)),
            *final(self) == *final(filter),
    {
        self.rules.push((syscall.to_string(), action));
        assert(self.rules.deep_view() =~= old(self).rules.deep_view().push((syscall@, action)));
        self
    }

    /// What the policy does with the call `syscall`.
    pub fn action_for(&self, syscall: &str) -> (action: SyscallFilterAction)
        ensures
            action == self.deep_view().action_for(syscall@),
    {
        let name = syscall.to_string();
        let ghost rules = self.rules.deep_view();
        let mut i: usize = self.rules.len();
        assert(rules.take(i as int) =~= rules);
        while i > 0
            invariant
                i <= self.rules.len(),
                rules == self.rules.deep_view(),
                name@ == syscall@,
                action_of(rules, self.default_action, syscall@) == action_of(
                    rules.take(i as int),
                    self.default_action,
                    syscall@,
                ),
            decreases i,
        {
            i -= 1;
            assert(rules.take(i + 1).last() == rules[i as int]);
            assert(rules.take(i + 1).drop_last() =~= rules.take(i as int));
            if self.rules[i].0 == name {
                return self.rules[i].1;
            }
        }
        self.default_action
    }
}


/// The last rule for a call decides: a rule that is added overrides what
/// the policy did with its call before, and changes nothing for any other
/// call.
pub proof fn added_rule_decides(
    rules: Seq<RuleView>,
    default_action: SyscallFilterAction,
    name: Seq<char>,
    action: SyscallFilterAction,
    other: Seq<char>,
)
    ensures
        action_of(rules.push((name, action)), default_action, name) == action,
        other != name ==> action_of(rules.push((name, action)), default_action, other)
            == action_of(rules, default_action, other),
{
    assert(rules.push((name, action)).drop_last() =~= rules);
}

/// Rules that kill on each call in `names` kill on exactly those calls.
proof fn lemma_kill_rules(names: Seq<Seq<char>>, default_action: SyscallFilterAction, name: Seq<char>)
    ensures
        action_of(kill_rules(names), default_action, name) == if names.contains(name) {
            SyscallFilterAction::Kill
        } else {
            default_action
        },
    decreases names.len(),
{
    if names.len() > 0 {
        let shorter = names.drop_last();
        assert(kill_rules(names).drop_last() =~= kill_rules(shorter));
        lemma_kill_rules(shorter, default_action, name);
        if names.last() == name {
            assert(names[names.len() - 1] == name);
        } else if names.contains(name) {
            let i = choose|i: int| 0 <= i < names.len() && names[i] == name;
            assert(shorter[i] == name);
        } else if shorter.contains(name) {
            let i = choose|i: int| 0 <= i < shorter.len() && shorter[i] == name;
            assert(names[i] == name);
        }
    }
}

/// The default policy kills the caller of each call in `denied_calls` and
/// allows every other call.
pub proof fn default_policy_kills_the_denied_calls(name: Seq<char>)
    ensures
        default_policy().action_for(name) == if denied_calls().contains(name) {
            SyscallFilterAction::Kill
        } else {
            SyscallFilterAction::Allow
        },
{
    lemma_kill_rules(denied_calls(), SyscallFilterAction::Allow, name);
}

/// The default policy kills a program that tries to create a process, by
/// `fork`, `vfork` or `clone`.
pub proof fn default_policy_denies_process_creation()
    ensures
        default_policy().action_for("fork"@) == SyscallFilterAction::Kill,
        default_policy().action_for("vfork"@) == SyscallFilterAction::Kill,
        default_policy().action_for("clone"@) == SyscallFilterAction::Kill,
{
    default_policy_kills_the_denied_calls("fork"@);
    default_policy_kills_the_denied_calls("vfork"@);
    default_policy_kills_the_denied_calls("clone"@);
    assert(denied_calls()[12] == "fork"@);
    assert(denied_calls()[53] == "vfork"@);
    assert(denied_calls()[7] == "clone"@);
}

/// The default policy kills a program that tries to change the limits
/// set on it, or to leave its filesystem root.
pub proof fn default_policy_denies_escaping_the_limits()
    ensures
        default_policy().action_for("setrlimit"@) == SyscallFilterAction::Kill,
        default_policy().action_for("chroot"@) == SyscallFilterAction::Kill,
        default_policy().action_for("pivot_root"@) == SyscallFilterAction::Kill,
{
    default_policy_kills_the_denied_calls("setrlimit"@);
    default_policy_kills_the_denied_calls("chroot"@);
    default_policy_kills_the_denied_calls("pivot_root"@);
    assert(denied_calls()[43] == "setrlimit"@);
    assert(denied_calls()[4] == "chroot"@);
    assert(denied_calls()[33] == "pivot_root"@);
}

/// No denied call starts with the letter `e`.
proof fn lemma_no_denied_call_starts_with_e(i: int)
    requires
        0 <= i < denied_calls().len(),
    ensures
        denied_calls()[i].len() > 0,
        denied_calls()[i][0] != 'e',
{
    reveal_strlit("_sysctl");
    reveal_strlit("acct");
    reveal_strlit("add_key");
    reveal_strlit("bpf");
    reveal_strlit("chroot");
    reveal_strlit("clock_adjtime");
    reveal_strlit("clock_settime");
    reveal_strlit("clone");
    reveal_strlit("connect");
    reveal_strlit("create_module");
    reveal_strlit("delete_module");
    reveal_strlit("finit_module");
    reveal_strlit("fork");
    reveal_strlit("get_kernel_syms");
    reveal_strlit("get_mempolicy");
    reveal_strlit("getdents");
    reveal_strlit("getdents64");
    reveal_strlit("init_module");
    reveal_strlit("ioperm");
    reveal_strlit("iopl");
    reveal_strlit("kcmp");
    reveal_strlit("kexec_file_load");
    reveal_strlit("kexec_load");
    reveal_strlit("keyctl");
    reveal_strlit("lookup_dcookie");
    reveal_strlit("mbind");
    reveal_strlit("mount");
    reveal_strlit("move_pages");
    reveal_strlit("name_to_handle_at");
    reveal_strlit("nfsservctl");
    reveal_strlit("open_by_handle_at");
    reveal_strlit("perf_event_open");
    reveal_strlit("personality");
    reveal_strlit("pivot_root");
    reveal_strlit("process_vm_readv");
    reveal_strlit("process_vm_writev");
    reveal_strlit("ptrace");
    reveal_strlit("query_module");
    reveal_strlit("quotactl");
    reveal_strlit("reboot");
    reveal_strlit("request_key");
    reveal_strlit("set_mempolicy");
    reveal_strlit("setns");
    reveal_strlit("setrlimit");
    reveal_strlit("settimeofday");
    reveal_strlit("swapoff");
    reveal_strlit("swapon");
    reveal_strlit("sysfs");
    reveal_strlit("umount2");
    reveal_strlit("unshare");
    reveal_strlit("uselib");
    reveal_strlit("userfaultfd");
    reveal_strlit("ustat");
    reveal_strlit("vfork");
}

/// The default policy allows `execve`, the call by which the target
/// program replaces the launcher.
pub proof fn default_policy_allows_exec()
    ensures
        default_policy().action_for("execve"@) == SyscallFilterAction::Allow,
{
    reveal_strlit("execve");
    assert("execve"@[0] == 'e');
    assert forall|i: int| 0 <= i < denied_calls().len() implies denied_calls()[i] != "execve"@ by {
        lemma_no_denied_call_starts_with_e(i);
    }
    default_policy_kills_the_denied_calls("execve"@);
}

} // verus!
