//! The declarative denial policy: which syscalls are denied, with which errno,
//! under which argument conditions, and in which sandboxing mode.
use vstd::prelude::*;

verus! {

/// Errno for rules that deny an operation outright ("operation not permitted").
pub const EPERM_ERRNO: i32 = 1;

/// Errno for rules that make a syscall look absent ("function not implemented"),
/// so that software probing for the new mount-API syscalls degrades gracefully.
pub const ENOSYS_ERRNO: i32 = 38;

/// The clone flag that requests a new user namespace.
pub const CLONE_NEWUSER_FLAG: u64 = 0x10000000;

/// Ioctl operation code that injects input into the controlling terminal.
pub const TIOCSTI_IOCTL: u64 = 0x5412;

/// Ioctl operation code for the Linux virtual-console interface.
pub const TIOCLINUX_IOCTL: u64 = 0x541C;

/// Mask selecting the low 32 bits of an ioctl request argument.
pub const LOW_WORD_MASK: u64 = 0xFFFF_FFFF;

/// A CPU instruction-set ABI that a filter program can target.
#[derive(Clone, Copy, PartialEq, Eq, Structural, Debug)]
pub enum Arch {
    X8664,
}

/// The syscalls that the policy table speaks of.
#[derive(Clone, Copy, PartialEq, Eq, Structural, Debug)]
pub enum Syscall {
    Syslog,
    Uselib,
    Acct,
    Quotactl,
    AddKey,
    Keyctl,
    RequestKey,
    MovePages,
    Mbind,
    GetMempolicy,
    SetMempolicy,
    MigratePages,
    Mount,
    Umount,
    Umount2,
    PivotRoot,
    Chroot,
    Unshare,
    Setns,
    CloneCall,
    Ioctl,
    Clone3,
    OpenTree,
    MoveMount,
    Fsopen,
    Fsconfig,
    Fsmount,
    Fspick,
    MountSetattr,
    PerfEventOpen,
    Ptrace,
    Personality,
}

/// The kernel name of a syscall, as the resolver expects it.
pub open spec fn spec_name(sc: Syscall) -> Seq<char> {
    match sc {
        Syscall::Syslog => "syslog"@,
        Syscall::Uselib => "uselib"@,
        Syscall::Acct => "acct"@,
        Syscall::Quotactl => "quotactl"@,
        Syscall::AddKey => "add_key"@,
        Syscall::Keyctl => "keyctl"@,
        Syscall::RequestKey => "request_key"@,
        Syscall::MovePages => "move_pages"@,
        Syscall::Mbind => "mbind"@,
        Syscall::GetMempolicy => "get_mempolicy"@,
        Syscall::SetMempolicy => "set_mempolicy"@,
        Syscall::MigratePages => "migrate_pages"@,
        Syscall::Mount => "mount"@,
        Syscall::Umount => "umount"@,
        Syscall::Umount2 => "umount2"@,
        Syscall::PivotRoot => "pivot_root"@,
        Syscall::Chroot => "chroot"@,
        Syscall::Unshare => "unshare"@,
        Syscall::Setns => "setns"@,
        Syscall::CloneCall => "clone"@,
        Syscall::Ioctl => "ioctl"@,
        Syscall::Clone3 => "clone3"@,
        Syscall::OpenTree => "open_tree"@,
        Syscall::MoveMount => "move_mount"@,
        Syscall::Fsopen => "fsopen"@,
        Syscall::Fsconfig => "fsconfig"@,
        Syscall::Fsmount => "fsmount"@,
        Syscall::Fspick => "fspick"@,
        Syscall::MountSetattr => "mount_setattr"@,
        Syscall::PerfEventOpen => "perf_event_open"@,
        Syscall::Ptrace => "ptrace"@,
        Syscall::Personality => "personality"@,
    }
}

/// The kernel name of a syscall, for handing to the resolver.
pub fn syscall_name(sc: Syscall) -> (r: &'static str)
    ensures
        r@ == spec_name(sc),
{
    match sc {
        Syscall::Syslog => "syslog",
        Syscall::Uselib => "uselib",
        Syscall::Acct => "acct",
        Syscall::Quotactl => "quotactl",
        Syscall::AddKey => "add_key",
        Syscall::Keyctl => "keyctl",
        Syscall::RequestKey => "request_key",
        Syscall::MovePages => "move_pages",
        Syscall::Mbind => "mbind",
        Syscall::GetMempolicy => "get_mempolicy",
        Syscall::SetMempolicy => "set_mempolicy",
        Syscall::MigratePages => "migrate_pages",
        Syscall::Mount => "mount",
        Syscall::Umount => "umount",
        Syscall::Umount2 => "umount2",
        Syscall::PivotRoot => "pivot_root",
        Syscall::Chroot => "chroot",
        Syscall::Unshare => "unshare",
        Syscall::Setns => "setns",
        Syscall::CloneCall => "clone",
        Syscall::Ioctl => "ioctl",
        Syscall::Clone3 => "clone3",
        Syscall::OpenTree => "open_tree",
        Syscall::MoveMount => "move_mount",
        Syscall::Fsopen => "fsopen",
        Syscall::Fsconfig => "fsconfig",
        Syscall::Fsmount => "fsmount",
        Syscall::Fspick => "fspick",
        Syscall::MountSetattr => "mount_setattr",
        Syscall::PerfEventOpen => "perf_event_open",
        Syscall::Ptrace => "ptrace",
        Syscall::Personality => "personality",
    }
}

/// How one syscall argument register is compared against a value.
#[derive(Clone, Copy, PartialEq, Eq, Structural, Debug)]
pub enum CmpOp {
    /// The argument, bitwise-ANDed with the mask, must equal the value.
    MaskedEq,
    /// The argument must differ from the value; the mask is unused and zero.
    NotEq,
}

/// A predicate over one syscall argument register.
#[derive(Clone, Copy, PartialEq, Eq, Structural, Debug)]
pub struct Condition {
    /// Zero-based index of the argument register the predicate inspects.
    pub arg: u32,
    /// The comparison operator.
    pub op: CmpOp,
    /// The bitmask applied before comparing, for `MaskedEq`; zero otherwise.
    pub mask: u64,
    /// The value compared against.
    pub value: u64,
}

/// Whether a condition holds of one argument register's value.
pub open spec fn spec_cond_matches(c: Condition, x: u64) -> bool {
    match c.op {
        CmpOp::MaskedEq => (x & c.mask) == c.value,
        CmpOp::NotEq => x != c.value,
    }
}

impl Condition {
    /// Evaluates the condition on one argument register's value.
    pub fn matches(&self, x: u64) -> (r: bool)
        ensures
            r == spec_cond_matches(*self, x),
    {
        match self.op {
            CmpOp::MaskedEq => (x & self.mask) == self.value,
            CmpOp::NotEq => x != self.value,
        }
    }
}

/// What the filter does with a matching syscall.
#[derive(Clone, Copy, PartialEq, Eq, Structural, Debug)]
pub enum Action {
    /// Let the syscall through; the baseline for everything the table omits.
    Allow,
    /// Fail the syscall with the given errno instead of performing it.
    Deny(i32),
}

/// One entry of the denial policy.
#[derive(Clone, Copy, PartialEq, Eq, Debug)]
pub struct Rule {
    /// The syscall the rule is about.
    pub sc: Syscall,
    /// What to do when the rule matches.
    pub action: Action,
    /// An argument predicate; `None` denies the syscall unconditionally.
    pub cond: Option<Condition>,
    /// True for rules that apply only while nested sandboxing is disallowed.
    pub nested_only: bool,
}

/// A rule the compiler accepts: it denies with a positive errno, and any
/// condition inspects one of the six syscall argument registers.
pub open spec fn rule_wf(r: Rule) -> bool {
    &&& match r.action {
        Action::Deny(e) => 1 <= e,
        Action::Allow => false,
    }
    &&& match r.cond {
        Some(c) => c.arg < 6,
        None => true,
    }
}

/// The errno a rule denies with.
pub open spec fn rule_errno(r: Rule) -> i32 {
    match r.action {
        Action::Deny(e) => e,
        Action::Allow => 0,
    }
}

/// An unconditional "operation not permitted" rule, active in both modes.
pub open spec fn spec_deny_rule(sc: Syscall) -> Rule {
    Rule { sc, action: Action::Deny(EPERM_ERRNO), cond: None, nested_only: false }
}

/// An unconditional "operation not permitted" rule, active in both modes.
#[verifier::when_used_as_spec(spec_deny_rule)]
pub fn deny_rule(sc: Syscall) -> (r: Rule)
    ensures
        r == spec_deny_rule(sc),
{
    Rule { sc, action: Action::Deny(EPERM_ERRNO), cond: None, nested_only: false }
}

/// An unconditional rule active only while nested sandboxing is disallowed.
pub open spec fn spec_nested_deny_rule(sc: Syscall) -> Rule {
    Rule { sc, action: Action::Deny(EPERM_ERRNO), cond: None, nested_only: true }
}

/// An unconditional rule active only while nested sandboxing is disallowed.
#[verifier::when_used_as_spec(spec_nested_deny_rule)]
pub fn nested_deny_rule(sc: Syscall) -> (r: Rule)
    ensures
        r == spec_nested_deny_rule(sc),
{
    Rule { sc, action: Action::Deny(EPERM_ERRNO), cond: None, nested_only: true }
}

/// An unconditional "function not implemented" rule: the syscall looks absent.
pub open spec fn spec_probe_deny_rule(sc: Syscall) -> Rule {
    Rule { sc, action: Action::Deny(ENOSYS_ERRNO), cond: None, nested_only: false }
}

/// An unconditional "function not implemented" rule: the syscall looks absent.
#[verifier::when_used_as_spec(spec_probe_deny_rule)]
pub fn probe_deny_rule(sc: Syscall) -> (r: Rule)
    ensures
        r == spec_probe_deny_rule(sc),
{
    Rule { sc, action: Action::Deny(ENOSYS_ERRNO), cond: None, nested_only: false }
}

/// The condition on clone's flags argument: a new user namespace is requested.
pub open spec fn spec_clone_userns_condition() -> Condition {
    Condition { arg: 0, op: CmpOp::MaskedEq, mask: CLONE_NEWUSER_FLAG, value: CLONE_NEWUSER_FLAG }
}

/// The condition on clone's flags argument: a new user namespace is requested.
#[verifier::when_used_as_spec(spec_clone_userns_condition)]
pub fn clone_userns_condition() -> (c: Condition)
    ensures
        c == spec_clone_userns_condition(),
{
    Condition { arg: 0, op: CmpOp::MaskedEq, mask: CLONE_NEWUSER_FLAG, value: CLONE_NEWUSER_FLAG }
}

/// The rule denying namespace-creating clone, active only while nested
/// sandboxing is disallowed.
pub open spec fn spec_clone_userns_rule() -> Rule {
    Rule {
        sc: Syscall::CloneCall,
        action: Action::Deny(EPERM_ERRNO),
        cond: Some(spec_clone_userns_condition()),
        nested_only: true,
    }
}

/// The rule denying namespace-creating clone, active only while nested
/// sandboxing is disallowed.
#[verifier::when_used_as_spec(spec_clone_userns_rule)]
pub fn clone_userns_rule() -> (r: Rule)
    ensures
        r == spec_clone_userns_rule(),
{
    Rule {
        sc: Syscall::CloneCall,
        action: Action::Deny(EPERM_ERRNO),
        cond: Some(clone_userns_condition()),
        nested_only: true,
    }
}

/// The condition on ioctl's request argument: its low 32 bits equal the given
/// terminal-injection operation code.
pub open spec fn spec_tty_inject_condition(code: u64) -> Condition {
    Condition { arg: 1, op: CmpOp::MaskedEq, mask: LOW_WORD_MASK, value: code }
}

/// The condition on ioctl's request argument: its low 32 bits equal the given
/// terminal-injection operation code.
#[verifier::when_used_as_spec(spec_tty_inject_condition)]
pub fn tty_inject_condition(code: u64) -> (c: Condition)
    ensures
        c == spec_tty_inject_condition(code),
{
    Condition { arg: 1, op: CmpOp::MaskedEq, mask: LOW_WORD_MASK, value: code }
}

/// The rule denying an ioctl whose request code injects terminal input.
pub open spec fn spec_tty_inject_rule(code: u64) -> Rule {
    Rule {
        sc: Syscall::Ioctl,
        action: Action::Deny(EPERM_ERRNO),
        cond: Some(spec_tty_inject_condition(code)),
        nested_only: false,
    }
}

/// The rule denying an ioctl whose request code injects terminal input.
#[verifier::when_used_as_spec(spec_tty_inject_rule)]
pub fn tty_inject_rule(code: u64) -> (r: Rule)
    ensures
        r == spec_tty_inject_rule(code),
{
    Rule {
        sc: Syscall::Ioctl,
        action: Action::Deny(EPERM_ERRNO),
        cond: Some(tty_inject_condition(code)),
        nested_only: false,
    }
}

/// The condition on personality's first argument: any persona other than the
/// default (zero).
pub open spec fn spec_personality_condition() -> Condition {
    Condition { arg: 0, op: CmpOp::NotEq, mask: 0, value: 0 }
}

/// The condition on personality's first argument: any persona other than the
/// default (zero).
#[verifier::when_used_as_spec(spec_personality_condition)]
pub fn personality_condition() -> (c: Condition)
    ensures
        c == spec_personality_condition(),
{
    Condition { arg: 0, op: CmpOp::NotEq, mask: 0, value: 0 }
}

/// The rule denying every change to a non-default personality.
pub open spec fn spec_personality_rule() -> Rule {
    Rule {
        sc: Syscall::Personality,
        action: Action::Deny(EPERM_ERRNO),
        cond: Some(spec_personality_condition()),
        nested_only: false,
    }
}

/// The rule denying every change to a non-default personality.
#[verifier::when_used_as_spec(spec_personality_rule)]
pub fn personality_rule() -> (r: Rule)
    ensures
        r == spec_personality_rule(),
{
    Rule {
        sc: Syscall::Personality,
        action: Action::Deny(EPERM_ERRNO),
        cond: Some(personality_condition()),
        nested_only: false,
    }
}

/// The fixed policy table, in the order the compiler emits it.
pub open spec fn policy_table() -> Seq<Rule> {
    seq![
        spec_deny_rule(Syscall::Syslog),
        spec_deny_rule(Syscall::Uselib),
        spec_deny_rule(Syscall::Acct),
        spec_deny_rule(Syscall::Quotactl),
        spec_deny_rule(Syscall::AddKey),
        spec_deny_rule(Syscall::Keyctl),
        spec_deny_rule(Syscall::RequestKey),
        spec_deny_rule(Syscall::MovePages),
        spec_deny_rule(Syscall::Mbind),
        spec_deny_rule(Syscall::GetMempolicy),
        spec_deny_rule(Syscall::SetMempolicy),
        spec_deny_rule(Syscall::MigratePages),
        spec_deny_rule(Syscall::Mount),
        spec_deny_rule(Syscall::Umount),
        spec_deny_rule(Syscall::Umount2),
        spec_deny_rule(Syscall::PivotRoot),
        spec_nested_deny_rule(Syscall::Chroot),
        spec_nested_deny_rule(Syscall::Unshare),
        spec_nested_deny_rule(Syscall::Setns),
        spec_clone_userns_rule(),
        spec_tty_inject_rule(TIOCSTI_IOCTL),
        spec_tty_inject_rule(TIOCLINUX_IOCTL),
        spec_probe_deny_rule(Syscall::Clone3),
        spec_probe_deny_rule(Syscall::OpenTree),
        spec_probe_deny_rule(Syscall::MoveMount),
        spec_probe_deny_rule(Syscall::Fsopen),
        spec_probe_deny_rule(Syscall::Fsconfig),
        spec_probe_deny_rule(Syscall::Fsmount),
        spec_probe_deny_rule(Syscall::Fspick),
        spec_probe_deny_rule(Syscall::MountSetattr),
        spec_deny_rule(Syscall::PerfEventOpen),
        spec_deny_rule(Syscall::Ptrace),
        spec_personality_rule(),
    ]
}

/// The fixed policy table as an executable value.
pub fn policy_rules() -> (v: Vec<Rule>)
    ensures
        v@ == policy_table(),
{
    let mut v: Vec<Rule> = Vec::new();
    v.push(deny_rule(Syscall::Syslog));
    v.push(deny_rule(Syscall::Uselib));
    v.push(deny_rule(Syscall::Acct));
    v.push(deny_rule(Syscall::Quotactl));
    v.push(deny_rule(Syscall::AddKey));
    v.push(deny_rule(Syscall::Keyctl));
    v.push(deny_rule(Syscall::RequestKey));
    v.push(deny_rule(Syscall::MovePages));
    v.push(deny_rule(Syscall::Mbind));
    v.push(deny_rule(Syscall::GetMempolicy));
    v.push(deny_rule(Syscall::SetMempolicy));
    v.push(deny_rule(Syscall::MigratePages));
    v.push(deny_rule(Syscall::Mount));
    v.push(deny_rule(Syscall::Umount));
    v.push(deny_rule(Syscall::Umount2));
    v.push(deny_rule(Syscall::PivotRoot));
    v.push(nested_deny_rule(Syscall::Chroot));
    v.push(nested_deny_rule(Syscall::Unshare));
    v.push(nested_deny_rule(Syscall::Setns));
    v.push(clone_userns_rule());
    v.push(tty_inject_rule(TIOCSTI_IOCTL));
    v.push(tty_inject_rule(TIOCLINUX_IOCTL));
    v.push(probe_deny_rule(Syscall::Clone3));
    v.push(probe_deny_rule(Syscall::OpenTree));
    v.push(probe_deny_rule(Syscall::MoveMount));
    v.push(probe_deny_rule(Syscall::Fsopen));
    v.push(probe_deny_rule(Syscall::Fsconfig));
    v.push(probe_deny_rule(Syscall::Fsmount));
    v.push(probe_deny_rule(Syscall::Fspick));
    v.push(probe_deny_rule(Syscall::MountSetattr));
    v.push(deny_rule(Syscall::PerfEventOpen));
    v.push(deny_rule(Syscall::Ptrace));
    v.push(personality_rule());
    proof {
        assert(v@ =~= policy_table());
    }
    v
}

/// Whether a rule is part of the policy in the given mode.
pub open spec fn rule_active(r: Rule, nested_sandboxing_allowed: bool) -> bool {
    !r.nested_only || !nested_sandboxing_allowed
}

/// The subsequence of a table that is active in the given mode, table order kept.
pub open spec fn active_rules(tab: Seq<Rule>, nested_sandboxing_allowed: bool) -> Seq<Rule>
    decreases tab.len(),
{
    if tab.len() == 0 {
        Seq::empty()
    } else {
        let rest = active_rules(tab.drop_last(), nested_sandboxing_allowed);
        if rule_active(tab.last(), nested_sandboxing_allowed) {
            rest.push(tab.last())
        } else {
            rest
        }
    }
}

/// With nested sandboxing disallowed, every rule of the table is active.
pub proof fn lemma_active_all(tab: Seq<Rule>)
    ensures
        active_rules(tab, false) == tab,
    decreases tab.len(),
{
    if tab.len() > 0 {
        lemma_active_all(tab.drop_last());
        assert(active_rules(tab, false) =~= tab);
    } else {
        assert(active_rules(tab, false) =~= tab);
    }
}

/// The active rules are exactly the table rules whose applicability tag admits
/// the mode.
pub proof fn lemma_active_contains(tab: Seq<Rule>, m: bool)
    ensures
        forall|r: Rule|
            active_rules(tab, m).contains(r) <==> (tab.contains(r) && rule_active(r, m)),
    decreases tab.len(),
{
    if tab.len() > 0 {
        let rest = active_rules(tab.drop_last(), m);
        lemma_active_contains(tab.drop_last(), m);
        assert forall|r: Rule| tab.contains(r) && rule_active(r, m) implies active_rules(
            tab,
            m,
        ).contains(r) by {
            let k = choose|k: int| 0 <= k < tab.len() && tab[k] == r;
            if k < tab.len() - 1 {
                assert(tab.drop_last()[k] == r);
                assert(tab.drop_last().contains(r));
                let j = choose|j: int| 0 <= j < rest.len() && rest[j] == r;
                assert(active_rules(tab, m)[j] == r);
            } else {
                assert(tab.last() == r);
                assert(active_rules(tab, m).last() == r);
            }
        }
        assert forall|r: Rule| active_rules(tab, m).contains(r) implies (tab.contains(r)
            && rule_active(r, m)) by {
            let j = choose|j: int| 0 <= j < active_rules(tab, m).len() && active_rules(tab, m)[j]
                == r;
            if j < rest.len() {
                assert(rest[j] == r);
                assert(tab.drop_last().contains(r));
                let k = choose|k: int| 0 <= k < tab.drop_last().len() && tab.drop_last()[k] == r;
                assert(tab[k] == r);
                assert(tab.contains(r));
            } else {
                assert(r == tab.last());
                assert(tab[tab.len() - 1] == r);
                assert(tab.contains(r));
            }
        }
    }
}

/// No two unconditional rules of a table name the same syscall.
pub open spec fn no_duplicate_unconditional(tab: Seq<Rule>) -> bool {
    forall|i: int, j: int|
        0 <= i < j < tab.len() && tab[i].cond is None && tab[j].cond is None ==> tab[i].sc
            != tab[j].sc
}

/// The fixed policy table carries no duplicate unconditional rule.
pub proof fn lemma_table_distinct()
    ensures
        no_duplicate_unconditional(policy_table()),
{
}

/// Every rule of the fixed policy table is well formed.
pub proof fn lemma_table_wf()
    ensures
        forall|i: int| 0 <= i < policy_table().len() ==> rule_wf(#[trigger] policy_table()[i]),
{
}

/// Selecting the active rules keeps a duplicate-free table duplicate-free.
pub proof fn lemma_active_no_dup(tab: Seq<Rule>, m: bool)
    requires
        no_duplicate_unconditional(tab),
    ensures
        no_duplicate_unconditional(active_rules(tab, m)),
    decreases tab.len(),
{
    if tab.len() > 0 {
        let rest_tab = tab.drop_last();
        let act = active_rules(tab, m);
        let rest = active_rules(rest_tab, m);
        assert forall|i: int, j: int|
            0 <= i < j < rest_tab.len() && rest_tab[i].cond is None
                && rest_tab[j].cond is None implies rest_tab[i].sc != rest_tab[j].sc by {
            assert(rest_tab[i] == tab[i] && rest_tab[j] == tab[j]);
        }
        lemma_active_no_dup(rest_tab, m);
        lemma_active_contains(rest_tab, m);
        assert forall|i: int, j: int|
            0 <= i < j < act.len() && act[i].cond is None && act[j].cond is None implies act[i].sc
            != act[j].sc by {
            if j < rest.len() {
                assert(act[i] == rest[i] && act[j] == rest[j]);
            } else {
                assert(act[j] == tab.last());
                assert(act[i] == rest[i]);
                assert(rest.contains(rest[i]));
                assert(rest_tab.contains(rest[i]));
                let k = choose|k: int| 0 <= k < rest_tab.len() && rest_tab[k] == rest[i];
                assert(tab[k] == rest[i]);
                assert(tab[tab.len() - 1] == tab.last());
            }
        }
    }
}

/// The syscalls that the new mount-API group of the table denies by making
/// them look unimplemented.
pub open spec fn new_mount_api(sc: Syscall) -> bool {
    ||| sc == Syscall::Clone3
    ||| sc == Syscall::OpenTree
    ||| sc == Syscall::MoveMount
    ||| sc == Syscall::Fsopen
    ||| sc == Syscall::Fsconfig
    ||| sc == Syscall::Fsmount
    ||| sc == Syscall::Fspick
    ||| sc == Syscall::MountSetattr
}

/// Errno fidelity: the new mount-API rules deny with "function not
/// implemented"; every other rule of the table denies with "operation not
/// permitted"; and the two codes differ.
pub proof fn lemma_errno_fidelity()
    ensures
        forall|i: int|
            0 <= i < policy_table().len() ==> rule_errno(#[trigger] policy_table()[i]) == (
            if new_mount_api(policy_table()[i].sc) {
                ENOSYS_ERRNO
            } else {
                EPERM_ERRNO
            }),
        EPERM_ERRNO != ENOSYS_ERRNO,
{
}

/// Law: the personality condition matches exactly the non-default personas —
/// it denies a personality call if and only if its argument is non-zero.
pub proof fn lemma_personality_condition()
    ensures
        forall|x: u64| spec_cond_matches(spec_personality_condition(), x) <==> x != 0,
{
}

/// Law: the clone condition matches exactly the namespace-creating calls — it
/// denies a clone call if and only if the new-user-namespace bit is set in
/// the flags argument.
pub proof fn lemma_clone_condition()
    ensures
        forall|x: u64|
            spec_cond_matches(spec_clone_userns_condition(), x) <==> (x & CLONE_NEWUSER_FLAG)
                == CLONE_NEWUSER_FLAG,
{
}

/// Law: the conditional rules of the table are exactly as advertised — the
/// personality rule carries the non-default-persona condition, the clone rule
/// carries the user-namespace condition and applies only while nested
/// sandboxing is disallowed, and the ioctl rules carry the two
/// terminal-injection conditions; every other rule is unconditional.
pub proof fn lemma_table_conditions()
    ensures
        forall|i: int|
            0 <= i < policy_table().len() && (#[trigger] policy_table()[i]).sc
                == Syscall::Personality ==> policy_table()[i].cond == Some(
                spec_personality_condition(),
            ),
        forall|i: int|
            0 <= i < policy_table().len() && (#[trigger] policy_table()[i]).sc
                == Syscall::CloneCall ==> policy_table()[i].cond == Some(
                spec_clone_userns_condition(),
            ) && policy_table()[i].nested_only,
        forall|i: int|
            0 <= i < policy_table().len() && (#[trigger] policy_table()[i]).sc == Syscall::Ioctl
                ==> (policy_table()[i].cond == Some(spec_tty_inject_condition(TIOCSTI_IOCTL))
                || policy_table()[i].cond == Some(spec_tty_inject_condition(TIOCLINUX_IOCTL))),
        forall|i: int|
            0 <= i < policy_table().len() && (#[trigger] policy_table()[i]).sc
                != Syscall::Personality && policy_table()[i].sc != Syscall::CloneCall
                && policy_table()[i].sc != Syscall::Ioctl ==> policy_table()[i].cond is None,
{
}

/// Mode sensitivity: the rules active while nested sandboxing is disallowed
/// are a strict superset of those active while it is allowed, and the rules
/// present only in the former are exactly the nested-sandbox rules: chroot,
/// unshare, setns, and the namespace-flagged branch of clone.
pub proof fn lemma_mode_superset()
    ensures
        forall|r: Rule|
            active_rules(policy_table(), true).contains(r) ==> active_rules(
                policy_table(),
                false,
            ).contains(r),
        exists|r: Rule|
            active_rules(policy_table(), false).contains(r) && !active_rules(
                policy_table(),
                true,
            ).contains(r),
        forall|r: Rule|
            (active_rules(policy_table(), false).contains(r) && !active_rules(
                policy_table(),
                true,
            ).contains(r)) <==> (policy_table().contains(r) && r.nested_only),
        forall|r: Rule|
            policy_table().contains(r) && r.nested_only ==> (r == spec_nested_deny_rule(
                Syscall::Chroot,
            ) || r == spec_nested_deny_rule(Syscall::Unshare) || r == spec_nested_deny_rule(
                Syscall::Setns,
            ) || r == spec_clone_userns_rule()),
{
    lemma_active_all(policy_table());
    lemma_active_contains(policy_table(), true);
    lemma_active_contains(policy_table(), false);
    assert(policy_table()[16] == spec_nested_deny_rule(Syscall::Chroot));
    assert(policy_table().contains(spec_nested_deny_rule(Syscall::Chroot)));
    assert forall|r: Rule| policy_table().contains(r) && r.nested_only implies (r
        == spec_nested_deny_rule(Syscall::Chroot) || r == spec_nested_deny_rule(Syscall::Unshare)
        || r == spec_nested_deny_rule(Syscall::Setns) || r == spec_clone_userns_rule()) by {
        let k = choose|k: int| 0 <= k < policy_table().len() && policy_table()[k] == r;
    }
}

} // verus!
