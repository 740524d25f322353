use std::cell::RefCell;

use bpfgen::compiler::{
    active_policy, build_policy, compile, emit_rules, resolve_policy, CompileError,
    CompiledProgram, PolicyBuilder, ResolvedRule,
};
use bpfgen::policy::{
    clone_userns_condition, clone_userns_rule, deny_rule, nested_deny_rule, personality_condition,
    personality_rule, policy_rules, syscall_name, tty_inject_condition, tty_inject_rule, Arch,
    Rule, Syscall, CLONE_NEWUSER_FLAG, ENOSYS_ERRNO, EPERM_ERRNO, TIOCLINUX_IOCTL, TIOCSTI_IOCTL,
};

fn numbers_for(n: usize) -> Vec<Option<i32>> {
    (0..n).map(|i| Some(1000 + i as i32)).collect()
}

fn built(nested_sandboxing_allowed: bool) -> Vec<ResolvedRule> {
    let active = active_policy(nested_sandboxing_allowed);
    let b = build_policy(Arch::X8664, nested_sandboxing_allowed, &numbers_for(active.len()))
        .unwrap();
    b.rules().clone()
}

#[test]
fn active_policy_has_the_table_in_order() {
    let active = active_policy(false);
    assert_eq!(active, policy_rules());
    assert_eq!(active.len(), 33);
    assert_eq!(active[0], deny_rule(Syscall::Syslog));
    assert_eq!(active[32], personality_rule());
}

#[test]
fn nested_mode_rules_are_a_superset() {
    let smaller = active_policy(true);
    let larger = active_policy(false);
    assert_eq!(smaller.len(), 29);
    assert_eq!(larger.len(), 33);
    for r in &smaller {
        assert!(larger.contains(r));
    }
    let extra: Vec<Rule> = larger
        .iter()
        .filter(|r| !smaller.contains(r))
        .cloned()
        .collect();
    assert_eq!(
        extra,
        vec![
            nested_deny_rule(Syscall::Chroot),
            nested_deny_rule(Syscall::Unshare),
            nested_deny_rule(Syscall::Setns),
            clone_userns_rule(),
        ]
    );
}

#[test]
fn nested_allowed_denies_mount_and_leaves_chroot_alone() {
    let rules = built(true);
    let mount: Vec<&ResolvedRule> = rules
        .iter()
        .filter(|r| r.sc == Syscall::Mount)
        .collect();
    assert_eq!(mount.len(), 1);
    assert_eq!(mount[0].errno, EPERM_ERRNO);
    assert!(mount[0].cond.is_none());
    assert!(rules.iter().all(|r| r.sc != Syscall::Chroot));
    assert!(rules.iter().all(|r| r.sc != Syscall::CloneCall));
}

#[test]
fn nested_disallowed_denies_chroot_and_flagged_clone() {
    let rules = built(false);
    let chroot: Vec<&ResolvedRule> = rules
        .iter()
        .filter(|r| r.sc == Syscall::Chroot)
        .collect();
    assert_eq!(chroot.len(), 1);
    assert_eq!(chroot[0].errno, EPERM_ERRNO);
    assert!(chroot[0].cond.is_none());
    let clone_rules: Vec<&ResolvedRule> = rules
        .iter()
        .filter(|r| r.sc == Syscall::CloneCall)
        .collect();
    assert_eq!(clone_rules.len(), 1);
    let cond = clone_rules[0].cond.expect("the clone rule is conditional");
    assert_eq!(cond, clone_userns_condition());
    assert!(cond.matches(CLONE_NEWUSER_FLAG));
    assert!(cond.matches(CLONE_NEWUSER_FLAG | 0x11));
    assert!(!cond.matches(0x100));
    assert!(!cond.matches(0));
}

#[test]
fn built_rules_carry_the_resolver_numbers_in_order() {
    let active = active_policy(false);
    let rules = built(false);
    assert_eq!(rules.len(), active.len());
    for (k, rr) in rules.iter().enumerate() {
        assert_eq!(rr.sc, active[k].sc);
        assert_eq!(rr.nr, 1000 + k as i32);
        assert_eq!(rr.cond, active[k].cond);
    }
}

#[test]
fn building_is_deterministic() {
    assert_eq!(built(false), built(false));
    assert_eq!(built(true), built(true));
}

#[test]
fn missing_resolution_fails_with_the_first_unknown_syscall() {
    let active = active_policy(false);
    let mut answers = numbers_for(active.len());
    answers[0] = None;
    let r = build_policy(Arch::X8664, false, &answers);
    assert!(matches!(
        r,
        Err(CompileError::UnknownSyscall { name: "syslog", arch: Arch::X8664 })
    ));

    let mut answers = numbers_for(active.len());
    answers[32] = None;
    let r = build_policy(Arch::X8664, false, &answers);
    assert!(matches!(
        r,
        Err(CompileError::UnknownSyscall { name: "personality", arch: Arch::X8664 })
    ));

    let mut answers = numbers_for(active.len());
    answers[12] = None;
    answers[16] = None;
    let r = build_policy(Arch::X8664, false, &answers);
    assert!(matches!(
        r,
        Err(CompileError::UnknownSyscall { name: "mount", arch: Arch::X8664 })
    ));
}

#[test]
fn personality_condition_denies_only_non_default() {
    let c = personality_condition();
    assert!(!c.matches(0));
    assert!(c.matches(1));
    assert!(c.matches(0x0008));
    assert!(c.matches(u64::MAX));
}

#[test]
fn tty_inject_conditions_compare_low_bits() {
    let sti = tty_inject_condition(TIOCSTI_IOCTL);
    assert!(sti.matches(0x5412));
    assert!(sti.matches(0xAB00_0000_5412));
    assert!(!sti.matches(0x541C));
    let linux = tty_inject_condition(TIOCLINUX_IOCTL);
    assert!(linux.matches(0x541C));
    assert!(!linux.matches(0x5412));
}

#[test]
fn errno_groups_never_share_a_code() {
    let probe_denied = [
        Syscall::Clone3,
        Syscall::OpenTree,
        Syscall::MoveMount,
        Syscall::Fsopen,
        Syscall::Fsconfig,
        Syscall::Fsmount,
        Syscall::Fspick,
        Syscall::MountSetattr,
    ];
    assert_ne!(EPERM_ERRNO, ENOSYS_ERRNO);
    for r in built(false) {
        if probe_denied.contains(&r.sc) {
            assert_eq!(r.errno, ENOSYS_ERRNO);
        } else {
            assert_eq!(r.errno, EPERM_ERRNO);
        }
    }
}

#[test]
fn table_marks_exactly_the_nested_sandbox_rules() {
    let nested: Vec<Syscall> = policy_rules()
        .iter()
        .filter(|r| r.nested_only)
        .map(|r| r.sc)
        .collect();
    assert_eq!(
        nested,
        vec![Syscall::Chroot, Syscall::Unshare, Syscall::Setns, Syscall::CloneCall]
    );
    assert!(clone_userns_rule().cond.is_some());
    assert!(nested_deny_rule(Syscall::Chroot).cond.is_none());
}

#[test]
fn duplicate_unconditional_rule_is_rejected() {
    let mut b = PolicyBuilder::new(Arch::X8664);
    b.add_resolved(&deny_rule(Syscall::Syslog), Some(103)).unwrap();
    let second = b.add_resolved(&deny_rule(Syscall::Syslog), Some(103));
    assert!(matches!(
        second,
        Err(CompileError::DuplicateRule { name: "syslog", arch: Arch::X8664 })
    ));
    assert_eq!(b.rules().len(), 1);
}

#[test]
fn missing_answer_is_rejected_by_the_accumulator() {
    let mut b = PolicyBuilder::new(Arch::X8664);
    let r = b.add_resolved(&deny_rule(Syscall::Acct), None);
    assert!(matches!(
        r,
        Err(CompileError::UnknownSyscall { name: "acct", arch: Arch::X8664 })
    ));
    assert_eq!(b.rules().len(), 0);
}

#[test]
fn conditional_rules_do_not_collide_with_unconditional_ones() {
    let mut b = PolicyBuilder::new(Arch::X8664);
    b.add_resolved(&tty_inject_rule(TIOCSTI_IOCTL), Some(16)).unwrap();
    b.add_resolved(&tty_inject_rule(TIOCLINUX_IOCTL), Some(16)).unwrap();
    assert_eq!(b.rules().len(), 2);
}

#[test]
fn resolver_answers_attach_to_their_own_names() {
    let b = resolve_policy(Arch::X8664, false, &|name: &'static str| Some(name.len() as i32))
        .unwrap();
    let active = active_policy(false);
    assert_eq!(b.rules().len(), active.len());
    for (k, rr) in b.rules().iter().enumerate() {
        assert_eq!(rr.nr as usize, syscall_name(active[k].sc).len());
    }
    assert_eq!(b.rules()[0].nr, 6);
}

#[test]
fn resolve_policy_reports_the_first_missing_name() {
    let resolver = |name: &'static str| if name == "mount" { None } else { Some(7) };
    let r = resolve_policy(Arch::X8664, true, &resolver);
    assert!(matches!(
        r,
        Err(CompileError::UnknownSyscall { name: "mount", arch: Arch::X8664 })
    ));
    let r = resolve_policy(Arch::X8664, false, &|_: &'static str| Some(7));
    assert!(r.is_ok());
}

#[test]
fn emit_rules_hands_every_rule_over_in_order() {
    let active = active_policy(false);
    let b = build_policy(Arch::X8664, false, &numbers_for(active.len())).unwrap();
    let seen: RefCell<Vec<ResolvedRule>> = RefCell::new(Vec::new());
    let sink = |rr: ResolvedRule| -> Result<(), String> {
        seen.borrow_mut().push(rr);
        Ok(())
    };
    emit_rules(&b, &sink).unwrap();
    assert_eq!(*seen.borrow(), *b.rules());
}

#[test]
fn emit_rules_stops_at_the_first_refusal() {
    let active = active_policy(false);
    let b = build_policy(Arch::X8664, false, &numbers_for(active.len())).unwrap();
    let seen: RefCell<Vec<ResolvedRule>> = RefCell::new(Vec::new());
    let sink = |rr: ResolvedRule| -> Result<(), String> {
        if rr.sc == Syscall::Mount {
            return Err("refused".to_string());
        }
        seen.borrow_mut().push(rr);
        Ok(())
    };
    let r = emit_rules(&b, &sink);
    assert!(matches!(
        r,
        Err(CompileError::SerializationFailure { reason }) if reason == "refused"
    ));
    assert_eq!(seen.borrow().len(), 12);
    assert_eq!(seen.borrow().as_slice(), &b.rules()[..12]);
}

#[test]
fn compile_drives_all_three_collaborators() {
    let seen: RefCell<Vec<ResolvedRule>> = RefCell::new(Vec::new());
    let resolver = |name: &'static str| Some(name.len() as i32);
    let sink = |rr: ResolvedRule| -> Result<(), String> {
        seen.borrow_mut().push(rr);
        Ok(())
    };
    let export = || -> Result<Vec<u8>, String> { Ok(vec![7u8, 7, 7]) };
    let p = compile(Arch::X8664, false, &resolver, &sink, &export).unwrap();
    assert_eq!(p.as_bytes(), &[7u8, 7, 7]);
    assert_eq!(seen.borrow().len(), 33);

    let refusing = || -> Result<Vec<u8>, String> { Err("no room".to_string()) };
    let r = compile(Arch::X8664, false, &resolver, &sink, &refusing);
    assert!(matches!(
        r,
        Err(CompileError::SerializationFailure { reason }) if reason == "no room"
    ));

    let blind = |_: &'static str| -> Option<i32> { None };
    let r = compile(Arch::X8664, true, &blind, &sink, &export);
    assert!(matches!(
        r,
        Err(CompileError::UnknownSyscall { name: "syslog", arch: Arch::X8664 })
    ));
}

#[test]
fn compiled_program_keeps_its_bytes() {
    let bytes = vec![0x20u8, 0x00, 0x00, 0x00, 0x04, 0x15];
    let p = CompiledProgram::from_bytes(bytes.clone());
    assert_eq!(p.as_bytes(), bytes.as_slice());
    assert_eq!(p.len(), bytes.len());
}
