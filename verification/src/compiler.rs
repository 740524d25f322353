//! The policy compiler core: it decides which rules are active in a mode,
//! folds the resolver's answers into a resolved policy, and guards against
//! configuration errors. Resolving names and rendering the result as
//! kernel-loadable bytes are the resolver's and backend's work, performed by
//! the caller around this core, which hands their answers in as plain values.
use crate::policy::{
    active_rules, policy_rules, policy_table, rule_active, rule_errno, rule_wf, spec_name,
    syscall_name, Action, Arch, Condition, Rule, Syscall,
};
use vstd::prelude::*;

verus! {

/// A policy rule whose syscall name has been resolved for one architecture.
#[derive(Clone, Copy, PartialEq, Eq, Debug)]
pub struct ResolvedRule {
    /// The syscall the rule is about.
    pub sc: Syscall,
    /// The architecture-specific syscall number.
    pub nr: i32,
    /// The errno the rule denies with.
    pub errno: i32,
    /// The argument predicate, if the rule is conditional.
    pub cond: Option<Condition>,
}

/// Why a compilation failed.
#[derive(Debug)]
pub enum CompileError {
    /// A policy syscall name has no number for the target architecture.
    UnknownSyscall { name: &'static str, arch: Arch },
    /// A second unconditional rule was registered for a syscall that already
    /// has one; a configuration error, impossible with the built-in table.
    DuplicateRule { name: &'static str, arch: Arch },
    /// The backend could not represent or render the accumulated rules.
    SerializationFailure { reason: String },
}

/// The resolved form of one rule, given its syscall number.
pub open spec fn spec_resolve_with(r: Rule, nr: i32) -> ResolvedRule {
    ResolvedRule { sc: r.sc, nr, errno: rule_errno(r), cond: r.cond }
}

/// The resolved form of a rule sequence, given one resolver answer per rule.
pub open spec fn resolved_with(rs: Seq<Rule>, ns: Seq<Option<i32>>) -> Seq<ResolvedRule> {
    Seq::new(rs.len(), |i: int| spec_resolve_with(rs[i], ns[i].unwrap()))
}

/// Whether every resolver answer is a number.
pub open spec fn all_resolved(ns: Seq<Option<i32>>) -> bool {
    forall|i: int| 0 <= i < ns.len() ==> (#[trigger] ns[i]) is Some
}

/// Index `i` is the first rule whose resolver answer is missing.
pub open spec fn first_unresolved(ns: Seq<Option<i32>>, i: int) -> bool {
    &&& 0 <= i < ns.len()
    &&& ns[i] is None
    &&& forall|j: int| 0 <= j < i ==> (#[trigger] ns[j]) is Some
}

/// Whether adding `r` as an unconditional rule would conflict with an
/// unconditional rule already accumulated for the same syscall.
pub open spec fn duplicate_unconditional(rs: Seq<ResolvedRule>, r: Rule) -> bool {
    r.cond is None && exists|j: int|
        0 <= j < rs.len() && (#[trigger] rs[j]).cond is None && rs[j].sc == r.sc
}

/// A compiled filter program: the BPF bytes the kernel loads, immutable once
/// created.
pub struct CompiledProgram {
    bytes: Vec<u8>,
}

impl View for CompiledProgram {
    type V = Seq<u8>;

    closed spec fn view(&self) -> Seq<u8> {
        self.bytes@
    }
}

impl CompiledProgram {
    /// Wraps the backend's rendering of a policy as the terminal artifact.
    pub fn from_bytes(bytes: Vec<u8>) -> (p: CompiledProgram)
        ensures
            p@ == bytes@,
    {
        CompiledProgram { bytes }
    }

    /// The program's bytes, to be handed verbatim to the enforcement point.
    pub fn as_bytes(&self) -> (r: &[u8])
        ensures
            r@ == self@,
    {
        self.bytes.as_slice()
    }

    /// The program's length in bytes.
    pub fn len(&self) -> (n: usize)
        ensures
            n == self@.len(),
    {
        self.bytes.len()
    }
}

/// Whether an accumulated rule vector has an unconditional rule for a syscall.
fn has_unconditional(rules: &Vec<ResolvedRule>, sc: Syscall) -> (r: bool)
    ensures
        r == exists|j: int|
            0 <= j < rules@.len() && (#[trigger] rules@[j]).cond is None && rules@[j].sc == sc,
{
    let mut i: usize = 0;
    while i < rules.len()
        invariant
            0 <= i <= rules@.len(),
            forall|j: int|
                0 <= j < i ==> !((#[trigger] rules@[j]).cond is None && rules@[j].sc == sc),
        decreases rules@.len() - i,
    {
        if rules[i].cond.is_none() && rules[i].sc == sc {
            assert(rules@[i as int].cond is None && rules@[i as int].sc == sc);
            return true;
        }
        i += 1;
    }
    false
}

/// The rule accumulator: a default-allow policy for one architecture, filled
/// with deny rules one at a time as the resolver answers for them.
pub struct PolicyBuilder {
    arch: Arch,
    rules: Vec<ResolvedRule>,
}

impl PolicyBuilder {
    /// The architecture the accumulated policy targets.
    pub closed spec fn target_arch(&self) -> Arch {
        self.arch
    }

    /// The rules accumulated so far, in insertion order.
    pub closed spec fn rules_seq(&self) -> Seq<ResolvedRule> {
        self.rules@
    }

    /// An empty default-allow policy for one architecture.
    pub fn new(arch: Arch) -> (b: PolicyBuilder)
        ensures
            b.target_arch() == arch,
            b.rules_seq() == Seq::<ResolvedRule>::empty(),
    {
        PolicyBuilder { arch, rules: Vec::new() }
    }

    /// The architecture the accumulated policy targets.
    pub fn arch(&self) -> (a: Arch)
        ensures
            a == self.target_arch(),
    {
        self.arch
    }

    /// The rules accumulated so far, in insertion order.
    pub fn rules(&self) -> (v: &Vec<ResolvedRule>)
        ensures
            v@ == self.rules_seq(),
    {
        &self.rules
    }

    /// Appends a rule together with the resolver's answer for its syscall
    /// name. Fails with `UnknownSyscall` exactly where the answer is missing,
    /// and with `DuplicateRule` exactly where an unconditional rule for the
    /// same syscall was already added.
    pub fn add_resolved(&mut self, r: &Rule, nr: Option<i32>) -> (res: Result<(), CompileError>)
        requires
            rule_wf(*r),
        ensures
            final(self).target_arch() == old(self).target_arch(),
            res is Ok <==> (nr is Some && !duplicate_unconditional(old(self).rules_seq(), *r)),
            res is Ok ==> final(self).rules_seq() == old(self).rules_seq().push(
                spec_resolve_with(*r, nr.unwrap()),
            ),
            res is Err ==> final(self).rules_seq() == old(self).rules_seq(),
            res matches Err(CompileError::UnknownSyscall { name, arch }) ==> (nr is None && name@
                == spec_name(r.sc) && arch == old(self).target_arch()),
            res matches Err(CompileError::DuplicateRule { name, arch }) ==> (nr is Some
                && duplicate_unconditional(old(self).rules_seq(), *r) && name@ == spec_name(r.sc)
                && arch == old(self).target_arch()),
            !(res matches Err(CompileError::SerializationFailure { .. })),
    {
        let name = syscall_name(r.sc);
        let nr = match nr {
            Some(nr) => nr,
            None => {
                return Err(CompileError::UnknownSyscall { name, arch: self.arch });
            },
        };
        if r.cond.is_none() && has_unconditional(&self.rules, r.sc) {
            return Err(CompileError::DuplicateRule { name, arch: self.arch });
        }
        let errno = match r.action {
            Action::Deny(e) => e,
            Action::Allow => 0,
        };
        self.rules.push(ResolvedRule { sc: r.sc, nr, errno, cond: r.cond });
        Ok(())
    }
}

/// The policy-table rules active in the given mode, in table order.
pub open spec fn active_table(nested_sandboxing_allowed: bool) -> Seq<Rule> {
    active_rules(policy_table(), nested_sandboxing_allowed)
}

/// The policy rules active in the given mode, in table order: the list whose
/// syscall names the caller must resolve, one answer per rule.
pub fn active_policy(nested_sandboxing_allowed: bool) -> (v: Vec<Rule>)
    ensures
        v@ == active_table(nested_sandboxing_allowed),
{
    let ghost m = nested_sandboxing_allowed;
    let table: Vec<Rule> = policy_rules();
    let mut v: Vec<Rule> = Vec::new();
    let mut i: usize = 0;
    while i < table.len()
        invariant
            table@ == policy_table(),
            0 <= i <= table@.len(),
            v@ == active_rules(table@.take(i as int), m),
            m == nested_sandboxing_allowed,
        decreases table@.len() - i,
    {
        proof {
            assert(table@.take(i + 1).drop_last() =~= table@.take(i as int));
            assert(table@.take(i + 1).last() == table@[i as int]);
        }
        let r = &table[i];
        if !(nested_sandboxing_allowed && r.nested_only) {
            proof {
                assert(rule_active(table@[i as int], m));
            }
            v.push(*r);
        } else {
            proof {
                assert(!rule_active(table@[i as int], m));
            }
        }
        i += 1;
    }
    proof {
        assert(table@.take(i as int) =~= table@);
    }
    v
}

/// Everything `build_policy` promises of its result.
pub open spec fn build_post(
    arch: Arch,
    nested_sandboxing_allowed: bool,
    ns: Seq<Option<i32>>,
    r: Result<PolicyBuilder, CompileError>,
) -> bool {
    match r {
        Ok(b) => all_resolved(ns) && b.target_arch() == arch && b.rules_seq() == resolved_with(
            active_table(nested_sandboxing_allowed),
            ns,
        ),
        Err(e) => match e {
            CompileError::UnknownSyscall { name, arch: a } => a == arch && exists|i: int|
                #[trigger] first_unresolved(ns, i) && name@ == spec_name(
                    active_table(nested_sandboxing_allowed)[i].sc,
                ),
            CompileError::DuplicateRule { .. } => false,
            CompileError::SerializationFailure { .. } => false,
        },
    }
}

/// Folds the resolver's answers for the active policy rules into a filled
/// rule accumulator. Succeeds exactly where every answer is a number;
/// otherwise fails with `UnknownSyscall` for the first active rule whose
/// answer is missing, and with nothing else: the fixed table is proved free
/// of duplicates, and the backend plays no part here.
pub fn build_policy(
    arch: Arch,
    nested_sandboxing_allowed: bool,
    resolutions: &Vec<Option<i32>>,
) -> (r: Result<PolicyBuilder, CompileError>)
    requires
        resolutions@.len() == active_table(nested_sandboxing_allowed).len(),
    ensures
        build_post(arch, nested_sandboxing_allowed, resolutions@, r),
        r is Ok <==> all_resolved(resolutions@),
{
    let ghost m = nested_sandboxing_allowed;
    let active: Vec<Rule> = active_policy(nested_sandboxing_allowed);
    proof {
        crate::policy::lemma_table_wf();
        crate::policy::lemma_table_distinct();
        crate::policy::lemma_active_no_dup(policy_table(), m);
        crate::policy::lemma_active_contains(policy_table(), m);
        assert forall|j: int| 0 <= j < active@.len() implies rule_wf(#[trigger] active@[j]) by {
            assert(active@.contains(active@[j]));
            assert(policy_table().contains(active@[j]));
            let k = choose|k: int| 0 <= k < policy_table().len() && policy_table()[k] == active@[j];
            assert(rule_wf(policy_table()[k]));
        }
    }
    let mut b = PolicyBuilder::new(arch);
    let mut i: usize = 0;
    while i < active.len()
        invariant
            active@ == active_table(m),
            resolutions@.len() == active@.len(),
            0 <= i <= active@.len(),
            forall|j: int| 0 <= j < active@.len() ==> rule_wf(#[trigger] active@[j]),
            crate::policy::no_duplicate_unconditional(active@),
            b.target_arch() == arch,
            b.rules_seq() == resolved_with(
                active@.take(i as int),
                resolutions@.take(i as int),
            ),
            forall|j: int| 0 <= j < i ==> (#[trigger] resolutions@[j]) is Some,
            m == nested_sandboxing_allowed,
        decreases active@.len() - i,
    {
        let r = &active[i];
        let nr = resolutions[i];
        match b.add_resolved(r, nr) {
            Ok(_) => {
                proof {
                    assert(active@.take(i + 1) =~= active@.take(i as int).push(
                        active@[i as int],
                    ));
                    assert(resolutions@.take(i + 1) =~= resolutions@.take(i as int).push(
                        resolutions@[i as int],
                    ));
                    assert(resolved_with(active@.take(i + 1), resolutions@.take(i + 1))
                        =~= resolved_with(active@.take(i as int), resolutions@.take(i as int)).push(
                        spec_resolve_with(active@[i as int], resolutions@[i as int].unwrap()),
                    ));
                }
            },
            Err(e) => {
                proof {
                    if duplicate_unconditional(
                        resolved_with(active@.take(i as int), resolutions@.take(i as int)),
                        active@[i as int],
                    ) {
                        let acc = resolved_with(
                            active@.take(i as int),
                            resolutions@.take(i as int),
                        );
                        let j = choose|j: int|
                            0 <= j < acc.len() && (#[trigger] acc[j]).cond is None && acc[j].sc
                                == active@[i as int].sc;
                        assert(active@[j].cond is None && active@[j].sc == active@[i as int].sc);
                        assert(false);
                    }
                    assert(first_unresolved(resolutions@, i as int));
                }
                return Err(e);
            },
        }
        i += 1;
    }
    proof {
        assert(active@.take(i as int) =~= active@);
        assert(resolutions@.take(i as int) =~= resolutions@);
    }
    Ok(b)
}

/// Each of the first `n` answers of `ns` is one the resolver `f` gave for the
/// matching active rule's own syscall name.
pub open spec fn answers_of_prefix<F: Fn(&'static str) -> Option<i32>>(
    f: F,
    nested_sandboxing_allowed: bool,
    ns: Seq<Option<i32>>,
    n: int,
) -> bool {
    forall|i: int|
        0 <= i < n ==> exists|s: &'static str|
            s@ == spec_name(active_table(nested_sandboxing_allowed)[i].sc) && call_ensures(
                f,
                (s,),
                #[trigger] ns[i],
            )
}

/// Each answer of `ns` is one the resolver `f` gave for the matching active
/// rule's own syscall name.
pub open spec fn answers_of<F: Fn(&'static str) -> Option<i32>>(
    f: F,
    nested_sandboxing_allowed: bool,
    ns: Seq<Option<i32>>,
) -> bool {
    &&& ns.len() == active_table(nested_sandboxing_allowed).len()
    &&& answers_of_prefix(f, nested_sandboxing_allowed, ns, ns.len() as int)
}

/// Resolves the active policy for one architecture and mode: asks the given
/// resolver for each active rule's syscall name, in table order, and folds
/// the answers into a filled rule accumulator. The resolution loop is part of
/// this function, so every answer belongs to the rule it was asked for; the
/// result is `build_policy`'s on those answers.
pub fn resolve_policy<F: Fn(&'static str) -> Option<i32>>(
    arch: Arch,
    nested_sandboxing_allowed: bool,
    resolver: &F,
) -> (r: Result<PolicyBuilder, CompileError>)
    requires
        forall|name: &'static str| #[trigger] call_requires(*resolver, (name,)),
    ensures
        exists|ns: Seq<Option<i32>>|
            #[trigger] answers_of(*resolver, nested_sandboxing_allowed, ns) && build_post(
                arch,
                nested_sandboxing_allowed,
                ns,
                r,
            ),
{
    let active: Vec<Rule> = active_policy(nested_sandboxing_allowed);
    let mut answers: Vec<Option<i32>> = Vec::new();
    let mut i: usize = 0;
    while i < active.len()
        invariant
            active@ == active_table(nested_sandboxing_allowed),
            0 <= i <= active@.len(),
            answers@.len() == i,
            forall|name: &'static str| #[trigger] call_requires(*resolver, (name,)),
            answers_of_prefix(*resolver, nested_sandboxing_allowed, answers@, i as int),
        decreases active@.len() - i,
    {
        let name = syscall_name(active[i].sc);
        let nr = resolver(name);
        answers.push(nr);
        proof {
            assert(name@ == spec_name(active_table(nested_sandboxing_allowed)[i as int].sc)
                && call_ensures(*resolver, (name,), answers@[i as int]));
        }
        i += 1;
    }
    let r = build_policy(arch, nested_sandboxing_allowed, &answers);
    proof {
        assert(answers@.len() == active_table(nested_sandboxing_allowed).len());
        assert(answers_of(*resolver, nested_sandboxing_allowed, answers@));
    }
    r
}

/// The backend sink accepted each of the first `n` rules of `rs`.
pub open spec fn emitted_prefix<F: Fn(ResolvedRule) -> Result<(), String>>(
    f: F,
    rs: Seq<ResolvedRule>,
    n: int,
) -> bool {
    forall|i: int| 0 <= i < n ==> call_ensures(f, (#[trigger] rs[i],), Ok::<(), String>(()))
}

/// Hands every accumulated rule of a built policy to the backend sink, in
/// insertion order, stopping at the sink's first refusal: on success the sink
/// accepted every rule; on failure it refused one rule after accepting all
/// before it, and the refusal's reason is surfaced verbatim as a
/// `SerializationFailure`.
pub fn emit_rules<F: Fn(ResolvedRule) -> Result<(), String>>(b: &PolicyBuilder, sink: &F) -> (r:
    Result<(), CompileError>)
    requires
        forall|rr: ResolvedRule| #[trigger] call_requires(*sink, (rr,)),
    ensures
        r is Ok ==> emitted_prefix(*sink, b.rules_seq(), b.rules_seq().len() as int),
        r matches Err(e) ==> e matches CompileError::SerializationFailure { reason } && exists|
            i: int,
        |
            0 <= i < b.rules_seq().len() && emitted_prefix(*sink, b.rules_seq(), i)
                && call_ensures(*sink, (b.rules_seq()[i],), Err::<(), String>(reason)),
{
    let rules = b.rules();
    let mut i: usize = 0;
    while i < rules.len()
        invariant
            rules@ == b.rules_seq(),
            0 <= i <= rules@.len(),
            forall|rr: ResolvedRule| #[trigger] call_requires(*sink, (rr,)),
            emitted_prefix(*sink, b.rules_seq(), i as int),
        decreases rules@.len() - i,
    {
        let rr = rules[i];
        let out = sink(rr);
        let ghost out0 = out;
        if out.is_err() {
            let reason = match out {
                Err(reason) => reason,
                Ok(_) => String::new(),
            };
            proof {
                assert(out0 == Err::<(), String>(reason));
                assert(call_ensures(*sink, (b.rules_seq()[i as int],), Err::<(), String>(reason)));
            }
            return Err(CompileError::SerializationFailure { reason });
        }
        proof {
            assert(out->Ok_0 == ());
            assert(out == Ok::<(), String>(()));
            assert(call_ensures(*sink, (b.rules_seq()[i as int],), Ok::<(), String>(())));
            assert forall|j: int| 0 <= j < i + 1 implies call_ensures(
                *sink,
                (#[trigger] b.rules_seq()[j],),
                Ok::<(), String>(()),
            ) by {}
        }
        i += 1;
    }
    Ok(())
}

/// Everything `compile` promises of its result, for one sequence of resolver
/// answers: success means every name resolved, the backend sink accepted
/// every resolved rule, and the program's bytes are verbatim one rendering
/// the backend gave; each failure is exact, and a duplicate is impossible.
pub open spec fn compile_outcome<
    S: Fn(ResolvedRule) -> Result<(), String>,
    E: Fn() -> Result<Vec<u8>, String>,
>(
    arch: Arch,
    nested_sandboxing_allowed: bool,
    ns: Seq<Option<i32>>,
    sink: S,
    export: E,
    r: Result<CompiledProgram, CompileError>,
) -> bool {
    match r {
        Ok(p) => {
            &&& all_resolved(ns)
            &&& emitted_prefix(
                sink,
                resolved_with(active_table(nested_sandboxing_allowed), ns),
                active_table(nested_sandboxing_allowed).len() as int,
            )
            &&& exists|v: Vec<u8>|
                p@ == v@ && #[trigger] call_ensures(export, (), Ok::<Vec<u8>, String>(v))
        },
        Err(e) => match e {
            CompileError::UnknownSyscall { name, arch: a } => a == arch && exists|i: int|
                #[trigger] first_unresolved(ns, i) && name@ == spec_name(
                    active_table(nested_sandboxing_allowed)[i].sc,
                ),
            CompileError::DuplicateRule { .. } => false,
            CompileError::SerializationFailure { reason } => all_resolved(ns) && ((exists|i: int|
                0 <= i < active_table(nested_sandboxing_allowed).len() && call_ensures(
                    sink,
                    (#[trigger] resolved_with(active_table(nested_sandboxing_allowed), ns)[i],),
                    Err::<(), String>(reason),
                )) || call_ensures(export, (), Err::<Vec<u8>, String>(reason))),
        },
    }
}

/// Compiles the policy for one architecture and sandboxing mode into a BPF
/// program, through the three outside collaborators the caller supplies: the
/// resolver, asked for each active rule's own syscall name; the backend sink,
/// handed every resolved rule in table order; and the backend's export,
/// called once after the sink accepted every rule. Fails with `UnknownSyscall`
/// exactly where a name does not resolve, with `SerializationFailure` exactly
/// where the backend refuses, and never with `DuplicateRule`.
pub fn compile<
    R: Fn(&'static str) -> Option<i32>,
    S: Fn(ResolvedRule) -> Result<(), String>,
    E: Fn() -> Result<Vec<u8>, String>,
>(
    arch: Arch,
    nested_sandboxing_allowed: bool,
    resolver: &R,
    sink: &S,
    export: &E,
) -> (r: Result<CompiledProgram, CompileError>)
    requires
        forall|name: &'static str| #[trigger] call_requires(*resolver, (name,)),
        forall|rr: ResolvedRule| #[trigger] call_requires(*sink, (rr,)),
        call_requires(*export, ()),
    ensures
        exists|ns: Seq<Option<i32>>|
            #[trigger] answers_of(*resolver, nested_sandboxing_allowed, ns) && compile_outcome(
                arch,
                nested_sandboxing_allowed,
                ns,
                *sink,
                *export,
                r,
            ),
{
    let b = match resolve_policy(arch, nested_sandboxing_allowed, resolver) {
        Ok(b) => b,
        Err(e) => {
            proof {
                let ns = choose|ns: Seq<Option<i32>>|
                    #[trigger] answers_of(*resolver, nested_sandboxing_allowed, ns) && build_post(
                        arch,
                        nested_sandboxing_allowed,
                        ns,
                        Err(e),
                    );
                assert(compile_outcome(
                    arch,
                    nested_sandboxing_allowed,
                    ns,
                    *sink,
                    *export,
                    Err(e),
                ));
            }
            return Err(e);
        },
    };
    let ghost ns = choose|ns: Seq<Option<i32>>|
        #[trigger] answers_of(*resolver, nested_sandboxing_allowed, ns) && build_post(
            arch,
            nested_sandboxing_allowed,
            ns,
            Ok(b),
        );
    match emit_rules(&b, sink) {
        Ok(_) => {},
        Err(e) => {
            proof {
                match &e {
                    CompileError::SerializationFailure { reason } => {
                        let i = choose|i: int|
                            0 <= i < b.rules_seq().len() && emitted_prefix(
                                *sink,
                                b.rules_seq(),
                                i,
                            ) && call_ensures(
                                *sink,
                                (b.rules_seq()[i],),
                                Err::<(), String>(*reason),
                            );
                        assert(call_ensures(
                            *sink,
                            (resolved_with(active_table(nested_sandboxing_allowed), ns)[i],),
                            Err::<(), String>(*reason),
                        ));
                    },
                    _ => {},
                }
                assert(compile_outcome(
                    arch,
                    nested_sandboxing_allowed,
                    ns,
                    *sink,
                    *export,
                    Err(e),
                ));
            }
            return Err(e);
        },
    }
    let out = export();
    let ghost out0 = out;
    match out {
        Ok(bytes) => {
            let p = CompiledProgram::from_bytes(bytes);
            proof {
                assert(out0 is Ok && call_ensures(*export, (), out0));
                assert(p@ == out0->Ok_0@ && call_ensures(
                    *export,
                    (),
                    Ok::<Vec<u8>, String>(out0->Ok_0),
                ));
                assert(compile_outcome(
                    arch,
                    nested_sandboxing_allowed,
                    ns,
                    *sink,
                    *export,
                    Ok(p),
                ));
            }
            Ok(p)
        },
        Err(reason) => {
            proof {
                assert(out0 == Err::<Vec<u8>, String>(reason));
                assert(compile_outcome(
                    arch,
                    nested_sandboxing_allowed,
                    ns,
                    *sink,
                    *export,
                    Err(CompileError::SerializationFailure { reason }),
                ));
            }
            Err(CompileError::SerializationFailure { reason })
        },
    }
}

/// Law: the compilation decision is deterministic. For the same architecture,
/// mode and resolver answers, two runs agree: both succeed or both fail the
/// same way, successful runs accumulate identical rules, and failing runs
/// name the same syscall.
pub proof fn lemma_build_deterministic(
    arch: Arch,
    nested_sandboxing_allowed: bool,
    ns: Seq<Option<i32>>,
    r1: Result<PolicyBuilder, CompileError>,
    r2: Result<PolicyBuilder, CompileError>,
)
    requires
        build_post(arch, nested_sandboxing_allowed, ns, r1),
        build_post(arch, nested_sandboxing_allowed, ns, r2),
    ensures
        r1 is Ok <==> r2 is Ok,
        r1 is Ok && r2 is Ok ==> r1->Ok_0.rules_seq() == r2->Ok_0.rules_seq(),
        (r1 is Err && r2 is Err && r1->Err_0 is UnknownSyscall && r2->Err_0 is UnknownSyscall)
            ==> (r1->Err_0)->UnknownSyscall_name@ == (r2->Err_0)->UnknownSyscall_name@,
{
    match (r1, r2) {
        (Err(CompileError::UnknownSyscall { name: n1, .. }), _) => {
            let i1 = choose|i: int|
                #[trigger] first_unresolved(ns, i) && n1@ == spec_name(
                    active_table(nested_sandboxing_allowed)[i].sc,
                );
            assert(!all_resolved(ns));
            match r2 {
                Err(CompileError::UnknownSyscall { name: n2, .. }) => {
                    let i2 = choose|i: int|
                        #[trigger] first_unresolved(ns, i) && n2@ == spec_name(
                            active_table(nested_sandboxing_allowed)[i].sc,
                        );
                    if i1 < i2 {
                        assert(ns[i1] is Some);
                    } else if i2 < i1 {
                        assert(ns[i2] is Some);
                    }
                    assert(i1 == i2);
                },
                _ => {},
            }
        },
        (Ok(_), _) => {},
        _ => {},
    }
    match r2 {
        Err(CompileError::UnknownSyscall { .. }) => {
            let i2 = choose|i: int| #[trigger] first_unresolved(ns, i);
            assert(!all_resolved(ns));
        },
        _ => {},
    }
}

/// Law: failures are specific. The compilation decision never reports a
/// duplicate rule or a backend failure, and an unknown-syscall failure names
/// an active policy-table syscall, the first one whose answer is missing; in
/// that case no policy is returned.
pub proof fn lemma_error_specificity(
    arch: Arch,
    nested_sandboxing_allowed: bool,
    ns: Seq<Option<i32>>,
    r: Result<PolicyBuilder, CompileError>,
)
    requires
        build_post(arch, nested_sandboxing_allowed, ns, r),
    ensures
        !(r matches Err(CompileError::DuplicateRule { .. })),
        !(r matches Err(CompileError::SerializationFailure { .. })),
        r matches Err(CompileError::UnknownSyscall { name, arch: a }) ==> a == arch && exists|
            i: int,
        |
            0 <= i < ns.len() && ns[i] is None && name@ == spec_name(
                #[trigger] active_table(nested_sandboxing_allowed)[i].sc,
            ),
{
    match r {
        Err(CompileError::UnknownSyscall { name, arch: a }) => {
            let nm = name;
            let i = choose|i: int|
                #[trigger] first_unresolved(ns, i) && nm@ == spec_name(
                    active_table(nested_sandboxing_allowed)[i].sc,
                );
            assert(0 <= i < ns.len() && ns[i] is None && nm@ == spec_name(
                active_table(nested_sandboxing_allowed)[i].sc,
            ));
        },
        _ => {},
    }
}

/// Law: the two end-to-end scenarios at the level of the active rules. With
/// nested sandboxing allowed, mount is denied unconditionally while no rule
/// touches chroot; with it disallowed, chroot is denied unconditionally and
/// the only rule for clone is the conditional user-namespace one.
pub proof fn lemma_mode_scenarios()
    ensures
        active_table(true).contains(crate::policy::spec_deny_rule(Syscall::Mount)),
        forall|r: Rule| active_table(true).contains(r) ==> r.sc != Syscall::Chroot,
        active_table(false).contains(crate::policy::spec_nested_deny_rule(Syscall::Chroot)),
        forall|r: Rule|
            active_table(false).contains(r) && r.sc == Syscall::CloneCall ==> r
                == crate::policy::spec_clone_userns_rule(),
{
    let tab = policy_table();
    crate::policy::lemma_active_contains(tab, true);
    crate::policy::lemma_active_contains(tab, false);
    assert(tab[12] == crate::policy::spec_deny_rule(Syscall::Mount));
    assert(tab.contains(crate::policy::spec_deny_rule(Syscall::Mount)));
    assert(tab[16] == crate::policy::spec_nested_deny_rule(Syscall::Chroot));
    assert(tab.contains(crate::policy::spec_nested_deny_rule(Syscall::Chroot)));
    assert forall|r: Rule| active_table(true).contains(r) implies r.sc != Syscall::Chroot by {
        assert(tab.contains(r) && rule_active(r, true));
        let k = choose|k: int| 0 <= k < tab.len() && #[trigger] tab[k] == r;
        assert(tab[k] == r);
    }
    assert forall|r: Rule| active_table(false).contains(r) && r.sc == Syscall::CloneCall implies r
        == crate::policy::spec_clone_userns_rule() by {
        assert(tab.contains(r));
        let k = choose|k: int| 0 <= k < tab.len() && #[trigger] tab[k] == r;
        assert(tab[k] == r);
    }
}

/// Law: default allow. Every rule of a built policy comes from a policy-table
/// rule active in the requested mode, with only its number taken from the
/// resolver; a syscall the table does not name is matched by no deny rule.
pub proof fn lemma_default_allow(
    arch: Arch,
    nested_sandboxing_allowed: bool,
    ns: Seq<Option<i32>>,
    b: PolicyBuilder,
)
    requires
        build_post(arch, nested_sandboxing_allowed, ns, Ok(b)),
    ensures
        forall|k: int|
            0 <= k < b.rules_seq().len() ==> exists|i: int|
                0 <= i < policy_table().len() && rule_active(
                    policy_table()[i],
                    nested_sandboxing_allowed,
                ) && (#[trigger] b.rules_seq()[k]) == spec_resolve_with(
                    policy_table()[i],
                    ns[k].unwrap(),
                ),
{
    let tab = policy_table();
    let act = active_table(nested_sandboxing_allowed);
    crate::policy::lemma_active_contains(tab, nested_sandboxing_allowed);
    assert forall|k: int| 0 <= k < b.rules_seq().len() implies exists|i: int|
        0 <= i < policy_table().len() && rule_active(policy_table()[i], nested_sandboxing_allowed)
            && (#[trigger] b.rules_seq()[k]) == spec_resolve_with(
            policy_table()[i],
            ns[k].unwrap(),
        ) by {
        assert(b.rules_seq()[k] == spec_resolve_with(act[k], ns[k].unwrap()));
        assert(act.contains(act[k]));
        assert(tab.contains(act[k]) && rule_active(act[k], nested_sandboxing_allowed));
        let i = choose|i: int| 0 <= i < tab.len() && tab[i] == act[k];
        assert(0 <= i < policy_table().len() && rule_active(
            policy_table()[i],
            nested_sandboxing_allowed,
        ) && b.rules_seq()[k] == spec_resolve_with(policy_table()[i], ns[k].unwrap()));
    }
}

} // verus!
