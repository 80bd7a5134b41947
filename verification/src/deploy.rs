//! Deployment planning: the decisions of the multi-target orchestrator.
//! Evaluation errors abort the whole batch before anything else; unignored
//! check failures gate the whole batch; the surviving targets are
//! partitioned into locally-buildable and remotely-realised ones; and each
//! target's pipeline runs its steps in order, stopping at its first failure
//! without touching its siblings.

use crate::configcheck::{all_failures, catalog, pairs_match, run_system_checks};
use crate::flakeref::FlakeReference;
use crate::ignore::{merge_ignore_maps, merge_spec, IgnoreMap, IgnoreStore};
use crate::nixcommands::{NixError, SystemStatus};
use crate::nixosattributes::ConfigInfo;
use crate::userinfo::{can_build_natively_spec, UserInfo};
use vstd::prelude::*;

verus! {

broadcast use vstd::string::group_string_axioms;

/// Where a target's artifact gets built: by the operator (or a configured
/// builder), or by the target host itself.
#[derive(Clone, Copy, Debug, PartialEq, Eq, Structural)]
pub enum BuildClass {
    Local,
    Remote,
}

/// Classifies one target by its declared platform.
pub fn classify_target(user: &UserInfo, target_system: &str) -> (r: BuildClass)
    ensures
        (r == BuildClass::Local) == can_build_natively_spec(*user, target_system@),
        (r == BuildClass::Remote) == !can_build_natively_spec(*user, target_system@),
{
    if user.can_build_natively(target_system) {
        BuildClass::Local
    } else {
        BuildClass::Remote
    }
}

/// The view of an optional command-line ignore map.
pub open spec fn opt_map_view(cmd: &Option<IgnoreMap>) -> Option<Map<Seq<char>, Seq<Seq<char>>>> {
    match *cmd {
        Some(m) => Some(m@),
        None => None,
    }
}

pub open spec fn opt_map_wf(cmd: &Option<IgnoreMap>) -> bool {
    match *cmd {
        Some(m) => m.wf(),
        None => true,
    }
}

/// The suppressions in force for one target: its stored entry merged with
/// the command-line directives; either source alone passes through.
pub open spec fn effective_spec(
    st: Map<Seq<char>, Map<Seq<char>, Seq<Seq<char>>>>,
    attr: Seq<char>,
    cmd: Option<Map<Seq<char>, Seq<Seq<char>>>>,
) -> Option<Map<Seq<char>, Seq<Seq<char>>>> {
    match cmd {
        Some(ci) => if st.contains_key(attr) {
            Some(merge_spec(st[attr], ci))
        } else {
            Some(ci)
        },
        None => if st.contains_key(attr) {
            Some(st[attr])
        } else {
            None
        },
    }
}

/// Combines the persisted entry for `attribute` with the command-line
/// directives, exactly as `effective_spec` says.
pub fn effective_ignores(store: &IgnoreStore, attribute: &str, cmd: &Option<IgnoreMap>) -> (r:
    Option<IgnoreMap>)
    requires
        store.wf(),
        opt_map_wf(cmd),
    ensures
        match r {
            Some(m) => m.wf() && Some(m@) == effective_spec(store@, attribute@, opt_map_view(cmd)),
            None => effective_spec(store@, attribute@, opt_map_view(cmd)) is None,
        },
{
    match store.get(attribute) {
        Some(stored) => match cmd {
            Some(ci) => Some(merge_ignore_maps(stored, ci)),
            None => Some(stored.duplicate()),
        },
        None => match cmd {
            Some(ci) => Some(ci.duplicate()),
            None => None,
        },
    }
}

/// One target ready to deploy: its reference, host, artifacts and platform.
#[derive(Debug)]
pub struct DeployTarget {
    pub target: FlakeReference,
    pub host: String,
    pub toplevel_out: String,
    pub toplevel_drv: String,
    pub system: String,
}

/// The batch partitioned by build capability, in input order.
#[derive(Debug)]
pub struct DeployPlan {
    pub local: Vec<DeployTarget>,
    pub remote: Vec<DeployTarget>,
}

/// Why a batch was aborted before any side effect.
#[derive(Debug)]
pub enum PlanError {
    /// At least one target failed to evaluate; every evaluation error of
    /// the batch is reported.
    Evaluation(Vec<(FlakeReference, NixError)>),
    /// At least one target has unignored check failures; every failing
    /// target is reported with its failing `(group, check)` pairs.
    ChecksFailed(Vec<(FlakeReference, Vec<(String, String)>)>),
}

/// The evaluation errors of a batch, in input order.
pub open spec fn eval_errors(
    infos: Seq<(FlakeReference, Result<ConfigInfo, NixError>)>,
) -> Seq<(FlakeReference, NixError)>
    decreases infos.len(),
{
    if infos.len() == 0 {
        Seq::empty()
    } else {
        eval_errors(infos.drop_last()) + (match infos.last().1 {
            Err(e) => seq![(infos.last().0, e)],
            Ok(_) => Seq::empty(),
        })
    }
}

/// The successfully evaluated targets of a batch, in input order.
pub open spec fn oks_of(infos: Seq<(FlakeReference, Result<ConfigInfo, NixError>)>) -> Seq<
    (FlakeReference, ConfigInfo),
>
    decreases infos.len(),
{
    if infos.len() == 0 {
        Seq::empty()
    } else {
        oks_of(infos.drop_last()) + (match infos.last().1 {
            Ok(c) => seq![(infos.last().0, c)],
            Err(_) => Seq::empty(),
        })
    }
}

/// The unignored check failures of one evaluated target.
pub open spec fn target_failures(
    fr: FlakeReference,
    info: ConfigInfo,
    user: &UserInfo,
    st: Map<Seq<char>, Map<Seq<char>, Seq<Seq<char>>>>,
    cmd: Option<Map<Seq<char>, Seq<Seq<char>>>>,
) -> Seq<(Seq<char>, Seq<char>)> {
    all_failures(catalog(), &info, user, effective_spec(st, fr.attribute@, cmd))
}

/// The check-gate report of a batch: every target with at least one
/// unignored failure, with its failing pairs, in input order.
pub open spec fn gate_failures(
    oks: Seq<(FlakeReference, ConfigInfo)>,
    user: &UserInfo,
    st: Map<Seq<char>, Map<Seq<char>, Seq<Seq<char>>>>,
    cmd: Option<Map<Seq<char>, Seq<Seq<char>>>>,
) -> Seq<(FlakeReference, Seq<(Seq<char>, Seq<char>)>)>
    decreases oks.len(),
{
    if oks.len() == 0 {
        Seq::empty()
    } else {
        gate_failures(oks.drop_last(), user, st, cmd) + {
            let f = target_failures(oks.last().0, oks.last().1, user, st, cmd);
            if f.len() > 0 {
                seq![(oks.last().0, f)]
            } else {
                Seq::empty()
            }
        }
    }
}

pub open spec fn gate_matches(
    v: Seq<(FlakeReference, Vec<(String, String)>)>,
    s: Seq<(FlakeReference, Seq<(Seq<char>, Seq<char>)>)>,
) -> bool {
    &&& v.len() == s.len()
    &&& forall|i: int|
        0 <= i < v.len() ==> (#[trigger] v[i]).0 == s[i].0 && pairs_match(v[i].1@, s[i].1)
}

/// A deploy target carries exactly one evaluated target's data.
pub open spec fn target_matches(t: DeployTarget, p: (FlakeReference, ConfigInfo)) -> bool {
    &&& t.target == p.0
    &&& t.host@ == p.1.fqdn_or_host_name@
    &&& t.toplevel_out@ == p.1.toplevel_out@
    &&& t.toplevel_drv@ == p.1.toplevel_drv@
    &&& t.system@ == p.1.system@
}

pub open spec fn targets_match(ts: Seq<DeployTarget>, ps: Seq<(FlakeReference, ConfigInfo)>) -> bool {
    &&& ts.len() == ps.len()
    &&& forall|i: int| 0 <= i < ts.len() ==> target_matches(#[trigger] ts[i], ps[i])
}

/// Plans a deployment batch. Nothing with a side effect happens here: the
/// caller receives either the abort decision, with every offending target,
/// or the full partitioned plan.
///
/// - Any evaluation error aborts the whole batch, reporting all of them.
/// - Otherwise, unless checks are skipped, any target with an unignored
///   check failure aborts the whole batch, reporting every such target.
/// - Otherwise every target is planned, partitioned by build capability.
pub fn plan_deployment(
    infos: Vec<(FlakeReference, Result<ConfigInfo, NixError>)>,
    user: &UserInfo,
    skip_checks: bool,
    store: &IgnoreStore,
    cmd_ignores: &Option<IgnoreMap>,
) -> (r: Result<DeployPlan, PlanError>)
    requires
        store.wf(),
        opt_map_wf(cmd_ignores),
    ensures
        match r {
            Err(PlanError::Evaluation(es)) => es@ == eval_errors(infos@) && es@.len() > 0,
            Err(PlanError::ChecksFailed(fs)) => {
                &&& eval_errors(infos@).len() == 0
                &&& !skip_checks
                &&& gate_matches(
                    fs@,
                    gate_failures(oks_of(infos@), user, store@, opt_map_view(cmd_ignores)),
                )
                &&& fs@.len() > 0
            },
            Ok(plan) => {
                &&& eval_errors(infos@).len() == 0
                &&& (skip_checks || gate_failures(
                    oks_of(infos@),
                    user,
                    store@,
                    opt_map_view(cmd_ignores),
                ).len() == 0)
                &&& targets_match(
                    plan.local@,
                    oks_of(infos@).filter(
                        |p: (FlakeReference, ConfigInfo)|
                            can_build_natively_spec(*user, p.1.system@),
                    ),
                )
                &&& targets_match(
                    plan.remote@,
                    oks_of(infos@).filter(
                        |p: (FlakeReference, ConfigInfo)|
                            !can_build_natively_spec(*user, p.1.system@),
                    ),
                )
            },
        },
{
    let ghost infos0 = infos@;
    let mut rest = infos;
    let mut errors: Vec<(FlakeReference, NixError)> = Vec::new();
    let mut oks: Vec<(FlakeReference, ConfigInfo)> = Vec::new();
    proof {
        assert(infos0.take(0) =~= Seq::<(FlakeReference, Result<ConfigInfo, NixError>)>::empty());
        assert(rest@ =~= infos0.skip(0));
    }
    while rest.len() > 0
        invariant
            rest@.len() <= infos0.len(),
            rest@ =~= infos0.skip(infos0.len() - rest@.len()),
            errors@ == eval_errors(infos0.take(infos0.len() - rest@.len())),
            oks@ == oks_of(infos0.take(infos0.len() - rest@.len())),
        decreases rest@.len(),
    {
        let ghost k = infos0.len() - rest@.len();
        let ghost prev = rest@;
        let (fr, res) = rest.remove(0);
        proof {
            assert((fr, res) == infos0.skip(k)[0]);
            assert(infos0.skip(k)[0] == infos0[k]);
            assert(rest@ == prev.remove(0));
            assert forall|i: int| 0 <= i < rest@.len() implies #[trigger] rest@[i] == prev[i
                + 1] by {
                assert(prev.remove(0)[i] == prev[i + 1]);
            }
            assert(rest@ =~= infos0.skip(k + 1));
            assert(infos0.take(k + 1).drop_last() =~= infos0.take(k));
            assert(infos0.take(k + 1).last() == infos0[k]);
        }
        match res {
            Ok(info) => {
                oks.push((fr, info));
            },
            Err(e) => {
                errors.push((fr, e));
            },
        }
    }
    proof {
        assert(infos0.take(infos0.len() as int) =~= infos0);
    }
    if errors.len() > 0 {
        return Err(PlanError::Evaluation(errors));
    }
    if !skip_checks {
        let ghost oks0 = oks@;
        let mut gate: Vec<(FlakeReference, Vec<(String, String)>)> = Vec::new();
        let n = oks.len();
        let mut i: usize = 0;
        proof {
            assert(oks0.take(0) =~= Seq::<(FlakeReference, ConfigInfo)>::empty());
        }
        while i < n
            invariant
                store.wf(),
                opt_map_wf(cmd_ignores),
                oks0 == oks@,
                n == oks@.len(),
                i <= n,
                gate_matches(
                    gate@,
                    gate_failures(oks0.take(i as int), user, store@, opt_map_view(cmd_ignores)),
                ),
            decreases n - i,
        {
            proof {
                assert(oks0.take(i + 1).drop_last() =~= oks0.take(i as int));
                assert(oks0.take(i + 1).last() == oks0[i as int]);
            }
            let ign = effective_ignores(store, oks[i].0.attribute.as_str(), cmd_ignores);
            let failures = match run_system_checks(&oks[i].1, user, ign.as_ref()) {
                Ok(v) => v,
                Err(_) => {
                    proof {
                        assert(false);
                    }
                    Vec::new()
                },
            };
            if failures.len() > 0 {
                let frc = oks[i].0.clone();
                gate.push((frc, failures));
            }
            i += 1;
        }
        proof {
            assert(oks0.take(n as int) =~= oks0);
        }
        if gate.len() > 0 {
            return Err(PlanError::ChecksFailed(gate));
        }
    }
    let ghost oks0 = oks@;
    let mut local: Vec<DeployTarget> = Vec::new();
    let mut remote: Vec<DeployTarget> = Vec::new();
    let ghost mut done: int = 0;
    let ghost n0 = oks0.len();
    proof {
        assert(oks0.take(0) =~= Seq::<(FlakeReference, ConfigInfo)>::empty());
        assert(oks@ =~= oks0.skip(0));
    }
    while oks.len() > 0
        invariant
            0 <= done <= n0,
            n0 == oks0.len(),
            oks@.len() == n0 - done,
            oks@ =~= oks0.skip(done),
            targets_match(
                local@,
                oks0.take(done).filter(
                    |p: (FlakeReference, ConfigInfo)| can_build_natively_spec(*user, p.1.system@),
                ),
            ),
            targets_match(
                remote@,
                oks0.take(done).filter(
                    |p: (FlakeReference, ConfigInfo)| !can_build_natively_spec(*user, p.1.system@),
                ),
            ),
        decreases oks@.len(),
    {
        let ghost k = done;
        let ghost prev = oks@;
        let (fr, info) = oks.remove(0);
        proof {
            assert((fr, info) == oks0.skip(k)[0]);
            assert(oks0.skip(k)[0] == oks0[k]);
            assert(oks@ == prev.remove(0));
            assert forall|i: int| 0 <= i < oks@.len() implies #[trigger] oks@[i] == prev[i + 1] by {
                assert(prev.remove(0)[i] == prev[i + 1]);
            }
            assert(oks@ =~= oks0.skip(k + 1));
            assert(oks0.take(k + 1) =~= oks0.take(k).push(oks0[k]));
        }
        let class = classify_target(user, info.system.as_str());
        let t = DeployTarget {
            host: info.fqdn_or_host_name.clone(),
            toplevel_out: info.toplevel_out.clone(),
            toplevel_drv: info.toplevel_drv.clone(),
            system: info.system.clone(),
            target: fr,
        };
        proof {
            assert(target_matches(t, oks0[k]));
        }
        proof {
            crate::strutil::lemma_filter_push(
                oks0.take(k),
                oks0[k],
                |p: (FlakeReference, ConfigInfo)| can_build_natively_spec(*user, p.1.system@),
            );
            crate::strutil::lemma_filter_push(
                oks0.take(k),
                oks0[k],
                |p: (FlakeReference, ConfigInfo)| !can_build_natively_spec(*user, p.1.system@),
            );
        }
        match class {
            BuildClass::Local => {
                local.push(t);
            },
            BuildClass::Remote => {
                remote.push(t);
            },
        }
        proof {
            done = done + 1;
        }
    }
    proof {
        assert(oks0.take(n0 as int) =~= oks0);
    }
    Ok(DeployPlan { local, remote })
}

/// One step of a target's pipeline, with the data its command needs.
#[derive(Debug)]
pub enum PipelineAction {
    /// Copy a store path (artifact or derivation) to the host.
    Copy { path: String, host: String },
    /// Have the host realise the derivation itself.
    RealiseRemote { drv: String, host: String },
    /// Make the artifact the host's system profile.
    Activate { path: String, host: String },
    /// Invoke the artifact's configuration switch entry point.
    Switch { path: String, host: String },
}

pub open spec fn action_is_copy(a: PipelineAction, path: Seq<char>, host: Seq<char>) -> bool {
    match a {
        PipelineAction::Copy { path: p, host: h } => p@ == path && h@ == host,
        _ => false,
    }
}

pub open spec fn action_is_realise(a: PipelineAction, drv: Seq<char>, host: Seq<char>) -> bool {
    match a {
        PipelineAction::RealiseRemote { drv: d, host: h } => d@ == drv && h@ == host,
        _ => false,
    }
}

pub open spec fn action_is_activate(a: PipelineAction, path: Seq<char>, host: Seq<char>) -> bool {
    match a {
        PipelineAction::Activate { path: p, host: h } => p@ == path && h@ == host,
        _ => false,
    }
}

pub open spec fn action_is_switch(a: PipelineAction, path: Seq<char>, host: Seq<char>) -> bool {
    match a {
        PipelineAction::Switch { path: p, host: h } => p@ == path && h@ == host,
        _ => false,
    }
}

/// The ordered steps of one target's pipeline. A locally built target ships
/// its realised artifact; a remote one ships only the small derivation
/// reference and lets the host build, then both activate and switch.
pub fn pipeline_actions(t: &DeployTarget, class: BuildClass) -> (r: Vec<PipelineAction>)
    ensures
        class == BuildClass::Local ==> {
            &&& r@.len() == 3
            &&& action_is_copy(r@[0], t.toplevel_out@, t.host@)
            &&& action_is_activate(r@[1], t.toplevel_out@, t.host@)
            &&& action_is_switch(r@[2], t.toplevel_out@, t.host@)
        },
        class == BuildClass::Remote ==> {
            &&& r@.len() == 4
            &&& action_is_copy(r@[0], t.toplevel_drv@, t.host@)
            &&& action_is_realise(r@[1], t.toplevel_drv@, t.host@)
            &&& action_is_activate(r@[2], t.toplevel_out@, t.host@)
            &&& action_is_switch(r@[3], t.toplevel_out@, t.host@)
        },
{
    let mut r: Vec<PipelineAction> = Vec::new();
    match class {
        BuildClass::Local => {
            r.push(
                PipelineAction::Copy { path: t.toplevel_out.clone(), host: t.host.clone() },
            );
            r.push(
                PipelineAction::Activate { path: t.toplevel_out.clone(), host: t.host.clone() },
            );
            r.push(
                PipelineAction::Switch { path: t.toplevel_out.clone(), host: t.host.clone() },
            );
        },
        BuildClass::Remote => {
            r.push(
                PipelineAction::Copy { path: t.toplevel_drv.clone(), host: t.host.clone() },
            );
            r.push(
                PipelineAction::RealiseRemote { drv: t.toplevel_drv.clone(), host: t.host.clone() },
            );
            r.push(
                PipelineAction::Activate { path: t.toplevel_out.clone(), host: t.host.clone() },
            );
            r.push(
                PipelineAction::Switch { path: t.toplevel_out.clone(), host: t.host.clone() },
            );
        },
    }
    r
}

/// The first error among a pipeline's step results, or success: a step
/// after a failed one never counts, as it is never run.
pub open spec fn first_err(s: Seq<Result<(), NixError>>) -> Result<(), NixError>
    decreases s.len(),
{
    if s.len() == 0 {
        Ok(())
    } else {
        match s[0] {
            Err(e) => Err(e),
            Ok(_) => first_err(s.drop_first()),
        }
    }
}

/// Folds one target's step results into its outcome.
pub fn pipeline_outcome(step_results: Vec<Result<(), NixError>>) -> (r: Result<(), NixError>)
    ensures
        r == first_err(step_results@),
{
    let ghost all = step_results@;
    let mut rest = step_results;
    proof {
        assert(rest@ =~= all.skip(0));
    }
    let ghost mut done: int = 0;
    while rest.len() > 0
        invariant
            all == step_results@,
            0 <= done <= all.len(),
            rest@ =~= all.skip(done),
            first_err(all) == first_err(all.skip(done)),
        decreases rest@.len(),
    {
        let ghost prev = rest@;
        let head = rest.remove(0);
        proof {
            assert(head == all.skip(done)[0]);
            assert(rest@ == prev.remove(0));
            assert forall|i: int| 0 <= i < rest@.len() implies #[trigger] rest@[i] == prev[i
                + 1] by {
                assert(prev.remove(0)[i] == prev[i + 1]);
            }
            assert(rest@ =~= all.skip(done + 1));
            assert(all.skip(done).drop_first() =~= all.skip(done + 1));
        }
        match head {
            Err(e) => {
                return Err(e);
            },
            Ok(_) => {
            },
        }
        proof {
            done = done + 1;
        }
    }
    proof {
        assert(all.skip(done).len() == 0);
    }
    Ok(())
}

/// The targets that succeeded, in input order.
pub open spec fn summary_successes(
    results: Seq<(FlakeReference, Result<(), NixError>)>,
) -> Seq<FlakeReference>
    decreases results.len(),
{
    if results.len() == 0 {
        Seq::empty()
    } else {
        summary_successes(results.drop_last()) + (match results.last().1 {
            Ok(_) => seq![results.last().0],
            Err(_) => Seq::empty(),
        })
    }
}

/// The targets that failed, with their errors, in input order.
pub open spec fn summary_failures(
    results: Seq<(FlakeReference, Result<(), NixError>)>,
) -> Seq<(FlakeReference, NixError)>
    decreases results.len(),
{
    if results.len() == 0 {
        Seq::empty()
    } else {
        summary_failures(results.drop_last()) + (match results.last().1 {
            Err(e) => seq![(results.last().0, e)],
            Ok(_) => Seq::empty(),
        })
    }
}

/// Splits per-target outcomes into successes and failures. Every target
/// appears on exactly one side, whatever happened to the others.
pub fn deploy_summary(results: Vec<(FlakeReference, Result<(), NixError>)>) -> (r: (
    Vec<FlakeReference>,
    Vec<(FlakeReference, NixError)>,
))
    ensures
        r.0@ == summary_successes(results@),
        r.1@ == summary_failures(results@),
{
    let ghost all = results@;
    let mut rest = results;
    let mut succ: Vec<FlakeReference> = Vec::new();
    let mut fail: Vec<(FlakeReference, NixError)> = Vec::new();
    proof {
        assert(all.take(0) =~= Seq::<(FlakeReference, Result<(), NixError>)>::empty());
        assert(rest@ =~= all.skip(0));
    }
    while rest.len() > 0
        invariant
            rest@.len() <= all.len(),
            rest@ =~= all.skip(all.len() - rest@.len()),
            succ@ == summary_successes(all.take(all.len() - rest@.len())),
            fail@ == summary_failures(all.take(all.len() - rest@.len())),
        decreases rest@.len(),
    {
        let ghost k = all.len() - rest@.len();
        let ghost prev = rest@;
        let (fr, res) = rest.remove(0);
        proof {
            assert((fr, res) == all.skip(k)[0]);
            assert(all.skip(k)[0] == all[k]);
            assert(rest@ == prev.remove(0));
            assert forall|i: int| 0 <= i < rest@.len() implies #[trigger] rest@[i] == prev[i
                + 1] by {
                assert(prev.remove(0)[i] == prev[i + 1]);
            }
            assert(rest@ =~= all.skip(k + 1));
            assert(all.take(k + 1).drop_last() =~= all.take(k));
            assert(all.take(k + 1).last() == all[k]);
        }
        match res {
            Ok(_) => {
                succ.push(fr);
            },
            Err(e) => {
                fail.push((fr, e));
            },
        }
    }
    proof {
        assert(all.take(all.len() as int) =~= all);
    }
    (succ, fail)
}

/// Whether to issue a reboot after a successful switch: only when asked
/// for, and only when the host reports one pending.
pub fn should_reboot(status: &SystemStatus, auto_reboot: bool) -> (r: bool)
    ensures
        r == (auto_reboot && (status matches SystemStatus::Reachable { needs_reboot: true, .. })),
{
    match status {
        SystemStatus::Reachable { needs_reboot, .. } => auto_reboot && *needs_reboot,
        SystemStatus::Unreachable => false,
    }
}

/// Whether a local deployment may proceed: the declared hostname agrees
/// with the local one, unless the mismatch is explicitly waived.
pub fn local_hostname_ok(config_hostname: &str, local_hostname: &str, ignore_hostname: bool) -> (r:
    bool)
    ensures
        r == (ignore_hostname || config_hostname@ == local_hostname@),
{
    ignore_hostname || crate::strutil::str_eq(config_hostname, local_hostname)
}

} // verus!
