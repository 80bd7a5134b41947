use nxbd::configcheck::run_all_checks;
use nxbd::deploy::{
    classify_target, deploy_summary, effective_ignores, pipeline_actions, pipeline_outcome,
    plan_deployment, should_reboot, BuildClass, PipelineAction, PlanError,
};
use nxbd::flakeref::FlakeReference;
use nxbd::ignore::{parse_ignore_string, IgnoreStore};
use nxbd::nixcommands::{NixError, SystemStatus};
use nxbd::nixosattributes::{ConfigInfo, NixUser};
use nxbd::sshkeys::SshKeyInfo;
use nxbd::userinfo::UserInfo;

fn passing_config(host: &str, system: &str) -> ConfigInfo {
    ConfigInfo {
        ssh_enabled: true,
        sudo_enabled: true,
        wheel_needs_password: false,
        nix_trusts_wheel: true,
        users: vec![NixUser {
            name: "op".to_string(),
            ssh_keys: vec![SshKeyInfo {
                key_type: "ssh-ed25519".to_string(),
                key_data: "AAAAKEY".to_string(),
                comment: "".to_string(),
            }],
            extra_groups: vec!["wheel".to_string()],
        }],
        sudo_wheel_only: true,
        ssh_password_authentication: false,
        users_mutable: false,
        networking_firewall_enabled: true,
        log_refused_connections: false,
        boot_systemd: true,
        boot_systemd_generations: Some(10),
        boot_grub: false,
        boot_grub_generations: None,
        nix_gc: true,
        nix_optimise_automatic: true,
        nix_auto_optimise_store: false,
        nix_extra_options: "".to_string(),
        nix_settings_experimental_features: "nix-command flakes".to_string(),
        fqdn: None,
        doc_nixos_enabled: false,
        doc_enable: false,
        doc_dev_enable: false,
        doc_doc_enable: false,
        doc_info_enable: false,
        doc_man_enable: false,
        font_fontconfig_enable: false,
        stub_ld: false,
        command_not_found: false,
        nginx_enabled: false,
        nginx_brotli: false,
        nginx_gzip: false,
        nginx_optimisation: false,
        nginx_proxy: false,
        nginx_tls: false,
        is_x86: true,
        intel_microcode: true,
        amd_microcode: false,
        boot_is_container: false,
        host_name: host.to_string(),
        system: system.to_string(),
        toplevel_out: format!("/nix/store/out-{}", host),
        toplevel_drv: format!("/nix/store/drv-{}.drv", host),
        fqdn_or_host_name: host.to_string(),
    }
}

fn operator() -> UserInfo {
    UserInfo {
        username: "op".to_string(),
        ssh_keys: vec![SshKeyInfo {
            key_type: "ssh-ed25519".to_string(),
            key_data: "AAAAKEY".to_string(),
            comment: "".to_string(),
        }],
        system: "x86_64-linux".to_string(),
        extra_platforms: vec!["i686-linux".to_string()],
        remote_builders: vec![nxbd::nixcommands::RemoteBuilder {
            ssh_host: "ssh://builder".to_string(),
            system: "aarch64-linux".to_string(),
        }],
    }
}

fn target(name: &str) -> FlakeReference {
    FlakeReference {
        url: ".".to_string(),
        attribute: name.to_string(),
    }
}

// Platform matching the operator's own, an extra native platform, or a
// remote builder's platform is locally buildable; anything else is built by
// the target host itself.
#[test]
fn test_classify_target() {
    let user = operator();
    assert_eq!(classify_target(&user, "x86_64-linux"), BuildClass::Local);
    assert_eq!(classify_target(&user, "i686-linux"), BuildClass::Local);
    assert_eq!(classify_target(&user, "aarch64-linux"), BuildClass::Local);
    assert_eq!(classify_target(&user, "riscv64-linux"), BuildClass::Remote);
    assert!(user.can_build_natively("x86_64-linux"));
    assert!(!user.can_build_natively("riscv64-linux"));
}

// A batch with one evaluation failure aborts whole, before any plan exists,
// and reports exactly the failing target.
#[test]
fn test_batch_aborts_on_evaluation_error() {
    let user = operator();
    let store = IgnoreStore::new();
    let infos = vec![
        (target("a"), Ok(passing_config("a", "x86_64-linux"))),
        (target("b"), Err(NixError::Eval("no such attribute".to_string()))),
        (target("c"), Ok(passing_config("c", "x86_64-linux"))),
    ];
    let r = plan_deployment(infos, &user, false, &store, &None);
    match r {
        Err(PlanError::Evaluation(errors)) => {
            assert_eq!(errors.len(), 1);
            assert_eq!(errors[0].0.attribute, "b");
            assert!(matches!(errors[0].1, NixError::Eval(_)));
        }
        other => panic!("expected evaluation abort, got {:?}", other),
    }
}

// A batch with an unignored check failure aborts whole; ignoring the
// failure lets the same batch pass.
#[test]
fn test_batch_aborts_on_check_failure() {
    let user = operator();
    let store = IgnoreStore::new();
    let mut bad = passing_config("b", "x86_64-linux");
    bad.ssh_enabled = false;
    let infos = vec![
        (target("a"), Ok(passing_config("a", "x86_64-linux"))),
        (target("b"), Ok(bad)),
    ];
    match plan_deployment(infos, &user, false, &store, &None) {
        Err(PlanError::ChecksFailed(failures)) => {
            assert_eq!(failures.len(), 1);
            assert_eq!(failures[0].0.attribute, "b");
            assert_eq!(
                failures[0].1,
                vec![("remote_deployment".to_string(), "ssh_enabled".to_string())]
            );
        }
        other => panic!("expected check-gate abort, got {:?}", other),
    }

    let mut bad2 = passing_config("b", "x86_64-linux");
    bad2.ssh_enabled = false;
    let infos2 = vec![
        (target("a"), Ok(passing_config("a", "x86_64-linux"))),
        (target("b"), Ok(bad2)),
    ];
    let cmd = Some(parse_ignore_string("remote_deployment.ssh_enabled").unwrap());
    let plan = plan_deployment(infos2, &user, false, &store, &cmd).unwrap();
    assert_eq!(plan.local.len(), 2);
    assert_eq!(plan.remote.len(), 0);
}

// Partitioning: operator-buildable platforms deploy from a local build,
// anything else ships the derivation for the host to realise.
#[test]
fn test_plan_partition() {
    let user = operator();
    let store = IgnoreStore::new();
    let infos = vec![
        (target("a"), Ok(passing_config("a", "x86_64-linux"))),
        (target("b"), Ok(passing_config("b", "riscv64-linux"))),
        (target("c"), Ok(passing_config("c", "aarch64-linux"))),
    ];
    let plan = plan_deployment(infos, &user, false, &store, &None).unwrap();
    assert_eq!(plan.local.len(), 2);
    assert_eq!(plan.remote.len(), 1);
    assert_eq!(plan.local[0].target.attribute, "a");
    assert_eq!(plan.local[1].target.attribute, "c");
    assert_eq!(plan.remote[0].target.attribute, "b");
    assert_eq!(plan.remote[0].host, "b");
    assert_eq!(plan.remote[0].toplevel_drv, "/nix/store/drv-b.drv");
    assert_eq!(plan.local[0].toplevel_out, "/nix/store/out-a");
}

// The pipelines: a local target copies its artifact, then activates, then
// switches; a remote target first ships and realises the derivation.
#[test]
fn test_pipeline_actions() {
    let user = operator();
    let store = IgnoreStore::new();
    let infos = vec![(target("a"), Ok(passing_config("a", "riscv64-linux")))];
    let plan = plan_deployment(infos, &user, true, &store, &None).unwrap();
    let t = &plan.remote[0];
    let actions = pipeline_actions(t, BuildClass::Remote);
    assert_eq!(actions.len(), 4);
    assert!(matches!(&actions[0], PipelineAction::Copy { path, host }
        if path.as_str() == "/nix/store/drv-a.drv" && host.as_str() == "a"));
    assert!(matches!(&actions[1], PipelineAction::RealiseRemote { drv, host }
        if drv.as_str() == "/nix/store/drv-a.drv" && host.as_str() == "a"));
    assert!(matches!(&actions[2], PipelineAction::Activate { path, host }
        if path.as_str() == "/nix/store/out-a" && host.as_str() == "a"));
    assert!(matches!(&actions[3], PipelineAction::Switch { path, host }
        if path.as_str() == "/nix/store/out-a" && host.as_str() == "a"));
    let local_actions = pipeline_actions(t, BuildClass::Local);
    assert_eq!(local_actions.len(), 3);
    assert!(matches!(&local_actions[0], PipelineAction::Copy { path, .. }
        if path.as_str() == "/nix/store/out-a"));
}

// One target failing at the transfer step fails alone: the summary shows
// two successes and one failure, and the successful targets' outcomes do
// not depend on the failing one.
#[test]
fn test_one_transfer_failure_leaves_siblings_alone() {
    // per-target step outcomes: b's first step (the copy) fails
    let a_result = pipeline_outcome(vec![Ok(()), Ok(()), Ok(())]);
    let b_result = pipeline_outcome(vec![Err(NixError::Copy)]);
    let c_result = pipeline_outcome(vec![Ok(()), Ok(()), Ok(())]);
    let results = vec![
        (target("a"), a_result),
        (target("b"), b_result),
        (target("c"), c_result),
    ];
    let (successes, failures) = deploy_summary(results);
    assert_eq!(successes.len(), 2);
    assert_eq!(successes[0].attribute, "a");
    assert_eq!(successes[1].attribute, "c");
    assert_eq!(failures.len(), 1);
    assert_eq!(failures[0].0.attribute, "b");
    assert!(matches!(failures[0].1, NixError::Copy));
}

#[test]
fn test_pipeline_outcome_short_circuits() {
    assert!(pipeline_outcome(vec![]).is_ok());
    assert!(pipeline_outcome(vec![Ok(()), Ok(())]).is_ok());
    assert!(matches!(
        pipeline_outcome(vec![Ok(()), Err(NixError::ProfileSet), Err(NixError::Copy)]),
        Err(NixError::ProfileSet)
    ));
}

#[test]
fn test_should_reboot() {
    let pending = SystemStatus::Reachable {
        current_generation: "/gen".to_string(),
        needs_reboot: true,
        uptime_seconds: 5,
        failed_units: 0,
    };
    let settled = SystemStatus::Reachable {
        current_generation: "/gen".to_string(),
        needs_reboot: false,
        uptime_seconds: 5,
        failed_units: 0,
    };
    assert!(should_reboot(&pending, true));
    assert!(!should_reboot(&pending, false));
    assert!(!should_reboot(&settled, true));
    assert!(!should_reboot(&SystemStatus::Unreachable, true));
}

// The stored entry and the command-line directives combine; wildcards win.
#[test]
fn test_effective_ignores() {
    let mut store = IgnoreStore::new();
    store.insert(
        "web1".to_string(),
        parse_ignore_string("g1.c1").unwrap(),
    );
    let cmd = Some(parse_ignore_string("g1.c2,g2.*").unwrap());
    let eff = effective_ignores(&store, "web1", &cmd).unwrap();
    let g1 = eff.get("g1").unwrap();
    assert!(g1.contains(&"c1".to_string()));
    assert!(g1.contains(&"c2".to_string()));
    assert_eq!(eff.get("g2").unwrap().len(), 0);

    let eff_store_only = effective_ignores(&store, "web1", &None).unwrap();
    assert_eq!(eff_store_only.get("g1").unwrap(), &vec!["c1".to_string()]);

    let eff_cmd_only = effective_ignores(&store, "other", &cmd).unwrap();
    assert!(eff_cmd_only.contains_key("g2"));

    assert!(effective_ignores(&store, "other", &None).is_none());
}

// Saving failing checks replaces a target's stored entry with exactly the
// current failures, and removes the entry when nothing fails.
#[test]
fn test_record_failed_checks() {
    let user = operator();
    let mut store = IgnoreStore::new();
    store.insert(
        "healthy".to_string(),
        parse_ignore_string("remote_deployment.ssh_enabled").unwrap(),
    );
    store.insert(
        "other".to_string(),
        parse_ignore_string("g.c").unwrap(),
    );

    let healthy_results = run_all_checks(&passing_config("healthy", "x86_64-linux"), &user, None);
    let mut failing_cfg = passing_config("sick", "x86_64-linux");
    failing_cfg.ssh_enabled = false;
    failing_cfg.intel_microcode = false;
    let failing_results = run_all_checks(&failing_cfg, &user, None);

    store.record_failed_checks(&vec![
        (target("healthy"), healthy_results),
        (target("sick"), failing_results),
    ]);

    // zero failures: the pre-existing entry is gone
    assert!(store.get("healthy").is_none());
    // failures: the entry is exactly the current failing set
    let sick = store.get("sick").unwrap();
    assert_eq!(
        sick.get("remote_deployment").unwrap(),
        &vec!["ssh_enabled".to_string()]
    );
    assert_eq!(
        sick.get("hardware_configuration").unwrap(),
        &vec!["cpu_microcode".to_string()]
    );
    assert_eq!(sick.len(), 2);
    // untouched targets keep their entries
    assert_eq!(store.get("other").unwrap().get("g").unwrap(), &vec!["c".to_string()]);

    // recording again with the same failures replaces, not merges
    let failing_results2 = run_all_checks(&failing_cfg, &user, None);
    store.record_failed_checks(&vec![(target("sick"), failing_results2)]);
    assert_eq!(store.get("sick").unwrap().len(), 2);
}

#[test]
fn test_ssh_key_parsing() {
    let k = SshKeyInfo::from_authorized_key("ssh-ed25519 AAAAKEY me@host").unwrap();
    assert_eq!(k.key_type, "ssh-ed25519");
    assert_eq!(k.key_data, "AAAAKEY");
    assert_eq!(k.comment, "me@host");
    assert_eq!(k.display_string(), "ssh-ed25519 AAAAKEY me@host");

    let k2 = SshKeyInfo::from_authorized_key("  ssh-rsa   DATA  ").unwrap();
    assert_eq!(k2.key_type, "ssh-rsa");
    assert_eq!(k2.key_data, "DATA");
    assert_eq!(k2.comment, "");
    assert_eq!(k2.display_string(), "ssh-rsa DATA");

    assert!(SshKeyInfo::from_authorized_key("just-one-token").is_none());
    assert!(SshKeyInfo::from_authorized_key("").is_none());

    let keys = nxbd::sshkeys::parse_ssh_keys("ssh-rsa K1 a\nnot_a_key\nssh-rsa K2\n");
    assert_eq!(keys.len(), 2);
    assert_eq!(keys[0].key_data, "K1");
    assert_eq!(keys[1].key_data, "K2");
}
