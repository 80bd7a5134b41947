use nxbd::configcheck::{get_standard_checks, run_all_checks, run_system_checks};
use nxbd::ignore::IgnoreMap;
use nxbd::nixosattributes::{ConfigInfo, NixUser};
use nxbd::sshkeys::SshKeyInfo;
use nxbd::userinfo::UserInfo;

fn test_config_info() -> ConfigInfo {
    ConfigInfo {
        ssh_enabled: false, // This will fail ssh_enabled check
        sudo_enabled: true,
        wheel_needs_password: false,
        nix_trusts_wheel: true,
        users: vec![NixUser {
            name: "testuser".to_string(),
            ssh_keys: vec![SshKeyInfo {
                key_type: "ssh-rsa".to_string(),
                key_data: "AAAAB3NzaC1yc2EAAAADAQABAAABAQC".to_string(),
                comment: "test@example.com".to_string(),
            }],
            extra_groups: vec!["wheel".to_string()],
        }],
        sudo_wheel_only: true,
        ssh_password_authentication: false,
        users_mutable: false,
        networking_firewall_enabled: true,
        log_refused_connections: false,
        boot_systemd: false,
        boot_grub: false,
        boot_systemd_generations: None,
        boot_grub_generations: None,
        nix_gc: true,
        nix_optimise_automatic: true,
        nix_auto_optimise_store: false,
        nix_extra_options: "".to_string(),
        nix_settings_experimental_features: "nix-command flakes".to_string(),
        fqdn: None,
        doc_nixos_enabled: false,
        doc_enable: false,
        doc_dev_enable: false,
        doc_doc_enable: false,
        doc_info_enable: false,
        doc_man_enable: false,
        font_fontconfig_enable: false,
        stub_ld: false,
        command_not_found: false,
        nginx_enabled: false,
        nginx_brotli: false,
        nginx_gzip: false,
        nginx_optimisation: false,
        nginx_proxy: false,
        nginx_tls: false,
        is_x86: true,
        intel_microcode: false, // This will fail cpu_microcode check
        amd_microcode: false,
        boot_is_container: false,
        host_name: "testhost".to_string(),
        system: "x86_64-linux".to_string(),
        toplevel_out: "/nix/store/test-path".to_string(),
        toplevel_drv: "/nix/store/test-drv.drv".to_string(),
        fqdn_or_host_name: "testhost".to_string(),
    }
}

fn test_user_info() -> UserInfo {
    UserInfo {
        username: "testuser".to_string(),
        ssh_keys: vec![SshKeyInfo {
            key_type: "ssh-rsa".to_string(),
            key_data: "AAAAB3NzaC1yc2EAAAADAQABAAABAQC".to_string(),
            comment: "test@example.com".to_string(),
        }],
        system: "x86_64-linux".to_string(),
        extra_platforms: vec![],
        remote_builders: vec![],
    }
}

#[test]
fn test_run_system_checks_with_ignores() {
    // Create a minimal ConfigInfo that will fail some checks
    let config_info = test_config_info();

    // Create a minimal UserInfo
    let user_info = test_user_info();

    // Test 1: Without any ignores, we should have failures
    let failures = run_system_checks(&config_info, &user_info, None).unwrap();
    assert!(!failures.is_empty(), "Expected failures without ignores");

    // Verify specific failures: ssh_enabled and cpu_microcode
    assert!(
        failures.contains(&("remote_deployment".to_string(), "ssh_enabled".to_string())),
        "Expected remote_deployment.ssh_enabled to fail"
    );
    assert!(
        failures.contains(&(
            "hardware_configuration".to_string(),
            "cpu_microcode".to_string()
        )),
        "Expected hardware_configuration.cpu_microcode to fail"
    );

    // Test 2: With ignore map containing all failures, we should have no failures
    let mut ignore_map = IgnoreMap::new();

    // Add both failures to ignore map
    ignore_map.insert(
        "remote_deployment".to_string(),
        vec!["ssh_enabled".to_string()],
    );
    ignore_map.insert(
        "hardware_configuration".to_string(),
        vec!["cpu_microcode".to_string()],
    );

    let failures_with_ignores =
        run_system_checks(&config_info, &user_info, Some(&ignore_map)).unwrap();
    assert!(
        failures_with_ignores.is_empty(),
        "Expected no failures with ignores, got: {:?}",
        failures_with_ignores
    );

    // Test 3: With partial ignore map, we should have one failure
    let mut partial_ignore_map = IgnoreMap::new();

    // Only ignore ssh_enabled
    partial_ignore_map.insert(
        "remote_deployment".to_string(),
        vec!["ssh_enabled".to_string()],
    );

    let failures_with_partial_ignores =
        run_system_checks(&config_info, &user_info, Some(&partial_ignore_map)).unwrap();
    assert_eq!(
        failures_with_partial_ignores.len(),
        1,
        "Expected exactly one failure with partial ignores, got: {:?}",
        failures_with_partial_ignores
    );
    assert!(
        failures_with_partial_ignores.contains(&(
            "hardware_configuration".to_string(),
            "cpu_microcode".to_string()
        )),
        "Expected hardware_configuration.cpu_microcode to fail with partial ignores"
    );

    // Test 4: With empty vector in ignore map (should ignore ALL checks in that group)
    let mut empty_vector_ignore_map = IgnoreMap::new();

    // Use empty vector to ignore all checks in hardware_configuration
    empty_vector_ignore_map.insert("hardware_configuration".to_string(), vec![]);

    let failures_with_empty_vector =
        run_system_checks(&config_info, &user_info, Some(&empty_vector_ignore_map)).unwrap();
    assert_eq!(
        failures_with_empty_vector.len(),
        1,
        "Expected exactly one failure with empty vector in ignore map, got: {:?}",
        failures_with_empty_vector
    );
    assert!(
        failures_with_empty_vector
            .contains(&("remote_deployment".to_string(), "ssh_enabled".to_string())),
        "Expected remote_deployment.ssh_enabled to fail with empty vector in ignore map"
    );
    assert!(!failures_with_empty_vector.contains(&("hardware_configuration".to_string(), "cpu_microcode".to_string())),
        "Expected hardware_configuration.cpu_microcode to be ignored with empty vector in ignore map");
}

// With SSH disabled and no x86 microcode driver, exactly those two checks
// fail and every other check passes.
#[test]
fn test_exactly_two_checks_fail() {
    let config_info = test_config_info();
    let user_info = test_user_info();
    let failures = run_system_checks(&config_info, &user_info, None).unwrap();
    assert_eq!(
        failures,
        vec![
            ("remote_deployment".to_string(), "ssh_enabled".to_string()),
            (
                "hardware_configuration".to_string(),
                "cpu_microcode".to_string()
            ),
        ]
    );
    let results = run_all_checks(&config_info, &user_info, None);
    for group in &results {
        for check in &group.checks {
            let failing = (group.id == "remote_deployment" && check.id == "ssh_enabled")
                || (group.id == "hardware_configuration" && check.id == "cpu_microcode");
            assert_eq!(check.passed, !failing, "{}.{}", group.id, check.id);
            assert!(!check.ignored, "{}.{}", group.id, check.id);
        }
    }
}

// An explicit ignore entry marks that check ignored (and still failed);
// the other failing check is untouched.
#[test]
fn test_explicit_ignore_marks_one_check() {
    let config_info = test_config_info();
    let user_info = test_user_info();
    let mut ignore_map = IgnoreMap::new();
    ignore_map.insert(
        "remote_deployment".to_string(),
        vec!["ssh_enabled".to_string()],
    );
    let results = run_all_checks(&config_info, &user_info, Some(&ignore_map));
    for group in &results {
        for check in &group.checks {
            if group.id == "remote_deployment" && check.id == "ssh_enabled" {
                assert!(!check.passed);
                assert!(check.ignored);
            } else if group.id == "hardware_configuration" && check.id == "cpu_microcode" {
                assert!(!check.passed);
                assert!(!check.ignored);
            } else {
                assert!(check.passed);
                assert!(!check.ignored);
            }
        }
    }
}

// A wildcard entry ignores every failing check of its group and nothing in
// other groups.
#[test]
fn test_wildcard_ignores_whole_group() {
    let mut config_info = test_config_info();
    // make a second check of the same group fail
    config_info.sudo_enabled = false;
    let user_info = test_user_info();
    let mut ignore_map = IgnoreMap::new();
    ignore_map.insert("remote_deployment".to_string(), vec![]);
    let results = run_all_checks(&config_info, &user_info, Some(&ignore_map));
    for group in &results {
        for check in &group.checks {
            if group.id == "remote_deployment" {
                assert_eq!(check.ignored, !check.passed, "{}", check.id);
            } else {
                assert!(!check.ignored, "{}.{}", group.id, check.id);
            }
        }
    }
    // the failing check of the other group is unaffected
    let failures = run_system_checks(&config_info, &user_info, Some(&ignore_map)).unwrap();
    assert_eq!(
        failures,
        vec![(
            "hardware_configuration".to_string(),
            "cpu_microcode".to_string()
        )]
    );
}

// A passing check is never reported as ignored, even under a wildcard.
#[test]
fn test_passing_checks_never_ignored() {
    let config_info = test_config_info();
    let user_info = test_user_info();
    let mut ignore_map = IgnoreMap::new();
    ignore_map.insert("system_security".to_string(), vec![]);
    let results = run_all_checks(&config_info, &user_info, Some(&ignore_map));
    for group in &results {
        for check in &group.checks {
            if check.passed {
                assert!(!check.ignored);
            }
        }
    }
}

#[test]
fn test_catalog_layout() {
    let groups = get_standard_checks();
    let ids: Vec<&str> = groups.iter().map(|g| g.id.as_str()).collect();
    assert_eq!(
        ids,
        vec![
            "remote_deployment",
            "system_security",
            "system_maintenance",
            "nix_configuration",
            "server_optimization",
            "hardware_configuration"
        ]
    );
    assert_eq!(groups[0].checks.len(), 6);
    assert_eq!(groups[0].checks[0].id, "ssh_enabled");
    assert_eq!(groups[5].checks[0].id, "cpu_microcode");
    let total: usize = groups.iter().map(|g| g.checks.len()).sum();
    assert_eq!(total, 30);
}

// The failure record carries the check's label and message.
#[test]
fn test_check_failure_record() {
    let config_info = test_config_info();
    let user_info = test_user_info();
    let groups = get_standard_checks();
    let ssh_check = &groups[0].checks[0];
    let err = ssh_check.check(&config_info, &user_info).unwrap_err();
    assert_eq!(err.check_name, "SSH");
    assert_eq!(err.message, "SSH service is not enabled");
    let sudo_check = &groups[0].checks[1];
    assert!(sudo_check.check(&config_info, &user_info).is_ok());
}

// The generations check accepts either boot loader being bounded and
// reports the GRUB side when both are unbounded.
#[test]
fn test_generations_check() {
    let mut config_info = test_config_info();
    let user_info = test_user_info();
    config_info.boot_systemd = true;
    config_info.boot_systemd_generations = Some(11);
    config_info.boot_grub = true;
    config_info.boot_grub_generations = Some(42);
    let groups = get_standard_checks();
    let gen_check = &groups[2].checks[0];
    assert_eq!(gen_check.id, "system_generations_limit");
    let err = gen_check.check(&config_info, &user_info).unwrap_err();
    assert_eq!(err.check_name, "Boot Generations");
    assert_eq!(
        err.message,
        "Too many GRUB generations kept (42). Consider reducing to 10 or less"
    );
    config_info.boot_systemd_generations = Some(10);
    assert!(gen_check.check(&config_info, &user_info).is_ok());
}

// The feature check reads the experimental-features line of the extra
// options as well as the settings string.
#[test]
fn test_nix_features_check() {
    let mut config_info = test_config_info();
    let user_info = test_user_info();
    let groups = get_standard_checks();
    let feature_check = &groups[3].checks[0];
    assert_eq!(feature_check.id, "nix_extra_options");
    assert!(feature_check.check(&config_info, &user_info).is_ok());

    config_info.nix_settings_experimental_features = "".to_string();
    let err = feature_check.check(&config_info, &user_info).unwrap_err();
    assert_eq!(
        err.message,
        "Missing required nix feature 'nix-command'. Add it to experimental-features in nix.extraOptions"
    );

    config_info.nix_extra_options =
        "keep-outputs = true\n  experimental-features = nix-command flakes\n".to_string();
    assert!(feature_check.check(&config_info, &user_info).is_ok());

    config_info.nix_extra_options = "experimental-features = nix-command".to_string();
    let err = feature_check.check(&config_info, &user_info).unwrap_err();
    assert_eq!(
        err.message,
        "Missing required nix feature 'flakes'. Add it to experimental-features in nix.extraOptions"
    );
}

// The user-access check wants the operator's key among the user's
// authorized keys, compared by type and material only.
#[test]
fn test_user_access_check() {
    let config_info = test_config_info();
    let mut user_info = test_user_info();
    let groups = get_standard_checks();
    let access_check = &groups[0].checks[4];
    assert_eq!(access_check.id, "user_access");
    assert!(access_check.check(&config_info, &user_info).is_ok());

    user_info.ssh_keys[0].comment = "other-comment".to_string();
    assert!(access_check.check(&config_info, &user_info).is_ok());

    user_info.ssh_keys[0].key_data = "SOMETHINGELSE".to_string();
    let err = access_check.check(&config_info, &user_info).unwrap_err();
    assert_eq!(err.check_name, "User Access");
    assert_eq!(
        err.message,
        "User 'testuser' exists but none of their local SSH keys are authorized"
    );

    user_info.username = "ghost".to_string();
    let err = access_check.check(&config_info, &user_info).unwrap_err();
    assert_eq!(err.message, "User 'ghost' does not exist on target system");
}
