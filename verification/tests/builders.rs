use nxbd::nixcommands::{
    activate_profile, build_remote_command, check_system_status, copy_to_host, parse_builders,
    realise_drv_output, realise_drv_remotely, realise_toplevel_output_paths, reboot_host,
    switch_to_configuration, NixError, SystemStatus,
};

#[test]
fn test_parse_builders_extended_format() {
    let input = "ssh-ng://builder@linux-builder aarch64-linux /etc/nix/builder_ed25519 4 1 kvm,benchmark,big-parallel - c3NoLWVkMjU1MTkgQUFBQUMzTnphQzFsWkRJMU5URTVBQUFBSUpCV2N4Yi9CbGFxdDFhdU90RStGOFFVV3JVb3RpQzVxQkorVXVFV2RWQ2Igcm9vdEBuaXhvcwo=";
    let builders = parse_builders(input);
    assert_eq!(builders.len(), 1);
    assert_eq!(builders[0].ssh_host, "ssh-ng://builder@linux-builder");
    assert_eq!(builders[0].system, "aarch64-linux");
}

#[test]
fn test_parse_builders_semicolon_separated() {
    let input = "ssh://mac x86_64-darwin ; ssh://beastie x86_64-freebsd";
    let builders = parse_builders(input);
    assert_eq!(builders.len(), 2);
    assert_eq!(builders[0].ssh_host, "ssh://mac");
    assert_eq!(builders[0].system, "x86_64-darwin");
    assert_eq!(builders[1].ssh_host, "ssh://beastie");
    assert_eq!(builders[1].system, "x86_64-freebsd");
}

#[test]
fn test_parse_builders_newline_separated() {
    let input = "ssh://mac x86_64-darwin\nssh://beastie x86_64-freebsd";
    let builders = parse_builders(input);
    assert_eq!(builders.len(), 2);
    assert_eq!(builders[0].ssh_host, "ssh://mac");
    assert_eq!(builders[0].system, "x86_64-darwin");
    assert_eq!(builders[1].ssh_host, "ssh://beastie");
    assert_eq!(builders[1].system, "x86_64-freebsd");
}

#[test]
fn test_build_remote_command_forms() {
    assert_eq!(
        build_remote_command(Some("host1"), true),
        vec!["ssh", "host1", "sudo"]
    );
    assert_eq!(build_remote_command(Some("host1"), false), vec!["ssh", "host1"]);
    assert_eq!(build_remote_command(None, true), vec!["sudo"]);
    assert!(build_remote_command(None, false).is_empty());
}

#[test]
fn test_activate_profile_command() {
    let cmd = activate_profile("/nix/store/abc", true, Some("web1"));
    assert_eq!(
        cmd,
        vec![
            "ssh",
            "web1",
            "sudo",
            "nix-env",
            "-p",
            "/nix/var/nix/profiles/system",
            "--set",
            "/nix/store/abc"
        ]
    );
    let local = activate_profile("/nix/store/abc", true, None);
    assert_eq!(local[0], "sudo");
}

#[test]
fn test_switch_to_configuration_command() {
    let cmd = switch_to_configuration("/nix/store/abc", "switch", true, Some("web1"));
    assert_eq!(
        cmd,
        vec![
            "ssh",
            "web1",
            "sudo",
            "/nix/store/abc/bin/switch-to-configuration",
            "switch"
        ]
    );
}

#[test]
fn test_copy_and_reboot_commands() {
    assert_eq!(
        copy_to_host("/nix/store/abc", "web1"),
        vec![
            "nix",
            "copy",
            "--substitute-on-destination",
            "--to",
            "ssh://web1",
            "/nix/store/abc"
        ]
    );
    assert_eq!(
        reboot_host("web1"),
        vec!["ssh", "web1", "sudo", "systemctl", "reboot"]
    );
}

#[test]
fn test_realise_commands() {
    assert_eq!(
        realise_drv_remotely("/nix/store/x.drv", "web1"),
        vec!["ssh", "web1", "nix-store", "--realise", "/nix/store/x.drv"]
    );
    let refs = vec![
        nxbd::flakeref::FlakeReference {
            url: ".".to_string(),
            attribute: "host-a".to_string(),
        },
        nxbd::flakeref::FlakeReference {
            url: ".".to_string(),
            attribute: "host-b".to_string(),
        },
    ];
    let cmd = realise_toplevel_output_paths(&refs, false);
    assert_eq!(
        cmd,
        vec![
            "nix",
            "build",
            "--no-link",
            "--json",
            ".#nixosConfigurations.\"host-a\".config.system.build.toplevel",
            ".#nixosConfigurations.\"host-b\".config.system.build.toplevel"
        ]
    );
    let cmd_nom = realise_toplevel_output_paths(&refs, true);
    assert_eq!(cmd_nom[0], "nom");
    assert_eq!(cmd_nom[1], "build");
}

#[test]
fn test_realise_drv_output() {
    assert_eq!(
        realise_drv_output(true, "  /nix/store/out\n").unwrap(),
        "/nix/store/out"
    );
    assert!(matches!(
        realise_drv_output(false, "/nix/store/out"),
        Err(NixError::Build)
    ));
    assert!(matches!(realise_drv_output(true, "  \n"), Err(NixError::Build)));
}

#[test]
fn test_nix_error_messages() {
    assert_eq!(
        NixError::Eval("boom".to_string()).message(),
        "Evaluation error: boom"
    );
    assert_eq!(NixError::Build.message(), "Build failed");
    assert_eq!(NixError::Copy.message(), "Failed to copy to host");
    assert_eq!(
        NixError::ConfigSwitch.message(),
        "Failed to switch configuration"
    );
    assert_eq!(NixError::ProfileSet.message(), "Failed to set profile");
    assert_eq!(
        NixError::Deserialization.message(),
        "Failed to parse output"
    );
}

#[test]
fn test_check_system_status_reachable() {
    let out = "/nix/store/gen-42\n12345.67 99.9\n3\n1\n";
    match check_system_status(true, out) {
        SystemStatus::Reachable {
            current_generation,
            needs_reboot,
            uptime_seconds,
            failed_units,
        } => {
            assert_eq!(current_generation, "/nix/store/gen-42");
            assert_eq!(uptime_seconds, 12345);
            assert_eq!(failed_units, 3);
            assert!(needs_reboot);
        }
        SystemStatus::Unreachable => panic!("expected Reachable"),
    }
}

#[test]
fn test_check_system_status_no_reboot() {
    let out = "/nix/store/gen-1\n10\n0\n0\n";
    match check_system_status(true, out) {
        SystemStatus::Reachable {
            needs_reboot,
            uptime_seconds,
            failed_units,
            ..
        } => {
            assert!(!needs_reboot);
            assert_eq!(uptime_seconds, 10);
            assert_eq!(failed_units, 0);
        }
        SystemStatus::Unreachable => panic!("expected Reachable"),
    }
}

#[test]
fn test_check_system_status_unreachable() {
    // failed script
    assert!(matches!(
        check_system_status(false, "/gen\n1\n0\n0\n"),
        SystemStatus::Unreachable
    ));
    // missing lines
    assert!(matches!(
        check_system_status(true, "/gen\n1\n0\n"),
        SystemStatus::Unreachable
    ));
    // empty generation
    assert!(matches!(
        check_system_status(true, "  \n1\n0\n0\n"),
        SystemStatus::Unreachable
    ));
    // malformed uptime
    assert!(matches!(
        check_system_status(true, "/gen\nabc\n0\n0\n"),
        SystemStatus::Unreachable
    ));
    // malformed failed-unit count
    assert!(matches!(
        check_system_status(true, "/gen\n1\nmany\n0\n"),
        SystemStatus::Unreachable
    ));
    // reboot flag out of range
    assert!(matches!(
        check_system_status(true, "/gen\n1\n0\n2\n"),
        SystemStatus::Unreachable
    ));
    // empty output
    assert!(matches!(check_system_status(true, ""), SystemStatus::Unreachable));
}
