//! The policy check engine: a fixed catalog of named checks in named
//! groups, each a pure predicate over a configuration snapshot and the
//! operator's profile, and the evaluator that classifies every check as
//! passed, failed, or failed-but-ignored.

use crate::ignore::IgnoreMap;
use crate::nixosattributes::{ConfigInfo, NixUser};
use crate::sshkeys::{key_matches, SshKeyInfo};
use crate::strutil::{
    contains_seq, contains_string, contains_substr, dec_spec, lines, lines_spec, str_eq, trim,
    trim_spec, u64_to_dec,
};
use crate::userinfo::UserInfo;
use vstd::prelude::*;
use vstd::string::StringExecFns;

verus! {

broadcast use vstd::string::group_string_axioms;

/// One check's failure: a short label and a human-readable message.
#[derive(Debug)]
pub struct CheckError {
    pub check_name: String,
    pub message: String,
}

/// The predicates of the catalog, one per check.
#[derive(Clone, Copy, Debug, PartialEq, Eq, Structural)]
pub enum CheckKind {
    SshEnabled,
    SudoEnabled,
    WheelPasswordless,
    NixTrustsWheel,
    UserAccess,
    UserInWheel,
    WheelOnly,
    SshPasswordAuthentication,
    UsersImmutable,
    FirewallEnabled,
    LogRefusedConnections,
    SystemGenerationsLimit,
    NixGc,
    NixOptimiseAutomatic,
    NixExtraOptions,
    DocNixos,
    Documentation,
    DocDev,
    DocDoc,
    DocInfo,
    DocMan,
    Fontconfig,
    StubLd,
    CommandNotFound,
    NginxBrotli,
    NginxGzip,
    NginxOptimisation,
    NginxProxy,
    NginxTls,
    CpuMicrocode,
}

/// The first declared user with the given name.
pub open spec fn find_user(users: Seq<NixUser>, name: Seq<char>) -> Option<NixUser>
    decreases users.len(),
{
    if users.len() == 0 {
        None
    } else if users[0].name@ == name {
        Some(users[0])
    } else {
        find_user(users.drop_first(), name)
    }
}

proof fn lemma_find_user(users: Seq<NixUser>, name: Seq<char>, i: int)
    requires
        0 <= i < users.len(),
        users[i].name@ == name,
        forall|j: int| 0 <= j < i ==> (#[trigger] users[j]).name@ != name,
    ensures
        find_user(users, name) == Some(users[i]),
    decreases users.len(),
{
    if i > 0 {
        assert forall|j: int| 0 <= j < i - 1 implies (#[trigger] users.drop_first()[j]).name@
            != name by {
            assert(users[j + 1].name@ != name);
        }
        lemma_find_user(users.drop_first(), name, i - 1);
    }
}

proof fn lemma_find_user_none(users: Seq<NixUser>, name: Seq<char>)
    requires
        forall|j: int| 0 <= j < users.len() ==> (#[trigger] users[j]).name@ != name,
    ensures
        find_user(users, name) is None,
    decreases users.len(),
{
    if users.len() > 0 {
        assert forall|j: int| 0 <= j < users.drop_first().len() implies (
        #[trigger] users.drop_first()[j]).name@ != name by {
            assert(users[j + 1].name@ != name);
        }
        lemma_find_user_none(users.drop_first(), name);
    }
}

/// One of the operator's keys is authorized for the user.
pub open spec fn has_key_match(local: Seq<SshKeyInfo>, authorized: Seq<SshKeyInfo>) -> bool {
    exists|i: int, j: int|
        0 <= i < local.len() && 0 <= j < authorized.len() && key_matches(
            #[trigger] authorized[j],
            #[trigger] local[i],
        )
}

/// Membership of a name in a list of group names.
pub open spec fn group_list_contains(groups: Seq<String>, name: Seq<char>) -> bool {
    exists|i: int| 0 <= i < groups.len() && (#[trigger] groups[i])@ == name
}

/// A boot loader keeps its generations bounded: not enabled, or a declared
/// limit of at most ten.
pub open spec fn generations_ok(enabled: bool, limit: Option<i32>) -> bool {
    !enabled || (limit is Some && limit->0 <= 10)
}

/// The first line of the extra options whose trimmed form declares
/// experimental features, or the empty line.
pub open spec fn features_line(ls: Seq<Seq<char>>) -> Seq<char>
    decreases ls.len(),
{
    if ls.len() == 0 {
        Seq::empty()
    } else if "experimental-features"@.is_prefix_of(trim_spec(ls[0])) {
        ls[0]
    } else {
        features_line(ls.drop_first())
    }
}

/// A feature is declared, in the extra-options feature line or in the
/// settings string.
pub open spec fn feature_declared(c: &ConfigInfo, f: Seq<char>) -> bool {
    contains_seq(features_line(lines_spec(c.nix_extra_options@)), f) || contains_seq(
        c.nix_settings_experimental_features@,
        f,
    )
}

/// Whether one check passes on a snapshot and operator profile. This is the
/// catalog's whole policy, check by check.
pub open spec fn check_passes(k: CheckKind, c: &ConfigInfo, u: &UserInfo) -> bool {
    match k {
        CheckKind::SshEnabled => c.ssh_enabled,
        CheckKind::SudoEnabled => c.sudo_enabled,
        CheckKind::WheelPasswordless => !c.wheel_needs_password,
        CheckKind::NixTrustsWheel => c.nix_trusts_wheel,
        CheckKind::UserAccess => match find_user(c.users@, u.username@) {
            Some(user) => has_key_match(u.ssh_keys@, user.ssh_keys@),
            None => false,
        },
        CheckKind::UserInWheel => match find_user(c.users@, u.username@) {
            Some(user) => group_list_contains(user.extra_groups@, "wheel"@),
            None => false,
        },
        CheckKind::WheelOnly => c.sudo_wheel_only,
        CheckKind::SshPasswordAuthentication => !c.ssh_password_authentication,
        CheckKind::UsersImmutable => !c.users_mutable,
        CheckKind::FirewallEnabled => c.networking_firewall_enabled,
        CheckKind::LogRefusedConnections => !c.log_refused_connections,
        CheckKind::SystemGenerationsLimit => generations_ok(c.boot_systemd, c.boot_systemd_generations)
            || generations_ok(c.boot_grub, c.boot_grub_generations),
        CheckKind::NixGc => c.nix_gc,
        CheckKind::NixOptimiseAutomatic => c.boot_is_container || c.nix_optimise_automatic
            || c.nix_auto_optimise_store,
        CheckKind::NixExtraOptions => feature_declared(c, "nix-command"@) && feature_declared(
            c,
            "flakes"@,
        ),
        CheckKind::DocNixos => c.fqdn is None || !c.doc_nixos_enabled,
        CheckKind::Documentation => c.fqdn is None || !c.doc_enable,
        CheckKind::DocDev => c.fqdn is None || !c.doc_dev_enable,
        CheckKind::DocDoc => c.fqdn is None || !c.doc_doc_enable,
        CheckKind::DocInfo => c.fqdn is None || !c.doc_info_enable,
        CheckKind::DocMan => c.fqdn is None || !c.doc_man_enable,
        CheckKind::Fontconfig => c.fqdn is None || !c.font_fontconfig_enable,
        CheckKind::StubLd => c.fqdn is None || !c.stub_ld,
        CheckKind::CommandNotFound => c.fqdn is None || !c.command_not_found,
        CheckKind::NginxBrotli => !c.nginx_enabled || c.nginx_brotli,
        CheckKind::NginxGzip => !c.nginx_enabled || c.nginx_gzip,
        CheckKind::NginxOptimisation => !c.nginx_enabled || c.nginx_optimisation,
        CheckKind::NginxProxy => !c.nginx_enabled || c.nginx_proxy,
        CheckKind::NginxTls => !c.nginx_enabled || c.nginx_tls,
        CheckKind::CpuMicrocode => !c.is_x86 || c.intel_microcode || c.amd_microcode,
    }
}

/// The label a failing check reports.
pub open spec fn fail_label(k: CheckKind) -> Seq<char> {
    match k {
        CheckKind::SshEnabled => "SSH"@,
        CheckKind::SudoEnabled => "Sudo"@,
        CheckKind::WheelPasswordless => "Sudo Password"@,
        CheckKind::NixTrustsWheel => "Nix Trust"@,
        CheckKind::UserAccess => "User Access"@,
        CheckKind::UserInWheel => "Wheel Group"@,
        CheckKind::WheelOnly => "Sudo Wheel Only"@,
        CheckKind::SshPasswordAuthentication => "SSH Password Auth"@,
        CheckKind::UsersImmutable => "Mutable Users"@,
        CheckKind::FirewallEnabled => "Firewall"@,
        CheckKind::LogRefusedConnections => "Log refused connections"@,
        CheckKind::SystemGenerationsLimit => "Boot Generations"@,
        CheckKind::NixGc => "Garbage Collection"@,
        CheckKind::NixOptimiseAutomatic => "Nix store optimisation"@,
        CheckKind::NixExtraOptions => "Nix Features"@,
        CheckKind::DocNixos => "Documentation"@,
        CheckKind::Documentation => "Documentation"@,
        CheckKind::DocDev => "Documentation"@,
        CheckKind::DocDoc => "Documentation"@,
        CheckKind::DocInfo => "Documentation"@,
        CheckKind::DocMan => "Documentation"@,
        CheckKind::Fontconfig => "Font Configuration"@,
        CheckKind::StubLd => "Stub LD"@,
        CheckKind::CommandNotFound => "Command Not Found"@,
        CheckKind::NginxBrotli => "Nginx Settings"@,
        CheckKind::NginxGzip => "Nginx Settings"@,
        CheckKind::NginxOptimisation => "Nginx Settings"@,
        CheckKind::NginxProxy => "Nginx Settings"@,
        CheckKind::NginxTls => "Nginx Settings"@,
        CheckKind::CpuMicrocode => "Microcode"@,
    }
}

/// The generation-limit message for the GRUB side, which is the one a
/// failing generations check reports.
pub open spec fn grub_generations_message(c: &ConfigInfo) -> Seq<char> {
    match c.boot_grub_generations {
        Some(limit) => "Too many GRUB generations kept ("@ + dec_spec(
            if limit >= 0 {
                limit as nat
            } else {
                0
            },
        ) + "). Consider reducing to 10 or less"@,
        None => "No GRUB generation limit set. This may prevent old generations from being garbage collected"@,
    }
}

/// The message a failing check reports.
pub open spec fn fail_message(k: CheckKind, c: &ConfigInfo, u: &UserInfo) -> Seq<char> {
    match k {
        CheckKind::SshEnabled => "SSH service is not enabled"@,
        CheckKind::SudoEnabled => "Sudo is not enabled"@,
        CheckKind::WheelPasswordless => "Wheel group members need password for sudo"@,
        CheckKind::NixTrustsWheel => "`wheel` group is not trusted by nix"@,
        CheckKind::UserAccess => match find_user(c.users@, u.username@) {
            None => "User '"@ + u.username@ + "' does not exist on target system"@,
            Some(_) => "User '"@ + u.username@
                + "' exists but none of their local SSH keys are authorized"@,
        },
        CheckKind::UserInWheel => match find_user(c.users@, u.username@) {
            None => "User '"@ + u.username@ + "' does not exist on target system"@,
            Some(_) => "User '"@ + u.username@ + "' is not in the wheel group"@,
        },
        CheckKind::WheelOnly => "Users outside wheel group can use sudo"@,
        CheckKind::SshPasswordAuthentication => "SSH password authentication is enabled. Consider disabling it and using only key-based authentication for better security"@,
        CheckKind::UsersImmutable => "Users can be modified outside of the NixOS configuration. Consider setting  `users.mutableUsers = false` for better system reproducibility"@,
        CheckKind::FirewallEnabled => "System firewall is not enabled. Consider setting  `networking.firewall.enable = true`"@,
        CheckKind::LogRefusedConnections => "Logging of refused connections should be disabled. Consider setting  `networking.firewall.logRefusedConnections = false`"@,
        CheckKind::SystemGenerationsLimit => grub_generations_message(c),
        CheckKind::NixGc => "Garbage Collection is not enabled. Consider setting  `nix.gc.automatic = true`"@,
        CheckKind::NixOptimiseAutomatic => "Nix store optimisation is disabled. Set either `nix.settings.auto-optimise-store` or `nix.optimise.automatic`"@,
        CheckKind::NixExtraOptions => if !feature_declared(c, "nix-command"@) {
            "Missing required nix feature 'nix-command'. Add it to experimental-features in nix.extraOptions"@
        } else {
            "Missing required nix feature 'flakes'. Add it to experimental-features in nix.extraOptions"@
        },
        CheckKind::DocNixos => "NixOS documentation enabled. Consider setting  `documentation.nixos.enable = false`"@,
        CheckKind::Documentation => "General documentation enabled. Consider setting  `documentation.enable = false`"@,
        CheckKind::DocDev => "Development documentation enabled. Consider setting  `documentation.dev.enable = false`"@,
        CheckKind::DocDoc => "Doc documentation enabled. Consider setting  `documentation.doc.enable = false`"@,
        CheckKind::DocInfo => "Info documentation enabled. Consider setting  `documentation.info.enable = false`"@,
        CheckKind::DocMan => "Man pages enabled. Consider setting  `documentation.man.enable = false`"@,
        CheckKind::Fontconfig => "Font configuration is enabled. Consider setting  `fonts.fontconfig.enable = false` on servers"@,
        CheckKind::StubLd => "Stub-ld is enabled but typically not needed on servers. Consider setting  `environment.stub-ld.enable = false` to reduce system closure size"@,
        CheckKind::CommandNotFound => "The command-not-found program is enabled but typically not needed on servers. Consider setting  `programs.command-not-found.enable = false` to reduce system closure size"@,
        CheckKind::NginxBrotli => "Brotli compression not enabled. Consider setting  `services.nginx.recommendedBrotliSettings = true`"@,
        CheckKind::NginxGzip => "Gzip compression not enabled. Consider setting  `services.nginx.recommendedGzipSettings = true`"@,
        CheckKind::NginxOptimisation => "Optimisation settings not enabled. Consider setting  `services.nginx.recommendedOptimisation = true`"@,
        CheckKind::NginxProxy => "Proxy settings not enabled. Consider setting  `services.nginx.recommendedProxySettings = true`"@,
        CheckKind::NginxTls => "TLS settings not enabled. Consider setting  `services.nginx.recommendedTlsSettings = true`"@,
        CheckKind::CpuMicrocode => "No CPU microcode updates enabled. Set either `hardware.cpu.intel.updateMicrocode` or `hardware.cpu.amd.updateMicrocode` to `true`"@,
    }
}

/// The index of the first user named `name`, tied to `find_user`.
fn find_user_exec<'a>(users: &'a Vec<NixUser>, name: &str) -> (r: Option<&'a NixUser>)
    ensures
        match r {
            Some(user) => find_user(users@, name@) == Some(*user),
            None => find_user(users@, name@) is None,
        },
{
    let mut i: usize = 0;
    while i < users.len()
        invariant
            i <= users@.len(),
            forall|j: int| 0 <= j < i ==> (#[trigger] users@[j]).name@ != name@,
        decreases users@.len() - i,
    {
        if str_eq(users[i].name.as_str(), name) {
            proof {
                lemma_find_user(users@, name@, i as int);
            }
            return Some(&users[i]);
        }
        i += 1;
    }
    proof {
        lemma_find_user_none(users@, name@);
    }
    None
}

fn user_has_key_match(local: &Vec<SshKeyInfo>, authorized: &Vec<SshKeyInfo>) -> (r: bool)
    ensures
        r == has_key_match(local@, authorized@),
{
    let mut i: usize = 0;
    while i < local.len()
        invariant
            i <= local@.len(),
            forall|a: int, b: int|
                0 <= a < i && 0 <= b < authorized@.len() ==> !key_matches(
                    #[trigger] authorized@[b],
                    #[trigger] local@[a],
                ),
        decreases local@.len() - i,
    {
        let mut j: usize = 0;
        while j < authorized.len()
            invariant
                i < local@.len(),
                j <= authorized@.len(),
                forall|b: int|
                    0 <= b < j ==> !key_matches(#[trigger] authorized@[b], local@[i as int]),
            decreases authorized@.len() - j,
        {
            if authorized[j] == local[i] {
                return true;
            }
            j += 1;
        }
        i += 1;
    }
    false
}

fn groups_contain(groups: &Vec<String>, name: &str) -> (r: bool)
    ensures
        r == group_list_contains(groups@, name@),
{
    let mut i: usize = 0;
    while i < groups.len()
        invariant
            i <= groups@.len(),
            forall|j: int| 0 <= j < i ==> (#[trigger] groups@[j])@ != name@,
        decreases groups@.len() - i,
    {
        if str_eq(groups[i].as_str(), name) {
            return true;
        }
        i += 1;
    }
    false
}

fn generations_ok_exec(enabled: bool, limit: &Option<i32>) -> (r: bool)
    ensures
        r == generations_ok(enabled, *limit),
{
    if !enabled {
        true
    } else {
        match limit {
            Some(l) => *l <= 10,
            None => false,
        }
    }
}

/// The feature line of the extra options, tied to `features_line`.
fn features_line_exec(extra_options: &str) -> (r: String)
    ensures
        r@ == features_line(lines_spec(extra_options@)),
{
    let ls = lines(extra_options);
    let ghost lsv = ls.deep_view();
    let mut i: usize = 0;
    proof {
        assert(lsv.skip(0) =~= lsv);
    }
    while i < ls.len()
        invariant
            lsv == ls.deep_view(),
            lsv == lines_spec(extra_options@),
            lsv.len() == ls@.len(),
            i <= ls@.len(),
            features_line(lsv) == features_line(lsv.skip(i as int)),
        decreases ls@.len() - i,
    {
        proof {
            assert(lsv.skip(i as int)[0] == lsv[i as int]);
            assert(lsv.skip(i as int).drop_first() =~= lsv.skip(i + 1));
            assert(lsv[i as int] == ls@[i as int]@);
        }
        let t = trim(ls[i].as_str());
        if crate::strutil::starts_with(t, "experimental-features") {
            return ls[i].clone();
        }
        i += 1;
    }
    proof {
        assert(lsv.skip(lsv.len() as int) =~= Seq::<Seq<char>>::empty());
    }
    String::new()
}

fn feature_declared_exec(c: &ConfigInfo, f: &str) -> (r: bool)
    ensures
        r == feature_declared(c, f@),
{
    let line = features_line_exec(c.nix_extra_options.as_str());
    contains_substr(line.as_str(), f) || contains_substr(
        c.nix_settings_experimental_features.as_str(),
        f,
    )
}

fn user_message(prefix_user: &str, suffix: &str) -> (r: String)
    ensures
        r@ == "User '"@ + prefix_user@ + suffix@,
{
    let mut out = "User '".to_owned();
    out.append(prefix_user);
    out.append(suffix);
    out
}

fn grub_generations_message_exec(c: &ConfigInfo) -> (r: String)
    ensures
        r@ == grub_generations_message(c),
{
    match &c.boot_grub_generations {
        Some(limit) => {
            let mut out = "Too many GRUB generations kept (".to_owned();
            let l: i32 = *limit;
            let n: u64 = if l >= 0 {
                l as u64
            } else {
                0
            };
            out.append(u64_to_dec(n).as_str());
            out.append("). Consider reducing to 10 or less");
            out
        },
        None => {
            "No GRUB generation limit set. This may prevent old generations from being garbage collected".to_owned()
        },
    }
}

/// Whether check `k` passes, executably.
pub fn evaluate_check(k: CheckKind, c: &ConfigInfo, u: &UserInfo) -> (r: bool)
    ensures
        r == check_passes(k, c, u),
{
    match k {
        CheckKind::SshEnabled => c.ssh_enabled,
        CheckKind::SudoEnabled => c.sudo_enabled,
        CheckKind::WheelPasswordless => !c.wheel_needs_password,
        CheckKind::NixTrustsWheel => c.nix_trusts_wheel,
        CheckKind::UserAccess => match find_user_exec(&c.users, u.username.as_str()) {
            Some(user) => user_has_key_match(&u.ssh_keys, &user.ssh_keys),
            None => false,
        },
        CheckKind::UserInWheel => match find_user_exec(&c.users, u.username.as_str()) {
            Some(user) => groups_contain(&user.extra_groups, "wheel"),
            None => false,
        },
        CheckKind::WheelOnly => c.sudo_wheel_only,
        CheckKind::SshPasswordAuthentication => !c.ssh_password_authentication,
        CheckKind::UsersImmutable => !c.users_mutable,
        CheckKind::FirewallEnabled => c.networking_firewall_enabled,
        CheckKind::LogRefusedConnections => !c.log_refused_connections,
        CheckKind::SystemGenerationsLimit => generations_ok_exec(
            c.boot_systemd,
            &c.boot_systemd_generations,
        ) || generations_ok_exec(c.boot_grub, &c.boot_grub_generations),
        CheckKind::NixGc => c.nix_gc,
        CheckKind::NixOptimiseAutomatic => c.boot_is_container || c.nix_optimise_automatic
            || c.nix_auto_optimise_store,
        CheckKind::NixExtraOptions => feature_declared_exec(c, "nix-command")
            && feature_declared_exec(c, "flakes"),
        CheckKind::DocNixos => c.fqdn.is_none() || !c.doc_nixos_enabled,
        CheckKind::Documentation => c.fqdn.is_none() || !c.doc_enable,
        CheckKind::DocDev => c.fqdn.is_none() || !c.doc_dev_enable,
        CheckKind::DocDoc => c.fqdn.is_none() || !c.doc_doc_enable,
        CheckKind::DocInfo => c.fqdn.is_none() || !c.doc_info_enable,
        CheckKind::DocMan => c.fqdn.is_none() || !c.doc_man_enable,
        CheckKind::Fontconfig => c.fqdn.is_none() || !c.font_fontconfig_enable,
        CheckKind::StubLd => c.fqdn.is_none() || !c.stub_ld,
        CheckKind::CommandNotFound => c.fqdn.is_none() || !c.command_not_found,
        CheckKind::NginxBrotli => !c.nginx_enabled || c.nginx_brotli,
        CheckKind::NginxGzip => !c.nginx_enabled || c.nginx_gzip,
        CheckKind::NginxOptimisation => !c.nginx_enabled || c.nginx_optimisation,
        CheckKind::NginxProxy => !c.nginx_enabled || c.nginx_proxy,
        CheckKind::NginxTls => !c.nginx_enabled || c.nginx_tls,
        CheckKind::CpuMicrocode => !c.is_x86 || c.intel_microcode || c.amd_microcode,
    }
}

/// The failure record of check `k`, with its exact label and message.
fn failure_for(k: CheckKind, c: &ConfigInfo, u: &UserInfo) -> (r: CheckError)
    ensures
        r.check_name@ == fail_label(k),
        r.message@ == fail_message(k, c, u),
{
    let check_name: String = match k {
        CheckKind::SshEnabled => "SSH".to_owned(),
        CheckKind::SudoEnabled => "Sudo".to_owned(),
        CheckKind::WheelPasswordless => "Sudo Password".to_owned(),
        CheckKind::NixTrustsWheel => "Nix Trust".to_owned(),
        CheckKind::UserAccess => "User Access".to_owned(),
        CheckKind::UserInWheel => "Wheel Group".to_owned(),
        CheckKind::WheelOnly => "Sudo Wheel Only".to_owned(),
        CheckKind::SshPasswordAuthentication => "SSH Password Auth".to_owned(),
        CheckKind::UsersImmutable => "Mutable Users".to_owned(),
        CheckKind::FirewallEnabled => "Firewall".to_owned(),
        CheckKind::LogRefusedConnections => "Log refused connections".to_owned(),
        CheckKind::SystemGenerationsLimit => "Boot Generations".to_owned(),
        CheckKind::NixGc => "Garbage Collection".to_owned(),
        CheckKind::NixOptimiseAutomatic => "Nix store optimisation".to_owned(),
        CheckKind::NixExtraOptions => "Nix Features".to_owned(),
        CheckKind::DocNixos => "Documentation".to_owned(),
        CheckKind::Documentation => "Documentation".to_owned(),
        CheckKind::DocDev => "Documentation".to_owned(),
        CheckKind::DocDoc => "Documentation".to_owned(),
        CheckKind::DocInfo => "Documentation".to_owned(),
        CheckKind::DocMan => "Documentation".to_owned(),
        CheckKind::Fontconfig => "Font Configuration".to_owned(),
        CheckKind::StubLd => "Stub LD".to_owned(),
        CheckKind::CommandNotFound => "Command Not Found".to_owned(),
        CheckKind::NginxBrotli => "Nginx Settings".to_owned(),
        CheckKind::NginxGzip => "Nginx Settings".to_owned(),
        CheckKind::NginxOptimisation => "Nginx Settings".to_owned(),
        CheckKind::NginxProxy => "Nginx Settings".to_owned(),
        CheckKind::NginxTls => "Nginx Settings".to_owned(),
        CheckKind::CpuMicrocode => "Microcode".to_owned(),
    };
    let message: String = match k {
        CheckKind::SshEnabled => "SSH service is not enabled".to_owned(),
        CheckKind::SudoEnabled => "Sudo is not enabled".to_owned(),
        CheckKind::WheelPasswordless => "Wheel group members need password for sudo".to_owned(),
        CheckKind::NixTrustsWheel => "`wheel` group is not trusted by nix".to_owned(),
        CheckKind::UserAccess => match find_user_exec(&c.users, u.username.as_str()) {
            None => user_message(u.username.as_str(), "' does not exist on target system"),
            Some(_) => user_message(
                u.username.as_str(),
                "' exists but none of their local SSH keys are authorized",
            ),
        },
        CheckKind::UserInWheel => match find_user_exec(&c.users, u.username.as_str()) {
            None => user_message(u.username.as_str(), "' does not exist on target system"),
            Some(_) => user_message(u.username.as_str(), "' is not in the wheel group"),
        },
        CheckKind::WheelOnly => "Users outside wheel group can use sudo".to_owned(),
        CheckKind::SshPasswordAuthentication => "SSH password authentication is enabled. Consider disabling it and using only key-based authentication for better security".to_owned(),
        CheckKind::UsersImmutable => "Users can be modified outside of the NixOS configuration. Consider setting  `users.mutableUsers = false` for better system reproducibility".to_owned(),
        CheckKind::FirewallEnabled => "System firewall is not enabled. Consider setting  `networking.firewall.enable = true`".to_owned(),
        CheckKind::LogRefusedConnections => "Logging of refused connections should be disabled. Consider setting  `networking.firewall.logRefusedConnections = false`".to_owned(),
        CheckKind::SystemGenerationsLimit => grub_generations_message_exec(c),
        CheckKind::NixGc => "Garbage Collection is not enabled. Consider setting  `nix.gc.automatic = true`".to_owned(),
        CheckKind::NixOptimiseAutomatic => "Nix store optimisation is disabled. Set either `nix.settings.auto-optimise-store` or `nix.optimise.automatic`".to_owned(),
        CheckKind::NixExtraOptions => if !feature_declared_exec(c, "nix-command") {
            "Missing required nix feature 'nix-command'. Add it to experimental-features in nix.extraOptions".to_owned()
        } else {
            "Missing required nix feature 'flakes'. Add it to experimental-features in nix.extraOptions".to_owned()
        },
        CheckKind::DocNixos => "NixOS documentation enabled. Consider setting  `documentation.nixos.enable = false`".to_owned(),
        CheckKind::Documentation => "General documentation enabled. Consider setting  `documentation.enable = false`".to_owned(),
        CheckKind::DocDev => "Development documentation enabled. Consider setting  `documentation.dev.enable = false`".to_owned(),
        CheckKind::DocDoc => "Doc documentation enabled. Consider setting  `documentation.doc.enable = false`".to_owned(),
        CheckKind::DocInfo => "Info documentation enabled. Consider setting  `documentation.info.enable = false`".to_owned(),
        CheckKind::DocMan => "Man pages enabled. Consider setting  `documentation.man.enable = false`".to_owned(),
        CheckKind::Fontconfig => "Font configuration is enabled. Consider setting  `fonts.fontconfig.enable = false` on servers".to_owned(),
        CheckKind::StubLd => "Stub-ld is enabled but typically not needed on servers. Consider setting  `environment.stub-ld.enable = false` to reduce system closure size".to_owned(),
        CheckKind::CommandNotFound => "The command-not-found program is enabled but typically not needed on servers. Consider setting  `programs.command-not-found.enable = false` to reduce system closure size".to_owned(),
        CheckKind::NginxBrotli => "Brotli compression not enabled. Consider setting  `services.nginx.recommendedBrotliSettings = true`".to_owned(),
        CheckKind::NginxGzip => "Gzip compression not enabled. Consider setting  `services.nginx.recommendedGzipSettings = true`".to_owned(),
        CheckKind::NginxOptimisation => "Optimisation settings not enabled. Consider setting  `services.nginx.recommendedOptimisation = true`".to_owned(),
        CheckKind::NginxProxy => "Proxy settings not enabled. Consider setting  `services.nginx.recommendedProxySettings = true`".to_owned(),
        CheckKind::NginxTls => "TLS settings not enabled. Consider setting  `services.nginx.recommendedTlsSettings = true`".to_owned(),
        CheckKind::CpuMicrocode => "No CPU microcode updates enabled. Set either `hardware.cpu.intel.updateMicrocode` or `hardware.cpu.amd.updateMicrocode` to `true`".to_owned(),
    };
    CheckError { check_name, message }
}

/// One named check of the catalog: stable id, descriptive text, remediation
/// advice, and its predicate.
pub struct Check {
    pub id: String,
    pub description: String,
    pub advice: String,
    pub kind: CheckKind,
}

impl Check {
    pub fn new(id: &str, description: &str, advice: &str, kind: CheckKind) -> (r: Self)
        ensures
            r.id@ == id@,
            r.description@ == description@,
            r.advice@ == advice@,
            r.kind == kind,
    {
        Check {
            id: id.to_owned(),
            description: description.to_owned(),
            advice: advice.to_owned(),
            kind,
        }
    }

    /// Evaluates the check's predicate, yielding its exact failure record
    /// when it does not pass.
    pub fn check(&self, config: &ConfigInfo, user_info: &UserInfo) -> (r: Result<(), CheckError>)
        ensures
            r.is_ok() == check_passes(self.kind, config, user_info),
            match r {
                Ok(_) => true,
                Err(e) => e.check_name@ == fail_label(self.kind) && e.message@ == fail_message(
                    self.kind,
                    config,
                    user_info,
                ),
            },
    {
        if evaluate_check(self.kind, config, user_info) {
            Ok(())
        } else {
            Err(failure_for(self.kind, config, user_info))
        }
    }
}


/// The catalog id of a check.
pub open spec fn kind_id(k: CheckKind) -> Seq<char> {
    match k {
        CheckKind::SshEnabled => "ssh_enabled"@,
        CheckKind::SudoEnabled => "sudo_enabled"@,
        CheckKind::WheelPasswordless => "wheel_passwordless"@,
        CheckKind::NixTrustsWheel => "nix_trusts_wheel"@,
        CheckKind::UserAccess => "user_access"@,
        CheckKind::UserInWheel => "user_in_wheel"@,
        CheckKind::WheelOnly => "wheel_only"@,
        CheckKind::SshPasswordAuthentication => "ssh_password_authentication"@,
        CheckKind::UsersImmutable => "users_immutable"@,
        CheckKind::FirewallEnabled => "firewall_enabled"@,
        CheckKind::LogRefusedConnections => "log_refused_connections"@,
        CheckKind::SystemGenerationsLimit => "system_generations_limit"@,
        CheckKind::NixGc => "nix_gc"@,
        CheckKind::NixOptimiseAutomatic => "nix_optimise_automatic"@,
        CheckKind::NixExtraOptions => "nix_extra_options"@,
        CheckKind::DocNixos => "doc_nixos"@,
        CheckKind::Documentation => "documentation"@,
        CheckKind::DocDev => "doc_dev"@,
        CheckKind::DocDoc => "doc_doc"@,
        CheckKind::DocInfo => "doc_info"@,
        CheckKind::DocMan => "doc_man"@,
        CheckKind::Fontconfig => "fontconfig"@,
        CheckKind::StubLd => "stub_ld"@,
        CheckKind::CommandNotFound => "command_not_found"@,
        CheckKind::NginxBrotli => "nginx_brotli"@,
        CheckKind::NginxGzip => "nginx_gzip"@,
        CheckKind::NginxOptimisation => "nginx_optimisation"@,
        CheckKind::NginxProxy => "nginx_proxy"@,
        CheckKind::NginxTls => "nginx_tls"@,
        CheckKind::CpuMicrocode => "cpu_microcode"@,
    }
}

/// The catalog description of a check.
pub open spec fn kind_description(k: CheckKind) -> Seq<char> {
    match k {
        CheckKind::SshEnabled => "SSH service must be enabled"@,
        CheckKind::SudoEnabled => "Sudo must be available"@,
        CheckKind::WheelPasswordless => "Wheel group should not require password for sudo"@,
        CheckKind::NixTrustsWheel => "Wheel group must be trusted by Nix"@,
        CheckKind::UserAccess => "Current user must have SSH access"@,
        CheckKind::UserInWheel => "Current user must be in wheel group"@,
        CheckKind::WheelOnly => "Only wheel group members should be allowed to use sudo"@,
        CheckKind::SshPasswordAuthentication => "Password authentication should be disabled for SSH"@,
        CheckKind::UsersImmutable => "Users should be managed through NixOS configuration"@,
        CheckKind::FirewallEnabled => "The system firewall should be enabled for better security"@,
        CheckKind::LogRefusedConnections => "The logging of refused connections should be deactivated to avoid flooding the logs and possibly leaving important messages unseen. Consider using it only for debugging firewall rules."@,
        CheckKind::SystemGenerationsLimit => "The retention of old system generations should be limited, as these are protected from garbage collection and consume disk space unnecessarily."@,
        CheckKind::NixGc => "Regular Nix Garbage Collection should be enabled"@,
        CheckKind::NixOptimiseAutomatic => "Nix store optimisation should be enabled"@,
        CheckKind::NixExtraOptions => "Nix features should include nix-command and flakes"@,
        CheckKind::DocNixos => "NixOS documentation should be disabled to reduce system closure size"@,
        CheckKind::Documentation => "General documentation should be disabled to reduce system closure size"@,
        CheckKind::DocDev => "Development documentation should be disabled to reduce system closure size"@,
        CheckKind::DocDoc => "Doc documentation should be disabled to reduce system closure size"@,
        CheckKind::DocInfo => "Info documentation should be disabled to reduce system closure size"@,
        CheckKind::DocMan => "Man pages should be disabled to reduce system closure size"@,
        CheckKind::Fontconfig => "Font configuration should be disabled on servers to reduce system closure size"@,
        CheckKind::StubLd => "Stub-ld is typically not needed on servers and increases system closure size"@,
        CheckKind::CommandNotFound => "The command-not-found program is typically not needed on servers and increases system closure size"@,
        CheckKind::NginxBrotli => "Brotli compression should be enabled"@,
        CheckKind::NginxGzip => "Gzip compression should be enabled"@,
        CheckKind::NginxOptimisation => "Optimisation settings should be enabled"@,
        CheckKind::NginxProxy => "Proxy settings should be enabled"@,
        CheckKind::NginxTls => "TLS settings should be enabled"@,
        CheckKind::CpuMicrocode => "CPU microcode updates should be enabled on Intel architecture"@,
    }
}

/// The remediation advice of a check.
pub open spec fn kind_advice(k: CheckKind) -> Seq<char> {
    match k {
        CheckKind::SshEnabled => "Set  `services.openssh.enable = true`"@,
        CheckKind::SudoEnabled => "Set `security.sudo.enable = true`"@,
        CheckKind::WheelPasswordless => "Set  `security.sudo.wheelNeedsPassword = false`"@,
        CheckKind::NixTrustsWheel => "Add `@wheel` to `nix.settings.trusted-users`"@,
        CheckKind::UserAccess => "Add your SSH key to the user's authorized_keys"@,
        CheckKind::UserInWheel => "Add your user to the wheel group"@,
        CheckKind::WheelOnly => "Set  `security.sudo.execWheelOnly = true`"@,
        CheckKind::SshPasswordAuthentication => "Set  `services.openssh.settings.PasswordAuthentication = false`"@,
        CheckKind::UsersImmutable => "Set  `users.mutableUsers = false`"@,
        CheckKind::FirewallEnabled => "Set  `networking.firewall.enable = true`"@,
        CheckKind::LogRefusedConnections => "Set  `networking.firewall.logRefusedConnections = false`"@,
        CheckKind::SystemGenerationsLimit => "Set `boot.systemd.generations = 10` or less for systemd-boot, or `boot.grub.generations = 10` or less for GRUB"@,
        CheckKind::NixGc => "Set  `nix.gc.automatic = true`"@,
        CheckKind::NixOptimiseAutomatic => "Set either `nix.settings.auto-optimise-store` or `nix.optimise.automatic`"@,
        CheckKind::NixExtraOptions => "Add 'nix-command flakes' to nix.settings.experimental-features"@,
        CheckKind::DocNixos => "Set  `documentation.nixos.enable = false`"@,
        CheckKind::Documentation => "Set  `documentation.enable = false`"@,
        CheckKind::DocDev => "Set  `documentation.dev.enable = false`"@,
        CheckKind::DocDoc => "Set  `documentation.doc.enable = false`"@,
        CheckKind::DocInfo => "Set  `documentation.info.enable = false`"@,
        CheckKind::DocMan => "Set  `documentation.man.enable = false`"@,
        CheckKind::Fontconfig => "Set  `fonts.fontconfig.enable = false`"@,
        CheckKind::StubLd => "Set  `environment.stub-ld.enable = false`"@,
        CheckKind::CommandNotFound => "Set  `programs.command-not-found.enable = false`"@,
        CheckKind::NginxBrotli => "Set  `services.nginx.recommendedBrotliSettings = true`"@,
        CheckKind::NginxGzip => "Set  `services.nginx.recommendedGzipSettings = true`"@,
        CheckKind::NginxOptimisation => "Set  `services.nginx.recommendedOptimisation = true`"@,
        CheckKind::NginxProxy => "Set  `services.nginx.recommendedProxySettings = true`"@,
        CheckKind::NginxTls => "Set  `services.nginx.recommendedTlsSettings = true`"@,
        CheckKind::CpuMicrocode => "Set either `hardware.cpu.intel.updateMicrocode` or `hardware.cpu.amd.updateMicrocode`"@,
    }
}

/// One group of the catalog, abstractly: its identifying texts and the
/// kinds of its checks in order.
pub struct GroupSpec {
    pub id: Seq<char>,
    pub name: Seq<char>,
    pub description: Seq<char>,
    pub checks: Seq<CheckKind>,
}

/// The fixed catalog: every group and every check, in declaration order.
pub open spec fn catalog() -> Seq<GroupSpec> {
    seq![
        GroupSpec {
            id: "remote_deployment"@,
            name: "Remote Deployment Support"@,
            description: "Checks if the system has the required configuration to safely perform remote deployments. This avoids a lock-out after the deployment."@,
            checks: seq![CheckKind::SshEnabled, CheckKind::SudoEnabled, CheckKind::WheelPasswordless, CheckKind::NixTrustsWheel, CheckKind::UserAccess, CheckKind::UserInWheel],
        },
        GroupSpec {
            id: "system_security"@,
            name: "System Security Settings"@,
            description: "Checks if critical system security settings are properly configured"@,
            checks: seq![CheckKind::WheelOnly, CheckKind::SshPasswordAuthentication, CheckKind::UsersImmutable, CheckKind::FirewallEnabled, CheckKind::LogRefusedConnections],
        },
        GroupSpec {
            id: "system_maintenance"@,
            name: "System Maintenance Settings"@,
            description: "Checks if system maintenance and cleanup settings are properly configured"@,
            checks: seq![CheckKind::SystemGenerationsLimit, CheckKind::NixGc, CheckKind::NixOptimiseAutomatic],
        },
        GroupSpec {
            id: "nix_configuration"@,
            name: "Nix Configuration"@,
            description: "Checks if Nix is configured with recommended settings"@,
            checks: seq![CheckKind::NixExtraOptions],
        },
        GroupSpec {
            id: "server_optimization"@,
            name: "Server Optimization Settings"@,
            description: "Checks if server-specific optimizations are properly configured"@,
            checks: seq![CheckKind::DocNixos, CheckKind::Documentation, CheckKind::DocDev, CheckKind::DocDoc, CheckKind::DocInfo, CheckKind::DocMan, CheckKind::Fontconfig, CheckKind::StubLd, CheckKind::CommandNotFound, CheckKind::NginxBrotli, CheckKind::NginxGzip, CheckKind::NginxOptimisation, CheckKind::NginxProxy, CheckKind::NginxTls],
        },
        GroupSpec {
            id: "hardware_configuration"@,
            name: "Hardware Configuration"@,
            description: "Checks if hardware-specific settings are properly configured"@,
            checks: seq![CheckKind::CpuMicrocode],
        },
    ]
}

/// A built check carries exactly the catalog texts of its kind.
pub open spec fn check_matches(ch: Check, k: CheckKind) -> bool {
    &&& ch.kind == k
    &&& ch.id@ == kind_id(k)
    &&& ch.description@ == kind_description(k)
    &&& ch.advice@ == kind_advice(k)
}

/// A built group carries exactly the catalog's texts and checks.
pub open spec fn group_matches(g: CheckGroup, c: GroupSpec) -> bool {
    &&& g.id@ == c.id
    &&& g.name@ == c.name
    &&& g.description@ == c.description
    &&& g.checks@.len() == c.checks.len()
    &&& forall|j: int| 0 <= j < g.checks@.len() ==> check_matches(#[trigger] g.checks@[j], c.checks[j])
}

pub open spec fn groups_match(gs: Seq<CheckGroup>, cat: Seq<GroupSpec>) -> bool {
    &&& gs.len() == cat.len()
    &&& forall|i: int| 0 <= i < gs.len() ==> group_matches(#[trigger] gs[i], cat[i])
}

/// A named, ordered collection of related checks.
pub struct CheckGroup {
    pub id: String,
    pub name: String,
    pub description: String,
    pub checks: Vec<Check>,
}

/// The catalog entry of one check kind.
fn std_check(kind: CheckKind) -> (r: Check)
    ensures
        check_matches(r, kind),
{
    match kind {
        CheckKind::SshEnabled => Check::new(
            "ssh_enabled",
            "SSH service must be enabled",
            "Set  `services.openssh.enable = true`",
            CheckKind::SshEnabled,
        ),
        CheckKind::SudoEnabled => Check::new(
            "sudo_enabled",
            "Sudo must be available",
            "Set `security.sudo.enable = true`",
            CheckKind::SudoEnabled,
        ),
        CheckKind::WheelPasswordless => Check::new(
            "wheel_passwordless",
            "Wheel group should not require password for sudo",
            "Set  `security.sudo.wheelNeedsPassword = false`",
            CheckKind::WheelPasswordless,
        ),
        CheckKind::NixTrustsWheel => Check::new(
            "nix_trusts_wheel",
            "Wheel group must be trusted by Nix",
            "Add `@wheel` to `nix.settings.trusted-users`",
            CheckKind::NixTrustsWheel,
        ),
        CheckKind::UserAccess => Check::new(
            "user_access",
            "Current user must have SSH access",
            "Add your SSH key to the user's authorized_keys",
            CheckKind::UserAccess,
        ),
        CheckKind::UserInWheel => Check::new(
            "user_in_wheel",
            "Current user must be in wheel group",
            "Add your user to the wheel group",
            CheckKind::UserInWheel,
        ),
        CheckKind::WheelOnly => Check::new(
            "wheel_only",
            "Only wheel group members should be allowed to use sudo",
            "Set  `security.sudo.execWheelOnly = true`",
            CheckKind::WheelOnly,
        ),
        CheckKind::SshPasswordAuthentication => Check::new(
            "ssh_password_authentication",
            "Password authentication should be disabled for SSH",
            "Set  `services.openssh.settings.PasswordAuthentication = false`",
            CheckKind::SshPasswordAuthentication,
        ),
        CheckKind::UsersImmutable => Check::new(
            "users_immutable",
            "Users should be managed through NixOS configuration",
            "Set  `users.mutableUsers = false`",
            CheckKind::UsersImmutable,
        ),
        CheckKind::FirewallEnabled => Check::new(
            "firewall_enabled",
            "The system firewall should be enabled for better security",
            "Set  `networking.firewall.enable = true`",
            CheckKind::FirewallEnabled,
        ),
        CheckKind::LogRefusedConnections => Check::new(
            "log_refused_connections",
            "The logging of refused connections should be deactivated to avoid flooding the logs and possibly leaving important messages unseen. Consider using it only for debugging firewall rules.",
            "Set  `networking.firewall.logRefusedConnections = false`",
            CheckKind::LogRefusedConnections,
        ),
        CheckKind::SystemGenerationsLimit => Check::new(
            "system_generations_limit",
            "The retention of old system generations should be limited, as these are protected from garbage collection and consume disk space unnecessarily.",
            "Set `boot.systemd.generations = 10` or less for systemd-boot, or `boot.grub.generations = 10` or less for GRUB",
            CheckKind::SystemGenerationsLimit,
        ),
        CheckKind::NixGc => Check::new(
            "nix_gc",
            "Regular Nix Garbage Collection should be enabled",
            "Set  `nix.gc.automatic = true`",
            CheckKind::NixGc,
        ),
        CheckKind::NixOptimiseAutomatic => Check::new(
            "nix_optimise_automatic",
            "Nix store optimisation should be enabled",
            "Set either `nix.settings.auto-optimise-store` or `nix.optimise.automatic`",
            CheckKind::NixOptimiseAutomatic,
        ),
        CheckKind::NixExtraOptions => Check::new(
            "nix_extra_options",
            "Nix features should include nix-command and flakes",
            "Add 'nix-command flakes' to nix.settings.experimental-features",
            CheckKind::NixExtraOptions,
        ),
        CheckKind::DocNixos => Check::new(
            "doc_nixos",
            "NixOS documentation should be disabled to reduce system closure size",
            "Set  `documentation.nixos.enable = false`",
            CheckKind::DocNixos,
        ),
        CheckKind::Documentation => Check::new(
            "documentation",
            "General documentation should be disabled to reduce system closure size",
            "Set  `documentation.enable = false`",
            CheckKind::Documentation,
        ),
        CheckKind::DocDev => Check::new(
            "doc_dev",
            "Development documentation should be disabled to reduce system closure size",
            "Set  `documentation.dev.enable = false`",
            CheckKind::DocDev,
        ),
        CheckKind::DocDoc => Check::new(
            "doc_doc",
            "Doc documentation should be disabled to reduce system closure size",
            "Set  `documentation.doc.enable = false`",
            CheckKind::DocDoc,
        ),
        CheckKind::DocInfo => Check::new(
            "doc_info",
            "Info documentation should be disabled to reduce system closure size",
            "Set  `documentation.info.enable = false`",
            CheckKind::DocInfo,
        ),
        CheckKind::DocMan => Check::new(
            "doc_man",
            "Man pages should be disabled to reduce system closure size",
            "Set  `documentation.man.enable = false`",
            CheckKind::DocMan,
        ),
        CheckKind::Fontconfig => Check::new(
            "fontconfig",
            "Font configuration should be disabled on servers to reduce system closure size",
            "Set  `fonts.fontconfig.enable = false`",
            CheckKind::Fontconfig,
        ),
        CheckKind::StubLd => Check::new(
            "stub_ld",
            "Stub-ld is typically not needed on servers and increases system closure size",
            "Set  `environment.stub-ld.enable = false`",
            CheckKind::StubLd,
        ),
        CheckKind::CommandNotFound => Check::new(
            "command_not_found",
            "The command-not-found program is typically not needed on servers and increases system closure size",
            "Set  `programs.command-not-found.enable = false`",
            CheckKind::CommandNotFound,
        ),
        CheckKind::NginxBrotli => Check::new(
            "nginx_brotli",
            "Brotli compression should be enabled",
            "Set  `services.nginx.recommendedBrotliSettings = true`",
            CheckKind::NginxBrotli,
        ),
        CheckKind::NginxGzip => Check::new(
            "nginx_gzip",
            "Gzip compression should be enabled",
            "Set  `services.nginx.recommendedGzipSettings = true`",
            CheckKind::NginxGzip,
        ),
        CheckKind::NginxOptimisation => Check::new(
            "nginx_optimisation",
            "Optimisation settings should be enabled",
            "Set  `services.nginx.recommendedOptimisation = true`",
            CheckKind::NginxOptimisation,
        ),
        CheckKind::NginxProxy => Check::new(
            "nginx_proxy",
            "Proxy settings should be enabled",
            "Set  `services.nginx.recommendedProxySettings = true`",
            CheckKind::NginxProxy,
        ),
        CheckKind::NginxTls => Check::new(
            "nginx_tls",
            "TLS settings should be enabled",
            "Set  `services.nginx.recommendedTlsSettings = true`",
            CheckKind::NginxTls,
        ),
        CheckKind::CpuMicrocode => Check::new(
            "cpu_microcode",
            "CPU microcode updates should be enabled on Intel architecture",
            "Set either `hardware.cpu.intel.updateMicrocode` or `hardware.cpu.amd.updateMicrocode`",
            CheckKind::CpuMicrocode,
        ),
    }
}

fn group_remote_deployment() -> (g: CheckGroup)
    ensures
        group_matches(g, catalog()[0]),
{
    let mut checks: Vec<Check> = Vec::new();
    checks.push(std_check(CheckKind::SshEnabled));
    checks.push(std_check(CheckKind::SudoEnabled));
    checks.push(std_check(CheckKind::WheelPasswordless));
    checks.push(std_check(CheckKind::NixTrustsWheel));
    checks.push(std_check(CheckKind::UserAccess));
    checks.push(std_check(CheckKind::UserInWheel));
    let g = CheckGroup {
        id: "remote_deployment".to_owned(),
        name: "Remote Deployment Support".to_owned(),
        description: "Checks if the system has the required configuration to safely perform remote deployments. This avoids a lock-out after the deployment.".to_owned(),
        checks,
    };
    proof {
        assert(check_matches(g.checks@[0], catalog()[0].checks[0]));
        assert(check_matches(g.checks@[1], catalog()[0].checks[1]));
        assert(check_matches(g.checks@[2], catalog()[0].checks[2]));
        assert(check_matches(g.checks@[3], catalog()[0].checks[3]));
        assert(check_matches(g.checks@[4], catalog()[0].checks[4]));
        assert(check_matches(g.checks@[5], catalog()[0].checks[5]));
    }
    g
}

fn group_system_security() -> (g: CheckGroup)
    ensures
        group_matches(g, catalog()[1]),
{
    let mut checks: Vec<Check> = Vec::new();
    checks.push(std_check(CheckKind::WheelOnly));
    checks.push(std_check(CheckKind::SshPasswordAuthentication));
    checks.push(std_check(CheckKind::UsersImmutable));
    checks.push(std_check(CheckKind::FirewallEnabled));
    checks.push(std_check(CheckKind::LogRefusedConnections));
    let g = CheckGroup {
        id: "system_security".to_owned(),
        name: "System Security Settings".to_owned(),
        description: "Checks if critical system security settings are properly configured".to_owned(),
        checks,
    };
    proof {
        assert(check_matches(g.checks@[0], catalog()[1].checks[0]));
        assert(check_matches(g.checks@[1], catalog()[1].checks[1]));
        assert(check_matches(g.checks@[2], catalog()[1].checks[2]));
        assert(check_matches(g.checks@[3], catalog()[1].checks[3]));
        assert(check_matches(g.checks@[4], catalog()[1].checks[4]));
    }
    g
}

fn group_system_maintenance() -> (g: CheckGroup)
    ensures
        group_matches(g, catalog()[2]),
{
    let mut checks: Vec<Check> = Vec::new();
    checks.push(std_check(CheckKind::SystemGenerationsLimit));
    checks.push(std_check(CheckKind::NixGc));
    checks.push(std_check(CheckKind::NixOptimiseAutomatic));
    let g = CheckGroup {
        id: "system_maintenance".to_owned(),
        name: "System Maintenance Settings".to_owned(),
        description: "Checks if system maintenance and cleanup settings are properly configured".to_owned(),
        checks,
    };
    proof {
        assert(check_matches(g.checks@[0], catalog()[2].checks[0]));
        assert(check_matches(g.checks@[1], catalog()[2].checks[1]));
        assert(check_matches(g.checks@[2], catalog()[2].checks[2]));
    }
    g
}

fn group_nix_configuration() -> (g: CheckGroup)
    ensures
        group_matches(g, catalog()[3]),
{
    let mut checks: Vec<Check> = Vec::new();
    checks.push(std_check(CheckKind::NixExtraOptions));
    let g = CheckGroup {
        id: "nix_configuration".to_owned(),
        name: "Nix Configuration".to_owned(),
        description: "Checks if Nix is configured with recommended settings".to_owned(),
        checks,
    };
    proof {
        assert(check_matches(g.checks@[0], catalog()[3].checks[0]));
    }
    g
}

fn group_server_optimization() -> (g: CheckGroup)
    ensures
        group_matches(g, catalog()[4]),
{
    let mut checks: Vec<Check> = Vec::new();
    checks.push(std_check(CheckKind::DocNixos));
    checks.push(std_check(CheckKind::Documentation));
    checks.push(std_check(CheckKind::DocDev));
    checks.push(std_check(CheckKind::DocDoc));
    checks.push(std_check(CheckKind::DocInfo));
    checks.push(std_check(CheckKind::DocMan));
    checks.push(std_check(CheckKind::Fontconfig));
    checks.push(std_check(CheckKind::StubLd));
    checks.push(std_check(CheckKind::CommandNotFound));
    checks.push(std_check(CheckKind::NginxBrotli));
    checks.push(std_check(CheckKind::NginxGzip));
    checks.push(std_check(CheckKind::NginxOptimisation));
    checks.push(std_check(CheckKind::NginxProxy));
    checks.push(std_check(CheckKind::NginxTls));
    let g = CheckGroup {
        id: "server_optimization".to_owned(),
        name: "Server Optimization Settings".to_owned(),
        description: "Checks if server-specific optimizations are properly configured".to_owned(),
        checks,
    };
    proof {
        assert(check_matches(g.checks@[0], catalog()[4].checks[0]));
        assert(check_matches(g.checks@[1], catalog()[4].checks[1]));
        assert(check_matches(g.checks@[2], catalog()[4].checks[2]));
        assert(check_matches(g.checks@[3], catalog()[4].checks[3]));
        assert(check_matches(g.checks@[4], catalog()[4].checks[4]));
        assert(check_matches(g.checks@[5], catalog()[4].checks[5]));
        assert(check_matches(g.checks@[6], catalog()[4].checks[6]));
        assert(check_matches(g.checks@[7], catalog()[4].checks[7]));
        assert(check_matches(g.checks@[8], catalog()[4].checks[8]));
        assert(check_matches(g.checks@[9], catalog()[4].checks[9]));
        assert(check_matches(g.checks@[10], catalog()[4].checks[10]));
        assert(check_matches(g.checks@[11], catalog()[4].checks[11]));
        assert(check_matches(g.checks@[12], catalog()[4].checks[12]));
        assert(check_matches(g.checks@[13], catalog()[4].checks[13]));
    }
    g
}

fn group_hardware_configuration() -> (g: CheckGroup)
    ensures
        group_matches(g, catalog()[5]),
{
    let mut checks: Vec<Check> = Vec::new();
    checks.push(std_check(CheckKind::CpuMicrocode));
    let g = CheckGroup {
        id: "hardware_configuration".to_owned(),
        name: "Hardware Configuration".to_owned(),
        description: "Checks if hardware-specific settings are properly configured".to_owned(),
        checks,
    };
    proof {
        assert(check_matches(g.checks@[0], catalog()[5].checks[0]));
    }
    g
}

/// The full, fixed check catalog, in declaration order.
pub fn get_standard_checks() -> (r: Vec<CheckGroup>)
    ensures
        groups_match(r@, catalog()),
{
    let mut r: Vec<CheckGroup> = Vec::new();
    r.push(group_remote_deployment());
    r.push(group_system_security());
    r.push(group_system_maintenance());
    r.push(group_nix_configuration());
    r.push(group_server_optimization());
    r.push(group_hardware_configuration());
    proof {
        assert(group_matches(r@[0], catalog()[0]));
        assert(group_matches(r@[1], catalog()[1]));
        assert(group_matches(r@[2], catalog()[2]));
        assert(group_matches(r@[3], catalog()[3]));
        assert(group_matches(r@[4], catalog()[4]));
        assert(group_matches(r@[5], catalog()[5]));
    }
    r
}


/// One check's outcome in a report.
#[derive(Debug)]
pub struct CheckResult {
    pub id: String,
    pub description: String,
    pub advice: String,
    pub passed: bool,
    pub ignored: bool,
}

impl Clone for CheckResult {
    fn clone(&self) -> (r: Self)
        ensures
            r == *self,
    {
        CheckResult {
            id: self.id.clone(),
            description: self.description.clone(),
            advice: self.advice.clone(),
            passed: self.passed,
            ignored: self.ignored,
        }
    }
}

/// One group's outcomes in a report, in catalog order.
#[derive(Debug)]
pub struct CheckGroupResult {
    pub id: String,
    pub name: String,
    pub description: String,
    pub checks: Vec<CheckResult>,
}

/// The view of an optional ignore map argument.
pub open spec fn opt_ignore_view(ign: Option<&IgnoreMap>) -> Option<
    Map<Seq<char>, Seq<Seq<char>>>,
> {
    match ign {
        Some(m) => Some(m@),
        None => None,
    }
}

/// A failing check is suppressed when the map names its group with a
/// wildcard or lists the check explicitly.
pub open spec fn ignore_covers(
    ign: Option<Map<Seq<char>, Seq<Seq<char>>>>,
    g: Seq<char>,
    c: Seq<char>,
) -> bool {
    match ign {
        Some(m) => m.contains_key(g) && (m[g].len() == 0 || m[g].contains(c)),
        None => false,
    }
}

/// One reported check result is exactly what the catalog and the inputs
/// dictate: the catalog texts, the predicate's verdict, and suppression
/// only of failures the ignore map covers.
pub open spec fn result_matches(
    res: CheckResult,
    k: CheckKind,
    gid: Seq<char>,
    c: &ConfigInfo,
    u: &UserInfo,
    ign: Option<Map<Seq<char>, Seq<Seq<char>>>>,
) -> bool {
    &&& res.id@ == kind_id(k)
    &&& res.description@ == kind_description(k)
    &&& res.advice@ == kind_advice(k)
    &&& res.passed == check_passes(k, c, u)
    &&& res.ignored == (!check_passes(k, c, u) && ignore_covers(ign, gid, kind_id(k)))
}

pub open spec fn group_result_matches(
    gr: CheckGroupResult,
    cs: GroupSpec,
    c: &ConfigInfo,
    u: &UserInfo,
    ign: Option<Map<Seq<char>, Seq<Seq<char>>>>,
) -> bool {
    &&& gr.id@ == cs.id
    &&& gr.name@ == cs.name
    &&& gr.description@ == cs.description
    &&& gr.checks@.len() == cs.checks.len()
    &&& forall|j: int|
        0 <= j < gr.checks@.len() ==> result_matches(
            #[trigger] gr.checks@[j],
            cs.checks[j],
            cs.id,
            c,
            u,
            ign,
        )
}

fn is_covered(ign: Option<&IgnoreMap>, gid: &str, cid: &str) -> (r: bool)
    requires
        match ign {
            Some(m) => m.wf(),
            None => true,
        },
    ensures
        r == ignore_covers(opt_ignore_view(ign), gid@, cid@),
{
    match ign {
        Some(m) => match m.get(gid) {
            Some(v) => v.len() == 0 || contains_string(v, cid),
            None => false,
        },
        None => false,
    }
}

/// Evaluates the whole catalog on one snapshot: every group and check in
/// declaration order, each with its verdict and suppression flag.
pub fn run_all_checks(
    config: &ConfigInfo,
    user_info: &UserInfo,
    ignored_checks: Option<&IgnoreMap>,
) -> (r: Vec<CheckGroupResult>)
    requires
        match ignored_checks {
            Some(m) => m.wf(),
            None => true,
        },
    ensures
        r@.len() == catalog().len(),
        forall|i: int|
            0 <= i < r@.len() ==> group_result_matches(
                #[trigger] r@[i],
                catalog()[i],
                config,
                user_info,
                opt_ignore_view(ignored_checks),
            ),
{
    let groups = get_standard_checks();
    let n = groups.len();
    let mut out: Vec<CheckGroupResult> = Vec::new();
    let mut i: usize = 0;
    while i < n
        invariant
            match ignored_checks {
                Some(m) => m.wf(),
                None => true,
            },
            groups_match(groups@, catalog()),
            n == groups@.len(),
            i <= n,
            out@.len() == i,
            forall|a: int|
                0 <= a < i ==> group_result_matches(
                    #[trigger] out@[a],
                    catalog()[a],
                    config,
                    user_info,
                    opt_ignore_view(ignored_checks),
                ),
        decreases n - i,
    {
        let group = &groups[i];
        let m = group.checks.len();
        let mut results: Vec<CheckResult> = Vec::new();
        let mut j: usize = 0;
        while j < m
            invariant
                match ignored_checks {
                    Some(mm) => mm.wf(),
                    None => true,
                },
                groups_match(groups@, catalog()),
                n == groups@.len(),
                i < n,
                group == groups@[i as int],
                m == group.checks@.len(),
                j <= m,
                results@.len() == j,
                forall|b: int|
                    0 <= b < j ==> result_matches(
                        #[trigger] results@[b],
                        catalog()[i as int].checks[b],
                        catalog()[i as int].id,
                        config,
                        user_info,
                        opt_ignore_view(ignored_checks),
                    ),
            decreases m - j,
        {
            let check = &group.checks[j];
            let passed = check.check(config, user_info).is_ok();
            let ignored = !passed && is_covered(
                ignored_checks,
                group.id.as_str(),
                check.id.as_str(),
            );
            results.push(
                CheckResult {
                    id: check.id.clone(),
                    description: check.description.clone(),
                    advice: check.advice.clone(),
                    passed,
                    ignored,
                },
            );
            j += 1;
        }
        out.push(
            CheckGroupResult {
                id: group.id.clone(),
                name: group.name.clone(),
                description: group.description.clone(),
                checks: results,
            },
        );
        i += 1;
    }
    out
}

/// The unignored failures of one group's checks, as `(group id, check id)`
/// pairs in catalog order.
pub open spec fn kind_failures(
    ks: Seq<CheckKind>,
    gid: Seq<char>,
    c: &ConfigInfo,
    u: &UserInfo,
    ign: Option<Map<Seq<char>, Seq<Seq<char>>>>,
) -> Seq<(Seq<char>, Seq<char>)>
    decreases ks.len(),
{
    if ks.len() == 0 {
        Seq::empty()
    } else {
        kind_failures(ks.drop_last(), gid, c, u, ign) + {
            let k = ks.last();
            if !check_passes(k, c, u) && !ignore_covers(ign, gid, kind_id(k)) {
                seq![(gid, kind_id(k))]
            } else {
                Seq::empty()
            }
        }
    }
}

/// The unignored failures of the whole catalog, in order.
pub open spec fn all_failures(
    cat: Seq<GroupSpec>,
    c: &ConfigInfo,
    u: &UserInfo,
    ign: Option<Map<Seq<char>, Seq<Seq<char>>>>,
) -> Seq<(Seq<char>, Seq<char>)>
    decreases cat.len(),
{
    if cat.len() == 0 {
        Seq::empty()
    } else {
        all_failures(cat.drop_last(), c, u, ign) + kind_failures(
            cat.last().checks,
            cat.last().id,
            c,
            u,
            ign,
        )
    }
}

pub open spec fn pairs_match(v: Seq<(String, String)>, s: Seq<(Seq<char>, Seq<char>)>) -> bool {
    &&& v.len() == s.len()
    &&& forall|i: int|
        0 <= i < v.len() ==> (#[trigger] v[i]).0@ == s[i].0 && v[i].1@ == s[i].1
}

/// Runs every check and reports the `(group id, check id)` pairs that fail
/// without being ignored — the failures that gate an operation.
pub fn run_system_checks(
    info: &ConfigInfo,
    user_info: &UserInfo,
    system_ignore_map: Option<&IgnoreMap>,
) -> (r: Result<Vec<(String, String)>, crate::nixcommands::NixError>)
    requires
        match system_ignore_map {
            Some(m) => m.wf(),
            None => true,
        },
    ensures
        match r {
            Ok(v) => pairs_match(
                v@,
                all_failures(catalog(), info, user_info, opt_ignore_view(system_ignore_map)),
            ),
            Err(_) => false,
        },
{
    let ghost ign = opt_ignore_view(system_ignore_map);
    let results = run_all_checks(info, user_info, system_ignore_map);
    let n = results.len();
    let mut failures: Vec<(String, String)> = Vec::new();
    let mut i: usize = 0;
    proof {
        assert(catalog().take(0) =~= Seq::<GroupSpec>::empty());
    }
    while i < n
        invariant
            n == results@.len(),
            n == catalog().len(),
            i <= n,
            forall|a: int|
                0 <= a < n ==> group_result_matches(
                    #[trigger] results@[a],
                    catalog()[a],
                    info,
                    user_info,
                    ign,
                ),
            pairs_match(failures@, all_failures(catalog().take(i as int), info, user_info, ign)),
        decreases n - i,
    {
        let gr = &results[i];
        let m = gr.checks.len();
        let ghost cs = catalog()[i as int];
        let mut j: usize = 0;
        proof {
            assert(cs.checks.take(0) =~= Seq::<CheckKind>::empty());
            assert(all_failures(catalog().take(i as int), info, user_info, ign) + kind_failures(
                cs.checks.take(0),
                cs.id,
                info,
                user_info,
                ign,
            ) =~= all_failures(catalog().take(i as int), info, user_info, ign));
        }
        while j < m
            invariant
                n == results@.len(),
                n == catalog().len(),
                i < n,
                cs == catalog()[i as int],
                gr == results@[i as int],
                group_result_matches(*gr, cs, info, user_info, ign),
                m == gr.checks@.len(),
                j <= m,
                pairs_match(
                    failures@,
                    all_failures(catalog().take(i as int), info, user_info, ign) + kind_failures(
                        cs.checks.take(j as int),
                        cs.id,
                        info,
                        user_info,
                        ign,
                    ),
                ),
            decreases m - j,
        {
            proof {
                assert(cs.checks.take(j + 1).drop_last() =~= cs.checks.take(j as int));
                assert(cs.checks.take(j + 1).last() == cs.checks[j as int]);
            }
            let cr = &gr.checks[j];
            if !cr.passed && !cr.ignored {
                failures.push((gr.id.clone(), cr.id.clone()));
            }
            j += 1;
        }
        proof {
            assert(cs.checks.take(m as int) =~= cs.checks);
            assert(catalog().take(i + 1).drop_last() =~= catalog().take(i as int));
            assert(catalog().take(i + 1).last() == catalog()[i as int]);
        }
        i += 1;
    }
    proof {
        assert(catalog().take(n as int) =~= catalog());
    }
    Ok(failures)
}


/// The catalog's naming invariant: every group id is unique in the catalog,
/// and every check id is unique within its group.
#[verifier::rlimit(100)]
pub proof fn lemma_catalog_ids_unique()
    ensures
        forall|i: int, j: int|
            0 <= i < j < catalog().len() ==> (#[trigger] catalog()[i]).id != (
            #[trigger] catalog()[j]).id,
        forall|g: int, i: int, j: int|
            0 <= g < catalog().len() && 0 <= i < j < (#[trigger] catalog()[g]).checks.len()
                ==> kind_id(#[trigger] catalog()[g].checks[i]) != kind_id(
                #[trigger] catalog()[g].checks[j],
            ),
{
    proof_catalog_literals();

        assert forall|i: int, j: int| 0 <= i < j < catalog().len() implies (#[trigger] catalog()[i]).id != (#[trigger] catalog()[j]).id by {
            if i == 0 && j == 1 {
                assert(catalog()[0].id == "remote_deployment"@ && catalog()[1].id == "system_security"@);
            }
            if i == 0 && j == 2 {
                assert(catalog()[0].id == "remote_deployment"@ && catalog()[2].id == "system_maintenance"@);
            }
            if i == 0 && j == 3 {
                assert(catalog()[0].id == "remote_deployment"@ && catalog()[3].id == "nix_configuration"@);
            }
            if i == 0 && j == 4 {
                assert(catalog()[0].id == "remote_deployment"@ && catalog()[4].id == "server_optimization"@);
            }
            if i == 0 && j == 5 {
                assert(catalog()[0].id == "remote_deployment"@ && catalog()[5].id == "hardware_configuration"@);
            }
            if i == 1 && j == 2 {
                assert(catalog()[1].id == "system_security"@ && catalog()[2].id == "system_maintenance"@);
            }
            if i == 1 && j == 3 {
                assert(catalog()[1].id == "system_security"@ && catalog()[3].id == "nix_configuration"@);
            }
            if i == 1 && j == 4 {
                assert(catalog()[1].id == "system_security"@ && catalog()[4].id == "server_optimization"@);
            }
            if i == 1 && j == 5 {
                assert(catalog()[1].id == "system_security"@ && catalog()[5].id == "hardware_configuration"@);
            }
            if i == 2 && j == 3 {
                assert(catalog()[2].id == "system_maintenance"@ && catalog()[3].id == "nix_configuration"@);
            }
            if i == 2 && j == 4 {
                assert(catalog()[2].id == "system_maintenance"@ && catalog()[4].id == "server_optimization"@);
            }
            if i == 2 && j == 5 {
                assert(catalog()[2].id == "system_maintenance"@ && catalog()[5].id == "hardware_configuration"@);
            }
            if i == 3 && j == 4 {
                assert(catalog()[3].id == "nix_configuration"@ && catalog()[4].id == "server_optimization"@);
            }
            if i == 3 && j == 5 {
                assert(catalog()[3].id == "nix_configuration"@ && catalog()[5].id == "hardware_configuration"@);
            }
            if i == 4 && j == 5 {
                assert(catalog()[4].id == "server_optimization"@ && catalog()[5].id == "hardware_configuration"@);
            }
        }
        assert forall|g: int, i: int, j: int|
            0 <= g < catalog().len() && 0 <= i < j < (#[trigger] catalog()[g]).checks.len() implies kind_id(
            #[trigger] catalog()[g].checks[i],
        ) != kind_id(#[trigger] catalog()[g].checks[j]) by {
            if g == 0 {
                if i == 0 && j == 1 {
                    assert(catalog()[0].checks[0] == CheckKind::SshEnabled);
                    assert(catalog()[0].checks[1] == CheckKind::SudoEnabled);
                }
                if i == 0 && j == 2 {
                    assert(catalog()[0].checks[0] == CheckKind::SshEnabled);
                    assert(catalog()[0].checks[2] == CheckKind::WheelPasswordless);
                }
                if i == 0 && j == 3 {
                    assert(catalog()[0].checks[0] == CheckKind::SshEnabled);
                    assert(catalog()[0].checks[3] == CheckKind::NixTrustsWheel);
                }
                if i == 0 && j == 4 {
                    assert(catalog()[0].checks[0] == CheckKind::SshEnabled);
                    assert(catalog()[0].checks[4] == CheckKind::UserAccess);
                }
                if i == 0 && j == 5 {
                    assert(catalog()[0].checks[0] == CheckKind::SshEnabled);
                    assert(catalog()[0].checks[5] == CheckKind::UserInWheel);
                }
                if i == 1 && j == 2 {
                    assert(catalog()[0].checks[1] == CheckKind::SudoEnabled);
                    assert(catalog()[0].checks[2] == CheckKind::WheelPasswordless);
                }
                if i == 1 && j == 3 {
                    assert(catalog()[0].checks[1] == CheckKind::SudoEnabled);
                    assert(catalog()[0].checks[3] == CheckKind::NixTrustsWheel);
                }
                if i == 1 && j == 4 {
                    assert(catalog()[0].checks[1] == CheckKind::SudoEnabled);
                    assert(catalog()[0].checks[4] == CheckKind::UserAccess);
                }
                if i == 1 && j == 5 {
                    assert(catalog()[0].checks[1] == CheckKind::SudoEnabled);
                    assert(catalog()[0].checks[5] == CheckKind::UserInWheel);
                }
                if i == 2 && j == 3 {
                    assert(catalog()[0].checks[2] == CheckKind::WheelPasswordless);
                    assert(catalog()[0].checks[3] == CheckKind::NixTrustsWheel);
                }
                if i == 2 && j == 4 {
                    assert(catalog()[0].checks[2] == CheckKind::WheelPasswordless);
                    assert(catalog()[0].checks[4] == CheckKind::UserAccess);
                }
                if i == 2 && j == 5 {
                    assert(catalog()[0].checks[2] == CheckKind::WheelPasswordless);
                    assert(catalog()[0].checks[5] == CheckKind::UserInWheel);
                }
                if i == 3 && j == 4 {
                    assert(catalog()[0].checks[3] == CheckKind::NixTrustsWheel);
                    assert(catalog()[0].checks[4] == CheckKind::UserAccess);
                }
                if i == 3 && j == 5 {
                    assert(catalog()[0].checks[3] == CheckKind::NixTrustsWheel);
                    assert(catalog()[0].checks[5] == CheckKind::UserInWheel);
                }
                if i == 4 && j == 5 {
                    assert(catalog()[0].checks[4] == CheckKind::UserAccess);
                    assert(catalog()[0].checks[5] == CheckKind::UserInWheel);
                }
            }
            if g == 1 {
                if i == 0 && j == 1 {
                    assert(catalog()[1].checks[0] == CheckKind::WheelOnly);
                    assert(catalog()[1].checks[1] == CheckKind::SshPasswordAuthentication);
                }
                if i == 0 && j == 2 {
                    assert(catalog()[1].checks[0] == CheckKind::WheelOnly);
                    assert(catalog()[1].checks[2] == CheckKind::UsersImmutable);
                }
                if i == 0 && j == 3 {
                    assert(catalog()[1].checks[0] == CheckKind::WheelOnly);
                    assert(catalog()[1].checks[3] == CheckKind::FirewallEnabled);
                }
                if i == 0 && j == 4 {
                    assert(catalog()[1].checks[0] == CheckKind::WheelOnly);
                    assert(catalog()[1].checks[4] == CheckKind::LogRefusedConnections);
                }
                if i == 1 && j == 2 {
                    assert(catalog()[1].checks[1] == CheckKind::SshPasswordAuthentication);
                    assert(catalog()[1].checks[2] == CheckKind::UsersImmutable);
                }
                if i == 1 && j == 3 {
                    assert(catalog()[1].checks[1] == CheckKind::SshPasswordAuthentication);
                    assert(catalog()[1].checks[3] == CheckKind::FirewallEnabled);
                }
                if i == 1 && j == 4 {
                    assert(catalog()[1].checks[1] == CheckKind::SshPasswordAuthentication);
                    assert(catalog()[1].checks[4] == CheckKind::LogRefusedConnections);
                }
                if i == 2 && j == 3 {
                    assert(catalog()[1].checks[2] == CheckKind::UsersImmutable);
                    assert(catalog()[1].checks[3] == CheckKind::FirewallEnabled);
                }
                if i == 2 && j == 4 {
                    assert(catalog()[1].checks[2] == CheckKind::UsersImmutable);
                    assert(catalog()[1].checks[4] == CheckKind::LogRefusedConnections);
                }
                if i == 3 && j == 4 {
                    assert(catalog()[1].checks[3] == CheckKind::FirewallEnabled);
                    assert(catalog()[1].checks[4] == CheckKind::LogRefusedConnections);
                }
            }
            if g == 2 {
                if i == 0 && j == 1 {
                    assert(catalog()[2].checks[0] == CheckKind::SystemGenerationsLimit);
                    assert(catalog()[2].checks[1] == CheckKind::NixGc);
                }
                if i == 0 && j == 2 {
                    assert(catalog()[2].checks[0] == CheckKind::SystemGenerationsLimit);
                    assert(catalog()[2].checks[2] == CheckKind::NixOptimiseAutomatic);
                }
                if i == 1 && j == 2 {
                    assert(catalog()[2].checks[1] == CheckKind::NixGc);
                    assert(catalog()[2].checks[2] == CheckKind::NixOptimiseAutomatic);
                }
            }
            if g == 3 {
            }
            if g == 4 {
                if i == 0 && j == 1 {
                    assert(catalog()[4].checks[0] == CheckKind::DocNixos);
                    assert(catalog()[4].checks[1] == CheckKind::Documentation);
                }
                if i == 0 && j == 2 {
                    assert(catalog()[4].checks[0] == CheckKind::DocNixos);
                    assert(catalog()[4].checks[2] == CheckKind::DocDev);
                }
                if i == 0 && j == 3 {
                    assert(catalog()[4].checks[0] == CheckKind::DocNixos);
                    assert(catalog()[4].checks[3] == CheckKind::DocDoc);
                }
                if i == 0 && j == 4 {
                    assert(catalog()[4].checks[0] == CheckKind::DocNixos);
                    assert(catalog()[4].checks[4] == CheckKind::DocInfo);
                }
                if i == 0 && j == 5 {
                    assert(catalog()[4].checks[0] == CheckKind::DocNixos);
                    assert(catalog()[4].checks[5] == CheckKind::DocMan);
                }
                if i == 0 && j == 6 {
                    assert(catalog()[4].checks[0] == CheckKind::DocNixos);
                    assert(catalog()[4].checks[6] == CheckKind::Fontconfig);
                }
                if i == 0 && j == 7 {
                    assert(catalog()[4].checks[0] == CheckKind::DocNixos);
                    assert(catalog()[4].checks[7] == CheckKind::StubLd);
                }
                if i == 0 && j == 8 {
                    assert(catalog()[4].checks[0] == CheckKind::DocNixos);
                    assert(catalog()[4].checks[8] == CheckKind::CommandNotFound);
                }
                if i == 0 && j == 9 {
                    assert(catalog()[4].checks[0] == CheckKind::DocNixos);
                    assert(catalog()[4].checks[9] == CheckKind::NginxBrotli);
                }
                if i == 0 && j == 10 {
                    assert(catalog()[4].checks[0] == CheckKind::DocNixos);
                    assert(catalog()[4].checks[10] == CheckKind::NginxGzip);
                }
                if i == 0 && j == 11 {
                    assert(catalog()[4].checks[0] == CheckKind::DocNixos);
                    assert(catalog()[4].checks[11] == CheckKind::NginxOptimisation);
                }
                if i == 0 && j == 12 {
                    assert(catalog()[4].checks[0] == CheckKind::DocNixos);
                    assert(catalog()[4].checks[12] == CheckKind::NginxProxy);
                }
                if i == 0 && j == 13 {
                    assert(catalog()[4].checks[0] == CheckKind::DocNixos);
                    assert(catalog()[4].checks[13] == CheckKind::NginxTls);
                }
                if i == 1 && j == 2 {
                    assert(catalog()[4].checks[1] == CheckKind::Documentation);
                    assert(catalog()[4].checks[2] == CheckKind::DocDev);
                }
                if i == 1 && j == 3 {
                    assert(catalog()[4].checks[1] == CheckKind::Documentation);
                    assert(catalog()[4].checks[3] == CheckKind::DocDoc);
                }
                if i == 1 && j == 4 {
                    assert(catalog()[4].checks[1] == CheckKind::Documentation);
                    assert(catalog()[4].checks[4] == CheckKind::DocInfo);
                }
                if i == 1 && j == 5 {
                    assert(catalog()[4].checks[1] == CheckKind::Documentation);
                    assert(catalog()[4].checks[5] == CheckKind::DocMan);
                }
                if i == 1 && j == 6 {
                    assert(catalog()[4].checks[1] == CheckKind::Documentation);
                    assert(catalog()[4].checks[6] == CheckKind::Fontconfig);
                }
                if i == 1 && j == 7 {
                    assert(catalog()[4].checks[1] == CheckKind::Documentation);
                    assert(catalog()[4].checks[7] == CheckKind::StubLd);
                }
                if i == 1 && j == 8 {
                    assert(catalog()[4].checks[1] == CheckKind::Documentation);
                    assert(catalog()[4].checks[8] == CheckKind::CommandNotFound);
                }
                if i == 1 && j == 9 {
                    assert(catalog()[4].checks[1] == CheckKind::Documentation);
                    assert(catalog()[4].checks[9] == CheckKind::NginxBrotli);
                }
                if i == 1 && j == 10 {
                    assert(catalog()[4].checks[1] == CheckKind::Documentation);
                    assert(catalog()[4].checks[10] == CheckKind::NginxGzip);
                }
                if i == 1 && j == 11 {
                    assert(catalog()[4].checks[1] == CheckKind::Documentation);
                    assert(catalog()[4].checks[11] == CheckKind::NginxOptimisation);
                }
                if i == 1 && j == 12 {
                    assert(catalog()[4].checks[1] == CheckKind::Documentation);
                    assert(catalog()[4].checks[12] == CheckKind::NginxProxy);
                }
                if i == 1 && j == 13 {
                    assert(catalog()[4].checks[1] == CheckKind::Documentation);
                    assert(catalog()[4].checks[13] == CheckKind::NginxTls);
                }
                if i == 2 && j == 3 {
                    assert(catalog()[4].checks[2] == CheckKind::DocDev);
                    assert(catalog()[4].checks[3] == CheckKind::DocDoc);
                }
                if i == 2 && j == 4 {
                    assert(catalog()[4].checks[2] == CheckKind::DocDev);
                    assert(catalog()[4].checks[4] == CheckKind::DocInfo);
                }
                if i == 2 && j == 5 {
                    assert(catalog()[4].checks[2] == CheckKind::DocDev);
                    assert(catalog()[4].checks[5] == CheckKind::DocMan);
                }
                if i == 2 && j == 6 {
                    assert(catalog()[4].checks[2] == CheckKind::DocDev);
                    assert(catalog()[4].checks[6] == CheckKind::Fontconfig);
                }
                if i == 2 && j == 7 {
                    assert(catalog()[4].checks[2] == CheckKind::DocDev);
                    assert(catalog()[4].checks[7] == CheckKind::StubLd);
                }
                if i == 2 && j == 8 {
                    assert(catalog()[4].checks[2] == CheckKind::DocDev);
                    assert(catalog()[4].checks[8] == CheckKind::CommandNotFound);
                }
                if i == 2 && j == 9 {
                    assert(catalog()[4].checks[2] == CheckKind::DocDev);
                    assert(catalog()[4].checks[9] == CheckKind::NginxBrotli);
                }
                if i == 2 && j == 10 {
                    assert(catalog()[4].checks[2] == CheckKind::DocDev);
                    assert(catalog()[4].checks[10] == CheckKind::NginxGzip);
                }
                if i == 2 && j == 11 {
                    assert(catalog()[4].checks[2] == CheckKind::DocDev);
                    assert(catalog()[4].checks[11] == CheckKind::NginxOptimisation);
                }
                if i == 2 && j == 12 {
                    assert(catalog()[4].checks[2] == CheckKind::DocDev);
                    assert(catalog()[4].checks[12] == CheckKind::NginxProxy);
                }
                if i == 2 && j == 13 {
                    assert(catalog()[4].checks[2] == CheckKind::DocDev);
                    assert(catalog()[4].checks[13] == CheckKind::NginxTls);
                }
                if i == 3 && j == 4 {
                    assert(catalog()[4].checks[3] == CheckKind::DocDoc);
                    assert(catalog()[4].checks[4] == CheckKind::DocInfo);
                }
                if i == 3 && j == 5 {
                    assert(catalog()[4].checks[3] == CheckKind::DocDoc);
                    assert(catalog()[4].checks[5] == CheckKind::DocMan);
                }
                if i == 3 && j == 6 {
                    assert(catalog()[4].checks[3] == CheckKind::DocDoc);
                    assert(catalog()[4].checks[6] == CheckKind::Fontconfig);
                }
                if i == 3 && j == 7 {
                    assert(catalog()[4].checks[3] == CheckKind::DocDoc);
                    assert(catalog()[4].checks[7] == CheckKind::StubLd);
                }
                if i == 3 && j == 8 {
                    assert(catalog()[4].checks[3] == CheckKind::DocDoc);
                    assert(catalog()[4].checks[8] == CheckKind::CommandNotFound);
                }
                if i == 3 && j == 9 {
                    assert(catalog()[4].checks[3] == CheckKind::DocDoc);
                    assert(catalog()[4].checks[9] == CheckKind::NginxBrotli);
                }
                if i == 3 && j == 10 {
                    assert(catalog()[4].checks[3] == CheckKind::DocDoc);
                    assert(catalog()[4].checks[10] == CheckKind::NginxGzip);
                }
                if i == 3 && j == 11 {
                    assert(catalog()[4].checks[3] == CheckKind::DocDoc);
                    assert(catalog()[4].checks[11] == CheckKind::NginxOptimisation);
                }
                if i == 3 && j == 12 {
                    assert(catalog()[4].checks[3] == CheckKind::DocDoc);
                    assert(catalog()[4].checks[12] == CheckKind::NginxProxy);
                }
                if i == 3 && j == 13 {
                    assert(catalog()[4].checks[3] == CheckKind::DocDoc);
                    assert(catalog()[4].checks[13] == CheckKind::NginxTls);
                }
                if i == 4 && j == 5 {
                    assert(catalog()[4].checks[4] == CheckKind::DocInfo);
                    assert(catalog()[4].checks[5] == CheckKind::DocMan);
                }
                if i == 4 && j == 6 {
                    assert(catalog()[4].checks[4] == CheckKind::DocInfo);
                    assert(catalog()[4].checks[6] == CheckKind::Fontconfig);
                }
                if i == 4 && j == 7 {
                    assert(catalog()[4].checks[4] == CheckKind::DocInfo);
                    assert(catalog()[4].checks[7] == CheckKind::StubLd);
                }
                if i == 4 && j == 8 {
                    assert(catalog()[4].checks[4] == CheckKind::DocInfo);
                    assert(catalog()[4].checks[8] == CheckKind::CommandNotFound);
                }
                if i == 4 && j == 9 {
                    assert(catalog()[4].checks[4] == CheckKind::DocInfo);
                    assert(catalog()[4].checks[9] == CheckKind::NginxBrotli);
                }
                if i == 4 && j == 10 {
                    assert(catalog()[4].checks[4] == CheckKind::DocInfo);
                    assert(catalog()[4].checks[10] == CheckKind::NginxGzip);
                }
                if i == 4 && j == 11 {
                    assert(catalog()[4].checks[4] == CheckKind::DocInfo);
                    assert(catalog()[4].checks[11] == CheckKind::NginxOptimisation);
                }
                if i == 4 && j == 12 {
                    assert(catalog()[4].checks[4] == CheckKind::DocInfo);
                    assert(catalog()[4].checks[12] == CheckKind::NginxProxy);
                }
                if i == 4 && j == 13 {
                    assert(catalog()[4].checks[4] == CheckKind::DocInfo);
                    assert(catalog()[4].checks[13] == CheckKind::NginxTls);
                }
                if i == 5 && j == 6 {
                    assert(catalog()[4].checks[5] == CheckKind::DocMan);
                    assert(catalog()[4].checks[6] == CheckKind::Fontconfig);
                }
                if i == 5 && j == 7 {
                    assert(catalog()[4].checks[5] == CheckKind::DocMan);
                    assert(catalog()[4].checks[7] == CheckKind::StubLd);
                }
                if i == 5 && j == 8 {
                    assert(catalog()[4].checks[5] == CheckKind::DocMan);
                    assert(catalog()[4].checks[8] == CheckKind::CommandNotFound);
                }
                if i == 5 && j == 9 {
                    assert(catalog()[4].checks[5] == CheckKind::DocMan);
                    assert(catalog()[4].checks[9] == CheckKind::NginxBrotli);
                }
                if i == 5 && j == 10 {
                    assert(catalog()[4].checks[5] == CheckKind::DocMan);
                    assert(catalog()[4].checks[10] == CheckKind::NginxGzip);
                }
                if i == 5 && j == 11 {
                    assert(catalog()[4].checks[5] == CheckKind::DocMan);
                    assert(catalog()[4].checks[11] == CheckKind::NginxOptimisation);
                }
                if i == 5 && j == 12 {
                    assert(catalog()[4].checks[5] == CheckKind::DocMan);
                    assert(catalog()[4].checks[12] == CheckKind::NginxProxy);
                }
                if i == 5 && j == 13 {
                    assert(catalog()[4].checks[5] == CheckKind::DocMan);
                    assert(catalog()[4].checks[13] == CheckKind::NginxTls);
                }
                if i == 6 && j == 7 {
                    assert(catalog()[4].checks[6] == CheckKind::Fontconfig);
                    assert(catalog()[4].checks[7] == CheckKind::StubLd);
                }
                if i == 6 && j == 8 {
                    assert(catalog()[4].checks[6] == CheckKind::Fontconfig);
                    assert(catalog()[4].checks[8] == CheckKind::CommandNotFound);
                }
                if i == 6 && j == 9 {
                    assert(catalog()[4].checks[6] == CheckKind::Fontconfig);
                    assert(catalog()[4].checks[9] == CheckKind::NginxBrotli);
                }
                if i == 6 && j == 10 {
                    assert(catalog()[4].checks[6] == CheckKind::Fontconfig);
                    assert(catalog()[4].checks[10] == CheckKind::NginxGzip);
                }
                if i == 6 && j == 11 {
                    assert(catalog()[4].checks[6] == CheckKind::Fontconfig);
                    assert(catalog()[4].checks[11] == CheckKind::NginxOptimisation);
                }
                if i == 6 && j == 12 {
                    assert(catalog()[4].checks[6] == CheckKind::Fontconfig);
                    assert(catalog()[4].checks[12] == CheckKind::NginxProxy);
                }
                if i == 6 && j == 13 {
                    assert(catalog()[4].checks[6] == CheckKind::Fontconfig);
                    assert(catalog()[4].checks[13] == CheckKind::NginxTls);
                }
                if i == 7 && j == 8 {
                    assert(catalog()[4].checks[7] == CheckKind::StubLd);
                    assert(catalog()[4].checks[8] == CheckKind::CommandNotFound);
                }
                if i == 7 && j == 9 {
                    assert(catalog()[4].checks[7] == CheckKind::StubLd);
                    assert(catalog()[4].checks[9] == CheckKind::NginxBrotli);
                }
                if i == 7 && j == 10 {
                    assert(catalog()[4].checks[7] == CheckKind::StubLd);
                    assert(catalog()[4].checks[10] == CheckKind::NginxGzip);
                }
                if i == 7 && j == 11 {
                    assert(catalog()[4].checks[7] == CheckKind::StubLd);
                    assert(catalog()[4].checks[11] == CheckKind::NginxOptimisation);
                }
                if i == 7 && j == 12 {
                    assert(catalog()[4].checks[7] == CheckKind::StubLd);
                    assert(catalog()[4].checks[12] == CheckKind::NginxProxy);
                }
                if i == 7 && j == 13 {
                    assert(catalog()[4].checks[7] == CheckKind::StubLd);
                    assert(catalog()[4].checks[13] == CheckKind::NginxTls);
                }
                if i == 8 && j == 9 {
                    assert(catalog()[4].checks[8] == CheckKind::CommandNotFound);
                    assert(catalog()[4].checks[9] == CheckKind::NginxBrotli);
                }
                if i == 8 && j == 10 {
                    assert(catalog()[4].checks[8] == CheckKind::CommandNotFound);
                    assert(catalog()[4].checks[10] == CheckKind::NginxGzip);
                }
                if i == 8 && j == 11 {
                    assert(catalog()[4].checks[8] == CheckKind::CommandNotFound);
                    assert(catalog()[4].checks[11] == CheckKind::NginxOptimisation);
                }
                if i == 8 && j == 12 {
                    assert(catalog()[4].checks[8] == CheckKind::CommandNotFound);
                    assert(catalog()[4].checks[12] == CheckKind::NginxProxy);
                }
                if i == 8 && j == 13 {
                    assert(catalog()[4].checks[8] == CheckKind::CommandNotFound);
                    assert(catalog()[4].checks[13] == CheckKind::NginxTls);
                }
                if i == 9 && j == 10 {
                    assert(catalog()[4].checks[9] == CheckKind::NginxBrotli);
                    assert(catalog()[4].checks[10] == CheckKind::NginxGzip);
                }
                if i == 9 && j == 11 {
                    assert(catalog()[4].checks[9] == CheckKind::NginxBrotli);
                    assert(catalog()[4].checks[11] == CheckKind::NginxOptimisation);
                }
                if i == 9 && j == 12 {
                    assert(catalog()[4].checks[9] == CheckKind::NginxBrotli);
                    assert(catalog()[4].checks[12] == CheckKind::NginxProxy);
                }
                if i == 9 && j == 13 {
                    assert(catalog()[4].checks[9] == CheckKind::NginxBrotli);
                    assert(catalog()[4].checks[13] == CheckKind::NginxTls);
                }
                if i == 10 && j == 11 {
                    assert(catalog()[4].checks[10] == CheckKind::NginxGzip);
                    assert(catalog()[4].checks[11] == CheckKind::NginxOptimisation);
                }
                if i == 10 && j == 12 {
                    assert(catalog()[4].checks[10] == CheckKind::NginxGzip);
                    assert(catalog()[4].checks[12] == CheckKind::NginxProxy);
                }
                if i == 10 && j == 13 {
                    assert(catalog()[4].checks[10] == CheckKind::NginxGzip);
                    assert(catalog()[4].checks[13] == CheckKind::NginxTls);
                }
                if i == 11 && j == 12 {
                    assert(catalog()[4].checks[11] == CheckKind::NginxOptimisation);
                    assert(catalog()[4].checks[12] == CheckKind::NginxProxy);
                }
                if i == 11 && j == 13 {
                    assert(catalog()[4].checks[11] == CheckKind::NginxOptimisation);
                    assert(catalog()[4].checks[13] == CheckKind::NginxTls);
                }
                if i == 12 && j == 13 {
                    assert(catalog()[4].checks[12] == CheckKind::NginxProxy);
                    assert(catalog()[4].checks[13] == CheckKind::NginxTls);
                }
            }
            if g == 5 {
            }
        }
}

/// Reveals every id literal of the catalog and records the pairwise
/// distinctness of the ids.
proof fn proof_catalog_literals()
    ensures
        "remote_deployment"@ != "system_security"@,
        "remote_deployment"@ != "system_maintenance"@,
        "remote_deployment"@ != "nix_configuration"@,
        "remote_deployment"@ != "server_optimization"@,
        "remote_deployment"@ != "hardware_configuration"@,
        "system_security"@ != "system_maintenance"@,
        "system_security"@ != "nix_configuration"@,
        "system_security"@ != "server_optimization"@,
        "system_security"@ != "hardware_configuration"@,
        "system_maintenance"@ != "nix_configuration"@,
        "system_maintenance"@ != "server_optimization"@,
        "system_maintenance"@ != "hardware_configuration"@,
        "nix_configuration"@ != "server_optimization"@,
        "nix_configuration"@ != "hardware_configuration"@,
        "server_optimization"@ != "hardware_configuration"@,
        kind_id(CheckKind::SshEnabled) != kind_id(CheckKind::SudoEnabled),
        kind_id(CheckKind::SshEnabled) != kind_id(CheckKind::WheelPasswordless),
        kind_id(CheckKind::SshEnabled) != kind_id(CheckKind::NixTrustsWheel),
        kind_id(CheckKind::SshEnabled) != kind_id(CheckKind::UserAccess),
        kind_id(CheckKind::SshEnabled) != kind_id(CheckKind::UserInWheel),
        kind_id(CheckKind::SudoEnabled) != kind_id(CheckKind::WheelPasswordless),
        kind_id(CheckKind::SudoEnabled) != kind_id(CheckKind::NixTrustsWheel),
        kind_id(CheckKind::SudoEnabled) != kind_id(CheckKind::UserAccess),
        kind_id(CheckKind::SudoEnabled) != kind_id(CheckKind::UserInWheel),
        kind_id(CheckKind::WheelPasswordless) != kind_id(CheckKind::NixTrustsWheel),
        kind_id(CheckKind::WheelPasswordless) != kind_id(CheckKind::UserAccess),
        kind_id(CheckKind::WheelPasswordless) != kind_id(CheckKind::UserInWheel),
        kind_id(CheckKind::NixTrustsWheel) != kind_id(CheckKind::UserAccess),
        kind_id(CheckKind::NixTrustsWheel) != kind_id(CheckKind::UserInWheel),
        kind_id(CheckKind::UserAccess) != kind_id(CheckKind::UserInWheel),
        kind_id(CheckKind::WheelOnly) != kind_id(CheckKind::SshPasswordAuthentication),
        kind_id(CheckKind::WheelOnly) != kind_id(CheckKind::UsersImmutable),
        kind_id(CheckKind::WheelOnly) != kind_id(CheckKind::FirewallEnabled),
        kind_id(CheckKind::WheelOnly) != kind_id(CheckKind::LogRefusedConnections),
        kind_id(CheckKind::SshPasswordAuthentication) != kind_id(CheckKind::UsersImmutable),
        kind_id(CheckKind::SshPasswordAuthentication) != kind_id(CheckKind::FirewallEnabled),
        kind_id(CheckKind::SshPasswordAuthentication) != kind_id(CheckKind::LogRefusedConnections),
        kind_id(CheckKind::UsersImmutable) != kind_id(CheckKind::FirewallEnabled),
        kind_id(CheckKind::UsersImmutable) != kind_id(CheckKind::LogRefusedConnections),
        kind_id(CheckKind::FirewallEnabled) != kind_id(CheckKind::LogRefusedConnections),
        kind_id(CheckKind::SystemGenerationsLimit) != kind_id(CheckKind::NixGc),
        kind_id(CheckKind::SystemGenerationsLimit) != kind_id(CheckKind::NixOptimiseAutomatic),
        kind_id(CheckKind::NixGc) != kind_id(CheckKind::NixOptimiseAutomatic),
        kind_id(CheckKind::DocNixos) != kind_id(CheckKind::Documentation),
        kind_id(CheckKind::DocNixos) != kind_id(CheckKind::DocDev),
        kind_id(CheckKind::DocNixos) != kind_id(CheckKind::DocDoc),
        kind_id(CheckKind::DocNixos) != kind_id(CheckKind::DocInfo),
        kind_id(CheckKind::DocNixos) != kind_id(CheckKind::DocMan),
        kind_id(CheckKind::DocNixos) != kind_id(CheckKind::Fontconfig),
        kind_id(CheckKind::DocNixos) != kind_id(CheckKind::StubLd),
        kind_id(CheckKind::DocNixos) != kind_id(CheckKind::CommandNotFound),
        kind_id(CheckKind::DocNixos) != kind_id(CheckKind::NginxBrotli),
        kind_id(CheckKind::DocNixos) != kind_id(CheckKind::NginxGzip),
        kind_id(CheckKind::DocNixos) != kind_id(CheckKind::NginxOptimisation),
        kind_id(CheckKind::DocNixos) != kind_id(CheckKind::NginxProxy),
        kind_id(CheckKind::DocNixos) != kind_id(CheckKind::NginxTls),
        kind_id(CheckKind::Documentation) != kind_id(CheckKind::DocDev),
        kind_id(CheckKind::Documentation) != kind_id(CheckKind::DocDoc),
        kind_id(CheckKind::Documentation) != kind_id(CheckKind::DocInfo),
        kind_id(CheckKind::Documentation) != kind_id(CheckKind::DocMan),
        kind_id(CheckKind::Documentation) != kind_id(CheckKind::Fontconfig),
        kind_id(CheckKind::Documentation) != kind_id(CheckKind::StubLd),
        kind_id(CheckKind::Documentation) != kind_id(CheckKind::CommandNotFound),
        kind_id(CheckKind::Documentation) != kind_id(CheckKind::NginxBrotli),
        kind_id(CheckKind::Documentation) != kind_id(CheckKind::NginxGzip),
        kind_id(CheckKind::Documentation) != kind_id(CheckKind::NginxOptimisation),
        kind_id(CheckKind::Documentation) != kind_id(CheckKind::NginxProxy),
        kind_id(CheckKind::Documentation) != kind_id(CheckKind::NginxTls),
        kind_id(CheckKind::DocDev) != kind_id(CheckKind::DocDoc),
        kind_id(CheckKind::DocDev) != kind_id(CheckKind::DocInfo),
        kind_id(CheckKind::DocDev) != kind_id(CheckKind::DocMan),
        kind_id(CheckKind::DocDev) != kind_id(CheckKind::Fontconfig),
        kind_id(CheckKind::DocDev) != kind_id(CheckKind::StubLd),
        kind_id(CheckKind::DocDev) != kind_id(CheckKind::CommandNotFound),
        kind_id(CheckKind::DocDev) != kind_id(CheckKind::NginxBrotli),
        kind_id(CheckKind::DocDev) != kind_id(CheckKind::NginxGzip),
        kind_id(CheckKind::DocDev) != kind_id(CheckKind::NginxOptimisation),
        kind_id(CheckKind::DocDev) != kind_id(CheckKind::NginxProxy),
        kind_id(CheckKind::DocDev) != kind_id(CheckKind::NginxTls),
        kind_id(CheckKind::DocDoc) != kind_id(CheckKind::DocInfo),
        kind_id(CheckKind::DocDoc) != kind_id(CheckKind::DocMan),
        kind_id(CheckKind::DocDoc) != kind_id(CheckKind::Fontconfig),
        kind_id(CheckKind::DocDoc) != kind_id(CheckKind::StubLd),
        kind_id(CheckKind::DocDoc) != kind_id(CheckKind::CommandNotFound),
        kind_id(CheckKind::DocDoc) != kind_id(CheckKind::NginxBrotli),
        kind_id(CheckKind::DocDoc) != kind_id(CheckKind::NginxGzip),
        kind_id(CheckKind::DocDoc) != kind_id(CheckKind::NginxOptimisation),
        kind_id(CheckKind::DocDoc) != kind_id(CheckKind::NginxProxy),
        kind_id(CheckKind::DocDoc) != kind_id(CheckKind::NginxTls),
        kind_id(CheckKind::DocInfo) != kind_id(CheckKind::DocMan),
        kind_id(CheckKind::DocInfo) != kind_id(CheckKind::Fontconfig),
        kind_id(CheckKind::DocInfo) != kind_id(CheckKind::StubLd),
        kind_id(CheckKind::DocInfo) != kind_id(CheckKind::CommandNotFound),
        kind_id(CheckKind::DocInfo) != kind_id(CheckKind::NginxBrotli),
        kind_id(CheckKind::DocInfo) != kind_id(CheckKind::NginxGzip),
        kind_id(CheckKind::DocInfo) != kind_id(CheckKind::NginxOptimisation),
        kind_id(CheckKind::DocInfo) != kind_id(CheckKind::NginxProxy),
        kind_id(CheckKind::DocInfo) != kind_id(CheckKind::NginxTls),
        kind_id(CheckKind::DocMan) != kind_id(CheckKind::Fontconfig),
        kind_id(CheckKind::DocMan) != kind_id(CheckKind::StubLd),
        kind_id(CheckKind::DocMan) != kind_id(CheckKind::CommandNotFound),
        kind_id(CheckKind::DocMan) != kind_id(CheckKind::NginxBrotli),
        kind_id(CheckKind::DocMan) != kind_id(CheckKind::NginxGzip),
        kind_id(CheckKind::DocMan) != kind_id(CheckKind::NginxOptimisation),
        kind_id(CheckKind::DocMan) != kind_id(CheckKind::NginxProxy),
        kind_id(CheckKind::DocMan) != kind_id(CheckKind::NginxTls),
        kind_id(CheckKind::Fontconfig) != kind_id(CheckKind::StubLd),
        kind_id(CheckKind::Fontconfig) != kind_id(CheckKind::CommandNotFound),
        kind_id(CheckKind::Fontconfig) != kind_id(CheckKind::NginxBrotli),
        kind_id(CheckKind::Fontconfig) != kind_id(CheckKind::NginxGzip),
        kind_id(CheckKind::Fontconfig) != kind_id(CheckKind::NginxOptimisation),
        kind_id(CheckKind::Fontconfig) != kind_id(CheckKind::NginxProxy),
        kind_id(CheckKind::Fontconfig) != kind_id(CheckKind::NginxTls),
        kind_id(CheckKind::StubLd) != kind_id(CheckKind::CommandNotFound),
        kind_id(CheckKind::StubLd) != kind_id(CheckKind::NginxBrotli),
        kind_id(CheckKind::StubLd) != kind_id(CheckKind::NginxGzip),
        kind_id(CheckKind::StubLd) != kind_id(CheckKind::NginxOptimisation),
        kind_id(CheckKind::StubLd) != kind_id(CheckKind::NginxProxy),
        kind_id(CheckKind::StubLd) != kind_id(CheckKind::NginxTls),
        kind_id(CheckKind::CommandNotFound) != kind_id(CheckKind::NginxBrotli),
        kind_id(CheckKind::CommandNotFound) != kind_id(CheckKind::NginxGzip),
        kind_id(CheckKind::CommandNotFound) != kind_id(CheckKind::NginxOptimisation),
        kind_id(CheckKind::CommandNotFound) != kind_id(CheckKind::NginxProxy),
        kind_id(CheckKind::CommandNotFound) != kind_id(CheckKind::NginxTls),
        kind_id(CheckKind::NginxBrotli) != kind_id(CheckKind::NginxGzip),
        kind_id(CheckKind::NginxBrotli) != kind_id(CheckKind::NginxOptimisation),
        kind_id(CheckKind::NginxBrotli) != kind_id(CheckKind::NginxProxy),
        kind_id(CheckKind::NginxBrotli) != kind_id(CheckKind::NginxTls),
        kind_id(CheckKind::NginxGzip) != kind_id(CheckKind::NginxOptimisation),
        kind_id(CheckKind::NginxGzip) != kind_id(CheckKind::NginxProxy),
        kind_id(CheckKind::NginxGzip) != kind_id(CheckKind::NginxTls),
        kind_id(CheckKind::NginxOptimisation) != kind_id(CheckKind::NginxProxy),
        kind_id(CheckKind::NginxOptimisation) != kind_id(CheckKind::NginxTls),
        kind_id(CheckKind::NginxProxy) != kind_id(CheckKind::NginxTls),
{
    assert("remote_deployment"@ != "system_security"@) by {
        reveal_strlit("remote_deployment");
        reveal_strlit("system_security");
        assert("remote_deployment"@.len() == 17);
        assert("system_security"@.len() == 15);
    }
    assert("remote_deployment"@ != "system_maintenance"@) by {
        reveal_strlit("remote_deployment");
        reveal_strlit("system_maintenance");
        assert("remote_deployment"@.len() == 17);
        assert("system_maintenance"@.len() == 18);
    }
    assert("remote_deployment"@ != "nix_configuration"@) by {
        reveal_strlit("remote_deployment");
        reveal_strlit("nix_configuration");
        assert("remote_deployment"@.len() == 17);
        assert("nix_configuration"@.len() == 17);
        assert("remote_deployment"@[0] == 'r');
        assert("nix_configuration"@[0] == 'n');
    }
    assert("remote_deployment"@ != "server_optimization"@) by {
        reveal_strlit("remote_deployment");
        reveal_strlit("server_optimization");
        assert("remote_deployment"@.len() == 17);
        assert("server_optimization"@.len() == 19);
    }
    assert("remote_deployment"@ != "hardware_configuration"@) by {
        reveal_strlit("remote_deployment");
        reveal_strlit("hardware_configuration");
        assert("remote_deployment"@.len() == 17);
        assert("hardware_configuration"@.len() == 22);
    }
    assert("system_security"@ != "system_maintenance"@) by {
        reveal_strlit("system_security");
        reveal_strlit("system_maintenance");
        assert("system_security"@.len() == 15);
        assert("system_maintenance"@.len() == 18);
    }
    assert("system_security"@ != "nix_configuration"@) by {
        reveal_strlit("system_security");
        reveal_strlit("nix_configuration");
        assert("system_security"@.len() == 15);
        assert("nix_configuration"@.len() == 17);
    }
    assert("system_security"@ != "server_optimization"@) by {
        reveal_strlit("system_security");
        reveal_strlit("server_optimization");
        assert("system_security"@.len() == 15);
        assert("server_optimization"@.len() == 19);
    }
    assert("system_security"@ != "hardware_configuration"@) by {
        reveal_strlit("system_security");
        reveal_strlit("hardware_configuration");
        assert("system_security"@.len() == 15);
        assert("hardware_configuration"@.len() == 22);
    }
    assert("system_maintenance"@ != "nix_configuration"@) by {
        reveal_strlit("system_maintenance");
        reveal_strlit("nix_configuration");
        assert("system_maintenance"@.len() == 18);
        assert("nix_configuration"@.len() == 17);
    }
    assert("system_maintenance"@ != "server_optimization"@) by {
        reveal_strlit("system_maintenance");
        reveal_strlit("server_optimization");
        assert("system_maintenance"@.len() == 18);
        assert("server_optimization"@.len() == 19);
    }
    assert("system_maintenance"@ != "hardware_configuration"@) by {
        reveal_strlit("system_maintenance");
        reveal_strlit("hardware_configuration");
        assert("system_maintenance"@.len() == 18);
        assert("hardware_configuration"@.len() == 22);
    }
    assert("nix_configuration"@ != "server_optimization"@) by {
        reveal_strlit("nix_configuration");
        reveal_strlit("server_optimization");
        assert("nix_configuration"@.len() == 17);
        assert("server_optimization"@.len() == 19);
    }
    assert("nix_configuration"@ != "hardware_configuration"@) by {
        reveal_strlit("nix_configuration");
        reveal_strlit("hardware_configuration");
        assert("nix_configuration"@.len() == 17);
        assert("hardware_configuration"@.len() == 22);
    }
    assert("server_optimization"@ != "hardware_configuration"@) by {
        reveal_strlit("server_optimization");
        reveal_strlit("hardware_configuration");
        assert("server_optimization"@.len() == 19);
        assert("hardware_configuration"@.len() == 22);
    }
    assert("ssh_enabled"@ != "sudo_enabled"@) by {
        reveal_strlit("ssh_enabled");
        reveal_strlit("sudo_enabled");
        assert("ssh_enabled"@.len() == 11);
        assert("sudo_enabled"@.len() == 12);
    }
    assert("ssh_enabled"@ != "wheel_passwordless"@) by {
        reveal_strlit("ssh_enabled");
        reveal_strlit("wheel_passwordless");
        assert("ssh_enabled"@.len() == 11);
        assert("wheel_passwordless"@.len() == 18);
    }
    assert("ssh_enabled"@ != "nix_trusts_wheel"@) by {
        reveal_strlit("ssh_enabled");
        reveal_strlit("nix_trusts_wheel");
        assert("ssh_enabled"@.len() == 11);
        assert("nix_trusts_wheel"@.len() == 16);
    }
    assert("ssh_enabled"@ != "user_access"@) by {
        reveal_strlit("ssh_enabled");
        reveal_strlit("user_access");
        assert("ssh_enabled"@.len() == 11);
        assert("user_access"@.len() == 11);
        assert("ssh_enabled"@[0] == 's');
        assert("user_access"@[0] == 'u');
    }
    assert("ssh_enabled"@ != "user_in_wheel"@) by {
        reveal_strlit("ssh_enabled");
        reveal_strlit("user_in_wheel");
        assert("ssh_enabled"@.len() == 11);
        assert("user_in_wheel"@.len() == 13);
    }
    assert("sudo_enabled"@ != "wheel_passwordless"@) by {
        reveal_strlit("sudo_enabled");
        reveal_strlit("wheel_passwordless");
        assert("sudo_enabled"@.len() == 12);
        assert("wheel_passwordless"@.len() == 18);
    }
    assert("sudo_enabled"@ != "nix_trusts_wheel"@) by {
        reveal_strlit("sudo_enabled");
        reveal_strlit("nix_trusts_wheel");
        assert("sudo_enabled"@.len() == 12);
        assert("nix_trusts_wheel"@.len() == 16);
    }
    assert("sudo_enabled"@ != "user_access"@) by {
        reveal_strlit("sudo_enabled");
        reveal_strlit("user_access");
        assert("sudo_enabled"@.len() == 12);
        assert("user_access"@.len() == 11);
    }
    assert("sudo_enabled"@ != "user_in_wheel"@) by {
        reveal_strlit("sudo_enabled");
        reveal_strlit("user_in_wheel");
        assert("sudo_enabled"@.len() == 12);
        assert("user_in_wheel"@.len() == 13);
    }
    assert("wheel_passwordless"@ != "nix_trusts_wheel"@) by {
        reveal_strlit("wheel_passwordless");
        reveal_strlit("nix_trusts_wheel");
        assert("wheel_passwordless"@.len() == 18);
        assert("nix_trusts_wheel"@.len() == 16);
    }
    assert("wheel_passwordless"@ != "user_access"@) by {
        reveal_strlit("wheel_passwordless");
        reveal_strlit("user_access");
        assert("wheel_passwordless"@.len() == 18);
        assert("user_access"@.len() == 11);
    }
    assert("wheel_passwordless"@ != "user_in_wheel"@) by {
        reveal_strlit("wheel_passwordless");
        reveal_strlit("user_in_wheel");
        assert("wheel_passwordless"@.len() == 18);
        assert("user_in_wheel"@.len() == 13);
    }
    assert("nix_trusts_wheel"@ != "user_access"@) by {
        reveal_strlit("nix_trusts_wheel");
        reveal_strlit("user_access");
        assert("nix_trusts_wheel"@.len() == 16);
        assert("user_access"@.len() == 11);
    }
    assert("nix_trusts_wheel"@ != "user_in_wheel"@) by {
        reveal_strlit("nix_trusts_wheel");
        reveal_strlit("user_in_wheel");
        assert("nix_trusts_wheel"@.len() == 16);
        assert("user_in_wheel"@.len() == 13);
    }
    assert("user_access"@ != "user_in_wheel"@) by {
        reveal_strlit("user_access");
        reveal_strlit("user_in_wheel");
        assert("user_access"@.len() == 11);
        assert("user_in_wheel"@.len() == 13);
    }
    assert("wheel_only"@ != "ssh_password_authentication"@) by {
        reveal_strlit("wheel_only");
        reveal_strlit("ssh_password_authentication");
        assert("wheel_only"@.len() == 10);
        assert("ssh_password_authentication"@.len() == 27);
    }
    assert("wheel_only"@ != "users_immutable"@) by {
        reveal_strlit("wheel_only");
        reveal_strlit("users_immutable");
        assert("wheel_only"@.len() == 10);
        assert("users_immutable"@.len() == 15);
    }
    assert("wheel_only"@ != "firewall_enabled"@) by {
        reveal_strlit("wheel_only");
        reveal_strlit("firewall_enabled");
        assert("wheel_only"@.len() == 10);
        assert("firewall_enabled"@.len() == 16);
    }
    assert("wheel_only"@ != "log_refused_connections"@) by {
        reveal_strlit("wheel_only");
        reveal_strlit("log_refused_connections");
        assert("wheel_only"@.len() == 10);
        assert("log_refused_connections"@.len() == 23);
    }
    assert("ssh_password_authentication"@ != "users_immutable"@) by {
        reveal_strlit("ssh_password_authentication");
        reveal_strlit("users_immutable");
        assert("ssh_password_authentication"@.len() == 27);
        assert("users_immutable"@.len() == 15);
    }
    assert("ssh_password_authentication"@ != "firewall_enabled"@) by {
        reveal_strlit("ssh_password_authentication");
        reveal_strlit("firewall_enabled");
        assert("ssh_password_authentication"@.len() == 27);
        assert("firewall_enabled"@.len() == 16);
    }
    assert("ssh_password_authentication"@ != "log_refused_connections"@) by {
        reveal_strlit("ssh_password_authentication");
        reveal_strlit("log_refused_connections");
        assert("ssh_password_authentication"@.len() == 27);
        assert("log_refused_connections"@.len() == 23);
    }
    assert("users_immutable"@ != "firewall_enabled"@) by {
        reveal_strlit("users_immutable");
        reveal_strlit("firewall_enabled");
        assert("users_immutable"@.len() == 15);
        assert("firewall_enabled"@.len() == 16);
    }
    assert("users_immutable"@ != "log_refused_connections"@) by {
        reveal_strlit("users_immutable");
        reveal_strlit("log_refused_connections");
        assert("users_immutable"@.len() == 15);
        assert("log_refused_connections"@.len() == 23);
    }
    assert("firewall_enabled"@ != "log_refused_connections"@) by {
        reveal_strlit("firewall_enabled");
        reveal_strlit("log_refused_connections");
        assert("firewall_enabled"@.len() == 16);
        assert("log_refused_connections"@.len() == 23);
    }
    assert("system_generations_limit"@ != "nix_gc"@) by {
        reveal_strlit("system_generations_limit");
        reveal_strlit("nix_gc");
        assert("system_generations_limit"@.len() == 24);
        assert("nix_gc"@.len() == 6);
    }
    assert("system_generations_limit"@ != "nix_optimise_automatic"@) by {
        reveal_strlit("system_generations_limit");
        reveal_strlit("nix_optimise_automatic");
        assert("system_generations_limit"@.len() == 24);
        assert("nix_optimise_automatic"@.len() == 22);
    }
    assert("nix_gc"@ != "nix_optimise_automatic"@) by {
        reveal_strlit("nix_gc");
        reveal_strlit("nix_optimise_automatic");
        assert("nix_gc"@.len() == 6);
        assert("nix_optimise_automatic"@.len() == 22);
    }
    assert("doc_nixos"@ != "documentation"@) by {
        reveal_strlit("doc_nixos");
        reveal_strlit("documentation");
        assert("doc_nixos"@.len() == 9);
        assert("documentation"@.len() == 13);
    }
    assert("doc_nixos"@ != "doc_dev"@) by {
        reveal_strlit("doc_nixos");
        reveal_strlit("doc_dev");
        assert("doc_nixos"@.len() == 9);
        assert("doc_dev"@.len() == 7);
    }
    assert("doc_nixos"@ != "doc_doc"@) by {
        reveal_strlit("doc_nixos");
        reveal_strlit("doc_doc");
        assert("doc_nixos"@.len() == 9);
        assert("doc_doc"@.len() == 7);
    }
    assert("doc_nixos"@ != "doc_info"@) by {
        reveal_strlit("doc_nixos");
        reveal_strlit("doc_info");
        assert("doc_nixos"@.len() == 9);
        assert("doc_info"@.len() == 8);
    }
    assert("doc_nixos"@ != "doc_man"@) by {
        reveal_strlit("doc_nixos");
        reveal_strlit("doc_man");
        assert("doc_nixos"@.len() == 9);
        assert("doc_man"@.len() == 7);
    }
    assert("doc_nixos"@ != "fontconfig"@) by {
        reveal_strlit("doc_nixos");
        reveal_strlit("fontconfig");
        assert("doc_nixos"@.len() == 9);
        assert("fontconfig"@.len() == 10);
    }
    assert("doc_nixos"@ != "stub_ld"@) by {
        reveal_strlit("doc_nixos");
        reveal_strlit("stub_ld");
        assert("doc_nixos"@.len() == 9);
        assert("stub_ld"@.len() == 7);
    }
    assert("doc_nixos"@ != "command_not_found"@) by {
        reveal_strlit("doc_nixos");
        reveal_strlit("command_not_found");
        assert("doc_nixos"@.len() == 9);
        assert("command_not_found"@.len() == 17);
    }
    assert("doc_nixos"@ != "nginx_brotli"@) by {
        reveal_strlit("doc_nixos");
        reveal_strlit("nginx_brotli");
        assert("doc_nixos"@.len() == 9);
        assert("nginx_brotli"@.len() == 12);
    }
    assert("doc_nixos"@ != "nginx_gzip"@) by {
        reveal_strlit("doc_nixos");
        reveal_strlit("nginx_gzip");
        assert("doc_nixos"@.len() == 9);
        assert("nginx_gzip"@.len() == 10);
    }
    assert("doc_nixos"@ != "nginx_optimisation"@) by {
        reveal_strlit("doc_nixos");
        reveal_strlit("nginx_optimisation");
        assert("doc_nixos"@.len() == 9);
        assert("nginx_optimisation"@.len() == 18);
    }
    assert("doc_nixos"@ != "nginx_proxy"@) by {
        reveal_strlit("doc_nixos");
        reveal_strlit("nginx_proxy");
        assert("doc_nixos"@.len() == 9);
        assert("nginx_proxy"@.len() == 11);
    }
    assert("doc_nixos"@ != "nginx_tls"@) by {
        reveal_strlit("doc_nixos");
        reveal_strlit("nginx_tls");
        assert("doc_nixos"@.len() == 9);
        assert("nginx_tls"@.len() == 9);
        assert("doc_nixos"@[0] == 'd');
        assert("nginx_tls"@[0] == 'n');
    }
    assert("documentation"@ != "doc_dev"@) by {
        reveal_strlit("documentation");
        reveal_strlit("doc_dev");
        assert("documentation"@.len() == 13);
        assert("doc_dev"@.len() == 7);
    }
    assert("documentation"@ != "doc_doc"@) by {
        reveal_strlit("documentation");
        reveal_strlit("doc_doc");
        assert("documentation"@.len() == 13);
        assert("doc_doc"@.len() == 7);
    }
    assert("documentation"@ != "doc_info"@) by {
        reveal_strlit("documentation");
        reveal_strlit("doc_info");
        assert("documentation"@.len() == 13);
        assert("doc_info"@.len() == 8);
    }
    assert("documentation"@ != "doc_man"@) by {
        reveal_strlit("documentation");
        reveal_strlit("doc_man");
        assert("documentation"@.len() == 13);
        assert("doc_man"@.len() == 7);
    }
    assert("documentation"@ != "fontconfig"@) by {
        reveal_strlit("documentation");
        reveal_strlit("fontconfig");
        assert("documentation"@.len() == 13);
        assert("fontconfig"@.len() == 10);
    }
    assert("documentation"@ != "stub_ld"@) by {
        reveal_strlit("documentation");
        reveal_strlit("stub_ld");
        assert("documentation"@.len() == 13);
        assert("stub_ld"@.len() == 7);
    }
    assert("documentation"@ != "command_not_found"@) by {
        reveal_strlit("documentation");
        reveal_strlit("command_not_found");
        assert("documentation"@.len() == 13);
        assert("command_not_found"@.len() == 17);
    }
    assert("documentation"@ != "nginx_brotli"@) by {
        reveal_strlit("documentation");
        reveal_strlit("nginx_brotli");
        assert("documentation"@.len() == 13);
        assert("nginx_brotli"@.len() == 12);
    }
    assert("documentation"@ != "nginx_gzip"@) by {
        reveal_strlit("documentation");
        reveal_strlit("nginx_gzip");
        assert("documentation"@.len() == 13);
        assert("nginx_gzip"@.len() == 10);
    }
    assert("documentation"@ != "nginx_optimisation"@) by {
        reveal_strlit("documentation");
        reveal_strlit("nginx_optimisation");
        assert("documentation"@.len() == 13);
        assert("nginx_optimisation"@.len() == 18);
    }
    assert("documentation"@ != "nginx_proxy"@) by {
        reveal_strlit("documentation");
        reveal_strlit("nginx_proxy");
        assert("documentation"@.len() == 13);
        assert("nginx_proxy"@.len() == 11);
    }
    assert("documentation"@ != "nginx_tls"@) by {
        reveal_strlit("documentation");
        reveal_strlit("nginx_tls");
        assert("documentation"@.len() == 13);
        assert("nginx_tls"@.len() == 9);
    }
    assert("doc_dev"@ != "doc_doc"@) by {
        reveal_strlit("doc_dev");
        reveal_strlit("doc_doc");
        assert("doc_dev"@.len() == 7);
        assert("doc_doc"@.len() == 7);
        assert("doc_dev"@[5] == 'e');
        assert("doc_doc"@[5] == 'o');
    }
    assert("doc_dev"@ != "doc_info"@) by {
        reveal_strlit("doc_dev");
        reveal_strlit("doc_info");
        assert("doc_dev"@.len() == 7);
        assert("doc_info"@.len() == 8);
    }
    assert("doc_dev"@ != "doc_man"@) by {
        reveal_strlit("doc_dev");
        reveal_strlit("doc_man");
        assert("doc_dev"@.len() == 7);
        assert("doc_man"@.len() == 7);
        assert("doc_dev"@[4] == 'd');
        assert("doc_man"@[4] == 'm');
    }
    assert("doc_dev"@ != "fontconfig"@) by {
        reveal_strlit("doc_dev");
        reveal_strlit("fontconfig");
        assert("doc_dev"@.len() == 7);
        assert("fontconfig"@.len() == 10);
    }
    assert("doc_dev"@ != "stub_ld"@) by {
        reveal_strlit("doc_dev");
        reveal_strlit("stub_ld");
        assert("doc_dev"@.len() == 7);
        assert("stub_ld"@.len() == 7);
        assert("doc_dev"@[0] == 'd');
        assert("stub_ld"@[0] == 's');
    }
    assert("doc_dev"@ != "command_not_found"@) by {
        reveal_strlit("doc_dev");
        reveal_strlit("command_not_found");
        assert("doc_dev"@.len() == 7);
        assert("command_not_found"@.len() == 17);
    }
    assert("doc_dev"@ != "nginx_brotli"@) by {
        reveal_strlit("doc_dev");
        reveal_strlit("nginx_brotli");
        assert("doc_dev"@.len() == 7);
        assert("nginx_brotli"@.len() == 12);
    }
    assert("doc_dev"@ != "nginx_gzip"@) by {
        reveal_strlit("doc_dev");
        reveal_strlit("nginx_gzip");
        assert("doc_dev"@.len() == 7);
        assert("nginx_gzip"@.len() == 10);
    }
    assert("doc_dev"@ != "nginx_optimisation"@) by {
        reveal_strlit("doc_dev");
        reveal_strlit("nginx_optimisation");
        assert("doc_dev"@.len() == 7);
        assert("nginx_optimisation"@.len() == 18);
    }
    assert("doc_dev"@ != "nginx_proxy"@) by {
        reveal_strlit("doc_dev");
        reveal_strlit("nginx_proxy");
        assert("doc_dev"@.len() == 7);
        assert("nginx_proxy"@.len() == 11);
    }
    assert("doc_dev"@ != "nginx_tls"@) by {
        reveal_strlit("doc_dev");
        reveal_strlit("nginx_tls");
        assert("doc_dev"@.len() == 7);
        assert("nginx_tls"@.len() == 9);
    }
    assert("doc_doc"@ != "doc_info"@) by {
        reveal_strlit("doc_doc");
        reveal_strlit("doc_info");
        assert("doc_doc"@.len() == 7);
        assert("doc_info"@.len() == 8);
    }
    assert("doc_doc"@ != "doc_man"@) by {
        reveal_strlit("doc_doc");
        reveal_strlit("doc_man");
        assert("doc_doc"@.len() == 7);
        assert("doc_man"@.len() == 7);
        assert("doc_doc"@[4] == 'd');
        assert("doc_man"@[4] == 'm');
    }
    assert("doc_doc"@ != "fontconfig"@) by {
        reveal_strlit("doc_doc");
        reveal_strlit("fontconfig");
        assert("doc_doc"@.len() == 7);
        assert("fontconfig"@.len() == 10);
    }
    assert("doc_doc"@ != "stub_ld"@) by {
        reveal_strlit("doc_doc");
        reveal_strlit("stub_ld");
        assert("doc_doc"@.len() == 7);
        assert("stub_ld"@.len() == 7);
        assert("doc_doc"@[0] == 'd');
        assert("stub_ld"@[0] == 's');
    }
    assert("doc_doc"@ != "command_not_found"@) by {
        reveal_strlit("doc_doc");
        reveal_strlit("command_not_found");
        assert("doc_doc"@.len() == 7);
        assert("command_not_found"@.len() == 17);
    }
    assert("doc_doc"@ != "nginx_brotli"@) by {
        reveal_strlit("doc_doc");
        reveal_strlit("nginx_brotli");
        assert("doc_doc"@.len() == 7);
        assert("nginx_brotli"@.len() == 12);
    }
    assert("doc_doc"@ != "nginx_gzip"@) by {
        reveal_strlit("doc_doc");
        reveal_strlit("nginx_gzip");
        assert("doc_doc"@.len() == 7);
        assert("nginx_gzip"@.len() == 10);
    }
    assert("doc_doc"@ != "nginx_optimisation"@) by {
        reveal_strlit("doc_doc");
        reveal_strlit("nginx_optimisation");
        assert("doc_doc"@.len() == 7);
        assert("nginx_optimisation"@.len() == 18);
    }
    assert("doc_doc"@ != "nginx_proxy"@) by {
        reveal_strlit("doc_doc");
        reveal_strlit("nginx_proxy");
        assert("doc_doc"@.len() == 7);
        assert("nginx_proxy"@.len() == 11);
    }
    assert("doc_doc"@ != "nginx_tls"@) by {
        reveal_strlit("doc_doc");
        reveal_strlit("nginx_tls");
        assert("doc_doc"@.len() == 7);
        assert("nginx_tls"@.len() == 9);
    }
    assert("doc_info"@ != "doc_man"@) by {
        reveal_strlit("doc_info");
        reveal_strlit("doc_man");
        assert("doc_info"@.len() == 8);
        assert("doc_man"@.len() == 7);
    }
    assert("doc_info"@ != "fontconfig"@) by {
        reveal_strlit("doc_info");
        reveal_strlit("fontconfig");
        assert("doc_info"@.len() == 8);
        assert("fontconfig"@.len() == 10);
    }
    assert("doc_info"@ != "stub_ld"@) by {
        reveal_strlit("doc_info");
        reveal_strlit("stub_ld");
        assert("doc_info"@.len() == 8);
        assert("stub_ld"@.len() == 7);
    }
    assert("doc_info"@ != "command_not_found"@) by {
        reveal_strlit("doc_info");
        reveal_strlit("command_not_found");
        assert("doc_info"@.len() == 8);
        assert("command_not_found"@.len() == 17);
    }
    assert("doc_info"@ != "nginx_brotli"@) by {
        reveal_strlit("doc_info");
        reveal_strlit("nginx_brotli");
        assert("doc_info"@.len() == 8);
        assert("nginx_brotli"@.len() == 12);
    }
    assert("doc_info"@ != "nginx_gzip"@) by {
        reveal_strlit("doc_info");
        reveal_strlit("nginx_gzip");
        assert("doc_info"@.len() == 8);
        assert("nginx_gzip"@.len() == 10);
    }
    assert("doc_info"@ != "nginx_optimisation"@) by {
        reveal_strlit("doc_info");
        reveal_strlit("nginx_optimisation");
        assert("doc_info"@.len() == 8);
        assert("nginx_optimisation"@.len() == 18);
    }
    assert("doc_info"@ != "nginx_proxy"@) by {
        reveal_strlit("doc_info");
        reveal_strlit("nginx_proxy");
        assert("doc_info"@.len() == 8);
        assert("nginx_proxy"@.len() == 11);
    }
    assert("doc_info"@ != "nginx_tls"@) by {
        reveal_strlit("doc_info");
        reveal_strlit("nginx_tls");
        assert("doc_info"@.len() == 8);
        assert("nginx_tls"@.len() == 9);
    }
    assert("doc_man"@ != "fontconfig"@) by {
        reveal_strlit("doc_man");
        reveal_strlit("fontconfig");
        assert("doc_man"@.len() == 7);
        assert("fontconfig"@.len() == 10);
    }
    assert("doc_man"@ != "stub_ld"@) by {
        reveal_strlit("doc_man");
        reveal_strlit("stub_ld");
        assert("doc_man"@.len() == 7);
        assert("stub_ld"@.len() == 7);
        assert("doc_man"@[0] == 'd');
        assert("stub_ld"@[0] == 's');
    }
    assert("doc_man"@ != "command_not_found"@) by {
        reveal_strlit("doc_man");
        reveal_strlit("command_not_found");
        assert("doc_man"@.len() == 7);
        assert("command_not_found"@.len() == 17);
    }
    assert("doc_man"@ != "nginx_brotli"@) by {
        reveal_strlit("doc_man");
        reveal_strlit("nginx_brotli");
        assert("doc_man"@.len() == 7);
        assert("nginx_brotli"@.len() == 12);
    }
    assert("doc_man"@ != "nginx_gzip"@) by {
        reveal_strlit("doc_man");
        reveal_strlit("nginx_gzip");
        assert("doc_man"@.len() == 7);
        assert("nginx_gzip"@.len() == 10);
    }
    assert("doc_man"@ != "nginx_optimisation"@) by {
        reveal_strlit("doc_man");
        reveal_strlit("nginx_optimisation");
        assert("doc_man"@.len() == 7);
        assert("nginx_optimisation"@.len() == 18);
    }
    assert("doc_man"@ != "nginx_proxy"@) by {
        reveal_strlit("doc_man");
        reveal_strlit("nginx_proxy");
        assert("doc_man"@.len() == 7);
        assert("nginx_proxy"@.len() == 11);
    }
    assert("doc_man"@ != "nginx_tls"@) by {
        reveal_strlit("doc_man");
        reveal_strlit("nginx_tls");
        assert("doc_man"@.len() == 7);
        assert("nginx_tls"@.len() == 9);
    }
    assert("fontconfig"@ != "stub_ld"@) by {
        reveal_strlit("fontconfig");
        reveal_strlit("stub_ld");
        assert("fontconfig"@.len() == 10);
        assert("stub_ld"@.len() == 7);
    }
    assert("fontconfig"@ != "command_not_found"@) by {
        reveal_strlit("fontconfig");
        reveal_strlit("command_not_found");
        assert("fontconfig"@.len() == 10);
        assert("command_not_found"@.len() == 17);
    }
    assert("fontconfig"@ != "nginx_brotli"@) by {
        reveal_strlit("fontconfig");
        reveal_strlit("nginx_brotli");
        assert("fontconfig"@.len() == 10);
        assert("nginx_brotli"@.len() == 12);
    }
    assert("fontconfig"@ != "nginx_gzip"@) by {
        reveal_strlit("fontconfig");
        reveal_strlit("nginx_gzip");
        assert("fontconfig"@.len() == 10);
        assert("nginx_gzip"@.len() == 10);
        assert("fontconfig"@[0] == 'f');
        assert("nginx_gzip"@[0] == 'n');
    }
    assert("fontconfig"@ != "nginx_optimisation"@) by {
        reveal_strlit("fontconfig");
        reveal_strlit("nginx_optimisation");
        assert("fontconfig"@.len() == 10);
        assert("nginx_optimisation"@.len() == 18);
    }
    assert("fontconfig"@ != "nginx_proxy"@) by {
        reveal_strlit("fontconfig");
        reveal_strlit("nginx_proxy");
        assert("fontconfig"@.len() == 10);
        assert("nginx_proxy"@.len() == 11);
    }
    assert("fontconfig"@ != "nginx_tls"@) by {
        reveal_strlit("fontconfig");
        reveal_strlit("nginx_tls");
        assert("fontconfig"@.len() == 10);
        assert("nginx_tls"@.len() == 9);
    }
    assert("stub_ld"@ != "command_not_found"@) by {
        reveal_strlit("stub_ld");
        reveal_strlit("command_not_found");
        assert("stub_ld"@.len() == 7);
        assert("command_not_found"@.len() == 17);
    }
    assert("stub_ld"@ != "nginx_brotli"@) by {
        reveal_strlit("stub_ld");
        reveal_strlit("nginx_brotli");
        assert("stub_ld"@.len() == 7);
        assert("nginx_brotli"@.len() == 12);
    }
    assert("stub_ld"@ != "nginx_gzip"@) by {
        reveal_strlit("stub_ld");
        reveal_strlit("nginx_gzip");
        assert("stub_ld"@.len() == 7);
        assert("nginx_gzip"@.len() == 10);
    }
    assert("stub_ld"@ != "nginx_optimisation"@) by {
        reveal_strlit("stub_ld");
        reveal_strlit("nginx_optimisation");
        assert("stub_ld"@.len() == 7);
        assert("nginx_optimisation"@.len() == 18);
    }
    assert("stub_ld"@ != "nginx_proxy"@) by {
        reveal_strlit("stub_ld");
        reveal_strlit("nginx_proxy");
        assert("stub_ld"@.len() == 7);
        assert("nginx_proxy"@.len() == 11);
    }
    assert("stub_ld"@ != "nginx_tls"@) by {
        reveal_strlit("stub_ld");
        reveal_strlit("nginx_tls");
        assert("stub_ld"@.len() == 7);
        assert("nginx_tls"@.len() == 9);
    }
    assert("command_not_found"@ != "nginx_brotli"@) by {
        reveal_strlit("command_not_found");
        reveal_strlit("nginx_brotli");
        assert("command_not_found"@.len() == 17);
        assert("nginx_brotli"@.len() == 12);
    }
    assert("command_not_found"@ != "nginx_gzip"@) by {
        reveal_strlit("command_not_found");
        reveal_strlit("nginx_gzip");
        assert("command_not_found"@.len() == 17);
        assert("nginx_gzip"@.len() == 10);
    }
    assert("command_not_found"@ != "nginx_optimisation"@) by {
        reveal_strlit("command_not_found");
        reveal_strlit("nginx_optimisation");
        assert("command_not_found"@.len() == 17);
        assert("nginx_optimisation"@.len() == 18);
    }
    assert("command_not_found"@ != "nginx_proxy"@) by {
        reveal_strlit("command_not_found");
        reveal_strlit("nginx_proxy");
        assert("command_not_found"@.len() == 17);
        assert("nginx_proxy"@.len() == 11);
    }
    assert("command_not_found"@ != "nginx_tls"@) by {
        reveal_strlit("command_not_found");
        reveal_strlit("nginx_tls");
        assert("command_not_found"@.len() == 17);
        assert("nginx_tls"@.len() == 9);
    }
    assert("nginx_brotli"@ != "nginx_gzip"@) by {
        reveal_strlit("nginx_brotli");
        reveal_strlit("nginx_gzip");
        assert("nginx_brotli"@.len() == 12);
        assert("nginx_gzip"@.len() == 10);
    }
    assert("nginx_brotli"@ != "nginx_optimisation"@) by {
        reveal_strlit("nginx_brotli");
        reveal_strlit("nginx_optimisation");
        assert("nginx_brotli"@.len() == 12);
        assert("nginx_optimisation"@.len() == 18);
    }
    assert("nginx_brotli"@ != "nginx_proxy"@) by {
        reveal_strlit("nginx_brotli");
        reveal_strlit("nginx_proxy");
        assert("nginx_brotli"@.len() == 12);
        assert("nginx_proxy"@.len() == 11);
    }
    assert("nginx_brotli"@ != "nginx_tls"@) by {
        reveal_strlit("nginx_brotli");
        reveal_strlit("nginx_tls");
        assert("nginx_brotli"@.len() == 12);
        assert("nginx_tls"@.len() == 9);
    }
    assert("nginx_gzip"@ != "nginx_optimisation"@) by {
        reveal_strlit("nginx_gzip");
        reveal_strlit("nginx_optimisation");
        assert("nginx_gzip"@.len() == 10);
        assert("nginx_optimisation"@.len() == 18);
    }
    assert("nginx_gzip"@ != "nginx_proxy"@) by {
        reveal_strlit("nginx_gzip");
        reveal_strlit("nginx_proxy");
        assert("nginx_gzip"@.len() == 10);
        assert("nginx_proxy"@.len() == 11);
    }
    assert("nginx_gzip"@ != "nginx_tls"@) by {
        reveal_strlit("nginx_gzip");
        reveal_strlit("nginx_tls");
        assert("nginx_gzip"@.len() == 10);
        assert("nginx_tls"@.len() == 9);
    }
    assert("nginx_optimisation"@ != "nginx_proxy"@) by {
        reveal_strlit("nginx_optimisation");
        reveal_strlit("nginx_proxy");
        assert("nginx_optimisation"@.len() == 18);
        assert("nginx_proxy"@.len() == 11);
    }
    assert("nginx_optimisation"@ != "nginx_tls"@) by {
        reveal_strlit("nginx_optimisation");
        reveal_strlit("nginx_tls");
        assert("nginx_optimisation"@.len() == 18);
        assert("nginx_tls"@.len() == 9);
    }
    assert("nginx_proxy"@ != "nginx_tls"@) by {
        reveal_strlit("nginx_proxy");
        reveal_strlit("nginx_tls");
        assert("nginx_proxy"@.len() == 11);
        assert("nginx_tls"@.len() == 9);
    }
}

} // verus!
