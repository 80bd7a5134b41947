//! The configuration snapshot of one target machine: host identity, declared
//! users, and the named settings that the policy checks read. Produced once
//! per evaluation by the external evaluator and never mutated.

use crate::sshkeys::SshKeyInfo;
use vstd::prelude::*;

verus! {

/// One declared (normal) user of a target configuration.
#[derive(Debug)]
pub struct NixUser {
    pub name: String,
    pub extra_groups: Vec<String>,
    pub ssh_keys: Vec<SshKeyInfo>,
}

/// A read-only snapshot of one machine's declared configuration.
#[derive(Debug)]
pub struct ConfigInfo {
    pub amd_microcode: bool,
    pub boot_grub: bool,
    pub boot_grub_generations: Option<i32>,
    pub boot_is_container: bool,
    pub boot_systemd: bool,
    pub boot_systemd_generations: Option<i32>,
    pub command_not_found: bool,
    pub doc_dev_enable: bool,
    pub doc_doc_enable: bool,
    pub doc_enable: bool,
    pub doc_info_enable: bool,
    pub doc_man_enable: bool,
    pub doc_nixos_enabled: bool,
    pub font_fontconfig_enable: bool,
    pub fqdn: Option<String>,
    pub fqdn_or_host_name: String,
    pub host_name: String,
    pub intel_microcode: bool,
    pub is_x86: bool,
    pub log_refused_connections: bool,
    pub networking_firewall_enabled: bool,
    pub nginx_brotli: bool,
    pub nginx_enabled: bool,
    pub nginx_gzip: bool,
    pub nginx_optimisation: bool,
    pub nginx_proxy: bool,
    pub nginx_tls: bool,
    pub nix_auto_optimise_store: bool,
    pub nix_extra_options: String,
    pub nix_gc: bool,
    pub nix_optimise_automatic: bool,
    pub nix_settings_experimental_features: String,
    pub nix_trusts_wheel: bool,
    pub ssh_enabled: bool,
    pub ssh_password_authentication: bool,
    pub stub_ld: bool,
    pub sudo_enabled: bool,
    pub sudo_wheel_only: bool,
    pub system: String,
    pub toplevel_drv: String,
    pub toplevel_out: String,
    pub users: Vec<NixUser>,
    pub users_mutable: bool,
    pub wheel_needs_password: bool,
}

} // verus!
