//! Policy-check engine and deployment orchestration for flake-based NixOS
//! fleets: a fixed catalog of configuration checks with an ignore/suppression
//! store, flake reference parsing, remote command construction, status
//! parsing, and the batch deployment planning logic.

pub mod configcheck;
pub mod deploy;
pub mod flakeref;
pub mod ignore;
pub mod nixcommands;
pub mod nixosattributes;
pub mod sshkeys;
pub mod strutil;
pub mod userinfo;

pub use configcheck::{
    get_standard_checks, run_all_checks, run_system_checks, Check, CheckError, CheckGroup,
    CheckGroupResult, CheckKind, CheckResult,
};
pub use deploy::{
    classify_target, deploy_summary, effective_ignores, pipeline_actions, pipeline_outcome,
    plan_deployment, should_reboot, BuildClass, DeployPlan, DeployTarget, PipelineAction,
    PlanError,
};
pub use flakeref::{parse_flake_reference, FlakeReference, ParseError};
pub use ignore::{
    merge_ignore_maps, parse_ignore_string, IgnoreMap, IgnoreStore, ParseIgnoreError,
};
pub use nixcommands::{
    activate_profile, build_remote_command, check_system_status, copy_to_host, parse_builders,
    realise_drv_remotely, realise_toplevel_output_paths, reboot_host, step_outcome,
    switch_to_configuration, NixError, RemoteBuilder, SystemStatus,
};
pub use nixosattributes::{ConfigInfo, NixUser};
pub use sshkeys::SshKeyInfo;
pub use userinfo::UserInfo;
