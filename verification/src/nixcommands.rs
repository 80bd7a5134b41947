//! Command lines for the external builder/activator, and the parsers for
//! their outputs. Every function here only computes: it builds the exact
//! argument vector for a deployment action, or interprets the text a
//! diagnostic command produced. Running the commands is the caller's
//! business.

use crate::flakeref::FlakeReference;
use crate::strutil::{
    all_digits, digits_val, find_first_of, lines, lines_spec, parse_u64_dec, parse_usize_dec,
    split_first_of, split_first_of_spec, tokens, tokens_spec, trim, trim_spec,
};
use vstd::prelude::*;
use vstd::string::StringExecFns;

verus! {

broadcast use vstd::string::group_string_axioms;

/// What went wrong talking to the external evaluator, builder or host.
#[derive(Debug)]
pub enum NixError {
    Eval(String),
    Build,
    ConfigSwitch,
    ProfileSet,
    Deserialization,
    Copy,
}

impl Clone for NixError {
    fn clone(&self) -> (r: Self)
        ensures
            r == *self,
    {
        match self {
            NixError::Eval(msg) => NixError::Eval(msg.clone()),
            NixError::Build => NixError::Build,
            NixError::ConfigSwitch => NixError::ConfigSwitch,
            NixError::ProfileSet => NixError::ProfileSet,
            NixError::Deserialization => NixError::Deserialization,
            NixError::Copy => NixError::Copy,
        }
    }
}

impl NixError {
    /// A human-readable description of the error.
    pub fn message(&self) -> (r: String)
        ensures
            r@ == match *self {
                NixError::Eval(msg) => "Evaluation error: "@ + msg@,
                NixError::Build => "Build failed"@,
                NixError::ConfigSwitch => "Failed to switch configuration"@,
                NixError::ProfileSet => "Failed to set profile"@,
                NixError::Deserialization => "Failed to parse output"@,
                NixError::Copy => "Failed to copy to host"@,
            },
    {
        match self {
            NixError::Eval(msg) => {
                let mut out = "Evaluation error: ".to_owned();
                out.append(msg.as_str());
                out
            },
            NixError::Build => "Build failed".to_owned(),
            NixError::ConfigSwitch => "Failed to switch configuration".to_owned(),
            NixError::ProfileSet => "Failed to set profile".to_owned(),
            NixError::Deserialization => "Failed to parse output".to_owned(),
            NixError::Copy => "Failed to copy to host".to_owned(),
        }
    }
}

/// A remote build machine the operator has configured: an SSH host and the
/// platform it builds for.
#[derive(Debug)]
pub struct RemoteBuilder {
    pub ssh_host: String,
    pub system: String,
}

/// The view of an optional host argument.
pub open spec fn opt_str_view(h: Option<&str>) -> Option<Seq<char>> {
    match h {
        Some(s) => Some(s@),
        None => None,
    }
}

/// The words that front a command run on `host` (over SSH) or locally, with
/// or without sudo.
pub open spec fn remote_prefix(host: Option<Seq<char>>, use_sudo: bool) -> Seq<Seq<char>> {
    (match host {
        Some(h) => seq!["ssh"@, h],
        None => Seq::<Seq<char>>::empty(),
    }) + (if use_sudo {
        seq!["sudo"@]
    } else {
        Seq::<Seq<char>>::empty()
    })
}

/// The `ssh <host>` / `sudo` prefix of a remote command.
pub fn build_remote_command(remote_host: Option<&str>, use_sudo: bool) -> (r: Vec<String>)
    ensures
        r.deep_view() == remote_prefix(opt_str_view(remote_host), use_sudo),
{
    let mut cmd: Vec<String> = Vec::new();
    if let Some(host) = remote_host {
        cmd.push("ssh".to_owned());
        cmd.push(host.to_owned());
    }
    if use_sudo {
        cmd.push("sudo".to_owned());
    }
    proof {
        assert(cmd.deep_view() =~~= remote_prefix(opt_str_view(remote_host), use_sudo));
    }
    cmd
}

/// The command that makes `toplevel_path` the host's system profile.
pub fn activate_profile(toplevel_path: &str, use_sudo: bool, remote_host: Option<&str>) -> (r: Vec<
    String,
>)
    ensures
        r.deep_view() == remote_prefix(opt_str_view(remote_host), use_sudo) + seq![
            "nix-env"@,
            "-p"@,
            "/nix/var/nix/profiles/system"@,
            "--set"@,
            toplevel_path@,
        ],
{
    let mut cmd = build_remote_command(remote_host, use_sudo);
    cmd.push("nix-env".to_owned());
    cmd.push("-p".to_owned());
    cmd.push("/nix/var/nix/profiles/system".to_owned());
    cmd.push("--set".to_owned());
    cmd.push(toplevel_path.to_owned());
    proof {
        assert(cmd.deep_view() =~~= remote_prefix(opt_str_view(remote_host), use_sudo) + seq![
            "nix-env"@,
            "-p"@,
            "/nix/var/nix/profiles/system"@,
            "--set"@,
            toplevel_path@,
        ]);
    }
    cmd
}

/// The command that invokes the configuration's switch entry point with
/// `command` (such as `switch`).
pub fn switch_to_configuration(
    toplevel_path: &str,
    command: &str,
    use_sudo: bool,
    remote_host: Option<&str>,
) -> (r: Vec<String>)
    ensures
        r.deep_view() == remote_prefix(opt_str_view(remote_host), use_sudo) + seq![
            toplevel_path@ + "/bin/switch-to-configuration"@,
            command@,
        ],
{
    let mut cmd = build_remote_command(remote_host, use_sudo);
    let mut switch_path = toplevel_path.to_owned();
    switch_path.append("/bin/switch-to-configuration");
    cmd.push(switch_path);
    cmd.push(command.to_owned());
    proof {
        assert(cmd.deep_view() =~~= remote_prefix(opt_str_view(remote_host), use_sudo) + seq![
            toplevel_path@ + "/bin/switch-to-configuration"@,
            command@,
        ]);
    }
    cmd
}

/// The command that copies a store path to `host`, letting the destination
/// substitute what it already has.
pub fn copy_to_host(path: &str, host: &str) -> (r: Vec<String>)
    ensures
        r.deep_view() == seq![
            "nix"@,
            "copy"@,
            "--substitute-on-destination"@,
            "--to"@,
            "ssh://"@ + host@,
            path@,
        ],
{
    let mut target = "ssh://".to_owned();
    target.append(host);
    let mut cmd: Vec<String> = Vec::new();
    cmd.push("nix".to_owned());
    cmd.push("copy".to_owned());
    cmd.push("--substitute-on-destination".to_owned());
    cmd.push("--to".to_owned());
    cmd.push(target);
    cmd.push(path.to_owned());
    proof {
        assert(cmd.deep_view() =~~= seq![
            "nix"@,
            "copy"@,
            "--substitute-on-destination"@,
            "--to"@,
            "ssh://"@ + host@,
            path@,
        ]);
    }
    cmd
}

/// The command that reboots `host`, always over SSH and with sudo.
pub fn reboot_host(host: &str) -> (r: Vec<String>)
    ensures
        r.deep_view() == remote_prefix(Some(host@), true) + seq!["systemctl"@, "reboot"@],
{
    let mut cmd = build_remote_command(Some(host), true);
    cmd.push("systemctl".to_owned());
    cmd.push("reboot".to_owned());
    proof {
        assert(cmd.deep_view() =~~= remote_prefix(Some(host@), true) + seq![
            "systemctl"@,
            "reboot"@,
        ]);
    }
    cmd
}

/// The command that has `host` realise a derivation itself.
pub fn realise_drv_remotely(drv_path: &str, host: &str) -> (r: Vec<String>)
    ensures
        r.deep_view() == seq!["ssh"@, host@, "nix-store"@, "--realise"@, drv_path@],
{
    let mut cmd: Vec<String> = Vec::new();
    cmd.push("ssh".to_owned());
    cmd.push(host.to_owned());
    cmd.push("nix-store".to_owned());
    cmd.push("--realise".to_owned());
    cmd.push(drv_path.to_owned());
    proof {
        assert(cmd.deep_view() =~~= seq!["ssh"@, host@, "nix-store"@, "--realise"@, drv_path@]);
    }
    cmd
}

/// Folds a deployment step's exit status into its outcome: a step whose
/// command did not exit successfully fails with that step's error.
pub fn step_outcome(success: bool, error: NixError) -> (r: Result<(), NixError>)
    ensures
        success ==> r is Ok,
        !success ==> r == Result::<(), NixError>::Err(error),
{
    if success {
        Ok(())
    } else {
        Err(error)
    }
}

/// The store path a remote realisation yielded: the command must have
/// succeeded and printed a non-empty path.
pub fn realise_drv_output(success: bool, stdout: &str) -> (r: Result<String, NixError>)
    ensures
        match r {
            Ok(p) => success && p@ == trim_spec(stdout@) && p@.len() > 0,
            Err(e) => (e is Build) && (!success || trim_spec(stdout@).len() == 0),
        },
{
    if !success {
        return Err(NixError::Build);
    }
    let path = trim(stdout);
    if path.is_empty() {
        return Err(NixError::Build);
    }
    Ok(path.to_owned())
}

/// The build target expression of one flake reference.
pub open spec fn toplevel_target(fr: FlakeReference) -> Seq<char> {
    fr.url@ + "#nixosConfigurations.\""@ + fr.attribute@ + "\".config.system.build.toplevel"@
}

fn toplevel_target_exec(fr: &FlakeReference) -> (r: String)
    ensures
        r@ == toplevel_target(*fr),
{
    let mut out = fr.url.clone();
    out.append("#nixosConfigurations.\"");
    out.append(fr.attribute.as_str());
    out.append("\".config.system.build.toplevel");
    out
}

/// The batched build command realising every target's output path in one
/// invocation; `use_nom` selects the `nom` front end when it is available.
pub fn realise_toplevel_output_paths(flake_references: &Vec<FlakeReference>, use_nom: bool) -> (r:
    Vec<String>)
    ensures
        r.deep_view() == (if use_nom {
            seq!["nom"@, "build"@]
        } else {
            seq!["nix"@, "build"@, "--no-link"@]
        }) + seq!["--json"@] + flake_references@.map_values(|fr: FlakeReference| toplevel_target(fr)),
{
    let mut cmd: Vec<String> = Vec::new();
    if use_nom {
        cmd.push("nom".to_owned());
        cmd.push("build".to_owned());
    } else {
        cmd.push("nix".to_owned());
        cmd.push("build".to_owned());
        cmd.push("--no-link".to_owned());
    }
    cmd.push("--json".to_owned());
    let ghost base = cmd.deep_view();
    proof {
        assert(base =~~= (if use_nom {
            seq!["nom"@, "build"@]
        } else {
            seq!["nix"@, "build"@, "--no-link"@]
        }) + seq!["--json"@] + flake_references@.take(0).map_values(
            |fr: FlakeReference| toplevel_target(fr),
        ));
    }
    let n = flake_references.len();
    let mut i: usize = 0;
    while i < n
        invariant
            n == flake_references@.len(),
            i <= n,
            cmd.deep_view() == (if use_nom {
                seq!["nom"@, "build"@]
            } else {
                seq!["nix"@, "build"@, "--no-link"@]
            }) + seq!["--json"@] + flake_references@.take(i as int).map_values(
                |fr: FlakeReference| toplevel_target(fr),
            ),
        decreases n - i,
    {
        let ghost prev = cmd.deep_view();
        let t = toplevel_target_exec(&flake_references[i]);
        cmd.push(t);
        proof {
            assert(flake_references@.take(i + 1) =~= flake_references@.take(i as int).push(
                flake_references@[i as int],
            ));
            assert(flake_references@.take(i as int).push(flake_references@[i as int]).map_values(
                |fr: FlakeReference| toplevel_target(fr),
            ) =~~= flake_references@.take(i as int).map_values(
                |fr: FlakeReference| toplevel_target(fr),
            ).push(toplevel_target(flake_references@[i as int])));
            assert(cmd.deep_view() =~~= prev.push(toplevel_target(flake_references@[i as int])));
            assert(cmd.deep_view() =~~= (if use_nom {
                seq!["nom"@, "build"@]
            } else {
                seq!["nix"@, "build"@, "--no-link"@]
            }) + seq!["--json"@] + flake_references@.take(i + 1).map_values(
                |fr: FlakeReference| toplevel_target(fr),
            ));
        }
        i += 1;
    }
    proof {
        assert(flake_references@.take(n as int) =~= flake_references@);
    }
    cmd
}

/// Pairs every discovered attribute with the flake URL it came from.
pub fn nixos_configuration_flakerefs(flake_url: &str, attributes: Vec<String>) -> (r: Vec<
    FlakeReference,
>)
    ensures
        r@.len() == attributes@.len(),
        forall|i: int|
            0 <= i < r@.len() ==> (#[trigger] r@[i]).url@ == flake_url@ && r@[i].attribute@
                == attributes.deep_view()[i],
{
    let ghost orig = attributes.deep_view();
    let mut rest = attributes;
    let mut out: Vec<FlakeReference> = Vec::new();
    while rest.len() > 0
        invariant
            out@.len() + rest@.len() == orig.len(),
            rest.deep_view() =~= orig.skip(out@.len() as int),
            forall|i: int|
                0 <= i < out@.len() ==> (#[trigger] out@[i]).url@ == flake_url@ && out@[i].attribute@
                    == orig[i],
        decreases rest@.len(),
    {
        let ghost k = out@.len() as int;
        let ghost prev = rest@;
        let ghost prevdv = rest.deep_view();
        let a = rest.remove(0);
        proof {
            assert(a@ == orig.skip(k)[0]);
            assert(orig.skip(k)[0] == orig[k]);
            assert(rest@ == prev.remove(0));
            assert forall|i: int| 0 <= i < rest@.len() implies #[trigger] rest@[i] == prev[i
                + 1] by {
                assert(prev.remove(0)[i] == prev[i + 1]);
            }
            assert(rest.deep_view() =~~= prevdv.skip(1));
            assert(prevdv.skip(1) =~~= orig.skip(k + 1));
        }
        out.push(FlakeReference { url: flake_url.to_owned(), attribute: a });
    }
    out
}

/// The whitespace token pairs of the builder segments of `segs`: segments
/// with at least two tokens contribute `(host, platform)`.
pub open spec fn builder_pairs(segs: Seq<Seq<char>>) -> Seq<(Seq<char>, Seq<char>)>
    decreases segs.len(),
{
    if segs.len() == 0 {
        Seq::empty()
    } else {
        builder_pairs(segs.drop_last()) + {
            let t = tokens_spec(segs.last());
            if t.len() >= 2 {
                seq![(t[0], t[1])]
            } else {
                Seq::empty()
            }
        }
    }
}

/// The builder records of a `builders` setting or machines file.
pub open spec fn parse_builders_spec(s: Seq<char>) -> Seq<(Seq<char>, Seq<char>)> {
    builder_pairs(split_first_of_spec(s, seq![';', '\n']))
}

pub open spec fn builders_match(bs: Seq<RemoteBuilder>, ps: Seq<(Seq<char>, Seq<char>)>) -> bool {
    &&& bs.len() == ps.len()
    &&& forall|i: int|
        0 <= i < bs.len() ==> (#[trigger] bs[i]).ssh_host@ == ps[i].0 && bs[i].system@ == ps[i].1
}

/// Parses the operator's configured remote builders: entries separated by
/// `;` or newline, each `host platform ...`, entries with fewer than two
/// fields skipped.
pub fn parse_builders(content: &str) -> (r: Vec<RemoteBuilder>)
    ensures
        builders_match(r@, parse_builders_spec(content@)),
{
    let mut seps: Vec<char> = Vec::new();
    seps.push(';');
    seps.push('\n');
    proof {
        assert(seps@ =~= seq![';', '\n']);
    }
    let segs = split_first_of(content, &seps);
    let ghost segsv = segs.deep_view();
    let mut out: Vec<RemoteBuilder> = Vec::new();
    let mut i: usize = 0;
    proof {
        assert(segsv.take(0) =~= Seq::<Seq<char>>::empty());
    }
    while i < segs.len()
        invariant
            segsv == segs.deep_view(),
            segsv.len() == segs@.len(),
            i <= segs@.len(),
            builders_match(out@, builder_pairs(segsv.take(i as int))),
        decreases segs@.len() - i,
    {
        proof {
            assert(segsv.take(i + 1).drop_last() =~= segsv.take(i as int));
            assert(segsv.take(i + 1).last() == segsv[i as int]);
            assert(segsv[i as int] == segs@[i as int]@);
        }
        let parts = tokens(segs[i].as_str());
        if parts.len() >= 2 {
            let b = RemoteBuilder { ssh_host: parts[0].clone(), system: parts[1].clone() };
            proof {
                assert(b.ssh_host@ == parts.deep_view()[0]);
                assert(b.system@ == parts.deep_view()[1]);
            }
            out.push(b);
        }
        i += 1;
    }
    proof {
        assert(segsv.take(segsv.len() as int) =~= segsv);
    }
    out
}


/// A point-in-time health observation of one host.
#[derive(Debug)]
pub enum SystemStatus {
    Unreachable,
    Reachable {
        current_generation: String,
        needs_reboot: bool,
        uptime_seconds: u64,
        failed_units: usize,
    },
}

/// The whole seconds of an uptime token: decimal digits, optionally
/// followed by `.` and further digits. Anything else carries no value.
pub open spec fn uptime_token_val(tok: Seq<char>) -> Option<nat> {
    let dot = find_first_of(tok, seq!['.']);
    if dot < 0 {
        if all_digits(tok) && tok.len() > 0 {
            Some(digits_val(tok))
        } else {
            None
        }
    } else {
        let ip = tok.take(dot);
        let fp = tok.skip(dot + 1);
        if all_digits(ip) && ip.len() > 0 && all_digits(fp) {
            Some(digits_val(ip))
        } else {
            None
        }
    }
}

/// The four fields of a healthy diagnostic report, read from its output
/// lines: generation, uptime seconds, failed unit count, reboot flag.
/// `None` when any line is missing or malformed.
pub open spec fn status_fields(out: Seq<char>) -> Option<(Seq<char>, nat, nat, bool)> {
    let ls = lines_spec(out);
    if ls.len() < 4 {
        None
    } else {
        let gen = trim_spec(ls[0]);
        let ts = tokens_spec(ls[1]);
        if gen.len() == 0 || ts.len() == 0 {
            None
        } else {
            match uptime_token_val(ts[0]) {
                None => None,
                Some(up) => {
                    if up > u64::MAX {
                        None
                    } else if !(all_digits(ls[2]) && ls[2].len() > 0 && digits_val(ls[2])
                        <= usize::MAX) {
                        None
                    } else {
                        let fu = digits_val(ls[2]);
                        if !(all_digits(ls[3]) && ls[3].len() > 0 && digits_val(ls[3])
                            <= u64::MAX) {
                            None
                        } else {
                            let rb = digits_val(ls[3]);
                            if rb == 0 {
                                Some((gen, up, fu, false))
                            } else if rb == 1 {
                                Some((gen, up, fu, true))
                            } else {
                                None
                            }
                        }
                    }
                },
            }
        }
    }
}

/// Interprets the output of the fixed diagnostic routine. A failed run or
/// any malformed line yields `Unreachable`; a `Reachable` value always has
/// every field filled from the output.
pub fn check_system_status(script_ok: bool, output: &str) -> (r: SystemStatus)
    ensures
        match r {
            SystemStatus::Unreachable => !script_ok || status_fields(output@) is None,
            SystemStatus::Reachable {
                current_generation,
                needs_reboot,
                uptime_seconds,
                failed_units,
            } => script_ok && status_fields(output@) == Some(
                (current_generation@, uptime_seconds as nat, failed_units as nat, needs_reboot),
            ),
        },
{
    if !script_ok {
        return SystemStatus::Unreachable;
    }
    let ls = lines(output);
    if ls.len() < 4 {
        return SystemStatus::Unreachable;
    }
    proof {
        assert(ls.deep_view()[0] == ls@[0]@);
        assert(ls.deep_view()[1] == ls@[1]@);
        assert(ls.deep_view()[2] == ls@[2]@);
        assert(ls.deep_view()[3] == ls@[3]@);
    }
    let gen = trim(ls[0].as_str());
    if gen.is_empty() {
        return SystemStatus::Unreachable;
    }
    let ts = tokens(ls[1].as_str());
    if ts.len() == 0 {
        return SystemStatus::Unreachable;
    }
    proof {
        assert(ts.deep_view()[0] == ts@[0]@);
    }
    let tok = &ts[0];
    let uptime_seconds: u64 = {
        let mut dotsep: Vec<char> = Vec::new();
        dotsep.push('.');
        proof {
            assert(dotsep@ =~= seq!['.']);
        }
        let n = tok.as_str().unicode_len();
        match crate::strutil::find_first_of_exec(tok.as_str(), &dotsep) {
            None => {
                match parse_u64_dec(tok.as_str()) {
                    Some(v) => v,
                    None => {
                        return SystemStatus::Unreachable;
                    },
                }
            },
            Some(d) => {
                let ip = tok.as_str().substring_char(0, d);
                let fp = tok.as_str().substring_char(d + 1, n);
                proof {
                    assert(ip@ =~= tok@.take(d as int));
                    assert(fp@ =~= tok@.skip(d + 1));
                }
                let v = match parse_u64_dec(ip) {
                    Some(v) => v,
                    None => {
                        return SystemStatus::Unreachable;
                    },
                };
                let mut j: usize = 0;
                let nf = fp.unicode_len();
                let mut frac_ok = true;
                while j < nf
                    invariant
                        nf == fp@.len(),
                        j <= nf,
                        frac_ok ==> forall|k: int|
                            0 <= k < j ==> crate::strutil::is_digit_char(#[trigger] fp@[k]),
                        !frac_ok ==> !all_digits(fp@),
                    decreases nf - j,
                {
                    let code = fp.get_char(j) as u32;
                    if code < 48 || code > 57 {
                        proof {
                            assert(!crate::strutil::is_digit_char(fp@[j as int]));
                        }
                        frac_ok = false;
                    }
                    j += 1;
                }
                if !frac_ok {
                    proof {
                        assert(!all_digits(tok@.skip(d + 1)));
                        assert(uptime_token_val(tok@) is None);
                    }
                    return SystemStatus::Unreachable;
                }
                v
            },
        }
    };
    let failed_units: usize = match parse_usize_dec(ls[2].as_str()) {
        Some(v) => v,
        None => {
            return SystemStatus::Unreachable;
        },
    };
    let needs_reboot: bool = match parse_u64_dec(ls[3].as_str()) {
        Some(0) => false,
        Some(1) => true,
        _ => {
            return SystemStatus::Unreachable;
        },
    };
    SystemStatus::Reachable {
        current_generation: gen.to_owned(),
        needs_reboot,
        uptime_seconds,
        failed_units,
    }
}

} // verus!
