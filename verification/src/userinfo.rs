//! The local operator's profile: identity, loaded SSH keys, and the build
//! platforms reachable natively or through configured remote builders.

use crate::nixcommands::RemoteBuilder;
use crate::sshkeys::SshKeyInfo;
use crate::strutil::str_eq;
use vstd::prelude::*;

verus! {

broadcast use vstd::string::group_string_axioms;

/// The operator's identity and build capabilities, collected once per
/// invocation.
#[derive(Debug)]
pub struct UserInfo {
    pub username: String,
    pub ssh_keys: Vec<SshKeyInfo>,
    pub system: String,
    pub extra_platforms: Vec<String>,
    pub remote_builders: Vec<RemoteBuilder>,
}

/// A platform the operator can produce without the target host building for
/// itself: the local platform, an extra native platform, or one of a
/// configured remote builder.
pub open spec fn can_build_natively_spec(u: UserInfo, target: Seq<char>) -> bool {
    ||| target == u.system@
    ||| exists|i: int|
        0 <= i < u.extra_platforms@.len() && (#[trigger] u.extra_platforms@[i])@ == target
    ||| exists|i: int|
        0 <= i < u.remote_builders@.len() && (#[trigger] u.remote_builders@[i]).system@ == target
}

impl UserInfo {
    /// Whether a target of platform `target_system` is locally buildable
    /// for this operator.
    pub fn can_build_natively(&self, target_system: &str) -> (r: bool)
        ensures
            r == can_build_natively_spec(*self, target_system@),
    {
        if str_eq(target_system, self.system.as_str()) {
            return true;
        }
        let mut i: usize = 0;
        while i < self.extra_platforms.len()
            invariant
                i <= self.extra_platforms@.len(),
                forall|j: int|
                    0 <= j < i ==> (#[trigger] self.extra_platforms@[j])@ != target_system@,
            decreases self.extra_platforms@.len() - i,
        {
            if str_eq(self.extra_platforms[i].as_str(), target_system) {
                return true;
            }
            i += 1;
        }
        let mut i: usize = 0;
        while i < self.remote_builders.len()
            invariant
                i <= self.remote_builders@.len(),
                forall|j: int|
                    0 <= j < i ==> (#[trigger] self.remote_builders@[j]).system@ != target_system@,
            decreases self.remote_builders@.len() - i,
        {
            if str_eq(self.remote_builders[i].system.as_str(), target_system) {
                return true;
            }
            i += 1;
        }
        false
    }
}

} // verus!
