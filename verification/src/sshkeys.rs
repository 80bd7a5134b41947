//! SSH public keys as parsed from `authorized_keys`-style lines: a key type,
//! the key material, and an optional comment. Two keys are the same key when
//! type and material agree; the comment does not count.

use crate::strutil::{lines, lines_spec, tokens, tokens_spec};
use vstd::prelude::*;
use vstd::string::StringExecFns;

verus! {

broadcast use vstd::string::group_string_axioms;

#[derive(Debug)]
pub struct SshKeyInfo {
    pub comment: String,
    pub key_type: String,
    pub key_data: String,
}

/// Key identity: type and material, ignoring the comment.
pub open spec fn key_matches(a: SshKeyInfo, b: SshKeyInfo) -> bool {
    a.key_type@ == b.key_type@ && a.key_data@ == b.key_data@
}

impl PartialEq for SshKeyInfo {
    fn eq(&self, other: &Self) -> bool {
        self.key_type == other.key_type && self.key_data == other.key_data
    }
}

impl Eq for SshKeyInfo {
}

impl vstd::std_specs::cmp::PartialEqSpecImpl for SshKeyInfo {
    open spec fn obeys_eq_spec() -> bool {
        true
    }

    open spec fn eq_spec(&self, other: &Self) -> bool {
        key_matches(*self, *other)
    }
}

impl Clone for SshKeyInfo {
    fn clone(&self) -> (r: Self)
        ensures
            r == *self,
    {
        SshKeyInfo {
            comment: self.comment.clone(),
            key_type: self.key_type.clone(),
            key_data: self.key_data.clone(),
        }
    }
}

/// What `from_authorized_key` yields on a line whose whitespace tokens are
/// `t`: the first two tokens, and the third as comment when present.
pub open spec fn authorized_key_fields(k: SshKeyInfo, t: Seq<Seq<char>>) -> bool {
    &&& t.len() >= 2
    &&& k.key_type@ == t[0]
    &&& k.key_data@ == t[1]
    &&& k.comment@ == if t.len() >= 3 {
        t[2]
    } else {
        Seq::<char>::empty()
    }
}

impl SshKeyInfo {
    /// Parses one `authorized_keys` line; lines with fewer than two
    /// whitespace-separated fields carry no key.
    pub fn from_authorized_key(key_string: &str) -> (r: Option<SshKeyInfo>)
        ensures
            match r {
                Some(k) => authorized_key_fields(k, tokens_spec(key_string@)),
                None => tokens_spec(key_string@).len() < 2,
            },
    {
        let parts = tokens(key_string);
        proof {
            assert(parts@.len() == parts.deep_view().len());
        }
        if parts.len() >= 2 {
            let comment: String = if parts.len() >= 3 {
                parts[2].clone()
            } else {
                String::new()
            };
            let k = SshKeyInfo { comment, key_type: parts[0].clone(), key_data: parts[1].clone() };
            proof {
                assert(k.key_type@ == parts.deep_view()[0]);
                assert(k.key_data@ == parts.deep_view()[1]);
            }
            Some(k)
        } else {
            None
        }
    }

    /// The display form: `type data`, with the comment appended when there
    /// is one.
    pub fn display_string(&self) -> (r: String)
        ensures
            self.comment@.len() == 0 ==> r@ == self.key_type@ + " "@ + self.key_data@,
            self.comment@.len() > 0 ==> r@ == self.key_type@ + " "@ + self.key_data@ + " "@
                + self.comment@,
    {
        let mut out = self.key_type.clone();
        out.append(" ");
        out.append(self.key_data.as_str());
        if !self.comment.as_str().is_empty() {
            out.append(" ");
            out.append(self.comment.as_str());
        }
        out
    }
}

/// `keys` are exactly the parseable keys of `ls`, in order.
pub open spec fn keys_of_lines(ls: Seq<Seq<char>>, keys: Seq<SshKeyInfo>) -> bool
    decreases ls.len(),
{
    if ls.len() == 0 {
        keys.len() == 0
    } else {
        let t = tokens_spec(ls.last());
        if t.len() >= 2 {
            &&& keys.len() > 0
            &&& authorized_key_fields(keys.last(), t)
            &&& keys_of_lines(ls.drop_last(), keys.drop_last())
        } else {
            keys_of_lines(ls.drop_last(), keys)
        }
    }
}

/// Parses every line of `output` (as from `ssh-add -L`), keeping the lines
/// that carry a key.
pub fn parse_ssh_keys(output: &str) -> (r: Vec<SshKeyInfo>)
    ensures
        keys_of_lines(lines_spec(output@), r@),
{
    let ls = lines(output);
    let ghost lsv = ls.deep_view();
    let mut out: Vec<SshKeyInfo> = Vec::new();
    let mut i: usize = 0;
    proof {
        assert(lsv.take(0) =~= Seq::<Seq<char>>::empty());
    }
    while i < ls.len()
        invariant
            lsv == ls.deep_view(),
            lsv.len() == ls@.len(),
            i <= ls@.len(),
            keys_of_lines(lsv.take(i as int), out@),
        decreases ls@.len() - i,
    {
        proof {
            assert(lsv.take(i + 1).drop_last() =~= lsv.take(i as int));
            assert(lsv.take(i + 1).last() == lsv[i as int]);
            assert(lsv[i as int] == ls@[i as int]@);
        }
        let ghost prev = out@;
        match SshKeyInfo::from_authorized_key(ls[i].as_str()) {
            Some(k) => {
                out.push(k);
                proof {
                    assert(out@.drop_last() =~= prev);
                }
            },
            None => {
            },
        }
        i += 1;
    }
    proof {
        assert(lsv.take(lsv.len() as int) =~= lsv);
    }
    out
}

} // verus!
