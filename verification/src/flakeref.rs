//! Flake references: `source#attribute` pairs naming one machine
//! configuration, parsed from a single string with at most one `#`.

use vstd::prelude::*;
use vstd::string::StringExecFns;

verus! {

broadcast use vstd::string::group_string_axioms;

/// Names one machine configuration: a flake URL plus an attribute name.
#[derive(Debug)]
pub struct FlakeReference {
    pub url: String,
    pub attribute: String,
}

impl Clone for FlakeReference {
    fn clone(&self) -> (r: Self)
        ensures
            r == *self,
    {
        FlakeReference { url: self.url.clone(), attribute: self.attribute.clone() }
    }
}

impl PartialEq for FlakeReference {
    fn eq(&self, other: &Self) -> bool {
        self.url == other.url && self.attribute == other.attribute
    }
}

impl vstd::std_specs::cmp::PartialEqSpecImpl for FlakeReference {
    open spec fn obeys_eq_spec() -> bool {
        true
    }

    open spec fn eq_spec(&self, other: &Self) -> bool {
        self.url@ == other.url@ && self.attribute@ == other.attribute@
    }
}

#[derive(Debug, PartialEq, Eq, Structural)]
pub enum ParseError {
    MultipleHashSigns,
}

/// True when `c` occurs somewhere in `s`.
pub open spec fn has_char(s: Seq<char>, c: char) -> bool {
    exists|i: int| 0 <= i < s.len() && s[i] == c
}

/// Index of the first occurrence of `c` in `s`, or `-1` when absent.
pub open spec fn find_char(s: Seq<char>, c: char) -> int
    decreases s.len(),
{
    if s.len() == 0 {
        -1
    } else if s[0] == c {
        0
    } else {
        let r = find_char(s.drop_first(), c);
        if r < 0 {
            -1
        } else {
            r + 1
        }
    }
}

pub proof fn lemma_find_char(s: Seq<char>, c: char)
    ensures
        find_char(s, c) < 0 ==> forall|i: int| 0 <= i < s.len() ==> s[i] != c,
        find_char(s, c) >= 0 ==> {
            &&& find_char(s, c) < s.len()
            &&& s[find_char(s, c)] == c
            &&& forall|i: int| 0 <= i < find_char(s, c) ==> s[i] != c
        },
    decreases s.len(),
{
    if s.len() > 0 && s[0] != c {
        lemma_find_char(s.drop_first(), c);
        let r = find_char(s.drop_first(), c);
        if r >= 0 {
            assert forall|i: int| 0 <= i < r + 1 implies s[i] != c by {
                if i > 0 {
                    assert(s.drop_first()[i - 1] != c);
                }
            }
        } else {
            assert forall|i: int| 0 <= i < s.len() implies s[i] != c by {
                if i > 0 {
                    assert(s.drop_first()[i - 1] != c);
                }
            }
        }
    }
}

/// Parses `source#attribute`. No `#` leaves the source empty; more than one
/// `#` is an error.
pub fn parse_flake_reference(s: &str) -> (r: Result<FlakeReference, ParseError>)
    ensures
        match r {
            Ok(fr) => {
                let f = find_char(s@, '#');
                &&& (f < 0 ==> fr.url@ == Seq::<char>::empty() && fr.attribute@ == s@)
                &&& (f >= 0 ==> {
                    &&& fr.url@ == s@.take(f)
                    &&& fr.attribute@ == s@.skip(f + 1)
                    &&& !has_char(s@.skip(f + 1), '#')
                })
            },
            Err(e) => {
                let f = find_char(s@, '#');
                &&& e == ParseError::MultipleHashSigns
                &&& f >= 0
                &&& has_char(s@.skip(f + 1), '#')
            },
        },
{
    proof {
        lemma_find_char(s@, '#');
    }
    let n = s.unicode_len();
    let mut first: Option<usize> = None;
    let mut i: usize = 0;
    while first.is_none() && i < n
        invariant
            n == s@.len(),
            i <= n,
            match first {
                Some(j) => j == i && j < n && s@[j as int] == '#' && forall|k: int|
                    0 <= k < j ==> s@[k] != '#',
                None => forall|k: int| 0 <= k < i ==> s@[k] != '#',
            },
        decreases n - i, if first is Some { 0int } else { 1int },
    {
        if s.get_char(i) == '#' {
            first = Some(i);
        } else {
            i += 1;
        }
    }
    match first {
        None => Ok(FlakeReference { url: String::new(), attribute: s.to_owned() }),
        Some(f) => {
            let mut j: usize = f + 1;
            let mut second = false;
            while !second && j < n
                invariant
                    n == s@.len(),
                    f < n,
                    f + 1 <= j <= n,
                    !second ==> forall|k: int| f + 1 <= k < j ==> s@[k] != '#',
                    second ==> j < n && s@[j as int] == '#',
                decreases n - j, if second { 0int } else { 1int },
            {
                if s.get_char(j) == '#' {
                    second = true;
                } else {
                    j += 1;
                }
            }
            if second {
                proof {
                    assert(s@.skip(f + 1)[j - (f + 1)] == s@[j as int]);
                }
                Err(ParseError::MultipleHashSigns)
            } else {
                proof {
                    assert(find_char(s@, '#') == f) by {
                        lemma_find_char(s@, '#');
                    }
                    assert forall|k: int| 0 <= k < s@.skip(f + 1).len() implies #[trigger] s@.skip(
                        f + 1,
                    )[k] != '#' by {
                        assert(s@.skip(f + 1)[k] == s@[k + f + 1]);
                    }
                    assert(s@.subrange(0, f as int) =~= s@.take(f as int));
                    assert(s@.subrange(f + 1, n as int) =~= s@.skip(f + 1));
                }
                let url = s.substring_char(0, f).to_owned();
                let attribute = s.substring_char(f + 1, n).to_owned();
                Ok(FlakeReference { url, attribute })
            }
        },
    }
}

impl core::str::FromStr for FlakeReference {
    type Err = ParseError;

    fn from_str(s: &str) -> Result<Self, Self::Err> {
        parse_flake_reference(s)
    }
}

impl FlakeReference {
    /// The display form `url#attribute`.
    pub fn display_string(&self) -> (r: String)
        ensures
            r@ == self.url@ + "#"@ + self.attribute@,
    {
        let mut out = self.url.clone();
        out.append("#");
        out.append(self.attribute.as_str());
        out
    }
}

} // verus!
