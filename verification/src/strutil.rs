//! Small verified string utilities: searching, splitting, trimming,
//! whitespace tokenizing, and decimal conversion, all specified over
//! character sequences.

use vstd::prelude::*;
use vstd::string::StringExecFns;

verus! {

broadcast use vstd::string::group_string_axioms;

/// ASCII whitespace, the separators recognized by the tokenizer.
pub open spec fn is_ws_char(c: char) -> bool {
    c == ' ' || c == '\t' || c == '\n' || c == '\r'
}

pub fn is_ws(c: char) -> (r: bool)
    ensures
        r == is_ws_char(c),
{
    c == ' ' || c == '\t' || c == '\n' || c == '\r'
}

/// Index of the first character of `s` that occurs in `seps`, or `-1`.
pub open spec fn find_first_of(s: Seq<char>, seps: Seq<char>) -> int
    decreases s.len(),
{
    if s.len() == 0 {
        -1
    } else if seps.contains(s[0]) {
        0
    } else {
        let r = find_first_of(s.drop_first(), seps);
        if r < 0 {
            -1
        } else {
            r + 1
        }
    }
}

pub proof fn lemma_find_first_of(s: Seq<char>, seps: Seq<char>)
    ensures
        find_first_of(s, seps) < 0 ==> forall|i: int|
            0 <= i < s.len() ==> !seps.contains(#[trigger] s[i]),
        find_first_of(s, seps) >= 0 ==> {
            &&& find_first_of(s, seps) < s.len()
            &&& seps.contains(s[find_first_of(s, seps)])
            &&& forall|i: int| 0 <= i < find_first_of(s, seps) ==> !seps.contains(#[trigger] s[i])
        },
    decreases s.len(),
{
    if s.len() > 0 && !seps.contains(s[0]) {
        lemma_find_first_of(s.drop_first(), seps);
        let r = find_first_of(s.drop_first(), seps);
        if r >= 0 {
            assert forall|i: int| 0 <= i < r + 1 implies !seps.contains(#[trigger] s[i]) by {
                if i > 0 {
                    assert(!seps.contains(s.drop_first()[i - 1]));
                }
            }
        } else {
            assert forall|i: int| 0 <= i < s.len() implies !seps.contains(#[trigger] s[i]) by {
                if i > 0 {
                    assert(!seps.contains(s.drop_first()[i - 1]));
                }
            }
        }
    }
}

pub fn char_in(seps: &Vec<char>, c: char) -> (r: bool)
    ensures
        r == seps@.contains(c),
{
    let mut i: usize = 0;
    while i < seps.len()
        invariant
            i <= seps@.len(),
            forall|j: int| 0 <= j < i ==> seps@[j] != c,
        decreases seps@.len() - i,
    {
        if seps[i] == c {
            return true;
        }
        i += 1;
    }
    false
}

/// First index of a separator character in `s`, tied to the specification
/// `find_first_of`.
pub fn find_first_of_exec(s: &str, seps: &Vec<char>) -> (r: Option<usize>)
    ensures
        match r {
            Some(i) => {
                &&& i == find_first_of(s@, seps@)
                &&& i < s@.len()
                &&& seps@.contains(s@[i as int])
            },
            None => find_first_of(s@, seps@) < 0,
        },
{
    proof {
        lemma_find_first_of(s@, seps@);
    }
    let n = s.unicode_len();
    let mut i: usize = 0;
    while i < n
        invariant
            n == s@.len(),
            i <= n,
            forall|j: int| 0 <= j < i ==> !seps@.contains(#[trigger] s@[j]),
        decreases n - i,
    {
        if char_in(seps, s.get_char(i)) {
            proof {
                lemma_find_first_of(s@, seps@);
            }
            return Some(i);
        }
        i += 1;
    }
    None
}

/// Splits `s` at every character that occurs in `seps`; separators are
/// dropped and empty segments kept, so the result never has fewer than one
/// segment.
pub open spec fn split_first_of_spec(s: Seq<char>, seps: Seq<char>) -> Seq<Seq<char>>
    decreases s.len(),
{
    let f = find_first_of(s, seps);
    if f < 0 {
        seq![s]
    } else {
        proof {
            lemma_find_first_of(s, seps);
        }
        seq![s.take(f)] + split_first_of_spec(s.skip(f + 1), seps)
    }
}

pub fn split_first_of(s: &str, seps: &Vec<char>) -> (r: Vec<String>)
    ensures
        r.deep_view() == split_first_of_spec(s@, seps@),
    decreases s@.len(),
{
    let n = s.unicode_len();
    match find_first_of_exec(s, seps) {
        None => {
            let mut out: Vec<String> = Vec::new();
            out.push(s.to_owned());
            proof {
                assert(out.deep_view() =~~= split_first_of_spec(s@, seps@));
            }
            out
        },
        Some(i) => {
            let head = s.substring_char(0, i).to_owned();
            let tail = s.substring_char(i + 1, n);
            let mut rest = split_first_of(tail, seps);
            let mut out: Vec<String> = Vec::new();
            out.push(head);
            out.append(&mut rest);
            proof {
                assert(head@ =~= s@.take(i as int));
                assert(tail@ =~= s@.skip(i + 1));
                assert(out.deep_view() =~~= split_first_of_spec(s@, seps@));
            }
            out
        },
    }
}

/// The separator set of the whitespace tokenizer.
pub open spec fn ws_chars() -> Seq<char> {
    seq![' ', '\t', '\n', '\r']
}

pub fn ws_chars_vec() -> (r: Vec<char>)
    ensures
        r@ == ws_chars(),
{
    let mut v: Vec<char> = Vec::new();
    v.push(' ');
    v.push('\t');
    v.push('\n');
    v.push('\r');
    proof {
        assert(v@ =~= ws_chars());
    }
    v
}

/// The whitespace-separated tokens of `s`, in order, without empties.
pub open spec fn tokens_spec(s: Seq<char>) -> Seq<Seq<char>> {
    split_first_of_spec(s, ws_chars()).filter(|t: Seq<char>| t.len() != 0)
}

/// Filtering commutes with appending one element.
pub proof fn lemma_filter_push<A>(xs: Seq<A>, x: A, pred: spec_fn(A) -> bool)
    ensures
        xs.push(x).filter(pred) == if pred(x) {
            xs.filter(pred).push(x)
        } else {
            xs.filter(pred)
        },
{
    reveal(Seq::filter);
    assert(xs.push(x).drop_last() =~= xs);
    assert(xs.push(x).last() == x);
}

pub fn tokens(s: &str) -> (r: Vec<String>)
    ensures
        r.deep_view() == tokens_spec(s@),
{
    broadcast use vstd::seq_lib::group_seq_lib_default;

    let seps = ws_chars_vec();
    let raw = split_first_of(s, &seps);
    let ghost rawv = raw.deep_view();
    let mut out: Vec<String> = Vec::new();
    let mut i: usize = 0;
    proof {
        reveal(Seq::filter);
        assert(out.deep_view() =~~= rawv.take(0).filter(|t: Seq<char>| t.len() != 0));
    }
    while i < raw.len()
        invariant
            rawv == raw.deep_view(),
            i <= raw@.len(),
            rawv.len() == raw@.len(),
            out.deep_view() == rawv.take(i as int).filter(|t: Seq<char>| t.len() != 0),
        decreases raw@.len() - i,
    {
        proof {
            assert(rawv.take(i + 1) =~= rawv.take(i as int).push(rawv[i as int]));
            lemma_filter_push(rawv.take(i as int), rawv[i as int], |t: Seq<char>| t.len() != 0);
            assert(rawv[i as int] == raw@[i as int]@);
        }
        let ghost prev = out.deep_view();
        if !raw[i].as_str().is_empty() {
            let t = raw[i].clone();
            out.push(t);
            proof {
                assert(out.deep_view() =~~= prev.push(rawv[i as int]));
                assert(out.deep_view() =~~= rawv.take(i + 1).filter(|t: Seq<char>| t.len() != 0));
            }
        } else {
            proof {
                assert(out.deep_view() =~~= rawv.take(i + 1).filter(|t: Seq<char>| t.len() != 0));
            }
        }
        i += 1;
    }
    proof {
        assert(rawv.take(rawv.len() as int) =~= rawv);
    }
    out
}

/// Number of leading whitespace characters of `s`.
pub open spec fn lead_ws(s: Seq<char>) -> nat
    decreases s.len(),
{
    if s.len() == 0 {
        0
    } else if is_ws_char(s[0]) {
        1 + lead_ws(s.drop_first())
    } else {
        0
    }
}

/// Number of trailing whitespace characters of `s`.
pub open spec fn tail_ws(s: Seq<char>) -> nat
    decreases s.len(),
{
    if s.len() == 0 {
        0
    } else if is_ws_char(s.last()) {
        1 + tail_ws(s.drop_last())
    } else {
        0
    }
}

pub proof fn lemma_lead_ws(s: Seq<char>)
    ensures
        lead_ws(s) <= s.len(),
        forall|i: int| 0 <= i < lead_ws(s) ==> is_ws_char(#[trigger] s[i]),
        lead_ws(s) < s.len() ==> !is_ws_char(s[lead_ws(s) as int]),
    decreases s.len(),
{
    if s.len() > 0 && is_ws_char(s[0]) {
        lemma_lead_ws(s.drop_first());
        assert forall|i: int| 0 <= i < lead_ws(s) implies is_ws_char(#[trigger] s[i]) by {
            if i > 0 {
                assert(is_ws_char(s.drop_first()[i - 1]));
            }
        }
    }
}

pub proof fn lemma_tail_ws(s: Seq<char>)
    ensures
        tail_ws(s) <= s.len(),
        forall|i: int| s.len() - tail_ws(s) <= i < s.len() ==> is_ws_char(#[trigger] s[i]),
        tail_ws(s) < s.len() ==> !is_ws_char(s[s.len() - tail_ws(s) - 1]),
    decreases s.len(),
{
    if s.len() > 0 && is_ws_char(s.last()) {
        lemma_tail_ws(s.drop_last());
        assert forall|i: int| s.len() - tail_ws(s) <= i < s.len() implies is_ws_char(
            #[trigger] s[i],
        ) by {
            if i < s.len() - 1 {
                assert(is_ws_char(s.drop_last()[i]));
            }
        }
    }
}

/// `s` with leading and trailing whitespace removed.
pub open spec fn trim_spec(s: Seq<char>) -> Seq<char> {
    if lead_ws(s) == s.len() {
        Seq::empty()
    } else {
        s.subrange(lead_ws(s) as int, s.len() - tail_ws(s))
    }
}

pub fn trim<'a>(s: &'a str) -> (r: &'a str)
    ensures
        r@ == trim_spec(s@),
{
    proof {
        lemma_lead_ws(s@);
        lemma_tail_ws(s@);
    }
    let n = s.unicode_len();
    let mut a: usize = 0;
    while a < n && is_ws(s.get_char(a))
        invariant
            n == s@.len(),
            a <= n,
            forall|i: int| 0 <= i < a ==> is_ws_char(#[trigger] s@[i]),
        decreases n - a,
    {
        a += 1;
    }
    if a == n {
        proof {
            if lead_ws(s@) < s@.len() {
                assert(is_ws_char(s@[lead_ws(s@) as int]));
            }
        }
        return s.substring_char(n, n);
    }
    proof {
        // a is the first non-whitespace index, so it equals lead_ws(s@)
        if lead_ws(s@) < a {
            assert(is_ws_char(s@[lead_ws(s@) as int]));
        }
        if a < lead_ws(s@) {
            assert(is_ws_char(s@[a as int]));
        }
    }
    let mut b: usize = n;
    while b > a && is_ws(s.get_char(b - 1))
        invariant
            n == s@.len(),
            a <= b <= n,
            a < n,
            !is_ws_char(s@[a as int]),
            forall|i: int| b <= i < n ==> is_ws_char(#[trigger] s@[i]),
        decreases b,
    {
        b -= 1;
    }
    proof {
        // b is one past the last non-whitespace index, so n - b == tail_ws(s@)
        assert(!is_ws_char(s@[b - 1]));
        if s@.len() - tail_ws(s@) < b {
            assert(is_ws_char(s@[b - 1]));
        }
        if b < s@.len() - tail_ws(s@) {
            assert(is_ws_char(s@[s@.len() - tail_ws(s@) - 1]));
        }
    }
    s.substring_char(a, b)
}

/// Character-for-character equality of two strings.
pub fn str_eq(a: &str, b: &str) -> (r: bool)
    ensures
        r == (a@ == b@),
{
    let na = a.unicode_len();
    let nb = b.unicode_len();
    if na != nb {
        return false;
    }
    let mut i: usize = 0;
    while i < na
        invariant
            na == a@.len(),
            na == b@.len(),
            i <= na,
            forall|j: int| 0 <= j < i ==> a@[j] == b@[j],
        decreases na - i,
    {
        if a.get_char(i) != b.get_char(i) {
            return false;
        }
        i += 1;
    }
    proof {
        assert(a@ =~= b@);
    }
    true
}

/// True when `p` is a prefix of `s`.
pub fn starts_with(s: &str, p: &str) -> (r: bool)
    ensures
        r == p@.is_prefix_of(s@),
{
    let ns = s.unicode_len();
    let np = p.unicode_len();
    if np > ns {
        return false;
    }
    let mut i: usize = 0;
    while i < np
        invariant
            ns == s@.len(),
            np == p@.len(),
            np <= ns,
            i <= np,
            forall|j: int| 0 <= j < i ==> s@[j] == p@[j],
        decreases np - i,
    {
        if s.get_char(i) != p.get_char(i) {
            proof {
                assert(s@.subrange(0, np as int)[i as int] != p@[i as int]);
            }
            return false;
        }
        i += 1;
    }
    proof {
        assert(p@ =~= s@.subrange(0, np as int));
    }
    true
}

/// True when `needle` occurs contiguously inside `hay`.
pub open spec fn contains_seq(hay: Seq<char>, needle: Seq<char>) -> bool {
    exists|i: int|
        0 <= i <= hay.len() - needle.len() && #[trigger] hay.subrange(i, i + needle.len())
            == needle
}

pub fn contains_substr(hay: &str, needle: &str) -> (r: bool)
    ensures
        r == contains_seq(hay@, needle@),
{
    let nh = hay.unicode_len();
    let nn = needle.unicode_len();
    if nn > nh {
        return false;
    }
    if nn == 0 {
        proof {
            let z: int = 0;
            assert(hay@.subrange(z, z + needle@.len()) =~= needle@);
        }
        return true;
    }
    let limit = nh - nn;
    let mut i: usize = 0;
    while i <= limit
        invariant
            nh == hay@.len(),
            nn == needle@.len(),
            0 < nn <= nh,
            limit == nh - nn,
            i <= limit + 1,
            forall|k: int| 0 <= k < i ==> #[trigger] hay@.subrange(k, k + nn) != needle@,
        decreases limit + 1 - i,
    {
        let mut j: usize = 0;
        let mut same = true;
        while same && j < nn
            invariant
                nh == hay@.len(),
                nn == needle@.len(),
                i + nn <= nh,
                j <= nn,
                same ==> forall|k: int| 0 <= k < j ==> hay@[i + k] == needle@[k],
                !same ==> hay@.subrange(i as int, i + nn) != needle@,
            decreases nn - j, if same { 1int } else { 0int },
        {
            if hay.get_char(i + j) != needle.get_char(j) {
                proof {
                    assert(hay@.subrange(i as int, i + nn)[j as int] == hay@[i + j]);
                }
                same = false;
            } else {
                j += 1;
            }
        }
        if same {
            proof {
                assert(hay@.subrange(i as int, i + nn) =~= needle@);
            }
            return true;
        }
        i += 1;
    }
    false
}

/// The lines of `s`: segments between `'\n'` characters, a final empty
/// segment dropped, and a trailing `'\r'` stripped from each line.
pub open spec fn strip_cr(l: Seq<char>) -> Seq<char> {
    if l.len() > 0 && l.last() == '\r' {
        l.drop_last()
    } else {
        l
    }
}

pub open spec fn lines_spec(s: Seq<char>) -> Seq<Seq<char>> {
    let raw = split_first_of_spec(s, seq!['\n']);
    let body = if raw.len() > 0 && raw.last().len() == 0 {
        raw.drop_last()
    } else {
        raw
    };
    body.map_values(|l: Seq<char>| strip_cr(l))
}

pub fn lines(s: &str) -> (r: Vec<String>)
    ensures
        r.deep_view() == lines_spec(s@),
{
    let mut seps: Vec<char> = Vec::new();
    seps.push('\n');
    proof {
        assert(seps@ =~= seq!['\n']);
    }
    let mut raw = split_first_of(s, &seps);
    let ghost rawv = raw.deep_view();
    if raw.len() > 0 && raw[raw.len() - 1].as_str().is_empty() {
        let _ = raw.pop();
        proof {
            assert(raw.deep_view() =~~= rawv.drop_last());
        }
    }
    let ghost bodyv = raw.deep_view();
    let n = raw.len();
    let mut out: Vec<String> = Vec::new();
    let mut i: usize = 0;
    while i < n
        invariant
            n == raw@.len(),
            bodyv == raw.deep_view(),
            bodyv.len() == n,
            i <= n,
            out.deep_view() == bodyv.take(i as int).map_values(|l: Seq<char>| strip_cr(l)),
        decreases n - i,
    {
        let line = &raw[i];
        let ln = line.as_str().unicode_len();
        let stripped: String = if ln > 0 && line.as_str().get_char(ln - 1) == '\r' {
            line.as_str().substring_char(0, ln - 1).to_owned()
        } else {
            line.clone()
        };
        proof {
            assert(stripped@ =~= strip_cr(bodyv[i as int]));
        }
        out.push(stripped);
        proof {
            assert(bodyv.take(i + 1) =~= bodyv.take(i as int).push(bodyv[i as int]));
            assert(bodyv.take(i as int).push(bodyv[i as int]).map_values(
                |l: Seq<char>| strip_cr(l),
            ) =~~= bodyv.take(i as int).map_values(|l: Seq<char>| strip_cr(l)).push(
                strip_cr(bodyv[i as int]),
            ));
            assert(out.deep_view() =~~= bodyv.take(i + 1).map_values(
                |l: Seq<char>| strip_cr(l),
            ));
        }
        i += 1;
    }
    proof {
        assert(bodyv.take(n as int) =~= bodyv);
        assert(out.deep_view() =~~= lines_spec(s@));
    }
    out
}


/// A decimal digit.
pub open spec fn is_digit_char(c: char) -> bool {
    48 <= c as u32 <= 57
}

pub open spec fn digit_val(c: char) -> nat {
    (c as u32 - 48) as nat
}

pub open spec fn all_digits(s: Seq<char>) -> bool {
    forall|i: int| 0 <= i < s.len() ==> is_digit_char(#[trigger] s[i])
}

/// The value of a digit string, most significant digit first.
pub open spec fn digits_val(s: Seq<char>) -> nat
    decreases s.len(),
{
    if s.len() == 0 {
        0
    } else {
        digits_val(s.drop_last()) * 10 + digit_val(s.last())
    }
}

proof fn lemma_digits_val_prefix(s: Seq<char>, k: int)
    requires
        0 <= k <= s.len(),
    ensures
        digits_val(s.take(k)) <= digits_val(s),
    decreases s.len(),
{
    if k < s.len() {
        assert(s.drop_last().take(k) =~= s.take(k));
        lemma_digits_val_prefix(s.drop_last(), k);
    } else {
        assert(s.take(k) =~= s);
    }
}

/// Parses a non-empty all-digit string as a decimal `u64`; anything else,
/// and any value over `u64::MAX`, is `None`.
pub fn parse_u64_dec(s: &str) -> (r: Option<u64>)
    ensures
        match r {
            Some(v) => all_digits(s@) && s@.len() > 0 && v == digits_val(s@),
            None => !(all_digits(s@) && s@.len() > 0 && digits_val(s@) <= u64::MAX),
        },
{
    let n = s.unicode_len();
    if n == 0 {
        return None;
    }
    let mut acc: u64 = 0;
    let mut i: usize = 0;
    while i < n
        invariant
            n == s@.len(),
            i <= n,
            all_digits(s@.take(i as int)),
            acc == digits_val(s@.take(i as int)),
        decreases n - i,
    {
        let c = s.get_char(i);
        let code = c as u32;
        if code < 48 || code > 57 {
            return None;
        }
        let d: u64 = (code - 48) as u64;
        proof {
            assert(s@.take(i + 1).drop_last() =~= s@.take(i as int));
            assert(s@.take(i + 1).last() == s@[i as int]);
        }
        let m = match acc.checked_mul(10) {
            Some(m) => m,
            None => {
                proof {
                    lemma_digits_val_prefix(s@, i + 1);
                }
                return None;
            },
        };
        acc = match m.checked_add(d) {
            Some(v) => v,
            None => {
                proof {
                    lemma_digits_val_prefix(s@, i + 1);
                }
                return None;
            },
        };
        i += 1;
    }
    proof {
        assert(s@.take(n as int) =~= s@);
    }
    Some(acc)
}

/// Parses a non-empty all-digit string as a decimal `usize`.
pub fn parse_usize_dec(s: &str) -> (r: Option<usize>)
    ensures
        match r {
            Some(v) => all_digits(s@) && s@.len() > 0 && v == digits_val(s@),
            None => !(all_digits(s@) && s@.len() > 0 && digits_val(s@) <= usize::MAX),
        },
{
    let n = s.unicode_len();
    if n == 0 {
        return None;
    }
    let mut acc: usize = 0;
    let mut i: usize = 0;
    while i < n
        invariant
            n == s@.len(),
            i <= n,
            all_digits(s@.take(i as int)),
            acc == digits_val(s@.take(i as int)),
        decreases n - i,
    {
        let c = s.get_char(i);
        let code = c as u32;
        if code < 48 || code > 57 {
            return None;
        }
        let d: usize = (code - 48) as usize;
        proof {
            assert(s@.take(i + 1).drop_last() =~= s@.take(i as int));
            assert(s@.take(i + 1).last() == s@[i as int]);
        }
        let m = match acc.checked_mul(10) {
            Some(m) => m,
            None => {
                proof {
                    lemma_digits_val_prefix(s@, i + 1);
                }
                return None;
            },
        };
        acc = match m.checked_add(d) {
            Some(v) => v,
            None => {
                proof {
                    lemma_digits_val_prefix(s@, i + 1);
                }
                return None;
            },
        };
        i += 1;
    }
    proof {
        assert(s@.take(n as int) =~= s@);
    }
    Some(acc)
}

/// The character of one decimal digit.
pub open spec fn digit_char(d: nat) -> char {
    ((48 + d) as u8) as char
}

/// The decimal rendering of `n`, most significant digit first.
pub open spec fn dec_spec(n: nat) -> Seq<char>
    decreases n,
{
    if n < 10 {
        seq![digit_char(n)]
    } else {
        dec_spec(n / 10).push(digit_char(n % 10))
    }
}

fn digit_str(d: u64) -> (r: &'static str)
    requires
        d < 10,
    ensures
        r@ == seq![digit_char(d as nat)],
{
    proof {
        reveal_strlit("0");
        reveal_strlit("1");
        reveal_strlit("2");
        reveal_strlit("3");
        reveal_strlit("4");
        reveal_strlit("5");
        reveal_strlit("6");
        reveal_strlit("7");
        reveal_strlit("8");
        reveal_strlit("9");
    }
    match d {
        0 => "0",
        1 => "1",
        2 => "2",
        3 => "3",
        4 => "4",
        5 => "5",
        6 => "6",
        7 => "7",
        8 => "8",
        _ => "9",
    }
}

/// Renders `n` in decimal.
pub fn u64_to_dec(n: u64) -> (r: String)
    ensures
        r@ == dec_spec(n as nat),
    decreases n,
{
    if n < 10 {
        digit_str(n).to_owned()
    } else {
        let mut s = u64_to_dec(n / 10);
        s.append(digit_str(n % 10));
        proof {
            assert(s@ =~= dec_spec((n / 10) as nat).push(digit_char((n % 10) as nat)));
        }
        s
    }
}


/// Membership of `x` among a vector of strings, compared by characters.
pub fn contains_string(v: &Vec<String>, x: &str) -> (r: bool)
    ensures
        r == v.deep_view().contains(x@),
{
    let mut i: usize = 0;
    while i < v.len()
        invariant
            i <= v@.len(),
            forall|j: int| 0 <= j < i ==> v.deep_view()[j] != x@,
        decreases v@.len() - i,
    {
        if str_eq(v[i].as_str(), x) {
            proof {
                assert(v.deep_view()[i as int] == x@);
            }
            return true;
        }
        i += 1;
    }
    proof {
        if v.deep_view().contains(x@) {
            let j = choose|j: int| 0 <= j < v.deep_view().len() && v.deep_view()[j] == x@;
            assert(v.deep_view()[j] != x@);
        }
    }
    false
}

} // verus!
