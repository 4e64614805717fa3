use vstd::prelude::*;
use vstd::string::StrSliceExecFns;
use vstd::string::StringExecFns;

verus! {

/// Character-for-character equality of two string slices.
pub fn str_eq(a: &str, b: &str) -> (r: bool)
    ensures
        r == (a@ == b@),
{
    let alen = a.unicode_len();
    let blen = b.unicode_len();
    if alen != blen {
        assert(a@ != b@) by {
            assert(a@.len() != b@.len());
        }
        return false;
    }
    let mut i: usize = 0;
    while i < alen
        invariant
            alen == a@.len(),
            alen == b@.len(),
            i <= alen,
            forall|j: int| 0 <= j < i ==> a@[j] == b@[j],
        decreases alen - i,
    {
        if a.get_char(i) != b.get_char(i) {
            return false;
        }
        i += 1;
    }
    assert(a@ =~= b@);
    true
}

/// True when `s` begins with `prefix`, compared character by character.
pub fn str_starts_with(s: &str, prefix: &str) -> (r: bool)
    ensures
        r == (s@.len() >= prefix@.len() && s@.subrange(0, prefix@.len() as int) == prefix@),
{
    let slen = s.unicode_len();
    let plen = prefix.unicode_len();
    if slen < plen {
        return false;
    }
    let mut i: usize = 0;
    while i < plen
        invariant
            slen == s@.len(),
            plen == prefix@.len(),
            plen <= slen,
            i <= plen,
            forall|j: int| 0 <= j < i ==> s@[j] == prefix@[j],
        decreases plen - i,
    {
        if s.get_char(i) != prefix.get_char(i) {
            assert(s@.subrange(0, plen as int)[i as int] != prefix@[i as int]);
            return false;
        }
        i += 1;
    }
    assert(s@.subrange(0, plen as int) =~= prefix@);
    true
}

/// Removes `prefix` from the front of `s` when present; otherwise returns `s`
/// unchanged.
pub fn strip_prefix_str(s: &str, prefix: &str) -> (r: String)
    ensures
        (s@.len() >= prefix@.len() && s@.subrange(0, prefix@.len() as int) == prefix@) ==> r@
            == s@.skip(prefix@.len() as int),
        !(s@.len() >= prefix@.len() && s@.subrange(0, prefix@.len() as int) == prefix@) ==> r@
            == s@,
{
    if str_starts_with(s, prefix) {
        let slen = s.unicode_len();
        let plen = prefix.unicode_len();
        let rest = s.substring_char(plen, slen);
        assert(rest@ =~= s@.skip(plen as int));
        rest.to_owned()
    } else {
        s.to_owned()
    }
}

/// Caps `s` at `max` characters; when it is longer, the first `max` characters
/// are kept and `marker` is appended.
pub fn truncate_with_marker(s: &str, max: usize, marker: &str) -> (r: (String, bool))
    ensures
        s@.len() > max ==> r.0@ == s@.subrange(0, max as int) + marker@ && r.1,
        s@.len() <= max ==> r.0@ == s@ && !r.1,
{
    let len = s.unicode_len();
    if len > max {
        let mut head = s.substring_char(0, max).to_owned();
        head.append(marker);
        (head, true)
    } else {
        (s.to_owned(), false)
    }
}

/// The whitespace that separates command-line tokens.
pub open spec fn is_space_char(c: char) -> bool {
    c == ' ' || c == '\t' || c == '\n' || c == '\r'
}

/// Whether `c` separates command-line tokens.
pub fn is_space(c: char) -> (r: bool)
    ensures
        r == is_space_char(c),
{
    c == ' ' || c == '\t' || c == '\n' || c == '\r'
}

/// The tokens of `s` accumulated left to right: `tokens` are finished ones,
/// `cur` the one being read.
pub open spec fn spec_ws_fold(
    tokens: Seq<Seq<char>>,
    cur: Seq<char>,
    s: Seq<char>,
) -> Seq<Seq<char>>
    decreases s.len(),
{
    if s.len() == 0 {
        if cur.len() > 0 {
            tokens.push(cur)
        } else {
            tokens
        }
    } else if is_space_char(s[0]) {
        if cur.len() > 0 {
            spec_ws_fold(tokens.push(cur), Seq::empty(), s.skip(1))
        } else {
            spec_ws_fold(tokens, Seq::empty(), s.skip(1))
        }
    } else {
        spec_ws_fold(tokens, cur.push(s[0]), s.skip(1))
    }
}

/// The whitespace-separated tokens of `s`, in order, each non-empty.
pub open spec fn spec_split_whitespace(s: Seq<char>) -> Seq<Seq<char>> {
    spec_ws_fold(Seq::empty(), Seq::empty(), s)
}

/// Splits `s` at whitespace into its tokens.
pub fn split_whitespace_tokens(s: &str) -> (r: Vec<String>)
    ensures
        r.deep_view() == spec_split_whitespace(s@),
{
    let len = s.unicode_len();
    let mut tokens: Vec<String> = Vec::new();
    let mut tok_start: usize = 0;
    let mut in_token = false;
    let mut i: usize = 0;
    proof {
        assert(tokens.deep_view() =~= Seq::<Seq<char>>::empty());
        assert(s@.skip(0) =~= s@);
    }
    while i < len
        invariant
            len == s@.len(),
            i <= len,
            in_token ==> tok_start < i,
            in_token ==> forall|k: int| tok_start <= k < i ==> !is_space_char(s@[k]),
            spec_ws_fold(
                tokens.deep_view(),
                if in_token {
                    s@.subrange(tok_start as int, i as int)
                } else {
                    Seq::empty()
                },
                s@.skip(i as int),
            ) == spec_split_whitespace(s@),
        decreases len - i,
    {
        let c = s.get_char(i);
        let ghost cur = if in_token {
            s@.subrange(tok_start as int, i as int)
        } else {
            Seq::<char>::empty()
        };
        proof {
            assert(s@.skip(i as int)[0] == s@[i as int]);
            assert(s@.skip(i as int).skip(1) =~= s@.skip(i + 1));
        }
        if is_space(c) {
            if in_token {
                let tok = s.substring_char(tok_start, i).to_owned();
                assert(tok@ =~= cur);
                let ghost toks0 = tokens.deep_view();
                tokens.push(tok);
                proof {
                    assert(tokens.deep_view() =~= toks0.push(cur));
                }
                in_token = false;
            }
        } else {
            if !in_token {
                tok_start = i;
                in_token = true;
            }
            proof {
                assert(cur.push(s@[i as int]) =~= s@.subrange(tok_start as int, i + 1));
            }
        }
        i += 1;
    }
    proof {
        assert(s@.skip(len as int) =~= Seq::<char>::empty());
    }
    if in_token {
        let tok = s.substring_char(tok_start, len).to_owned();
        assert(tok@ =~= s@.subrange(tok_start as int, len as int));
        let ghost toks0 = tokens.deep_view();
        tokens.push(tok);
        proof {
            assert(tokens.deep_view() =~= toks0.push(s@.subrange(tok_start as int, len as int)));
        }
    }
    tokens
}

/// The tokens joined with single spaces between them.
pub open spec fn spec_join_spaces(toks: Seq<Seq<char>>) -> Seq<char>
    decreases toks.len(),
{
    if toks.len() == 0 {
        Seq::empty()
    } else if toks.len() == 1 {
        toks[0]
    } else {
        spec_join_spaces(toks.drop_last()) + " "@ + toks.last()
    }
}

/// Joins tokens with single spaces between them.
pub fn join_spaces(toks: &Vec<String>) -> (r: String)
    ensures
        r@ == spec_join_spaces(toks.deep_view()),
{
    let n = toks.len();
    let mut r = String::new();
    let mut i: usize = 0;
    while i < n
        invariant
            n == toks@.len(),
            i <= n,
            r@ == spec_join_spaces(toks.deep_view().take(i as int)),
        decreases n - i,
    {
        if i > 0 {
            r.append(" ");
        }
        r.append(toks[i].as_str());
        proof {
            let t = toks.deep_view().take(i + 1);
            assert(t.drop_last() =~= toks.deep_view().take(i as int));
            assert(t.last() == toks.deep_view()[i as int]);
            if i == 0 {
                assert(r@ =~= spec_join_spaces(t));
            }
        }
        i += 1;
    }
    proof {
        assert(toks.deep_view().take(n as int) =~= toks.deep_view());
    }
    r
}

/// The number of leading whitespace characters.
pub open spec fn spec_ws_prefix_len(s: Seq<char>) -> int
    decreases s.len(),
{
    if s.len() == 0 {
        0
    } else if is_space_char(s[0]) {
        1 + spec_ws_prefix_len(s.skip(1))
    } else {
        0
    }
}

/// The number of trailing whitespace characters.
pub open spec fn spec_ws_suffix_len(s: Seq<char>) -> int
    decreases s.len(),
{
    if s.len() == 0 {
        0
    } else if is_space_char(s.last()) {
        1 + spec_ws_suffix_len(s.drop_last())
    } else {
        0
    }
}

/// `s` without leading and trailing whitespace.
pub open spec fn spec_trim(s: Seq<char>) -> Seq<char> {
    let p = spec_ws_prefix_len(s);
    if p == s.len() {
        Seq::empty()
    } else {
        s.subrange(p, s.len() - spec_ws_suffix_len(s))
    }
}

proof fn lemma_ws_prefix_le_len(s: Seq<char>)
    ensures
        0 <= spec_ws_prefix_len(s) <= s.len(),
        forall|k: int| 0 <= k < spec_ws_prefix_len(s) ==> is_space_char(#[trigger] s[k]),
        spec_ws_prefix_len(s) < s.len() ==> !is_space_char(s[spec_ws_prefix_len(s)]),
    decreases s.len(),
{
    if s.len() > 0 && is_space_char(s[0]) {
        lemma_ws_prefix_le_len(s.skip(1));
        assert forall|k: int| 0 <= k < spec_ws_prefix_len(s) implies is_space_char(
            #[trigger] s[k],
        ) by {
            if k > 0 {
                assert(s.skip(1)[k - 1] == s[k]);
            }
        }
        if spec_ws_prefix_len(s) < s.len() {
            assert(s.skip(1)[spec_ws_prefix_len(s) - 1] == s[spec_ws_prefix_len(s)]);
        }
    }
}

proof fn lemma_ws_prefix_from_scan(s: Seq<char>, p: int)
    requires
        0 <= p <= s.len(),
        forall|k: int| 0 <= k < p ==> is_space_char(#[trigger] s[k]),
        p < s.len() ==> !is_space_char(s[p]),
    ensures
        spec_ws_prefix_len(s) == p,
    decreases s.len(),
{
    if s.len() > 0 && is_space_char(s[0]) {
        assert forall|k: int| 0 <= k < p - 1 implies is_space_char(#[trigger] s.skip(1)[k]) by {
            assert(s.skip(1)[k] == s[k + 1]);
        }
        if p - 1 < s.skip(1).len() {
            assert(s.skip(1)[p - 1] == s[p]);
        }
        lemma_ws_prefix_from_scan(s.skip(1), p - 1);
    }
}

proof fn lemma_ws_suffix_from_scan(s: Seq<char>, q: int)
    requires
        0 <= q <= s.len(),
        forall|k: int| s.len() - q <= k < s.len() ==> is_space_char(#[trigger] s[k]),
        q < s.len() ==> !is_space_char(s[s.len() - q - 1]),
    ensures
        spec_ws_suffix_len(s) == q,
    decreases s.len(),
{
    if s.len() > 0 && is_space_char(s.last()) {
        assert forall|k: int| s.drop_last().len() - (q - 1) <= k < s.drop_last().len()
            implies is_space_char(#[trigger] s.drop_last()[k]) by {
            assert(s.drop_last()[k] == s[k]);
        }
        if q - 1 < s.drop_last().len() {
            assert(s.drop_last()[s.drop_last().len() - (q - 1) - 1] == s[s.len() - q - 1]);
        }
        lemma_ws_suffix_from_scan(s.drop_last(), q - 1);
    }
}

/// `s` without leading and trailing whitespace.
pub fn trim_str(s: &str) -> (r: String)
    ensures
        r@ == spec_trim(s@),
{
    let len = s.unicode_len();
    let mut b: usize = 0;
    while b < len && is_space(s.get_char(b))
        invariant
            len == s@.len(),
            b <= len,
            forall|k: int| 0 <= k < b ==> is_space_char(#[trigger] s@[k]),
        decreases len - b,
    {
        b += 1;
    }
    proof {
        lemma_ws_prefix_from_scan(s@, b as int);
    }
    if b == len {
        let r = String::new();
        assert(r@ =~= spec_trim(s@));
        return r;
    }
    let mut e: usize = len;
    while e > b && is_space(s.get_char(e - 1))
        invariant
            len == s@.len(),
            b <= e <= len,
            b < len,
            !is_space_char(s@[b as int]),
            forall|k: int| e <= k < len ==> is_space_char(#[trigger] s@[k]),
        decreases e,
    {
        e -= 1;
    }
    proof {
        assert(!is_space_char(s@[e - 1]));
        lemma_ws_suffix_from_scan(s@, (len - e) as int);
        lemma_ws_prefix_le_len(s@);
    }
    let r = s.substring_char(b, e).to_owned();
    assert(r@ =~= spec_trim(s@));
    r
}

/// The decimal rendering of a non-negative number.
pub open spec fn spec_nat_string(n: int) -> Seq<char>
    decreases n,
{
    if n <= 0 {
        if n == 0 {
            "0"@
        } else {
            Seq::empty()
        }
    } else if n < 10 {
        spec_digit_str(n)
    } else {
        spec_nat_string(n / 10) + spec_digit_str(n % 10)
    }
}

/// The single decimal digit for a value below ten.
pub open spec fn spec_digit_str(n: int) -> Seq<char> {
    if n == 0 { "0"@ }
    else if n == 1 { "1"@ }
    else if n == 2 { "2"@ }
    else if n == 3 { "3"@ }
    else if n == 4 { "4"@ }
    else if n == 5 { "5"@ }
    else if n == 6 { "6"@ }
    else if n == 7 { "7"@ }
    else if n == 8 { "8"@ }
    else { "9"@ }
}

/// The decimal rendering of a number, with a leading minus sign when it is
/// negative.
pub open spec fn spec_i64_string(n: int) -> Seq<char> {
    if n < 0 {
        "-"@ + spec_nat_string(-n)
    } else {
        spec_nat_string(n)
    }
}

fn append_digit(s: &mut String, d: u64)
    requires
        d < 10,
    ensures
        final(s)@ == old(s)@ + spec_digit_str(d as int),
{
    if d == 0 { s.append("0"); }
    else if d == 1 { s.append("1"); }
    else if d == 2 { s.append("2"); }
    else if d == 3 { s.append("3"); }
    else if d == 4 { s.append("4"); }
    else if d == 5 { s.append("5"); }
    else if d == 6 { s.append("6"); }
    else if d == 7 { s.append("7"); }
    else if d == 8 { s.append("8"); }
    else { s.append("9"); }
}

fn append_nat(s: &mut String, n: u64)
    ensures
        final(s)@ == old(s)@ + spec_nat_string(n as int),
    decreases n,
{
    if n < 10 {
        append_digit(s, n);
        assert(n > 0 ==> spec_nat_string(n as int) == spec_digit_str(n as int));
    } else {
        append_nat(s, n / 10);
        append_digit(s, n % 10);
        proof {
            assert((old(s)@ + spec_nat_string(n as int / 10)) + spec_digit_str(n as int % 10)
                =~= old(s)@ + (spec_nat_string(n as int / 10) + spec_digit_str(n as int % 10)));
        }
    }
}

/// Renders a number in decimal, with a leading minus sign when negative.
pub fn i64_to_string(n: i64) -> (r: String)
    ensures
        r@ == spec_i64_string(n as int),
{
    let mut s = String::new();
    if n < 0 {
        s.append("-");
        let m: u64 = ((-(n + 1)) as u64) + 1;
        assert(m as int == -(n as int));
        append_nat(&mut s, m);
        proof {
            assert(s@ =~= spec_i64_string(n as int));
        }
    } else {
        append_nat(&mut s, n as u64);
    }
    s
}

/// Character-for-character copy of an optional string.
pub fn clone_opt_string(v: &Option<String>) -> (r: Option<String>)
    ensures
        r.deep_view() == v.deep_view(),
{
    match v {
        Some(s) => Some(s.clone()),
        None => None,
    }
}

} // verus!
