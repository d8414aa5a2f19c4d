//! Verified string helpers for header and request-line parsing: finding,
//! splitting, trimming, joining, and decimal rendering. Whitespace here is
//! the ASCII set that HTTP field syntax allows around tokens.
use vstd::prelude::*;

verus! {

/// The whitespace characters recognised when trimming and splitting.
pub open spec fn is_ws_char(c: char) -> bool {
    c == ' ' || c == '\t' || c == '\r' || c == '\n'
}

fn is_ws(c: char) -> (r: bool)
    ensures
        r == is_ws_char(c),
{
    c == ' ' || c == '\t' || c == '\r' || c == '\n'
}

/// The index of the first occurrence of `c` in `s`, or the length of `s`
/// when `c` does not occur.
pub open spec fn spec_find_char(s: Seq<char>, c: char) -> int
    decreases s.len(),
{
    if s.len() == 0 {
        0
    } else if s[0] == c {
        0
    } else {
        1 + spec_find_char(s.skip(1), c)
    }
}

proof fn lemma_find_char_range(s: Seq<char>, c: char)
    ensures
        0 <= spec_find_char(s, c) <= s.len(),
    decreases s.len(),
{
    if s.len() > 0 && s[0] != c {
        lemma_find_char_range(s.skip(1), c);
    }
}

proof fn lemma_find_char_at(s: Seq<char>, c: char, i: int)
    requires
        0 <= i <= s.len(),
        forall|j: int| 0 <= j < i ==> s[j] != c,
        i < s.len() ==> s[i] == c,
    ensures
        spec_find_char(s, c) == i,
    decreases i,
{
    if i > 0 {
        lemma_find_char_at(s.skip(1), c, i - 1);
    }
}

/// Find the first occurrence of `c`, returning the string's length when
/// there is none.
pub fn find_char(s: &str, c: char) -> (i: usize)
    ensures
        i == spec_find_char(s@, c),
        i <= s@.len(),
        forall|j: int| 0 <= j < i ==> s@[j] != c,
        i < s@.len() ==> s@[i as int] == c,
{
    let n = s.unicode_len();
    let mut i: usize = 0;
    while i < n
        invariant
            i <= n,
            n == s@.len(),
            forall|j: int| 0 <= j < i ==> s@[j] != c,
        decreases n - i,
    {
        if s.get_char(i) == c {
            proof {
                lemma_find_char_at(s@, c, i as int);
            }
            return i;
        }
        i = i + 1;
    }
    proof {
        lemma_find_char_at(s@, c, n as int);
    }
    n
}

/// The index of the first whitespace character in `s`, or the length of
/// `s` when there is none.
pub open spec fn spec_find_ws(s: Seq<char>) -> int
    decreases s.len(),
{
    if s.len() == 0 {
        0
    } else if is_ws_char(s[0]) {
        0
    } else {
        1 + spec_find_ws(s.skip(1))
    }
}

proof fn lemma_find_ws_range(s: Seq<char>)
    ensures
        0 <= spec_find_ws(s) <= s.len(),
    decreases s.len(),
{
    if s.len() > 0 && !is_ws_char(s[0]) {
        lemma_find_ws_range(s.skip(1));
    }
}

proof fn lemma_find_ws_at(s: Seq<char>, i: int)
    requires
        0 <= i <= s.len(),
        forall|j: int| 0 <= j < i ==> !is_ws_char(s[j]),
        i < s.len() ==> is_ws_char(s[i]),
    ensures
        spec_find_ws(s) == i,
    decreases i,
{
    if i > 0 {
        lemma_find_ws_at(s.skip(1), i - 1);
    }
}

fn find_ws(s: &str) -> (i: usize)
    ensures
        i == spec_find_ws(s@),
        i <= s@.len(),
        forall|j: int| 0 <= j < i ==> !is_ws_char(s@[j]),
        i < s@.len() ==> is_ws_char(s@[i as int]),
{
    let n = s.unicode_len();
    let mut i: usize = 0;
    while i < n
        invariant
            i <= n,
            n == s@.len(),
            forall|j: int| 0 <= j < i ==> !is_ws_char(s@[j]),
        decreases n - i,
    {
        if is_ws(s.get_char(i)) {
            proof {
                lemma_find_ws_at(s@, i as int);
            }
            return i;
        }
        i = i + 1;
    }
    proof {
        lemma_find_ws_at(s@, n as int);
    }
    n
}

/// The pieces of `s` between occurrences of the separator `c`, in order,
/// empty pieces included — the behaviour of splitting on a single
/// character.
pub open spec fn spec_split_char(s: Seq<char>, c: char) -> Seq<Seq<char>>
    decreases s.len(),
    via spec_split_char_dec
{
    let i = spec_find_char(s, c);
    if i == s.len() {
        seq![s]
    } else {
        seq![s.take(i)] + spec_split_char(s.skip(i + 1), c)
    }
}

#[via_fn]
proof fn spec_split_char_dec(s: Seq<char>, c: char) {
    lemma_find_char_range(s, c);
}

/// Split `s` on every occurrence of `c`, keeping empty pieces.
pub fn split_char(s: &str, c: char) -> (r: Vec<String>)
    ensures
        r.deep_view() == spec_split_char(s@, c),
    decreases s@.len(),
{
    let n = s.unicode_len();
    let i = find_char(s, c);
    if i == n {
        let mut v: Vec<String> = Vec::new();
        v.push(s.to_owned());
        proof {
            assert(v.deep_view() =~~= spec_split_char(s@, c));
        }
        v
    } else {
        let piece = s.substring_char(0, i);
        let rest_str = s.substring_char(i + 1, n);
        proof {
            assert(rest_str@ =~= s@.skip(i + 1));
        }
        let mut rest = split_char(rest_str, c);
        let mut v: Vec<String> = Vec::new();
        v.push(piece.to_owned());
        v.append(&mut rest);
        proof {
            assert(piece@ =~= s@.take(i as int));
            assert(v.deep_view() =~~= spec_split_char(s@, c));
        }
        v
    }
}

/// The whitespace-separated tokens of `s`, in order, with no empty
/// tokens: runs of whitespace collapse and leading or trailing
/// whitespace yields nothing.
pub open spec fn spec_split_ws(s: Seq<char>) -> Seq<Seq<char>>
    decreases s.len(),
    via spec_split_ws_dec
{
    if s.len() == 0 {
        Seq::empty()
    } else if is_ws_char(s[0]) {
        spec_split_ws(s.skip(1))
    } else {
        let i = spec_find_ws(s);
        seq![s.take(i)] + spec_split_ws(s.skip(i))
    }
}

#[via_fn]
proof fn spec_split_ws_dec(s: Seq<char>) {
    if s.len() > 0 && !is_ws_char(s[0]) {
        lemma_find_ws_range(s.skip(1));
    }
}

/// Split `s` into its whitespace-separated tokens.
pub fn split_ws(s: &str) -> (r: Vec<String>)
    ensures
        r.deep_view() == spec_split_ws(s@),
    decreases s@.len(),
{
    let n = s.unicode_len();
    if n == 0 {
        let v: Vec<String> = Vec::new();
        proof {
            assert(v.deep_view() =~~= spec_split_ws(s@));
        }
        v
    } else if is_ws(s.get_char(0)) {
        let rest_str = s.substring_char(1, n);
        proof {
            assert(rest_str@ =~= s@.skip(1));
        }
        let r = split_ws(rest_str);
        proof {
            assert(r.deep_view() =~~= spec_split_ws(s@));
        }
        r
    } else {
        let i = find_ws(s);
        let piece = s.substring_char(0, i);
        let rest_str = s.substring_char(i, n);
        proof {
            assert(rest_str@ =~= s@.skip(i as int));
        }
        let mut rest = split_ws(rest_str);
        let mut v: Vec<String> = Vec::new();
        v.push(piece.to_owned());
        v.append(&mut rest);
        proof {
            assert(piece@ =~= s@.take(i as int));
            assert(v.deep_view() =~~= spec_split_ws(s@));
        }
        v
    }
}

/// `s` without leading whitespace.
pub open spec fn spec_trim_start(s: Seq<char>) -> Seq<char>
    decreases s.len(),
{
    if s.len() > 0 && is_ws_char(s[0]) {
        spec_trim_start(s.skip(1))
    } else {
        s
    }
}

/// `s` without trailing whitespace.
pub open spec fn spec_trim_end(s: Seq<char>) -> Seq<char>
    decreases s.len(),
{
    if s.len() > 0 && is_ws_char(s.last()) {
        spec_trim_end(s.drop_last())
    } else {
        s
    }
}

/// `s` without leading or trailing whitespace.
pub open spec fn spec_trim(s: Seq<char>) -> Seq<char> {
    spec_trim_end(spec_trim_start(s))
}

/// Remove leading and trailing whitespace.
pub fn trim(s: &str) -> (r: String)
    ensures
        r@ == spec_trim(s@),
    decreases s@.len(),
{
    let n = s.unicode_len();
    if n == 0 {
        String::new()
    } else if is_ws(s.get_char(0)) {
        let rest = s.substring_char(1, n);
        proof {
            assert(rest@ =~= s@.skip(1));
        }
        trim(rest)
    } else if is_ws(s.get_char(n - 1)) {
        let rest = s.substring_char(0, n - 1);
        proof {
            assert(rest@ =~= s@.drop_last());
            assert(spec_trim_start(s@) == s@);
            assert(rest@.len() > 0 ==> rest@[0] == s@[0]);
            assert(spec_trim_start(rest@) == rest@);
            assert(spec_trim(s@) == spec_trim(rest@));
        }
        trim(rest)
    } else {
        proof {
            assert(spec_trim_start(s@) == s@);
            assert(spec_trim_end(s@) == s@);
        }
        s.to_owned()
    }
}

/// The elements of `elems` concatenated with `sep` between consecutive
/// elements.
pub open spec fn spec_join(elems: Seq<Seq<char>>, sep: Seq<char>) -> Seq<char>
    decreases elems.len(),
{
    if elems.len() == 0 {
        Seq::empty()
    } else if elems.len() == 1 {
        elems[0]
    } else {
        elems[0] + sep + spec_join(elems.skip(1), sep)
    }
}

fn join_from(v: &Vec<String>, idx: usize, sep: &str) -> (r: String)
    requires
        idx <= v@.len(),
    ensures
        r@ == spec_join(v.deep_view().skip(idx as int), sep@),
    decreases v@.len() - idx,
{
    if idx == v.len() {
        String::new()
    } else if idx + 1 == v.len() {
        let r = v[idx].clone();
        proof {
            assert(v.deep_view().skip(idx as int)[0] == v@[idx as int]@);
        }
        r
    } else {
        let mut s = v[idx].clone();
        s.append(sep);
        let rest = join_from(v, idx + 1, sep);
        s.append(rest.as_str());
        proof {
            assert(v.deep_view().skip(idx as int)[0] == v@[idx as int]@);
            assert(v.deep_view().skip(idx as int).skip(1) =~~= v.deep_view().skip(idx + 1));
        }
        s
    }
}

/// Concatenate the strings of `v` with `sep` between consecutive
/// elements.
pub fn join(v: &Vec<String>, sep: &str) -> (r: String)
    ensures
        r@ == spec_join(v.deep_view(), sep@),
{
    let r = join_from(v, 0, sep);
    proof {
        assert(v.deep_view().skip(0) =~~= v.deep_view());
    }
    r
}

/// The character for one decimal digit.
pub open spec fn spec_digit_char(d: nat) -> char {
    if d == 0 {
        '0'
    } else if d == 1 {
        '1'
    } else if d == 2 {
        '2'
    } else if d == 3 {
        '3'
    } else if d == 4 {
        '4'
    } else if d == 5 {
        '5'
    } else if d == 6 {
        '6'
    } else if d == 7 {
        '7'
    } else if d == 8 {
        '8'
    } else {
        '9'
    }
}

/// The decimal digits of `n`, most significant first, with no leading
/// zeros (zero itself is the single digit `0`).
pub open spec fn spec_dec_digits(n: nat) -> Seq<char>
    decreases n,
{
    if n < 10 {
        seq![spec_digit_char(n)]
    } else {
        spec_dec_digits(n / 10) + seq![spec_digit_char(n % 10)]
    }
}

fn digit_str(d: usize) -> (r: &'static str)
    requires
        d < 10,
    ensures
        r@ =~= seq![spec_digit_char(d as nat)],
{
    proof {
        reveal_strlit("0");
        reveal_strlit("1");
        reveal_strlit("2");
        reveal_strlit("3");
        reveal_strlit("4");
        reveal_strlit("5");
        reveal_strlit("6");
        reveal_strlit("7");
        reveal_strlit("8");
        reveal_strlit("9");
    }
    match d {
        0 => "0",
        1 => "1",
        2 => "2",
        3 => "3",
        4 => "4",
        5 => "5",
        6 => "6",
        7 => "7",
        8 => "8",
        _ => "9",
    }
}

/// Render `n` in decimal.
pub fn usize_to_string(n: usize) -> (r: String)
    ensures
        r@ == spec_dec_digits(n as nat),
    decreases n,
{
    if n < 10 {
        digit_str(n).to_owned()
    } else {
        let mut s = usize_to_string(n / 10);
        s.append(digit_str(n % 10));
        proof {
            assert(s@ =~= spec_dec_digits(n as nat));
        }
        s
    }
}

/// What `str::to_lowercase` returns for a given character sequence.
pub uninterp spec fn lower_of(s: Seq<char>) -> Seq<char>;

/// Relies on std's `str::to_lowercase`: the result depends on the
/// characters of the input alone.
#[verifier::external_body]
pub(crate) fn lowercase(s: &str) -> (r: String)
    ensures
        r@ == lower_of(s@),
{
    s.to_lowercase()
}

} // verus!
