//! The header table of a parsed request: an association list looked up by
//! exact key, filled by the header parser with trimmed, lowercased names.
use vstd::prelude::*;

use crate::strutil::{find_char, lower_of, lowercase, spec_find_char, spec_trim, trim};
use vstd::string::StrSliceExecFns;

verus! {

/// The value the first entry with key `k` holds, if any entry does.
pub open spec fn spec_lookup(entries: Seq<(Seq<char>, Seq<char>)>, k: Seq<char>) -> Option<
    Seq<char>,
>
    decreases entries.len(),
{
    if entries.len() == 0 {
        None
    } else if entries[0].0 == k {
        Some(entries[0].1)
    } else {
        spec_lookup(entries.skip(1), k)
    }
}

/// `entries` with the first entry keyed `k` replaced by `(k, v)`, or with
/// `(k, v)` appended when no entry has that key.
pub open spec fn spec_insert(
    entries: Seq<(Seq<char>, Seq<char>)>,
    k: Seq<char>,
    v: Seq<char>,
) -> Seq<(Seq<char>, Seq<char>)>
    decreases entries.len(),
{
    if entries.len() == 0 {
        seq![(k, v)]
    } else if entries[0].0 == k {
        seq![(k, v)] + entries.skip(1)
    } else {
        seq![entries[0]] + spec_insert(entries.skip(1), k, v)
    }
}

proof fn lemma_lookup_at(entries: Seq<(Seq<char>, Seq<char>)>, k: Seq<char>, i: int)
    requires
        0 <= i <= entries.len(),
        forall|j: int| 0 <= j < i ==> entries[j].0 != k,
        i < entries.len() ==> entries[i].0 == k,
    ensures
        spec_lookup(entries, k) == (if i < entries.len() {
            Some(entries[i].1)
        } else {
            None::<Seq<char>>
        }),
    decreases i,
{
    if i > 0 {
        lemma_lookup_at(entries.skip(1), k, i - 1);
    }
}

/// A request's headers: name–value pairs looked up by exact match on the
/// name. The parser stores names trimmed and lowercased, so lookups use
/// lowercase names.
#[derive(Debug, PartialEq)]
pub struct HeaderMap {
    entries: Vec<(String, String)>,
}

impl View for HeaderMap {
    type V = Seq<(Seq<char>, Seq<char>)>;

    closed spec fn view(&self) -> Seq<(Seq<char>, Seq<char>)> {
        self.entries.deep_view()
    }
}

impl HeaderMap {
    /// An empty header table.
    pub fn new() -> (m: HeaderMap)
        ensures
            m@ == Seq::<(Seq<char>, Seq<char>)>::empty(),
    {
        let m = HeaderMap { entries: Vec::new() };
        proof {
            assert(m@ =~~= Seq::<(Seq<char>, Seq<char>)>::empty());
        }
        m
    }

    /// Bind `key` to `value`, replacing the value of an existing entry
    /// with that key.
    pub fn insert(&mut self, key: String, value: String)
        ensures
            final(self)@ == spec_insert(old(self)@, key@, value@),
    {
        let n = self.entries.len();
        let mut i: usize = 0;
        while i < n
            invariant
                i <= n,
                n == self.entries@.len(),
                *self == *old(self),
                forall|j: int| 0 <= j < i ==> self@[j].0 != key@,
            decreases n - i,
        {
            if self.entries[i].0 == key {
                self.entries.set(i, (key, value));
                proof {
                    lemma_insert_found(old(self)@, key@, value@, i as int);
                    assert(self@ =~~= old(self)@.update(
                        i as int,
                        (key@, value@),
                    ));
                }
                return ;
            }
            i = i + 1;
        }
        self.entries.push((key, value));
        proof {
            lemma_insert_missing(old(self)@, key@, value@);
            assert(self@ =~~= old(self)@ + seq![(key@, value@)]);
        }
    }

    /// The value of the entry named `key`, by exact comparison.
    pub fn get(&self, key: &str) -> (r: Option<&String>)
        ensures
            (match r {
                Some(v) => spec_lookup(self@, key@) == Some(v@),
                None => spec_lookup(self@, key@) is None,
            }),
    {
        let k: String = key.to_owned();
        let n = self.entries.len();
        let mut i: usize = 0;
        while i < n
            invariant
                i <= n,
                n == self.entries@.len(),
                k@ == key@,
                forall|j: int| 0 <= j < i ==> self@[j].0 != key@,
            decreases n - i,
        {
            if self.entries[i].0 == k {
                proof {
                    lemma_lookup_at(self@, key@, i as int);
                }
                return Some(&self.entries[i].1);
            }
            i = i + 1;
        }
        proof {
            lemma_lookup_at(self@, key@, n as int);
        }
        None
    }
}

proof fn lemma_insert_found(entries: Seq<(Seq<char>, Seq<char>)>, k: Seq<char>, v: Seq<char>, i: int)
    requires
        0 <= i < entries.len(),
        forall|j: int| 0 <= j < i ==> entries[j].0 != k,
        entries[i].0 == k,
    ensures
        spec_insert(entries, k, v) == entries.update(i, (k, v)),
    decreases i,
{
    if i == 0 {
        assert(seq![(k, v)] + entries.skip(1) =~~= entries.update(0, (k, v)));
    } else {
        lemma_insert_found(entries.skip(1), k, v, i - 1);
        assert(entries.skip(1).update(i - 1, (k, v)) =~~= entries.update(i, (k, v)).skip(1));
        assert(seq![entries[0]] + spec_insert(entries.skip(1), k, v) =~~= entries.update(
            i,
            (k, v),
        ));
    }
}

proof fn lemma_insert_missing(entries: Seq<(Seq<char>, Seq<char>)>, k: Seq<char>, v: Seq<char>)
    requires
        forall|j: int| 0 <= j < entries.len() ==> entries[j].0 != k,
    ensures
        spec_insert(entries, k, v) == entries + seq![(k, v)],
    decreases entries.len(),
{
    if entries.len() == 0 {
        assert(seq![(k, v)] =~~= entries + seq![(k, v)]);
    } else {
        lemma_insert_missing(entries.skip(1), k, v);
        assert(seq![entries[0]] + (entries.skip(1) + seq![(k, v)]) =~~= entries + seq![(k, v)]);
    }
}

/// What splitting one raw header line yields: nothing when the line has
/// no colon; otherwise the part before the first colon, trimmed and
/// lowercased, as the name, and the part after it, trimmed, as the value.
pub open spec fn spec_split_header(line: Seq<char>) -> Option<(Seq<char>, Seq<char>)> {
    let i = spec_find_char(line, ':');
    if i == line.len() {
        None
    } else {
        Some((lower_of(spec_trim(line.take(i))), spec_trim(line.skip(i + 1))))
    }
}

/// Split one raw header line at its first colon into a lowercased,
/// trimmed name and a trimmed value.
pub fn split_header(header: &String) -> (r: Option<(String, String)>)
    ensures
        (match (r, spec_split_header(header@)) {
            (Some((k, v)), Some((sk, sv))) => k@ == sk && v@ == sv,
            (None, None) => true,
            _ => false,
        }),
{
    let s = header.as_str();
    let n = s.unicode_len();
    let i = find_char(s, ':');
    if i == n {
        None
    } else {
        let raw_key = s.substring_char(0, i);
        let raw_val = s.substring_char(i + 1, n);
        proof {
            assert(raw_key@ =~= header@.take(i as int));
            assert(raw_val@ =~= header@.skip(i + 1));
        }
        let key = lowercase(trim(raw_key).as_str());
        let val = trim(raw_val);
        Some((key, val))
    }
}

/// The header table that folding the raw lines into `acc` produces:
/// each line that splits into a name–value pair is inserted in order,
/// lines without a colon are dropped.
pub open spec fn spec_headers_fold(
    acc: Seq<(Seq<char>, Seq<char>)>,
    lines: Seq<Seq<char>>,
) -> Seq<(Seq<char>, Seq<char>)>
    decreases lines.len(),
{
    if lines.len() == 0 {
        acc
    } else {
        spec_headers_fold(
            match spec_split_header(lines[0]) {
                Some((k, v)) => spec_insert(acc, k, v),
                None => acc,
            },
            lines.skip(1),
        )
    }
}

/// The header table built from raw header lines.
pub open spec fn spec_to_headers(lines: Seq<Seq<char>>) -> Seq<(Seq<char>, Seq<char>)> {
    spec_headers_fold(Seq::empty(), lines)
}

/// Build the header table from the raw header lines of a request,
/// dropping lines without a colon and letting a repeated name keep the
/// later value.
pub fn to_headers(headers: Vec<String>) -> (m: HeaderMap)
    ensures
        m@ == spec_to_headers(headers.deep_view()),
{
    let mut m = HeaderMap::new();
    let n = headers.len();
    proof {
        assert(headers.deep_view().skip(0) =~~= headers.deep_view());
    }
    let mut i: usize = 0;
    while i < n
        invariant
            i <= n,
            n == headers@.len(),
            spec_headers_fold(m@, headers.deep_view().skip(i as int)) == spec_to_headers(
                headers.deep_view(),
            ),
        decreases n - i,
    {
        proof {
            assert(headers.deep_view().skip(i as int)[0] == headers@[i as int]@);
            assert(headers.deep_view().skip(i as int).skip(1) =~~= headers.deep_view().skip(
                i + 1,
            ));
        }
        match split_header(&headers[i]) {
            Some((k, v)) => {
                m.insert(k, v);
            },
            None => {},
        }
        i = i + 1;
    }
    proof {
        assert(headers.deep_view().skip(n as int) =~~= Seq::<Seq<char>>::empty());
    }
    m
}

} // verus!
