//! Header lines as the engine delivers them, and the ordered multimap they
//! are collected into.
use vstd::prelude::*;
use vstd::slice::{slice_subrange, slice_to_vec};

verus! {

pub const COLON: u8 = 58;
pub const SPACE: u8 = 32;
pub const TAB: u8 = 9;
pub const LINE_FEED: u8 = 10;
pub const FORM_FEED: u8 = 12;
pub const CARRIAGE_RETURN: u8 = 13;

/// The longest header name that is accepted.
pub const MAX_NAME_LEN: usize = 65535;

/// A byte that may stand in a header name (an HTTP token character).
pub open spec fn is_token_byte(b: u8) -> bool {
    ||| (48u8 <= b <= 57u8)
    ||| (97u8 <= b <= 122u8)
    ||| (65u8 <= b <= 90u8)
    ||| b == 33u8 || b == 35u8 || b == 36u8 || b == 37u8 || b == 38u8 || b == 39u8
    ||| b == 42u8 || b == 43u8 || b == 45u8 || b == 46u8 || b == 94u8 || b == 95u8
    ||| b == 96u8 || b == 124u8 || b == 126u8
}

pub open spec fn lower_byte(b: u8) -> u8 {
    if 65u8 <= b <= 90u8 {
        (b + 32) as u8
    } else {
        b
    }
}

/// The normal form of a header name: `None` when it is not a valid name,
/// else the name with its ASCII letters in lower case.
pub open spec fn normal_name(s: Seq<u8>) -> Option<Seq<u8>> {
    if 0 < s.len() <= MAX_NAME_LEN && forall|i: int| 0 <= i < s.len() ==> is_token_byte(#[trigger] s[i]) {
        Some(s.map_values(|b: u8| lower_byte(b)))
    } else {
        None
    }
}

/// A byte that may stand in a header value: visible ASCII, a tab, or any
/// byte above ASCII.
pub open spec fn is_value_byte(b: u8) -> bool {
    (b >= 32 && b != 127) || b == TAB
}

pub open spec fn is_valid_value(s: Seq<u8>) -> bool {
    forall|i: int| 0 <= i < s.len() ==> is_value_byte(#[trigger] s[i])
}

/// Relies on http::HeaderName::from_bytes: it accepts a name of 1 to 65535
/// token bytes and normalises it to lower case, which `as_str` hands back.
#[verifier::external_body]
fn normalize_name(b: &[u8]) -> (r: Option<Vec<u8>>)
    ensures
        match r {
            Some(n) => normal_name(b@) == Some(n@),
            None => normal_name(b@) is None,
        },
{
    http::HeaderName::from_bytes(b).ok().map(|n| n.as_str().as_bytes().to_vec())
}

/// Relies on http::HeaderValue::from_bytes: it accepts exactly the values
/// whose bytes are all value bytes.
#[verifier::external_body]
fn value_is_valid(b: &[u8]) -> (r: bool)
    ensures
        r == is_valid_value(b@),
{
    http::HeaderValue::from_bytes(b).is_ok()
}

/// The ASCII whitespace that is trimmed from the end of a name.
pub open spec fn is_ascii_space(b: u8) -> bool {
    b == SPACE || b == TAB || b == LINE_FEED || b == FORM_FEED || b == CARRIAGE_RETURN
}

/// The position of the first colon in a line, if there is one.
pub open spec fn first_colon(s: Seq<u8>) -> Option<int> {
    if exists|i: int| 0 <= i < s.len() && s[i] == COLON {
        Some(choose|i: int| 0 <= i < s.len() && s[i] == COLON && forall|j: int| 0 <= j < i ==> s[j] != COLON)
    } else {
        None
    }
}

pub open spec fn trim_end_space(s: Seq<u8>) -> Seq<u8>
    decreases s.len(),
{
    if s.len() > 0 && is_ascii_space(s.last()) {
        trim_end_space(s.drop_last())
    } else {
        s
    }
}

pub open spec fn trim_start_blank(s: Seq<u8>) -> Seq<u8>
    decreases s.len(),
{
    if s.len() > 0 && s[0] == SPACE {
        trim_start_blank(s.subrange(1, s.len() as int))
    } else {
        s
    }
}

/// Drops one final line feed and then one final carriage return.
pub open spec fn trim_line_end(s: Seq<u8>) -> Seq<u8> {
    let t = if s.len() > 0 && s.last() == LINE_FEED { s.drop_last() } else { s };
    if t.len() > 0 && t.last() == CARRIAGE_RETURN { t.drop_last() } else { t }
}

/// The entry that one raw header line yields: `None` for a line without a
/// colon (a status line, the blank line ending a block) and for a line whose
/// name or value is not valid; else the normalised name and the value.
pub open spec fn parse_line(line: Seq<u8>) -> Option<(Seq<u8>, Seq<u8>)> {
    match first_colon(line) {
        None => None,
        Some(c) => {
            let name = trim_end_space(line.subrange(0, c));
            let value = trim_line_end(trim_start_blank(line.subrange(c + 1, line.len() as int)));
            match normal_name(name) {
                Some(n) => if is_valid_value(value) {
                    Some((n, value))
                } else {
                    None
                },
                None => None,
            }
        },
    }
}

/// Splits one raw header line into its normalised name and its value.
///
/// A line without a colon, or with a name or value that is not valid, yields
/// `None`: such a line is dropped, and the lines around it still count.
pub fn parse_header_line(line: &[u8]) -> (r: Option<(Vec<u8>, Vec<u8>)>)
    ensures
        match r {
            Some((n, v)) => parse_line(line@) == Some((n@, v@)),
            None => parse_line(line@) is None,
        },
{
    let len = line.len();
    let mut c: usize = 0;
    while c < len && line[c] != COLON
        invariant
            c <= len,
            len == line@.len(),
            forall|j: int| 0 <= j < c ==> line@[j] != COLON,
        decreases len - c,
    {
        c = c + 1;
    }
    if c == len {
        return None;
    }
    proof {
        let s = line@;
        assert(s[c as int] == COLON);
        let k = choose|i: int| 0 <= i < s.len() && s[i] == COLON && forall|j: int| 0 <= j < i ==> s[j] != COLON;
        assert(first_colon(s) == Some(k));
        if k < c {
            assert(s[k] != COLON);
        } else if k > c {
            assert(s[c as int] != COLON);
        }
        assert(first_colon(s) == Some(c as int));
    }
    let mut e: usize = c;
    while e > 0 && is_space(line[e - 1])
        invariant
            e <= c < len,
            len == line@.len(),
            trim_end_space(line@.subrange(0, e as int)) == trim_end_space(line@.subrange(0, c as int)),
        decreases e,
    {
        assert(line@.subrange(0, e as int).drop_last() =~= line@.subrange(0, e - 1));
        e = e - 1;
    }
    assert(trim_end_space(line@.subrange(0, e as int)) == line@.subrange(0, e as int));
    let mut v: usize = c + 1;
    while v < len && line[v] == SPACE
        invariant
            c < v <= len,
            len == line@.len(),
            trim_start_blank(line@.subrange(v as int, len as int)) == trim_start_blank(
                line@.subrange(c + 1, len as int),
            ),
        decreases len - v,
    {
        assert(line@.subrange(v as int, len as int).subrange(1, len - v) =~= line@.subrange(
            v + 1,
            len as int,
        ));
        v = v + 1;
    }
    assert(trim_start_blank(line@.subrange(v as int, len as int)) == line@.subrange(
        v as int,
        len as int,
    ));
    let mut w: usize = len;
    if w > v && line[w - 1] == LINE_FEED {
        w = w - 1;
    }
    if w > v && line[w - 1] == CARRIAGE_RETURN {
        w = w - 1;
    }
    proof {
        let t = line@.subrange(v as int, len as int);
        let t1 = if t.len() > 0 && t.last() == LINE_FEED { t.drop_last() } else { t };
        if t.len() > 0 {
            assert(t.drop_last() =~= line@.subrange(v as int, len - 1));
        }
        assert(t1 =~= line@.subrange(v as int, v + t1.len()));
        if t1.len() > 0 {
            assert(t1.drop_last() =~= line@.subrange(v as int, v + t1.len() - 1));
        }
        assert(trim_line_end(t) =~= line@.subrange(v as int, w as int));
    }
    let name = normalize_name(slice_subrange(line, 0, e));
    match name {
        None => None,
        Some(n) => {
            let raw_value = slice_subrange(line, v, w);
            if value_is_valid(raw_value) {
                Some((n, slice_to_vec(raw_value)))
            } else {
                None
            }
        },
    }
}

fn is_space(b: u8) -> (r: bool)
    ensures
        r == is_ascii_space(b),
{
    b == SPACE || b == TAB || b == LINE_FEED || b == FORM_FEED || b == CARRIAGE_RETURN
}

/// The values of the entries named `n`, in the order the entries arrived.
pub open spec fn values_named(es: Seq<(Seq<u8>, Seq<u8>)>, n: Seq<u8>) -> Seq<Seq<u8>>
    decreases es.len(),
{
    if es.len() == 0 {
        Seq::empty()
    } else {
        let rest = values_named(es.drop_last(), n);
        if es.last().0 == n {
            rest.push(es.last().1)
        } else {
            rest
        }
    }
}

/// The values that a lookup by `name` finds: those of the entries whose name
/// is the normal form of `name`, none when `name` is not a valid name.
pub open spec fn lookup(es: Seq<(Seq<u8>, Seq<u8>)>, name: Seq<u8>) -> Seq<Seq<u8>> {
    match normal_name(name) {
        Some(n) => values_named(es, n),
        None => Seq::empty(),
    }
}

/// The contents of a sequence of byte vectors.
pub open spec fn byte_views(v: Seq<Vec<u8>>) -> Seq<Seq<u8>> {
    v.map_values(|x: Vec<u8>| x@)
}

/// An ordered multimap of header names to values.
///
/// Entries keep the order in which they arrived, and a name may repeat.
/// Names are held in their normal (lower case) form, so lookups ignore case.
pub struct HeaderMap {
    entries: Vec<(Vec<u8>, Vec<u8>)>,
}

impl View for HeaderMap {
    type V = Seq<(Seq<u8>, Seq<u8>)>;

    closed spec fn view(&self) -> Seq<(Seq<u8>, Seq<u8>)> {
        self.entries@.map_values(|e: (Vec<u8>, Vec<u8>)| (e.0@, e.1@))
    }
}

impl HeaderMap {
    pub fn new() -> (m: HeaderMap)
        ensures
            m@ == Seq::<(Seq<u8>, Seq<u8>)>::empty(),
    {
        let m = HeaderMap { entries: Vec::new() };
        assert(m@ =~= Seq::<(Seq<u8>, Seq<u8>)>::empty());
        m
    }

    /// The number of entries.
    pub fn len(&self) -> (n: usize)
        ensures
            n == self@.len(),
    {
        self.entries.len()
    }

    pub(crate) fn append(&mut self, name: Vec<u8>, value: Vec<u8>)
        ensures
            final(self)@ == old(self)@.push((name@, value@)),
    {
        self.entries.push((name, value));
        assert(final(self)@ =~= old(self)@.push((name@, value@)));
    }

    /// The name and value of the entry at position `i`.
    pub fn entry(&self, i: usize) -> (r: (&[u8], &[u8]))
        requires
            i < self@.len(),
        ensures
            r.0@ == self@[i as int].0,
            r.1@ == self@[i as int].1,
    {
        let e = &self.entries[i];
        (e.0.as_slice(), e.1.as_slice())
    }

    /// All values stored under `name`, compared without regard to case, in
    /// arrival order.
    pub fn get_all(&self, name: &[u8]) -> (r: Vec<Vec<u8>>)
        ensures
            byte_views(r@) == lookup(self@, name@),
    {
        let mut out: Vec<Vec<u8>> = Vec::new();
        let n = match normalize_name(name) {
            Some(n) => n,
            None => {
                assert(byte_views(out@) =~= lookup(self@, name@));
                return out;
            },
        };
        let mut i: usize = 0;
        while i < self.entries.len()
            invariant
                i <= self.entries@.len(),
                normal_name(name@) == Some(n@),
                byte_views(out@) == values_named(self@.subrange(0, i as int), n@),
            decreases self.entries@.len() - i,
        {
            assert(self@.subrange(0, i + 1).drop_last() =~= self@.subrange(0, i as int));
            let e = &self.entries[i];
            assert(self@[i as int] == (e.0@, e.1@));
            if bytes_equal(e.0.as_slice(), n.as_slice()) {
                let ghost before = byte_views(out@);
                out.push(slice_to_vec(e.1.as_slice()));
                assert(byte_views(out@) =~= before.push(e.1@));
                assert(byte_views(out@) =~= values_named(self@.subrange(0, i + 1), n@));
            }
            i = i + 1;
        }
        assert(self@.subrange(0, i as int) =~= self@);
        out
    }

    /// The first value stored under `name`, compared without regard to case.
    pub fn get(&self, name: &[u8]) -> (r: Option<Vec<u8>>)
        ensures
            match r {
                Some(v) => lookup(self@, name@).len() > 0 && v@ == lookup(self@, name@)[0],
                None => lookup(self@, name@).len() == 0,
            },
    {
        let all = self.get_all(name);
        if all.len() == 0 {
            None
        } else {
            Some(slice_to_vec(all[0].as_slice()))
        }
    }
}

/// The entries that a sequence of raw header lines yields, in arrival order.
pub open spec fn parse_lines(lines: Seq<Seq<u8>>) -> Seq<(Seq<u8>, Seq<u8>)>
    decreases lines.len(),
{
    if lines.len() == 0 {
        Seq::empty()
    } else {
        let rest = parse_lines(lines.drop_last());
        match parse_line(lines.last()) {
            Some(e) => rest.push(e),
            None => rest,
        }
    }
}

proof fn lemma_values_named_concat(a: Seq<(Seq<u8>, Seq<u8>)>, b: Seq<(Seq<u8>, Seq<u8>)>, n: Seq<u8>)
    ensures
        values_named(a + b, n) == values_named(a, n) + values_named(b, n),
    decreases b.len(),
{
    if b.len() == 0 {
        assert(a + b =~= a);
        assert(values_named(a, n) + values_named(b, n) =~= values_named(a, n));
    } else {
        lemma_values_named_concat(a, b.drop_last(), n);
        assert((a + b).drop_last() =~= a + b.drop_last());
        assert((a + b).last() == b.last());
        if b.last().0 == n {
            assert(values_named(a, n) + values_named(b, n) =~= (values_named(a, n) + values_named(
                b.drop_last(),
                n,
            )).push(b.last().1));
        }
    }
}

proof fn lemma_parse_lines_concat(a: Seq<Seq<u8>>, b: Seq<Seq<u8>>)
    ensures
        parse_lines(a + b) == parse_lines(a) + parse_lines(b),
    decreases b.len(),
{
    if b.len() == 0 {
        assert(a + b =~= a);
        assert(parse_lines(a) + parse_lines(b) =~= parse_lines(a));
    } else {
        lemma_parse_lines_concat(a, b.drop_last());
        assert((a + b).drop_last() =~= a + b.drop_last());
        assert((a + b).last() == b.last());
        if parse_line(b.last()) is Some {
            assert(parse_lines(a) + parse_lines(b) =~= (parse_lines(a) + parse_lines(
                b.drop_last(),
            )).push(parse_line(b.last())->0));
        }
    }
}

/// Header parsing keeps arrival order: looking a name up in what two
/// consecutive runs of lines yield finds the values of the first run, then
/// those of the second.
pub proof fn lemma_lookup_keeps_arrival_order(a: Seq<Seq<u8>>, b: Seq<Seq<u8>>, name: Seq<u8>)
    ensures
        lookup(parse_lines(a + b), name) == lookup(parse_lines(a), name) + lookup(
            parse_lines(b),
            name,
        ),
{
    lemma_parse_lines_concat(a, b);
    match normal_name(name) {
        Some(n) => lemma_values_named_concat(parse_lines(a), parse_lines(b), n),
        None => {
            assert(lookup(parse_lines(a), name) + lookup(parse_lines(b), name) =~= Seq::<
                Seq<u8>,
            >::empty());
        },
    }
}

/// A well-formed header line is found under its own name, in any case, with
/// exactly its value; under any other name it is not found.
pub proof fn lemma_lookup_of_one_line(line: Seq<u8>, n: Seq<u8>, v: Seq<u8>, name: Seq<u8>)
    requires
        parse_line(line) == Some((n, v)),
    ensures
        lookup(parse_lines(seq![line]), name) == if normal_name(name) == Some(n) {
            seq![v]
        } else {
            Seq::<Seq<u8>>::empty()
        },
{
    let one = seq![line];
    assert(one.drop_last() =~= Seq::<Seq<u8>>::empty());
    assert(one.last() == line);
    assert(parse_lines(Seq::<Seq<u8>>::empty()) == Seq::<(Seq<u8>, Seq<u8>)>::empty());
    let es = parse_lines(one);
    assert(es =~= Seq::<(Seq<u8>, Seq<u8>)>::empty().push((n, v)));
    assert(es.drop_last() =~= Seq::<(Seq<u8>, Seq<u8>)>::empty());
    assert(es.last() == (n, v));
    match normal_name(name) {
        Some(k) => {
            assert(values_named(es.drop_last(), k) == Seq::<Seq<u8>>::empty());
            if k == n {
                assert(values_named(es, k) =~= seq![v]);
            }
        },
        None => {},
    }
}

/// Lines with the same name give all their values in arrival order,
/// whatever lines come between them.
pub proof fn lemma_duplicate_names_keep_all_values(
    first: Seq<u8>,
    between: Seq<Seq<u8>>,
    second: Seq<u8>,
    n: Seq<u8>,
    v1: Seq<u8>,
    v2: Seq<u8>,
    name: Seq<u8>,
)
    requires
        parse_line(first) == Some((n, v1)),
        parse_line(second) == Some((n, v2)),
        normal_name(name) == Some(n),
    ensures
        lookup(parse_lines(seq![first] + between + seq![second]), name) == seq![v1] + lookup(
            parse_lines(between),
            name,
        ) + seq![v2],
{
    lemma_lookup_keeps_arrival_order(seq![first] + between, seq![second], name);
    lemma_lookup_keeps_arrival_order(seq![first], between, name);
    lemma_lookup_of_one_line(first, n, v1, name);
    lemma_lookup_of_one_line(second, n, v2, name);
}

fn bytes_equal(a: &[u8], b: &[u8]) -> (r: bool)
    ensures
        r == (a@ == b@),
{
    if a.len() != b.len() {
        return false;
    }
    let mut i: usize = 0;
    while i < a.len()
        invariant
            i <= a@.len(),
            a@.len() == b@.len(),
            forall|j: int| 0 <= j < i ==> a@[j] == b@[j],
        decreases a@.len() - i,
    {
        if a[i] != b[i] {
            return false;
        }
        i = i + 1;
    }
    assert(a@ =~= b@);
    true
}

} // verus!
