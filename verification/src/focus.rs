//! Parsing of the window manager's output: detecting the focus-change
//! notification line in the event stream, and reading the focused window's
//! application identifier out of the one-shot query's output.

use vstd::prelude::*;
use crate::bytes::starts_with;
use crate::bytes::slice_starts_with;

verus! {

/// The marker `Window focus changed:` that opens a focus-change line.
pub open spec fn focus_marker() -> Seq<u8> {
    seq![
        0x57u8, 0x69u8, 0x6Eu8, 0x64u8, 0x6Fu8, 0x77u8, 0x20u8, 0x66u8, 0x6Fu8, 0x63u8, 0x75u8,
        0x73u8, 0x20u8, 0x63u8, 0x68u8, 0x61u8, 0x6Eu8, 0x67u8, 0x65u8, 0x64u8, 0x3Au8,
    ]
}

fn focus_marker_bytes() -> (v: Vec<u8>)
    ensures
        v@ == focus_marker(),
{
    let mut v: Vec<u8> = Vec::new();
    v.push(0x57);
    v.push(0x69);
    v.push(0x6E);
    v.push(0x64);
    v.push(0x6F);
    v.push(0x77);
    v.push(0x20);
    v.push(0x66);
    v.push(0x6F);
    v.push(0x63);
    v.push(0x75);
    v.push(0x73);
    v.push(0x20);
    v.push(0x63);
    v.push(0x68);
    v.push(0x61);
    v.push(0x6E);
    v.push(0x67);
    v.push(0x65);
    v.push(0x64);
    v.push(0x3A);
    assert(v@ =~= focus_marker());
    v
}

/// The marker `App ID:` that opens the identifier line of the query output.
pub open spec fn app_id_marker() -> Seq<u8> {
    seq![0x41u8, 0x70u8, 0x70u8, 0x20u8, 0x49u8, 0x44u8, 0x3Au8]
}

fn app_id_marker_bytes() -> (v: Vec<u8>)
    ensures
        v@ == app_id_marker(),
{
    let mut v: Vec<u8> = Vec::new();
    v.push(0x41);
    v.push(0x70);
    v.push(0x70);
    v.push(0x20);
    v.push(0x49);
    v.push(0x44);
    v.push(0x3A);
    assert(v@ =~= app_id_marker());
    v
}

/// The ASCII whitespace bytes that trimming removes.
pub open spec fn whitespace_class() -> Seq<u8> {
    seq![0x20u8, 0x09u8, 0x0Au8, 0x0Du8, 0x0Bu8, 0x0Cu8]
}

fn whitespace_class_bytes() -> (v: Vec<u8>)
    ensures
        v@ == whitespace_class(),
{
    let mut v: Vec<u8> = Vec::new();
    v.push(0x20);
    v.push(0x09);
    v.push(0x0A);
    v.push(0x0D);
    v.push(0x0B);
    v.push(0x0C);
    assert(v@ =~= whitespace_class());
    v
}

/// The quote byte that the identifier is wrapped in.
pub open spec fn quote_class() -> Seq<u8> {
    seq![0x22u8]
}

fn quote_class_bytes() -> (v: Vec<u8>)
    ensures
        v@ == quote_class(),
{
    let mut v: Vec<u8> = Vec::new();
    v.push(0x22);
    assert(v@ =~= quote_class());
    v
}

/// First index at or after `from` whose byte is outside the class; the end
/// when there is none.
pub open spec fn first_not_in(s: Seq<u8>, class: Seq<u8>, from: int) -> int
    decreases s.len() - from,
{
    if from < 0 || from >= s.len() {
        s.len() as int
    } else if class.contains(s[from]) {
        first_not_in(s, class, from + 1)
    } else {
        from
    }
}

proof fn lemma_first_not_in_char(s: Seq<u8>, class: Seq<u8>, from: int, e: int)
    requires
        0 <= from <= e <= s.len(),
        forall|j: int| from <= j < e ==> class.contains(s[j]),
        e < s.len() ==> !class.contains(s[e]),
    ensures
        first_not_in(s, class, from) == e,
    decreases e - from,
{
    if from < e {
        lemma_first_not_in_char(s, class, from + 1, e);
    }
}

/// End (exclusive) of the content once trailing bytes of the class are
/// dropped; zero when every byte is in the class.
pub open spec fn end_not_in(s: Seq<u8>, class: Seq<u8>) -> int
    decreases s.len(),
{
    if s.len() == 0 {
        0
    } else if class.contains(s.last()) {
        end_not_in(s.drop_last(), class)
    } else {
        s.len() as int
    }
}

proof fn lemma_end_not_in_char(s: Seq<u8>, class: Seq<u8>, e: int)
    requires
        0 <= e <= s.len(),
        forall|j: int| e <= j < s.len() ==> class.contains(s[j]),
        e > 0 ==> !class.contains(s[e - 1]),
    ensures
        end_not_in(s, class) == e,
    decreases s.len(),
{
    if s.len() > 0 {
        if class.contains(s.last()) {
            assert(e < s.len());
            lemma_end_not_in_char(s.drop_last(), class, e);
        } else {
            assert(e == s.len());
        }
    }
}

/// `s` with every leading and trailing byte of the class removed.
pub open spec fn spec_trim_class(s: Seq<u8>, class: Seq<u8>) -> Seq<u8> {
    let f = first_not_in(s, class, 0);
    let e = end_not_in(s, class);
    if f >= e {
        Seq::empty()
    } else {
        s.subrange(f, e)
    }
}

fn byte_in_class(c: u8, class: &[u8]) -> (r: bool)
    ensures
        r == class@.contains(c),
{
    let n = class.len();
    let mut i: usize = 0;
    while i < n
        invariant
            i <= n,
            n == class@.len(),
            forall|j: int| 0 <= j < i ==> class@[j] != c,
        decreases n - i,
    {
        if class[i] == c {
            return true;
        }
        i += 1;
    }
    assert(!class@.contains(c));
    false
}

/// Removes every leading and trailing byte of the class from `s`.
pub fn trim_class<'a>(s: &'a [u8], class: &[u8]) -> (r: &'a [u8])
    ensures
        r@ == spec_trim_class(s@, class@),
{
    let n = s.len();
    let mut a: usize = 0;
    while a < n && byte_in_class(s[a], class)
        invariant
            a <= n,
            n == s@.len(),
            forall|j: int| 0 <= j < a ==> class@.contains(s@[j]),
        decreases n - a,
    {
        a += 1;
    }
    proof {
        lemma_first_not_in_char(s@, class@, 0, a as int);
    }
    let mut b: usize = n;
    while b > a && byte_in_class(s[b - 1], class)
        invariant
            a <= b <= n,
            n == s@.len(),
            forall|j: int| b <= j < n ==> class@.contains(s@[j]),
        decreases b,
    {
        b -= 1;
    }
    if b == a {
        let r = vstd::slice::slice_subrange(s, 0, 0);
        proof {
            if a < n && b > 0 {
                assert(!class@.contains(s@[a as int]));
                assert(class@.contains(s@[b as int]));
            }
            if end_not_in(s@, class@) > a as int {
                lemma_end_not_in_gt(s@, class@, a as int);
            }
            assert(r@ =~= spec_trim_class(s@, class@));
        }
        r
    } else {
        proof {
            lemma_end_not_in_char(s@, class@, b as int);
        }
        vstd::slice::slice_subrange(s, a, b)
    }
}

/// When everything from some index on lies in the class, the content ends
/// at or before that index.
proof fn lemma_end_not_in_gt(s: Seq<u8>, class: Seq<u8>, a: int)
    requires
        0 <= a <= s.len(),
        forall|j: int| a <= j < s.len() ==> class.contains(s[j]),
    ensures
        end_not_in(s, class) <= a,
    decreases s.len(),
{
    if s.len() > 0 {
        if class.contains(s.last()) {
            if a < s.len() {
                lemma_end_not_in_gt(s.drop_last(), class, a);
            } else {
                lemma_end_not_in_gt(s.drop_last(), class, s.len() - 1);
            }
        } else {
            assert(a == s.len());
        }
    }
}

/// Whether a line of the event stream announces a focus change.
pub fn is_focus_changed_line(line: &[u8]) -> (r: bool)
    ensures
        r == starts_with(line@, focus_marker()),
{
    let marker = focus_marker_bytes();
    slice_starts_with(line, marker.as_slice())
}

/// The application identifier one line of the query output carries: the
/// line, once trimmed, must begin with the identifier marker; the identifier
/// is what follows it, trimmed and unquoted.
pub open spec fn spec_extract_app_id(line: Seq<u8>) -> Option<Seq<u8>> {
    let t = spec_trim_class(line, whitespace_class());
    if starts_with(t, app_id_marker()) {
        Some(
            spec_trim_class(
                spec_trim_class(t.skip(app_id_marker().len() as int), whitespace_class()),
                quote_class(),
            ),
        )
    } else {
        None
    }
}

/// Reads the application identifier out of one line of the query output.
pub fn extract_app_id(line: &[u8]) -> (r: Option<Vec<u8>>)
    ensures
        r matches Some(v) ==> spec_extract_app_id(line@) == Some(v@),
        r is None <==> spec_extract_app_id(line@) is None,
{
    let ws = whitespace_class_bytes();
    let t = trim_class(line, ws.as_slice());
    let marker = app_id_marker_bytes();
    if !slice_starts_with(t, marker.as_slice()) {
        return None;
    }
    let rest = vstd::slice::slice_subrange(t, marker.len(), t.len());
    proof {
        assert(rest@ =~= spec_trim_class(line@, whitespace_class()).skip(
            app_id_marker().len() as int,
        ));
    }
    let rest = trim_class(rest, ws.as_slice());
    let quotes = quote_class_bytes();
    let rest = trim_class(rest, quotes.as_slice());
    Some(vstd::slice::slice_to_vec(rest))
}

/// The identifier the whole query output yields: that of its first line
/// that carries one; nothing when no line does (no focused window).
pub open spec fn spec_find_app_id(lines: Seq<Seq<u8>>, i: int) -> Option<Seq<u8>>
    decreases lines.len() - i,
{
    if i < 0 || i >= lines.len() {
        None
    } else {
        match spec_extract_app_id(lines[i]) {
            Some(v) => Some(v),
            None => spec_find_app_id(lines, i + 1),
        }
    }
}

/// Scans the lines of the query output for the focused window's application
/// identifier.
pub fn find_app_id(lines: &Vec<Vec<u8>>) -> (r: Option<Vec<u8>>)
    ensures
        r matches Some(v) ==> spec_find_app_id(lines@.map_values(|l: Vec<u8>| l@), 0) == Some(v@),
        r is None <==> spec_find_app_id(lines@.map_values(|l: Vec<u8>| l@), 0) is None,
{
    let ghost views = lines@.map_values(|l: Vec<u8>| l@);
    let n = lines.len();
    let mut i: usize = 0;
    while i < n
        invariant
            i <= n,
            n == lines@.len(),
            views == lines@.map_values(|l: Vec<u8>| l@),
            spec_find_app_id(views, 0) == spec_find_app_id(views, i as int),
        decreases n - i,
    {
        let r = extract_app_id(lines[i].as_slice());
        if r.is_some() {
            return r;
        }
        i += 1;
    }
    None
}

} // verus!
