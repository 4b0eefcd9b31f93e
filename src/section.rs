//! Cutting one catalog section out of a document's text.
use vstd::prelude::*;

use crate::catalog::{header_spec, is_header, section_header, SECTION_COUNT};
use crate::text::{
    all_white, chars_equal, chars_of, is_white_space, joined_lines, lemma_lines_no_newline,
    lemma_pieces_joined, lemma_pieces_nonempty, lemma_pieces_prefix, lemma_trim_append_white,
    lemma_trim_end_prefix, lines_view, newline_pieces, no_newline, split_lines, strip_cr,
    text_lines, trailing_ws_start, trim_end_spec, trim_spec, trimmed,
};

verus! {

/// Lines `a` (inclusive) to `b` (exclusive) of `ls` make up section `k`: line
/// `a` is the first whose trimmed form is the section's header, and line `b`
/// is the first header line after it, or the end of the text.
pub open spec fn section_span(ls: Seq<Seq<char>>, k: int, a: int, b: int) -> bool {
    &&& 0 <= k < SECTION_COUNT
    &&& 0 <= a < b <= ls.len()
    &&& trim_spec(ls[a]) == header_spec(k)
    &&& forall|i: int| 0 <= i < a ==> trim_spec(#[trigger] ls[i]) != header_spec(k)
    &&& forall|i: int| a < i < b ==> !is_header(trim_spec(#[trigger] ls[i]))
    &&& b < ls.len() ==> is_header(trim_spec(ls[b]))
}

/// The lines that section `k` of `text` is made of: empty when `k` is past the
/// catalog or no line of the text is the section's header.
pub open spec fn section_lines(k: int, text: Seq<char>) -> Seq<Seq<char>> {
    let ls = text_lines(text);
    if exists|a: int, b: int| section_span(ls, k, a, b) {
        let (a, b) = choose|a: int, b: int| section_span(ls, k, a, b);
        ls.subrange(a, b)
    } else {
        Seq::empty()
    }
}

/// Section `k` of `text`: its lines joined with newlines, trailing whitespace
/// taken off.
pub open spec fn section_text(k: int, text: Seq<char>) -> Seq<char> {
    trim_end_spec(joined_lines(section_lines(k, text)))
}

/// A section has at most one span.
pub proof fn lemma_span_unique(ls: Seq<Seq<char>>, k: int, a1: int, b1: int, a2: int, b2: int)
    requires
        section_span(ls, k, a1, b1),
        section_span(ls, k, a2, b2),
    ensures
        a1 == a2,
        b1 == b2,
{
    if a1 < a2 {
        assert(trim_spec(ls[a1]) != header_spec(k));
    }
    if a2 < a1 {
        assert(trim_spec(ls[a2]) != header_spec(k));
    }
    if b1 < b2 {
        assert(!is_header(trim_spec(ls[b1])));
    }
    if b2 < b1 {
        assert(!is_header(trim_spec(ls[b2])));
    }
}

/// A section index outside the catalog gives an empty section, whatever the text.
pub proof fn lemma_out_of_range_is_empty(k: int, text: Seq<char>)
    requires
        k < 0 || k >= SECTION_COUNT,
    ensures
        section_lines(k, text) == Seq::<Seq<char>>::empty(),
        section_text(k, text) == Seq::<char>::empty(),
{
    assert(joined_lines(Seq::<Seq<char>>::empty()) =~= Seq::<char>::empty());
}

/// A text none of whose lines, trimmed, is the header of section `k` gives an
/// empty section `k`.
pub proof fn lemma_absent_header_is_empty(k: int, text: Seq<char>)
    requires
        forall|i: int|
            0 <= i < text_lines(text).len() ==> trim_spec(#[trigger] text_lines(text)[i])
                != header_spec(k),
    ensures
        section_lines(k, text) == Seq::<Seq<char>>::empty(),
        section_text(k, text) == Seq::<char>::empty(),
{
    let ls = text_lines(text);
    assert(!exists|a: int, b: int| section_span(ls, k, a, b));
    assert(joined_lines(Seq::<Seq<char>>::empty()) =~= Seq::<char>::empty());
}

/// A section starts with its own header line and holds no other line that,
/// trimmed, is a header of the catalog.
pub proof fn lemma_no_other_header(k: int, text: Seq<char>)
    ensures
        section_lines(k, text).len() > 0 ==> trim_spec(section_lines(k, text)[0]) == header_spec(
            k,
        ),
        forall|j: int|
            1 <= j < section_lines(k, text).len() ==> !is_header(
                trim_spec(#[trigger] section_lines(k, text)[j]),
            ),
{
    let ls = text_lines(text);
    if exists|a: int, b: int| section_span(ls, k, a, b) {
        let (a, b) = choose|a: int, b: int| section_span(ls, k, a, b);
        let sl = ls.subrange(a, b);
        assert(sl == section_lines(k, text));
        assert forall|j: int| 1 <= j < sl.len() implies !is_header(trim_spec(#[trigger] sl[j])) by {
            assert(sl[j] == ls[a + j]);
        }
    }
}

/// The text a segmentation returns, split into lines again, starts (when not
/// empty) with a line that trims to the section's header, and holds no other
/// line that, trimmed, is a header of the catalog.
pub proof fn lemma_result_has_no_other_header(k: int, text: Seq<char>)
    ensures
        text_lines(section_text(k, text)).len() > 0 ==> trim_spec(
            text_lines(section_text(k, text))[0],
        ) == header_spec(k),
        forall|j: int|
            1 <= j < text_lines(section_text(k, text)).len() ==> !is_header(
                trim_spec(#[trigger] text_lines(section_text(k, text))[j]),
            ),
{
    let ls = section_lines(k, text);
    let all = text_lines(text);
    lemma_no_other_header(k, text);
    lemma_lines_no_newline(text);
    assert forall|i: int| 0 <= i < ls.len() implies no_newline(#[trigger] ls[i]) by {
        if exists|a: int, b: int| section_span(all, k, a, b) {
            let (a, b) = choose|a: int, b: int| section_span(all, k, a, b);
            assert(ls[i] == all[a + i]);
        }
    }
    let jn = joined_lines(ls);
    lemma_pieces_joined(ls);
    let r = trim_end_spec(jn);
    lemma_trim_end_prefix(jn);
    let h = r.len() as int;
    assert(jn.subrange(0, h) == r);
    lemma_pieces_prefix(jn, h);
    let q = newline_pieces(r);
    let p = newline_pieces(jn);
    lemma_pieces_nonempty(r);
    let n = q.len() - 1;
    let tl = text_lines(r);
    assert forall|j: int| 0 <= j < tl.len() implies j < ls.len() && trim_spec(#[trigger] tl[j])
        == trim_spec(ls[j]) by {
        if j < n {
            assert(tl[j] == strip_cr(q[j]));
            assert(q[j] == p[j]);
            assert(p[j] == ls[j]);
            let l = ls[j];
            if l.len() > 0 && l.last() == '\r' {
                assert(is_white_space('\r'));
                assert(all_white(seq!['\r']));
                lemma_trim_append_white(l.drop_last(), seq!['\r']);
                assert(l.drop_last() + seq!['\r'] =~= l);
            }
        } else {
            assert(j == n);
            assert(tl[j] == q.last());
            let m = q.last().len() as int;
            if n == ls.len() {
                assert(p[n].len() == 0);
            }
            assert(p[n] == ls[j]);
            let rest = p[n].subrange(m, p[n].len() as int);
            lemma_trim_append_white(q.last(), rest);
            assert(q.last() + rest =~= p[n]);
        }
    }
    if tl.len() > 0 {
        assert(trim_spec(tl[0]) == trim_spec(ls[0]));
    }
}

/// The catalog's headers, as character sequences.
fn header_table() -> (r: Vec<Vec<char>>)
    ensures
        r@.len() == SECTION_COUNT,
        forall|i: int| 0 <= i < SECTION_COUNT ==> (#[trigger] r@[i])@ == header_spec(i),
{
    let mut r: Vec<Vec<char>> = Vec::new();
    for i in 0..SECTION_COUNT
        invariant
            r@.len() == i,
            forall|j: int| 0 <= j < i ==> (#[trigger] r@[j])@ == header_spec(j),
    {
        r.push(chars_of(section_header(i)));
    }
    r
}

/// Whether `t` is one of the catalog's headers.
fn is_catalog_header(t: &Vec<char>, headers: &Vec<Vec<char>>) -> (r: bool)
    requires
        headers@.len() == SECTION_COUNT,
        forall|i: int| 0 <= i < SECTION_COUNT ==> (#[trigger] headers@[i])@ == header_spec(i),
    ensures
        r == is_header(t@),
{
    for j in 0..SECTION_COUNT
        invariant
            headers@.len() == SECTION_COUNT,
            forall|i: int| 0 <= i < SECTION_COUNT ==> (#[trigger] headers@[i])@ == header_spec(i),
            forall|i: int| 0 <= i < j ==> t@ != #[trigger] header_spec(i),
    {
        if chars_equal(t, &headers[j]) {
            assert(t@ == header_spec(j as int));
            return true;
        }
    }
    false
}

/// The first line whose trimmed form is `target`.
fn find_start(lines: &Vec<Vec<char>>, target: &Vec<char>) -> (r: Option<usize>)
    ensures
        match r {
            Some(a) => a < lines@.len() && trim_spec(lines@[a as int]@) == target@ && forall|
                i: int,
            | 0 <= i < a ==> trim_spec((#[trigger] lines@[i])@) != target@,
            None => forall|i: int|
                0 <= i < lines@.len() ==> trim_spec((#[trigger] lines@[i])@) != target@,
        },
{
    for a in 0..lines.len()
        invariant
            forall|i: int| 0 <= i < a ==> trim_spec((#[trigger] lines@[i])@) != target@,
    {
        let t = trimmed(&lines[a]);
        if chars_equal(&t, target) {
            return Some(a);
        }
    }
    None
}

/// The first header line after line `from`, or the number of lines.
fn find_end(lines: &Vec<Vec<char>>, headers: &Vec<Vec<char>>, from: usize) -> (r: usize)
    requires
        from < lines@.len(),
        headers@.len() == SECTION_COUNT,
        forall|i: int| 0 <= i < SECTION_COUNT ==> (#[trigger] headers@[i])@ == header_spec(i),
    ensures
        from < r <= lines@.len(),
        forall|i: int| from < i < r ==> !is_header(trim_spec((#[trigger] lines@[i])@)),
        r < lines@.len() ==> is_header(trim_spec(lines@[r as int]@)),
{
    let n = lines.len();
    let mut e = from + 1;
    while e < n
        invariant
            from < e <= lines@.len(),
            n == lines@.len(),
            headers@.len() == SECTION_COUNT,
            forall|i: int| 0 <= i < SECTION_COUNT ==> (#[trigger] headers@[i])@ == header_spec(i),
            forall|i: int| from < i < e ==> !is_header(trim_spec((#[trigger] lines@[i])@)),
        decreases lines@.len() - e,
    {
        let t = trimmed(&lines[e]);
        if is_catalog_header(&t, headers) {
            return e;
        }
        e = e + 1;
    }
    e
}

/// Extracts section `section_index` of the catalog from a document's text,
/// header line included. Empty when the index is past the catalog or the
/// section's header is not a line of the text.
pub fn extract_section(section_index: usize, pdf_text: &str) -> (r: String)
    ensures
        r@ == section_text(section_index as int, pdf_text@),
{
    let ghost k = section_index as int;
    let ghost ls = text_lines(pdf_text@);
    if section_index >= SECTION_COUNT {
        assert(!exists|a: int, b: int| section_span(ls, k, a, b));
        assert(joined_lines(Seq::<Seq<char>>::empty()) =~= Seq::<char>::empty());
        return String::new();
    }
    let chars = chars_of(pdf_text);
    let lines = split_lines(&chars);
    assert(lines_view(lines@) == ls);
    assert(forall|i: int| 0 <= i < lines@.len() ==> lines@[i]@ == #[trigger] ls[i]);
    let headers = header_table();
    let start = match find_start(&lines, &headers[section_index]) {
        Some(a) => a,
        None => {
            assert(!exists|a: int, b: int| section_span(ls, k, a, b));
            assert(joined_lines(Seq::<Seq<char>>::empty()) =~= Seq::<char>::empty());
            return String::new();
        },
    };
    let end = find_end(&lines, &headers, start);
    proof {
        assert(section_span(ls, k, start as int, end as int));
        let (a, b) = choose|a: int, b: int| section_span(ls, k, a, b);
        lemma_span_unique(ls, k, a, b, start as int, end as int);
    }
    let mut buf: Vec<char> = Vec::new();
    let mut i = start;
    while i < end
        invariant
            start <= i <= end <= lines@.len(),
            lines_view(lines@) == ls,
            buf@ == joined_lines(ls.subrange(start as int, i as int)),
        decreases end - i,
    {
        let line = &lines[i];
        let ghost base = buf@;
        for j in 0..line.len()
            invariant
                buf@ == base + line@.subrange(0, j as int),
        {
            buf.push(line[j]);
            assert(buf@ =~= base + line@.subrange(0, j + 1 as int));
        }
        buf.push('\n');
        proof {
            let sub = ls.subrange(start as int, i + 1 as int);
            assert(sub.drop_last() =~= ls.subrange(start as int, i as int));
            assert(line@.subrange(0, line@.len() as int) =~= line@);
            assert(buf@ =~= joined_lines(sub));
        }
        i = i + 1;
    }
    let hi = trailing_ws_start(&buf, 0, buf.len());
    assert(buf@.subrange(0, buf@.len() as int) =~= buf@);
    let mut out = String::new();
    for j in 0..hi
        invariant
            hi <= buf@.len(),
            out@ == buf@.subrange(0, j as int),
    {
        out.push(buf[j]);
        assert(out@ =~= buf@.subrange(0, j + 1 as int));
    }
    out
}

} // verus!
