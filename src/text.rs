//! Text as sequences of characters: whitespace, trimming, and the split of a
//! text into lines.
use vstd::prelude::*;

verus! {

/// The Unicode `White_Space` property.
pub open spec fn is_white_space(c: char) -> bool {
    let u = c as u32;
    (0x9 <= u <= 0xd) || u == 0x20 || u == 0x85 || u == 0xa0 || u == 0x1680 || (0x2000 <= u
        <= 0x200a) || u == 0x2028 || u == 0x2029 || u == 0x202f || u == 0x205f || u == 0x3000
}

/// Relies on `char::is_whitespace`, documented as true exactly for the
/// characters with the Unicode `White_Space` property.
pub assume_specification[ char::is_whitespace ](c: char) -> (r: bool)
    ensures
        r == is_white_space(c),
;

/// Relies on `String::push`, which appends one character.
pub assume_specification[ String::push ](s: &mut String, ch: char)
    ensures
        final(s)@ == old(s)@.push(ch),
;

/// The characters of `s`, in order.
pub fn chars_of(s: &str) -> (r: Vec<char>)
    ensures
        r@ == s@,
{
    let mut out: Vec<char> = Vec::new();
    for c in it: s.chars()
        invariant
            out@ == it.seq().subrange(0, it.index()),
    {
        out.push(c);
    }
    out
}

/// `s` without its leading whitespace.
pub open spec fn trim_start_spec(s: Seq<char>) -> Seq<char>
    decreases s.len(),
{
    if s.len() > 0 && is_white_space(s[0]) {
        trim_start_spec(s.drop_first())
    } else {
        s
    }
}

/// `s` without its trailing whitespace.
pub open spec fn trim_end_spec(s: Seq<char>) -> Seq<char>
    decreases s.len(),
{
    if s.len() > 0 && is_white_space(s.last()) {
        trim_end_spec(s.drop_last())
    } else {
        s
    }
}

/// `s` without its leading and trailing whitespace.
pub open spec fn trim_spec(s: Seq<char>) -> Seq<char> {
    trim_end_spec(trim_start_spec(s))
}

/// The pieces of `s` between newline characters: one more than there are
/// newlines, each without its newline.
pub open spec fn newline_pieces(s: Seq<char>) -> Seq<Seq<char>>
    decreases s.len(),
{
    if s.len() == 0 {
        seq![Seq::<char>::empty()]
    } else {
        let p = newline_pieces(s.drop_last());
        if s.last() == '\n' {
            p.push(Seq::<char>::empty())
        } else {
            p.update(p.len() - 1, p.last().push(s.last()))
        }
    }
}

/// A line that a newline ended, without the carriage return before that newline.
pub open spec fn strip_cr(l: Seq<char>) -> Seq<char> {
    if l.len() > 0 && l.last() == '\r' {
        l.drop_last()
    } else {
        l
    }
}

/// The lines of `s`: every piece that a newline ended, without a carriage
/// return just before that newline, then the last piece unless it is empty.
pub open spec fn text_lines(s: Seq<char>) -> Seq<Seq<char>> {
    let p = newline_pieces(s);
    let ended = p.subrange(0, p.len() - 1).map_values(|l: Seq<char>| strip_cr(l));
    if p.last().len() == 0 {
        ended
    } else {
        ended.push(p.last())
    }
}

/// Each line followed by a newline, all laid end to end.
pub open spec fn joined_lines(ls: Seq<Seq<char>>) -> Seq<char>
    decreases ls.len(),
{
    if ls.len() == 0 {
        Seq::empty()
    } else {
        joined_lines(ls.drop_last()) + ls.last() + seq!['\n']
    }
}

/// Every character of `w` is whitespace.
pub open spec fn all_white(w: Seq<char>) -> bool {
    forall|i: int| 0 <= i < w.len() ==> is_white_space(#[trigger] w[i])
}

/// Trailing whitespace does not change where the end trim stops.
proof fn lemma_trim_end_append_white(a: Seq<char>, w: Seq<char>)
    requires
        all_white(w),
    ensures
        trim_end_spec(a + w) == trim_end_spec(a),
    decreases w.len(),
{
    if w.len() > 0 {
        let w2 = w.drop_last();
        assert((a + w).drop_last() =~= a + w2);
        assert((a + w).last() == w.last());
        lemma_trim_end_append_white(a, w2);
    } else {
        assert(a + w =~= a);
    }
}

proof fn lemma_trim_start_all_white(w: Seq<char>)
    requires
        all_white(w),
    ensures
        trim_start_spec(w).len() == 0,
    decreases w.len(),
{
    if w.len() > 0 {
        lemma_trim_start_all_white(w.drop_first());
    }
}

proof fn lemma_trim_start_append_white(a: Seq<char>, w: Seq<char>)
    requires
        all_white(w),
    ensures
        trim_start_spec(a + w) == (if trim_start_spec(a).len() > 0 {
            trim_start_spec(a) + w
        } else {
            Seq::<char>::empty()
        }),
    decreases a.len(),
{
    if a.len() == 0 {
        assert(a + w =~= w);
        lemma_trim_start_all_white(w);
    } else if is_white_space(a[0]) {
        assert((a + w).drop_first() =~= a.drop_first() + w);
        lemma_trim_start_append_white(a.drop_first(), w);
    } else {
        assert((a + w)[0] == a[0]);
    }
}

/// Trailing whitespace does not change the trimmed form.
pub proof fn lemma_trim_append_white(a: Seq<char>, w: Seq<char>)
    requires
        all_white(w),
    ensures
        trim_spec(a + w) == trim_spec(a),
{
    lemma_trim_start_append_white(a, w);
    if trim_start_spec(a).len() > 0 {
        lemma_trim_end_append_white(trim_start_spec(a), w);
    }
}

/// The end trim of `s` is a prefix of `s` followed only by whitespace.
pub(crate) proof fn lemma_trim_end_prefix(s: Seq<char>)
    ensures
        trim_end_spec(s).len() <= s.len(),
        trim_end_spec(s) == s.subrange(0, trim_end_spec(s).len() as int),
        all_white(s.subrange(trim_end_spec(s).len() as int, s.len() as int)),
    decreases s.len(),
{
    if s.len() > 0 && is_white_space(s.last()) {
        let t = s.drop_last();
        lemma_trim_end_prefix(t);
        let n = trim_end_spec(t).len() as int;
        assert(t.subrange(0, n) =~= s.subrange(0, n));
        assert forall|i: int| 0 <= i < s.len() - n implies is_white_space(
            #[trigger] s.subrange(n, s.len() as int)[i],
        ) by {
            if i < t.len() - n {
                assert(s.subrange(n, s.len() as int)[i] == t.subrange(n, t.len() as int)[i]);
            }
        }
    } else {
        assert(s.subrange(0, s.len() as int) =~= s);
    }
}

pub(crate) proof fn lemma_pieces_nonempty(s: Seq<char>)
    ensures
        newline_pieces(s).len() >= 1,
    decreases s.len(),
{
    if s.len() > 0 {
        lemma_pieces_nonempty(s.drop_last());
    }
}

/// `l` holds no newline.
pub open spec fn no_newline(l: Seq<char>) -> bool {
    forall|i: int| 0 <= i < l.len() ==> #[trigger] l[i] != '\n'
}

proof fn lemma_pieces_push(s: Seq<char>, c: char)
    ensures
        newline_pieces(s.push(c)) == (if c == '\n' {
            newline_pieces(s).push(Seq::<char>::empty())
        } else {
            newline_pieces(s).update(
                newline_pieces(s).len() - 1,
                newline_pieces(s).last().push(c),
            )
        }),
{
    assert(s.push(c).drop_last() =~= s);
}

proof fn lemma_pieces_no_newline(s: Seq<char>)
    ensures
        forall|i: int|
            0 <= i < newline_pieces(s).len() ==> no_newline(#[trigger] newline_pieces(s)[i]),
    decreases s.len(),
{
    lemma_pieces_nonempty(s);
    if s.len() > 0 {
        let t = s.drop_last();
        lemma_pieces_no_newline(t);
        lemma_pieces_nonempty(t);
        assert(t.push(s.last()) =~= s);
        lemma_pieces_push(t, s.last());
        let p = newline_pieces(t);
        if s.last() != '\n' {
            assert(no_newline(p.last().push(s.last())));
        }
    }
}

/// The lines of a text hold no newline.
pub proof fn lemma_lines_no_newline(s: Seq<char>)
    ensures
        forall|i: int| 0 <= i < text_lines(s).len() ==> no_newline(#[trigger] text_lines(s)[i]),
{
    lemma_pieces_nonempty(s);
    lemma_pieces_no_newline(s);
    let p = newline_pieces(s);
    assert forall|i: int| 0 <= i < text_lines(s).len() implies no_newline(
        #[trigger] text_lines(s)[i],
    ) by {
        if i < p.len() - 1 {
            assert(no_newline(p[i]));
            assert(text_lines(s)[i] == strip_cr(p[i]));
        } else {
            assert(text_lines(s)[i] == p.last());
        }
    }
}

proof fn lemma_pieces_append_line(x: Seq<char>, l: Seq<char>)
    requires
        no_newline(l),
    ensures
        newline_pieces(x + l) == newline_pieces(x).update(
            newline_pieces(x).len() - 1,
            newline_pieces(x).last() + l,
        ),
    decreases l.len(),
{
    lemma_pieces_nonempty(x);
    let p = newline_pieces(x);
    if l.len() == 0 {
        assert(x + l =~= x);
        assert(p.last() + l =~= p.last());
        assert(p.update(p.len() - 1, p.last()) =~= p);
    } else {
        let l2 = l.drop_last();
        let c = l.last();
        lemma_pieces_append_line(x, l2);
        assert((x + l2).push(c) =~= x + l);
        lemma_pieces_push(x + l2, c);
        assert((p.last() + l2).push(c) =~= p.last() + l);
        assert(p.update(p.len() - 1, p.last() + l2).update(p.len() - 1, p.last() + l) =~= p.update(
            p.len() - 1,
            p.last() + l,
        ));
    }
}

/// Lines without newlines, joined, split back into those lines and an empty
/// last piece.
pub(crate) proof fn lemma_pieces_joined(ls: Seq<Seq<char>>)
    requires
        forall|i: int| 0 <= i < ls.len() ==> no_newline(#[trigger] ls[i]),
    ensures
        newline_pieces(joined_lines(ls)) == ls.push(Seq::<char>::empty()),
    decreases ls.len(),
{
    if ls.len() == 0 {
        assert(newline_pieces(Seq::<char>::empty()) =~= ls.push(Seq::<char>::empty()));
    } else {
        let rest = ls.drop_last();
        let l = ls.last();
        lemma_pieces_joined(rest);
        let j = joined_lines(rest);
        assert(no_newline(ls[ls.len() - 1]));
        lemma_pieces_append_line(j, l);
        let p = rest.push(Seq::<char>::empty());
        assert(Seq::<char>::empty() + l =~= l);
        assert(p.update(p.len() - 1, p.last() + l) =~= ls);
        assert((j + l).push('\n') =~= joined_lines(ls));
        lemma_pieces_push(j + l, '\n');
    }
}

/// The pieces of a prefix of `s`, when only whitespace follows the prefix:
/// the pieces of `s` up to the last one, which is cut short by whitespace.
pub(crate) proof fn lemma_pieces_prefix(s: Seq<char>, h: int)
    requires
        0 <= h <= s.len(),
        all_white(s.subrange(h, s.len() as int)),
    ensures
        ({
            let q = newline_pieces(s.subrange(0, h));
            let p = newline_pieces(s);
            let n = q.len() - 1;
            &&& 1 <= q.len() <= p.len()
            &&& forall|i: int| 0 <= i < n ==> q[i] == #[trigger] p[i]
            &&& q.last().len() <= p[n].len()
            &&& q.last() == p[n].subrange(0, q.last().len() as int)
            &&& all_white(p[n].subrange(q.last().len() as int, p[n].len() as int))
        }),
    decreases s.len() - h,
{
    lemma_pieces_nonempty(s.subrange(0, h));
    lemma_pieces_nonempty(s);
    if h == s.len() {
        assert(s.subrange(0, h) =~= s);
        let p = newline_pieces(s);
        assert(p.last().subrange(0, p.last().len() as int) =~= p.last());
    } else {
        assert(all_white(s.subrange(h + 1, s.len() as int))) by {
            assert forall|i: int| 0 <= i < s.len() - (h + 1) implies is_white_space(
                #[trigger] s.subrange(h + 1, s.len() as int)[i],
            ) by {
                assert(s.subrange(h + 1, s.len() as int)[i] == s.subrange(h, s.len() as int)[i
                    + 1]);
            }
        }
        lemma_pieces_prefix(s, h + 1);
        let c = s[h];
        assert(is_white_space(s.subrange(h, s.len() as int)[0]));
        assert(s.subrange(0, h).push(c) =~= s.subrange(0, h + 1));
        lemma_pieces_push(s.subrange(0, h), c);
        let q = newline_pieces(s.subrange(0, h));
        let q1 = newline_pieces(s.subrange(0, h + 1));
        let p = newline_pieces(s);
        if c == '\n' {
            assert(q1 == q.push(Seq::<char>::empty()));
            let n = q.len() - 1;
            assert(q.last() == q1[n]);
            assert(q1[n] == p[n]);
            assert(p[n].subrange(0, p[n].len() as int) =~= p[n]);
            assert(p[n].subrange(p[n].len() as int, p[n].len() as int) =~= Seq::<char>::empty());
        } else {
            let n = q.len() - 1;
            assert(q1 == q.update(n, q.last().push(c)));
            assert(q1.last() == q.last().push(c));
            let m = q.last().len() as int;
            let pn = p[n];
            assert(q.last() =~= pn.subrange(0, m)) by {
                assert(q1.last() == pn.subrange(0, m + 1));
                assert forall|i: int| 0 <= i < m implies q.last()[i] == pn.subrange(0, m)[i] by {
                    assert(q1.last()[i] == q.last()[i]);
                }
            }
            assert(all_white(pn.subrange(m, pn.len() as int))) by {
                assert forall|i: int| 0 <= i < pn.len() - m implies is_white_space(
                    #[trigger] pn.subrange(m, pn.len() as int)[i],
                ) by {
                    if i == 0 {
                        assert(q1.last()[m] == c);
                        assert(pn.subrange(0, m + 1)[m] == pn[m]);
                    } else {
                        assert(pn.subrange(m, pn.len() as int)[i] == pn.subrange(
                            m + 1,
                            pn.len() as int,
                        )[i - 1]);
                    }
                }
            }
        }
    }
}

/// The position where the trailing whitespace of `s[lo..hi]` begins.
pub(crate) fn trailing_ws_start(s: &Vec<char>, lo: usize, hi: usize) -> (r: usize)
    requires
        lo <= hi <= s.len(),
    ensures
        lo <= r <= hi,
        trim_end_spec(s@.subrange(lo as int, hi as int)) == s@.subrange(lo as int, r as int),
{
    let mut h = hi;
    while h > lo && s[h - 1].is_whitespace()
        invariant
            lo <= h <= hi <= s.len(),
            trim_end_spec(s@.subrange(lo as int, hi as int)) == trim_end_spec(
                s@.subrange(lo as int, h as int),
            ),
        decreases h,
    {
        assert(s@.subrange(lo as int, h as int).drop_last() =~= s@.subrange(
            lo as int,
            h - 1 as int,
        ));
        h = h - 1;
    }
    h
}

/// `line` with its leading and trailing whitespace taken off.
pub fn trimmed(line: &Vec<char>) -> (r: Vec<char>)
    ensures
        r@ == trim_spec(line@),
{
    let n = line.len();
    let mut lo: usize = 0;
    assert(line@.subrange(0, n as int) =~= line@);
    while lo < n && line[lo].is_whitespace()
        invariant
            lo <= n == line.len(),
            trim_start_spec(line@) == trim_start_spec(line@.subrange(lo as int, n as int)),
        decreases n - lo,
    {
        assert(line@.subrange(lo as int, n as int).drop_first() =~= line@.subrange(
            lo + 1 as int,
            n as int,
        ));
        lo = lo + 1;
    }
    assert(trim_start_spec(line@) == line@.subrange(lo as int, n as int));
    let hi = trailing_ws_start(line, lo, n);
    let mut out: Vec<char> = Vec::new();
    let mut i = lo;
    while i < hi
        invariant
            lo <= i <= hi <= n == line.len(),
            out@ == line@.subrange(lo as int, i as int),
        decreases hi - i,
    {
        out.push(line[i]);
        assert(out@ =~= line@.subrange(lo as int, i + 1 as int));
        i = i + 1;
    }
    out
}

/// Whether two character sequences are equal.
pub fn chars_equal(a: &Vec<char>, b: &Vec<char>) -> (r: bool)
    ensures
        r == (a@ == b@),
{
    if a.len() != b.len() {
        return false;
    }
    let mut i: usize = 0;
    while i < a.len()
        invariant
            a.len() == b.len(),
            i <= a.len(),
            forall|j: int| 0 <= j < i ==> a@[j] == b@[j],
        decreases a.len() - i,
    {
        if a[i] != b[i] {
            return false;
        }
        i = i + 1;
    }
    assert(a@ =~= b@);
    true
}

/// The character sequences held in a vector of lines.
pub open spec fn lines_view(ls: Seq<Vec<char>>) -> Seq<Seq<char>> {
    ls.map_values(|l: Vec<char>| l@)
}

/// The lines of `s`, as `str::lines` gives them.
pub fn split_lines(s: &Vec<char>) -> (r: Vec<Vec<char>>)
    ensures
        lines_view(r@) == text_lines(s@),
{
    let mut lines: Vec<Vec<char>> = Vec::new();
    let mut cur: Vec<char> = Vec::new();
    let mut i: usize = 0;
    while i < s.len()
        invariant
            i <= s.len(),
            newline_pieces(s@.subrange(0, i as int)).len() >= 1,
            lines_view(lines@) == ({
                let p = newline_pieces(s@.subrange(0, i as int));
                p.subrange(0, p.len() - 1).map_values(|l: Seq<char>| strip_cr(l))
            }),
            cur@ == newline_pieces(s@.subrange(0, i as int)).last(),
        decreases s.len() - i,
    {
        let ghost pre = s@.subrange(0, i as int);
        let ghost p = newline_pieces(pre);
        assert(s@.subrange(0, i + 1 as int).drop_last() =~= pre);
        let c = s[i];
        if c == '\n' {
            let mut done = cur;
            if done.len() > 0 && done[done.len() - 1] == '\r' {
                done.pop();
            }
            assert(done@ == strip_cr(p.last()));
            let ghost old_lines = lines@;
            lines.push(done);
            cur = Vec::new();
            assert(lines_view(lines@) =~= lines_view(old_lines).push(done@));
            proof {
                let q = newline_pieces(s@.subrange(0, i + 1 as int));
                assert(q == p.push(Seq::<char>::empty()));
                assert(lines_view(lines@) =~= q.subrange(0, q.len() - 1).map_values(
                    |l: Seq<char>| strip_cr(l),
                ));
            }
        } else {
            cur.push(c);
            proof {
                let q = newline_pieces(s@.subrange(0, i + 1 as int));
                assert(q == p.update(p.len() - 1, p.last().push(c)));
                assert(q.subrange(0, q.len() - 1) =~= p.subrange(0, p.len() - 1));
            }
        }
        i = i + 1;
    }
    assert(s@.subrange(0, s.len() as int) =~= s@);
    if cur.len() > 0 {
        proof {
            let p = newline_pieces(s@);
            assert(lines_view(lines@.push(cur)) =~= lines_view(lines@).push(cur@));
        }
        lines.push(cur);
    }
    lines
}

} // verus!
