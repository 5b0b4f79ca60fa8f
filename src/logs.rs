use crate::text::{chars_of, push_char};
use vstd::prelude::*;

verus! {

/// Unicode `White_Space`, the set `str::trim` removes.
pub open spec fn white_space(c: char) -> bool {
    ('\u{9}' <= c && c <= '\u{d}') || c == ' ' || c == '\u{85}' || c == '\u{a0}' || c == '\u{1680}'
        || ('\u{2000}' <= c && c <= '\u{200a}') || c == '\u{2028}' || c == '\u{2029}' || c
        == '\u{202f}' || c == '\u{205f}' || c == '\u{3000}'
}

pub fn is_white_space(c: char) -> (r: bool)
    ensures
        r == white_space(c),
{
    ('\u{9}' <= c && c <= '\u{d}') || c == ' ' || c == '\u{85}' || c == '\u{a0}' || c == '\u{1680}'
        || ('\u{2000}' <= c && c <= '\u{200a}') || c == '\u{2028}' || c == '\u{2029}' || c
        == '\u{202f}' || c == '\u{205f}' || c == '\u{3000}'
}

/// A line with nothing but white space.
pub open spec fn blank(l: Seq<char>) -> bool {
    forall|i: int| 0 <= i < l.len() ==> white_space(#[trigger] l[i])
}

/// The pieces of `s` between line feeds; the last piece follows the last
/// line feed (and may be empty).
pub open spec fn segments(s: Seq<char>) -> Seq<Seq<char>>
    decreases s.len(),
{
    if s.len() == 0 {
        seq![Seq::empty()]
    } else {
        let prev = segments(s.drop_last());
        if s.last() == '\n' {
            prev.push(Seq::empty())
        } else {
            prev.update(prev.len() - 1, prev.last().push(s.last()))
        }
    }
}

/// `l` without one trailing carriage return.
pub open spec fn strip_cr(l: Seq<char>) -> Seq<char> {
    if l.len() > 0 && l.last() == '\r' {
        l.drop_last()
    } else {
        l
    }
}

/// The lines of a text: a carriage return before a line feed belongs to the
/// line ending.
pub open spec fn line_texts(segs: Seq<Seq<char>>) -> Seq<Seq<char>> {
    Seq::new(
        segs.len(),
        |k: int|
            if k < segs.len() - 1 {
                strip_cr(segs[k])
            } else {
                segs[k]
            },
    )
}

/// The lines of `ls` that are not blank, in order.
pub open spec fn nonblank(ls: Seq<Seq<char>>) -> Seq<Seq<char>>
    decreases ls.len(),
{
    if ls.len() == 0 {
        Seq::empty()
    } else {
        let prev = nonblank(ls.drop_last());
        if blank(ls.last()) {
            prev
        } else {
            prev.push(ls.last())
        }
    }
}

/// The lines of `s` that hold something besides white space.
pub open spec fn content_lines(s: Seq<char>) -> Seq<Seq<char>> {
    nonblank(line_texts(segments(s)))
}

fn split_segments(chars: &Vec<char>) -> (r: Vec<Vec<char>>)
    ensures
        r@.map_values(|v: Vec<char>| v@) == segments(chars@),
{
    let mut segs: Vec<Vec<char>> = Vec::new();
    let mut cur: Vec<char> = Vec::new();
    let mut i: usize = 0;
    assert(chars@.subrange(0, 0) =~= Seq::<char>::empty());
    assert(segs@.map_values(|v: Vec<char>| v@).push(cur@) =~= seq![Seq::<char>::empty()]);
    while i < chars.len()
        invariant
            i <= chars.len(),
            segs@.map_values(|v: Vec<char>| v@).push(cur@) == segments(chars@.subrange(0, i as int)),
        decreases chars.len() - i,
    {
        let ghost before = segs@.map_values(|v: Vec<char>| v@);
        let ghost pre = chars@.subrange(0, i + 1);
        assert(pre.drop_last() =~= chars@.subrange(0, i as int));
        if chars[i] == '\n' {
            let done = cur;
            segs.push(done);
            cur = Vec::new();
            assert(segs@.map_values(|v: Vec<char>| v@) =~= before.push(done@));
            assert(segs@.map_values(|v: Vec<char>| v@).push(cur@) =~= segments(pre));
        } else {
            cur.push(chars[i]);
            assert(segs@.map_values(|v: Vec<char>| v@).push(cur@) =~= segments(pre));
        }
        i = i + 1;
    }
    assert(chars@.subrange(0, chars.len() as int) =~= chars@);
    let ghost before = segs@.map_values(|v: Vec<char>| v@);
    let ghost last = cur@;
    segs.push(cur);
    assert(segs@.map_values(|v: Vec<char>| v@) =~= before.push(last));
    segs
}

fn all_white(l: &Vec<char>, end: usize) -> (r: bool)
    requires
        end <= l.len(),
    ensures
        r == blank(l@.subrange(0, end as int)),
{
    let mut i: usize = 0;
    while i < end
        invariant
            i <= end <= l.len(),
            forall|j: int| 0 <= j < i ==> white_space(#[trigger] l@[j]),
        decreases end - i,
    {
        if !is_white_space(l[i]) {
            assert(l@.subrange(0, end as int)[i as int] == l@[i as int]);
            return false;
        }
        i = i + 1;
    }
    assert forall|j: int| 0 <= j < end implies white_space(#[trigger] l@.subrange(0, end as int)[j]) by {
        assert(l@.subrange(0, end as int)[j] == l@[j]);
    }
    true
}

/// The lines of `text` that hold something besides white space, in order.
pub fn log_lines(text: &str) -> (r: Vec<String>)
    ensures
        r@.map_values(|s: String| s@) == content_lines(text@),
{
    let chars = chars_of(text);
    let segs = split_segments(&chars);
    let ghost sv = segs@.map_values(|v: Vec<char>| v@);
    let ghost lines = line_texts(sv);
    let mut out: Vec<String> = Vec::new();
    let mut k: usize = 0;
    while k < segs.len()
        invariant
            k <= segs.len(),
            sv == segs@.map_values(|v: Vec<char>| v@),
            lines == line_texts(sv),
            out@.map_values(|s: String| s@) == nonblank(lines.subrange(0, k as int)),
        decreases segs.len() - k,
    {
        let seg = &segs[k];
        let mut end: usize = seg.len();
        if k + 1 < segs.len() && end > 0 && seg[end - 1] == '\r' {
            end = end - 1;
        }
        assert(seg@.subrange(0, end as int) == lines[k as int]) by {
            assert(sv[k as int] == seg@);
            if end < seg.len() {
                assert(seg@.subrange(0, end as int) =~= seg@.drop_last());
            } else {
                assert(seg@.subrange(0, end as int) =~= seg@);
            }
        }
        let ghost pre = lines.subrange(0, k + 1);
        assert(pre.drop_last() =~= lines.subrange(0, k as int));
        let ghost before = out@.map_values(|s: String| s@);
        if !all_white(seg, end) {
            let mut line = String::new();
            let mut j: usize = 0;
            while j < end
                invariant
                    j <= end <= seg.len(),
                    line@ =~= seg@.subrange(0, j as int),
                decreases end - j,
            {
                push_char(&mut line, seg[j]);
                j = j + 1;
            }
            out.push(line);
            assert(out@.map_values(|s: String| s@) =~= before.push(lines[k as int]));
        }
        k = k + 1;
    }
    assert(lines.subrange(0, segs.len() as int) =~= lines);
    out
}

/// Whether `p` occurs in `s`.
pub open spec fn occurs_in(s: Seq<char>, p: Seq<char>) -> bool {
    exists|i: int| 0 <= i && i + p.len() <= s.len() && #[trigger] s.subrange(i, i + p.len()) == p
}

fn occurs(s: &Vec<char>, p: &Vec<char>) -> (r: bool)
    ensures
        r == occurs_in(s@, p@),
{
    if p.len() > s.len() {
        return false;
    }
    let last: usize = s.len() - p.len();
    let mut i: usize = 0;
    while i <= last
        invariant
            p.len() <= s.len(),
            last == s.len() - p.len(),
            i <= last + 1,
            forall|k: int| 0 <= k < i ==> #[trigger] s@.subrange(k, k + p.len()) != p@,
        decreases last + 1 - i,
    {
        let mut j: usize = 0;
        while j < p.len() && s[i + j] == p[j]
            invariant
                i + p.len() <= s.len(),
                j <= p.len(),
                s@.subrange(i as int, i + j) =~= p@.subrange(0, j as int),
            decreases p.len() - j,
        {
            j = j + 1;
        }
        if j == p.len() {
            assert(p@.subrange(0, p.len() as int) =~= p@);
            return true;
        }
        assert(s@.subrange(i as int, i + p.len())[j as int] != p@[j as int]);
        i = i + 1;
    }
    false
}

/// Marker of lines that the orchestrator writes for itself.
pub open spec fn control_marker() -> Seq<char> {
    seq!['a', 'r', 'g', 'o', '=', 't', 'r', 'u', 'e']
}

/// The log text of `contents`: each line without the orchestrator's
/// marker, followed by a line feed.
pub open spec fn kept_log(contents: Seq<Seq<char>>) -> Seq<char>
    decreases contents.len(),
{
    if contents.len() == 0 {
        Seq::empty()
    } else {
        let prev = kept_log(contents.drop_last());
        if occurs_in(contents.last(), control_marker()) {
            prev
        } else {
            prev + contents.last() + seq!['\n']
        }
    }
}

/// Assembles a job log from the contents of its log lines, leaving out the
/// orchestrator's own lines (those holding `argo=true`).
pub fn collect_log_contents(contents: &Vec<String>) -> (r: String)
    ensures
        r@ == kept_log(contents@.map_values(|s: String| s@)),
{
    let marker_text = "argo=true";
    proof {
        reveal_strlit("argo=true");
    }
    let marker = chars_of(marker_text);
    assert(marker@ =~= control_marker());
    let ghost cv = contents@.map_values(|s: String| s@);
    let mut out = String::new();
    let mut k: usize = 0;
    while k < contents.len()
        invariant
            k <= contents.len(),
            marker@ == control_marker(),
            cv == contents@.map_values(|s: String| s@),
            out@ == kept_log(cv.subrange(0, k as int)),
        decreases contents.len() - k,
    {
        let ghost pre = cv.subrange(0, k + 1);
        assert(pre.drop_last() =~= cv.subrange(0, k as int));
        let line = chars_of(contents[k].as_str());
        if !occurs(&line, &marker) {
            out.append(contents[k].as_str());
            push_char(&mut out, '\n');
        }
        k = k + 1;
    }
    assert(cv.subrange(0, contents.len() as int) =~= cv);
    out
}

} // verus!
