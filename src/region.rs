use vstd::prelude::*;
use vstd::string::*;
use crate::text::{contains, has_substring, join, join_lines, lines_of, split_lines};

verus! {

/// The line marker that opens a region tagged `tag`.
pub open spec fn begin_marker(tag: Seq<char>) -> Seq<char> {
    "# region "@ + tag
}

/// The line marker that closes a region tagged `tag`.
pub open spec fn end_marker(tag: Seq<char>) -> Seq<char> {
    "# endregion "@ + tag
}

/// Reading `lines` in order: the lines kept so far, and whether a region is open.
/// A line holding `b` opens a region and is dropped; every line while a region is
/// open is dropped; a line holding `e` closes it (and is dropped if it was open).
pub open spec fn strip_scan(lines: Seq<Seq<char>>, b: Seq<char>, e: Seq<char>) -> (
    Seq<Seq<char>>,
    bool,
)
    decreases lines.len(),
{
    if lines.len() == 0 {
        (seq![], false)
    } else {
        let (kept, open) = strip_scan(lines.drop_last(), b, e);
        let l = lines.last();
        let inside = open || has_substring(l, b);
        (
            if inside {
                kept
            } else {
                kept.push(l)
            },
            if has_substring(l, e) {
                false
            } else {
                inside
            },
        )
    }
}

/// The lines that remain once every region tagged `tag` is removed.
pub open spec fn stripped(lines: Seq<Seq<char>>, tag: Seq<char>) -> Seq<Seq<char>> {
    strip_scan(lines, begin_marker(tag), end_marker(tag)).0
}

/// Removes from `lines` every region tagged `region`, marker lines included.
/// A region left open runs to the end of the lines.
pub fn remove_region_lines(lines: &Vec<String>, region: &str) -> (r: Vec<String>)
    ensures
        r.deep_view() == stripped(lines.deep_view(), region@),
{
    let begin = String::from_str("# region ").concat(region);
    let end = String::from_str("# endregion ").concat(region);
    let ghost b = begin_marker(region@);
    let ghost e = end_marker(region@);
    let ghost all = lines.deep_view();
    let mut out: Vec<String> = Vec::new();
    let mut open = false;
    let mut i: usize = 0;
    while i < lines.len()
        invariant
            0 <= i <= lines@.len(),
            all == lines.deep_view(),
            begin@ == b,
            end@ == e,
            strip_scan(all.subrange(0, i as int), b, e) == (out.deep_view(), open),
        decreases lines@.len() - i,
    {
        assert(all.subrange(0, i + 1).drop_last() =~= all.subrange(0, i as int));
        let line = &lines[i];
        if contains(line.as_str(), begin.as_str()) {
            open = true;
        }
        if !open {
            let ghost before = out.deep_view();
            out.push(line.clone());
            assert(out.deep_view() =~= before.push(all[i as int]));
        }
        if contains(line.as_str(), end.as_str()) {
            open = false;
        }
        i += 1;
    }
    assert(all.subrange(0, i as int) =~= all);
    out
}

/// Removes every region tagged `region` from a text; the result has one `\n`
/// after each kept line. A text without the region is returned with its lines as
/// they were.
pub fn remove_region(contents: &str, region: &str) -> (r: String)
    ensures
        r@ == join_lines(stripped(lines_of(contents@), region@)),
{
    let lines = split_lines(contents);
    let kept = remove_region_lines(&lines, region);
    join(&kept)
}

/// Without a line that opens a region, nothing is dropped.
proof fn lemma_scan_without_begin(lines: Seq<Seq<char>>, b: Seq<char>, e: Seq<char>)
    requires
        forall|k: int| 0 <= k < lines.len() ==> !has_substring(#[trigger] lines[k], b),
    ensures
        strip_scan(lines, b, e) == (lines, false),
    decreases lines.len(),
{
    if lines.len() > 0 {
        let front = lines.drop_last();
        assert forall|k: int| 0 <= k < front.len() implies !has_substring(#[trigger] front[k], b) by {
            assert(front[k] == lines[k]);
        }
        lemma_scan_without_begin(front, b, e);
        assert(front.push(lines.last()) =~= lines);
    }
}

/// No kept line opens a region.
proof fn lemma_kept_lines_lack_begin(lines: Seq<Seq<char>>, b: Seq<char>, e: Seq<char>)
    ensures
        forall|k: int|
            0 <= k < strip_scan(lines, b, e).0.len() ==> !has_substring(
                #[trigger] strip_scan(lines, b, e).0[k],
                b,
            ),
    decreases lines.len(),
{
    if lines.len() > 0 {
        let front = lines.drop_last();
        lemma_kept_lines_lack_begin(front, b, e);
        let kept = strip_scan(front, b, e).0;
        let out = strip_scan(lines, b, e).0;
        assert forall|k: int| 0 <= k < out.len() implies !has_substring(#[trigger] out[k], b) by {
            if k < kept.len() {
                assert(out[k] == kept[k]);
            }
        }
    }
}

/// A file in which no line opens a region tagged `tag` keeps all its lines.
pub proof fn lemma_absent_tag_is_noop(lines: Seq<Seq<char>>, tag: Seq<char>)
    requires
        forall|k: int| 0 <= k < lines.len() ==> !has_substring(#[trigger] lines[k], begin_marker(tag)),
    ensures
        stripped(lines, tag) == lines,
{
    lemma_scan_without_begin(lines, begin_marker(tag), end_marker(tag));
}

/// Removing the regions of a tag a second time changes nothing.
pub proof fn lemma_strip_idempotent(lines: Seq<Seq<char>>, tag: Seq<char>)
    ensures
        stripped(stripped(lines, tag), tag) == stripped(lines, tag),
{
    lemma_kept_lines_lack_begin(lines, begin_marker(tag), end_marker(tag));
    lemma_absent_tag_is_noop(stripped(lines, tag), tag);
}

/// The scan over the first `n` lines of a file with one region, from line `i` to line `j`.
proof fn lemma_scan_single_region(
    lines: Seq<Seq<char>>,
    b: Seq<char>,
    e: Seq<char>,
    i: int,
    j: int,
    n: int,
)
    requires
        0 <= i < j < lines.len(),
        0 <= n <= lines.len(),
        has_substring(lines[i], b),
        has_substring(lines[j], e),
        forall|k: int| 0 <= k < lines.len() && k != i ==> !has_substring(#[trigger] lines[k], b),
        forall|k: int| 0 <= k < lines.len() && k != j ==> !has_substring(#[trigger] lines[k], e),
    ensures
        n <= i ==> strip_scan(lines.subrange(0, n), b, e) == (lines.subrange(0, n), false),
        i < n <= j ==> strip_scan(lines.subrange(0, n), b, e) == (lines.subrange(0, i), true),
        j < n ==> strip_scan(lines.subrange(0, n), b, e) == (
            lines.subrange(0, i) + lines.subrange(j + 1, n),
            false,
        ),
    decreases n,
{
    if n > 0 {
        lemma_scan_single_region(lines, b, e, i, j, n - 1);
        let pre = lines.subrange(0, n);
        assert(pre.drop_last() =~= lines.subrange(0, n - 1));
        assert(pre.last() == lines[n - 1]);
        if n <= i {
            assert(lines.subrange(0, n - 1).push(lines[n - 1]) =~= pre);
        } else if n - 1 == j {
            assert(lines.subrange(j + 1, n) =~= Seq::<Seq<char>>::empty());
            assert(lines.subrange(0, i) + lines.subrange(j + 1, n) =~= lines.subrange(0, i));
        } else if j < n - 1 {
            assert((lines.subrange(0, i) + lines.subrange(j + 1, n - 1)).push(lines[n - 1])
                =~= lines.subrange(0, i) + lines.subrange(j + 1, n));
        }
    }
}

/// A file with exactly one region tagged `tag`, opened on line `i` and closed on
/// line `j`, loses exactly lines `i` to `j` inclusive; the rest keep their order.
pub proof fn lemma_single_region_removed(lines: Seq<Seq<char>>, tag: Seq<char>, i: int, j: int)
    requires
        0 <= i < j < lines.len(),
        has_substring(lines[i], begin_marker(tag)),
        has_substring(lines[j], end_marker(tag)),
        forall|k: int|
            0 <= k < lines.len() && k != i ==> !has_substring(#[trigger] lines[k], begin_marker(tag)),
        forall|k: int|
            0 <= k < lines.len() && k != j ==> !has_substring(#[trigger] lines[k], end_marker(tag)),
    ensures
        stripped(lines, tag) == lines.subrange(0, i) + lines.subrange(j + 1, lines.len() as int),
{
    lemma_scan_single_region(lines, begin_marker(tag), end_marker(tag), i, j, lines.len() as int);
    assert(lines.subrange(0, lines.len() as int) =~= lines);
}

} // verus!
