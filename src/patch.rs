use vstd::prelude::*;
use vstd::string::*;
use crate::text::{contains, has_substring, join, join_lines, lines_of, split_lines};

verus! {

/// The dependency line of the build-automation tool in the dependency manifest.
pub const FASTLANE_GEM: &'static str = "gem 'fastlane'";

/// The dependency line that adds Cocoapods support.
pub const COCOAPODS_GEM: &'static str = "gem 'cocoapods'";

/// `lines` with `ins` placed right after every line that holds `marker`.
pub open spec fn patched(lines: Seq<Seq<char>>, marker: Seq<char>, ins: Seq<char>) -> Seq<
    Seq<char>,
>
    decreases lines.len(),
{
    if lines.len() == 0 {
        seq![]
    } else {
        let out = patched(lines.drop_last(), marker, ins).push(lines.last());
        if has_substring(lines.last(), marker) {
            out.push(ins)
        } else {
            out
        }
    }
}

/// Copies `lines`, and after each line that holds `marker` adds `inserted`.
pub fn insert_after_marker(lines: &Vec<String>, marker: &str, inserted: &str) -> (r: Vec<String>)
    ensures
        r.deep_view() == patched(lines.deep_view(), marker@, inserted@),
{
    let ghost all = lines.deep_view();
    let mut out: Vec<String> = Vec::new();
    let mut i: usize = 0;
    while i < lines.len()
        invariant
            0 <= i <= lines@.len(),
            all == lines.deep_view(),
            patched(all.subrange(0, i as int), marker@, inserted@) == out.deep_view(),
        decreases lines@.len() - i,
    {
        assert(all.subrange(0, i + 1).drop_last() =~= all.subrange(0, i as int));
        let line = &lines[i];
        let ghost before = out.deep_view();
        out.push(line.clone());
        assert(out.deep_view() =~= before.push(all[i as int]));
        if contains(line.as_str(), marker) {
            let ghost mid = out.deep_view();
            out.push(String::from_str(inserted));
            assert(out.deep_view() =~= mid.push(inserted@));
        }
        i += 1;
    }
    assert(all.subrange(0, i as int) =~= all);
    out
}

/// The dependency manifest `contents` with the Cocoapods dependency line added
/// after each build-automation dependency line; one `\n` after each line.
/// The insertion is unconditional: a run decides at most once to make it.
pub fn add_cocoapods(contents: &str) -> (r: String)
    ensures
        r@ == join_lines(patched(lines_of(contents@), FASTLANE_GEM@, COCOAPODS_GEM@)),
{
    let lines = split_lines(contents);
    let out = insert_after_marker(&lines, FASTLANE_GEM, COCOAPODS_GEM);
    join(&out)
}

/// Patching the first `n` lines of a file whose only marker line is line `i`.
proof fn lemma_patch_prefix(lines: Seq<Seq<char>>, marker: Seq<char>, ins: Seq<char>, i: int, n: int)
    requires
        0 <= i < lines.len(),
        0 <= n <= lines.len(),
        has_substring(lines[i], marker),
        forall|k: int| 0 <= k < lines.len() && k != i ==> !has_substring(#[trigger] lines[k], marker),
    ensures
        n <= i ==> patched(lines.subrange(0, n), marker, ins) == lines.subrange(0, n),
        i < n ==> patched(lines.subrange(0, n), marker, ins) == lines.subrange(0, i + 1) + seq![ins]
            + lines.subrange(i + 1, n),
    decreases n,
{
    if n > 0 {
        lemma_patch_prefix(lines, marker, ins, i, n - 1);
        let pre = lines.subrange(0, n);
        assert(pre.drop_last() =~= lines.subrange(0, n - 1));
        assert(pre.last() == lines[n - 1]);
        if n <= i {
            assert(lines.subrange(0, n - 1).push(lines[n - 1]) =~= pre);
        } else if n - 1 == i {
            assert(lines.subrange(0, n - 1).push(lines[n - 1]).push(ins) =~= lines.subrange(0, i + 1)
                + seq![ins] + lines.subrange(i + 1, n));
        } else {
            assert((lines.subrange(0, i + 1) + seq![ins] + lines.subrange(i + 1, n - 1)).push(
                lines[n - 1],
            ) =~= lines.subrange(0, i + 1) + seq![ins] + lines.subrange(i + 1, n));
        }
    }
}

/// In a file with exactly one line holding `marker` (line `i`), patching adds
/// exactly one line, `ins`, right after line `i`, and changes nothing else.
pub proof fn lemma_single_marker_patched(
    lines: Seq<Seq<char>>,
    marker: Seq<char>,
    ins: Seq<char>,
    i: int,
)
    requires
        0 <= i < lines.len(),
        has_substring(lines[i], marker),
        forall|k: int| 0 <= k < lines.len() && k != i ==> !has_substring(#[trigger] lines[k], marker),
    ensures
        patched(lines, marker, ins) == lines.subrange(0, i + 1) + seq![ins] + lines.subrange(
            i + 1,
            lines.len() as int,
        ),
        patched(lines, marker, ins).len() == lines.len() + 1,
        patched(lines, marker, ins)[i + 1] == ins,
{
    lemma_patch_prefix(lines, marker, ins, i, lines.len() as int);
    assert(lines.subrange(0, lines.len() as int) =~= lines);
}

} // verus!
