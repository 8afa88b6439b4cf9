use vstd::prelude::*;
use vstd::string::*;

verus! {

/// Whether `p` occurs in `s` as a contiguous run of characters.
pub open spec fn has_substring(s: Seq<char>, p: Seq<char>) -> bool {
    exists|i: int| 0 <= i <= s.len() - p.len() && #[trigger] s.subrange(i, i + p.len()) == p
}

/// A line without the carriage return that precedes its line feed.
pub open spec fn chomp_cr(l: Seq<char>) -> Seq<char> {
    if l.len() > 0 && l.last() == '\r' {
        l.drop_last()
    } else {
        l
    }
}

/// Reading `s` from the left: the lines completed so far, and the partial line.
pub open spec fn scan_lines(s: Seq<char>) -> (Seq<Seq<char>>, Seq<char>)
    decreases s.len(),
{
    if s.len() == 0 {
        (seq![], seq![])
    } else {
        let (done, cur) = scan_lines(s.drop_last());
        if s.last() == '\n' {
            (done.push(chomp_cr(cur)), seq![])
        } else {
            (done, cur.push(s.last()))
        }
    }
}

/// The lines of a text: split at each `\n` (a `\r` just before it dropped too);
/// a final line ending is optional, and an empty text has no lines.
pub open spec fn lines_of(s: Seq<char>) -> Seq<Seq<char>> {
    let (done, cur) = scan_lines(s);
    if cur.len() == 0 {
        done
    } else {
        done.push(cur)
    }
}

/// The text made of `ls`, each line followed by one `\n`.
pub open spec fn join_lines(ls: Seq<Seq<char>>) -> Seq<char>
    decreases ls.len(),
{
    if ls.len() == 0 {
        seq![]
    } else {
        join_lines(ls.drop_last()) + ls.last() + seq!['\n']
    }
}

/// Whether `s` contains `p`.
pub fn contains(s: &str, p: &str) -> (r: bool)
    ensures
        r == has_substring(s@, p@),
{
    let n = s.unicode_len();
    let m = p.unicode_len();
    if m > n {
        return false;
    }
    if m == 0 {
        assert(s@.subrange(0, 0 + p@.len() as int) =~= p@);
        return true;
    }
    let mut i: usize = 0;
    while i <= n - m
        invariant
            1 <= m <= n,
            n == s@.len(),
            m == p@.len(),
            0 <= i <= n - m + 1,
            forall|k: int| 0 <= k < i ==> #[trigger] s@.subrange(k, k + m) != p@,
        decreases n - m + 1 - i,
    {
        let mut j: usize = 0;
        let mut same = true;
        while j < m
            invariant
                m <= n,
                n == s@.len(),
                m == p@.len(),
                i <= n - m,
                0 <= j <= m,
                same ==> forall|t: int| 0 <= t < j ==> s@[i + t] == p@[t],
                !same ==> s@.subrange(i as int, i + m) != p@,
            ensures
                same ==> forall|t: int| 0 <= t < m ==> s@[i + t] == p@[t],
                !same ==> s@.subrange(i as int, i + m) != p@,
            decreases m - j,
        {
            if s.get_char(i + j) != p.get_char(j) {
                assert(s@.subrange(i as int, i + m)[j as int] != p@[j as int]);
                same = false;
                break;
            }
            j += 1;
        }
        if same {
            assert(s@.subrange(i as int, i + m) =~= p@);
            return true;
        }
        i += 1;
    }
    false
}

/// Splits a text into its lines.
pub fn split_lines(s: &str) -> (r: Vec<String>)
    ensures
        r.deep_view() == lines_of(s@),
{
    let n = s.unicode_len();
    let mut out: Vec<String> = Vec::new();
    let mut start: usize = 0;
    let mut i: usize = 0;
    while i < n
        invariant
            n == s@.len(),
            0 <= start <= i <= n,
            scan_lines(s@.subrange(0, i as int)) == (out.deep_view(), s@.subrange(
                start as int,
                i as int,
            )),
        decreases n - i,
    {
        let ghost pre = s@.subrange(0, i as int);
        let ghost cur = s@.subrange(start as int, i as int);
        assert(s@.subrange(0, i + 1).drop_last() =~= pre);
        let c = s.get_char(i);
        if c == '\n' {
            let end: usize = if i > start && s.get_char(i - 1) == '\r' {
                i - 1
            } else {
                i
            };
            assert(s@.subrange(start as int, end as int) =~= chomp_cr(cur));
            let line = String::from_str(s.substring_char(start, end));
            let ghost before = out.deep_view();
            out.push(line);
            assert(out.deep_view() =~= before.push(chomp_cr(cur)));
            start = i + 1;
            assert(s@.subrange(start as int, i + 1) =~= Seq::<char>::empty());
        } else {
            assert(s@.subrange(start as int, i + 1) =~= cur.push(c));
        }
        i += 1;
    }
    assert(s@.subrange(0, n as int) =~= s@);
    if start < n {
        let line = String::from_str(s.substring_char(start, n));
        let ghost before = out.deep_view();
        out.push(line);
        assert(out.deep_view() =~= before.push(s@.subrange(start as int, n as int)));
    }
    out
}

/// Joins lines into a text, each line followed by one `\n`.
pub fn join(lines: &Vec<String>) -> (r: String)
    ensures
        r@ == join_lines(lines.deep_view()),
{
    let mut out = String::new();
    let mut i: usize = 0;
    proof {
        reveal_strlit("\n");
    }
    while i < lines.len()
        invariant
            0 <= i <= lines@.len(),
            out@ == join_lines(lines.deep_view().subrange(0, i as int)),
            "\n"@ == seq!['\n'],
        decreases lines@.len() - i,
    {
        assert(lines.deep_view().subrange(0, i + 1).drop_last() =~= lines.deep_view().subrange(
            0,
            i as int,
        ));
        out.append(lines[i].as_str());
        out.append("\n");
        i += 1;
    }
    assert(lines.deep_view().subrange(0, i as int) =~= lines.deep_view());
    out
}

} // verus!
