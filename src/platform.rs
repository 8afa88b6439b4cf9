use vstd::prelude::*;
use vstd::string::*;

verus! {

/// A target platform of the mobile project. `All` stands for both concrete platforms.
#[derive(Debug, Clone, Copy, PartialEq, Eq, Structural)]
pub enum Platform {
    Android,
    Ios,
    All,
}

/// The concrete platforms that `p` stands for.
pub open spec fn expand(p: Platform) -> Seq<Platform> {
    match p {
        Platform::All => seq![Platform::Android, Platform::Ios],
        q => seq![q],
    }
}

/// The tag under which a platform's regions are marked in template files.
pub open spec fn name_of(p: Platform) -> Seq<char> {
    match p {
        Platform::Android => "android"@,
        Platform::Ios => "ios"@,
        Platform::All => "all"@,
    }
}

/// A selection of platforms to configure: non-empty, and only concrete platforms.
pub open spec fn valid_selection(s: Seq<Platform>) -> bool {
    &&& s.len() > 0
    &&& forall|i: int| 0 <= i < s.len() ==> s[i] != Platform::All
}

/// The concrete platforms left out of a selection, Android first.
pub open spec fn ignored_of(s: Seq<Platform>) -> Seq<Platform> {
    (if s.contains(Platform::Android) { seq![] } else { seq![Platform::Android] }) + (if s.contains(
        Platform::Ios,
    ) {
        seq![]
    } else {
        seq![Platform::Ios]
    })
}

impl Platform {
    pub fn as_platforms(self) -> (r: Vec<Platform>)
        ensures
            r@ == expand(self),
            valid_selection(r@),
    {
        match self {
            Platform::All => vec![Platform::Android, Platform::Ios],
            platform => vec![platform],
        }
    }

    pub fn name(&self) -> (r: String)
        ensures
            r@ == name_of(*self),
    {
        match self {
            Platform::Android => String::from_str("android"),
            Platform::Ios => String::from_str("ios"),
            Platform::All => String::from_str("all"),
        }
    }
}

/// Whether `p` occurs in `v`.
pub fn includes(v: &Vec<Platform>, p: Platform) -> (r: bool)
    ensures
        r == v@.contains(p),
{
    let mut i: usize = 0;
    while i < v.len()
        invariant
            0 <= i <= v@.len(),
            forall|k: int| 0 <= k < i ==> v@[k] != p,
        decreases v@.len() - i,
    {
        if v[i] == p {
            return true;
        }
        i += 1;
    }
    false
}

/// Whether `v` is a valid selection: non-empty, and no `All` in it.
pub fn is_valid_selection(v: &Vec<Platform>) -> (r: bool)
    ensures
        r == valid_selection(v@),
{
    if v.len() == 0 {
        return false;
    }
    let mut i: usize = 0;
    while i < v.len()
        invariant
            0 <= i <= v@.len(),
            forall|k: int| 0 <= k < i ==> v@[k] != Platform::All,
        decreases v@.len() - i,
    {
        if v[i] == Platform::All {
            return false;
        }
        i += 1;
    }
    true
}

/// The concrete platforms that `selected` leaves out: their regions are stripped.
pub fn ignored_platforms(selected: &Vec<Platform>) -> (r: Vec<Platform>)
    ensures
        r@ == ignored_of(selected@),
{
    let mut r: Vec<Platform> = Vec::new();
    if !includes(selected, Platform::Android) {
        r.push(Platform::Android);
    }
    if !includes(selected, Platform::Ios) {
        r.push(Platform::Ios);
    }
    assert(r@ =~= ignored_of(selected@));
    r
}

/// The ignored platforms are exactly the concrete platforms that the selection
/// leaves out: none of them is selected, and every concrete platform is either
/// selected or ignored.
pub proof fn lemma_ignored_is_complement(s: Seq<Platform>)
    ensures
        forall|i: int| 0 <= i < ignored_of(s).len() ==> !s.contains(#[trigger] ignored_of(s)[i]),
        forall|p: Platform|
            p != Platform::All ==> (s.contains(p) || #[trigger] ignored_of(s).contains(p)),
        !ignored_of(s).contains(Platform::All),
        s.contains(Platform::Android) && s.contains(Platform::Ios) ==> ignored_of(s).len() == 0,
{
    let ig = ignored_of(s);
    if !s.contains(Platform::Android) {
        assert(ig[0] == Platform::Android);
    }
    if !s.contains(Platform::Ios) {
        assert(ig[ig.len() - 1] == Platform::Ios);
    }
    assert forall|p: Platform| #[trigger] ig.contains(p) implies p != Platform::All by {
        let k = choose|k: int| 0 <= k < ig.len() && ig[k] == p;
    }
}

} // verus!
