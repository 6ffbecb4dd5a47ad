//! Which binaries a coverage report is asked of: the one file named, or
//! every non-empty executable found under the directory named.

use vstd::prelude::*;

verus! {

/// One entry met while walking a directory.
pub struct Candidate {
    pub path: String,
    /// Whether the host's permissions mark the entry executable.
    pub executable: bool,
    /// The entry's size in bytes. It only counts for an executable entry,
    /// so a walk may leave it 0 for the others.
    pub size: u64,
}

/// What was found at the path given as the binary target.
pub enum Found {
    /// A regular file: it is the one target, whatever it holds.
    File(String),
    /// A directory: the entries of a recursive walk, in walk order.
    Tree(Vec<Candidate>),
}

/// A walked entry is a target when it is executable and not empty.
pub open spec fn is_target(c: Candidate) -> bool {
    c.executable && c.size > 0
}

/// The texts of a sequence of strings.
pub open spec fn texts(v: Seq<String>) -> Seq<Seq<char>> {
    v.map_values(|s: String| s@)
}

/// The paths of the targets among `entries`, in the order met.
pub open spec fn selected(entries: Seq<Candidate>) -> Seq<Seq<char>>
    decreases entries.len(),
{
    if entries.len() == 0 {
        seq![]
    } else {
        let rest = selected(entries.drop_last());
        if is_target(entries.last()) {
            rest.push(entries.last().path@)
        } else {
            rest
        }
    }
}

/// The targets of what was found, in the order met.
pub open spec fn targets_of(found: Found) -> Seq<Seq<char>> {
    match found {
        Found::File(p) => seq![p@],
        Found::Tree(entries) => selected(entries@),
    }
}

/// The binaries to export a report for.
pub fn select_targets(found: Found) -> (r: Vec<String>)
    ensures
        texts(r@) == targets_of(found),
        found matches Found::File(p) ==> r@.len() == 1 && r@[0]@ == p@,
{
    match found {
        Found::File(p) => {
            let mut r: Vec<String> = Vec::new();
            r.push(p);
            assert(texts(r@) =~= seq![r@[0]@]);
            r
        },
        Found::Tree(entries) => {
            let mut r: Vec<String> = Vec::new();
            let mut i: usize = 0;
            while i < entries.len()
                invariant
                    i <= entries@.len(),
                    texts(r@) == selected(entries@.subrange(0, i as int)),
                decreases entries@.len() - i,
            {
                let c = &entries[i];
                proof {
                    let s = entries@.subrange(0, i + 1);
                    assert(s.drop_last() =~= entries@.subrange(0, i as int));
                    assert(s.last() == entries@[i as int]);
                }
                if c.executable && c.size > 0 {
                    let p = c.path.clone();
                    let ghost before = r@;
                    r.push(p);
                    assert(texts(r@) =~= texts(before).push(p@));
                }
                i = i + 1;
            }
            assert(entries@.subrange(0, entries@.len() as int) =~= entries@);
            r
        },
    }
}

/// A path is among the targets of a walk exactly when some entry with that
/// path is executable and not empty: empty executables and non-executable
/// files are left out, and every non-empty executable is kept.
pub proof fn lemma_selected_exactly_targets(entries: Seq<Candidate>)
    ensures
        forall|p: Seq<char>|
            selected(entries).contains(p) <==> exists|i: int|
                0 <= i < entries.len() && is_target(#[trigger] entries[i]) && entries[i].path@ == p,
    decreases entries.len(),
{
    if entries.len() > 0 {
        let init = entries.drop_last();
        lemma_selected_exactly_targets(init);
        let last = entries.last();
        assert forall|p: Seq<char>|
            selected(entries).contains(p) <==> exists|i: int|
                0 <= i < entries.len() && is_target(#[trigger] entries[i]) && entries[i].path@ == p by {
            if selected(entries).contains(p) {
                if is_target(last) && p == last.path@ {
                    assert(is_target(entries[entries.len() - 1]));
                } else {
                    if is_target(last) {
                        assert(selected(entries) == selected(init).push(last.path@));
                        let k = choose|k: int| 0 <= k < selected(entries).len() && selected(entries)[k] == p;
                        assert(k < selected(init).len());
                        assert(selected(init)[k] == p);
                    } else {
                        assert(selected(entries) == selected(init));
                    }
                    assert(selected(init).contains(p));
                    let j = choose|j: int| 0 <= j < init.len() && is_target(#[trigger] init[j]) && init[j].path@ == p;
                    assert(entries[j] == init[j]);
                }
            }
            if exists|i: int| 0 <= i < entries.len() && is_target(#[trigger] entries[i]) && entries[i].path@ == p {
                let i = choose|i: int| 0 <= i < entries.len() && is_target(#[trigger] entries[i]) && entries[i].path@ == p;
                if i == entries.len() - 1 {
                    assert(selected(entries) == selected(init).push(p));
                    assert(selected(entries)[selected(init).len() as int] == p);
                } else {
                    assert(init[i] == entries[i]);
                    assert(selected(init).contains(p));
                    let k = choose|k: int| 0 <= k < selected(init).len() && selected(init)[k] == p;
                    if is_target(last) {
                        assert(selected(entries)[k] == p);
                    }
                }
            }
        }
    }
}

} // verus!
