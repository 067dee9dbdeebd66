//! Classifies a code point by its Unicode Script property.
//!
//! The classification is read from [`tables::SCRIPT`], an ordered table
//! of disjoint code point ranges, by binary search. Code points that no range
//! holds have the script [`Script::Unknown`].
use vstd::prelude::*;

pub mod hb_script;
pub mod tables;

pub use tables::Script;

verus! {

use crate::tables::script_table;

/// The version of Unicode that the script table is derived from.
pub const UNICODE_VERSION: (u64, u64, u64) = (12, 1, 0);

/// Whether the inclusive range `(low, high, _)` holds the code point `c`.
pub open spec fn range_contains(e: (u32, u32, Script), c: u32) -> bool {
    e.0 <= c && c <= e.1
}

/// A table of ranges is well formed when each range is non-empty and the
/// ranges come in ascending order without overlapping.
pub open spec fn well_formed(t: Seq<(u32, u32, Script)>) -> bool {
    &&& forall|i: int| 0 <= i < t.len() ==> (#[trigger] t[i]).0 <= t[i].1
    &&& forall|i: int, j: int|
        0 <= i < j < t.len() ==> (#[trigger] t[i]).1 < (#[trigger] t[j]).0
}

/// Range `i` is non-empty and ends before range `i + 1`, if there is one.
pub open spec fn ordered_at(t: Seq<(u32, u32, Script)>, i: int) -> bool {
    &&& t[i].0 <= t[i].1
    &&& i + 1 < t.len() ==> t[i].1 < t[i + 1].0
}

/// Range `i` is tagged with a script other than `Unknown`, lies within the
/// code point space, and is not continued by a range `i + 1` of the same script.
pub open spec fn maximal_run_at(t: Seq<(u32, u32, Script)>, i: int) -> bool {
    &&& t[i].2 != Script::Unknown
    &&& t[i].1 <= 0x10FFFF
    &&& (i + 1 < t.len() && t[i].1 + 1 == t[i + 1].0) ==> t[i].2 != t[i + 1].2
}

/// The table is made of maximal runs: no range is tagged `Unknown`, and two
/// ranges that touch carry different scripts.
pub open spec fn maximal_runs(t: Seq<(u32, u32, Script)>) -> bool {
    forall|i: int| 0 <= i < t.len() ==> #[trigger] maximal_run_at(t, i)
}

/// The script that table `t` gives to code point `c`: the tag of a range that
/// holds `c`, or `Unknown` where none does.
pub open spec fn script_at(t: Seq<(u32, u32, Script)>, c: u32) -> Script {
    if exists|i: int| 0 <= i < t.len() && #[trigger] range_contains(t[i], c) {
        t[choose|i: int| 0 <= i < t.len() && #[trigger] range_contains(t[i], c)].2
    } else {
        Script::Unknown
    }
}

/// The script of code point `c` under the shipped table.
pub open spec fn script_of(c: u32) -> Script {
    script_at(script_table(), c)
}

/// Ranges that are ordered pairwise with their successor are ordered pairwise.
pub proof fn lemma_ordered_pairwise(t: Seq<(u32, u32, Script)>)
    requires
        forall|i: int| 0 <= i < t.len() ==> #[trigger] ordered_at(t, i),
    ensures
        well_formed(t),
{
    assert forall|i: int| 0 <= i < t.len() implies (#[trigger] t[i]).0 <= t[i].1 by {
        assert(ordered_at(t, i));
    }
    assert forall|i: int, j: int| 0 <= i < j < t.len() implies (#[trigger] t[i]).1 < (
    #[trigger] t[j]).0 by {
        lemma_ordered_chain(t, i, j);
    }
}

proof fn lemma_ordered_chain(t: Seq<(u32, u32, Script)>, i: int, j: int)
    requires
        forall|k: int| 0 <= k < t.len() ==> #[trigger] ordered_at(t, k),
        0 <= i < j < t.len(),
    ensures
        t[i].1 < t[j].0,
    decreases j - i,
{
    assert(ordered_at(t, j - 1));
    if j > i + 1 {
        lemma_ordered_chain(t, i, j - 1);
    }
}

/// A table whose every range is ordered against its successor and is a
/// maximal run is well formed and made of maximal runs.
pub proof fn lemma_valid_from_entries(t: Seq<(u32, u32, Script)>)
    requires
        forall|i: int| 0 <= i < t.len() ==> #[trigger] ordered_at(t, i),
        forall|i: int| 0 <= i < t.len() ==> #[trigger] maximal_run_at(t, i),
    ensures
        well_formed(t),
        maximal_runs(t),
{
    lemma_ordered_pairwise(t);
}

/// In a well-formed table at most one range holds a given code point.
pub proof fn lemma_range_unique(t: Seq<(u32, u32, Script)>, c: u32, i: int, j: int)
    requires
        well_formed(t),
        0 <= i < t.len(),
        0 <= j < t.len(),
        range_contains(t[i], c),
        range_contains(t[j], c),
    ensures
        i == j,
{
    if i < j {
        assert(t[i].1 < t[j].0);
    } else if j < i {
        assert(t[j].1 < t[i].0);
    }
}

/// In a well-formed table the script of a code point held by range `i` is
/// the tag of range `i`.
pub proof fn lemma_script_at_range(t: Seq<(u32, u32, Script)>, c: u32, i: int)
    requires
        well_formed(t),
        0 <= i < t.len(),
        range_contains(t[i], c),
    ensures
        script_at(t, c) == t[i].2,
{
    let k = choose|k: int| 0 <= k < t.len() && #[trigger] range_contains(t[k], c);
    lemma_range_unique(t, c, i, k);
}

/// Every code point gets exactly one script from a well-formed table: at most
/// one range holds it, its script is the tag of that range, and it is
/// `Unknown` when no range holds it.
pub proof fn lemma_script_at_total(t: Seq<(u32, u32, Script)>, c: u32)
    requires
        well_formed(t),
    ensures
        forall|i: int, j: int|
            0 <= i < t.len() && 0 <= j < t.len()
                && #[trigger] range_contains(t[i], c)
                && #[trigger] range_contains(t[j], c) ==> i == j,
        forall|i: int|
            0 <= i < t.len() && #[trigger] range_contains(t[i], c) ==> script_at(t, c) == t[i].2,
        (forall|i: int| 0 <= i < t.len() ==> !#[trigger] range_contains(t[i], c))
            ==> script_at(t, c) == Script::Unknown,
{
    assert forall|i: int, j: int|
        0 <= i < t.len() && 0 <= j < t.len() && #[trigger] range_contains(t[i], c)
            && #[trigger] range_contains(t[j], c) implies i == j by {
        lemma_range_unique(t, c, i, j);
    }
    assert forall|i: int| 0 <= i < t.len() && #[trigger] range_contains(t[i], c) implies script_at(
        t,
        c,
    ) == t[i].2 by {
        lemma_script_at_range(t, c, i);
    }
}

/// Both ends of every range of a well-formed table of maximal runs resolve
/// to its tag, and the code points just outside it resolve to another
/// script: the range is neither cut short nor silently merged with a
/// neighbour.
pub proof fn lemma_range_boundaries_at(t: Seq<(u32, u32, Script)>, i: int)
    requires
        well_formed(t),
        maximal_runs(t),
        0 <= i < t.len(),
    ensures
        script_at(t, t[i].0) == t[i].2,
        script_at(t, t[i].1) == t[i].2,
        t[i].0 > 0 ==> script_at(t, (t[i].0 - 1) as u32) != t[i].2,
        t[i].1 < 0x10FFFF ==> script_at(t, (t[i].1 + 1) as u32) != t[i].2,
{
    assert(t[i].0 <= t[i].1);
    assert(maximal_run_at(t, i));
    lemma_script_at_range(t, t[i].0, i);
    lemma_script_at_range(t, t[i].1, i);
    if t[i].0 > 0 {
        let c = (t[i].0 - 1) as u32;
        if exists|k: int| 0 <= k < t.len() && #[trigger] range_contains(t[k], c) {
            let k = choose|k: int| 0 <= k < t.len() && #[trigger] range_contains(t[k], c);
            lemma_script_at_range(t, c, k);
            if k >= i {
                if k > i {
                    assert(t[i].1 < t[k].0);
                }
            } else if k < i - 1 {
                assert(t[k].1 < t[i - 1].0);
                assert(t[i - 1].1 < t[i].0);
            } else {
                assert(t[k].1 < t[i].0);
                assert(maximal_run_at(t, k));
            }
        }
    }
    if t[i].1 < 0x10FFFF {
        let c = (t[i].1 + 1) as u32;
        if exists|k: int| 0 <= k < t.len() && #[trigger] range_contains(t[k], c) {
            let k = choose|k: int| 0 <= k < t.len() && #[trigger] range_contains(t[k], c);
            lemma_script_at_range(t, c, k);
            if k <= i {
                if k < i {
                    assert(t[k].1 < t[i].0);
                }
            } else if k > i + 1 {
                assert(t[i].1 < t[i + 1].0);
                assert(t[i + 1].1 < t[k].0);
            } else {
                assert(t[i].1 < t[k].0);
            }
        }
    }
}

/// Every code point gets exactly one script from the shipped table: at most
/// one range holds it, its script is the tag of that range, and it is
/// `Unknown` when no range holds it.
pub proof fn lemma_script_of_total(c: u32)
    ensures
        forall|i: int, j: int|
            0 <= i < script_table().len() && 0 <= j < script_table().len()
                && #[trigger] range_contains(script_table()[i], c)
                && #[trigger] range_contains(script_table()[j], c) ==> i == j,
        forall|i: int|
            0 <= i < script_table().len() && #[trigger] range_contains(script_table()[i], c)
                ==> script_of(c) == script_table()[i].2,
        (forall|i: int| 0 <= i < script_table().len() ==> !#[trigger] range_contains(script_table()[i], c))
            ==> script_of(c) == Script::Unknown,
{
    tables::lemma_script_table_valid();
    lemma_script_at_total(script_table(), c);
}

/// Both ends of every range of the shipped table resolve to its tag, and the
/// code points just outside it resolve to another script: the range is
/// neither cut short nor silently merged with a neighbour.
pub proof fn lemma_range_boundaries(i: int)
    requires
        0 <= i < script_table().len(),
    ensures
        script_of(script_table()[i].0) == script_table()[i].2,
        script_of(script_table()[i].1) == script_table()[i].2,
        script_table()[i].0 > 0 ==> script_of((script_table()[i].0 - 1) as u32) != script_table()[i].2,
        script_table()[i].1 < 0x10FFFF ==> script_of((script_table()[i].1 + 1) as u32)
            != script_table()[i].2,
{
    tables::lemma_script_table_valid();
    lemma_range_boundaries_at(script_table(), i);
}

/// Binary search of `r` for the range that holds `c`. Whatever the table, the
/// result is `Unknown` or the tag of a range that holds `c`; on a well-formed
/// table it is exactly the script that the table gives to `c`.
fn bsearch_range_value_table(c: char, r: &[(u32, u32, Script)]) -> (s: Script)
    ensures
        well_formed(r@) ==> s == script_at(r@, c as u32),
        s == Script::Unknown || exists|i: int|
            0 <= i < r@.len() && #[trigger] range_contains(r@[i], c as u32) && r@[i].2 == s,
{
    let cp = c as u32;
    let mut lo: usize = 0;
    let mut hi: usize = r.len();
    while lo < hi
        invariant
            cp == c as u32,
            lo <= hi <= r@.len(),
            well_formed(r@) ==> forall|i: int| 0 <= i < lo ==> (#[trigger] r@[i]).1 < cp,
            well_formed(r@) ==> forall|i: int| hi <= i < r@.len() ==> cp < (#[trigger] r@[i]).0,
        decreases hi - lo,
    {
        let mid = lo + (hi - lo) / 2;
        let entry = r[mid];
        if entry.0 <= cp && cp <= entry.1 {
            proof {
                assert(range_contains(r@[mid as int], cp));
                if well_formed(r@) {
                    lemma_script_at_range(r@, cp, mid as int);
                }
            }
            return entry.2;
        } else if entry.1 < cp {
            proof {
                if well_formed(r@) {
                    assert forall|i: int| 0 <= i < mid + 1 implies (#[trigger] r@[i]).1 < cp by {
                        if i < mid {
                            assert(r@[i].1 < r@[mid as int].0);
                        }
                    }
                }
            }
            lo = mid + 1;
        } else {
            proof {
                if well_formed(r@) {
                    assert forall|i: int| mid <= i < r@.len() implies cp < (#[trigger] r@[i]).0 by {
                        if i > mid {
                            assert(r@[mid as int].1 < r@[i].0);
                        }
                    }
                }
            }
            hi = mid;
        }
    }
    proof {
        if well_formed(r@) {
            assert forall|i: int| 0 <= i < r@.len() implies !#[trigger] range_contains(r@[i], cp) by {
                if i < lo {
                    assert(r@[i].1 < cp);
                } else {
                    assert(cp < r@[i].0);
                }
            }
        }
    }
    Script::Unknown
}

/// Finds the script of a single char.
pub fn get_script(c: char) -> (r: Script)
    ensures
        r == script_of(c as u32),
{
    proof {
        tables::lemma_script_table_valid();
        reveal(tables::script_table);
    }
    bsearch_range_value_table(c, &tables::SCRIPT)
}

} // verus!
