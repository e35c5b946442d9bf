//! The replay browser's decisions: which scanned replays are listable and
//! in what order they are shown.
//!
//! The listing is sorted newest first, then by link code, then by round
//! number.  An entry is listable only when both sides and the local side's
//! game identity are present and name a registered build; anything else is
//! skipped rather than shown half-filled.

use vstd::prelude::*;
use vstd::multiset::Multiset;
use crate::game::{spec_find_by_family_and_variant, find_by_family_and_variant, Family, GameDesc};

verus! {

/// What is known about one side of a recorded match.
pub struct SideMeta {
    pub nickname: String,
    pub game_info: Option<GameInfoMeta>,
}

/// The game identity recorded for a side, with the patch applied, if any.
pub struct GameInfoMeta {
    pub rom_family: Family,
    pub rom_variant: u8,
    pub patch: Option<PatchRef>,
}

/// A patch by name and version string, as recorded in a replay.
pub struct PatchRef {
    pub name: String,
    pub version: String,
}

/// One scanned replay, as the listing sees it.
pub struct ReplayListEntry {
    /// Milliseconds since the epoch at recording time.
    pub ts: u64,
    /// The session's link code, as raw bytes.
    pub link_code: Vec<u8>,
    /// Which round of the session the file records.
    pub round: u32,
    /// Whether the file holds any resolved input at all.
    pub has_inputs: bool,
    pub local_side: Option<SideMeta>,
    pub remote_side: Option<SideMeta>,
}

/// Byte-wise lexicographic "less or equal".
pub open spec fn spec_lex_le(x: Seq<u8>, y: Seq<u8>) -> bool
    decreases x.len(),
{
    if x.len() == 0 {
        true
    } else if y.len() == 0 {
        false
    } else if x[0] < y[0] {
        true
    } else if x[0] > y[0] {
        false
    } else {
        spec_lex_le(x.drop_first(), y.drop_first())
    }
}

/// The listing order: newest first, then link code, then round.
pub open spec fn spec_entry_le(a: ReplayListEntry, b: ReplayListEntry) -> bool {
    if a.ts != b.ts {
        a.ts > b.ts
    } else if a.link_code@ != b.link_code@ {
        spec_lex_le(a.link_code@, b.link_code@)
    } else {
        a.round <= b.round
    }
}

pub proof fn lemma_lex_le_total(x: Seq<u8>, y: Seq<u8>)
    ensures
        spec_lex_le(x, y) || spec_lex_le(y, x),
    decreases x.len(),
{
    if x.len() > 0 && y.len() > 0 && x[0] == y[0] {
        lemma_lex_le_total(x.drop_first(), y.drop_first());
    }
}

pub proof fn lemma_lex_le_trans(x: Seq<u8>, y: Seq<u8>, z: Seq<u8>)
    requires
        spec_lex_le(x, y),
        spec_lex_le(y, z),
    ensures
        spec_lex_le(x, z),
    decreases x.len(),
{
    if x.len() > 0 && y.len() > 0 && z.len() > 0 && x[0] == y[0] && y[0] == z[0] {
        lemma_lex_le_trans(x.drop_first(), y.drop_first(), z.drop_first());
    }
}

/// `spec_lex_le` in both directions means equality.
pub proof fn lemma_lex_le_antisym(x: Seq<u8>, y: Seq<u8>)
    requires
        spec_lex_le(x, y),
        spec_lex_le(y, x),
    ensures
        x == y,
    decreases x.len(),
{
    if x.len() > 0 && y.len() > 0 && x[0] == y[0] {
        lemma_lex_le_antisym(x.drop_first(), y.drop_first());
        assert(x =~= seq![x[0]] + x.drop_first());
        assert(y =~= seq![y[0]] + y.drop_first());
    }
}

/// The listing order is total.
pub proof fn lemma_entry_le_total(a: ReplayListEntry, b: ReplayListEntry)
    ensures
        spec_entry_le(a, b) || spec_entry_le(b, a),
{
    lemma_lex_le_total(a.link_code@, b.link_code@);
}

/// The listing order is transitive.
pub proof fn lemma_entry_le_trans(a: ReplayListEntry, b: ReplayListEntry, c: ReplayListEntry)
    requires
        spec_entry_le(a, b),
        spec_entry_le(b, c),
    ensures
        spec_entry_le(a, c),
{
    if a.ts == b.ts && b.ts == c.ts {
        if a.link_code@ != b.link_code@ && b.link_code@ != c.link_code@ {
            lemma_lex_le_trans(a.link_code@, b.link_code@, c.link_code@);
            if a.link_code@ == c.link_code@ {
                lemma_lex_le_antisym(a.link_code@, b.link_code@);
            }
        }
    }
}

/// Exec form of `spec_lex_le`.
fn lex_le(x: &Vec<u8>, y: &Vec<u8>) -> (r: bool)
    ensures
        r == spec_lex_le(x@, y@),
{
    let xn = x.len();
    let yn = y.len();
    let mut i: usize = 0;
    proof {
        assert(x@.skip(0) =~= x@);
        assert(y@.skip(0) =~= y@);
    }
    loop
        invariant
            xn == x@.len(),
            yn == y@.len(),
            0 <= i <= xn,
            i <= yn,
            spec_lex_le(x@, y@) == spec_lex_le(x@.skip(i as int), y@.skip(i as int)),
        decreases xn - i,
    {
        proof {
            if i < xn && i < yn {
                assert(x@.skip(i as int)[0] == x@[i as int]);
                assert(y@.skip(i as int)[0] == y@[i as int]);
                assert(x@.skip(i as int).drop_first() =~= x@.skip(i + 1));
                assert(y@.skip(i as int).drop_first() =~= y@.skip(i + 1));
            }
        }
        if i >= xn {
            return true;
        }
        if i >= yn {
            return false;
        }
        if x[i] < y[i] {
            return true;
        }
        if x[i] > y[i] {
            return false;
        }
        i = i + 1;
    }
}

/// Exec form of `spec_entry_le`.
fn entry_le(a: &ReplayListEntry, b: &ReplayListEntry) -> (r: bool)
    ensures
        r == spec_entry_le(*a, *b),
{
    if a.ts != b.ts {
        a.ts > b.ts
    } else {
        let mut eq = a.link_code.len() == b.link_code.len();
        let mut i: usize = 0;
        while eq && i < a.link_code.len()
            invariant
                i <= a.link_code@.len(),
                eq ==> a.link_code@.len() == b.link_code@.len(),
                eq ==> a.link_code@.subrange(0, i as int) == b.link_code@.subrange(0, i as int),
                !eq ==> a.link_code@ != b.link_code@,
            decreases a.link_code@.len() - i + (if eq { 1int } else { 0int }),
        {
            if a.link_code[i] != b.link_code[i] {
                proof {
                    assert(a.link_code@[i as int] != b.link_code@[i as int]);
                }
                eq = false;
            } else {
                proof {
                    assert(a.link_code@.subrange(0, i + 1) =~= a.link_code@.subrange(
                        0,
                        i as int,
                    ).push(a.link_code@[i as int]));
                    assert(b.link_code@.subrange(0, i + 1) =~= b.link_code@.subrange(
                        0,
                        i as int,
                    ).push(b.link_code@[i as int]));
                }
                i = i + 1;
            }
        }
        proof {
            if eq {
                assert(a.link_code@.subrange(0, i as int) =~= a.link_code@);
                assert(b.link_code@.subrange(0, i as int) =~= b.link_code@);
            }
        }
        if !eq {
            lex_le(&a.link_code, &b.link_code)
        } else {
            a.round <= b.round
        }
    }
}

/// Sort scanned replays into listing order: the result holds exactly the
/// given entries (as a multiset) and is ordered by `spec_entry_le`.
pub fn sort_replays(entries: Vec<ReplayListEntry>) -> (r: Vec<ReplayListEntry>)
    ensures
        r@.to_multiset() == entries@.to_multiset(),
        forall|i: int, j: int|
            0 <= i < j < r@.len() ==> spec_entry_le(#[trigger] r@[i], #[trigger] r@[j]),
{
    broadcast use vstd::seq_lib::group_to_multiset_ensures;

    let mut rest = entries;
    let mut out: Vec<ReplayListEntry> = Vec::new();
    let ghost all = rest@.to_multiset();
    while rest.len() > 0
        invariant
            out@.to_multiset().add(rest@.to_multiset()) =~= all,
            forall|i: int, j: int|
                0 <= i < j < out@.len() ==> spec_entry_le(#[trigger] out@[i], #[trigger] out@[j]),
            forall|i: int, j: int|
                0 <= i < out@.len() && 0 <= j < rest@.len() ==> spec_entry_le(
                    #[trigger] out@[i],
                    #[trigger] rest@[j],
                ),
        decreases rest@.len(),
    {
        let mut m: usize = 0;
        let mut k: usize = 1;
        while k < rest.len()
            invariant
                rest@.len() > 0,
                0 <= m < rest@.len(),
                m < k <= rest@.len() || (m == 0 && k <= rest@.len()),
                forall|j: int| 0 <= j < k ==> spec_entry_le(rest@[m as int], #[trigger] rest@[j]),
            decreases rest@.len() - k,
        {
            let cand_first = entry_le(&rest[m], &rest[k]);
            proof {
                lemma_entry_le_total(rest@[m as int], rest@[k as int]);
            }
            if !cand_first {
                proof {
                    assert forall|j: int| 0 <= j < k + 1 implies spec_entry_le(
                        rest@[k as int],
                        #[trigger] rest@[j],
                    ) by {
                        if j < k {
                            lemma_entry_le_trans(rest@[k as int], rest@[m as int], rest@[j]);
                        } else {
                            lemma_entry_le_total(rest@[k as int], rest@[k as int]);
                        }
                    }
                }
                m = k;
            }
            k = k + 1;
        }
        let ghost prev_rest = rest@;
        let ghost prev_out = out@;
        let e = rest.remove(m);
        out.push(e);
        proof {
            assert(prev_rest.contains(e)) by {
                assert(prev_rest[m as int] == e);
            }
            prev_rest.to_multiset_ensures();
            prev_out.to_multiset_ensures();
            assert(prev_rest.to_multiset().count(e) > 0);
            assert(rest@ == prev_rest.remove(m as int));
            assert(prev_rest.remove(m as int).to_multiset() =~= prev_rest.to_multiset().remove(
                prev_rest[m as int],
            ));
            assert(rest@.to_multiset() =~= prev_rest.to_multiset().remove(e));
            assert(prev_out.push(e).to_multiset() =~= prev_out.to_multiset().insert(e));
            assert(out@.to_multiset() =~= prev_out.to_multiset().insert(e));
            assert(out@.to_multiset().add(rest@.to_multiset()) =~= all);
            assert forall|i: int, j: int|
                0 <= i < out@.len() && 0 <= j < rest@.len() implies spec_entry_le(
                #[trigger] out@[i],
                #[trigger] rest@[j],
            ) by {
                let orig: int = if j < m {
                    j
                } else {
                    j + 1
                };
                assert(rest@[j] == prev_rest[orig]);
                if i < prev_out.len() {
                    assert(spec_entry_le(prev_out[i], prev_rest[orig]));
                } else {
                    assert(out@[i] == e);
                    assert(spec_entry_le(e, prev_rest[orig]));
                }
            }
            assert forall|i: int, j: int|
                0 <= i < j < out@.len() implies spec_entry_le(
                #[trigger] out@[i],
                #[trigger] out@[j],
            ) by {
                if j == out@.len() - 1 {
                    assert(out@[j] == e);
                    assert(spec_entry_le(prev_out[i], prev_rest[m as int]));
                }
            }
        }
    }
    proof {
        assert(rest@.to_multiset() =~= Multiset::<ReplayListEntry>::empty());
        assert(out@.to_multiset().add(rest@.to_multiset()) =~= out@.to_multiset());
    }
    out
}

/// Which registered build a scanned entry names: present exactly when both
/// sides and the local side's game identity are recorded and the build is
/// known.  Everything else is skipped by the listing.
pub open spec fn spec_listable(e: ReplayListEntry) -> Option<GameDesc> {
    match e.local_side {
        None => None,
        Some(local) => match e.remote_side {
            None => None,
            Some(_) => match local.game_info {
                None => None,
                Some(gi) => spec_find_by_family_and_variant(gi.rom_family, gi.rom_variant),
            },
        },
    }
}

/// Exec form of `spec_listable`.
pub fn listable(e: &ReplayListEntry) -> (r: Option<GameDesc>)
    ensures
        r == spec_listable(*e),
{
    match &e.local_side {
        None => None,
        Some(local) => match &e.remote_side {
            None => None,
            Some(_) => match &local.game_info {
                None => None,
                Some(gi) => find_by_family_and_variant(gi.rom_family, gi.rom_variant),
            },
        },
    }
}

} // verus!
