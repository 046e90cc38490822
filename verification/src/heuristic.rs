//! The assignment heuristic: choose one hall for one candidate, falling
//! back through progressively less constrained tiers.

use vstd::prelude::*;

use crate::capacity::CapacityModel;
use crate::halls::{all_halls, lemma_all_halls_complete, Gender, Hall, SelectionTier};
use crate::random;

verus! {

/// Whether `h` qualifies under a tier: it must be open, and — depending on
/// the tier — avoid the candidate's history and keep gender capacity.
pub open spec fn spec_tier_ok(
    cap: CapacityModel,
    hist: Seq<Hall>,
    g: Option<Gender>,
    use_history: bool,
    use_gender: bool,
    h: Hall,
) -> bool {
    &&& cap.spec_open(h)
    &&& (use_history ==> !hist.contains(h))
    &&& (use_gender ==> cap.spec_gender_open(h, g))
}

/// An open hall outside the history with gender capacity left.
pub open spec fn spec_some_tier1(cap: CapacityModel, hist: Seq<Hall>, g: Option<Gender>) -> bool {
    exists|h: Hall| spec_tier_ok(cap, hist, g, true, true, h)
}

/// An open hall outside the history, gender quota ignored.
pub open spec fn spec_some_tier2(cap: CapacityModel, hist: Seq<Hall>, g: Option<Gender>) -> bool {
    exists|h: Hall| spec_tier_ok(cap, hist, g, true, false, h)
}

/// An open hall, history ignored.
pub open spec fn spec_some_tier3(cap: CapacityModel, hist: Seq<Hall>, g: Option<Gender>) -> bool {
    exists|h: Hall| spec_tier_ok(cap, hist, g, false, false, h)
}

/// The halls qualifying under the given tier, in canonical order.
fn halls_matching(
    cap: &CapacityModel,
    history: &Vec<Hall>,
    g: Option<Gender>,
    use_history: bool,
    use_gender: bool,
) -> (r: Vec<Hall>)
    ensures
        forall|j: int|
            0 <= j < r@.len() ==> spec_tier_ok(
                *cap,
                history@,
                g,
                use_history,
                use_gender,
                #[trigger] r@[j],
            ),
        r@.len() == 0 ==> forall|h: Hall| !spec_tier_ok(*cap, history@, g, use_history, use_gender, h),
{
    let halls = Hall::all();
    let n = halls.len();
    let mut out: Vec<Hall> = Vec::new();
    for i in 0..n
        invariant
            n == halls@.len(),
            halls@ =~= all_halls(),
            forall|j: int|
                0 <= j < out@.len() ==> spec_tier_ok(
                    *cap,
                    history@,
                    g,
                    use_history,
                    use_gender,
                    #[trigger] out@[j],
                ),
            forall|j: int|
                0 <= j < i && spec_tier_ok(
                    *cap,
                    history@,
                    g,
                    use_history,
                    use_gender,
                    #[trigger] halls@[j],
                ) ==> out@.contains(halls@[j]),
    {
        let h = halls[i];
        let ok_history = !use_history || !crate::halls::contains_hall(history.as_slice(), h);
        let ok_gender = !use_gender || cap.gender_open(h, g);
        if cap.is_open(h) && ok_history && ok_gender {
            let ghost prev = out@;
            out.push(h);
            proof {
                assert forall|x: Hall| prev.contains(x) implies out@.contains(x) by {
                    let k = choose|k: int| 0 <= k < prev.len() && prev[k] == x;
                    assert(out@[k] == x);
                }
                assert(out@.last() == halls@[i as int]);
            }
        }
    }
    proof {
        if out@.len() == 0 {
            assert forall|h: Hall| !spec_tier_ok(*cap, history@, g, use_history, use_gender, h) by {
                lemma_all_halls_complete(h);
                let j = choose|j: int| 0 <= j < all_halls().len() && all_halls()[j] == h;
                assert(halls@[j] == h);
            }
        }
    }
    out
}

/// Choose exactly one hall for one candidate.
///
/// The tiers are tried in order: (1) open, history-excluded, gender
/// capacity left; (2) open, history-excluded; (3) open; (4) any hall at
/// all, capacity ignored. The first non-empty tier supplies the hall,
/// chosen uniformly at random within the tier, and the tier used is
/// reported alongside. Since the hall enumeration is never empty, a hall
/// is always returned.
pub fn select_hall(cap: &CapacityModel, history: &Vec<Hall>, g: Option<Gender>) -> (r: (
    Hall,
    SelectionTier,
))
    ensures
        spec_some_tier1(*cap, history@, g) ==> r.1 == SelectionTier::GenderMatched && spec_tier_ok(
            *cap,
            history@,
            g,
            true,
            true,
            r.0,
        ),
        !spec_some_tier1(*cap, history@, g) && spec_some_tier2(*cap, history@, g) ==> r.1
            == SelectionTier::HistoryAvoided && spec_tier_ok(*cap, history@, g, true, false, r.0),
        !spec_some_tier2(*cap, history@, g) && spec_some_tier3(*cap, history@, g) ==> r.1
            == SelectionTier::CapacityOnly && spec_tier_ok(*cap, history@, g, false, false, r.0),
        !spec_some_tier3(*cap, history@, g) ==> r.1 == SelectionTier::Unconstrained,
        r.1 != SelectionTier::Unconstrained ==> cap.spec_open(r.0),
        r.1 == SelectionTier::GenderMatched || r.1 == SelectionTier::HistoryAvoided
            ==> !history@.contains(r.0),
        r.1 == SelectionTier::GenderMatched ==> cap.spec_gender_open(r.0, g),
{
    let tier1 = halls_matching(cap, history, g, true, true);
    if tier1.len() > 0 {
        let i = random::pick_index(tier1.len());
        proof {
            assert(spec_tier_ok(*cap, history@, g, true, false, tier1@[i as int]));
            assert(spec_tier_ok(*cap, history@, g, false, false, tier1@[i as int]));
        }
        return (tier1[i], SelectionTier::GenderMatched);
    }
    let tier2 = halls_matching(cap, history, g, true, false);
    if tier2.len() > 0 {
        let i = random::pick_index(tier2.len());
        proof {
            assert(spec_tier_ok(*cap, history@, g, false, false, tier2@[i as int]));
        }
        return (tier2[i], SelectionTier::HistoryAvoided);
    }
    let tier3 = halls_matching(cap, history, g, false, false);
    if tier3.len() > 0 {
        let i = random::pick_index(tier3.len());
        return (tier3[i], SelectionTier::CapacityOnly);
    }
    let halls = Hall::all();
    let i = random::pick_index(halls.len());
    (halls[i], SelectionTier::Unconstrained)
}

} // verus!
