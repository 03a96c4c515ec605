use vstd::prelude::*;

verus! {

/// One side of a conflicting path: the blob holding that side's content and
/// the path it is recorded under.
#[derive(Debug)]
pub struct ConflictSide {
    pub blob: String,
    pub path: String,
}

impl ConflictSide {
    /// A field-for-field copy.
    pub fn duplicate(&self) -> (r: ConflictSide)
        ensures
            r == *self,
    {
        ConflictSide { blob: self.blob.clone(), path: self.path.clone() }
    }
}

/// A path left conflicted by a three-way merge. An absent side means the path
/// was deleted on that side.
#[derive(Debug)]
pub struct ConflictEntry {
    pub ours: Option<ConflictSide>,
    pub theirs: Option<ConflictSide>,
    pub ancestor: Option<ConflictSide>,
}

/// The precedence tiers of automatic resolution, strongest first.
#[derive(PartialEq, Eq, Structural, Clone, Copy, Debug)]
pub enum Tier {
    Ours,
    Theirs,
    Ancestor,
}

/// The decision for one conflicting path: which tier won and the side to
/// write back to the working tree.
#[derive(Debug)]
pub struct Resolution {
    pub tier: Tier,
    pub side: ConflictSide,
}

impl Resolution {
    /// A field-for-field copy.
    pub fn duplicate(&self) -> (r: Resolution)
        ensures
            r == *self,
    {
        Resolution { tier: self.tier, side: self.side.duplicate() }
    }
}

/// A conflict entry is well formed when at least one side is present.
pub open spec fn well_formed_entry(e: ConflictEntry) -> bool {
    e.ours is Some || e.theirs is Some || e.ancestor is Some
}

/// The side recorded for a tier.
pub open spec fn side_of(e: ConflictEntry, t: Tier) -> Option<ConflictSide> {
    match t {
        Tier::Ours => e.ours,
        Tier::Theirs => e.theirs,
        Tier::Ancestor => e.ancestor,
    }
}

/// The tier that decides an entry: ours if present, else theirs, else the
/// common ancestor; none when every side is absent.
pub open spec fn winning_tier(e: ConflictEntry) -> Option<Tier> {
    if e.ours is Some {
        Some(Tier::Ours)
    } else if e.theirs is Some {
        Some(Tier::Theirs)
    } else if e.ancestor is Some {
        Some(Tier::Ancestor)
    } else {
        None
    }
}

/// The resolution an entry receives, if any.
pub open spec fn resolution_for(e: ConflictEntry) -> Option<Resolution> {
    match winning_tier(e) {
        Some(t) => Some(Resolution { tier: t, side: side_of(e, t).unwrap() }),
        None => None,
    }
}

/// The resolutions of one tier's pass, in the order of the conflict list.
pub open spec fn tier_pass(c: Seq<ConflictEntry>, t: Tier) -> Seq<Resolution>
    decreases c.len(),
{
    if c.len() == 0 {
        Seq::empty()
    } else {
        let earlier = tier_pass(c.drop_last(), t);
        if winning_tier(c.last()) == Some(t) {
            earlier.push(resolution_for(c.last()).unwrap())
        } else {
            earlier
        }
    }
}

/// The whole resolution plan: the pass over ours, then theirs, then the
/// ancestor, each pass over the full conflict list.
pub open spec fn resolution_plan(c: Seq<ConflictEntry>) -> Seq<Resolution> {
    tier_pass(c, Tier::Ours) + tier_pass(c, Tier::Theirs) + tier_pass(c, Tier::Ancestor)
}

fn winning_tier_of(e: &ConflictEntry) -> (r: Option<Tier>)
    ensures
        r == winning_tier(*e),
{
    if e.ours.is_some() {
        Some(Tier::Ours)
    } else if e.theirs.is_some() {
        Some(Tier::Theirs)
    } else if e.ancestor.is_some() {
        Some(Tier::Ancestor)
    } else {
        None
    }
}

fn side_for(e: &ConflictEntry, t: Tier) -> (r: &Option<ConflictSide>)
    ensures
        *r == side_of(*e, t),
{
    match t {
        Tier::Ours => &e.ours,
        Tier::Theirs => &e.theirs,
        Tier::Ancestor => &e.ancestor,
    }
}

/// Appends one tier's pass over `conflicts` to `out`.
fn run_tier_pass(conflicts: &Vec<ConflictEntry>, t: Tier, out: &mut Vec<Resolution>)
    ensures
        final(out)@ == old(out)@ + tier_pass(conflicts@, t),
{
    let ghost start = out@;
    let mut i: usize = 0;
    while i < conflicts.len()
        invariant
            i <= conflicts@.len(),
            out@ == start + tier_pass(conflicts@.subrange(0, i as int), t),
        decreases conflicts@.len() - i,
    {
        let e = &conflicts[i];
        assert(conflicts@.subrange(0, i + 1).drop_last() =~= conflicts@.subrange(0, i as int));
        if winning_tier_of(e) == Some(t) {
            match side_for(e, t) {
                Some(side) => {
                    out.push(Resolution { tier: t, side: side.duplicate() });
                },
                None => {},
            }
        }
        i = i + 1;
    }
    assert(conflicts@.subrange(0, conflicts@.len() as int) =~= conflicts@);
}

/// Decides every conflicting path without user input: each path takes its
/// `ours` side if present, else `theirs`, else the common ancestor. The
/// conflict list is only read; the three passes each collect the paths of
/// their tier and the plan lists them tier by tier.
pub fn resolve_conflicts(conflicts: &Vec<ConflictEntry>) -> (plan: Vec<Resolution>)
    ensures
        plan@ == resolution_plan(conflicts@),
{
    let mut plan: Vec<Resolution> = Vec::new();
    run_tier_pass(conflicts, Tier::Ours, &mut plan);
    run_tier_pass(conflicts, Tier::Theirs, &mut plan);
    run_tier_pass(conflicts, Tier::Ancestor, &mut plan);
    plan
}

proof fn lemma_tier_pass_none(c: Seq<ConflictEntry>, t: Tier)
    requires
        forall|i: int| 0 <= i < c.len() ==> winning_tier(#[trigger] c[i]) != Some(t),
    ensures
        tier_pass(c, t) == Seq::<Resolution>::empty(),
    decreases c.len(),
{
    if c.len() > 0 {
        assert forall|i: int| 0 <= i < c.drop_last().len() implies winning_tier(
            #[trigger] c.drop_last()[i],
        ) != Some(t) by {
            assert(c.drop_last()[i] == c[i]);
        }
        lemma_tier_pass_none(c.drop_last(), t);
        assert(winning_tier(c[c.len() - 1]) != Some(t));
    }
}

proof fn lemma_tier_pass_all(c: Seq<ConflictEntry>, t: Tier)
    requires
        forall|i: int| 0 <= i < c.len() ==> winning_tier(#[trigger] c[i]) == Some(t),
    ensures
        tier_pass(c, t).len() == c.len(),
        forall|i: int|
            0 <= i < c.len() ==> #[trigger] tier_pass(c, t)[i] == resolution_for(c[i]).unwrap(),
    decreases c.len(),
{
    if c.len() > 0 {
        assert forall|i: int| 0 <= i < c.drop_last().len() implies winning_tier(
            #[trigger] c.drop_last()[i],
        ) == Some(t) by {
            assert(c.drop_last()[i] == c[i]);
        }
        lemma_tier_pass_all(c.drop_last(), t);
        assert(winning_tier(c[c.len() - 1]) == Some(t));
        assert forall|i: int| 0 <= i < c.len() implies #[trigger] tier_pass(c, t)[i]
            == resolution_for(c[i]).unwrap() by {
            if i < c.len() - 1 {
                assert(c.drop_last()[i] == c[i]);
            }
        }
    }
}

proof fn lemma_tier_pass_contains(c: Seq<ConflictEntry>, t: Tier, i: int)
    requires
        0 <= i < c.len(),
        winning_tier(c[i]) == Some(t),
    ensures
        tier_pass(c, t).contains(resolution_for(c[i]).unwrap()),
    decreases c.len(),
{
    if i == c.len() - 1 {
        assert(tier_pass(c, t).last() == resolution_for(c[i]).unwrap());
    } else {
        assert(c.drop_last()[i] == c[i]);
        lemma_tier_pass_contains(c.drop_last(), t, i);
        let r = resolution_for(c[i]).unwrap();
        let earlier = tier_pass(c.drop_last(), t);
        let k = choose|k: int| 0 <= k < earlier.len() && earlier[k] == r;
        assert(tier_pass(c, t)[k] == r);
    }
}

/// Every well-formed conflicting path receives the resolution of its winning
/// tier, so applying the whole plan leaves no conflict behind.
pub proof fn lemma_plan_covers_every_path(c: Seq<ConflictEntry>)
    requires
        forall|i: int| 0 <= i < c.len() ==> well_formed_entry(#[trigger] c[i]),
    ensures
        forall|i: int|
            0 <= i < c.len() ==> resolution_plan(c).contains(
                #[trigger] resolution_for(c[i]).unwrap(),
            ),
{
    assert forall|i: int| 0 <= i < c.len() implies resolution_plan(c).contains(
        #[trigger] resolution_for(c[i]).unwrap(),
    ) by {
        lemma_plan_covers_every_path_at(c, i);
    }
}

/// When every conflicting path has a local side, the plan takes the local
/// side of every path, in order, and nothing else.
pub proof fn lemma_ours_wins_everywhere(c: Seq<ConflictEntry>)
    requires
        forall|i: int| 0 <= i < c.len() ==> (#[trigger] c[i]).ours is Some,
    ensures
        resolution_plan(c).len() == c.len(),
        forall|i: int|
            0 <= i < c.len() ==> #[trigger] resolution_plan(c)[i] == (Resolution {
                tier: Tier::Ours,
                side: c[i].ours.unwrap(),
            }),
{
    lemma_tier_pass_all(c, Tier::Ours);
    lemma_tier_pass_none(c, Tier::Theirs);
    lemma_tier_pass_none(c, Tier::Ancestor);
    assert(resolution_plan(c) =~= tier_pass(c, Tier::Ours));
}

/// A path deleted locally but present remotely is resolved with the remote
/// side.
pub proof fn lemma_theirs_when_ours_absent(c: Seq<ConflictEntry>, i: int)
    requires
        0 <= i < c.len(),
        c[i].ours is None,
        c[i].theirs is Some,
    ensures
        winning_tier(c[i]) == Some(Tier::Theirs),
        resolution_for(c[i]) == Some(Resolution { tier: Tier::Theirs, side: c[i].theirs.unwrap() }),
        resolution_plan(c).contains(Resolution { tier: Tier::Theirs, side: c[i].theirs.unwrap() }),
{
    lemma_plan_covers_every_path_at(c, i);
}

proof fn lemma_plan_covers_every_path_at(c: Seq<ConflictEntry>, i: int)
    requires
        0 <= i < c.len(),
        well_formed_entry(c[i]),
    ensures
        resolution_plan(c).contains(resolution_for(c[i]).unwrap()),
{
    let t = winning_tier(c[i]).unwrap();
    lemma_tier_pass_contains(c, t, i);
    let r = resolution_for(c[i]).unwrap();
    let ours = tier_pass(c, Tier::Ours);
    let theirs = tier_pass(c, Tier::Theirs);
    let anc = tier_pass(c, Tier::Ancestor);
    let plan = resolution_plan(c);
    if t == Tier::Ours {
        let k = choose|k: int| 0 <= k < ours.len() && ours[k] == r;
        assert(plan[k] == r);
    } else if t == Tier::Theirs {
        let k = choose|k: int| 0 <= k < theirs.len() && theirs[k] == r;
        assert(plan[ours.len() + k] == r);
    } else {
        let k = choose|k: int| 0 <= k < anc.len() && anc[k] == r;
        assert(plan[ours.len() + theirs.len() + k] == r);
    }
}

} // verus!
