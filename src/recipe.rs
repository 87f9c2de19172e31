//! Turning a template's component kinds into an ordered list of decode steps.
use vstd::prelude::*;

verus! {

/// Number of distinct ranks: the seven ranked kinds, then one shared rank for
/// every kind that the priority table does not list.
pub const RANK_COUNT: u32 = 8;

/// Position of a component kind in the fixed priority table
/// `[1, 4, 2, 7, 9, 17, 107]`; unlisted kinds get the last rank.
pub open spec fn rank(kind: u32) -> nat {
    if kind == 1 {
        0
    } else if kind == 4 {
        1
    } else if kind == 2 {
        2
    } else if kind == 7 {
        3
    } else if kind == 9 {
        4
    } else if kind == 17 {
        5
    } else if kind == 107 {
        6
    } else {
        7
    }
}

/// The members of `s` whose rank is `r`, in their order in `s`.
pub open spec fn of_rank(s: Seq<u32>, r: nat) -> Seq<u32>
    decreases s.len(),
{
    if s.len() == 0 {
        seq![]
    } else {
        let rest = of_rank(s.drop_last(), r);
        if rank(s.last()) == r {
            rest.push(s.last())
        } else {
            rest
        }
    }
}

/// The members of `s` with a rank below `n`, grouped by rank in increasing
/// order, each group in its order in `s`.
pub open spec fn ranks_below(s: Seq<u32>, n: nat) -> Seq<u32>
    decreases n,
{
    if n == 0 {
        seq![]
    } else {
        ranks_below(s, (n - 1) as nat) + of_rank(s, (n - 1) as nat)
    }
}

/// `s` stably sorted by rank: ranked kinds by the table, unlisted kinds after
/// them in their original order.
pub open spec fn ordered(s: Seq<u32>) -> Seq<u32> {
    ranks_below(s, RANK_COUNT as nat)
}

/// The rank of `kind` in the priority table.
pub fn priority_rank(kind: u32) -> (r: u32)
    ensures
        r as nat == rank(kind),
        r < RANK_COUNT,
{
    match kind {
        1 => 0,
        4 => 1,
        2 => 2,
        7 => 3,
        9 => 4,
        17 => 5,
        107 => 6,
        _ => 7,
    }
}

/// Stable sort of `kinds` by priority rank, unlisted kinds last.
pub fn priority_order(kinds: &Vec<u32>) -> (r: Vec<u32>)
    ensures
        r@ == ordered(kinds@),
{
    let mut out: Vec<u32> = Vec::new();
    let mut r: u32 = 0;
    while r < RANK_COUNT
        invariant
            r <= RANK_COUNT,
            out@ == ranks_below(kinds@, r as nat),
        decreases RANK_COUNT - r,
    {
        let mut i: usize = 0;
        while i < kinds.len()
            invariant
                i <= kinds.len(),
                r < RANK_COUNT,
                out@ == ranks_below(kinds@, r as nat) + of_rank(kinds@.take(i as int), r as nat),
            decreases kinds.len() - i,
        {
            let k = kinds[i];
            proof {
                assert(kinds@.take(i + 1).drop_last() =~= kinds@.take(i as int));
            }
            if priority_rank(k) == r {
                out.push(k);
                assert(out@ =~= ranks_below(kinds@, r as nat) + of_rank(
                    kinds@.take(i + 1),
                    r as nat,
                ));
            }
            i += 1;
        }
        proof {
            assert(kinds@.take(kinds.len() as int) =~= kinds@);
        }
        r += 1;
    }
    out
}


/// Which packet a recipe decodes: the one that introduces an object, or a
/// later one that updates it.
#[derive(Clone, Copy, Debug, PartialEq, Eq, Structural)]
pub enum DecodeContext {
    Construction,
    Update,
}

/// One leaf structure that a decode step reads.
#[derive(Clone, Copy, Debug, PartialEq, Eq, Structural)]
pub enum LeafDecoder {
    ControllablePhysicsConstruction,
    FxConstruction,
    PossessionControlConstruction,
    LevelProgressionConstruction,
    PlayerForcedMovementConstruction,
    CharacterConstruction,
    BuffConstruction,
    DestroyableConstruction,
    SkillConstruction,
    InventoryConstruction,
    BbbConstruction,
    ControllablePhysicsSerialization,
    PossessionControlSerialization,
    LevelProgressionSerialization,
    PlayerForcedMovementSerialization,
    CharacterSerialization,
    DestroyableSerialization,
    InventorySerialization,
    BbbSerialization,
}

/// The steps that one component kind contributes to a construction packet,
/// or `None` for a kind that neither table knows.
pub open spec fn construction_steps(kind: u32) -> Option<Seq<LeafDecoder>> {
    if kind == 1 {
        Some(seq![LeafDecoder::ControllablePhysicsConstruction])
    } else if kind == 2 {
        Some(seq![LeafDecoder::FxConstruction])
    } else if kind == 4 {
        Some(
            seq![
                LeafDecoder::PossessionControlConstruction,
                LeafDecoder::LevelProgressionConstruction,
                LeafDecoder::PlayerForcedMovementConstruction,
                LeafDecoder::CharacterConstruction,
            ],
        )
    } else if kind == 7 {
        Some(seq![LeafDecoder::BuffConstruction, LeafDecoder::DestroyableConstruction])
    } else if kind == 9 {
        Some(seq![LeafDecoder::SkillConstruction])
    } else if kind == 17 {
        Some(seq![LeafDecoder::InventoryConstruction])
    } else if kind == 107 {
        Some(seq![LeafDecoder::BbbConstruction])
    } else if kind == 55 || kind == 68 {
        Some(seq![])
    } else {
        None
    }
}

/// The steps that one component kind contributes to an update packet, or
/// `None` for a kind that neither table knows.
pub open spec fn update_steps(kind: u32) -> Option<Seq<LeafDecoder>> {
    if kind == 1 {
        Some(seq![LeafDecoder::ControllablePhysicsSerialization])
    } else if kind == 4 {
        Some(
            seq![
                LeafDecoder::PossessionControlSerialization,
                LeafDecoder::LevelProgressionSerialization,
                LeafDecoder::PlayerForcedMovementSerialization,
                LeafDecoder::CharacterSerialization,
            ],
        )
    } else if kind == 7 {
        Some(seq![LeafDecoder::DestroyableSerialization])
    } else if kind == 17 {
        Some(seq![LeafDecoder::InventorySerialization])
    } else if kind == 107 {
        Some(seq![LeafDecoder::BbbSerialization])
    } else if kind == 2 || kind == 9 || kind == 55 || kind == 68 {
        Some(seq![])
    } else {
        None
    }
}

pub open spec fn steps_for(kind: u32, ctx: DecodeContext) -> Option<Seq<LeafDecoder>> {
    match ctx {
        DecodeContext::Construction => construction_steps(kind),
        DecodeContext::Update => update_steps(kind),
    }
}

/// The concatenated steps of `kinds` in their given order, or the first kind
/// that the context's table does not know.
pub open spec fn expand(kinds: Seq<u32>, ctx: DecodeContext) -> Result<Seq<LeafDecoder>, u32>
    decreases kinds.len(),
{
    if kinds.len() == 0 {
        Ok(seq![])
    } else {
        match steps_for(kinds[0], ctx) {
            None => Err(kinds[0]),
            Some(first) => match expand(kinds.drop_first(), ctx) {
                Err(k) => Err(k),
                Ok(rest) => Ok(first + rest),
            },
        }
    }
}

/// The decode recipe of a component set in a context: its kinds in priority
/// order, each replaced by its steps; or the first unknown kind.
pub open spec fn recipe_of(kinds: Seq<u32>, ctx: DecodeContext) -> Result<Seq<LeafDecoder>, u32> {
    expand(ordered(kinds), ctx)
}

/// The steps that `kind` contributes in `ctx`, or `None` for an unknown kind.
pub fn kind_steps(kind: u32, ctx: DecodeContext) -> (r: Option<Vec<LeafDecoder>>)
    ensures
        r is Some <==> steps_for(kind, ctx) is Some,
        r is Some ==> r->0@ == steps_for(kind, ctx)->0,
{
    let mut v: Vec<LeafDecoder> = Vec::new();
    match ctx {
        DecodeContext::Construction => match kind {
            1 => v.push(LeafDecoder::ControllablePhysicsConstruction),
            2 => v.push(LeafDecoder::FxConstruction),
            4 => {
                v.push(LeafDecoder::PossessionControlConstruction);
                v.push(LeafDecoder::LevelProgressionConstruction);
                v.push(LeafDecoder::PlayerForcedMovementConstruction);
                v.push(LeafDecoder::CharacterConstruction);
            },
            7 => {
                v.push(LeafDecoder::BuffConstruction);
                v.push(LeafDecoder::DestroyableConstruction);
            },
            9 => v.push(LeafDecoder::SkillConstruction),
            17 => v.push(LeafDecoder::InventoryConstruction),
            107 => v.push(LeafDecoder::BbbConstruction),
            55 | 68 => {},
            _ => {
                return None;
            },
        },
        DecodeContext::Update => match kind {
            1 => v.push(LeafDecoder::ControllablePhysicsSerialization),
            4 => {
                v.push(LeafDecoder::PossessionControlSerialization);
                v.push(LeafDecoder::LevelProgressionSerialization);
                v.push(LeafDecoder::PlayerForcedMovementSerialization);
                v.push(LeafDecoder::CharacterSerialization);
            },
            7 => v.push(LeafDecoder::DestroyableSerialization),
            17 => v.push(LeafDecoder::InventorySerialization),
            107 => v.push(LeafDecoder::BbbSerialization),
            2 | 9 | 55 | 68 => {},
            _ => {
                return None;
            },
        },
    }
    assert(v@ =~= steps_for(kind, ctx)->0);
    Some(v)
}

/// Resolves a component set into its decode recipe for `ctx`. Fails with the
/// offending kind when a kind is in neither table.
pub fn resolve(kinds: &Vec<u32>, ctx: DecodeContext) -> (r: Result<Vec<LeafDecoder>, u32>)
    ensures
        match (r, recipe_of(kinds@, ctx)) {
            (Ok(v), Ok(s)) => v@ == s,
            (Err(k), Err(e)) => k == e,
            _ => false,
        },
{
    let order = priority_order(kinds);
    let ghost s = order@;
    let mut out: Vec<LeafDecoder> = Vec::new();
    let mut i: usize = 0;
    proof {
        assert(s.subrange(0, s.len() as int) =~= s);
        match expand(s, ctx) {
            Ok(all) => assert(out@ + all =~= all),
            Err(_) => {},
        }
    }
    while i < order.len()
        invariant
            i <= order.len(),
            s == order@,
            s == ordered(kinds@),
            expand(s, ctx) == match expand(s.subrange(i as int, s.len() as int), ctx) {
                Ok(rest) => Ok(out@ + rest),
                Err(k) => Err(k),
            },
        decreases order.len() - i,
    {
        let k = order[i];
        let ghost tail = s.subrange(i as int, s.len() as int);
        assert(tail.drop_first() =~= s.subrange(i + 1, s.len() as int));
        match kind_steps(k, ctx) {
            None => {
                return Err(k);
            },
            Some(steps) => {
                let ghost before = out@;
                let mut steps = steps;
                out.append(&mut steps);
                proof {
                    match expand(s.subrange(i + 1, s.len() as int), ctx) {
                        Ok(rest) => {
                            assert(before + (steps_for(k, ctx)->0 + rest) =~= out@ + rest);
                        },
                        Err(_) => {},
                    }
                }
            },
        }
        i += 1;
    }
    assert(s.subrange(s.len() as int, s.len() as int) =~= Seq::<u32>::empty());
    assert(out@ + Seq::<LeafDecoder>::empty() =~= out@);
    Ok(out)
}


proof fn lemma_of_rank_members(s: Seq<u32>, r: nat)
    ensures
        forall|i: int| 0 <= i < of_rank(s, r).len() ==> rank(#[trigger] of_rank(s, r)[i]) == r,
    decreases s.len(),
{
    if s.len() > 0 {
        lemma_of_rank_members(s.drop_last(), r);
        let rest = of_rank(s.drop_last(), r);
        assert forall|i: int| 0 <= i < of_rank(s, r).len() implies rank(
            #[trigger] of_rank(s, r)[i],
        ) == r by {
            if i < rest.len() {
                assert(of_rank(s, r)[i] == rest[i]);
            }
        }
    }
}

proof fn lemma_ranks_below_sorted(s: Seq<u32>, n: nat)
    ensures
        forall|i: int|
            0 <= i < ranks_below(s, n).len() ==> rank(#[trigger] ranks_below(s, n)[i]) < n,
        forall|i: int, j: int|
            0 <= i < j < ranks_below(s, n).len() ==> rank(#[trigger] ranks_below(s, n)[i]) <= rank(
                #[trigger] ranks_below(s, n)[j],
            ),
    decreases n,
{
    if n > 0 {
        let m = (n - 1) as nat;
        lemma_ranks_below_sorted(s, m);
        lemma_of_rank_members(s, m);
        let a = ranks_below(s, m);
        let b = of_rank(s, m);
        assert(ranks_below(s, n) == a + b);
        assert forall|i: int| 0 <= i < ranks_below(s, n).len() implies rank(
            #[trigger] ranks_below(s, n)[i],
        ) < n by {
            if i >= a.len() {
                assert(ranks_below(s, n)[i] == b[i - a.len()]);
            }
        }
        assert forall|i: int, j: int| 0 <= i < j < ranks_below(s, n).len() implies rank(
            #[trigger] ranks_below(s, n)[i],
        ) <= rank(#[trigger] ranks_below(s, n)[j]) by {
            if j >= a.len() {
                assert(ranks_below(s, n)[j] == b[j - a.len()]);
                if i >= a.len() {
                    assert(ranks_below(s, n)[i] == b[i - a.len()]);
                }
            }
        }
    }
}

proof fn lemma_of_rank_concat(a: Seq<u32>, b: Seq<u32>, r: nat)
    ensures
        of_rank(a + b, r) == of_rank(a, r) + of_rank(b, r),
    decreases b.len(),
{
    if b.len() == 0 {
        assert(a + b =~= a);
        assert(of_rank(a, r) + of_rank(b, r) =~= of_rank(a, r));
    } else {
        lemma_of_rank_concat(a, b.drop_last(), r);
        assert((a + b).drop_last() =~= a + b.drop_last());
        assert((a + b).last() == b.last());
        if rank(b.last()) == r {
            assert(of_rank(a, r) + of_rank(b.drop_last(), r).push(b.last()) =~= (of_rank(a, r)
                + of_rank(b.drop_last(), r)).push(b.last()));
        }
    }
}

proof fn lemma_of_rank_of_rank(s: Seq<u32>, q: nat, r: nat)
    ensures
        of_rank(of_rank(s, q), r) == (if q == r {
            of_rank(s, r)
        } else {
            Seq::<u32>::empty()
        }),
    decreases s.len(),
{
    if s.len() > 0 {
        lemma_of_rank_of_rank(s.drop_last(), q, r);
        if rank(s.last()) == q {
            assert(of_rank(s, q).drop_last() =~= of_rank(s.drop_last(), q));
        }
    }
}

proof fn lemma_of_rank_ranks_below(s: Seq<u32>, n: nat, r: nat)
    ensures
        of_rank(ranks_below(s, n), r) == (if r < n {
            of_rank(s, r)
        } else {
            Seq::<u32>::empty()
        }),
    decreases n,
{
    if n > 0 {
        let m = (n - 1) as nat;
        lemma_of_rank_ranks_below(s, m, r);
        lemma_of_rank_concat(ranks_below(s, m), of_rank(s, m), r);
        lemma_of_rank_of_rank(s, m, r);
        if r < m {
            assert(of_rank(s, r) + Seq::<u32>::empty() =~= of_rank(s, r));
        } else if r == m {
            assert(Seq::<u32>::empty() + of_rank(s, r) =~= of_rank(s, r));
        } else {
            assert(Seq::<u32>::empty() + Seq::<u32>::empty() =~= Seq::<u32>::empty());
        }
    } else {
        assert(of_rank(Seq::<u32>::empty(), r) == Seq::<u32>::empty());
    }
}

proof fn lemma_ranks_below_stable(s: Seq<u32>, n: nat)
    requires
        n <= RANK_COUNT,
    ensures
        ranks_below(ordered(s), n) == ranks_below(s, n),
    decreases n,
{
    if n > 0 {
        lemma_ranks_below_stable(s, (n - 1) as nat);
        lemma_of_rank_ranks_below(s, RANK_COUNT as nat, (n - 1) as nat);
    }
}

/// Priority ordering is a stable sort by rank: the result never places a
/// kind before one of lower rank, and for every rank, in particular the
/// shared rank of unlisted kinds, the kinds of that rank keep the relative
/// order they had in the input.
pub proof fn law_priority_order(kinds: Seq<u32>)
    ensures
        forall|i: int, j: int|
            0 <= i < j < ordered(kinds).len() ==> rank(#[trigger] ordered(kinds)[i]) <= rank(
                #[trigger] ordered(kinds)[j],
            ),
        forall|r: nat| #[trigger] of_rank(ordered(kinds), r) == of_rank(kinds, r),
{
    lemma_ranks_below_sorted(kinds, RANK_COUNT as nat);
    assert forall|r: nat| #[trigger] of_rank(ordered(kinds), r) == of_rank(kinds, r) by {
        lemma_of_rank_ranks_below(kinds, RANK_COUNT as nat, r);
        if r >= RANK_COUNT {
            lemma_of_rank_members(kinds, r);
            assert(of_rank(kinds, r).len() == 0) by {
                if of_rank(kinds, r).len() > 0 {
                    assert(rank(of_rank(kinds, r)[0]) == r);
                }
            }
        }
    }
}

/// Resolution is a function of its inputs: equal component sets in equal
/// contexts give equal recipes, and resolving an already priority-ordered
/// set gives the same recipe as resolving it unordered, so a cache may keep
/// either form.
pub proof fn law_resolve_deterministic(a: Seq<u32>, b: Seq<u32>, ctx: DecodeContext)
    requires
        a == b,
    ensures
        recipe_of(a, ctx) == recipe_of(b, ctx),
        ordered(ordered(a)) == ordered(a),
        recipe_of(ordered(a), ctx) == recipe_of(a, ctx),
{
    lemma_ranks_below_stable(a, RANK_COUNT as nat);
}

} // verus!
