use vstd::prelude::*;

verus! {

/// Points for destroying an enemy.
pub const DEATH_POINTS: u64 = 100;

/// The sum of `points`.
pub open spec fn total(points: Seq<u64>) -> int
    decreases points.len(),
{
    if points.len() == 0 {
        0
    } else {
        total(points.drop_last()) + points.last()
    }
}

/// `score` with `points` added, held at `u64::MAX` rather than wrapping.
pub open spec fn credited(score: int, points: Seq<u64>) -> int {
    if score + total(points) > u64::MAX {
        u64::MAX as int
    } else {
        score + total(points)
    }
}

/// The score after a run of ticks, each with the death signals it drained.
pub open spec fn credited_ticks(score: int, ticks: Seq<Seq<u64>>) -> int
    decreases ticks.len(),
{
    if ticks.len() == 0 {
        score
    } else {
        credited(credited_ticks(score, ticks.drop_last()), ticks.last())
    }
}

/// Adds the points of the death signals drained on this tick to `score`.
pub fn update_player_score(score: u64, deaths: &Vec<u64>) -> (r: u64)
    ensures
        r == credited(score as int, deaths@),
{
    let mut acc: u64 = score;
    let mut i: usize = 0;
    while i < deaths.len()
        invariant
            i <= deaths@.len(),
            acc == credited(score as int, deaths@.take(i as int)),
        decreases deaths@.len() - i,
    {
        proof {
            assert(deaths@.take(i + 1).drop_last() =~= deaths@.take(i as int));
        }
        acc = acc.saturating_add(deaths[i]);
        i += 1;
    }
    assert(deaths@.take(deaths@.len() as int) =~= deaths@);
    acc
}

/// One death signal worth `DEATH_POINTS` for each of `count` enemies.
pub fn death_signals(count: usize) -> (r: Vec<u64>)
    ensures
        r@ == Seq::new(count as nat, |i: int| DEATH_POINTS),
{
    let mut r: Vec<u64> = Vec::new();
    let mut i: usize = 0;
    while i < count
        invariant
            i <= count,
            r@ == Seq::new(i as nat, |j: int| DEATH_POINTS),
        decreases count - i,
    {
        r.push(DEATH_POINTS);
        i += 1;
        assert(r@ =~= Seq::new(i as nat, |j: int| DEATH_POINTS));
    }
    r
}

proof fn lemma_total_append(a: Seq<u64>, b: Seq<u64>)
    ensures
        total(a + b) == total(a) + total(b),
    decreases b.len(),
{
    if b.len() > 0 {
        lemma_total_append(a, b.drop_last());
        assert((a + b).drop_last() =~= a + b.drop_last());
    } else {
        assert(a + b =~= a);
    }
}

proof fn lemma_total_nonnegative(a: Seq<u64>)
    ensures
        total(a) >= 0,
    decreases a.len(),
{
    if a.len() > 0 {
        lemma_total_nonnegative(a.drop_last());
    }
}

/// Death signals drained over several ticks add up to the score once each:
/// the score equals the one that the whole run of signals gives at once,
/// and, where that fits in a `u64`, the starting score plus their exact
/// sum.
pub proof fn lemma_score_accumulates(score: u64, ticks: Seq<Seq<u64>>)
    ensures
        credited_ticks(score as int, ticks) == credited(score as int, ticks.flatten_alt()),
        score + total(ticks.flatten_alt()) <= u64::MAX ==> credited_ticks(score as int, ticks) == score
            + total(ticks.flatten_alt()),
    decreases ticks.len(),
{
    if ticks.len() > 0 {
        let prev = ticks.drop_last();
        lemma_score_accumulates(score, prev);
        lemma_total_append(prev.flatten_alt(), ticks.last());
        lemma_total_nonnegative(prev.flatten_alt());
        lemma_total_nonnegative(ticks.last());
    }
}

} // verus!
