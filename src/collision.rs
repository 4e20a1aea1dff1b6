use vstd::prelude::*;
use crate::formation::Enemy;
use crate::geometry::{collide, overlaps, Body};
use crate::projectile::Projectile;

verus! {

/// `k` is the first enemy of `es` that `b` overlaps.
pub open spec fn is_first_hit(b: Body, es: Seq<Enemy>, k: int) -> bool {
    &&& 0 <= k < es.len()
    &&& overlaps(b, es[k].body)
    &&& forall|j: int| 0 <= j < k ==> !overlaps(b, #[trigger] es[j].body)
}

/// The first enemy of `es` that `b` overlaps, if any.
pub open spec fn first_hit(b: Body, es: Seq<Enemy>) -> Option<int> {
    if exists|k: int| is_first_hit(b, es, k) {
        Some(choose|k: int| is_first_hit(b, es, k))
    } else {
        None
    }
}

/// The collision pass over projectiles `ps` and enemies `es`, in order:
/// each projectile meets the first remaining enemy it overlaps, and both
/// are removed. Yields the projectiles that hit nothing, the enemies left,
/// and the enemies destroyed, in the order they were hit.
pub open spec fn resolve(ps: Seq<Projectile>, es: Seq<Enemy>) -> (Seq<Projectile>, Seq<Enemy>, Seq<Enemy>)
    decreases ps.len(),
{
    if ps.len() == 0 {
        (Seq::empty(), es, Seq::empty())
    } else {
        let prev = resolve(ps.drop_last(), es);
        let p = ps.last();
        match first_hit(p.body, prev.1) {
            Some(k) => (prev.0, prev.1.remove(k), prev.2.push(prev.1[k])),
            None => (prev.0.push(p), prev.1, prev.2),
        }
    }
}

proof fn lemma_first_hit_is(b: Body, es: Seq<Enemy>, k: int)
    requires
        is_first_hit(b, es, k),
    ensures
        first_hit(b, es) == Some(k),
{
    let c = choose|c: int| is_first_hit(b, es, c);
    assert(is_first_hit(b, es, c));
    if c < k {
        assert(!overlaps(b, es[c].body));
    } else if k < c {
        assert(!overlaps(b, es[k].body));
    }
}

/// The index of the first enemy that `b` overlaps.
pub fn find_first_hit(b: &Body, enemies: &Vec<Enemy>) -> (r: Option<usize>)
    ensures
        match r {
            Some(k) => first_hit(*b, enemies@) == Some(k as int),
            None => first_hit(*b, enemies@) is None,
        },
{
    let mut i: usize = 0;
    while i < enemies.len()
        invariant
            i <= enemies.len(),
            forall|j: int| 0 <= j < i ==> !overlaps(*b, #[trigger] enemies@[j].body),
        decreases enemies.len() - i,
    {
        if collide(b, &enemies[i].body) {
            proof {
                lemma_first_hit_is(*b, enemies@, i as int);
            }
            return Some(i);
        }
        i += 1;
    }
    assert forall|k: int| !is_first_hit(*b, enemies@, k) by {
        if 0 <= k < enemies@.len() {
            assert(!overlaps(*b, enemies@[k].body));
        }
    }
    None
}

/// Tests every projectile against the enemies, in order. A projectile that
/// overlaps an enemy destroys the first such enemy and is removed with it.
/// Returns the enemies destroyed, in the order they were hit. The player's
/// box is solid too, but a projectile over it has no effect, so it takes no
/// part here.
pub fn check_for_collisions(projectiles: &mut Vec<Projectile>, enemies: &mut Vec<Enemy>) -> (kills: Vec<Enemy>)
    ensures
        (final(projectiles)@, final(enemies)@, kills@) == resolve(old(projectiles)@, old(enemies)@),
{
    let ghost ps0 = projectiles@;
    let ghost es0 = enemies@;
    let mut survivors: Vec<Projectile> = Vec::new();
    let mut kills: Vec<Enemy> = Vec::new();
    let mut i: usize = 0;
    while i < projectiles.len()
        invariant
            projectiles@ == ps0,
            i <= ps0.len(),
            (survivors@, enemies@, kills@) == resolve(ps0.take(i as int), es0),
        decreases ps0.len() - i,
    {
        let p = projectiles[i];
        proof {
            assert(ps0.take(i + 1).drop_last() =~= ps0.take(i as int));
            assert(ps0.take(i + 1).last() == p);
        }
        match find_first_hit(&p.body, enemies) {
            Some(k) => {
                let e = enemies.remove(k);
                kills.push(e);
            },
            None => {
                survivors.push(p);
            },
        }
        i += 1;
    }
    assert(ps0.take(ps0.len() as int) =~= ps0);
    *projectiles = survivors;
    kills
}

/// A projectile and an enemy alone: if their boxes overlap, both are gone
/// and the enemy is reported destroyed once; otherwise nothing changes.
pub proof fn lemma_single_pair(p: Projectile, e: Enemy)
    ensures
        overlaps(p.body, e.body) ==> resolve(seq![p], seq![e]) == (
            Seq::<Projectile>::empty(),
            Seq::<Enemy>::empty(),
            seq![e],
        ),
        !overlaps(p.body, e.body) ==> resolve(seq![p], seq![e]) == (seq![p], seq![e], Seq::<Enemy>::empty()),
{
    let ps = seq![p];
    let es = seq![e];
    assert(ps.drop_last() =~= Seq::<Projectile>::empty());
    assert(resolve(Seq::<Projectile>::empty(), es) == (Seq::<Projectile>::empty(), es, Seq::<Enemy>::empty()));
    if overlaps(p.body, e.body) {
        lemma_first_hit_is(p.body, es, 0);
        assert(es.remove(0) =~= Seq::<Enemy>::empty());
        assert(Seq::<Enemy>::empty().push(e) =~= seq![e]);
    } else {
        assert(forall|k: int| !is_first_hit(p.body, es, k));
        assert(Seq::<Projectile>::empty().push(p) =~= seq![p]);
    }
}

} // verus!
