//! The all-pairs collision resolver: every live enemy against every
//! live projectile, by distance threshold, with a no-double-match
//! rule.
//!
//! The outcome is a matching: each matched pair hits, no entity is
//! matched twice, an entity is despawned exactly when it is matched,
//! and the matching is maximal — two survivors never hit each other.
//! Any scanning order that respects the no-double-match rule yields an
//! outcome with these properties.

use vstd::prelude::*;
use crate::geom::{self, hits_spec, POS_LIMIT, WINDOW_LIMIT};
use crate::registry::{positions_within, Entity};

verus! {

/// What one resolution pass decided: which enemies and projectiles
/// survive, and the matched index pairs.
pub struct CollisionOutcome {
    pub enemy_alive: Vec<bool>,
    pub projectile_alive: Vec<bool>,
    pub pairs: Vec<(usize, usize)>,
}

/// Whether some matched pair claims the enemy at index `i`.
pub open spec fn enemy_matched(pairs: Seq<(usize, usize)>, i: int) -> bool {
    exists|k: int| 0 <= k < pairs.len() && (#[trigger] pairs[k]).0 as int == i
}

/// Whether some matched pair claims the projectile at index `j`.
pub open spec fn projectile_matched(pairs: Seq<(usize, usize)>, j: int) -> bool {
    exists|k: int| 0 <= k < pairs.len() && (#[trigger] pairs[k]).1 as int == j
}

/// A pair names a live enemy and projectile that hit each other.
pub open spec fn pair_valid(
    enemies: Seq<Entity>,
    projectiles: Seq<Entity>,
    radius: int,
    p: (usize, usize),
) -> bool {
    &&& (p.0 as int) < enemies.len()
    &&& (p.1 as int) < projectiles.len()
    &&& hits_spec(enemies[p.0 as int].pos, projectiles[p.1 as int].pos, radius)
}

/// The resolution pass's contract: the pairs form a matching of
/// hitting entities, injective on both sides; the alive masks mark
/// exactly the unmatched entities; and the matching is maximal, so no
/// surviving enemy is within radius of a surviving projectile.
pub open spec fn matching_wf(
    enemies: Seq<Entity>,
    projectiles: Seq<Entity>,
    radius: int,
    ea: Seq<bool>,
    pa: Seq<bool>,
    pairs: Seq<(usize, usize)>,
) -> bool {
    &&& ea.len() == enemies.len()
    &&& pa.len() == projectiles.len()
    &&& forall|k: int|
        0 <= k < pairs.len() ==> pair_valid(enemies, projectiles, radius, #[trigger] pairs[k])
    &&& forall|k1: int, k2: int|
        0 <= k1 < k2 < pairs.len() ==> (#[trigger] pairs[k1]).0 != (#[trigger] pairs[k2]).0
            && pairs[k1].1 != pairs[k2].1
    &&& forall|i: int| 0 <= i < ea.len() ==> (#[trigger] ea[i] <==> !enemy_matched(pairs, i))
    &&& forall|j: int| 0 <= j < pa.len() ==> (#[trigger] pa[j] <==> !projectile_matched(pairs, j))
    &&& forall|i: int, j: int|
        0 <= i < enemies.len() && 0 <= j < projectiles.len() && #[trigger] ea[i] && #[trigger] pa[j]
            ==> !hits_spec(enemies[i].pos, projectiles[j].pos, radius)
}

/// One overlapping pair despawns one enemy and one projectile,
/// never two of either: with a single enemy and a single projectile
/// within radius, every outcome the resolver's contract admits
/// matches exactly that pair, and neither entity survives.
pub proof fn lemma_single_pair(
    enemies: Seq<Entity>,
    projectiles: Seq<Entity>,
    radius: int,
    ea: Seq<bool>,
    pa: Seq<bool>,
    pairs: Seq<(usize, usize)>,
)
    requires
        matching_wf(enemies, projectiles, radius, ea, pa, pairs),
        enemies.len() == 1,
        projectiles.len() == 1,
        hits_spec(enemies[0].pos, projectiles[0].pos, radius),
    ensures
        ea[0] == false,
        pa[0] == false,
        pairs.len() == 1,
        pairs[0].0 == 0 && pairs[0].1 == 0,
{
    assert(!(ea[0] && pa[0]));
    if !ea[0] {
        assert(enemy_matched(pairs, 0));
        let k = choose|k: int| 0 <= k < pairs.len() && (#[trigger] pairs[k]).0 as int == 0;
        assert(pair_valid(enemies, projectiles, radius, pairs[k]));
        assert((pairs[k].1 as int) == 0);
        assert(projectile_matched(pairs, 0));
        assert(!pa[0]);
    } else {
        assert(!pa[0]);
        assert(projectile_matched(pairs, 0));
        let k = choose|k: int| 0 <= k < pairs.len() && (#[trigger] pairs[k]).1 as int == 0;
        assert(pair_valid(enemies, projectiles, radius, pairs[k]));
        assert((pairs[k].0 as int) == 0);
        assert(enemy_matched(pairs, 0));
        assert(!ea[0]);
    }
    assert(pairs.len() >= 1);
    if pairs.len() >= 2 {
        assert(pair_valid(enemies, projectiles, radius, pairs[0]));
        assert(pair_valid(enemies, projectiles, radius, pairs[1]));
        assert((pairs[0].0 as int) == 0 && (pairs[1].0 as int) == 0);
        assert(false);
    }
    assert(pair_valid(enemies, projectiles, radius, pairs[0]));
}

/// Pushing a pair claims exactly its two indices, on top of what was
/// claimed before.
proof fn lemma_matched_push(pairs: Seq<(usize, usize)>, p: (usize, usize), x: int)
    ensures
        enemy_matched(pairs.push(p), x) <==> (enemy_matched(pairs, x) || p.0 as int == x),
        projectile_matched(pairs.push(p), x) <==> (projectile_matched(pairs, x) || p.1 as int
            == x),
{
    let ext = pairs.push(p);
    assert(ext[pairs.len() as int] == p);
    if enemy_matched(ext, x) {
        let k = choose|k: int| 0 <= k < ext.len() && (#[trigger] ext[k]).0 as int == x;
        if k < pairs.len() {
            assert(pairs[k] == ext[k]);
        }
    }
    if enemy_matched(pairs, x) {
        let k = choose|k: int| 0 <= k < pairs.len() && (#[trigger] pairs[k]).0 as int == x;
        assert(ext[k] == pairs[k]);
    }
    if projectile_matched(ext, x) {
        let k = choose|k: int| 0 <= k < ext.len() && (#[trigger] ext[k]).1 as int == x;
        if k < pairs.len() {
            assert(pairs[k] == ext[k]);
        }
    }
    if projectile_matched(pairs, x) {
        let k = choose|k: int| 0 <= k < pairs.len() && (#[trigger] pairs[k]).1 as int == x;
        assert(ext[k] == pairs[k]);
    }
}

/// A vector of `n` set bits.
fn trues(n: usize) -> (v: Vec<bool>)
    ensures
        v@.len() == n,
        forall|i: int| 0 <= i < n ==> #[trigger] v@[i] == true,
{
    let mut v: Vec<bool> = Vec::new();
    let mut i: usize = 0;
    while i < n
        invariant
            i <= n,
            v@.len() == i,
            forall|k: int| 0 <= k < i ==> #[trigger] v@[k] == true,
        decreases n - i,
    {
        v.push(true);
        i = i + 1;
    }
    v
}

/// One resolution pass over a snapshot: scans enemies against
/// projectiles in index order, matching a pair as soon as both are
/// still alive and within radius, and never matching a despawned
/// entity again in the same pass.
pub fn resolve_collisions(
    enemies: &Vec<Entity>,
    projectiles: &Vec<Entity>,
    radius: i64,
) -> (out: CollisionOutcome)
    requires
        positions_within(enemies@, POS_LIMIT as int),
        positions_within(projectiles@, POS_LIMIT as int),
        0 <= radius <= WINDOW_LIMIT,
    ensures
        matching_wf(
            enemies@,
            projectiles@,
            radius as int,
            out.enemy_alive@,
            out.projectile_alive@,
            out.pairs@,
        ),
{
    let ne = enemies.len();
    let np = projectiles.len();
    let mut ea = trues(ne);
    let mut pa = trues(np);
    let mut pairs: Vec<(usize, usize)> = Vec::new();
    let mut i: usize = 0;
    while i < ne
        invariant
            i <= ne,
            ne == enemies@.len(),
            np == projectiles@.len(),
            ea@.len() == ne,
            pa@.len() == np,
            positions_within(enemies@, POS_LIMIT as int),
            positions_within(projectiles@, POS_LIMIT as int),
            0 <= radius <= WINDOW_LIMIT,
            forall|k: int|
                0 <= k < pairs@.len() ==> pair_valid(
                    enemies@,
                    projectiles@,
                    radius as int,
                    #[trigger] pairs@[k],
                ),
            forall|k1: int, k2: int|
                0 <= k1 < k2 < pairs@.len() ==> (#[trigger] pairs@[k1]).0 != (
                #[trigger] pairs@[k2]).0 && pairs@[k1].1 != pairs@[k2].1,
            forall|e: int| 0 <= e < ne ==> (#[trigger] ea@[e] <==> !enemy_matched(pairs@, e)),
            forall|j: int| 0 <= j < np ==> (#[trigger] pa@[j] <==> !projectile_matched(pairs@, j)),
            forall|e: int, j: int|
                0 <= e < i && 0 <= j < np && #[trigger] ea@[e] && #[trigger] pa@[j]
                    ==> !hits_spec(enemies@[e].pos, projectiles@[j].pos, radius as int),
        decreases ne - i,
    {
        let mut j: usize = 0;
        while j < np
            invariant
                0 <= i < ne,
                j <= np,
                ne == enemies@.len(),
                np == projectiles@.len(),
                ea@.len() == ne,
                pa@.len() == np,
                positions_within(enemies@, POS_LIMIT as int),
                positions_within(projectiles@, POS_LIMIT as int),
                0 <= radius <= WINDOW_LIMIT,
                forall|k: int|
                    0 <= k < pairs@.len() ==> pair_valid(
                        enemies@,
                        projectiles@,
                        radius as int,
                        #[trigger] pairs@[k],
                    ),
                forall|k1: int, k2: int|
                    0 <= k1 < k2 < pairs@.len() ==> (#[trigger] pairs@[k1]).0 != (
                    #[trigger] pairs@[k2]).0 && pairs@[k1].1 != pairs@[k2].1,
                forall|e: int| 0 <= e < ne ==> (#[trigger] ea@[e] <==> !enemy_matched(pairs@, e)),
                forall|j2: int|
                    0 <= j2 < np ==> (#[trigger] pa@[j2] <==> !projectile_matched(pairs@, j2)),
                forall|e: int, j2: int|
                    0 <= e < i && 0 <= j2 < np && #[trigger] ea@[e] && #[trigger] pa@[j2]
                        ==> !hits_spec(enemies@[e].pos, projectiles@[j2].pos, radius as int),
                ea@[i as int] ==> forall|j2: int|
                    0 <= j2 < j && #[trigger] pa@[j2] ==> !hits_spec(
                        enemies@[i as int].pos,
                        projectiles@[j2].pos,
                        radius as int,
                    ),
            decreases np - j,
        {
            let enemy_alive_now = ea[i];
            let projectile_alive_now = pa[j];
            if enemy_alive_now && projectile_alive_now {
                let hit = geom::hits(enemies[i].pos, projectiles[j].pos, radius);
                if hit {
                    let ghost old_pairs = pairs@;
                    let ghost old_ea = ea@;
                    let ghost old_pa = pa@;
                    ea.set(i, false);
                    pa.set(j, false);
                    pairs.push((i, j));
                    proof {
                        assert(pairs@ == old_pairs.push((i, j)));
                        assert forall|e: int|
                            0 <= e < ne implies (#[trigger] ea@[e] <==> !enemy_matched(
                            pairs@,
                            e,
                        )) by {
                            lemma_matched_push(old_pairs, (i, j), e);
                        }
                        assert forall|j2: int|
                            0 <= j2 < np implies (#[trigger] pa@[j2] <==> !projectile_matched(
                            pairs@,
                            j2,
                        )) by {
                            lemma_matched_push(old_pairs, (i, j), j2);
                        }
                        assert forall|k1: int, k2: int|
                            0 <= k1 < k2 < pairs@.len() implies (#[trigger] pairs@[k1]).0 != (
                        #[trigger] pairs@[k2]).0 && pairs@[k1].1 != pairs@[k2].1 by {
                            if k2 == old_pairs.len() {
                                assert(pairs@[k2] == (i, j));
                                assert(pairs@[k1] == old_pairs[k1]);
                                assert(!enemy_matched(old_pairs, i as int));
                                assert(!projectile_matched(old_pairs, j as int));
                                assert((old_pairs[k1].0 as int) != (i as int)) by {
                                    if (old_pairs[k1].0 as int) == (i as int) {
                                        assert(enemy_matched(old_pairs, i as int));
                                    }
                                }
                                assert((old_pairs[k1].1 as int) != (j as int)) by {
                                    if (old_pairs[k1].1 as int) == (j as int) {
                                        assert(projectile_matched(old_pairs, j as int));
                                    }
                                }
                            } else {
                                assert(pairs@[k1] == old_pairs[k1]);
                                assert(pairs@[k2] == old_pairs[k2]);
                            }
                        }
                    }
                }
            }
            j = j + 1;
        }
        i = i + 1;
        proof {
            assert forall|e: int, j2: int|
                0 <= e < i && 0 <= j2 < np && #[trigger] ea@[e] && #[trigger] pa@[j2]
                    implies !hits_spec(
                enemies@[e].pos,
                projectiles@[j2].pos,
                radius as int,
            ) by {
                if e == i - 1 {
                    assert(ea@[i - 1] ==> !hits_spec(
                        enemies@[i - 1].pos,
                        projectiles@[j2].pos,
                        radius as int,
                    ));
                }
            }
        }
    }
    CollisionOutcome { enemy_alive: ea, projectile_alive: pa, pairs }
}

} // verus!
