//! The entity registry: the live sets of player, enemy, bullet and bomb
//! entities, keyed by stable identifiers.
//!
//! Exactly one player entity exists, by construction a dedicated field.
//! Identifiers are handed out from a counter and never reused, so every
//! live entity carries a distinct id and despawn intents are unambiguous.

use vstd::prelude::*;
use crate::geom::Vec2;

verus! {

/// A live entity: a stable identity and a position.
#[derive(Clone, Copy, Debug, PartialEq, Eq, Structural)]
pub struct Entity {
    pub id: u64,
    pub pos: Vec2,
}

/// Every id in the list is below `n`.
pub open spec fn ids_below(s: Seq<Entity>, n: int) -> bool {
    forall|i: int| 0 <= i < s.len() ==> #[trigger] s[i].id < n
}

/// No two entries of the list share an id.
pub open spec fn distinct_ids(s: Seq<Entity>) -> bool {
    forall|i: int, j: int| 0 <= i < j < s.len() ==> #[trigger] s[i].id != #[trigger] s[j].id
}

/// No entry of the first list shares an id with one of the second.
pub open spec fn disjoint_ids(s: Seq<Entity>, t: Seq<Entity>) -> bool {
    forall|i: int, j: int|
        0 <= i < s.len() && 0 <= j < t.len() ==> #[trigger] s[i].id != #[trigger] t[j].id
}

/// No entry of the list carries the given id.
pub open spec fn excludes_id(s: Seq<Entity>, id: int) -> bool {
    forall|i: int| 0 <= i < s.len() ==> #[trigger] s[i].id != id
}

/// The live entities of one frame.
pub struct Registry {
    /// The next identifier to hand out; every live id is below it.
    pub next_id: u64,
    /// The one player entity.
    pub player: Entity,
    pub enemies: Vec<Entity>,
    pub bullets: Vec<Entity>,
    pub bombs: Vec<Entity>,
}

impl Registry {
    /// Identifiers are fresh from the counter and pairwise distinct,
    /// within each list, across lists, and against the player.
    pub open spec fn wf(self) -> bool {
        &&& self.player.id < self.next_id
        &&& ids_below(self.enemies@, self.next_id as int)
        &&& ids_below(self.bullets@, self.next_id as int)
        &&& ids_below(self.bombs@, self.next_id as int)
        &&& distinct_ids(self.enemies@)
        &&& distinct_ids(self.bullets@)
        &&& distinct_ids(self.bombs@)
        &&& disjoint_ids(self.enemies@, self.bullets@)
        &&& disjoint_ids(self.enemies@, self.bombs@)
        &&& disjoint_ids(self.bullets@, self.bombs@)
        &&& excludes_id(self.enemies@, self.player.id as int)
        &&& excludes_id(self.bullets@, self.player.id as int)
        &&& excludes_id(self.bombs@, self.player.id as int)
    }

    /// Starts a registry holding only the player, at the given position.
    pub fn new(player_pos: Vec2) -> (r: Registry)
        ensures
            r.wf(),
            r.player.id == 0,
            r.player.pos == player_pos,
            r.next_id == 1,
            r.enemies@ =~= Seq::<Entity>::empty(),
            r.bullets@ =~= Seq::<Entity>::empty(),
            r.bombs@ =~= Seq::<Entity>::empty(),
    {
        Registry {
            next_id: 1,
            player: Entity { id: 0, pos: player_pos },
            enemies: Vec::new(),
            bullets: Vec::new(),
            bombs: Vec::new(),
        }
    }

    /// Spawns an enemy at the given position, under a fresh id.
    pub fn spawn_enemy(&mut self, pos: Vec2) -> (id: u64)
        requires
            old(self).wf(),
            old(self).next_id < u64::MAX,
        ensures
            final(self).wf(),
            id == old(self).next_id,
            final(self).next_id == old(self).next_id + 1,
            final(self).enemies@ == old(self).enemies@.push(Entity { id, pos }),
            final(self).bullets == old(self).bullets,
            final(self).bombs == old(self).bombs,
            final(self).player == old(self).player,
    {
        let id = self.next_id;
        self.enemies.push(Entity { id, pos });
        self.next_id = self.next_id + 1;
        id
    }

    /// Spawns a bullet at the given position, under a fresh id.
    pub fn spawn_bullet(&mut self, pos: Vec2) -> (id: u64)
        requires
            old(self).wf(),
            old(self).next_id < u64::MAX,
        ensures
            final(self).wf(),
            id == old(self).next_id,
            final(self).next_id == old(self).next_id + 1,
            final(self).bullets@ == old(self).bullets@.push(Entity { id, pos }),
            final(self).enemies == old(self).enemies,
            final(self).bombs == old(self).bombs,
            final(self).player == old(self).player,
    {
        let id = self.next_id;
        self.bullets.push(Entity { id, pos });
        self.next_id = self.next_id + 1;
        id
    }

    /// Spawns a bomb at the given position, under a fresh id.
    pub fn spawn_bomb(&mut self, pos: Vec2) -> (id: u64)
        requires
            old(self).wf(),
            old(self).next_id < u64::MAX,
        ensures
            final(self).wf(),
            id == old(self).next_id,
            final(self).next_id == old(self).next_id + 1,
            final(self).bombs@ == old(self).bombs@.push(Entity { id, pos }),
            final(self).enemies == old(self).enemies,
            final(self).bullets == old(self).bullets,
            final(self).player == old(self).player,
    {
        let id = self.next_id;
        self.bombs.push(Entity { id, pos });
        self.next_id = self.next_id + 1;
        id
    }
}

/// The entries of `s` whose mask bit is set, in order.
pub open spec fn mask_filter(s: Seq<Entity>, keep: Seq<bool>) -> Seq<Entity>
    decreases s.len(),
{
    if s.len() == 0 {
        Seq::empty()
    } else {
        let init = mask_filter(s.drop_last(), keep.drop_last());
        if keep[s.len() - 1] {
            init.push(s.last())
        } else {
            init
        }
    }
}

/// Every entry the mask keeps is an entry of the original list.
pub proof fn lemma_mask_filter_sub(s: Seq<Entity>, keep: Seq<bool>)
    ensures
        mask_filter(s, keep).len() <= s.len(),
        forall|k: int| 0 <= k < mask_filter(s, keep).len() ==> s.contains(
            #[trigger] mask_filter(s, keep)[k],
        ),
    decreases s.len(),
{
    if s.len() > 0 {
        lemma_mask_filter_sub(s.drop_last(), keep.drop_last());
        let init = mask_filter(s.drop_last(), keep.drop_last());
        assert forall|k: int| 0 <= k < mask_filter(s, keep).len() implies s.contains(
            #[trigger] mask_filter(s, keep)[k],
        ) by {
            if k < init.len() {
                assert(s.drop_last().contains(init[k]));
                let j = choose|j: int|
                    0 <= j < s.drop_last().len() && s.drop_last()[j] == init[k];
                assert(s[j] == init[k]);
                assert(mask_filter(s, keep)[k] == s[j]);
            } else {
                assert(mask_filter(s, keep)[k] == s[s.len() - 1]);
            }
        }
    }
}

/// The entity stands somewhere in the list with its mask bit set.
pub open spec fn kept_from(s: Seq<Entity>, keep: Seq<bool>, x: Entity) -> bool {
    exists|j: int| 0 <= j < s.len() && #[trigger] s[j] == x && keep[j]
}

/// Every entry the mask keeps stands in the original list at a place
/// whose mask bit is set.
pub proof fn lemma_mask_filter_kept(s: Seq<Entity>, keep: Seq<bool>)
    requires
        keep.len() == s.len(),
    ensures
        forall|k: int|
            0 <= k < mask_filter(s, keep).len() ==> kept_from(
                s,
                keep,
                #[trigger] mask_filter(s, keep)[k],
            ),
    decreases s.len(),
{
    if s.len() > 0 {
        lemma_mask_filter_kept(s.drop_last(), keep.drop_last());
        let init = mask_filter(s.drop_last(), keep.drop_last());
        let res = mask_filter(s, keep);
        assert forall|k: int| 0 <= k < res.len() implies kept_from(s, keep, #[trigger] res[k]) by {
            if k < init.len() {
                assert(kept_from(s.drop_last(), keep.drop_last(), init[k]));
                let j = choose|j: int|
                    0 <= j < s.drop_last().len() && #[trigger] s.drop_last()[j] == init[k]
                        && keep.drop_last()[j];
                assert(s[j] == init[k] && keep[j]);
            } else {
                assert(res[k] == s[s.len() - 1] && keep[s.len() - 1]);
            }
        }
    }
}

/// Filtering keeps ids distinct.
pub proof fn lemma_mask_filter_distinct(s: Seq<Entity>, keep: Seq<bool>)
    requires
        distinct_ids(s),
    ensures
        distinct_ids(mask_filter(s, keep)),
    decreases s.len(),
{
    if s.len() > 0 {
        lemma_mask_filter_distinct(s.drop_last(), keep.drop_last());
        lemma_mask_filter_sub(s.drop_last(), keep.drop_last());
        let init = mask_filter(s.drop_last(), keep.drop_last());
        let res = mask_filter(s, keep);
        assert forall|i: int, j: int| 0 <= i < j < res.len() implies #[trigger] res[i].id
            != #[trigger] res[j].id by {
            if j < init.len() {
            } else if j == init.len() && res.len() > init.len() {
                assert(s.drop_last().contains(init[i]));
                let m = choose|m: int|
                    0 <= m < s.drop_last().len() && s.drop_last()[m] == init[i];
                assert(s[m].id != s[s.len() - 1].id);
            }
        }
    }
}

/// Filtering keeps every id below the same bound.
pub proof fn lemma_mask_filter_below(s: Seq<Entity>, keep: Seq<bool>, n: int)
    requires
        ids_below(s, n),
    ensures
        ids_below(mask_filter(s, keep), n),
{
    lemma_mask_filter_sub(s, keep);
    let res = mask_filter(s, keep);
    assert forall|k: int| 0 <= k < res.len() implies #[trigger] res[k].id < n by {
        let j = choose|j: int| 0 <= j < s.len() && s[j] == res[k];
        assert(s[j].id < n);
    }
}

/// Filtering keeps the list clear of a given id.
pub proof fn lemma_mask_filter_excludes(s: Seq<Entity>, keep: Seq<bool>, id: int)
    requires
        excludes_id(s, id),
    ensures
        excludes_id(mask_filter(s, keep), id),
{
    lemma_mask_filter_sub(s, keep);
    let res = mask_filter(s, keep);
    assert forall|k: int| 0 <= k < res.len() implies #[trigger] res[k].id != id by {
        let j = choose|j: int| 0 <= j < s.len() && s[j] == res[k];
        assert(s[j].id != id);
    }
}

/// Filtering either list keeps two lists disjoint.
pub proof fn lemma_mask_filter_disjoint(s: Seq<Entity>, keep: Seq<bool>, t: Seq<Entity>)
    requires
        disjoint_ids(s, t),
    ensures
        disjoint_ids(mask_filter(s, keep), t),
        disjoint_ids(t, mask_filter(s, keep)),
{
    lemma_mask_filter_sub(s, keep);
    let res = mask_filter(s, keep);
    assert forall|i: int, j: int|
        0 <= i < res.len() && 0 <= j < t.len() implies #[trigger] res[i].id
        != #[trigger] t[j].id by {
        let m = choose|m: int| 0 <= m < s.len() && s[m] == res[i];
        assert(s[m].id != t[j].id);
    }
}

/// Every position in the list has both coordinates within the bound.
pub open spec fn positions_within(s: Seq<Entity>, bound: int) -> bool {
    forall|i: int|
        0 <= i < s.len() ==> -bound <= #[trigger] s[i].pos.x <= bound && -bound <= s[i].pos.y
            <= bound
}

/// Filtering keeps every position within the same bound.
pub proof fn lemma_mask_filter_positions(s: Seq<Entity>, keep: Seq<bool>, bound: int)
    requires
        positions_within(s, bound),
    ensures
        positions_within(mask_filter(s, keep), bound),
{
    lemma_mask_filter_sub(s, keep);
    let res = mask_filter(s, keep);
    assert forall|k: int|
        0 <= k < res.len() implies -bound <= #[trigger] res[k].pos.x <= bound && -bound
        <= res[k].pos.y <= bound by {
        let j = choose|j: int| 0 <= j < s.len() && s[j] == res[k];
        assert(-bound <= s[j].pos.x <= bound && -bound <= s[j].pos.y <= bound);
    }
}

/// The two lists hold the same ids at the same places.
pub open spec fn same_ids(s: Seq<Entity>, t: Seq<Entity>) -> bool {
    s.len() == t.len() && forall|i: int| 0 <= i < s.len() ==> s[i].id == #[trigger] t[i].id
}

/// A registry whose lists keep their ids place for place, as when a
/// frame only moves entities, stays well formed.
pub proof fn lemma_wf_same_ids(a: Registry, b: Registry)
    requires
        a.wf(),
        b.next_id == a.next_id,
        b.player.id == a.player.id,
        same_ids(a.enemies@, b.enemies@),
        same_ids(a.bullets@, b.bullets@),
        same_ids(a.bombs@, b.bombs@),
    ensures
        b.wf(),
{
    lemma_same_ids_parts(a.enemies@, b.enemies@, a.next_id as int, a.player.id as int);
    lemma_same_ids_parts(a.bullets@, b.bullets@, a.next_id as int, a.player.id as int);
    lemma_same_ids_parts(a.bombs@, b.bombs@, a.next_id as int, a.player.id as int);
    lemma_same_ids_disjoint(a.enemies@, b.enemies@, a.bullets@, b.bullets@);
    lemma_same_ids_disjoint(a.enemies@, b.enemies@, a.bombs@, b.bombs@);
    lemma_same_ids_disjoint(a.bullets@, b.bullets@, a.bombs@, b.bombs@);
}

/// A list that keeps its ids place for place keeps them fresh,
/// distinct and clear of the player's id.
pub proof fn lemma_same_ids_parts(s: Seq<Entity>, t: Seq<Entity>, n: int, player_id: int)
    requires
        same_ids(s, t),
    ensures
        ids_below(s, n) ==> ids_below(t, n),
        distinct_ids(s) ==> distinct_ids(t),
        excludes_id(s, player_id) ==> excludes_id(t, player_id),
{
    if ids_below(s, n) {
        assert forall|i: int| 0 <= i < t.len() implies #[trigger] t[i].id < n by {
            assert(s[i].id < n);
        }
    }
    if distinct_ids(s) {
        assert forall|i: int, j: int| 0 <= i < j < t.len() implies #[trigger] t[i].id
            != #[trigger] t[j].id by {
            assert(s[i].id != s[j].id);
        }
    }
    if excludes_id(s, player_id) {
        assert forall|i: int| 0 <= i < t.len() implies #[trigger] t[i].id != player_id by {
            assert(s[i].id != player_id);
        }
    }
}

/// Two lists that keep their ids place for place stay disjoint.
pub proof fn lemma_same_ids_disjoint(
    s1: Seq<Entity>,
    t1: Seq<Entity>,
    s2: Seq<Entity>,
    t2: Seq<Entity>,
)
    requires
        same_ids(s1, t1),
        same_ids(s2, t2),
        disjoint_ids(s1, s2),
    ensures
        disjoint_ids(t1, t2),
{
    assert forall|i: int, j: int|
        0 <= i < t1.len() && 0 <= j < t2.len() implies #[trigger] t1[i].id
        != #[trigger] t2[j].id by {
        assert(s1[i].id != s2[j].id);
    }
}

/// The mask the reap rule leaves: a projectile stays unless it is past
/// the top edge.
pub open spec fn reap_keep_mask(s: Seq<Entity>, half_height: int) -> Seq<bool> {
    Seq::new(s.len(), |i: int| !(s[i].pos.y > half_height))
}

/// The despawn intents the reap rule emits, one per reaped entity, in
/// list order.
pub open spec fn reap_intents(s: Seq<Entity>, half_height: int) -> Seq<crate::intent::Intent>
    decreases s.len(),
{
    if s.len() == 0 {
        Seq::empty()
    } else {
        let init = reap_intents(s.drop_last(), half_height);
        if s.last().pos.y > half_height {
            init.push(crate::intent::Intent::DespawnVisual { entity: s.last().id })
        } else {
            init
        }
    }
}

/// Everything the reap rule keeps sits at or below the top edge.
pub proof fn lemma_reap_keeps_below(s: Seq<Entity>, half_height: int)
    ensures
        forall|k: int|
            0 <= k < mask_filter(s, reap_keep_mask(s, half_height)).len() ==> #[trigger] mask_filter(
                s,
                reap_keep_mask(s, half_height),
            )[k].pos.y <= half_height,
    decreases s.len(),
{
    if s.len() > 0 {
        lemma_reap_keeps_below(s.drop_last(), half_height);
        let m = reap_keep_mask(s, half_height);
        assert(m.drop_last() =~= reap_keep_mask(s.drop_last(), half_height));
        let init = mask_filter(s.drop_last(), reap_keep_mask(s.drop_last(), half_height));
        assert(mask_filter(s.drop_last(), m.drop_last()) == init);
        let res = mask_filter(s, m);
        assert forall|k: int| 0 <= k < res.len() implies #[trigger] res[k].pos.y
            <= half_height by {
            if k < init.len() {
                assert(res[k] == init[k]);
                assert(init[k].pos.y <= half_height);
            } else {
                assert(res[k] == s[s.len() - 1]);
                assert(m[s.len() - 1]);
            }
        }
    }
}

/// Despawns every entity past the top edge, emitting one despawn
/// intent each, and keeps the rest in order.
pub fn reap_offscreen(
    v: &mut Vec<Entity>,
    half_height: i64,
    intents: &mut Vec<crate::intent::Intent>,
)
    ensures
        final(v)@ == mask_filter(old(v)@, reap_keep_mask(old(v)@, half_height as int)),
        final(intents)@ == old(intents)@ + reap_intents(old(v)@, half_height as int),
{
    let ghost orig = v@;
    let mut kept: Vec<Entity> = Vec::new();
    let mut i: usize = 0;
    while i < v.len()
        invariant
            i <= orig.len(),
            v@ == orig,
            kept@ == mask_filter(orig.take(i as int), reap_keep_mask(orig, half_height as int).take(i as int)),
            intents@ == old(intents)@ + reap_intents(orig.take(i as int), half_height as int),
        decreases orig.len() - i,
    {
        proof {
            assert(orig.take(i + 1).drop_last() =~= orig.take(i as int));
            assert(reap_keep_mask(orig, half_height as int).take(i + 1).drop_last()
                =~= reap_keep_mask(orig, half_height as int).take(i as int));
            assert(orig.take(i + 1).last() == orig[i as int]);
        }
        let e = v[i];
        if crate::geom::should_reap(e.pos.y, half_height) {
            intents.push(crate::intent::Intent::DespawnVisual { entity: e.id });
        } else {
            kept.push(e);
        }
        i = i + 1;
    }
    proof {
        assert(orig.take(orig.len() as int) =~= orig);
        assert(reap_keep_mask(orig, half_height as int).take(orig.len() as int) =~= reap_keep_mask(
            orig,
            half_height as int,
        ));
    }
    *v = kept;
}

/// Keeps the entries of `v` whose mask bit is set, in order.
pub fn filter_entities(v: &Vec<Entity>, keep: &Vec<bool>) -> (r: Vec<Entity>)
    requires
        keep@.len() == v@.len(),
    ensures
        r@ == mask_filter(v@, keep@),
{
    let mut r: Vec<Entity> = Vec::new();
    let mut i: usize = 0;
    while i < v.len()
        invariant
            i <= v@.len(),
            keep@.len() == v@.len(),
            r@ == mask_filter(v@.take(i as int), keep@.take(i as int)),
        decreases v@.len() - i,
    {
        proof {
            assert(v@.take(i + 1).drop_last() =~= v@.take(i as int));
            assert(keep@.take(i + 1).drop_last() =~= keep@.take(i as int));
            assert(v@.take(i + 1).last() == v@[i as int]);
        }
        if keep[i] {
            r.push(v[i]);
        }
        i = i + 1;
    }
    proof {
        assert(v@.take(v@.len() as int) =~= v@);
        assert(keep@.take(keep@.len() as int) =~= keep@);
    }
    r
}

} // verus!
