//! The entity store.

use std::collections::HashMap;
use vstd::prelude::*;
use crate::scalar::Scalar;
use crate::texture::TextureHandle;

verus! {

broadcast use vstd::std_specs::hash::group_hash_axioms;

/// An entity is nothing but its identifier.
pub type Entity = u32;

/// Position, size and paint order of an entity, in logical coordinates.
/// `x` and `y` are the bottom-left corner; a lower `z` is painted earlier.
#[derive(Clone, Copy, Debug, PartialEq, Eq, Structural)]
pub struct Transform {
    pub x: Scalar,
    pub y: Scalar,
    pub w: Scalar,
    pub h: Scalar,
    pub z: Scalar,
}

/// The texture an entity is painted with.
#[derive(Clone, Copy, Debug, PartialEq, Eq, Structural)]
pub struct Sprite {
    pub texture: TextureHandle,
}

/// What is painted for one entity: where, and with which texture.
pub type Drawable = (Transform, TextureHandle);

/// A drawable together with the entity it belongs to.
#[derive(Clone, Copy, Debug, PartialEq, Eq, Structural)]
pub struct Placed {
    pub entity: Entity,
    pub transform: Transform,
    pub texture: TextureHandle,
}

/// Whether a list of drawables is in paint order: `z` never decreases.
pub open spec fn paint_ordered(ds: Seq<Drawable>) -> bool {
    forall|i: int, j: int|
        0 <= i <= j < ds.len() ==> (#[trigger] ds[i]).0.z.order_key() <= (
        #[trigger] ds[j]).0.z.order_key()
}

/// Whether a list of placed drawables is in paint order.
pub open spec fn placed_ordered(items: Seq<Placed>) -> bool {
    forall|i: int, j: int|
        0 <= i <= j < items.len() ==> (#[trigger] items[i]).transform.z.order_key() <= (
        #[trigger] items[j]).transform.z.order_key()
}

/// Sorts placed drawables into paint order: the same items, with `z` never
/// decreasing.
pub fn sort_by_z(items: &mut Vec<Placed>)
    ensures
        placed_ordered(final(items)@),
        final(items)@.to_multiset() == old(items)@.to_multiset(),
        final(items)@.len() == old(items)@.len(),
{
    let n: usize = items.len();
    let mut i: usize = 0;
    while i < n
        invariant
            items@.len() == n,
            i <= n,
            forall|a: int, b: int|
                0 <= a <= b < i ==> (#[trigger] items@[a]).transform.z.order_key() <= (
                #[trigger] items@[b]).transform.z.order_key(),
            items@.to_multiset() == old(items)@.to_multiset(),
        decreases n - i,
    {
        let mut j: usize = i;
        while j > 0 && items[j].transform.z.precedes(&items[j - 1].transform.z)
            invariant
                items@.len() == n,
                0 <= j <= i < n,
                items@.to_multiset() == old(items)@.to_multiset(),
                forall|a: int, b: int|
                    0 <= a <= b <= i && a != j && b != j ==> (
                    #[trigger] items@[a]).transform.z.order_key() <= (
                    #[trigger] items@[b]).transform.z.order_key(),
                forall|b: int|
                    j < b <= i ==> items@[j as int].transform.z.order_key() <= (
                    #[trigger] items@[b]).transform.z.order_key(),
            decreases j,
        {
            let lower: Placed = items[j - 1];
            let upper: Placed = items[j];
            let ghost before = items@;
            items[j - 1] = upper;
            items[j] = lower;
            proof {
                let mid = before.update(j - 1, upper);
                assert(items@ == mid.update(j as int, lower));
                vstd::seq_lib::to_multiset_update(before, j - 1, upper);
                vstd::seq_lib::to_multiset_update(mid, j as int, lower);
                assert(before[j - 1] == lower);
                assert(before.contains(lower));
                vstd::seq_lib::to_multiset_contains(before, lower);
                assert(items@.to_multiset() =~= before.to_multiset());
            }
            j -= 1;
        }
        i += 1;
    }
}

/// The entity store: which entities exist, and the transform and the sprite
/// of those that have one. An entity with both is drawable.
pub struct World {
    next_entity: Entity,
    transforms: HashMap<Entity, Transform>,
    sprites: HashMap<Entity, Sprite>,
}

impl World {
    /// The identifier that the next call of `spawn` returns.
    pub closed spec fn next_entity(&self) -> Entity {
        self.next_entity
    }

    /// The transforms, by entity.
    pub closed spec fn transforms(&self) -> Map<Entity, Transform> {
        self.transforms@
    }

    /// The sprites, by entity.
    pub closed spec fn sprites(&self) -> Map<Entity, Sprite> {
        self.sprites@
    }

    /// Whether `e` has both a transform and a sprite.
    pub open spec fn is_drawable(&self, e: Entity) -> bool {
        self.transforms().contains_key(e) && self.sprites().contains_key(e)
    }

    /// What is painted for the entity `e`.
    pub open spec fn drawable(&self, e: Entity) -> Drawable {
        (self.transforms()[e], self.sprites()[e].texture)
    }

    /// Whether `order` names every drawable entity once, and no other entity.
    pub open spec fn lists_drawables(&self, order: Seq<Entity>) -> bool {
        &&& order.no_duplicates()
        &&& forall|e: Entity| #[trigger] order.contains(e) <==> self.is_drawable(e)
    }

    /// The drawables of the entities in `order`, in that order.
    pub open spec fn drawables_in(&self, order: Seq<Entity>) -> Seq<Drawable> {
        Seq::new(order.len(), |i: int| self.drawable(order[i]))
    }

    /// The entities that are drawable.
    pub open spec fn drawable_entities(&self) -> Set<Entity> {
        Set::new(|e: Entity| self.is_drawable(e))
    }

    /// Number of drawable entities.
    pub open spec fn drawable_count(&self) -> nat {
        self.drawable_entities().len()
    }

    /// The drawable of `e` together with `e`.
    pub open spec fn placed(&self, e: Entity) -> Placed {
        Placed { entity: e, transform: self.transforms()[e], texture: self.sprites()[e].texture }
    }

    /// Whether `items` holds every drawable entity once, with its transform
    /// and texture, and nothing else.
    pub open spec fn places(&self, items: Seq<Placed>) -> bool {
        &&& items.no_duplicates()
        &&& forall|i: int|
            0 <= i < items.len() ==> self.is_drawable((#[trigger] items[i]).entity) && items[i]
                == self.placed(items[i].entity)
        &&& forall|e: Entity| self.is_drawable(e) ==> items.contains(#[trigger] self.placed(e))
    }

    /// An empty world.
    pub fn new() -> (w: World)
        ensures
            w.next_entity() == 0,
            w.transforms() == Map::<Entity, Transform>::empty(),
            w.sprites() == Map::<Entity, Sprite>::empty(),
    {
        World { next_entity: 0, transforms: HashMap::new(), sprites: HashMap::new() }
    }

    /// Number of entities spawned so far, which is also the next identifier.
    pub fn spawned(&self) -> (n: Entity)
        ensures
            n == self.next_entity(),
    {
        self.next_entity
    }

    /// Allocates the next unused identifier. Identifiers count up from 0 and
    /// are never handed out twice.
    pub fn spawn(&mut self) -> (e: Entity)
        requires
            old(self).next_entity() < u32::MAX,
        ensures
            e == old(self).next_entity(),
            final(self).next_entity() == e + 1,
            final(self).transforms() == old(self).transforms(),
            final(self).sprites() == old(self).sprites(),
    {
        let id: Entity = self.next_entity;
        self.next_entity = id + 1;
        id
    }

    /// Gives `entity` the transform `transform`, in place of any it had.
    pub fn add_transform(&mut self, entity: Entity, transform: Transform)
        ensures
            final(self).transforms() == old(self).transforms().insert(entity, transform),
            final(self).sprites() == old(self).sprites(),
            final(self).next_entity() == old(self).next_entity(),
    {
        self.transforms.insert(entity, transform);
    }

    /// Gives `entity` the sprite `sprite`, in place of any it had.
    pub fn add_sprite(&mut self, entity: Entity, sprite: Sprite)
        ensures
            final(self).sprites() == old(self).sprites().insert(entity, sprite),
            final(self).transforms() == old(self).transforms(),
            final(self).next_entity() == old(self).next_entity(),
    {
        self.sprites.insert(entity, sprite);
    }

    /// Collects the drawable entities, in the order in which the store
    /// happens to walk them.
    fn collect(&self) -> (items: Vec<Placed>)
        ensures
            self.places(items@),
    {
        let mut items: Vec<Placed> = Vec::new();
        let ghost mut source: Seq<int> = Seq::empty();
        for (e, t) in it: self.transforms.iter()
            invariant
                it.seq().no_duplicates(),
                forall|i: int|
                    0 <= i < it.seq().len() ==> self.transforms@.contains_key(
                        *(#[trigger] it.seq()[i]).0,
                    ) && self.transforms@[*it.seq()[i].0] == *it.seq()[i].1,
                forall|k: Entity| #[trigger]
                    self.transforms@.contains_key(k) ==> it.seq().contains(
                        (&k, &self.transforms@[k]),
                    ),
                source.len() == items@.len(),
                forall|i: int|
                    0 <= i < items@.len() ==> 0 <= (#[trigger] source[i]) < it.index()
                        && *it.seq()[source[i]].0 == items@[i].entity,
                items@.no_duplicates(),
                forall|i: int|
                    0 <= i < items@.len() ==> self.is_drawable((#[trigger] items@[i]).entity)
                        && items@[i] == self.placed(items@[i].entity),
                forall|s: int|
                    0 <= s < it.index() && self.sprites@.contains_key(*(#[trigger] it.seq()[s]).0)
                        ==> items@.contains(self.placed(*it.seq()[s].0)),
        {
            let ghost before = items@;
            let ghost at = it.index();
            assert(it.seq()[at] == (e, t));
            match self.sprites.get(e) {
                Some(s) => {
                    let item = Placed { entity: *e, transform: *t, texture: s.texture };
                    items.push(item);
                    proof {
                        source = source.push(at);
                        assert(item == self.placed(*e));
                        assert forall|i: int, j: int|
                            0 <= i < items@.len() && 0 <= j < items@.len() && i
                                != j implies items@[i] != items@[j] by {
                            if i < before.len() && j < before.len() {
                                assert(before[i] != before[j]);
                            } else {
                                let o = if i < before.len() {
                                    i
                                } else {
                                    j
                                };
                                assert(items@[o] == before[o]);
                                assert(0 <= source[o] < at);
                                if before[o] == item {
                                    assert(it.seq()[source[o]] == it.seq()[at]);
                                }
                            }
                        }
                        assert forall|s: int|
                            0 <= s < at + 1 && self.sprites@.contains_key(
                                *(#[trigger] it.seq()[s]).0,
                            ) implies items@.contains(self.placed(*it.seq()[s].0)) by {
                            if s < at {
                                let w = self.placed(*it.seq()[s].0);
                                assert(before.contains(w));
                                let i = choose|i: int| 0 <= i < before.len() && before[i] == w;
                                assert(items@[i] == w);
                            } else {
                                assert(items@[before.len() as int] == item);
                            }
                        }
                    }
                },
                None => {},
            }
        }
        items
    }

    /// All drawables: the transform and the texture of every entity that has
    /// both, each entity once, in no particular order.
    pub fn query_drawables(&self) -> (out: Vec<Drawable>)
        ensures
            exists|order: Seq<Entity>|
                self.lists_drawables(order) && out@ == #[trigger] self.drawables_in(order),
    {
        let items: Vec<Placed> = self.collect();
        let out: Vec<Drawable> = drawables_of(&items);
        proof {
            self.lemma_places_lists(items@);
            assert(out@ =~= self.drawables_in(entities_of(items@)));
        }
        out
    }

    /// All drawables in paint order: as `query_drawables`, sorted by
    /// ascending `z`. The order among drawables of equal `z` is left open.
    pub fn query_drawables_with_z(&self) -> (out: Vec<Drawable>)
        ensures
            paint_ordered(out@),
            exists|order: Seq<Entity>|
                self.lists_drawables(order) && out@ == #[trigger] self.drawables_in(order),
    {
        let mut items: Vec<Placed> = self.collect();
        let ghost walked = items@;
        sort_by_z(&mut items);
        let out: Vec<Drawable> = drawables_of(&items);
        proof {
            self.lemma_places_rearranged(walked, items@);
            self.lemma_places_lists(items@);
            assert(out@ =~= self.drawables_in(entities_of(items@)));
            assert forall|i: int, j: int| 0 <= i <= j < out@.len() implies (
            #[trigger] out@[i]).0.z.order_key() <= (#[trigger] out@[j]).0.z.order_key() by {
                assert(items@[i].transform.z.order_key() <= items@[j].transform.z.order_key());
            }
        }
        out
    }

    /// The entities of a complete list of placed drawables name every
    /// drawable entity once.
    pub proof fn lemma_places_lists(&self, items: Seq<Placed>)
        requires
            self.places(items),
        ensures
            self.lists_drawables(entities_of(items)),
            forall|i: int|
                0 <= i < items.len() ==> (#[trigger] items[i]).transform == self.drawable(
                    items[i].entity,
                ).0 && items[i].texture == self.drawable(items[i].entity).1,
    {
        let order = entities_of(items);
        assert forall|i: int, j: int|
            0 <= i < order.len() && 0 <= j < order.len() && i != j implies order[i]
            != order[j] by {
            assert(items[i] == self.placed(items[i].entity));
            assert(items[j] == self.placed(items[j].entity));
        }
        assert forall|e: Entity| #[trigger] order.contains(e) <==> self.is_drawable(e) by {
            if order.contains(e) {
                let i = choose|i: int| 0 <= i < order.len() && order[i] == e;
                assert(self.is_drawable(items[i].entity));
            }
            if self.is_drawable(e) {
                assert(items.contains(self.placed(e)));
                let i = choose|i: int| 0 <= i < items.len() && items[i] == self.placed(e);
                assert(order[i] == e);
            }
        }
    }

    /// Every list that names each drawable entity once has as many entries
    /// as there are drawable entities.
    pub proof fn lemma_listing_length(&self, order: Seq<Entity>)
        requires
            self.lists_drawables(order),
        ensures
            order.len() == self.drawable_count(),
    {
        order.unique_seq_to_set();
        assert(order.to_set() =~= self.drawable_entities());
    }

    /// An entity that lacks a transform or a sprite is in no list of the
    /// drawable entities, so no query returns anything for it.
    pub proof fn lemma_not_drawable_not_listed(&self, order: Seq<Entity>, e: Entity)
        requires
            self.lists_drawables(order),
            !self.transforms().contains_key(e) || !self.sprites().contains_key(e),
        ensures
            !order.contains(e),
    {
    }

    /// Rearranging a complete list of placed drawables keeps it complete.
    pub proof fn lemma_places_rearranged(&self, a: Seq<Placed>, b: Seq<Placed>)
        requires
            self.places(a),
            a.to_multiset() == b.to_multiset(),
        ensures
            self.places(b),
    {
        broadcast use vstd::seq_lib::group_to_multiset_ensures;

        a.lemma_multiset_has_no_duplicates();
        b.lemma_multiset_has_no_duplicates_conv();
        assert forall|i: int| 0 <= i < b.len() implies self.is_drawable(
            (#[trigger] b[i]).entity,
        ) && b[i] == self.placed(b[i].entity) by {
            assert(b.contains(b[i]));
            assert(a.to_multiset().count(b[i]) > 0);
            assert(a.contains(b[i]));
            let j = choose|j: int| 0 <= j < a.len() && a[j] == b[i];
            assert(self.is_drawable(a[j].entity));
        }
        assert forall|e: Entity| self.is_drawable(e) implies b.contains(
            #[trigger] self.placed(e),
        ) by {
            assert(a.contains(self.placed(e)));
            assert(b.to_multiset().count(self.placed(e)) > 0);
        }
    }
}

/// The entities of a list of placed drawables, in order.
pub open spec fn entities_of(items: Seq<Placed>) -> Seq<Entity> {
    Seq::new(items.len(), |i: int| items[i].entity)
}

/// Drops the entity from every placed drawable.
fn drawables_of(items: &Vec<Placed>) -> (out: Vec<Drawable>)
    ensures
        out@.len() == items@.len(),
        forall|i: int|
            0 <= i < items@.len() ==> (#[trigger] out@[i]) == (
                items@[i].transform,
                items@[i].texture,
            ),
{
    let mut out: Vec<Drawable> = Vec::new();
    let mut i: usize = 0;
    while i < items.len()
        invariant
            i <= items.len(),
            out@.len() == i,
            forall|k: int|
                0 <= k < i ==> (#[trigger] out@[k]) == (items@[k].transform, items@[k].texture),
        decreases items.len() - i,
    {
        out.push((items[i].transform, items[i].texture));
        i += 1;
    }
    out
}


} // verus!
