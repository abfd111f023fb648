//! The glyph cache: the backend paths of every glyph that was drawn before.
//!
//! A glyph is kept as a list of layers, each a path with an optional tint.
//! A glyph of a color font has several layers; any other glyph has one,
//! without a tint. The layers of a glyph are built when it is first asked
//! for and stay in their slot until the cache is cleared.

use crate::index::{index_clear, index_get, index_insert, index_new, places, Index};
use crate::settings::Color;
use vstd::prelude::*;

verus! {

/// One layer of a glyph: the tint it is filled with, if it has one of its
/// own, and its path.
pub type Layer<P> = (Option<Color>, P);

/// The paths of a list of layers, in order.
pub open spec fn layer_paths<P>(layers: Seq<Layer<P>>) -> Seq<P> {
    Seq::new(layers.len(), |i: int| layers[i].1)
}

/// The paths of the first `n` glyphs of a list, glyph after glyph and layer
/// after layer.
pub open spec fn all_paths<P>(glyphs: Seq<Seq<Layer<P>>>, n: int) -> Seq<P>
    decreases n,
{
    if n <= 0 {
        Seq::empty()
    } else {
        all_paths(glyphs, n - 1) + layer_paths(glyphs[n - 1])
    }
}

/// A cache from glyph ids to the layers of backend paths they are drawn
/// with.
pub struct GlyphCache<P> {
    index: Index,
    glyphs: Vec<Vec<Layer<P>>>,
    owners: Ghost<Seq<u32>>,
}

impl<P> GlyphCache<P> {
    /// Every cached glyph has a slot of its own, and every slot belongs to
    /// the glyph it was filled for.
    pub closed spec fn wf(&self) -> bool {
        &&& self.owners@.len() == self.glyphs@.len()
        &&& forall|glyph: u32| #[trigger]
            places(&self.index).contains_key(glyph) ==> {
                &&& places(&self.index)[glyph] < self.glyphs@.len()
                &&& self.owners@[places(&self.index)[glyph] as int] == glyph
            }
        &&& forall|slot: int|
            0 <= slot < self.glyphs@.len() ==> {
                &&& places(&self.index).contains_key(#[trigger] self.owners@[slot])
                &&& places(&self.index)[self.owners@[slot]] == slot
            }
    }

    /// The number of glyphs in the cache.
    pub closed spec fn spec_len(&self) -> nat {
        self.glyphs@.len()
    }

    /// Whether a glyph is cached.
    pub closed spec fn contains(&self, glyph: u32) -> bool {
        places(&self.index).contains_key(glyph)
    }

    /// The slot a cached glyph is kept in.
    pub closed spec fn spec_slot(&self, glyph: u32) -> usize {
        places(&self.index)[glyph]
    }

    /// The layers kept in a slot.
    pub closed spec fn spec_layers(&self, slot: int) -> Seq<Layer<P>> {
        self.glyphs@[slot]@
    }

    /// The layers of every slot, in the order of the slots.
    pub closed spec fn slots(&self) -> Seq<Seq<Layer<P>>> {
        Seq::new(self.glyphs@.len(), |slot: int| self.glyphs@[slot]@)
    }

    /// Every path the cache owns: slot after slot, and layer after layer.
    pub open spec fn paths(&self) -> Seq<P> {
        all_paths(self.slots(), self.slots().len() as int)
    }

    /// Whether the layers of a cached glyph are what `build` returned for
    /// the glyph.
    pub open spec fn is_built_by<F: Fn(u32) -> Vec<Layer<P>>>(&self, build: &F, glyph: u32) -> bool {
        exists|built: Vec<Layer<P>>| #[trigger]
            call_ensures(*build, (glyph,), built) && self.spec_layers(
                self.spec_slot(glyph) as int,
            ) == built@
    }

    /// The slot of every cached glyph is a slot of the cache.
    pub proof fn lemma_slots_in_range(&self)
        requires
            self.wf(),
        ensures
            forall|glyph: u32| #[trigger]
                self.contains(glyph) ==> self.spec_slot(glyph) < self.spec_len(),
    {
    }

    /// Creates an empty cache.
    pub fn new() -> (cache: Self)
        ensures
            cache.wf(),
            cache.spec_len() == 0,
            forall|glyph: u32| !cache.contains(glyph),
    {
        GlyphCache { index: index_new(), glyphs: Vec::new(), owners: Ghost(Seq::empty()) }
    }

    /// Returns the number of glyphs in the cache.
    pub fn len(&self) -> (n: usize)
        ensures
            n == self.spec_len(),
    {
        self.glyphs.len()
    }

    /// Looks a glyph up and returns its slot, if it is cached.
    pub fn lookup(&self, glyph: u32) -> (slot: Option<usize>)
        requires
            self.wf(),
        ensures
            slot is Some <==> self.contains(glyph),
            slot matches Some(s) ==> s == self.spec_slot(glyph) && s < self.spec_len(),
    {
        index_get(&self.index, glyph)
    }

    /// Hands out the layers kept in a slot.
    pub fn layers(&self, slot: usize) -> (layers: &Vec<Layer<P>>)
        requires
            slot < self.spec_len(),
        ensures
            layers@ == self.spec_layers(slot as int),
    {
        &self.glyphs[slot]
    }

    /// Returns the slot of a glyph. A glyph that is not cached yet is built
    /// first, by one call of `build`, and takes the next free slot.
    ///
    /// A glyph that is cached is not built again, and no slot ever moves:
    /// until the cache is cleared, the same glyph is answered with the same
    /// slot, and the slot holds the same layers.
    pub fn lookup_or_insert<F: Fn(u32) -> Vec<Layer<P>>>(
        &mut self,
        glyph: u32,
        build: &F,
    ) -> (slot: usize)
        requires
            old(self).wf(),
            call_requires(*build, (glyph,)),
        ensures
            final(self).wf(),
            final(self).contains(glyph),
            slot == final(self).spec_slot(glyph),
            slot < final(self).spec_len(),
            forall|other: u32|
                other != glyph ==> (#[trigger] final(self).contains(other) <==> old(self).contains(
                    other,
                )),
            forall|other: u32| #[trigger]
                old(self).contains(other) ==> final(self).spec_slot(other) == old(self).spec_slot(
                    other,
                ),
            forall|s: int|
                0 <= s < old(self).spec_len() ==> #[trigger] final(self).spec_layers(s)
                    == old(self).spec_layers(s),
            old(self).contains(glyph) ==> final(self).spec_len() == old(self).spec_len(),
            !old(self).contains(glyph) ==> {
                &&& slot == old(self).spec_len()
                &&& final(self).spec_len() == old(self).spec_len() + 1
                &&& final(self).is_built_by(build, glyph)
            },
    {
        match index_get(&self.index, glyph) {
            Some(slot) => slot,
            None => {
                let built = build(glyph);
                let slot: usize = self.glyphs.len();
                let ghost before = self.glyphs@;
                let ghost witness = built;
                self.glyphs.push(built);
                index_insert(&mut self.index, glyph, slot);
                proof {
                    self.owners@ = self.owners@.push(glyph);
                    assert(self.glyphs@[slot as int] == witness);
                    assert(call_ensures(*build, (glyph,), witness) && self.spec_layers(slot as int)
                        == witness@);
                }
                slot
            },
        }
    }

    /// Empties the cache and hands out every path it owned, for the caller
    /// to release. Each path comes out exactly once; the last layer of the
    /// last slot comes first.
    pub fn clear(&mut self) -> (freed: Vec<P>)
        requires
            old(self).wf(),
        ensures
            final(self).wf(),
            final(self).spec_len() == 0,
            forall|glyph: u32| !final(self).contains(glyph),
            freed@ == old(self).paths().reverse(),
    {
        let mut freed: Vec<P> = Vec::new();
        let ghost all = self.slots();
        index_clear(&mut self.index);
        proof {
            self.owners@ = Seq::empty();
        }
        while self.glyphs.len() > 0
            invariant
                self.glyphs@.len() <= all.len(),
                forall|s: int|
                    0 <= s < self.glyphs@.len() ==> (#[trigger] self.glyphs@[s])@ == all[s],
                all_paths(all, self.glyphs@.len() as int) + freed@.reverse() == all_paths(
                    all,
                    all.len() as int,
                ),
                places(&self.index).dom() == Set::<u32>::empty(),
                self.owners@ == Seq::<u32>::empty(),
            decreases self.glyphs@.len(),
        {
            let ghost n = self.glyphs@.len() as int;
            let mut layers: Vec<Layer<P>> = self.glyphs.pop().unwrap();
            let ghost these = layers@;
            let ghost freed_before = freed@;
            assert(these == all[n - 1]);
            assert(all_paths(all, n) == all_paths(all, n - 1) + layer_paths(these));
            while layers.len() > 0
                invariant
                    layers@.len() <= these.len(),
                    forall|i: int| 0 <= i < layers@.len() ==> layers@[i] == these[i],
                    layer_paths(layers@) + freed@.reverse() == layer_paths(these)
                        + freed_before.reverse(),
                decreases layers@.len(),
            {
                let ghost rest = layers@;
                let ghost freed_then = freed@;
                let layer: Layer<P> = layers.pop().unwrap();
                freed.push(layer.1);
                proof {
                    assert(layer_paths(rest) =~= layer_paths(layers@) + seq![layer.1]);
                    assert(freed@.reverse() =~= seq![layer.1] + freed_then.reverse());
                    assert(layer_paths(layers@) + freed@.reverse() =~= layer_paths(rest)
                        + freed_then.reverse());
                }
            }
            proof {
                assert(layer_paths(layers@) =~= Seq::<P>::empty());
                assert(freed@.reverse() =~= layer_paths(these) + freed_before.reverse());
                assert(all_paths(all, n - 1) + freed@.reverse() =~= all_paths(all, n)
                    + freed_before.reverse());
            }
        }
        proof {
            assert(all_paths(all, 0) =~= Seq::<P>::empty());
            assert(freed@.reverse() =~= all_paths(all, all.len() as int));
            assert(freed@ =~= freed@.reverse().reverse());
        }
        freed
    }
}

} // verus!
