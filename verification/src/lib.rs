//! A dense vector addressed through generational handles.
//!
//! `SafeVec<T>` stores its live elements contiguously and hands out opaque
//! `GenIdx` handles on insertion. A handle stays usable across later
//! insertions and removals of *other* elements; once its own element is
//! removed, the handle is detected as stale and every access through it
//! reports absence instead of returning data that now belongs to someone
//! else. Removal is O(1): the last live element is swapped into the vacated
//! position, and an indirection table keeps all outstanding handles pointing
//! at the right place.

use vstd::prelude::*;

verus! {

/// Swap the elements at positions `a` and `b` of a vector, without
/// requiring the element type to be `Copy`.
fn vec_swap<T>(v: &mut Vec<T>, a: usize, b: usize)
    requires
        a < old(v)@.len(),
        b < old(v)@.len(),
    ensures
        final(v)@ == old(v)@.update(a as int, old(v)@[b as int]).update(b as int, old(v)@[a as int]),
{
    let (lo, hi) = if a < b {
        (a, b)
    } else {
        (b, a)
    };
    if lo < hi {
        let s = v.as_mut_slice();
        let (left, right) = s.split_at_mut(hi);
        let (_head, tail) = left.split_at_mut(lo);
        let x = tail.first_mut().unwrap();
        let y = right.first_mut().unwrap();
        core::mem::swap(x, y);
        proof {
            assert(v@ =~= old(v)@.update(a as int, old(v)@[b as int]).update(
                b as int,
                old(v)@[a as int],
            ));
        }
    } else {
        proof {
            assert(v@ =~= old(v)@.update(a as int, old(v)@[b as int]).update(
                b as int,
                old(v)@[a as int],
            ));
        }
    }
}

/// Generational index into `SafeVec`.
///
/// A handle pairs a slot id (stable for the whole life of the container)
/// with the generation the slot had when the handle was issued. The fields
/// are private: the only way to obtain a handle that resolves is
/// `SafeVec::push`.
#[derive(Debug, Clone, Copy, PartialEq, Eq, Hash, Structural)]
pub struct GenIdx {
    generation: u64,
    outer_idx: usize,
}

impl GenIdx {
    /// The generation recorded when this handle was issued.
    pub closed spec fn generation(self) -> u64 {
        self.generation
    }

    /// The slot id this handle refers to.
    pub closed spec fn slot(self) -> int {
        self.outer_idx as int
    }
}

/// Vector with indexes that survive data push/remove in O(1) amortized.
///
/// `data[0..first_unused]` are the live elements; positions past
/// `first_unused` hold retired elements whose storage a later `push` may
/// reuse. `gen[i]` is the handle currently responsible for dense position
/// `i`, and `outer2inner[s]` maps slot id `s` back to its dense position.
#[derive(Debug, PartialEq, Eq)]
pub struct SafeVec<T> {
    data: Vec<T>,
    gen: Vec<GenIdx>,
    outer2inner: Vec<usize>,
    first_unused: usize,
}

impl<T> View for SafeVec<T> {
    type V = Seq<T>;

    /// The live elements, in current dense order.
    closed spec fn view(&self) -> Seq<T> {
        self.data@.take(self.first_unused as int)
    }
}

impl<T> SafeVec<T> {
    /// Structural well-formedness: the three backing vectors have equal
    /// length, the live prefix is in bounds, and `outer2inner` and the
    /// slot ids stored in `gen` are inverse permutations of each other.
    pub closed spec fn wf(self) -> bool {
        &&& self.gen@.len() == self.data@.len()
        &&& self.outer2inner@.len() == self.data@.len()
        &&& self.first_unused <= self.data@.len()
        &&& forall|i: int|
            0 <= i < self.gen@.len() ==> {
                let t = #[trigger] self.gen@[i];
                &&& t.outer_idx < self.outer2inner@.len()
                &&& self.outer2inner@[t.outer_idx as int] == i
            }
        &&& forall|o: int|
            0 <= o < self.outer2inner@.len() ==> {
                let j = #[trigger] self.outer2inner@[o];
                &&& j < self.gen@.len()
                &&& self.gen@[j as int].outer_idx == o
            }
    }

    /// Number of slots this container has ever created. Slots are never
    /// destroyed, so this only grows.
    pub closed spec fn slots(self) -> int {
        self.outer2inner@.len() as int
    }

    /// The dense position a handle's slot currently maps to.
    pub closed spec fn inner_index(self, h: GenIdx) -> int {
        self.outer2inner@[h.slot()] as int
    }

    /// A handle resolves iff its slot id was issued by this container, the
    /// slot's dense position is live, and the generation recorded there
    /// still equals the handle's generation.
    pub closed spec fn valid(self, h: GenIdx) -> bool {
        &&& 0 <= h.slot() < self.slots()
        &&& self.inner_index(h) < self.first_unused as int
        &&& self.gen@[self.inner_index(h)] == h
    }

    /// The element a valid handle resolves to.
    pub open spec fn at(self, h: GenIdx) -> T {
        self@[self.inner_index(h)]
    }

    /// The handle currently responsible for dense position `i`.
    pub closed spec fn tag_at(self, i: int) -> GenIdx
        recommends
            0 <= i < self.slots(),
    {
        self.gen@[i]
    }

    /// The set of handles that currently resolve.
    pub open spec fn live_handles(self) -> Set<GenIdx> {
        Set::new(|h: GenIdx| self.valid(h))
    }

    /// Everything `push` guarantees about the state after the call and the
    /// handle it returned.
    pub open spec fn push_effect(pre: Self, post: Self, h: GenIdx, value: T) -> bool {
        &&& post.wf()
        &&& post@ == pre@.push(value)
        &&& post.valid(h)
        &&& post.inner_index(h) == pre@.len()
        &&& post.at(h) == value
        &&& !pre.valid(h)
        &&& 0 <= h.slot() < post.slots()
        &&& if pre@.len() == pre.slots() {
            // no retired slot was available: a fresh slot was created
            &&& post.slots() == pre.slots() + 1
            &&& h.generation() == 0
            &&& h.slot() == pre.slots()
        } else {
            // the retired slot at the end of the live prefix was reused
            &&& post.slots() == pre.slots()
            &&& h == pre.tag_at(pre@.len() as int)
        }
        &&& forall|g: GenIdx| #[trigger] post.valid(g) <==> (pre.valid(g) || g == h)
        &&& forall|g: GenIdx|
            #[trigger] pre.valid(g) ==> post.inner_index(g) == pre.inner_index(g)
                && post.at(g) == pre.at(g)
    }

    /// Find an unused slot, store `data` there and return a handle to it,
    /// or create a new slot if every slot is in use.
    ///
    /// Time: O(1) amortized (because `Vec::push` is).
    pub fn push(&mut self, data: T) -> (h: GenIdx)
        requires
            old(self).wf(),
        ensures
            Self::push_effect(*old(self), *final(self), h, data),
    {
        let data_len = self.data.len();
        let first_unused = self.first_unused;
        if first_unused == data_len {
            // We are full: data_len serves as both the dense position and
            // the fresh slot id.
            self.data.push(data);
            self.gen.push(GenIdx { generation: 0, outer_idx: data_len });
            self.outer2inner.push(data_len);
            self.first_unused = self.data.len();
        } else {
            // A retired slot exists at the end of the live prefix; its tag
            // was already advanced by the removal that retired it.
            self.data[first_unused] = data;
            self.first_unused = first_unused + 1;
        }
        let gidx = self.gen[first_unused];
        proof {
            let pre = *old(self);
            let post = *self;
            assert(post@ =~= pre@.push(data));
            assert forall|g: GenIdx| #[trigger] post.valid(g) implies (pre.valid(g) || g == gidx) by {
                if g != gidx {
                    let i = post.inner_index(g);
                    assert(pre.gen@[i] == g);
                }
            }
        }
        gidx
    }

    /// Everything a successful `remove(h)` guarantees about the state after
    /// the call: the live prefix loses exactly the removed element (the last
    /// live element is swapped into its place), `h` and only `h` stops
    /// resolving, every other live handle keeps its value, and the slot's
    /// generation is advanced so that no stale handle can match it again.
    pub open spec fn remove_effect(pre: Self, post: Self, h: GenIdx) -> bool {
        &&& post.wf()
        &&& pre.valid(h)
        &&& post.slots() == pre.slots()
        &&& post@.len() == pre@.len() - 1
        &&& post@ == pre@.update(pre.inner_index(h), pre@.last()).drop_last()
        &&& !post.valid(h)
        &&& forall|g: GenIdx| #[trigger] post.valid(g) <==> (pre.valid(g) && g != h)
        &&& forall|g: GenIdx|
            #[trigger] pre.valid(g) && g != h ==> post.at(g) == pre.at(g)
        &&& post.tag_at(post@.len() as int).slot() == h.slot()
        &&& post.tag_at(post@.len() as int).generation() == h.generation() + 1
    }

    /// Mark the element `gen_idx` refers to as unused, so that its storage
    /// may be reused by a later `push`. Returns `true` iff `gen_idx` was
    /// still valid; a stale handle — or one whose slot id this container
    /// never issued — leaves the container untouched and returns `false`.
    ///
    /// Time: O(1).
    pub fn remove(&mut self, gen_idx: GenIdx) -> (r: bool)
        requires
            old(self).wf(),
            gen_idx.generation() < u64::MAX,
        ensures
            final(self).wf(),
            r == old(self).valid(gen_idx),
            !r ==> *final(self) == *old(self),
            r ==> Self::remove_effect(*old(self), *final(self), gen_idx),
    {
        if gen_idx.outer_idx >= self.outer2inner.len() {
            // this slot id was never issued by this container
            return false;
        }
        let inner_idx = self.outer2inner[gen_idx.outer_idx];
        if inner_idx >= self.first_unused {
            // the slot is retired: the handle is stale
            return false;
        }
        let stored = self.gen[inner_idx];
        if stored != gen_idx {
            // double free or something else is wrong
            return false;
        }
        let l = inner_idx;
        self.first_unused = self.first_unused - 1;
        let r = self.first_unused;
        // The slot's generation is advanced as it is retired, so the handle
        // is invalid from here on. The retired tag moves to dense position
        // `r`, the tag at `r` moves to `l`: repoint both slots, then swap
        // the two dense positions.
        let tag_l = GenIdx { generation: stored.generation + 1, outer_idx: stored.outer_idx };
        let tag_r = self.gen[r];
        self.outer2inner[tag_l.outer_idx] = r;
        self.outer2inner[tag_r.outer_idx] = l;
        self.gen[l] = tag_r;
        self.gen[r] = tag_l;
        vec_swap(&mut self.data, l, r);
        proof {
            let pre = *old(self);
            let post = *self;
            assert(post@ =~= pre@.update(pre.inner_index(gen_idx), pre@.last()).drop_last());
            assert forall|g: GenIdx| #[trigger] post.valid(g) implies (pre.valid(g) && g != gen_idx) by {
                let i = post.inner_index(g);
                assert(post.gen@[i] == g);
            }
            assert forall|g: GenIdx| pre.valid(g) && g != gen_idx implies #[trigger] post.valid(g) by {
                let i = pre.inner_index(g);
                assert(pre.gen@[i] == g);
            }
            assert forall|g: GenIdx| #[trigger] pre.valid(g) && g != gen_idx implies post.at(g) == pre.at(g) by {
                let i = pre.inner_index(g);
                assert(pre.gen@[i] == g);
            }
        }
        true
    }

    pub fn new() -> (r: Self)
        ensures
            r.wf(),
            r@ == Seq::<T>::empty(),
            r.slots() == 0,
            forall|h: GenIdx| !r.valid(h),
    {
        Self::with_capacity(256)
    }

    pub fn with_capacity(capacity: usize) -> (r: Self)
        ensures
            r.wf(),
            r@ == Seq::<T>::empty(),
            r.slots() == 0,
            forall|h: GenIdx| !r.valid(h),
    {
        let r = Self {
            first_unused: 0,
            data: Vec::with_capacity(capacity),
            gen: Vec::with_capacity(capacity),
            outer2inner: Vec::with_capacity(capacity),
        };
        r
    }

    /// Get Rust's reference for a handle, or `None` if the handle is stale
    /// or its slot id was never issued by this container.
    ///
    /// Time: O(1). No side effects.
    pub fn get(&self, gen_idx: GenIdx) -> (r: Option<&T>)
        requires
            self.wf(),
        ensures
            r.is_some() == self.valid(gen_idx),
            r.is_some() ==> r.unwrap() == self.at(gen_idx),
    {
        if gen_idx.outer_idx >= self.outer2inner.len() {
            return None;
        }
        let inner_idx = self.outer2inner[gen_idx.outer_idx];
        if inner_idx >= self.first_unused {
            return None;
        }
        let stored = self.gen[inner_idx];
        if stored == gen_idx {
            Some(&self.data[inner_idx])
        } else {
            None
        }
    }

    /// Get Rust's mutable reference for a handle, or `None` if the handle
    /// is stale or its slot id was never issued by this container. Writing
    /// through the reference changes only that element: every handle keeps
    /// its validity and its position.
    ///
    /// Time: O(1).
    pub fn get_mut(&mut self, gen_idx: GenIdx) -> (r: Option<&mut T>)
        requires
            old(self).wf(),
        ensures
            final(self).wf(),
            r.is_some() == old(self).valid(gen_idx),
            !old(self).valid(gen_idx) ==> *final(self) == *old(self),
            old(self).valid(gen_idx) ==> {
                &&& *r.unwrap() == old(self).at(gen_idx)
                &&& final(self)@ == old(self)@.update(
                    old(self).inner_index(gen_idx),
                    *final(r.unwrap()),
                )
                &&& final(self).slots() == old(self).slots()
                &&& forall|g: GenIdx| #[trigger] final(self).valid(g) == old(self).valid(g)
                &&& forall|g: GenIdx|
                    #[trigger] old(self).valid(g) ==> final(self).inner_index(g) == old(
                        self,
                    ).inner_index(g)
            },
    {
        if gen_idx.outer_idx >= self.outer2inner.len() {
            return None;
        }
        let inner_idx = self.outer2inner[gen_idx.outer_idx];
        if inner_idx >= self.first_unused {
            return None;
        }
        let stored = self.gen[inner_idx];
        if stored == gen_idx {
            proof {
                // Writing through the reference updates one position of the
                // backing vector; restricted to the live prefix that is the
                // same single-position update of the view.
                assert forall|x: T|
                    old(self).data@.update(inner_idx as int, x).take(
                        old(self).first_unused as int,
                    ) =~= old(self)@.update(inner_idx as int, x) by {}
            }
            Some(&mut self.data[inner_idx])
        } else {
            None
        }
    }

    /// References to exactly the live elements, in current dense order
    /// (not insertion order: removals permute the order).
    pub fn iter(&self) -> (r: Vec<&T>)
        requires
            self.wf(),
        ensures
            r@.len() == self@.len(),
            forall|i: int| 0 <= i < r@.len() ==> r@[i] == self@[i],
    {
        let mut out: Vec<&T> = Vec::new();
        let mut i: usize = 0;
        while i < self.first_unused
            invariant
                self.wf(),
                i <= self.first_unused,
                out@.len() == i,
                forall|j: int| 0 <= j < i ==> out@[j] == self@[j],
            decreases self.first_unused - i,
        {
            out.push(&self.data[i]);
            i = i + 1;
        }
        out
    }

    /// A mutable reference to the live element at dense position `inner`
    /// (positions run over `0..self.len()`, in the same order `iter`
    /// yields). Writing through the reference changes only that element's
    /// contents: every handle keeps its validity and its position, so
    /// visiting each position in turn mutates each live element exactly
    /// once.
    pub fn iter_mut(&mut self, inner: usize) -> (r: &mut T)
        requires
            old(self).wf(),
            inner < old(self)@.len(),
        ensures
            final(self).wf(),
            *r == old(self)@[inner as int],
            final(self)@ == old(self)@.update(inner as int, *final(r)),
            final(self).slots() == old(self).slots(),
            forall|g: GenIdx| #[trigger] final(self).valid(g) == old(self).valid(g),
            forall|g: GenIdx|
                #[trigger] old(self).valid(g) ==> final(self).inner_index(g) == old(
                    self,
                ).inner_index(g),
    {
        proof {
            assert forall|x: T|
                old(self).data@.update(inner as int, x).take(old(self).first_unused as int)
                    =~= old(self)@.update(inner as int, x) by {}
        }
        &mut self.data[inner]
    }

    /// Handle uniqueness: two distinct handles that both resolve never
    /// alias — they point at different dense positions, so `get` on them
    /// returns different elements of the container.
    pub proof fn lemma_live_handles_distinct(self, a: GenIdx, b: GenIdx)
        requires
            self.wf(),
            self.valid(a),
            self.valid(b),
            a != b,
        ensures
            self.inner_index(a) != self.inner_index(b),
    {
    }

    /// At any moment, a slot has at most one live handle: two handles for
    /// the same slot that both resolve are the same handle.
    pub proof fn lemma_one_live_handle_per_slot(self, a: GenIdx, b: GenIdx)
        requires
            self.wf(),
            self.valid(a),
            self.valid(b),
            a.slot() == b.slot(),
        ensures
            a == b,
    {
    }

    /// Stale-handle detection: once a removal succeeds, the removed handle
    /// stops resolving — so `get` on it returns `None` and a second
    /// `remove` returns `false` — while the set of live handles loses
    /// exactly that one handle.
    pub proof fn lemma_removed_handle_stale(pre: Self, post: Self, h: GenIdx)
        requires
            Self::remove_effect(pre, post, h),
        ensures
            !post.valid(h),
            post.live_handles() =~= pre.live_handles().remove(h),
    {
    }

    /// Independence: removing handle `a` neither invalidates nor alters the
    /// value retrievable through any other still-live handle `b`.
    pub proof fn lemma_remove_independence(pre: Self, post: Self, a: GenIdx, b: GenIdx)
        requires
            Self::remove_effect(pre, post, a),
            pre.valid(b),
            b != a,
        ensures
            post.valid(b),
            post.at(b) == pre.at(b),
    {
    }

    /// Density: the number of handles that currently resolve equals
    /// `len()`, which is also exactly how many elements `iter` yields.
    pub proof fn lemma_density(self)
        requires
            self.wf(),
        ensures
            self.live_handles().finite(),
            self.live_handles().len() == self@.len(),
    {
        broadcast use vstd::seq_lib::seq_to_set_is_finite;

        let fu = self.first_unused as int;
        let tags = self.gen@.take(fu);
        assert forall|i: int, j: int|
            0 <= i < tags.len() && 0 <= j < tags.len() && i != j implies tags[i] != tags[j] by {
            assert(self.gen@[i] == tags[i]);
            assert(self.gen@[j] == tags[j]);
        }
        assert(tags.no_duplicates());
        tags.unique_seq_to_set();
        assert forall|h: GenIdx| self.valid(h) implies tags.to_set().contains(h) by {
            let i = self.inner_index(h);
            assert(tags[i] == h);
        }
        assert forall|h: GenIdx| tags.to_set().contains(h) implies self.valid(h) by {
            let i = choose|i: int| 0 <= i < tags.len() && tags[i] == h;
            assert(self.gen@[i] == h);
        }
        assert(self.live_handles() =~= tags.to_set());
    }

    /// Reuse correctness, first half: a handle returned by `push` never
    /// revives an older handle of the same slot — every other handle for
    /// that slot stays invalid.
    pub proof fn lemma_push_leaves_old_handles_stale(
        pre: Self,
        post: Self,
        h: GenIdx,
        value: T,
        g: GenIdx,
    )
        requires
            Self::push_effect(pre, post, h, value),
            g.slot() == h.slot(),
            g != h,
        ensures
            !post.valid(g),
    {
        if post.valid(g) {
            post.lemma_one_live_handle_per_slot(g, h);
        }
    }

    /// Reuse correctness, second half: a push right after a removal reuses
    /// the slot the removal vacated, and issues a handle with a strictly
    /// larger generation than the removed one — which therefore stays
    /// invalid.
    pub proof fn lemma_remove_then_push_fresh_generation(
        s0: Self,
        s1: Self,
        s2: Self,
        h: GenIdx,
        h2: GenIdx,
        value: T,
    )
        requires
            s0.wf(),
            Self::remove_effect(s0, s1, h),
            Self::push_effect(s1, s2, h2, value),
        ensures
            h2.slot() == h.slot(),
            h2.generation() > h.generation(),
            !s2.valid(h),
    {
        assert(s1@.len() < s1.slots());
        assert(h2 == s1.tag_at(s1@.len() as int));
    }

    /// Get used data count.
    pub fn len(&self) -> (r: usize)
        requires
            self.wf(),
        ensures
            r == self@.len(),
    {
        self.first_unused
    }

    /// Get whether there is no used data.
    pub fn is_empty(&self) -> (r: bool)
        requires
            self.wf(),
        ensures
            r == (self@.len() == 0),
    {
        self.first_unused == 0
    }
}

impl<T> Default for SafeVec<T> {
    fn default() -> (r: Self)
        ensures
            r.wf(),
            r@ == Seq::<T>::empty(),
            r.slots() == 0,
            forall|h: GenIdx| !r.valid(h),
    {
        Self::new()
    }
}

} // verus!
