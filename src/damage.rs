//! The existing-damage buffers of the OpenGL backend.
//!
//! When the engine asks for the existing damage of a framebuffer, the
//! embedder's answer is handed to the engine as a borrowed buffer, and the
//! engine never says when it is done with it. It is done at the next present
//! of the same framebuffer, so every buffer handed out for that framebuffer
//! is kept here until then.
use vstd::prelude::*;
use std::collections::HashMap;

verus! {

broadcast use vstd::std_specs::hash::group_hash_axioms;

/// Damage buffers waiting for the next present of their framebuffer.
pub struct DamageCache<D> {
    pending: HashMap<isize, Vec<D>>,
}

/// The key under which a presented framebuffer's damage waits.
pub open spec fn present_key(fbo_id: u32) -> isize {
    fbo_id as isize
}

/// The buffers that wait for framebuffer `fbo_id`, oldest first.
pub open spec fn waiting_for<D>(waiting: Map<isize, Seq<D>>, fbo_id: isize) -> Seq<D> {
    if waiting.contains_key(fbo_id) {
        waiting[fbo_id]
    } else {
        Seq::empty()
    }
}

/// The waiting buffers after `damage` was handed out for `fbo_id`.
pub open spec fn kept<D>(waiting: Map<isize, Seq<D>>, fbo_id: isize, damage: D) -> Map<
    isize,
    Seq<D>,
> {
    waiting.insert(fbo_id, waiting_for(waiting, fbo_id).push(damage))
}

/// The waiting buffers after framebuffer `fbo_id` was presented, and the
/// buffers that the present releases.
pub open spec fn presented<D>(waiting: Map<isize, Seq<D>>, fbo_id: u32) -> (
    Map<isize, Seq<D>>,
    Seq<D>,
) {
    (waiting.remove(present_key(fbo_id)), waiting_for(waiting, present_key(fbo_id)))
}

impl<D> DamageCache<D> {
    /// The buffers that wait for each framebuffer, oldest first.
    pub closed spec fn waiting(&self) -> Map<isize, Seq<D>> {
        Map::new(|k: isize| self.pending@.contains_key(k), |k: isize| self.pending@[k]@)
    }

    pub fn new() -> (r: DamageCache<D>)
        ensures
            r.waiting() == Map::<isize, Seq<D>>::empty(),
    {
        let r = DamageCache { pending: HashMap::new() };
        assert(r.waiting() =~= Map::<isize, Seq<D>>::empty());
        r
    }

    /// Keeps `damage` until framebuffer `fbo_id` is next presented, behind
    /// any buffer that already waits for it.
    pub fn keep_until_present(&mut self, fbo_id: isize, damage: D)
        ensures
            final(self).waiting() == kept(old(self).waiting(), fbo_id, damage),
    {
        let mut buffers = match self.pending.remove(&fbo_id) {
            Some(buffers) => buffers,
            None => Vec::new(),
        };
        buffers.push(damage);
        self.pending.insert(fbo_id, buffers);
        assert(self.waiting() =~= kept(old(self).waiting(), fbo_id, damage));
    }

    /// The buffer handed out last for framebuffer `fbo_id`, if one waits;
    /// the engine borrows it until the next present.
    pub fn newest(&self, fbo_id: isize) -> (r: Option<&D>)
        ensures
            r == (if waiting_for(self.waiting(), fbo_id).len() > 0 {
                Some(&waiting_for(self.waiting(), fbo_id).last())
            } else {
                None::<&D>
            }),
    {
        match self.pending.get(&fbo_id) {
            Some(buffers) => {
                if buffers.len() > 0 {
                    Some(&buffers[buffers.len() - 1])
                } else {
                    None
                }
            },
            None => None,
        }
    }

    /// Framebuffer `fbo_id` was presented: every buffer that waited for it is
    /// handed out, oldest first, to be released, and none waits any more.
    #[verifier::truncate]
    pub fn release_on_present(&mut self, fbo_id: u32) -> (r: Vec<D>)
        ensures
            (final(self).waiting(), r@) == presented(old(self).waiting(), fbo_id),
    {
        let key: isize = fbo_id as isize;
        let released = match self.pending.remove(&key) {
            Some(buffers) => buffers,
            None => Vec::new(),
        };
        assert(self.waiting() =~= old(self).waiting().remove(present_key(fbo_id)));
        released
    }
}

/// Every buffer kept for framebuffer `fbo` is released by the first present
/// of `fbo`, together with the others kept for it, and by no later present;
/// a present of another framebuffer releases none of them.
pub proof fn lemma_damage_released_once<D>(
    waiting: Map<isize, Seq<D>>,
    fbo: u32,
    other: u32,
    first: D,
    second: D,
)
    requires
        present_key(other) != present_key(fbo),
        !waiting.contains_key(present_key(fbo)),
    ensures
        ({
            let kept_both = kept(kept(waiting, present_key(fbo), first), present_key(fbo), second);
            let (after_other, released_by_other) = presented(kept_both, other);
            let (after_first, released_first) = presented(after_other, fbo);
            let (_, released_again) = presented(after_first, fbo);
            &&& released_by_other == waiting_for(waiting, present_key(other))
            &&& waiting_for(after_other, present_key(fbo)) == seq![first, second]
            &&& released_first == seq![first, second]
            &&& released_again == Seq::<D>::empty()
        }),
{
    let k = present_key(fbo);
    let kept_both = kept(kept(waiting, k, first), k, second);
    assert(waiting_for(kept_both, k) =~= seq![first, second]);
    assert(waiting_for(kept_both, present_key(other)) == waiting_for(waiting, present_key(other)));
}

} // verus!
