//! A fixed pool of buffer slots, each tagged with where its buffer is in the
//! rotation between decoder and device.
//!
//! The pool keeps the tags only. Whoever owns the sample memory indexes it
//! by the same slot numbers and obeys the tags: a buffer is written only
//! while its slot is `Decoding` and handed to the device only once its slot
//! is `Queued`.

use vstd::prelude::*;

verus! {

/// The fewest slots a pool may have: one to decode into while the device
/// plays another.
pub const MIN_SLOTS: usize = 2;

/// The number of slots in a pool made without saying how many.
pub const DEFAULT_SLOTS: usize = 3;

/// Where a slot's buffer is in the rotation.
#[derive(Clone, Copy, Debug, PartialEq, Eq, Structural)]
pub enum SlotTag {
    /// Nobody uses the buffer.
    Free,
    /// The worker is decoding into the buffer.
    Decoding,
    /// The buffer is queued on the device.
    Queued,
}

/// How many slots of `tags` carry `tag`.
pub open spec fn count_of(tags: Seq<SlotTag>, tag: SlotTag) -> nat
    decreases tags.len(),
{
    if tags.len() == 0 {
        0
    } else {
        count_of(tags.drop_last(), tag) + if tags.last() == tag {
            1nat
        } else {
            0nat
        }
    }
}

/// Whether some slot of `tags` carries `tag`.
pub open spec fn has_tag(tags: Seq<SlotTag>, tag: SlotTag) -> bool {
    exists|i: int| 0 <= i < tags.len() && tags[i] == tag
}

/// Whether `slot` is the lowest-numbered slot of `tags` that carries `tag`.
pub open spec fn is_lowest(tags: Seq<SlotTag>, tag: SlotTag, slot: int) -> bool {
    &&& 0 <= slot < tags.len()
    &&& tags[slot] == tag
    &&& forall|j: int| 0 <= j < slot ==> tags[j] != tag
}

/// The lowest-numbered slot of `tags` that carries `tag`, where there is one.
pub open spec fn lowest(tags: Seq<SlotTag>, tag: SlotTag) -> int
    recommends
        has_tag(tags, tag),
{
    choose|slot: int| is_lowest(tags, tag, slot)
}

/// `tags` with every slot that carried `from` now carrying `to`.
pub open spec fn retagged(tags: Seq<SlotTag>, from: SlotTag, to: SlotTag) -> Seq<SlotTag> {
    Seq::new(
        tags.len(),
        |i: int|
            if tags[i] == from {
                to
            } else {
                tags[i]
            },
    )
}

/// A pool of `capacity` slots, all free.
pub open spec fn all_free(capacity: nat) -> Seq<SlotTag> {
    Seq::new(capacity, |i: int| SlotTag::Free)
}

/// The slot found as lowest carrier of a tag is the one `lowest` names.
pub proof fn lemma_lowest_is_unique(tags: Seq<SlotTag>, tag: SlotTag, slot: int)
    requires
        is_lowest(tags, tag, slot),
    ensures
        has_tag(tags, tag),
        lowest(tags, tag) == slot,
{
    let other = lowest(tags, tag);
    assert(is_lowest(tags, tag, other));
    if other < slot {
        assert(tags[other] != tag);
    } else if slot < other {
        assert(tags[slot] != tag);
    }
}

/// Below any slot that carries a tag there is a lowest one that does.
proof fn lemma_lowest_below(tags: Seq<SlotTag>, tag: SlotTag, slot: int)
    requires
        0 <= slot < tags.len(),
        tags[slot] == tag,
    ensures
        exists|low: int| is_lowest(tags, tag, low),
    decreases slot,
{
    if exists|j: int| 0 <= j < slot && tags[j] == tag {
        let j = choose|j: int| 0 <= j < slot && tags[j] == tag;
        lemma_lowest_below(tags, tag, j);
    } else {
        assert(is_lowest(tags, tag, slot));
    }
}

/// Where some slot carries a tag, `lowest` names the lowest one that does.
pub proof fn lemma_lowest_exists(tags: Seq<SlotTag>, tag: SlotTag)
    requires
        has_tag(tags, tag),
    ensures
        is_lowest(tags, tag, lowest(tags, tag)),
{
    let slot = choose|i: int| 0 <= i < tags.len() && tags[i] == tag;
    lemma_lowest_below(tags, tag, slot);
}

/// Counting over a prefix one slot longer adds that slot's share.
proof fn lemma_count_step(tags: Seq<SlotTag>, tag: SlotTag, i: int)
    requires
        0 <= i < tags.len(),
    ensures
        count_of(tags.take(i + 1), tag) == count_of(tags.take(i), tag) + if tags[i] == tag {
            1nat
        } else {
            0nat
        },
{
    assert(tags.take(i + 1).drop_last() =~= tags.take(i));
}

/// A count never exceeds the number of slots, and is zero exactly when no
/// slot carries the tag.
pub proof fn lemma_count_bounds(tags: Seq<SlotTag>, tag: SlotTag)
    ensures
        count_of(tags, tag) <= tags.len(),
        count_of(tags, tag) == 0 <==> !has_tag(tags, tag),
        count_of(tags, tag) == tags.len() <==> (forall|i: int| 0 <= i < tags.len() ==> tags[i] == tag),
    decreases tags.len(),
{
    if tags.len() > 0 {
        let init = tags.drop_last();
        lemma_count_bounds(init, tag);
        if has_tag(tags, tag) {
            let i = choose|i: int| 0 <= i < tags.len() && tags[i] == tag;
            if i < init.len() {
                assert(init[i] == tag);
            }
        }
        if has_tag(init, tag) {
            let i = choose|i: int| 0 <= i < init.len() && init[i] == tag;
            assert(tags[i] == tag);
        }
        if tags.last() == tag {
            assert(tags[tags.len() - 1] == tag);
        }
        if count_of(tags, tag) == tags.len() {
            assert forall|i: int| 0 <= i < tags.len() implies tags[i] == tag by {
                if i < init.len() {
                    assert(init[i] == tag);
                }
            }
        }
        if forall|i: int| 0 <= i < tags.len() ==> tags[i] == tag {
            assert forall|i: int| 0 <= i < init.len() implies init[i] == tag by {
                assert(tags[i] == tag);
            }
        }
    }
}

/// Every slot carries exactly one tag: the three counts add up to the
/// number of slots.
pub proof fn law_counts_sum_to_capacity(tags: Seq<SlotTag>)
    ensures
        count_of(tags, SlotTag::Free) + count_of(tags, SlotTag::Decoding) + count_of(
            tags,
            SlotTag::Queued,
        ) == tags.len(),
    decreases tags.len(),
{
    if tags.len() > 0 {
        law_counts_sum_to_capacity(tags.drop_last());
    }
}

/// Giving one slot a new tag moves one unit from the count of its old tag
/// to the count of its new one and leaves the third count alone.
pub proof fn law_retag_moves_one(tags: Seq<SlotTag>, slot: int, to: SlotTag, tag: SlotTag)
    requires
        0 <= slot < tags.len(),
        tags[slot] != to,
    ensures
        count_of(tags.update(slot, to), tag) == if tag == to {
            count_of(tags, tag) + 1
        } else if tag == tags[slot] {
            (count_of(tags, tag) - 1) as nat
        } else {
            count_of(tags, tag)
        },
        tag == tags[slot] ==> count_of(tags, tag) >= 1,
    decreases tags.len(),
{
    let after = tags.update(slot, to);
    if slot == tags.len() - 1 {
        assert(after.drop_last() =~= tags.drop_last());
    } else {
        assert(after.drop_last() =~= tags.drop_last().update(slot, to));
        law_retag_moves_one(tags.drop_last(), slot, to, tag);
    }
}

/// A fixed set of buffer slots with their tags.
pub struct BufferPool {
    tags: Vec<SlotTag>,
}

impl View for BufferPool {
    type V = Seq<SlotTag>;

    closed spec fn view(&self) -> Seq<SlotTag> {
        self.tags@
    }
}

impl BufferPool {
    /// A pool always has at least `MIN_SLOTS` slots.
    pub open spec fn wf(&self) -> bool {
        self@.len() >= MIN_SLOTS
    }

    /// A pool of `capacity` free slots, or nothing if `capacity` is below
    /// `MIN_SLOTS`.
    pub fn new(capacity: usize) -> (pool: Option<BufferPool>)
        ensures
            pool is Some <==> capacity >= MIN_SLOTS,
            pool matches Some(p) ==> p.wf() && p@ == all_free(capacity as nat),
    {
        if capacity < MIN_SLOTS {
            return None;
        }
        let mut tags: Vec<SlotTag> = Vec::new();
        let mut i: usize = 0;
        while i < capacity
            invariant
                i <= capacity,
                tags@ == all_free(i as nat),
            decreases capacity - i,
        {
            tags.push(SlotTag::Free);
            i = i + 1;
            assert(tags@ =~= all_free(i as nat));
        }
        Some(BufferPool { tags })
    }

    /// A pool of `DEFAULT_SLOTS` free slots.
    pub fn with_default_slots() -> (pool: BufferPool)
        ensures
            pool.wf(),
            pool@ == all_free(DEFAULT_SLOTS as nat),
    {
        let mut tags: Vec<SlotTag> = Vec::new();
        tags.push(SlotTag::Free);
        tags.push(SlotTag::Free);
        tags.push(SlotTag::Free);
        assert(tags@ =~= all_free(DEFAULT_SLOTS as nat));
        BufferPool { tags }
    }

    /// The number of slots.
    pub fn capacity(&self) -> (capacity: usize)
        ensures
            capacity == self@.len(),
    {
        self.tags.len()
    }

    /// The tag of `slot`, or nothing if the pool has no such slot.
    pub fn tag(&self, slot: usize) -> (tag: Option<SlotTag>)
        ensures
            tag == if slot < self@.len() {
                Some(self@[slot as int])
            } else {
                None
            },
    {
        if slot < self.tags.len() {
            Some(self.tags[slot])
        } else {
            None
        }
    }

    /// How many slots carry `tag`.
    pub fn count(&self, tag: SlotTag) -> (count: usize)
        ensures
            count == count_of(self@, tag),
    {
        let mut count: usize = 0;
        let mut i: usize = 0;
        while i < self.tags.len()
            invariant
                i <= self.tags@.len(),
                count == count_of(self.tags@.take(i as int), tag),
                count <= i,
            decreases self.tags@.len() - i,
        {
            proof {
                lemma_count_step(self.tags@, tag, i as int);
            }
            if self.tags[i] == tag {
                count = count + 1;
            }
            i = i + 1;
        }
        assert(self.tags@.take(i as int) =~= self.tags@);
        count
    }

    /// Whether some slot carries `tag`.
    pub fn contains(&self, tag: SlotTag) -> (found: bool)
        ensures
            found == has_tag(self@, tag),
    {
        let mut i: usize = 0;
        while i < self.tags.len()
            invariant
                i <= self.tags@.len(),
                forall|j: int| 0 <= j < i ==> self.tags@[j] != tag,
            decreases self.tags@.len() - i,
        {
            if self.tags[i] == tag {
                return true;
            }
            i = i + 1;
        }
        false
    }

    /// Takes the lowest-numbered free slot for decoding. Returns nothing,
    /// and changes nothing, if every slot is busy.
    pub fn acquire_free(&mut self) -> (slot: Option<usize>)
        ensures
            slot is Some <==> has_tag(old(self)@, SlotTag::Free),
            slot matches Some(s) ==> s == lowest(old(self)@, SlotTag::Free) && final(self)@ == old(
                self,
            )@.update(s as int, SlotTag::Decoding),
            slot is None ==> final(self)@ == old(self)@,
    {
        let mut i: usize = 0;
        while i < self.tags.len()
            invariant
                i <= self.tags@.len(),
                self.tags@ == old(self).tags@,
                forall|j: int| 0 <= j < i ==> self.tags@[j] != SlotTag::Free,
            decreases self.tags@.len() - i,
        {
            if self.tags[i] == SlotTag::Free {
                proof {
                    lemma_lowest_is_unique(self.tags@, SlotTag::Free, i as int);
                }
                self.tags[i] = SlotTag::Decoding;
                return Some(i);
            }
            i = i + 1;
        }
        None
    }

    /// Marks a slot that was being decoded into as queued on the device.
    /// Fails, and changes nothing, unless `slot` exists and is `Decoding`.
    pub fn mark_queued(&mut self, slot: usize) -> (done: bool)
        ensures
            done == (slot < old(self)@.len() && old(self)@[slot as int] == SlotTag::Decoding),
            final(self)@ == if done {
                old(self)@.update(slot as int, SlotTag::Queued)
            } else {
                old(self)@
            },
    {
        if slot < self.tags.len() && self.tags[slot] == SlotTag::Decoding {
            self.tags[slot] = SlotTag::Queued;
            true
        } else {
            false
        }
    }

    /// Returns a busy slot to the free ones: a queued slot whose buffer the
    /// device has consumed or discarded, or a decoding slot whose decode
    /// produced nothing to queue. Fails, and changes nothing, unless `slot`
    /// exists and is not already free.
    pub fn reclaim(&mut self, slot: usize) -> (done: bool)
        ensures
            done == (slot < old(self)@.len() && old(self)@[slot as int] != SlotTag::Free),
            final(self)@ == if done {
                old(self)@.update(slot as int, SlotTag::Free)
            } else {
                old(self)@
            },
    {
        if slot < self.tags.len() && self.tags[slot] != SlotTag::Free {
            self.tags[slot] = SlotTag::Free;
            true
        } else {
            false
        }
    }

    /// Frees every queued slot, as when the device discards its queue.
    /// Slots that are not queued keep their tags.
    pub fn flush(&mut self)
        ensures
            final(self)@ == retagged(old(self)@, SlotTag::Queued, SlotTag::Free),
    {
        let mut i: usize = 0;
        while i < self.tags.len()
            invariant
                i <= self.tags@.len(),
                self.tags@.len() == old(self).tags@.len(),
                forall|j: int|
                    0 <= j < i ==> self.tags@[j] == retagged(
                        old(self).tags@,
                        SlotTag::Queued,
                        SlotTag::Free,
                    )[j],
                forall|j: int| i <= j < self.tags@.len() ==> self.tags@[j] == old(self).tags@[j],
            decreases self.tags@.len() - i,
        {
            if self.tags[i] == SlotTag::Queued {
                self.tags[i] = SlotTag::Free;
            }
            i = i + 1;
        }
        assert(self.tags@ =~= retagged(old(self).tags@, SlotTag::Queued, SlotTag::Free));
    }

    /// Frees every slot, as when the stream is torn down.
    pub fn reclaim_all(&mut self)
        ensures
            final(self)@ == all_free(old(self)@.len()),
    {
        let mut i: usize = 0;
        while i < self.tags.len()
            invariant
                i <= self.tags@.len(),
                self.tags@.len() == old(self).tags@.len(),
                forall|j: int| 0 <= j < i ==> self.tags@[j] == SlotTag::Free,
            decreases self.tags@.len() - i,
        {
            self.tags[i] = SlotTag::Free;
            i = i + 1;
        }
        assert(self.tags@ =~= all_free(old(self).tags@.len()));
    }
}

} // verus!
