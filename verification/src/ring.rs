//! A bounded buffer that keeps the most recent items put into it.
use std::collections::VecDeque;
use vstd::prelude::*;

verus! {

/// The last `n` items of `s`, or all of `s` where it holds no more than that.
pub open spec fn last_n<T>(s: Seq<T>, n: nat) -> Seq<T> {
    if s.len() <= n {
        s
    } else {
        s.skip(s.len() - n)
    }
}

/// What a buffer that held `held` holds once all of `items` were pushed, one
/// after the other.
pub open spec fn pushed<T>(held: Seq<T>, items: Seq<T>, limit: nat) -> Seq<T>
    decreases items.len(),
{
    if items.len() == 0 {
        held
    } else {
        last_n(pushed(held, items.drop_last(), limit).push(items.last()), limit)
    }
}

/// Only the latest items matter for what is left after one more.
pub proof fn lemma_last_n_of_push<T>(s: Seq<T>, item: T, n: nat)
    ensures
        last_n(last_n(s, n).push(item), n) == last_n(s.push(item), n),
{
    assert(last_n(last_n(s, n).push(item), n) =~= last_n(s.push(item), n));
}

/// A buffer holds the most recent items of all that were ever put into it, in
/// the order in which they came.
pub proof fn law_keeps_most_recent<T>(held: Seq<T>, items: Seq<T>, limit: nat)
    requires
        held.len() <= limit,
    ensures
        pushed(held, items, limit) == last_n(held + items, limit),
        pushed(held, items, limit).len() <= limit,
    decreases items.len(),
{
    if items.len() == 0 {
        assert(held + items =~= held);
    } else {
        law_keeps_most_recent(held, items.drop_last(), limit);
        lemma_last_n_of_push(held + items.drop_last(), items.last(), limit);
        assert((held + items.drop_last()).push(items.last()) =~= held + items);
    }
}

/// As many items are kept as there are, up to the limit, and they are the ones
/// that came last: counted from the end, each is the item it was.
pub proof fn law_latest_items_are_kept<T>(s: Seq<T>, n: nat)
    ensures
        last_n(s, n).len() == if s.len() < n {
            s.len()
        } else {
            n
        },
        forall|i: int|
            0 <= i < last_n(s, n).len() ==> #[trigger] last_n(s, n)[i] == s[s.len() - last_n(
                s,
                n,
            ).len() + i],
{
}

/// One item more costs at most one: nothing is dropped while there is room, and
/// the oldest alone once there is none.
pub proof fn law_one_item_costs_at_most_one<T>(held: Seq<T>, item: T, limit: nat)
    ensures
        held.len() < limit ==> last_n(held.push(item), limit) == held.push(item),
        0 < held.len() == limit ==> last_n(held.push(item), limit) == held.skip(1).push(item),
        limit == 0 ==> last_n(held.push(item), limit).len() == 0,
{
    if 0 < held.len() && held.len() == limit {
        assert(held.push(item).skip(1) =~= held.skip(1).push(item));
    }
}

/// After any pushes a buffer holds as many items as it ever got, up to its
/// limit, and they are the latest ones in their order.
pub proof fn law_pushes_keep_the_latest<T>(held: Seq<T>, items: Seq<T>, limit: nat)
    requires
        held.len() <= limit,
    ensures
        pushed(held, items, limit).len() == if held.len() + items.len() < limit {
            held.len() + items.len()
        } else {
            limit
        },
        forall|i: int|
            0 <= i < pushed(held, items, limit).len() ==> #[trigger] pushed(held, items, limit)[i]
                == (held + items)[held.len() + items.len() - pushed(held, items, limit).len() + i],
{
    law_keeps_most_recent(held, items, limit);
    law_latest_items_are_kept(held + items, limit);
}

/// To push some items and then more is to push them all.
pub proof fn law_pushes_add_up<T>(held: Seq<T>, items: Seq<T>, more: Seq<T>, limit: nat)
    ensures
        pushed(held, Seq::empty(), limit) == held,
        pushed(held, items + more, limit) == pushed(pushed(held, items, limit), more, limit),
    decreases more.len(),
{
    if more.len() == 0 {
        assert(items + more =~= items);
    } else {
        law_pushes_add_up(held, items, more.drop_last(), limit);
        assert((items + more).drop_last() =~= items + more.drop_last());
        assert((items + more).last() == more.last());
    }
}

/// A buffer of at most `limit` items. Once it is full, each new item pushes
/// out the oldest one. Its view is the items it holds, oldest first.
#[derive(Debug)]
pub struct RingBuffer<T> {
    items: VecDeque<T>,
    limit: usize,
}

impl<T> View for RingBuffer<T> {
    type V = Seq<T>;

    closed spec fn view(&self) -> Seq<T> {
        self.items@
    }
}

impl<T> RingBuffer<T> {
    /// The most items that the buffer holds at a time.
    pub closed spec fn limit(&self) -> nat {
        self.limit as nat
    }

    #[verifier::type_invariant]
    spec fn within_limit(self) -> bool {
        self.items@.len() <= self.limit
    }

    /// An empty buffer of at most `limit` items.
    pub fn new(limit: usize) -> (buffer: Self)
        ensures
            buffer@ == Seq::<T>::empty(),
            buffer.limit() == limit,
    {
        RingBuffer { items: VecDeque::new(), limit }
    }

    /// Adds `item` as the newest one and drops the oldest where the limit
    /// would be passed.
    pub fn push(&mut self, item: T)
        ensures
            final(self)@ == last_n(old(self)@.push(item), old(self).limit()),
            final(self).limit() == old(self).limit(),
            final(self)@.len() == if old(self)@.len() < old(self).limit() {
                old(self)@.len() + 1
            } else {
                old(self).limit()
            },
            forall|i: int|
                0 <= i < final(self)@.len() ==> #[trigger] final(self)@[i] == old(self)@.push(
                    item,
                )[old(self)@.len() + 1 - final(self)@.len() + i],
    {
        proof {
            use_type_invariant(&*self);
        }
        let mut items: VecDeque<T> = VecDeque::new();
        std::mem::swap(&mut items, &mut self.items);
        items.push_back(item);
        if items.len() > self.limit {
            let _ = items.pop_front();
        }
        self.items = items;
    }

    /// The number of items in the buffer.
    pub fn len(&self) -> (n: usize)
        ensures
            n == self@.len(),
            n <= self.limit(),
    {
        proof {
            use_type_invariant(self);
        }
        self.items.len()
    }
}

impl<T: Clone> RingBuffer<T> {
    /// Copies of the items, oldest first.
    pub fn to_vec(&self) -> (items: Vec<T>)
        ensures
            items@.len() == self@.len(),
            forall|i: int| 0 <= i < self@.len() ==> cloned::<T>(self@[i], #[trigger] items@[i]),
    {
        let mut items: Vec<T> = Vec::new();
        let mut i: usize = 0;
        while i < self.items.len()
            invariant
                i <= self.items@.len(),
                items@.len() == i,
                forall|j: int| 0 <= j < i ==> cloned::<T>(self.items@[j], #[trigger] items@[j]),
            decreases self.items@.len() - i,
        {
            items.push(self.items[i].clone());
            i += 1;
        }
        items
    }
}

impl<T: Clone> Clone for RingBuffer<T> {
    fn clone(&self) -> (buffer: Self)
        ensures
            buffer.limit() == self.limit(),
            buffer@.len() == self@.len(),
            forall|i: int| 0 <= i < self@.len() ==> cloned::<T>(self@[i], #[trigger] buffer@[i]),
    {
        proof {
            use_type_invariant(self);
        }
        RingBuffer { items: self.items.clone(), limit: self.limit }
    }
}

} // verus!
