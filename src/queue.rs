use vstd::prelude::*;

verus! {

/// Number of consumed slots a queue keeps before it considers dropping them.
pub const COMPACT_THRESHOLD: usize = 64;

/// A generic FIFO queue.
///
/// Dequeuing moves a `head` cursor instead of shifting the backing vector;
/// the consumed prefix is dropped once it is at least `COMPACT_THRESHOLD`
/// slots long and at least half of the storage, and the storage is cleared
/// outright whenever the queue becomes empty.
pub struct Queue<T> {
    items: Vec<Option<T>>,
    head: usize,
    len: usize,
}

impl<T> View for Queue<T> {
    type V = Seq<T>;

    /// The live values, oldest first.
    closed spec fn view(&self) -> Seq<T> {
        self.items@.subrange(self.head as int, self.items@.len() as int).map_values(
            |slot: Option<T>| slot->Some_0,
        )
    }
}

impl<T> Queue<T> {
    /// The cursor sits inside the storage, every slot from it on holds a
    /// value, and `len` counts those slots.
    closed spec fn slots_wf(&self) -> bool {
        &&& self.items@.len() <= usize::MAX
        &&& self.head <= self.items@.len()
        &&& self.len == self.items@.len() - self.head
        &&& forall|i: int| self.head <= i < self.items@.len() ==> (#[trigger] self.items@[i]) is Some
    }

    /// The slots are well formed, and an empty queue holds no storage.
    pub closed spec fn wf(&self) -> bool {
        &&& self.slots_wf()
        &&& self.len == 0 ==> self.items@.len() == 0
    }

    /// Number of slots in the backing storage, consumed ones included.
    pub closed spec fn slot_count(&self) -> nat {
        self.items@.len()
    }

    /// Position of the oldest live slot in the backing storage.
    pub closed spec fn head_index(&self) -> nat {
        self.head as nat
    }

    /// Creates an empty queue.
    pub fn new() -> (q: Queue<T>)
        ensures
            q.wf(),
            q@ == Seq::<T>::empty(),
            q.slot_count() == 0,
            q.head_index() == 0,
    {
        let q = Queue { items: Vec::new(), head: 0, len: 0 };
        proof {
            assert(q@ =~= Seq::<T>::empty());
        }
        q
    }

    /// Adds an item to the back of the queue.
    pub fn enqueue(&mut self, value: T)
        requires
            old(self).wf(),
        ensures
            final(self).wf(),
            final(self)@ == old(self)@.push(value),
            (final(self)@, None::<T>) == apply_op(old(self)@, Some(value)),
            final(self).head_index() == old(self).head_index(),
    {
        let ghost before = self.items@;
        self.items.push(Some(value));
        self.len = self.items.len() - self.head;
        proof {
            assert(self.items@.subrange(self.head as int, self.items@.len() as int) =~= before.subrange(
                self.head as int,
                before.len() as int,
            ).push(Some(value)));
            assert(self@ =~= old(self)@.push(value));
        }
    }

    /// Number of pending items.
    pub fn len(&self) -> (n: usize)
        requires
            self.wf(),
        ensures
            n == self@.len(),
    {
        self.len
    }

    /// True when the queue is empty.
    pub fn is_empty(&self) -> (b: bool)
        requires
            self.wf(),
        ensures
            b == (self@.len() == 0),
    {
        self.len == 0
    }

    /// Removes and returns the front item, or `None` when the queue is empty.
    pub fn dequeue(&mut self) -> (r: Option<T>)
        requires
            old(self).wf(),
        ensures
            final(self).wf(),
            old(self)@.len() == 0 ==> r is None && final(self)@ == old(self)@,
            old(self)@.len() > 0 ==> r == Some(old(self)@[0]) && final(self)@ == old(self)@.drop_first(),
            (final(self)@, r) == apply_op(old(self)@, None),
            old(self)@.len() > 0 ==> final(self).head_index() == Self::head_after_dequeue(
                old(self).head_index(),
                old(self).slot_count(),
            ),
            final(self)@.len() == 0 ==> final(self).slot_count() == 0,
    {
        if self.len == 0 {
            return None;
        }
        let ghost before = self@;
        // Take from the cursor instead of shifting the whole vector.
        let value = self.items[self.head].take();
        self.head = self.head + 1;
        self.len = self.len - 1;
        proof {
            assert(self@ =~= before.drop_first());
        }
        self.compact_if_needed();
        value
    }

    /// Where the cursor stands after a dequeue from a queue whose cursor was at
    /// `head` in storage of `slots` slots: back at 0 when the queue became
    /// empty or the consumed prefix was dropped, one step further otherwise.
    pub open spec fn head_after_dequeue(head: nat, slots: nat) -> nat {
        let h = head + 1;
        if h == slots || (h >= COMPACT_THRESHOLD && 2 * h >= slots) {
            0
        } else {
            h
        }
    }

    /// Clears the storage of an empty queue, and drops the consumed prefix
    /// once it is at least `COMPACT_THRESHOLD` slots and half the storage.
    fn compact_if_needed(&mut self)
        requires
            old(self).slots_wf(),
        ensures
            final(self).wf(),
            final(self)@ == old(self)@,
            final(self).head_index() == (if old(self).head_index() == 0 || old(self)@.len() == 0 || (
            old(self).head_index() >= COMPACT_THRESHOLD && 2 * old(self).head_index()
                >= old(self).slot_count()) {
                0
            } else {
                old(self).head_index()
            }),
            old(self)@.len() == 0 ==> final(self).slot_count() == 0,
            old(self)@.len() > 0 ==> final(self).slot_count() == old(self).slot_count() - (
            old(self).head_index() - final(self).head_index()),
    {
        if self.head == 0 {
            return;
        }
        if self.len == 0 {
            self.items.clear();
            self.head = 0;
            proof {
                assert(self@ =~= old(self)@);
            }
            return;
        }
        // `head * 2 >= items.len()`, written so that it cannot overflow.
        if self.head >= COMPACT_THRESHOLD && self.head >= self.items.len() - self.head {
            // Drop the consumed prefix once it is large relative to the storage.
            let ghost before = self.items@;
            self.items = self.items.split_off(self.head);
            self.head = 0;
            proof {
                assert(self.items@.subrange(0, self.items@.len() as int) =~= self.items@);
                assert forall|i: int| 0 <= i < self.items@.len() implies (
                #[trigger] self.items@[i]) is Some by {
                    assert(self.items@[i] == before[i + old(self).head]);
                }
                assert(self@ =~= old(self)@);
            }
        }
    }

    /// The front item without removing it, or `None` when the queue is empty.
    pub fn peek(&self) -> (r: Option<&T>)
        requires
            self.wf(),
        ensures
            self@.len() == 0 ==> r is None,
            self@.len() > 0 ==> (r matches Some(v) && *v == self@[0]),
    {
        if self.len == 0 {
            return None;
        }
        self.items[self.head].as_ref()
    }

    /// The items from oldest to newest.
    pub fn iter(&self) -> (r: Vec<&T>)
        requires
            self.wf(),
        ensures
            r@.len() == self@.len(),
            forall|i: int| 0 <= i < r@.len() ==> *(#[trigger] r@[i]) == self@[i],
    {
        let mut r: Vec<&T> = Vec::with_capacity(self.len);
        let mut i: usize = self.head;
        while i < self.items.len()
            invariant
                self.wf(),
                self.head <= i <= self.items@.len(),
                r@.len() == i - self.head,
                forall|k: int| 0 <= k < r@.len() ==> *(#[trigger] r@[k]) == self@[k],
            decreases self.items@.len() - i,
        {
            match &self.items[i] {
                Some(v) => {
                    r.push(v);
                },
                None => {
                    assert(false);
                },
            }
            i = i + 1;
        }
        r
    }

    /// Removes and returns the item at zero-based position `index` from the
    /// front, keeping the order of the others, or `None` when `index` is not
    /// below the length. `index == 0` removes what `dequeue` would.
    ///
    /// This rebuilds the storage in one pass over the live items and puts the
    /// cursor back at 0: linear in the length of the queue.
    pub fn remove_at(&mut self, index: usize) -> (r: Option<T>)
        requires
            old(self).wf(),
        ensures
            final(self).wf(),
            index >= old(self)@.len() ==> r is None && final(self)@ == old(self)@,
            index < old(self)@.len() ==> r == Some(old(self)@[index as int]) && final(self)@
                == old(self)@.remove(index as int) && final(self).head_index() == 0,
    {
        if index >= self.len {
            return None;
        }
        let ghost before = self@;
        let ghost slots = self.items@;
        let mut removed: Option<T> = None;
        let mut compacted: Vec<Option<T>> = Vec::with_capacity(self.len - 1);
        let mut logical_index: usize = 0;
        let mut i: usize = self.head;
        while i < self.items.len()
            invariant
                self.head <= i <= self.items@.len(),
                self.items@.len() == slots.len(),
                self.head == old(self).head,
                self.items@.len() - self.head == before.len(),
                index < before.len(),
                logical_index == i - self.head,
                forall|j: int| i <= j < slots.len() ==> #[trigger] self.items@[j] == slots[j],
                forall|j: int|
                    self.head <= j < slots.len() ==> (#[trigger] slots[j]) is Some && slots[j]->Some_0
                        == before[j - self.head],
                logical_index <= index ==> removed is None && compacted@.len() == logical_index,
                logical_index > index ==> removed == Some(before[index as int]) && compacted@.len()
                    == logical_index - 1,
                forall|k: int|
                    0 <= k < compacted@.len() ==> #[trigger] compacted@[k] == Some(
                        before[if k < index {
                            k
                        } else {
                            k + 1
                        }],
                    ),
            decreases self.items@.len() - i,
        {
            let slot = self.items[i].take();
            match slot {
                Some(value) => {
                    if logical_index == index {
                        removed = Some(value);
                    } else {
                        compacted.push(Some(value));
                    }
                    logical_index = logical_index + 1;
                },
                None => {
                    assert(false);
                },
            }
            i = i + 1;
        }
        self.items = compacted;
        self.head = 0;
        self.len = self.items.len();
        proof {
            assert(self@ =~= before.remove(index as int));
        }
        removed
    }
}

impl<T> Default for Queue<T> {
    fn default() -> (q: Self)
        ensures
            q.wf(),
            q@ == Seq::<T>::empty(),
    {
        Self::new()
    }
}

/// What one operation does to a queue holding `contents`: `Some(v)` enqueues
/// `v` and returns nothing; `None` dequeues and returns the front value, or
/// nothing when the queue is empty. Gives the contents after and the result.
pub open spec fn apply_op<T>(contents: Seq<T>, op: Option<T>) -> (Seq<T>, Option<T>) {
    match op {
        Some(v) => (contents.push(v), None),
        None => if contents.len() == 0 {
            (contents, None)
        } else {
            (contents.drop_first(), Some(contents[0]))
        },
    }
}

/// Runs `ops` in order on a queue holding `contents`: the contents after, and
/// the values that the dequeues returned, in the order they were returned.
pub open spec fn run_ops<T>(contents: Seq<T>, ops: Seq<Option<T>>) -> (Seq<T>, Seq<T>)
    decreases ops.len(),
{
    if ops.len() == 0 {
        (contents, Seq::empty())
    } else {
        let (before, out) = run_ops(contents, ops.drop_last());
        let (after, r) = apply_op(before, ops.last());
        match r {
            Some(v) => (after, out.push(v)),
            None => (after, out),
        }
    }
}

/// The values that `ops` enqueues, in order.
pub open spec fn enqueued<T>(ops: Seq<Option<T>>) -> Seq<T>
    decreases ops.len(),
{
    if ops.len() == 0 {
        Seq::empty()
    } else {
        match ops.last() {
            Some(v) => enqueued(ops.drop_last()).push(v),
            None => enqueued(ops.drop_last()),
        }
    }
}

/// The values that dequeuing until empty returns from a queue holding
/// `contents`, in order.
pub open spec fn drain<T>(contents: Seq<T>) -> Seq<T>
    decreases contents.len(),
{
    if contents.len() == 0 {
        Seq::empty()
    } else {
        seq![contents[0]].add(drain(contents.drop_first()))
    }
}

/// FIFO order: over any run of enqueues and dequeues, what was in the queue
/// followed by what was enqueued equals what the dequeues returned followed
/// by what is left. From an empty queue, the n-th value dequeued is the n-th
/// value enqueued.
pub proof fn lemma_fifo_order<T>(contents: Seq<T>, ops: Seq<Option<T>>)
    ensures
        contents + enqueued(ops) == run_ops(contents, ops).1 + run_ops(contents, ops).0,
        contents.len() == 0 ==> forall|n: int|
            0 <= n < run_ops(contents, ops).1.len() ==> run_ops(contents, ops).1[n]
                == enqueued(ops)[n],
    decreases ops.len(),
{
    if ops.len() > 0 {
        lemma_fifo_order(contents, ops.drop_last());
        let (before, out) = run_ops(contents, ops.drop_last());
        match ops.last() {
            Some(v) => {
                let e = enqueued(ops.drop_last());
                assert(enqueued(ops) == e.push(v));
                assert(contents + e.push(v) =~= (contents + e).push(v));
                assert((out + before).push(v) =~= out + before.push(v));
            },
            None => {
                if before.len() > 0 {
                    assert(out + before =~= out.push(before[0]) + before.drop_first());
                }
            },
        }
    }
    let (rest, out) = run_ops(contents, ops);
    if contents.len() == 0 {
        assert(contents + enqueued(ops) =~= enqueued(ops));
        assert forall|n: int| 0 <= n < out.len() implies out[n] == enqueued(ops)[n] by {
            assert((out + rest)[n] == out[n]);
        }
    }
}

/// Draining a queue returns its contents in order.
pub proof fn lemma_drain_is_contents<T>(contents: Seq<T>)
    ensures
        drain(contents) == contents,
    decreases contents.len(),
{
    if contents.len() > 0 {
        lemma_drain_is_contents(contents.drop_first());
        assert(seq![contents[0]].add(contents.drop_first()) =~= contents);
    }
}

/// Removing the item at position `i` and then draining the queue returns the
/// original items in their order, without the one that was at `i`.
pub proof fn lemma_remove_then_drain<T>(contents: Seq<T>, i: int)
    requires
        0 <= i < contents.len(),
    ensures
        drain(contents.remove(i)) == contents.subrange(0, i) + contents.subrange(
            i + 1,
            contents.len() as int,
        ),
{
    lemma_drain_is_contents(contents.remove(i));
    assert(contents.remove(i) =~= contents.subrange(0, i) + contents.subrange(
        i + 1,
        contents.len() as int,
    ));
}

impl<T> Queue<T> {
    /// Storage waste is bounded: the slots from the cursor on never exceed
    /// twice the number of live items (they are exactly the live items).
    pub proof fn lemma_storage_waste_bounded(&self)
        requires
            self.wf(),
        ensures
            self.slot_count() - self.head_index() <= 2 * self@.len(),
            self.head_index() <= self.slot_count(),
    {
    }
}

} // verus!
