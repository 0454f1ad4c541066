//! Useful types for transport implementations: values and sets that know which tasks wait for them.
//!
//! A task is known by a number. Whoever runs the tasks gives out the numbers, puts the values
//! behind a lock, and wakes the tasks that a call names.

use vstd::prelude::*;

verus! {

/// Whether a value is available yet.
#[derive(Debug)]
pub enum Poll<T> {
    /// The value is available.
    Ready(T),
    /// The value is not available yet; the task will be notified.
    Pending,
}

/// The tasks that wait after `task` has asked to be notified: each waits once.
pub open spec fn registered(waiting: Seq<u64>, task: u64) -> Seq<u64> {
    if waiting.contains(task) {
        waiting
    } else {
        waiting.push(task)
    }
}

/// Adds `task` to the waiting tasks unless it is among them.
fn register(waiting: &mut Vec<u64>, task: u64)
    requires
        old(waiting)@.no_duplicates(),
    ensures
        final(waiting)@ == registered(old(waiting)@, task),
        final(waiting)@.no_duplicates(),
{
    let mut i: usize = 0;
    while i < waiting.len()
        invariant
            i <= waiting.len(),
            waiting@ == old(waiting)@,
            old(waiting)@.no_duplicates(),
            forall|j: int| 0 <= j < i ==> waiting@[j] != task,
        decreases waiting.len() - i,
    {
        if waiting[i] == task {
            return;
        }
        i += 1;
    }
    waiting.push(task);
}

/// What a [`PollableValue`] holds.
#[verifier::ext_equal]
pub struct PollableValueModel<T> {
    /// The value.
    pub val: T,
    /// The tasks to notify when the value changes, in the order in which they first asked.
    pub waiting: Seq<u64>,
}

/// A variable, shared between tasks. When you read from this variable, you also implicitly
/// register interest in future values of the variable as well, and the current task will be
/// notified when the value changes.
#[derive(Debug)]
pub struct PollableValue<T: Copy> {
    val: T,
    waiting: Vec<u64>,
}

impl<T: Copy> View for PollableValue<T> {
    type V = PollableValueModel<T>;

    closed spec fn view(&self) -> PollableValueModel<T> {
        PollableValueModel { val: self.val, waiting: self.waiting@ }
    }
}

impl<T: Copy> PollableValue<T> {
    #[verifier::type_invariant]
    spec fn inv(self) -> bool {
        self.waiting@.no_duplicates()
    }

    /// Creates a new pollable value.
    pub fn new(value: T) -> (pollable: Self)
        ensures
            pollable@ == (PollableValueModel { val: value, waiting: Seq::empty() }),
    {
        PollableValue { val: value, waiting: Vec::new() }
    }

    /// Copies the value. If a task is provided, registers the task's interest in future values of
    /// the variable.
    pub fn read(&mut self, task: Option<u64>) -> (value: T)
        ensures
            value == old(self)@.val,
            final(self)@.val == old(self)@.val,
            final(self)@.waiting == (match task {
                Some(task) => registered(old(self)@.waiting, task),
                None => old(self)@.waiting,
            }),
    {
        proof {
            use_type_invariant(&*self);
        }
        if let Some(task) = task {
            let mut waiting: Vec<u64> = Vec::new();
            std::mem::swap(&mut waiting, &mut self.waiting);
            register(&mut waiting, task);
            self.waiting = waiting;
        }
        self.val
    }

    /// Assigns a new value to this variable. The tasks to be notified, which are those that have
    /// read this value since it was last written, are returned.
    pub fn write(&mut self, val: T) -> (woken: Vec<u64>)
        ensures
            woken@ == old(self)@.waiting,
            woken@.no_duplicates(),
            final(self)@ == (PollableValueModel { val, waiting: Seq::empty() }),
    {
        proof {
            use_type_invariant(&*self);
        }
        let mut waiting: Vec<u64> = Vec::new();
        std::mem::swap(&mut waiting, &mut self.waiting);
        self.val = val;
        waiting
    }
}

/// What a [`PollableSet`] holds.
#[verifier::ext_equal]
pub struct PollableSetModel<T> {
    /// The items, in the order in which they were added.
    pub items: Seq<T>,
    /// The tasks to notify when an item is added, in the order in which they first asked.
    pub waiting: Seq<u64>,
}

impl<T> PollableSetModel<T> {
    /// Nothing is there and nobody waits.
    pub open spec fn empty() -> Self {
        PollableSetModel { items: Seq::empty(), waiting: Seq::empty() }
    }

    /// `value` has been added, and everyone who waited has been notified.
    pub open spec fn inserted(self, value: T) -> Self {
        PollableSetModel { items: self.items.push(value), waiting: Seq::empty() }
    }

    /// The item at `i` has been taken out.
    pub open spec fn taken(self, i: int) -> Self {
        PollableSetModel { items: self.items.remove(i), waiting: self.waiting }
    }

    /// `task` has asked to be notified.
    pub open spec fn awaited_by(self, task: u64) -> Self {
        PollableSetModel { items: self.items, waiting: registered(self.waiting, task) }
    }
}

/// The items that are not flagged, in their order.
pub open spec fn unflagged<T>(items: Seq<T>, flags: Seq<bool>) -> Seq<T>
    decreases items.len(),
{
    if items.len() == 0 || flags.len() == 0 {
        Seq::empty()
    } else {
        let front = unflagged(items.drop_last(), flags.drop_last());
        if flags.last() {
            front
        } else {
            front.push(items.last())
        }
    }
}

/// `flags` are answers that `predicate` can give on the items, one by one.
pub open spec fn answers<T, F: Fn(&T) -> bool>(
    predicate: F,
    items: Seq<T>,
    flags: Seq<bool>,
) -> bool {
    &&& flags.len() == items.len()
    &&& forall|j: int|
        #![trigger flags[j]]
        0 <= j < items.len() ==> call_ensures(predicate, (&items[j],), flags[j])
}

/// `predicate` can pick the item at `i` out of `items`: it accepts it and rejects those before.
pub open spec fn picks<T, F: Fn(&T) -> bool>(predicate: F, items: Seq<T>, i: int) -> bool {
    &&& 0 <= i < items.len()
    &&& call_ensures(predicate, (&items[i],), true)
    &&& rejects(predicate, items, i)
}

/// `predicate` can reject the first `n` items.
pub open spec fn rejects<T, F: Fn(&T) -> bool>(predicate: F, items: Seq<T>, n: int) -> bool {
    forall|j: int| #![trigger items[j]] 0 <= j < n ==> call_ensures(predicate, (&items[j],), false)
}

/// A set which registers interest in a potential value if a query finds no result.
#[derive(Debug)]
pub struct PollableSet<T> {
    items: Vec<T>,
    waiting: Vec<u64>,
}

impl<T> View for PollableSet<T> {
    type V = PollableSetModel<T>;

    closed spec fn view(&self) -> PollableSetModel<T> {
        PollableSetModel { items: self.items@, waiting: self.waiting@ }
    }
}

impl<T> Default for PollableSet<T> {
    fn default() -> (set: Self)
        ensures
            set@ == PollableSetModel::<T>::empty(),
    {
        PollableSet::new()
    }
}

impl<T> PollableSet<T> {
    #[verifier::type_invariant]
    spec fn inv(self) -> bool {
        self.waiting@.no_duplicates()
    }

    /// Creates a new pollable set.
    pub fn new() -> (set: Self)
        ensures
            set@ == PollableSetModel::<T>::empty(),
    {
        PollableSet { items: Vec::new(), waiting: Vec::new() }
    }

    /// Queries the size of the set.
    pub fn len(&self) -> (len: usize)
        ensures
            len == self@.items.len(),
    {
        self.items.len()
    }

    /// Checks if there are no items in the set.
    pub fn is_empty(&self) -> (empty: bool)
        ensures
            empty == (self@.items.len() == 0),
    {
        self.items.len() == 0
    }

    /// Looks for a value in the set matching the given predicate. If one is found, returns it and
    /// removes it from the set. If not, registers the task's interest in the set and will notify
    /// the task when a value is added.
    ///
    /// If multiple values match the predicate, only the first added is returned.
    pub fn poll_take<F: Fn(&T) -> bool>(&mut self, task: u64, predicate: F) -> (taken: Poll<T>)
        requires
            forall|t: &T| call_requires(predicate, (t,)),
        ensures
            match taken {
                Poll::Ready(value) => exists|i: int|
                    #![trigger old(self)@.items[i]]
                    picks(predicate, old(self)@.items, i) && value == old(self)@.items[i]
                        && final(self)@ == old(self)@.taken(i),
                Poll::Pending => rejects(
                    predicate,
                    old(self)@.items,
                    old(self)@.items.len() as int,
                ) && final(self)@ == old(self)@.awaited_by(task),
            },
    {
        proof {
            use_type_invariant(&*self);
        }
        let mut i: usize = 0;
        while i < self.items.len()
            invariant
                i <= self.items.len(),
                *self == *old(self),
                forall|t: &T| call_requires(predicate, (t,)),
                rejects(predicate, self.items@, i as int),
            decreases self.items.len() - i,
        {
            if predicate(&self.items[i]) {
                proof {
                    use_type_invariant(&*self);
                }
                let mut items: Vec<T> = Vec::new();
                std::mem::swap(&mut items, &mut self.items);
                let value = items.remove(i);
                self.items = items;
                proof {
                    assert(picks(predicate, old(self)@.items, i as int));
                    assert(value == old(self)@.items[i as int]);
                    assert(self@ =~= old(self)@.taken(i as int));
                }
                return Poll::Ready(value);
            }
            i += 1;
        }
        proof {
            use_type_invariant(&*self);
        }
        let mut waiting: Vec<u64> = Vec::new();
        std::mem::swap(&mut waiting, &mut self.waiting);
        register(&mut waiting, task);
        self.waiting = waiting;
        Poll::Pending
    }

    /// See `poll_take` (but this will assume the predicate always passes).
    pub fn poll_take_any(&mut self, task: u64) -> (taken: Poll<T>)
        ensures
            match taken {
                Poll::Ready(value) => old(self)@.items.len() > 0 && value == old(self)@.items[0]
                    && final(self)@ == old(self)@.taken(0),
                Poll::Pending => old(self)@.items.len() == 0 && final(self)@ == old(
                    self,
                )@.awaited_by(task),
            },
    {
        let any = |_t: &T| -> (accepted: bool)
            ensures
                accepted,
            { true };
        let taken = self.poll_take(task, any);
        proof {
            if old(self)@.items.len() > 0 {
                assert(old(self)@.items[0] == old(self)@.items[0]);
                assert(!call_ensures(any, (&old(self)@.items[0],), false));
            }
        }
        taken
    }

    /// Removes all items matching the given predicate.
    pub fn drain<F: Fn(&T) -> bool>(&mut self, predicate: F)
        requires
            forall|t: &T| call_requires(predicate, (t,)),
        ensures
            final(self)@.waiting == old(self)@.waiting,
            exists|flags: Seq<bool>| #[trigger]
                answers(predicate, old(self)@.items, flags) && final(self)@.items == unflagged(
                    old(self)@.items,
                    flags,
                ),
    {
        proof {
            use_type_invariant(&*self);
        }
        let ghost before = self.items@;
        let mut items: Vec<T> = Vec::new();
        std::mem::swap(&mut items, &mut self.items);
        let mut i: usize = 0;
        let ghost mut flags: Seq<bool> = Seq::empty();
        assert(before.take(0) =~= Seq::<T>::empty());
        assert(items@ =~= unflagged(before.take(0), flags) + before.skip(0));
        while i < items.len()
            invariant
                forall|t: &T| call_requires(predicate, (t,)),
                flags.len() <= before.len(),
                answers(predicate, before.take(flags.len() as int), flags),
                i == unflagged(before.take(flags.len() as int), flags).len(),
                items@ == unflagged(before.take(flags.len() as int), flags) + before.skip(
                    flags.len() as int,
                ),
            decreases items.len() - i,
        {
            let ghost at = flags.len() as int;
            let ghost kept = unflagged(before.take(at), flags);
            assert(items@[i as int] == before[at]);
            let matched = predicate(&items[i]);
            proof {
                let more = flags.push(matched);
                assert(before.take(at + 1).drop_last() =~= before.take(at));
                assert(more.drop_last() =~= flags);
                assert forall|j: int| #![trigger more[j]] 0 <= j < at + 1 implies call_ensures(
                    predicate,
                    (&before.take(at + 1)[j],),
                    more[j],
                ) by {
                    if j < at {
                        assert(flags[j] == more[j]);
                        assert(before.take(at)[j] == before.take(at + 1)[j]);
                    }
                }
                flags = more;
            }
            if matched {
                items.remove(i);
                assert(items@ =~= kept + before.skip(at + 1));
            } else {
                i += 1;
                assert(items@ =~= kept.push(before[at]) + before.skip(at + 1));
            }
        }
        proof {
            assert(before.take(flags.len() as int) =~= before);
            assert(items@ =~= unflagged(before, flags));
        }
        self.items = items;
        assert(answers(predicate, old(self)@.items, flags));
    }

    /// Removes all items from the queue.
    pub fn clear(&mut self)
        ensures
            final(self)@ == (PollableSetModel {
                items: Seq::<T>::empty(),
                waiting: old(self)@.waiting,
            }),
    {
        proof {
            use_type_invariant(&*self);
        }
        self.items = Vec::new();
    }

    /// Inserts a value into the set. The tasks to be notified, which are those that have called
    /// `poll_take` and received [`Poll::Pending`] since the last insertion, are returned.
    pub fn insert(&mut self, value: T) -> (woken: Vec<u64>)
        ensures
            woken@ == old(self)@.waiting,
            woken@.no_duplicates(),
            final(self)@ == old(self)@.inserted(value),
    {
        proof {
            use_type_invariant(&*self);
        }
        let mut items: Vec<T> = Vec::new();
        std::mem::swap(&mut items, &mut self.items);
        items.push(value);
        self.items = items;
        let mut waiting: Vec<u64> = Vec::new();
        std::mem::swap(&mut waiting, &mut self.waiting);
        waiting
    }
}

/// A value that is added later does not overtake the ones that are there: each stays where it was,
/// and taking one out leaves the later one last.
pub proof fn lemma_insert_does_not_overtake<T>(set: PollableSetModel<T>, value: T, i: int)
    requires
        0 <= i < set.items.len(),
    ensures
        set.inserted(value).items[i] == set.items[i],
        set.inserted(value).taken(i).items == set.taken(i).inserted(value).items,
{
    assert(set.inserted(value).taken(i).items =~= set.taken(i).inserted(value).items);
}

/// A task that asked to be notified keeps waiting, whoever else asks and whatever is taken out,
/// until a value is added; then nobody waits any more.
pub proof fn lemma_waiting_until_insert<T>(
    set: PollableSetModel<T>,
    task: u64,
    other: u64,
    i: int,
    value: T,
)
    ensures
        set.awaited_by(task).waiting.contains(task),
        set.awaited_by(task).awaited_by(other).waiting.contains(task),
        0 <= i < set.items.len() ==> set.awaited_by(task).taken(i).waiting.contains(task),
        set.awaited_by(task).inserted(value).waiting == Seq::<u64>::empty(),
{
    let waiting = set.awaited_by(task).waiting;
    if !set.waiting.contains(task) {
        assert(waiting[set.waiting.len() as int] == task);
    }
    let at = choose|at: int| 0 <= at < waiting.len() && waiting[at] == task;
    assert(set.awaited_by(task).awaited_by(other).waiting[at] == task);
}

/// The tasks that wait after `tasks` have asked to be notified, one after the other.
pub open spec fn all_registered(waiting: Seq<u64>, tasks: Seq<u64>) -> Seq<u64>
    decreases tasks.len(),
{
    if tasks.len() == 0 {
        waiting
    } else {
        registered(all_registered(waiting, tasks.drop_last()), tasks.last())
    }
}

/// Of the tasks that have asked since nobody waited, that is, since the last value was written or
/// added, each is among those who are notified next, exactly once however often it asked; and nobody
/// else is.
pub proof fn lemma_each_is_notified_once(tasks: Seq<u64>)
    ensures
        all_registered(Seq::empty(), tasks).no_duplicates(),
        forall|task: u64| #[trigger]
            all_registered(Seq::empty(), tasks).contains(task) <==> tasks.contains(task),
    decreases tasks.len(),
{
    if tasks.len() > 0 {
        let front = tasks.drop_last();
        let last = tasks.last();
        lemma_each_is_notified_once(front);
        let before = all_registered(Seq::empty(), front);
        let after = all_registered(Seq::empty(), tasks);
        assert(after == registered(before, last));
        assert forall|task: u64| #[trigger] after.contains(task) <==> tasks.contains(task) by {
            assert(tasks.contains(task) <==> front.contains(task) || task == last) by {
                assert(tasks =~= front.push(last));
                vstd::seq_lib::lemma_seq_contains_after_push(front, last, task);
            }
            assert(after.contains(task) <==> before.contains(task) || task == last) by {
                if !before.contains(last) {
                    vstd::seq_lib::lemma_seq_contains_after_push(before, last, task);
                }
            }
            assert(before.contains(task) <==> front.contains(task));
        }
    }
}

/// A task that asks twice waits once.
pub proof fn lemma_asking_twice<T>(set: PollableSetModel<T>, task: u64)
    ensures
        set.awaited_by(task).awaited_by(task) == set.awaited_by(task),
{
    let waiting = set.awaited_by(task).waiting;
    if !set.waiting.contains(task) {
        assert(waiting[set.waiting.len() as int] == task);
    }
}

/// A set starts with nothing in it and with nobody who waits.
pub proof fn lemma_set_starts_empty<T>()
    ensures
        PollableSetModel::<T>::empty().items.len() == 0,
        PollableSetModel::<T>::empty().waiting.len() == 0,
{
}

/// Taking an item out leaves the others, in their order, and whoever waits; asking to be notified
/// leaves the items, and those who wait already in their order, and the task is among them then.
pub proof fn lemma_taking_and_asking<T>(set: PollableSetModel<T>, i: int, task: u64)
    requires
        0 <= i < set.items.len(),
    ensures
        set.taken(i).items == set.items.take(i) + set.items.skip(i + 1),
        set.taken(i).waiting == set.waiting,
        set.awaited_by(task).items == set.items,
        set.waiting.is_prefix_of(set.awaited_by(task).waiting),
        set.awaited_by(task).waiting.contains(task),
        forall|other: u64| #[trigger]
            set.awaited_by(task).waiting.contains(other) ==> other == task
                || set.waiting.contains(other),
{
    assert(set.taken(i).items =~= set.items.take(i) + set.items.skip(i + 1));
    lemma_waiting_until_insert(set, task, task, i, set.items[i]);
    assert forall|other: u64| #[trigger] set.awaited_by(task).waiting.contains(
        other,
    ) implies other == task || set.waiting.contains(other) by {
        let waiting = set.awaited_by(task).waiting;
        let j = choose|j: int| 0 <= j < waiting.len() && waiting[j] == other;
        if j < set.waiting.len() {
            assert(set.waiting[j] == other);
        }
    }
}

/// With a predicate that decides by `wanted`, the item that is picked is the first that is wanted.
pub proof fn lemma_first_wanted_is_picked<T, F: Fn(&T) -> bool>(
    predicate: F,
    wanted: spec_fn(T) -> bool,
    items: Seq<T>,
    i: int,
)
    requires
        forall|t: T, answer: bool| #[trigger]
            call_ensures(predicate, (&t,), answer) ==> answer == wanted(t),
    ensures
        picks(predicate, items, i) ==> 0 <= i < items.len() && wanted(items[i]) && forall|j: int|
            #![trigger items[j]]
            0 <= j < i ==> !wanted(items[j]),
        rejects(predicate, items, items.len() as int) ==> forall|j: int|
            #![trigger items[j]]
            0 <= j < items.len() ==> !wanted(items[j]),
{
}

/// With a predicate that accepts what is not to be kept, the items that are left are those that are
/// to be kept, in their order.
pub proof fn lemma_kept_are_left<T, F: Fn(&T) -> bool>(
    predicate: F,
    kept: spec_fn(T) -> bool,
    items: Seq<T>,
    flags: Seq<bool>,
)
    requires
        forall|t: T, answer: bool| #[trigger]
            call_ensures(predicate, (&t,), answer) ==> answer == !kept(t),
        answers(predicate, items, flags),
    ensures
        unflagged(items, flags) == items.filter(kept),
    decreases items.len(),
{
    reveal(Seq::filter);
    if items.len() > 0 {
        let front = items.drop_last();
        let front_flags = flags.drop_last();
        assert forall|j: int| #![trigger front_flags[j]] 0 <= j < front.len() implies call_ensures(
            predicate,
            (&front[j],),
            front_flags[j],
        ) by {
            assert(flags[j] == front_flags[j]);
            assert(items[j] == front[j]);
        }
        lemma_kept_are_left(predicate, kept, front, front_flags);
        let last = items.len() - 1;
        assert(call_ensures(predicate, (&items[last],), flags[last]));
    } else {
        assert(unflagged(items, flags) =~= items.filter(kept));
    }
}

} // verus!
