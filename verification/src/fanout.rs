//! A scheduler that fans a batch of independent requests out over a bounded
//! window of concurrent operations and gathers one outcome per request.
//!
//! The scheduler performs no operation itself. Whoever drives it asks for the
//! next action, launches the request it names or waits for one to finish, and
//! reports each outcome as it arrives. A failed request is an outcome like any
//! other: it takes its place in the result and stops nothing.

use vstd::prelude::*;
use vstd::seq_lib::seq_to_set_is_finite;
use vstd::set_lib::{lemma_int_range, lemma_subset_equality, set_int_range};

verus! {

/// The number of concurrent operations allowed where the caller names none.
pub const DEFAULT_CONCURRENCY_LIMIT: usize = 128;

/// How the outcomes of a batch are arranged.
#[derive(Debug, Clone, Copy, PartialEq, Eq, Structural)]
pub enum ResultOrder {
    /// The outcome of request `i` stands at position `i`.
    Ordered,
    /// The outcomes stand in the order in which they arrived.
    Unordered,
}

/// What the driver of a scheduler is to do next.
#[derive(Debug, Clone, Copy, PartialEq, Eq, Structural)]
pub enum Action {
    /// Start the operation of the request with this index.
    Launch(usize),
    /// The window is full, or nothing is left to start: wait for an operation
    /// in flight to finish and report it.
    Wait,
    /// Every request has its outcome.
    Done,
}

/// The mathematical value of an [`Action`].
pub enum ActionView {
    Launch(int),
    Wait,
    Done,
}

impl View for Action {
    type V = ActionView;

    open spec fn view(&self) -> ActionView {
        match self {
            Action::Launch(index) => ActionView::Launch(*index as int),
            Action::Wait => ActionView::Wait,
            Action::Done => ActionView::Done,
        }
    }
}

/// The indices that a vector of positions holds.
pub open spec fn indices(positions: Seq<usize>) -> Seq<int> {
    positions.map_values(|i: usize| i as int)
}

/// The mathematical value of a [`FanOut`].
#[verifier::ext_equal]
pub struct FanOutView<T> {
    /// The most operations that may be in flight at once.
    pub limit: nat,
    /// How the outcomes are arranged in the end.
    pub order: ResultOrder,
    /// Requests `0 .. launched` have been launched.
    pub launched: nat,
    /// One slot per request: its outcome, once it has arrived.
    pub slots: Seq<Option<T>>,
    /// The requests in flight.
    pub window: Set<int>,
    /// The requests whose outcome has arrived, in the order of arrival.
    pub arrivals: Seq<int>,
}

impl<T> FanOutView<T> {
    /// The number of requests in the batch.
    pub open spec fn total(self) -> nat {
        self.slots.len()
    }

    /// The number of operations in flight.
    pub open spec fn in_flight(self) -> nat {
        self.window.len()
    }

    /// What holds of a scheduler at every moment.
    pub open spec fn valid(self) -> bool {
        &&& self.limit >= 1
        &&& self.launched <= self.slots.len()
        &&& self.window.finite()
        &&& self.window.len() <= self.limit
        &&& forall|i: int| #[trigger] self.window.contains(i) ==> 0 <= i < self.launched
        &&& forall|i: int|
            0 <= i < self.slots.len() ==> ((#[trigger] self.slots[i]) is Some <==> i < self.launched
                && !self.window.contains(i))
        &&& self.arrivals.no_duplicates()
        &&& forall|k: int|
            0 <= k < self.arrivals.len() ==> 0 <= (#[trigger] self.arrivals[k]) < self.slots.len()
                && self.slots[self.arrivals[k]] is Some
        &&& self.arrivals.len() + self.window.len() == self.launched
    }

    /// A scheduler for `total` requests before anything has been launched.
    pub open spec fn init(total: nat, limit: nat, order: ResultOrder) -> Self {
        FanOutView {
            limit,
            order,
            launched: 0,
            slots: Seq::new(total, |i: int| None),
            window: Set::empty(),
            arrivals: Seq::empty(),
        }
    }

    /// Whether the next request can be launched: one is left, and the window
    /// has room.
    pub open spec fn can_launch(self) -> bool {
        self.launched < self.slots.len() && self.window.len() < self.limit
    }

    /// The scheduler after the next request has been launched.
    pub open spec fn launch(self) -> Self {
        FanOutView {
            launched: self.launched + 1,
            window: self.window.insert(self.launched as int),
            ..self
        }
    }

    /// The action that the scheduler asks for.
    pub open spec fn action(self) -> ActionView {
        if self.can_launch() {
            ActionView::Launch(self.launched as int)
        } else if self.window.len() > 0 {
            ActionView::Wait
        } else {
            ActionView::Done
        }
    }

    /// The scheduler after it has asked for [`Self::action`].
    pub open spec fn advance(self) -> Self {
        if self.can_launch() {
            self.launch()
        } else {
            self
        }
    }

    /// The scheduler after the outcome of request `index`, which was in
    /// flight, has arrived.
    pub open spec fn complete(self, index: int, outcome: T) -> Self {
        FanOutView {
            slots: self.slots.update(index, Some(outcome)),
            window: self.window.remove(index),
            arrivals: self.arrivals.push(index),
            ..self
        }
    }

    /// Whether every request has its outcome.
    pub open spec fn is_done(self) -> bool {
        self.launched == self.slots.len() && self.window.len() == 0
    }

    /// The outcomes by request: position `i` holds the outcome of request `i`.
    pub open spec fn ordered_outcomes(self) -> Seq<T> {
        Seq::new(self.slots.len(), |i: int| self.slots[i]->Some_0)
    }

    /// The outcomes by arrival: position `k` holds the outcome that arrived
    /// as the `k`-th.
    pub open spec fn unordered_outcomes(self) -> Seq<T> {
        Seq::new(self.arrivals.len(), |k: int| self.slots[self.arrivals[k]]->Some_0)
    }

    /// The outcomes in the arrangement that the scheduler was made for.
    pub open spec fn outcomes(self) -> Seq<T> {
        match self.order {
            ResultOrder::Ordered => self.ordered_outcomes(),
            ResultOrder::Unordered => self.unordered_outcomes(),
        }
    }
}

/// The state of one batch: which requests have been launched, which are in
/// flight, and the outcomes that have arrived.
#[derive(Debug)]
pub struct FanOut<T> {
    limit: usize,
    order: ResultOrder,
    launched: usize,
    slots: Vec<Option<T>>,
    window: Vec<usize>,
    arrivals: Vec<usize>,
}

impl<T> View for FanOut<T> {
    type V = FanOutView<T>;

    closed spec fn view(&self) -> FanOutView<T> {
        FanOutView {
            limit: self.limit as nat,
            order: self.order,
            launched: self.launched as nat,
            slots: self.slots@,
            window: indices(self.window@).to_set(),
            arrivals: indices(self.arrivals@),
        }
    }
}

proof fn lemma_window_of_vec(window: Seq<usize>)
    requires
        window.no_duplicates(),
    ensures
        indices(window).to_set().finite(),
        indices(window).to_set().len() == window.len(),
        forall|i: usize| indices(window).to_set().contains(i as int) <==> window.contains(i),
{
    let mapped = indices(window);
    mapped.unique_seq_to_set();
    seq_to_set_is_finite(mapped);
    assert forall|i: usize| window.contains(i) implies mapped.to_set().contains(i as int) by {
        let k = choose|k: int| 0 <= k < window.len() && window[k] == i;
        assert(mapped[k] == i as int);
    }
}

proof fn lemma_window_after_push(window: Seq<usize>, index: usize)
    ensures
        indices(window.push(index)).to_set() == indices(window).to_set().insert(index as int),
{
    let before = indices(window);
    let after = indices(window.push(index));
    assert forall|i: int| after.to_set().contains(i) <==> before.to_set().insert(
        index as int,
    ).contains(i) by {
        if after.contains(i) && i != index as int {
            let k = choose|k: int| 0 <= k < after.len() && after[k] == i;
            assert(before[k] == i);
        }
        if before.contains(i) {
            let k = choose|k: int| 0 <= k < before.len() && before[k] == i;
            assert(after[k] == i);
        }
        if i == index as int {
            assert(after[before.len() as int] == i);
        }
    }
}

proof fn lemma_window_after_remove(window: Seq<usize>, p: int)
    requires
        window.no_duplicates(),
        0 <= p < window.len(),
    ensures
        window.remove(p).no_duplicates(),
        indices(window.remove(p)).to_set() == indices(window).to_set().remove(window[p] as int),
{
    let rest = window.remove(p);
    let before = indices(window);
    let after = indices(rest);
    assert forall|k: int| 0 <= k < rest.len() implies rest[k] == window[if k < p {
        k
    } else {
        k + 1
    }] by {}
    assert forall|i: int| after.to_set().contains(i) <==> before.to_set().remove(
        window[p] as int,
    ).contains(i) by {
        if after.contains(i) {
            let k = choose|k: int| 0 <= k < after.len() && after[k] == i;
            let k0 = if k < p { k } else { k + 1 };
            assert(before[k0] == i);
        }
        if before.contains(i) && i != window[p] as int {
            let k = choose|k: int| 0 <= k < before.len() && before[k] == i;
            let k1 = if k < p { k } else { k - 1 };
            assert(after[k1] == i);
        }
    }
}

impl<T> FanOut<T> {
    /// What holds of the representation beyond what the value shows.
    pub closed spec fn rep(&self) -> bool {
        self.window@.no_duplicates()
    }

    /// Whether the scheduler is in a state that its own operations can have
    /// led to.
    pub open spec fn wf(&self) -> bool {
        self.rep() && self@.valid()
    }

    /// A scheduler for a batch of `total` requests, of which at most `limit`
    /// are to be in flight at once.
    pub fn new(total: usize, limit: usize, order: ResultOrder) -> (fan: FanOut<T>)
        requires
            limit >= 1,
        ensures
            fan.wf(),
            fan@ == FanOutView::<T>::init(total as nat, limit as nat, order),
    {
        let mut slots: Vec<Option<T>> = Vec::new();
        let mut i: usize = 0;
        while i < total
            invariant
                i <= total,
                slots@ =~= Seq::new(i as nat, |k: int| None::<T>),
            decreases total - i,
        {
            slots.push(None);
            i += 1;
        }
        let fan = FanOut { limit, order, launched: 0, slots, window: Vec::new(), arrivals: Vec::new() };
        proof {
            lemma_window_of_vec(fan.window@);
        }
        fan
    }

    /// The number of requests in the batch.
    pub fn total(&self) -> (n: usize)
        ensures
            n == self@.total(),
    {
        self.slots.len()
    }

    /// The most operations that may be in flight at once.
    pub fn limit(&self) -> (n: usize)
        ensures
            n == self@.limit,
    {
        self.limit
    }

    /// How the outcomes are arranged in the end.
    pub fn order(&self) -> (order: ResultOrder)
        ensures
            order == self@.order,
    {
        self.order
    }

    /// The number of operations in flight.
    pub fn in_flight(&self) -> (n: usize)
        requires
            self.wf(),
        ensures
            n == self@.in_flight(),
            n <= self@.limit,
    {
        proof {
            lemma_window_of_vec(self.window@);
        }
        self.window.len()
    }

    /// Whether request `index` is in flight.
    pub fn is_in_flight(&self, index: usize) -> (flying: bool)
        requires
            self.wf(),
        ensures
            flying == self@.window.contains(index as int),
    {
        proof {
            lemma_window_of_vec(self.window@);
        }
        let mut p: usize = 0;
        while p < self.window.len()
            invariant
                p <= self.window.len(),
                forall|k: int| 0 <= k < p ==> self.window@[k] != index,
                self@.window.contains(index as int) <==> self.window@.contains(index),
            decreases self.window.len() - p,
        {
            if self.window[p] == index {
                return true;
            }
            p += 1;
        }
        false
    }

    /// Whether every request has its outcome.
    pub fn is_done(&self) -> (done: bool)
        requires
            self.wf(),
        ensures
            done == self@.is_done(),
    {
        proof {
            lemma_window_of_vec(self.window@);
        }
        self.launched == self.slots.len() && self.window.len() == 0
    }

    /// Says what to do next. Where that is to launch a request, the request
    /// counts as in flight from now on.
    pub fn next_action(&mut self) -> (action: Action)
        requires
            old(self).wf(),
        ensures
            final(self).wf(),
            action@ == old(self)@.action(),
            final(self)@ == old(self)@.advance(),
            final(self)@.in_flight() <= final(self)@.limit,
    {
        proof {
            lemma_window_of_vec(self.window@);
        }
        if self.launched < self.slots.len() && self.window.len() < self.limit {
            let index = self.launched;
            proof {
                lemma_launch_keeps_valid(self@);
                lemma_window_after_push(self.window@, index);
                assert(!self.window@.contains(index));
            }
            self.window.push(index);
            self.launched = index + 1;
            Action::Launch(index)
        } else if self.window.len() > 0 {
            Action::Wait
        } else {
            Action::Done
        }
    }

    /// Reports the outcome of request `index`. It is taken iff that request is
    /// in flight; otherwise it comes back and nothing changes.
    pub fn complete(&mut self, index: usize, outcome: T) -> (taken: Result<(), T>)
        requires
            old(self).wf(),
        ensures
            final(self).wf(),
            final(self)@.in_flight() <= final(self)@.limit,
            ({
                let before = old(self)@;
                let after = final(self)@;
                match taken {
                    Ok(_) => before.window.contains(index as int) && after == before.complete(
                        index as int,
                        outcome,
                    ),
                    Err(back) => !before.window.contains(index as int) && back == outcome && after
                        == before,
                }
            }),
    {
        proof {
            lemma_window_of_vec(self.window@);
        }
        let mut p: usize = 0;
        while p < self.window.len() && self.window[p] != index
            invariant
                p <= self.window.len(),
                forall|k: int| 0 <= k < p ==> self.window@[k] != index,
                *self == *old(self),
            decreases self.window.len() - p,
        {
            p += 1;
        }
        if p == self.window.len() {
            return Err(outcome);
        }
        proof {
            assert(self.window@.contains(index));
            lemma_complete_keeps_valid(self@, index as int, outcome);
            lemma_window_after_remove(self.window@, p as int);
            assert(indices(self.arrivals@.push(index)) =~= self@.arrivals.push(index as int));
        }
        self.window.remove(p);
        self.slots.set(index, Some(outcome));
        self.arrivals.push(index);
        Ok(())
    }

    /// Hands out the outcomes once all have arrived: by request if the
    /// scheduler is ordered, by arrival if it is unordered. Before that the
    /// scheduler comes back unchanged.
    pub fn finish(self) -> (result: Result<Vec<T>, FanOut<T>>)
        requires
            self.wf(),
        ensures
            match result {
                Ok(outcomes) => self@.is_done() && outcomes@ == self@.outcomes(),
                Err(fan) => !self@.is_done() && fan == self,
            },
    {
        if !self.is_done() {
            return Err(self);
        }
        let ghost view = self@;
        proof {
            view.window.lemma_len0_is_empty();
        }
        let order = self.order;
        let mut slots = self.slots;
        let mut arrivals = self.arrivals;
        match order {
            ResultOrder::Ordered => {
                let ghost total = view.slots.len() as int;
                let mut backwards: Vec<T> = Vec::new();
                while slots.len() > 0
                    invariant
                        total == view.slots.len(),
                        slots.len() <= total,
                        slots@ == view.slots.take(slots.len() as int),
                        forall|i: int| 0 <= i < total ==> (#[trigger] view.slots[i]) is Some,
                        backwards.len() == total - slots.len(),
                        forall|i: int|
                            slots.len() <= i < total ==> backwards@[total - 1 - i] == (
                            #[trigger] view.slots[i])->Some_0,
                    decreases slots.len(),
                {
                    let slot = slots.pop().unwrap();
                    backwards.push(slot.unwrap());
                }
                let mut outcomes: Vec<T> = Vec::new();
                while backwards.len() > 0
                    invariant
                        total == view.slots.len(),
                        backwards.len() + outcomes.len() == total,
                        forall|i: int|
                            outcomes.len() <= i < total ==> backwards@[total - 1 - i] == (
                            #[trigger] view.slots[i])->Some_0,
                        forall|i: int|
                            0 <= i < outcomes.len() ==> outcomes@[i] == (#[trigger] view.slots[i])->Some_0,
                    decreases backwards.len(),
                {
                    let outcome = backwards.pop().unwrap();
                    outcomes.push(outcome);
                }
                Ok(outcomes)
            },
            ResultOrder::Unordered => {
                let mut outcomes: Vec<T> = Vec::new();
                let mut k: usize = 0;
                while k < arrivals.len()
                    invariant
                        view.valid(),
                        indices(arrivals@) == view.arrivals,
                        slots.len() == view.slots.len(),
                        k <= arrivals.len(),
                        outcomes.len() == k,
                        forall|j: int|
                            0 <= j < k ==> outcomes@[j] == (
                            #[trigger] view.slots[view.arrivals[j]])->Some_0,
                        forall|j: int|
                            k <= j < arrivals.len() ==> slots@[view.arrivals[j]] == (
                            #[trigger] view.slots[view.arrivals[j]]),
                    decreases arrivals.len() - k,
                {
                    let index = arrivals[k];
                    assert(view.arrivals[k as int] == index as int);
                    slots.push(None);
                    let slot = slots.swap_remove(index);
                    outcomes.push(slot.unwrap());
                    k += 1;
                }
                Ok(outcomes)
            },
        }
    }
}

/// Launching a request keeps a scheduler valid.
pub proof fn lemma_launch_keeps_valid<T>(fan: FanOutView<T>)
    requires
        fan.valid(),
        fan.can_launch(),
    ensures
        fan.launch().valid(),
        fan.launch().in_flight() == fan.in_flight() + 1,
{
}

/// Taking the outcome of a request in flight keeps a scheduler valid.
pub proof fn lemma_complete_keeps_valid<T>(fan: FanOutView<T>, index: int, outcome: T)
    requires
        fan.valid(),
        fan.window.contains(index),
    ensures
        fan.complete(index, outcome).valid(),
        fan.complete(index, outcome).in_flight() + 1 == fan.in_flight(),
{
    // The request was in flight, so no outcome had arrived for it.
    assert forall|k: int| 0 <= k < fan.arrivals.len() implies fan.arrivals[k] != index by {
        assert(fan.slots[fan.arrivals[k]] is Some);
    }
}

/// Rearranging a sequence by a list that names each of its positions once
/// leaves the multiset of its items as it was.
pub proof fn lemma_rearranged_multiset<T>(items: Seq<T>, positions: Seq<int>)
    requires
        positions.len() == items.len(),
        positions.no_duplicates(),
        forall|k: int| 0 <= k < positions.len() ==> 0 <= #[trigger] positions[k] < items.len(),
    ensures
        Seq::new(items.len(), |k: int| items[positions[k]]).to_multiset() =~= items.to_multiset(),
    decreases items.len(),
{
    let n = items.len() as int;
    let picked = Seq::new(items.len(), |k: int| items[positions[k]]);
    if n == 0 {
        assert(picked =~= items);
    } else {
        // Each of the n positions is named, so the last one is.
        positions.unique_seq_to_set();
        lemma_int_range(0, n);
        seq_to_set_is_finite(positions);
        assert(positions.to_set().subset_of(set_int_range(0, n)));
        lemma_subset_equality(positions.to_set(), set_int_range(0, n));
        assert(set_int_range(0, n).contains(n - 1));
        let j = choose|j: int| 0 <= j < positions.len() && positions[j] == n - 1;
        let fewer = positions.remove(j);
        let front = items.drop_last();
        assert forall|k: int| 0 <= k < fewer.len() implies fewer[k] == positions[if k < j {
            k
        } else {
            k + 1
        }] by {}
        assert forall|k: int| 0 <= k < fewer.len() implies 0 <= #[trigger] fewer[k]
            < front.len() by {
            assert(fewer[k] != positions[j]);
        }
        lemma_rearranged_multiset(front, fewer);
        let picked_fewer = Seq::new(front.len(), |k: int| front[fewer[k]]);
        assert(picked.remove(j) =~= picked_fewer);
        picked.to_multiset_ensures();
        front.to_multiset_ensures();
        assert(items =~= front.push(items.last()));
    }
}

/// A scheduler that has launched nothing is valid.
pub proof fn law_fresh_scheduler_is_valid<T>(total: nat, limit: nat, order: ResultOrder)
    requires
        limit >= 1,
    ensures
        FanOutView::<T>::init(total, limit, order).valid(),
        FanOutView::<T>::init(total, limit, order).in_flight() == 0,
{
}

/// At every moment at most `limit` operations are in flight, and each step
/// of the scheduler keeps it so.
pub proof fn law_window_is_bounded<T>(fan: FanOutView<T>, index: int, outcome: T)
    requires
        fan.valid(),
    ensures
        fan.in_flight() <= fan.limit,
        fan.advance().valid(),
        fan.advance().in_flight() <= fan.limit,
        fan.window.contains(index) ==> fan.complete(index, outcome).valid() && fan.complete(
            index,
            outcome,
        ).in_flight() + 1 == fan.in_flight(),
{
    if fan.can_launch() {
        lemma_launch_keeps_valid(fan);
    }
    if fan.window.contains(index) {
        lemma_complete_keeps_valid(fan, index, outcome);
    }
}

/// What can happen to a scheduler: its driver asks for the next action, or
/// reports that an outcome has arrived for a request.
pub enum Event<T> {
    Ask,
    Arrive(int, T),
}

/// The scheduler after one event. An outcome for a request that is not in
/// flight changes nothing.
pub open spec fn after_event<T>(fan: FanOutView<T>, event: Event<T>) -> FanOutView<T> {
    match event {
        Event::Ask => fan.advance(),
        Event::Arrive(index, outcome) => if fan.window.contains(index) {
            fan.complete(index, outcome)
        } else {
            fan
        },
    }
}

/// The scheduler after a sequence of events.
pub open spec fn after_events<T>(fan: FanOutView<T>, events: Seq<Event<T>>) -> FanOutView<T>
    decreases events.len(),
{
    if events.len() == 0 {
        fan
    } else {
        after_event(after_events(fan, events.drop_last()), events.last())
    }
}

/// Whatever its driver does, a scheduler never has more than `limit`
/// operations in flight, and never gives up its batch or its settings.
pub proof fn law_no_run_exceeds_the_limit<T>(
    total: nat,
    limit: nat,
    order: ResultOrder,
    events: Seq<Event<T>>,
)
    requires
        limit >= 1,
    ensures
        after_events(FanOutView::<T>::init(total, limit, order), events).valid(),
        after_events(FanOutView::<T>::init(total, limit, order), events).in_flight() <= limit,
        after_events(FanOutView::<T>::init(total, limit, order), events).limit == limit,
        after_events(FanOutView::<T>::init(total, limit, order), events).total() == total,
        after_events(FanOutView::<T>::init(total, limit, order), events).order == order,
    decreases events.len(),
{
    if events.len() > 0 {
        law_no_run_exceeds_the_limit(total, limit, order, events.drop_last());
        let before = after_events(FanOutView::<T>::init(total, limit, order), events.drop_last());
        match events.last() {
            Event::Ask => {
                if before.can_launch() {
                    lemma_launch_keeps_valid(before);
                }
            },
            Event::Arrive(index, outcome) => {
                if before.window.contains(index) {
                    lemma_complete_keeps_valid(before, index, outcome);
                }
            },
        }
    }
}

/// Whatever its driver does, the outcome that a scheduler holds for a
/// request is one that was reported for that very request.
pub proof fn law_outcomes_come_from_their_own_requests<T>(
    total: nat,
    limit: nat,
    order: ResultOrder,
    events: Seq<Event<T>>,
    index: int,
)
    requires
        limit >= 1,
        0 <= index < total,
        after_events(FanOutView::<T>::init(total, limit, order), events).slots[index] is Some,
    ensures
        exists|k: int|
            0 <= k < events.len() && #[trigger] events[k] == Event::Arrive(
                index,
                after_events(FanOutView::<T>::init(total, limit, order), events).slots[index]->Some_0,
            ),
    decreases events.len(),
{
    let start = FanOutView::<T>::init(total, limit, order);
    if events.len() > 0 {
        let earlier = events.drop_last();
        let before = after_events(start, earlier);
        let after = after_events(start, events);
        law_no_run_exceeds_the_limit(total, limit, order, earlier);
        if before.slots[index] is Some && before.slots[index] == after.slots[index] {
            law_outcomes_come_from_their_own_requests(total, limit, order, earlier, index);
            let k = choose|k: int|
                0 <= k < earlier.len() && #[trigger] earlier[k] == Event::Arrive(
                    index,
                    before.slots[index]->Some_0,
                );
            assert(events[k] == earlier[k]);
        } else {
            // The slot was filled by the last event.
            assert(events[events.len() - 1] == Event::Arrive(index, after.slots[index]->Some_0));
        }
    }
}

/// An outcome that arrives is stored for its own request and for no other,
/// and the outcomes that arrived before it stay as they are.
pub proof fn law_outcomes_are_kept<T>(fan: FanOutView<T>, index: int, outcome: T)
    requires
        fan.valid(),
        fan.window.contains(index),
    ensures
        fan.slots[index] is None,
        fan.complete(index, outcome).slots[index] == Some(outcome),
        forall|i: int|
            0 <= i < fan.slots.len() && i != index ==> fan.complete(index, outcome).slots[i]
                == fan.slots[i],
        fan.advance().slots == fan.slots,
{
}

/// When a batch is done, the ordered arrangement holds exactly one outcome
/// per request, and the outcome at position `i` is that of request `i`.
pub proof fn law_ordered_holds_one_outcome_per_request<T>(fan: FanOutView<T>)
    requires
        fan.valid(),
        fan.is_done(),
    ensures
        fan.ordered_outcomes().len() == fan.total(),
        forall|i: int|
            0 <= i < fan.total() ==> fan.slots[i] == Some(#[trigger] fan.ordered_outcomes()[i]),
{
}

/// When a batch is done, the unordered arrangement holds the same outcomes as
/// the ordered one, each as often, in the order in which they arrived.
pub proof fn law_unordered_is_a_permutation_of_ordered<T>(fan: FanOutView<T>)
    requires
        fan.valid(),
        fan.is_done(),
    ensures
        fan.unordered_outcomes().len() == fan.total(),
        fan.unordered_outcomes().to_multiset() =~= fan.ordered_outcomes().to_multiset(),
{
    let ordered = fan.ordered_outcomes();
    lemma_rearranged_multiset(ordered, fan.arrivals);
    assert(fan.unordered_outcomes() =~= Seq::new(ordered.len(), |k: int| ordered[fan.arrivals[k]]));
}

/// An empty batch is done from the start: the scheduler asks for no launch,
/// and the result is empty in either arrangement.
pub proof fn law_empty_batch_is_done<T>(limit: nat, order: ResultOrder)
    requires
        limit >= 1,
    ensures
        FanOutView::<T>::init(0, limit, order).action() == ActionView::Done,
        FanOutView::<T>::init(0, limit, order).is_done(),
        FanOutView::<T>::init(0, limit, order).outcomes() =~= Seq::<T>::empty(),
{
}

/// With a limit no smaller than the batch the scheduler never waits before
/// everything is launched.
pub proof fn law_wide_window_launches_everything<T>(fan: FanOutView<T>)
    requires
        fan.valid(),
        fan.limit >= fan.total(),
        fan.launched < fan.total(),
    ensures
        fan.action() == ActionView::Launch(fan.launched as int),
{
}

/// An operation that finishes frees its place in the window: if a request is
/// left, it can be launched at once.
pub proof fn law_freed_place_is_refilled<T>(fan: FanOutView<T>, index: int, outcome: T)
    requires
        fan.valid(),
        fan.window.contains(index),
        fan.launched < fan.total(),
    ensures
        fan.complete(index, outcome).action() == ActionView::Launch(fan.launched as int),
{
}

/// The scheduler asks to wait only while something is in flight, and says
/// that it is done only when every request has its outcome.
pub proof fn law_action_matches_state<T>(fan: FanOutView<T>)
    requires
        fan.valid(),
    ensures
        fan.action() is Wait ==> fan.in_flight() > 0,
        fan.action() is Done <==> fan.is_done(),
        fan.is_done() ==> fan.arrivals.len() == fan.total(),
{
}

} // verus!
