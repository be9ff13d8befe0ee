//! The audio tick scheduler: the queue of control messages that the listeners
//! fill and each tick drains, the per-tick block arithmetic, the split of an
//! interleaved stereo block into two channels, and the state machine that
//! decides whether another tick runs.
use vstd::prelude::*;

verus! {

/// The engine's inbound control queue.  Listeners append; the scheduler takes
/// everything at once, at most once per tick.
pub struct ControlQueue<T> {
    items: Vec<T>,
}

impl<T> View for ControlQueue<T> {
    type V = Seq<T>;

    closed spec fn view(&self) -> Seq<T> {
        self.items@
    }
}

/// The queue after appending each of `ms`, in order, to `q`.
pub open spec fn enqueue_all<T>(q: Seq<T>, ms: Seq<T>) -> Seq<T>
    decreases ms.len(),
{
    if ms.len() == 0 {
        q
    } else {
        enqueue_all(q, ms.drop_last()).push(ms.last())
    }
}

pub proof fn lemma_enqueue_all_concat<T>(q: Seq<T>, ms: Seq<T>)
    ensures
        enqueue_all(q, ms) == q + ms,
    decreases ms.len(),
{
    if ms.len() > 0 {
        lemma_enqueue_all_concat(q, ms.drop_last());
        assert(q + ms =~= (q + ms.drop_last()).push(ms.last()));
    } else {
        assert(q + ms =~= q);
    }
}

impl<T> ControlQueue<T> {
    pub fn new() -> (r: Self)
        ensures
            r@ == Seq::<T>::empty(),
    {
        ControlQueue { items: Vec::new() }
    }

    pub fn len(&self) -> (r: usize)
        ensures
            r == self@.len(),
    {
        self.items.len()
    }

    /// Appends one message after those already waiting.
    pub fn enqueue(&mut self, m: T)
        ensures
            final(self)@ == old(self)@.push(m),
            final(self)@ == enqueue_all(old(self)@, seq![m]),
    {
        let ghost before = self.items@;
        self.items.push(m);
        proof {
            let one = seq![m];
            assert(one.drop_last() =~= Seq::<T>::empty());
            assert(enqueue_all(before, one.drop_last()) == before);
            assert(one.last() == m);
        }
    }

    /// Takes every waiting message, in the order they were enqueued, and
    /// leaves the queue empty.
    pub fn drain(&mut self) -> (r: Vec<T>)
        ensures
            r@ == old(self)@,
            final(self)@ == Seq::<T>::empty(),
    {
        let mut out: Vec<T> = Vec::new();
        std::mem::swap(&mut out, &mut self.items);
        out
    }
}

/// Delivery within one tick, over the queue's contracts: `enqueue` appends
/// one message (so a run of calls gives `enqueue_all`), and `drain` returns
/// the whole content and leaves the queue empty.  Let a tick's drain find
/// `pending` followed by the messages `before` enqueued ahead of it: its batch
/// is exactly `pending + before`, so each of `before` comes out in that tick,
/// in order, and no message enqueued later does.  Messages `after` enqueued
/// after that drain make up exactly the next tick's batch.
pub proof fn lemma_one_tick_delivery<T>(
    pending: Seq<T>,
    before: Seq<T>,
    batch: Seq<T>,
    left: Seq<T>,
    after: Seq<T>,
    next_batch: Seq<T>,
)
    requires
        batch == enqueue_all(pending, before),
        left == Seq::<T>::empty(),
        next_batch == enqueue_all(left, after),
    ensures
        batch == pending + before,
        forall|i: int| 0 <= i < before.len() ==> batch[pending.len() + i] == before[i],
        batch.len() == pending.len() + before.len(),
        next_batch == after,
{
    lemma_enqueue_all_concat(pending, before);
    lemma_enqueue_all_concat(left, after);
    assert(left + after =~= after);
}

/// The number of engine ticks that fill `buffer_size` samples when each tick
/// yields `block_size` frames of `channels` samples.
pub open spec fn ticks_spec(block_size: int, channels: int, buffer_size: int) -> int {
    buffer_size / (block_size * channels)
}

pub fn calculate_ticks(block_size: i32, channels: i32, buffer_size: i32) -> (r: i32)
    requires
        block_size > 0,
        channels > 0,
        buffer_size >= 0,
        block_size * channels <= i32::MAX,
    ensures
        r == ticks_spec(block_size as int, channels as int, buffer_size as int),
{
    proof {
        assert(block_size * channels > 0) by (nonlinear_arith)
            requires
                block_size > 0,
                channels > 0,
        ;
    }
    let per_tick: i32 = block_size * channels;
    buffer_size / per_tick
}

/// Splits an interleaved stereo block into its left and right channels, in
/// place: sample `i` of the left channel is sample `2i` of the block, sample
/// `i` of the right channel is sample `2i + 1`.
pub fn deinterleave<N: Copy>(block: &Vec<N>, left: &mut Vec<N>, right: &mut Vec<N>)
    requires
        old(left)@.len() == old(right)@.len(),
        block@.len() == 2 * old(left)@.len(),
    ensures
        final(left)@.len() == old(left)@.len(),
        final(right)@.len() == old(right)@.len(),
        forall|i: int| 0 <= i < final(left)@.len() ==> #[trigger] final(left)@[i] == block@[2 * i],
        forall|i: int|
            0 <= i < final(right)@.len() ==> #[trigger] final(right)@[i] == block@[2 * i + 1],
{
    let frames = left.len();
    let total = block.len();
    let mut i: usize = 0;
    while i < frames
        invariant
            frames == left@.len(),
            left@.len() == right@.len(),
            block@.len() == 2 * frames,
            total == block@.len(),
            0 <= i <= frames,
            forall|j: int| 0 <= j < i ==> #[trigger] left@[j] == block@[2 * j],
            forall|j: int| 0 <= j < i ==> #[trigger] right@[j] == block@[2 * j + 1],
        decreases frames - i,
    {
        left.set(i, block[2 * i]);
        right.set(i, block[2 * i + 1]);
        i = i + 1;
    }
}

/// What a tick came to, once its block was encoded and written.
#[derive(PartialEq, Eq, Structural, Clone, Copy, Debug)]
pub enum TickOutcome {
    /// The encoded bytes reached the sink.
    Written,
    /// The sink refused a write.
    WriteFailed,
    /// The encoder failed.
    EncodeFailed,
}

/// What the loop does next.
#[derive(PartialEq, Eq, Structural, Clone, Copy, Debug)]
pub enum TickStep {
    RunTick,
    Stop,
}

/// The state of the tick loop: how many ticks completed, and whether a
/// failure ended it.  Once halted it never runs another tick.
pub struct TickScheduler {
    completed: u64,
    halted: bool,
}

/// The model of the loop's state.
pub struct TickState {
    pub completed: nat,
    pub halted: bool,
}

impl View for TickScheduler {
    type V = TickState;

    closed spec fn view(&self) -> TickState {
        TickState { completed: self.completed as nat, halted: self.halted }
    }
}

/// The state after a tick that ran from `s` came to `o`.
pub open spec fn after_tick(s: TickState, o: TickOutcome) -> TickState {
    match o {
        TickOutcome::Written => TickState { completed: s.completed + 1, halted: false },
        _ => TickState { completed: s.completed, halted: true },
    }
}

/// Runs the loop from `s` on a sequence of tick outcomes, one per tick that
/// runs: the final state and the number of ticks that ran.  Outcomes after a
/// halt are never reached.
pub open spec fn run_ticks(s: TickState, outcomes: Seq<TickOutcome>) -> (TickState, nat)
    decreases outcomes.len(),
{
    if s.halted || outcomes.len() == 0 {
        (s, 0)
    } else {
        let (t, n) = run_ticks(after_tick(s, outcomes[0]), outcomes.drop_first());
        (t, n + 1)
    }
}

impl TickScheduler {
    pub fn new() -> (r: Self)
        ensures
            r@ == (TickState { completed: 0, halted: false }),
    {
        TickScheduler { completed: 0, halted: false }
    }

    pub fn completed(&self) -> (r: u64)
        ensures
            r == self@.completed,
    {
        self.completed
    }

    pub fn is_halted(&self) -> (r: bool)
        ensures
            r == self@.halted,
    {
        self.halted
    }

    /// Another tick runs exactly when no failure has ended the loop.
    pub fn next_step(&self) -> (r: TickStep)
        ensures
            r == TickStep::RunTick <==> !self@.halted,
    {
        if self.halted {
            TickStep::Stop
        } else {
            TickStep::RunTick
        }
    }

    /// Records the outcome of a tick that ran.  A written tick counts as
    /// completed; a failed write or encode halts the loop for good.
    pub fn finish_tick(&mut self, o: TickOutcome)
        requires
            !old(self)@.halted,
            old(self)@.completed < u64::MAX,
        ensures
            final(self)@ == after_tick(old(self)@, o),
    {
        match o {
            TickOutcome::Written => {
                self.completed = self.completed + 1;
            },
            _ => {
                self.halted = true;
            },
        }
    }
}

/// A write failure after `n` written ticks halts the loop: exactly `n + 1`
/// ticks run, `n` of them complete, and whatever outcomes would follow are
/// never reached, so no further write is attempted.
pub proof fn lemma_write_failure_halts(n: nat, rest: Seq<TickOutcome>)
    ensures
        ({
            let outcomes = Seq::new(n, |i: int| TickOutcome::Written).push(
                TickOutcome::WriteFailed,
            ) + rest;
            let (t, ran) = run_ticks(TickState { completed: 0, halted: false }, outcomes);
            t.halted && t.completed == n && ran == n + 1
        }),
{
    lemma_written_then_failed(0, n, rest);
    let outcomes = Seq::new(n, |i: int| TickOutcome::Written).push(TickOutcome::WriteFailed)
        + rest;
    assert(outcomes =~= written_then_failed(n, rest));
}

pub open spec fn written_then_failed(n: nat, rest: Seq<TickOutcome>) -> Seq<TickOutcome> {
    Seq::new(n, |i: int| TickOutcome::Written).push(TickOutcome::WriteFailed) + rest
}

proof fn lemma_written_then_failed(c: nat, n: nat, rest: Seq<TickOutcome>)
    ensures
        ({
            let (t, ran) = run_ticks(
                TickState { completed: c, halted: false },
                written_then_failed(n, rest),
            );
            t.halted && t.completed == c + n && ran == n + 1
        }),
    decreases n,
{
    let o = written_then_failed(n, rest);
    if n == 0 {
        let s1 = after_tick(TickState { completed: c, halted: false }, o[0]);
        assert(s1.halted);
        assert(run_ticks(s1, o.drop_first()) == (s1, 0nat));
    } else {
        lemma_written_then_failed(c + 1, (n - 1) as nat, rest);
        assert(o.drop_first() =~= written_then_failed((n - 1) as nat, rest));
    }
}

} // verus!
