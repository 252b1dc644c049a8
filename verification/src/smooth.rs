use vstd::prelude::*;

verus! {

/// What a smoothing engine is doing.
///
/// `set` makes an engine `Active`. Once its output has come within reach of the target
/// the engine snaps to it and is `Deactivating` for one block, so that whoever reads
/// the blocks gets one more in which to finish; after that it is `Inactive` until the
/// next `set`.
#[derive(Debug, Clone, Copy, PartialEq, Eq, Structural)]
pub enum SmoothStatus {
    Inactive,
    Active,
    Deactivating,
}

/// The status that follows `status` when a block has been handled and `settled` says
/// whether the output has come within reach of the target.
pub open spec fn status_after_block(status: SmoothStatus, settled: bool) -> SmoothStatus {
    match status {
        SmoothStatus::Active => if settled {
            SmoothStatus::Deactivating
        } else {
            SmoothStatus::Active
        },
        SmoothStatus::Deactivating => SmoothStatus::Inactive,
        SmoothStatus::Inactive => SmoothStatus::Inactive,
    }
}

/// The status after `blocks` blocks in a row, each with the same `settled`.
pub open spec fn status_after_blocks(status: SmoothStatus, settled: bool, blocks: nat)
    -> SmoothStatus
    decreases blocks,
{
    if blocks == 0 {
        status
    } else {
        status_after_blocks(status_after_block(status, settled), settled, (blocks - 1) as nat)
    }
}

/// The number of frames that an engine with room for `max_blocksize` frames handles
/// when `frames` are asked for.
pub open spec fn clamped_frames(frames: usize, max_blocksize: usize) -> usize {
    if frames < max_blocksize {
        frames
    } else {
        max_blocksize
    }
}

impl SmoothStatus {
    /// Whether the engine still hands out blocks that a reader has to look at: true
    /// unless the status is `Inactive`.
    pub fn is_active(&self) -> (b: bool)
        ensures
            b == (*self != SmoothStatus::Inactive),
    {
        match self {
            SmoothStatus::Inactive => false,
            _ => true,
        }
    }

    /// Whether the engine computes a new block: true only while `Active`.
    pub fn is_ramping(&self) -> (b: bool)
        ensures
            b == (*self == SmoothStatus::Active),
    {
        match self {
            SmoothStatus::Active => true,
            _ => false,
        }
    }

    /// The status after a new target has been set: always `Active`.
    pub fn after_set(self) -> (next: SmoothStatus)
        ensures
            next == SmoothStatus::Active,
    {
        SmoothStatus::Active
    }

    /// The status after a reset to a fixed value: always `Inactive`.
    pub fn after_reset(self) -> (next: SmoothStatus)
        ensures
            next == SmoothStatus::Inactive,
    {
        SmoothStatus::Inactive
    }

    /// Whether an engine in this status snaps to its target when `settled` says that
    /// its output has come within reach of the target: only while `Active`.
    pub fn snaps_to_target(&self, settled: bool) -> (b: bool)
        ensures
            b == (*self == SmoothStatus::Active && settled),
    {
        match self {
            SmoothStatus::Active => settled,
            _ => false,
        }
    }

    /// The status after a block has been handled; `settled` says whether the output
    /// has come within reach of the target.
    pub fn after_block(self, settled: bool) -> (next: SmoothStatus)
        ensures
            next == status_after_block(self, settled),
    {
        match self {
            SmoothStatus::Active => if settled {
                SmoothStatus::Deactivating
            } else {
                SmoothStatus::Active
            },
            SmoothStatus::Deactivating => SmoothStatus::Inactive,
            SmoothStatus::Inactive => SmoothStatus::Inactive,
        }
    }
}

/// The number of frames to handle when `frames` are asked of an engine with room for
/// `max_blocksize`: never more than there is room for.
pub fn clamp_frames(frames: usize, max_blocksize: usize) -> (n: usize)
    ensures
        n == clamped_frames(frames, max_blocksize),
        n <= max_blocksize,
        n <= frames,
{
    if frames < max_blocksize {
        frames
    } else {
        max_blocksize
    }
}

/// An idle engine stays idle and computes nothing, whatever the blocks bring, until a
/// target is set.
pub proof fn lemma_idle_stays_idle(settled: bool, blocks: nat)
    ensures
        status_after_blocks(SmoothStatus::Inactive, settled, blocks) == SmoothStatus::Inactive,
    decreases blocks,
{
    if blocks > 0 {
        lemma_idle_stays_idle(settled, (blocks - 1) as nat);
    }
}

/// Once the output has settled, an active engine is `Deactivating` for exactly one
/// block and `Inactive` from the next block on.
pub proof fn lemma_settled_engine_goes_idle(settled: bool, blocks: nat)
    ensures
        status_after_block(SmoothStatus::Active, true) == SmoothStatus::Deactivating,
        status_after_blocks(SmoothStatus::Deactivating, settled, blocks) == if blocks == 0 {
            SmoothStatus::Deactivating
        } else {
            SmoothStatus::Inactive
        },
{
    if blocks > 0 {
        lemma_idle_stays_idle(settled, (blocks - 1) as nat);
    }
}

/// An active engine whose output has not settled stays active.
pub proof fn lemma_unsettled_engine_stays_active(blocks: nat)
    ensures
        status_after_blocks(SmoothStatus::Active, false, blocks) == SmoothStatus::Active,
    decreases blocks,
{
    if blocks > 0 {
        lemma_unsettled_engine_stays_active((blocks - 1) as nat);
    }
}

/// What a smoothing engine hands to the code that renders audio: the block it filled
/// last and its status.
pub struct SmoothOutput<'a, T, const MAX_BLOCKSIZE: usize> {
    pub values: &'a [T; MAX_BLOCKSIZE],
    pub status: SmoothStatus,
}

impl<'a, T, const MAX_BLOCKSIZE: usize> SmoothOutput<'a, T, MAX_BLOCKSIZE> {
    /// Whether the reader has to look at the block: true unless the engine is
    /// `Inactive`.
    pub fn is_smoothing(&self) -> (b: bool)
        ensures
            b == (self.status != SmoothStatus::Inactive),
    {
        self.status.is_active()
    }
}

/// A ramp generator for one parameter: it moves its output towards a target, one block
/// of at most `MAX_BLOCKSIZE` samples at a time.
///
/// The engine keeps the block, the target, the last sample it gave out and its status.
/// The arithmetic on samples is the caller's: `process` is handed the step from one
/// sample to the next, `update_status_with` the test that tells whether the output has
/// come within reach of the target.
pub struct Smooth<T: Copy, const MAX_BLOCKSIZE: usize> {
    output: [T; MAX_BLOCKSIZE],
    input: T,
    status: SmoothStatus,
    last_output: T,
}

impl<T: Copy, const MAX_BLOCKSIZE: usize> Smooth<T, MAX_BLOCKSIZE> {
    /// The block that the engine filled last, `MAX_BLOCKSIZE` samples long.
    pub closed spec fn values(&self) -> Seq<T> {
        self.output@
    }

    /// The value that the engine moves towards.
    pub closed spec fn target(&self) -> T {
        self.input
    }

    /// The last sample that the engine gave out; the next block starts from it.
    pub closed spec fn last(&self) -> T {
        self.last_output
    }

    /// What the engine is doing.
    pub closed spec fn state(&self) -> SmoothStatus {
        self.status
    }

    /// The engine rests at `value`: block, target and last sample all hold it.
    pub open spec fn rests_at(&self, value: T) -> bool {
        &&& self.values() == Seq::new(MAX_BLOCKSIZE as nat, |i: int| value)
        &&& self.target() == value
        &&& self.last() == value
    }

    /// Block, target, last sample and status of `self` are those of `pre`.
    pub open spec fn same_as(&self, pre: &Self) -> bool {
        &&& self.values() == pre.values()
        &&& self.target() == pre.target()
        &&& self.last() == pre.last()
        &&& self.state() == pre.state()
    }

    /// `self` is `pre` after `value` has been set as its target.
    pub open spec fn is_set_from(&self, pre: &Self, value: T) -> bool {
        &&& self.values() == pre.values()
        &&& self.target() == value
        &&& self.last() == pre.last()
        &&& self.state() == SmoothStatus::Active
    }

    /// `self` is `pre` after one block of `frames` samples, clamped to the room there
    /// is, has been processed with `step`.
    ///
    /// An engine that is not `Active` is left as it was. An active one has the first
    /// sample of its block stepped on from the last sample given out before, each
    /// further sample stepped on from the one before it, the samples past the block
    /// untouched, and the last sample of the block as the new last sample.
    pub open spec fn is_processed_from<F: Fn(T, T) -> T>(
        &self,
        pre: &Self,
        frames: usize,
        step: F,
    ) -> bool {
        if pre.state() != SmoothStatus::Active {
            self.same_as(pre)
        } else {
            let n = clamped_frames(frames, MAX_BLOCKSIZE) as int;
            &&& self.state() == SmoothStatus::Active
            &&& self.target() == pre.target()
            &&& self.values().len() == MAX_BLOCKSIZE
            &&& call_ensures(step, (pre.target(), pre.last()), self.values()[0])
            &&& forall|i: int|
                1 <= i < n ==> call_ensures(
                    step,
                    (pre.target(), self.values()[i - 1]),
                    #[trigger] self.values()[i],
                )
            &&& forall|i: int|
                n <= i < MAX_BLOCKSIZE ==> #[trigger] self.values()[i] == pre.values()[i]
            &&& self.last() == self.values()[n - 1]
        }
    }

    /// `self` is `pre` after its status has been brought up to date, where `settled`
    /// is what the settling test said of the target and the first sample of the block.
    ///
    /// An active engine that has settled rests at its target and is `Deactivating`; one
    /// that has not is left as it was. A deactivating engine becomes `Inactive`, an
    /// inactive one stays so.
    pub open spec fn is_updated_from(&self, pre: &Self, settled: bool) -> bool {
        match pre.state() {
            SmoothStatus::Active => if settled {
                self.rests_at(pre.target()) && self.state() == SmoothStatus::Deactivating
            } else {
                self.same_as(pre)
            },
            SmoothStatus::Deactivating => {
                &&& self.values() == pre.values()
                &&& self.target() == pre.target()
                &&& self.last() == pre.last()
                &&& self.state() == SmoothStatus::Inactive
            },
            SmoothStatus::Inactive => self.same_as(pre),
        }
    }

    /// An idle engine that rests at `input`.
    pub fn new(input: T) -> (engine: Self)
        ensures
            engine.rests_at(input),
            engine.state() == SmoothStatus::Inactive,
    {
        let engine = Smooth {
            status: SmoothStatus::Inactive,
            input,
            output: [input;MAX_BLOCKSIZE],
            last_output: input,
        };
        assert(engine.output@ =~= Seq::new(MAX_BLOCKSIZE as nat, |i: int| input));
        engine
    }

    /// Jumps to `val` at once: the engine rests there and is idle, and a ramp under
    /// way is dropped.
    pub fn reset(&mut self, val: T)
        ensures
            final(self).rests_at(val),
            final(self).state() == SmoothStatus::Inactive,
    {
        *self = Smooth::new(val);
    }

    /// Sets the value to move towards, and makes the engine `Active`.
    pub fn set(&mut self, val: T)
        ensures
            final(self).is_set_from(old(self), val),
    {
        self.input = val;
        self.status = self.status.after_set();
    }

    /// The value that the engine moves towards.
    pub fn dest(&self) -> (target: T)
        ensures
            target == self.target(),
    {
        self.input
    }

    /// The block that the engine filled last, and its status.
    pub fn output(&self) -> (out: SmoothOutput<'_, T, MAX_BLOCKSIZE>)
        ensures
            out.values@ == self.values(),
            out.status == self.state(),
    {
        SmoothOutput { values: &self.output, status: self.status }
    }

    /// The last sample that the engine gave out, and its status.
    pub fn current_value(&self) -> (now: (T, SmoothStatus))
        ensures
            now.0 == self.last(),
            now.1 == self.state(),
    {
        (self.last_output, self.status)
    }

    /// Whether the engine still hands out blocks that a reader has to look at.
    pub fn is_active(&self) -> (b: bool)
        ensures
            b == (self.state() != SmoothStatus::Inactive),
    {
        self.status.is_active()
    }

    /// Brings the status up to date after a block. `is_settled` is asked, of an active
    /// engine only, whether the first sample of the block has come within reach of the
    /// target; it is handed the target and that sample.
    pub fn update_status_with<F: Fn(T, T) -> bool>(&mut self, is_settled: F) -> (status:
        SmoothStatus)
        requires
            old(self).state() == SmoothStatus::Active ==> MAX_BLOCKSIZE > 0 && call_requires(
                is_settled,
                (old(self).target(), old(self).values()[0]),
            ),
        ensures
            status == final(self).state(),
            old(self).state() == SmoothStatus::Active ==> exists|settled: bool|
                call_ensures(is_settled, (old(self).target(), old(self).values()[0]), settled)
                    && final(self).is_updated_from(old(self), settled),
            old(self).state() != SmoothStatus::Active ==> final(self).is_updated_from(
                old(self),
                false,
            ),
    {
        let before = self.status;
        let settled = if before.is_ramping() {
            let answer = is_settled(self.input, self.output[0]);
            answer
        } else {
            false
        };
        if before.snaps_to_target(settled) {
            let target = self.input;
            self.reset(target);
        }
        self.status = before.after_block(settled);
        assert(self.is_updated_from(old(self), settled));
        self.status
    }

    /// Fills one block of `frames` samples, clamped to the room there is, by stepping
    /// on from the last sample given out. `step` is handed the target and the sample
    /// before and gives the next sample. An engine that is not `Active` does nothing.
    pub fn process<F: Fn(T, T) -> T>(&mut self, frames: usize, step: F)
        requires
            old(self).state() == SmoothStatus::Active ==> frames > 0 && MAX_BLOCKSIZE > 0,
            forall|prev: T| call_requires(step, (old(self).target(), prev)),
        ensures
            final(self).is_processed_from(old(self), frames, step),
    {
        if !self.status.is_ramping() {
            return ;
        }
        let frames = clamp_frames(frames, MAX_BLOCKSIZE);
        let target = self.input;
        assert(target == old(self).target());
        let first = step(target, self.last_output);
        self.output[0] = first;
        let mut i: usize = 1;
        while i < frames
            invariant
                1 <= i <= frames <= MAX_BLOCKSIZE,
                target == old(self).input,
                self.input == old(self).input,
                self.status == old(self).status,
                forall|prev: T| call_requires(step, (target, prev)),
                call_ensures(step, (target, old(self).last_output), self.output@[0]),
                forall|j: int|
                    1 <= j < i ==> call_ensures(
                        step,
                        (target, self.output@[j - 1]),
                        #[trigger] self.output@[j],
                    ),
                forall|j: int|
                    i <= j < MAX_BLOCKSIZE ==> #[trigger] self.output@[j] == old(self).output@[j],
            decreases frames - i,
        {
            let next = step(target, self.output[i - 1]);
            self.output[i] = next;
            i = i + 1;
        }
        self.last_output = self.output[frames - 1];
    }

    /// The work of one audio block: sets `new_target`, if there is one, as the target,
    /// processes `frames` samples, brings the status up to date and hands out the
    /// block.
    pub fn advance<F: Fn(T, T) -> T, G: Fn(T, T) -> bool>(
        &mut self,
        new_target: Option<T>,
        frames: usize,
        step: F,
        is_settled: G,
    ) -> (out: SmoothOutput<'_, T, MAX_BLOCKSIZE>)
        requires
            new_target is Some || old(self).state() == SmoothStatus::Active ==> MAX_BLOCKSIZE > 0
                && frames > 0,
            forall|target: T, prev: T| call_requires(step, (target, prev)),
            forall|target: T, first: T| call_requires(is_settled, (target, first)),
        ensures
            out.values@ == final(self).values(),
            out.status == final(self).state(),
            exists|was_set: Self, processed: Self, settled: bool|
                {
                    &&& match new_target {
                        Some(value) => was_set.is_set_from(old(self), value),
                        None => was_set.same_as(old(self)),
                    }
                    &&& processed.is_processed_from(&was_set, frames, step)
                    &&& processed.state() == SmoothStatus::Active ==> call_ensures(
                        is_settled,
                        (processed.target(), processed.values()[0]),
                        settled,
                    )
                    &&& final(self).is_updated_from(&processed, settled)
                },
            new_target is None && old(self).state() == SmoothStatus::Inactive ==> final(self)
                .same_as(old(self)),
    {
        match new_target {
            Some(value) => self.set(value),
            None => {},
        }
        self.process(frames, step);
        self.update_status_with(is_settled);
        self.output()
    }
}

/// `le` orders samples: every sample is at or below itself, and the order carries over
/// a sample in between.
pub open spec fn is_preorder<T>(le: spec_fn(T, T) -> bool) -> bool {
    &&& forall|x: T| #[trigger] le(x, x)
    &&& forall|x: T, y: T, z: T| #[trigger] le(x, y) && #[trigger] le(y, z) ==> le(x, z)
}

/// `step` never leaves the span between the sample before and the target: from a sample
/// at or below the target, in the order `le`, it gives one at or above that sample and
/// at or below the target.
pub open spec fn stays_between<T, F: Fn(T, T) -> T>(step: F, le: spec_fn(T, T) -> bool) -> bool {
    forall|target: T, prev: T, next: T|
        #[trigger] call_ensures(step, (target, prev), next) && le(prev, target) ==> le(prev, next)
            && le(next, target)
}

/// In a block that was processed with a step that stays between the sample before and
/// the target, the first `upto + 1` samples lie between the last output before the block
/// and the target.
proof fn lemma_ramp_is_bounded<T: Copy, F: Fn(T, T) -> T, const MAX_BLOCKSIZE: usize>(
    pre: Smooth<T, MAX_BLOCKSIZE>,
    post: Smooth<T, MAX_BLOCKSIZE>,
    frames: usize,
    step: F,
    le: spec_fn(T, T) -> bool,
    upto: int,
)
    requires
        pre.state() == SmoothStatus::Active,
        post.is_processed_from(&pre, frames, step),
        is_preorder(le),
        stays_between(step, le),
        le(pre.last(), pre.target()),
        0 <= upto < clamped_frames(frames, MAX_BLOCKSIZE),
    ensures
        le(pre.last(), post.values()[upto]),
        le(post.values()[upto], pre.target()),
        upto > 0 ==> le(post.values()[upto - 1], post.values()[upto]),
    decreases upto,
{
    if upto > 0 {
        lemma_ramp_is_bounded(pre, post, frames, step, le, upto - 1);
    }
}

/// In such a block, no sample lies above a later one.
proof fn lemma_ramp_is_ordered<T: Copy, F: Fn(T, T) -> T, const MAX_BLOCKSIZE: usize>(
    pre: Smooth<T, MAX_BLOCKSIZE>,
    post: Smooth<T, MAX_BLOCKSIZE>,
    frames: usize,
    step: F,
    le: spec_fn(T, T) -> bool,
    i: int,
    j: int,
)
    requires
        pre.state() == SmoothStatus::Active,
        post.is_processed_from(&pre, frames, step),
        is_preorder(le),
        stays_between(step, le),
        le(pre.last(), pre.target()),
        0 <= i <= j < clamped_frames(frames, MAX_BLOCKSIZE),
    ensures
        le(post.values()[i], post.values()[j]),
    decreases j - i,
{
    if i < j {
        lemma_ramp_is_ordered(pre, post, frames, step, le, i, j - 1);
        lemma_ramp_is_bounded(pre, post, frames, step, le, j);
    }
}

/// A ramp never overshoots. Where the step from sample to sample stays between the
/// sample before and the target, and the last output lies at or below the target in the
/// order `le`, a processed block climbs from the last output, sample by sample, and
/// stays at or below the target; so does the new last output. With `le` turned round
/// the same holds of a ramp that falls.
pub proof fn lemma_ramp_is_monotonic<T: Copy, F: Fn(T, T) -> T, const MAX_BLOCKSIZE: usize>(
    pre: Smooth<T, MAX_BLOCKSIZE>,
    post: Smooth<T, MAX_BLOCKSIZE>,
    frames: usize,
    step: F,
    le: spec_fn(T, T) -> bool,
)
    requires
        pre.state() == SmoothStatus::Active,
        post.is_processed_from(&pre, frames, step),
        frames > 0,
        MAX_BLOCKSIZE > 0,
        is_preorder(le),
        stays_between(step, le),
        le(pre.last(), pre.target()),
    ensures
        forall|i: int|
            0 <= i < clamped_frames(frames, MAX_BLOCKSIZE) ==> le(
                pre.last(),
                #[trigger] post.values()[i],
            ) && le(post.values()[i], post.target()),
        forall|i: int, j: int|
            0 <= i <= j < clamped_frames(frames, MAX_BLOCKSIZE) ==> le(
                #[trigger] post.values()[i],
                #[trigger] post.values()[j],
            ),
        le(pre.last(), post.last()),
        le(post.last(), post.target()),
{
    let n = clamped_frames(frames, MAX_BLOCKSIZE) as int;
    assert forall|i: int| 0 <= i < n implies le(pre.last(), #[trigger] post.values()[i]) && le(
        post.values()[i],
        post.target(),
    ) by {
        lemma_ramp_is_bounded(pre, post, frames, step, le, i);
    }
    assert forall|i: int, j: int| 0 <= i <= j < n implies le(
        #[trigger] post.values()[i],
        #[trigger] post.values()[j],
    ) by {
        lemma_ramp_is_ordered(pre, post, frames, step, le, i, j);
    }
    lemma_ramp_is_bounded(pre, post, frames, step, le, n - 1);
}

/// An idle engine is idle after any block: processing and bringing the status up to
/// date leave its block, its target, its last output and its status as they were.
pub proof fn lemma_idle_engine_is_unchanged<
    T: Copy,
    F: Fn(T, T) -> T,
    const MAX_BLOCKSIZE: usize,
>(
    pre: Smooth<T, MAX_BLOCKSIZE>,
    processed: Smooth<T, MAX_BLOCKSIZE>,
    post: Smooth<T, MAX_BLOCKSIZE>,
    frames: usize,
    step: F,
    settled: bool,
)
    requires
        pre.state() == SmoothStatus::Inactive,
        processed.is_processed_from(&pre, frames, step),
        post.is_updated_from(&processed, settled),
    ensures
        post.same_as(&pre),
        post.state() == SmoothStatus::Inactive,
{
}

} // verus!
