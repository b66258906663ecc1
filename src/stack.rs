//! Per-thread baselines and stack offsets.

use std::collections::HashMap;
use vstd::prelude::*;

verus! {

/// A count of call frames; also an offset between two such counts.
pub type StackDepth = usize;

/// The baseline recorded for `depth` shifted by `correction`: `depth - correction`,
/// held within `0 ..= usize::MAX`.
pub open spec fn spec_baseline(depth: int, correction: Option<isize>) -> int {
    let shifted = depth - correction_amount(correction);
    if shifted < 0 {
        0
    } else if shifted > usize::MAX {
        usize::MAX as int
    } else {
        shifted
    }
}

/// The signed shift carried by a correction; none means no shift.
pub open spec fn correction_amount(correction: Option<isize>) -> int {
    match correction {
        Some(c) => c as int,
        None => 0,
    }
}

/// Computes the baseline for an observed `depth` and an optional `correction`.
pub fn baseline_of(depth: StackDepth, correction: Option<isize>) -> (b: StackDepth)
    ensures
        b == spec_baseline(depth as int, correction),
{
    let c: i128 = match correction {
        Some(c) => c as i128,
        None => 0,
    };
    let shifted: i128 = depth as i128 - c;
    if shifted < 0 {
        0
    } else if shifted > usize::MAX as i128 {
        usize::MAX
    } else {
        shifted as usize
    }
}

/// The offset of `depth` above `baseline`; a depth at or below the baseline
/// has offset zero, never a negative one.
pub open spec fn spec_offset(depth: int, baseline: int) -> int {
    if depth < baseline {
        0
    } else {
        depth - baseline
    }
}

/// Table `m` after recording a baseline for `thread` from `depth` and
/// `correction`: the first baseline of a thread is kept, later ones are ignored.
pub open spec fn with_baseline(
    m: Map<u64, usize>,
    thread: u64,
    depth: int,
    correction: Option<isize>,
) -> Map<u64, usize> {
    if m.contains_key(thread) {
        m
    } else {
        m.insert(thread, spec_baseline(depth, correction) as usize)
    }
}

/// The offset of `thread` at `depth` in table `m`. A thread without a baseline
/// takes the depth itself as its baseline, so its offset is zero.
pub open spec fn offset_in(m: Map<u64, usize>, thread: u64, depth: int) -> int {
    if m.contains_key(thread) {
        spec_offset(depth, m[thread] as int)
    } else {
        0
    }
}

/// Computes the offset of `depth` above `baseline`, never below zero.
pub fn offset_of(depth: StackDepth, baseline: StackDepth) -> (off: StackDepth)
    ensures
        off == spec_offset(depth as int, baseline as int),
        depth < baseline ==> off == 0,
{
    if depth < baseline {
        0
    } else {
        depth - baseline
    }
}

/// From a depth at or above a thread's baseline, an offset taken one call
/// deeper is one larger.
pub proof fn lemma_offset_one_deeper(m: Map<u64, usize>, thread: u64, depth: int)
    requires
        m.contains_key(thread),
        depth >= m[thread],
    ensures
        offset_in(m, thread, depth + 1) == offset_in(m, thread, depth) + 1,
{
}

/// Only the first baseline recorded for a thread counts: recording another
/// one, from any depth and with any correction, changes nothing.
pub proof fn lemma_first_baseline_kept(
    m: Map<u64, usize>,
    thread: u64,
    first_depth: int,
    first_correction: Option<isize>,
    later_depth: int,
    later_correction: Option<isize>,
)
    ensures
        ({
            let once = with_baseline(m, thread, first_depth, first_correction);
            &&& with_baseline(once, thread, later_depth, later_correction) == once
            &&& once[thread] == (if m.contains_key(thread) {
                m[thread]
            } else {
                spec_baseline(first_depth, first_correction) as usize
            })
        }),
{
}

/// An offset is never negative; at a depth below the thread's baseline it is
/// zero.
pub proof fn lemma_offset_not_negative(m: Map<u64, usize>, thread: u64, depth: int)
    ensures
        offset_in(m, thread, depth) >= 0,
        m.contains_key(thread) && depth < m[thread] ==> offset_in(m, thread, depth) == 0,
{
}

/// Threads do not affect each other: recording a baseline for one thread
/// leaves the offsets of every other thread as they were.
pub proof fn lemma_threads_independent(
    m: Map<u64, usize>,
    thread: u64,
    depth: int,
    correction: Option<isize>,
    other: u64,
    at: int,
)
    requires
        thread != other,
    ensures
        offset_in(with_baseline(m, thread, depth, correction), other, at) == offset_in(m, other, at),
{
}

/// A thread that records its baseline with no correction has offset one a
/// call deeper, whatever other threads have recorded.
pub proof fn lemma_new_thread_one_deeper(m: Map<u64, usize>, thread: u64, depth: usize)
    requires
        !m.contains_key(thread),
    ensures
        offset_in(with_baseline(m, thread, depth as int, None), thread, depth + 1) == 1,
        offset_in(with_baseline(m, thread, depth as int, None), thread, depth as int) == 0,
{
}

/// How an attempt to make the process-wide table available ended.
#[derive(Clone, Copy, Debug, PartialEq, Eq, Structural)]
pub enum TableSetup {
    /// The table was already there.
    Present,
    /// This attempt created it.
    Created,
    /// Another thread created it first.
    CreatedElsewhere,
    /// It could not be checked or created.
    Failed,
}

/// Whether the table can be used after `setup`. A race lost to another thread
/// counts as success; only a failure leaves the table unusable, and callers
/// then print without indentation rather than stop.
pub fn table_ready(setup: TableSetup) -> (ok: bool)
    ensures
        ok == !(setup is Failed),
{
    match setup {
        TableSetup::Failed => false,
        _ => true,
    }
}

/// Adds one frame to a running count, saturating at `usize::MAX`; the walk
/// goes on.
pub(crate) fn count_frame(count: &mut usize) -> (go_on: bool)
    ensures
        go_on,
        *final(count) == (if *old(count) < usize::MAX {
            *old(count) + 1
        } else {
            *old(count) as int
        }),
{
    if *count < usize::MAX {
        *count = *count + 1;
    }
    true
}

/// Relies on `backtrace::trace`, which walks the calling thread's stack and
/// hands each active frame to the closure until the closure returns `false`.
/// The number of frames depends on the machine, the build and inlining, so
/// nothing is stated of it; a walk that finds no frame gives zero.
///
/// Always inlined, so that the frame counted last is that of its caller.
#[verifier::external_body]
#[inline(always)]
fn stack_depth() -> (depth: StackDepth) {
    let mut depth: StackDepth = 0;
    backtrace::trace(|_frame| count_frame(&mut depth));
    depth
}

/// The baselines of the threads seen so far, each keyed by a number that
/// identifies its thread. A baseline, once recorded, never changes.
pub struct BaselineTable {
    map: HashMap<u64, usize>,
}

impl View for BaselineTable {
    type V = Map<u64, usize>;

    closed spec fn view(&self) -> Map<u64, usize> {
        self.map@
    }
}

impl BaselineTable {
    /// An empty table.
    pub fn new() -> (t: BaselineTable)
        ensures
            t@ == Map::<u64, usize>::empty(),
    {
        BaselineTable { map: HashMap::new() }
    }

    /// Whether `thread` has a baseline.
    pub fn has_baseline(&self, thread: u64) -> (r: bool)
        ensures
            r == self@.contains_key(thread),
    {
        self.map.contains_key(&thread)
    }

    /// The baseline of `thread`, if one was recorded.
    pub fn baseline(&self, thread: u64) -> (r: Option<usize>)
        ensures
            r == (if self@.contains_key(thread) {
                Some(self@[thread])
            } else {
                None
            }),
    {
        match self.map.get(&thread) {
            Some(b) => Some(*b),
            None => None,
        }
    }

    /// Records `max(0, depth - correction)` as the baseline of `thread`,
    /// unless `thread` already has one, in which case nothing changes.
    pub fn set_baseline(&mut self, thread: u64, depth: StackDepth, correction: Option<isize>)
        ensures
            final(self)@ == with_baseline(old(self)@, thread, depth as int, correction),
    {
        if self.map.contains_key(&thread) {
            return;
        }
        let b = baseline_of(depth, correction);
        self.map.insert(thread, b);
    }

    /// The offset of `thread` at `depth`: the depth above the thread's
    /// baseline, zero where the depth is at or below it or where the thread
    /// has no baseline.
    pub fn offset_at(&self, thread: u64, depth: StackDepth) -> (off: StackDepth)
        ensures
            off == offset_in(self@, thread, depth as int),
    {
        match self.map.get(&thread) {
            Some(b) => offset_of(depth, *b),
            None => 0,
        }
    }

    /// Records the depth of the caller, shifted by `correction`, as the
    /// baseline of `thread`, unless `thread` already has a baseline: only the
    /// first call for a thread has an effect. A positive correction moves all
    /// later indentation of the thread to the right, a negative one to the
    /// left.
    #[inline(never)]
    pub fn stack_offset_set(&mut self, thread: u64, correction: Option<isize>)
        ensures
            exists|d: usize| final(self)@ == with_baseline(old(self)@, thread, d as int, correction),
            old(self)@.contains_key(thread) ==> final(self)@ == old(self)@,
            final(self)@.contains_key(thread),
    {
        if self.has_baseline(thread) {
            assert(self@ == with_baseline(self@, thread, 0, correction));
            return;
        }
        let mut depth = stack_depth();
        // the frame of this function is not part of the caller's depth
        if depth > 0 {
            depth = depth - 1;
        }
        self.set_baseline(thread, depth, correction);
    }

    /// The offset of the caller of this function for `thread`. A thread
    /// without a baseline first gets one at the caller's depth, so that its
    /// first offset is zero.
    #[inline(never)]
    pub fn stack_offset(&mut self, thread: u64) -> (off: StackDepth)
        ensures
            exists|d: usize| final(self)@ == with_baseline(old(self)@, thread, d as int, Some(1)),
            old(self)@.contains_key(thread) ==> final(self)@ == old(self)@,
            final(self)@.contains_key(thread),
            exists|d: usize| off == offset_in(final(self)@, thread, d as int),
    {
        // one frame deeper than this function: corrected by one
        self.stack_offset_set(thread, Some(1));
        let mut depth = stack_depth();
        if depth > 0 {
            depth = depth - 1;
        }
        self.offset_at(thread, depth)
    }

    /// The offset of the caller of this function for `thread`, with no change
    /// to the table; zero where `thread` has no baseline.
    #[inline(never)]
    pub fn current_offset(&self, thread: u64) -> (off: StackDepth)
        ensures
            exists|d: usize| off == offset_in(self@, thread, d as int),
            !self@.contains_key(thread) ==> off == 0,
    {
        let mut depth = stack_depth();
        if depth > 0 {
            depth = depth - 1;
        }
        self.offset_at(thread, depth)
    }
}

} // verus!
