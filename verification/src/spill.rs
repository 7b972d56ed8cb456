//! Coordination of the hash-join build processors that spill to disk.
//!
//! When one builder needs to spill, all builders stop and wait; the last one
//! to arrive spills for all of them and wakes the others. The coordinator
//! here holds the shared counters and decides who is last; waiting for and
//! sending the wake-up is left to the caller.
use vstd::prelude::*;
use std::collections::VecDeque;

use crate::block::DataBlock;
use crate::error::ErrorCode;

verus! {

/// Coordinates all hash join build processors to spill.
pub struct BuildSpillCoordinator {
    /// Need to spill, if one of the builders need to spill, this flag will be set to true.
    pub need_spill: bool,
    /// Current waiting spilling processor count.
    pub waiting_spill_count: usize,
    /// Total processor count.
    pub total_builder_count: usize,
    /// Spill tasks, the size is the same as the total active processor count.
    pub spill_tasks: VecDeque<Vec<(u8, DataBlock)>>,
    /// If send partition set to probe
    pub send_partition_set: bool,
    /// When a build processor won't trigger spill, the field will plus one
    pub non_spill_processors: usize,
}

/// One builder arriving at the spill barrier: the waiting count goes up by
/// one; when it reaches the number of builders that take part, the count is
/// reset and the builder is told not to wait (it is the last one).
pub open spec fn wait_spill_step(count: nat, participants: int) -> (nat, bool) {
    if count + 1 == participants {
        (0, false)
    } else {
        ((count + 1) as nat, true)
    }
}

/// The waiting count after `k` builders arrived, starting from none.
pub open spec fn waiting_after(k: nat, participants: int) -> nat
    decreases k,
{
    if k == 0 {
        0
    } else {
        wait_spill_step(waiting_after((k - 1) as nat, participants), participants).0
    }
}

/// The spill barrier lets every round of `participants` builders through
/// together: after `k` arrivals the waiting count is `k % participants`
/// (so always below `participants`), and arrival `k + 1` is told not to wait
/// exactly when it completes a round.
pub proof fn lemma_spill_rounds(participants: nat, k: nat)
    requires
        participants >= 1,
    ensures
        waiting_after(k, participants as int) == (k as int) % (participants as int),
        waiting_after(k, participants as int) < participants,
        !wait_spill_step(waiting_after(k, participants as int), participants as int).1 <==> (
        k as int + 1) % (participants as int) == 0,
    decreases k,
{
    let p = participants as int;
    let ki = k as int;
    if k == 0 {
        assert(0int % p == 0) by (nonlinear_arith)
            requires
                p >= 1,
        ;
    } else {
        lemma_spill_rounds(participants, (k - 1) as nat);
        let prev = ki - 1;
        assert(waiting_after(k, p) == wait_spill_step(waiting_after((k - 1) as nat, p), p).0);
        assert(waiting_after((k - 1) as nat, p) == prev % p);
        assert(prev % p + 1 == p ==> ki % p == 0) by (nonlinear_arith)
            requires
                p >= 1,
                prev >= 0,
                ki == prev + 1,
        ;
        assert(prev % p + 1 != p ==> ki % p == prev % p + 1) by (nonlinear_arith)
            requires
                p >= 1,
                prev >= 0,
                ki == prev + 1,
        ;
    }
    assert(0 <= ki % p < p) by (nonlinear_arith)
        requires
            p >= 1,
    ;
    assert(ki % p + 1 == p <==> (ki + 1) % p == 0) by (nonlinear_arith)
        requires
            p >= 1,
            ki >= 0,
    ;
}

impl BuildSpillCoordinator {
    pub fn create(total_builder_count: usize) -> (r: BuildSpillCoordinator)
        ensures
            !r.need_spill,
            r.waiting_spill_count == 0,
            r.total_builder_count == total_builder_count,
            r.spill_tasks@.len() == 0,
            !r.send_partition_set,
            r.non_spill_processors == 0,
    {
        BuildSpillCoordinator {
            need_spill: false,
            waiting_spill_count: 0,
            total_builder_count,
            spill_tasks: VecDeque::new(),
            send_partition_set: false,
            non_spill_processors: 0,
        }
    }

    /// Called by hash join build processor, if current processor need to
    /// spill, then set `need_spill` to true.
    pub fn need_spill(&mut self) -> (r: Result<(), ErrorCode>)
        ensures
            r is Ok,
            final(self).need_spill,
            final(self).waiting_spill_count == old(self).waiting_spill_count,
            final(self).total_builder_count == old(self).total_builder_count,
            final(self).spill_tasks == old(self).spill_tasks,
            final(self).send_partition_set == old(self).send_partition_set,
            final(self).non_spill_processors == old(self).non_spill_processors,
    {
        self.need_spill = true;
        Ok(())
    }

    /// If current waiting spilling builder is the last one, then spill all
    /// builders: returns whether the caller has to wait for the spill.
    pub fn wait_spill(&mut self) -> (r: Result<bool, ErrorCode>)
        requires
            old(self).non_spill_processors <= old(self).total_builder_count,
            old(self).waiting_spill_count < usize::MAX,
        ensures
            ({
                let (count, wait) = wait_spill_step(
                    old(self).waiting_spill_count as nat,
                    old(self).total_builder_count - old(self).non_spill_processors,
                );
                &&& r == Ok::<bool, ErrorCode>(wait)
                &&& final(self).waiting_spill_count == count
            }),
            final(self).need_spill == old(self).need_spill,
            final(self).total_builder_count == old(self).total_builder_count,
            final(self).spill_tasks == old(self).spill_tasks,
            final(self).send_partition_set == old(self).send_partition_set,
            final(self).non_spill_processors == old(self).non_spill_processors,
    {
        let non_spill_processors = self.non_spill_processors;
        self.waiting_spill_count = self.waiting_spill_count + 1;
        if self.waiting_spill_count == self.total_builder_count - non_spill_processors {
            // Reset waiting_spill_count
            self.waiting_spill_count = 0;
            // No need to wait spill, the processor is the last one
            return Ok(false);
        }
        Ok(true)
    }

    /// Get the need_spill flag.
    pub fn get_need_spill(&self) -> (r: bool)
        ensures
            r == self.need_spill,
    {
        self.need_spill
    }

    /// Record that one more build processor won't trigger spill.
    pub fn add_non_spill_processor(&mut self)
        requires
            old(self).non_spill_processors < usize::MAX,
        ensures
            final(self).non_spill_processors == old(self).non_spill_processors + 1,
            final(self).need_spill == old(self).need_spill,
            final(self).waiting_spill_count == old(self).waiting_spill_count,
            final(self).total_builder_count == old(self).total_builder_count,
            final(self).spill_tasks == old(self).spill_tasks,
            final(self).send_partition_set == old(self).send_partition_set,
    {
        self.non_spill_processors = self.non_spill_processors + 1;
    }

    /// Set the need_spill flag to false.
    pub fn no_need_spill(&mut self)
        ensures
            !final(self).need_spill,
            final(self).waiting_spill_count == old(self).waiting_spill_count,
            final(self).total_builder_count == old(self).total_builder_count,
            final(self).spill_tasks == old(self).spill_tasks,
            final(self).send_partition_set == old(self).send_partition_set,
            final(self).non_spill_processors == old(self).non_spill_processors,
    {
        self.need_spill = false;
    }
}

} // verus!
