//! The funding loop: mine blocks in batches to a reward address until the
//! wallet's spendable balance becomes positive or a ceiling of generated
//! blocks is reached.
//!
//! The loop's decisions live here as a state machine; the caller performs
//! the block generation and balance queries and feeds each observed balance
//! back in. Reaching the ceiling with a zero balance is not an error: block
//! rewards mature only after a delay the client does not know a priori, so
//! the loop is deliberately tolerant and returns whatever balance is
//! present.

use vstd::prelude::*;

verus! {

/// Confirmations a block reward needs on the private test network before it
/// becomes spendable.
pub const COINBASE_MATURITY: u64 = 100;

/// How many block rewards are spendable once `blocks_mined` blocks have
/// been mined to one wallet's address: every block buried under `maturity`
/// later blocks has a mature reward.
pub fn mature_rewards(blocks_mined: u64, maturity: u64) -> (r: u64)
    ensures
        r == if blocks_mined > maturity {
            blocks_mined - maturity
        } else {
            0
        },
{
    if blocks_mined > maturity {
        blocks_mined - maturity
    } else {
        0
    }
}

/// How many generation calls the loop makes when the balance observed after
/// the n-th batch is `balances[n]`: it always mines once, then stops at the
/// first positive balance or once `ceiling` total blocks were generated.
/// A run whose balance sequence is exhausted stops there.
pub open spec fn generation_calls(balances: Seq<u64>, mined: int, batch: int, ceiling: int) -> nat
    decreases balances.len(),
{
    if balances.len() == 0 {
        0
    } else if balances[0] > 0 || mined + batch >= ceiling {
        1
    } else {
        1 + generation_calls(balances.drop_first(), mined + batch, batch, ceiling)
    }
}

/// The mining loop's state: how many blocks were generated so far, and
/// whether another batch is due.
pub struct FundingLoop {
    /// Blocks generated per iteration.
    pub batch_size: u64,
    /// Ceiling on total generated blocks before giving up.
    pub ceiling: u64,
    /// Total blocks generated so far.
    pub blocks_mined: u64,
    /// Whether the loop still wants another batch.
    pub running: bool,
}

impl FundingLoop {
    /// The loop's invariant: batches are nonempty, one more batch cannot
    /// overflow, and a running loop has not yet reached the ceiling (except
    /// before its first, unconditional batch).
    pub open spec fn wf(self) -> bool {
        &&& self.batch_size >= 1
        &&& self.ceiling <= u64::MAX - self.batch_size
        &&& self.running ==> (self.blocks_mined < self.ceiling || self.blocks_mined == 0)
    }

    /// Start a loop that will mine at least one batch.
    pub fn new(batch_size: u64, ceiling: u64) -> (fl: FundingLoop)
        requires
            batch_size >= 1,
            ceiling <= u64::MAX - batch_size,
        ensures
            fl.wf(),
            fl.batch_size == batch_size,
            fl.ceiling == ceiling,
            fl.blocks_mined == 0,
            fl.running,
    {
        FundingLoop { batch_size, ceiling, blocks_mined: 0, running: true }
    }

    /// Record one generation of `batch_size` blocks and the balance
    /// observed after it. Returns whether another batch is due: the loop
    /// stops at the first positive balance, and unconditionally once the
    /// ceiling is reached.
    pub fn observe(&mut self, balance_sats: u64) -> (more: bool)
        requires
            old(self).wf(),
            old(self).running,
        ensures
            final(self).wf(),
            final(self).batch_size == old(self).batch_size,
            final(self).ceiling == old(self).ceiling,
            final(self).blocks_mined == old(self).blocks_mined + old(self).batch_size,
            more == (balance_sats == 0 && old(self).blocks_mined + old(self).batch_size
                < old(self).ceiling),
            final(self).running == more,
    {
        self.blocks_mined = self.blocks_mined + self.batch_size;
        let more = balance_sats == 0 && self.blocks_mined < self.ceiling;
        self.running = more;
        more
    }
}

/// Replay the funding loop against a pre-recorded sequence of observed
/// balances and return how many generation calls it made. This ties the
/// executable state machine to the trace-level count `generation_calls`.
pub fn simulate_run(balances: &Vec<u64>, batch_size: u64, ceiling: u64) -> (calls: usize)
    requires
        batch_size >= 1,
        ceiling <= u64::MAX - batch_size,
    ensures
        calls == generation_calls(balances@, 0, batch_size as int, ceiling as int),
{
    let mut fl = FundingLoop::new(batch_size, ceiling);
    let mut i: usize = 0;
    let mut more = true;
    proof {
        assert(balances@.skip(0) =~= balances@);
    }
    while more && i < balances.len()
        invariant
            i <= balances@.len(),
            fl.wf(),
            fl.batch_size == batch_size,
            fl.ceiling == ceiling,
            more == fl.running,
            generation_calls(balances@, 0, batch_size as int, ceiling as int) == i + (
            if fl.running {
                generation_calls(
                    balances@.skip(i as int),
                    fl.blocks_mined as int,
                    batch_size as int,
                    ceiling as int,
                )
            } else {
                0
            }),
        decreases balances@.len() - i,
    {
        proof {
            assert(balances@.skip(i as int)[0] == balances@[i as int]);
            assert(balances@.skip(i as int).drop_first() =~= balances@.skip(i + 1 as int));
        }
        more = fl.observe(balances[i]);
        i = i + 1;
    }
    i
}

/// Law (call bound): whenever `mined + k * batch` already covers the
/// ceiling, a run from `mined` generated blocks makes at most `k`
/// generation calls, whatever balances are observed.
pub proof fn lemma_generation_call_bound(
    balances: Seq<u64>,
    mined: int,
    batch: int,
    ceiling: int,
    k: int,
)
    requires
        batch >= 1,
        k >= 1,
        mined + k * batch >= ceiling,
    ensures
        generation_calls(balances, mined, batch, ceiling) <= k,
    decreases balances.len(),
{
    if balances.len() == 0 {
    } else if balances[0] > 0 || mined + batch >= ceiling {
    } else {
        assert(k * batch - batch == (k - 1) * batch) by (nonlinear_arith);
        assert(k >= 2) by (nonlinear_arith)
            requires
                batch >= 1,
                batch < k * batch,
        ;
        lemma_generation_call_bound(balances.drop_first(), mined + batch, batch, ceiling, k - 1);
    }
}

/// Law (maturity tolerance): with a batch size of 10 and a ceiling of 110
/// generated blocks, the funding loop performs at most 11 generation calls,
/// whatever balances are observed.
pub proof fn lemma_maturity_tolerance(balances: Seq<u64>)
    ensures
        generation_calls(balances, 0, 10, 110) <= 11,
{
    lemma_generation_call_bound(balances, 0, 10, 110, 11);
}

/// Law (first positive balance stops the loop): if the balances observed
/// before step `i` are all zero and the balance at step `i` is positive,
/// the loop makes at most `i + 1` generation calls.
pub proof fn lemma_stops_at_first_positive(
    balances: Seq<u64>,
    mined: int,
    batch: int,
    ceiling: int,
    i: int,
)
    requires
        0 <= i < balances.len(),
        balances[i] > 0,
        forall|j: int| 0 <= j < i ==> balances[j] == 0,
    ensures
        generation_calls(balances, mined, batch, ceiling) <= i + 1,
    decreases i,
{
    if i > 0 && !(balances[0] > 0 || mined + batch >= ceiling) {
        lemma_stops_at_first_positive(balances.drop_first(), mined + batch, batch, ceiling, i - 1);
    }
}

/// Law (the loop stops exactly at the first positive balance): as long as
/// the ceiling is not reached on the way, a run whose first positive
/// balance is observed at step `i` makes exactly `i + 1` generation calls —
/// it neither gives up earlier nor mines further.
pub proof fn lemma_stops_exactly_at_first_positive(
    balances: Seq<u64>,
    mined: int,
    batch: int,
    ceiling: int,
    i: int,
)
    requires
        0 <= i < balances.len(),
        balances[i] > 0,
        forall|j: int| 0 <= j < i ==> balances[j] == 0,
        forall|j: int| 0 <= j < i ==> mined + #[trigger] ((j + 1) * batch) < ceiling,
    ensures
        generation_calls(balances, mined, batch, ceiling) == i + 1,
    decreases i,
{
    if i > 0 {
        assert(mined + (0 + 1) * batch < ceiling);
        assert((0 + 1) * batch == batch) by (nonlinear_arith);
        assert(mined + batch < ceiling);
        assert forall|j: int| 0 <= j < i - 1 implies (mined + batch) + #[trigger] ((j + 1) * batch)
            < ceiling by {
            assert(mined + ((j + 1) + 1) * batch < ceiling);
            assert(((j + 1) + 1) * batch == (j + 1) * batch + batch) by (nonlinear_arith);
        }
        lemma_stops_exactly_at_first_positive(
            balances.drop_first(),
            mined + batch,
            batch,
            ceiling,
            i - 1,
        );
    }
}

} // verus!
