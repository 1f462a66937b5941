//! The transaction reconciler: given a confirmed transaction, the prior
//! transaction referenced by its first input, and the confirming block,
//! derive funding output, recipient and change outputs, and the fee.
//!
//! Output classification follows a last-write discipline: among the outputs
//! whose script resolves to an address, the last one equal to the known
//! destination address fills the recipient slot, and the last one different
//! from it fills the change slot. Outputs without a resolvable address are
//! skipped, not errors.

use vstd::prelude::*;

use crate::records::BlockRecord;
use crate::records::ReconcileError;
use crate::records::ReconciledTransfer;
use crate::records::TransactionRecord;
use crate::records::TxOutput;

verus! {

/// The last output whose resolved address equals `dest`, as the pair of that
/// address and its value, if any such output exists.
pub open spec fn recipient_slot(outs: Seq<TxOutput>, dest: Seq<char>) -> Option<(Seq<char>, u64)>
    decreases outs.len(),
{
    if outs.len() == 0 {
        None
    } else {
        match outs.last().address {
            Some(a) => if a@ == dest {
                Some((a@, outs.last().value_sats))
            } else {
                recipient_slot(outs.drop_last(), dest)
            },
            None => recipient_slot(outs.drop_last(), dest),
        }
    }
}

/// The last output whose resolved address differs from `dest`, as the pair
/// of that address and its value, if any such output exists.
pub open spec fn change_slot(outs: Seq<TxOutput>, dest: Seq<char>) -> Option<(Seq<char>, u64)>
    decreases outs.len(),
{
    if outs.len() == 0 {
        None
    } else {
        match outs.last().address {
            Some(a) => if a@ != dest {
                Some((a@, outs.last().value_sats))
            } else {
                change_slot(outs.drop_last(), dest)
            },
            None => change_slot(outs.drop_last(), dest),
        }
    }
}

/// The address held by a slot; the empty sequence when the slot is empty.
pub open spec fn slot_addr(s: Option<(Seq<char>, u64)>) -> Seq<char> {
    match s {
        Some(p) => p.0,
        None => Seq::empty(),
    }
}

/// The value held by a slot; zero when the slot is empty.
pub open spec fn slot_sats(s: Option<(Seq<char>, u64)>) -> u64 {
    match s {
        Some(p) => p.1,
        None => 0,
    }
}

/// The funding output: the output of the prior transaction referenced by the
/// first input of `tx`. Meaningful only when the reference is in range.
pub open spec fn funding_output(tx: TransactionRecord, prev_tx: TransactionRecord) -> TxOutput {
    prev_tx.outputs@[tx.inputs@[0].prev_vout as int]
}

/// The first reason to refuse a reconciliation, checked in a fixed order;
/// `None` when the transfer can be reconciled.
pub open spec fn reconcile_check(
    tx: TransactionRecord,
    prev_tx: TransactionRecord,
    block: BlockRecord,
    dest: Seq<char>,
) -> Option<ReconcileError> {
    if !block.spec_contains_tx(tx.txid@) {
        Some(ReconcileError::NotInConfirmingBlock)
    } else if tx.inputs@.len() == 0 {
        Some(ReconcileError::MissingInput)
    } else if tx.inputs@[0].prev_txid@ != prev_tx.txid@ {
        Some(ReconcileError::PriorTransactionMismatch)
    } else if tx.inputs@[0].prev_vout >= prev_tx.outputs@.len() {
        Some(ReconcileError::OutputIndexOutOfRange)
    } else if funding_output(tx, prev_tx).address is None {
        Some(ReconcileError::FundingAddressUnresolved)
    } else if funding_output(tx, prev_tx).value_sats
        < slot_sats(recipient_slot(tx.outputs@, dest)) + slot_sats(change_slot(tx.outputs@, dest)) {
        Some(ReconcileError::NegativeFee)
    } else {
        None
    }
}

/// The recipient and change slots of a transaction's outputs, as executable
/// values: the last-write winner of each classification.
pub struct Classification {
    /// Address of the recipient output; empty when no output pays `dest`.
    pub recipient_address: String,
    /// Value of the recipient output; zero when no output pays `dest`.
    pub recipient_sats: u64,
    /// Address of the change output; empty when no resolved output differs
    /// from `dest`.
    pub change_address: String,
    /// Value of the change output; zero when no resolved output differs
    /// from `dest`.
    pub change_sats: u64,
}

/// Walk the outputs in order and fill the recipient and change slots,
/// overwriting on every match so that the last write wins.
pub fn classify_outputs(outputs: &Vec<TxOutput>, dest: &String) -> (c: Classification)
    ensures
        c.recipient_address@ == slot_addr(recipient_slot(outputs@, dest@)),
        c.recipient_sats == slot_sats(recipient_slot(outputs@, dest@)),
        c.change_address@ == slot_addr(change_slot(outputs@, dest@)),
        c.change_sats == slot_sats(change_slot(outputs@, dest@)),
{
    let mut recipient_address = String::new();
    let mut recipient_sats: u64 = 0;
    let mut change_address = String::new();
    let mut change_sats: u64 = 0;
    let mut i: usize = 0;
    while i < outputs.len()
        invariant
            i <= outputs@.len(),
            recipient_address@ == slot_addr(recipient_slot(outputs@.subrange(0, i as int), dest@)),
            recipient_sats == slot_sats(recipient_slot(outputs@.subrange(0, i as int), dest@)),
            change_address@ == slot_addr(change_slot(outputs@.subrange(0, i as int), dest@)),
            change_sats == slot_sats(change_slot(outputs@.subrange(0, i as int), dest@)),
        decreases outputs@.len() - i,
    {
        let o = &outputs[i];
        match &o.address {
            Some(a) => {
                if a.eq(dest) {
                    recipient_address = a.clone();
                    recipient_sats = o.value_sats;
                } else {
                    change_address = a.clone();
                    change_sats = o.value_sats;
                }
            },
            None => {},
        }
        proof {
            assert(outputs@.subrange(0, i + 1 as int).drop_last() =~= outputs@.subrange(
                0,
                i as int,
            ));
            assert(outputs@.subrange(0, i + 1 as int).last() == outputs@[i as int]);
        }
        i = i + 1;
    }
    proof {
        assert(outputs@.subrange(0, i as int) =~= outputs@);
    }
    Classification { recipient_address, recipient_sats, change_address, change_sats }
}

/// Reconcile one confirmed transfer.
///
/// `tx` is the transaction under reconciliation, `prev_tx` the transaction
/// referenced by its first input, `block` the confirming block, and `dest`
/// the canonical destination address the transfer was sent to. On success
/// the report carries the funding output's address and value, the classified
/// recipient and change slots, the fee as the exact integer difference, and
/// the confirming block's height and id. Every refused input is mapped to
/// the first failing check; no partial report is produced.
pub fn reconcile(
    tx: &TransactionRecord,
    prev_tx: &TransactionRecord,
    block: &BlockRecord,
    dest: &String,
) -> (r: Result<ReconciledTransfer, ReconcileError>)
    ensures
        r is Ok <==> reconcile_check(*tx, *prev_tx, *block, dest@) is None,
        r is Err ==> r == Err::<ReconciledTransfer, ReconcileError>(
            reconcile_check(*tx, *prev_tx, *block, dest@)->Some_0,
        ),
        r is Ok ==> {
            let t = r->Ok_0;
            let funding = funding_output(*tx, *prev_tx);
            &&& t.txid@ == tx.txid@
            &&& t.funding_address@ == funding.address->Some_0@
            &&& t.funding_sats == funding.value_sats
            &&& t.recipient_address@ == slot_addr(recipient_slot(tx.outputs@, dest@))
            &&& t.recipient_sats == slot_sats(recipient_slot(tx.outputs@, dest@))
            &&& t.change_address@ == slot_addr(change_slot(tx.outputs@, dest@))
            &&& t.change_sats == slot_sats(change_slot(tx.outputs@, dest@))
            &&& t.fee_sats + t.recipient_sats + t.change_sats == t.funding_sats
            &&& t.funding_sats >= t.recipient_sats + t.change_sats
            &&& t.block_height == block.height
            &&& t.block_id@ == block.block_id@
        },
{
    if !block.contains_tx(&tx.txid) {
        return Err(ReconcileError::NotInConfirmingBlock);
    }
    if tx.inputs.len() == 0 {
        return Err(ReconcileError::MissingInput);
    }
    let first_input = &tx.inputs[0];
    if !first_input.prev_txid.eq(&prev_tx.txid) {
        return Err(ReconcileError::PriorTransactionMismatch);
    }
    if first_input.prev_vout >= prev_tx.outputs.len() {
        return Err(ReconcileError::OutputIndexOutOfRange);
    }
    let funding = &prev_tx.outputs[first_input.prev_vout];
    let funding_address = match &funding.address {
        Some(a) => a.clone(),
        None => {
            return Err(ReconcileError::FundingAddressUnresolved);
        },
    };
    let c = classify_outputs(&tx.outputs, dest);
    if funding.value_sats < c.recipient_sats {
        return Err(ReconcileError::NegativeFee);
    }
    let after_recipient = funding.value_sats - c.recipient_sats;
    if after_recipient < c.change_sats {
        return Err(ReconcileError::NegativeFee);
    }
    let fee_sats = after_recipient - c.change_sats;
    Ok(
        ReconciledTransfer {
            txid: tx.txid.clone(),
            funding_address,
            funding_sats: funding.value_sats,
            recipient_address: c.recipient_address,
            recipient_sats: c.recipient_sats,
            change_address: c.change_address,
            change_sats: c.change_sats,
            fee_sats,
            block_height: block.height,
            block_id: block.block_id.clone(),
        },
    )
}

/// Law: outputs without a resolvable address never fill a slot. A
/// transaction with zero addressed outputs yields empty recipient and
/// change addresses, zero recipient and change amounts, and hence — by the
/// contract of `reconcile` — a fee equal to the full funding amount.
pub proof fn lemma_no_resolvable_outputs(outs: Seq<TxOutput>, dest: Seq<char>)
    requires
        forall|k: int| 0 <= k < outs.len() ==> outs[k].address is None,
    ensures
        recipient_slot(outs, dest) is None,
        change_slot(outs, dest) is None,
        slot_addr(recipient_slot(outs, dest)) == Seq::<char>::empty(),
        slot_sats(recipient_slot(outs, dest)) == 0,
        slot_addr(change_slot(outs, dest)) == Seq::<char>::empty(),
        slot_sats(change_slot(outs, dest)) == 0,
    decreases outs.len(),
{
    if outs.len() > 0 {
        lemma_no_resolvable_outputs(outs.drop_last(), dest);
    }
}

/// Law: wherever exactly one output pays the destination address, the
/// recipient slot binds to that output's address and value, regardless of
/// where it stands in the output order.
pub proof fn lemma_unique_recipient(outs: Seq<TxOutput>, dest: Seq<char>, i: int)
    requires
        0 <= i < outs.len(),
        outs[i].address is Some,
        outs[i].address->Some_0@ == dest,
        forall|k: int|
            0 <= k < outs.len() && k != i ==> !(outs[k].address is Some
                && outs[k].address->Some_0@ == dest),
    ensures
        recipient_slot(outs, dest) == Some((dest, outs[i].value_sats)),
    decreases outs.len(),
{
    if i < outs.len() - 1 {
        lemma_unique_recipient(outs.drop_last(), dest, i);
    }
}

/// Law: wherever exactly one output resolves to an address other than the
/// destination, the change slot binds to that output's address and value,
/// regardless of where it stands in the output order.
pub proof fn lemma_unique_change(outs: Seq<TxOutput>, dest: Seq<char>, i: int)
    requires
        0 <= i < outs.len(),
        outs[i].address is Some,
        outs[i].address->Some_0@ != dest,
        forall|k: int|
            0 <= k < outs.len() && k != i ==> !(outs[k].address is Some
                && outs[k].address->Some_0@ != dest),
    ensures
        change_slot(outs, dest) == Some((outs[i].address->Some_0@, outs[i].value_sats)),
    decreases outs.len(),
{
    if i < outs.len() - 1 {
        lemma_unique_change(outs.drop_last(), dest, i);
    }
}

} // verus!
