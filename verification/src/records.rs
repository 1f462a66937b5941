//! Data model for the reconciliation workflow: transaction and block records
//! as plain values, and the derived report.

use vstd::prelude::*;

verus! {

/// One input of a transaction: a reference to a prior transaction's output.
pub struct TxInput {
    /// Identifier of the transaction that created the consumed output.
    pub prev_txid: String,
    /// Index of the consumed output within that prior transaction.
    pub prev_vout: usize,
}

/// One output of a transaction: a value and, where the script resolves to a
/// canonical address, that address.
pub struct TxOutput {
    /// Canonical address string, if the output script resolves to one.
    /// Non-standard scripts carry no address and are skipped by
    /// classification.
    pub address: Option<String>,
    /// Value of the output in satoshis.
    pub value_sats: u64,
}

/// A confirmed transaction: its id, its inputs and its outputs, in order.
pub struct TransactionRecord {
    /// Transaction identifier.
    pub txid: String,
    /// Ordered inputs.
    pub inputs: Vec<TxInput>,
    /// Ordered outputs.
    pub outputs: Vec<TxOutput>,
}

/// A block: its id, its height, and the ids of the transactions it contains.
pub struct BlockRecord {
    /// Block identifier.
    pub block_id: String,
    /// Height of the block in the chain.
    pub height: u64,
    /// Identifiers of the transactions contained in the block.
    pub txids: Vec<String>,
}

impl BlockRecord {
    /// Whether the block contains a transaction with the given id.
    pub open spec fn spec_contains_tx(self, txid: Seq<char>) -> bool {
        exists|i: int| 0 <= i < self.txids@.len() && self.txids@[i]@ == txid
    }

    /// Membership test backing the confirmation precondition.
    pub fn contains_tx(&self, txid: &String) -> (r: bool)
        ensures
            r == self.spec_contains_tx(txid@),
    {
        let mut i: usize = 0;
        while i < self.txids.len()
            invariant
                i <= self.txids@.len(),
                forall|j: int| 0 <= j < i ==> self.txids@[j]@ != txid@,
            decreases self.txids@.len() - i,
        {
            if self.txids[i].eq(txid) {
                return true;
            }
            i = i + 1;
        }
        false
    }
}

/// The derived report for one reconciled transfer. Addresses are canonical
/// strings; an empty string stands for "no such output was found". All
/// amounts are integer satoshis.
#[derive(Debug)]
pub struct ReconciledTransfer {
    /// Identifier of the reconciled transaction.
    pub txid: String,
    /// Address that owned the funding output.
    pub funding_address: String,
    /// Value of the funding output, in satoshis.
    pub funding_sats: u64,
    /// Address of the recipient output (empty if none was found).
    pub recipient_address: String,
    /// Value of the recipient output, in satoshis (0 if none was found).
    pub recipient_sats: u64,
    /// Address of the change output (empty if none was found).
    pub change_address: String,
    /// Value of the change output, in satoshis (0 if none was found).
    pub change_sats: u64,
    /// Fee paid by the transaction, in satoshis.
    pub fee_sats: u64,
    /// Height of the confirming block.
    pub block_height: u64,
    /// Identifier of the confirming block.
    pub block_id: String,
}

/// Why a reconciliation was refused. Every variant is fatal: no partial
/// report is produced.
#[derive(Clone, Copy, Debug, PartialEq, Eq, Structural)]
pub enum ReconcileError {
    /// The transaction has no input at all.
    MissingInput,
    /// The supplied prior transaction is not the one referenced by the
    /// first input.
    PriorTransactionMismatch,
    /// The first input references an output index that the prior
    /// transaction does not have.
    OutputIndexOutOfRange,
    /// The transaction is not contained in the supplied confirming block.
    NotInConfirmingBlock,
    /// The funding output's script resolves to no address.
    FundingAddressUnresolved,
    /// The classified outputs exceed the funding value, so the fee would be
    /// negative.
    NegativeFee,
}

} // verus!
