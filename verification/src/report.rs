//! The report: one reconciled transfer laid out as a fixed-order sequence
//! of text lines. The order is the schema — no header, no delimiters —
//! and amounts appear in display units while all arithmetic behind them
//! was integer.

use vstd::prelude::*;

use crate::amount::coin_display;
use crate::amount::coin_display_string;
use crate::amount::dec_digits;
use crate::amount::u64_digits;
use crate::records::ReconciledTransfer;

verus! {

/// The ten lines of the report, in their fixed order: transaction id,
/// funding address, funding amount, recipient address, recipient amount,
/// change address, change amount, fee (all amounts in display units),
/// confirming block height, confirming block id.
pub fn report_lines(t: &ReconciledTransfer) -> (lines: Vec<String>)
    ensures
        lines@.len() == 10,
        lines@[0]@ == t.txid@,
        lines@[1]@ == t.funding_address@,
        lines@[2]@ == coin_display(t.funding_sats as nat),
        lines@[3]@ == t.recipient_address@,
        lines@[4]@ == coin_display(t.recipient_sats as nat),
        lines@[5]@ == t.change_address@,
        lines@[6]@ == coin_display(t.change_sats as nat),
        lines@[7]@ == coin_display(t.fee_sats as nat),
        lines@[8]@ == dec_digits(t.block_height as nat),
        lines@[9]@ == t.block_id@,
{
    let mut lines: Vec<String> = Vec::new();
    lines.push(t.txid.clone());
    lines.push(t.funding_address.clone());
    lines.push(coin_display_string(t.funding_sats));
    lines.push(t.recipient_address.clone());
    lines.push(coin_display_string(t.recipient_sats));
    lines.push(t.change_address.clone());
    lines.push(coin_display_string(t.change_sats));
    lines.push(coin_display_string(t.fee_sats));
    lines.push(u64_digits(t.block_height));
    lines.push(t.block_id.clone());
    lines
}

} // verus!
