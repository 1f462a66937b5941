use reconciler::amount::coin_display_string;
use reconciler::funding::{mature_rewards, simulate_run, COINBASE_MATURITY};
use reconciler::reconcile::reconcile;
use reconciler::records::{BlockRecord, TransactionRecord, TxInput, TxOutput};
use reconciler::report::report_lines;

#[test]
fn full_workflow_scenario() {
    // Mine one block at a time to address M: the balance first turns
    // positive at 101 blocks, when the first reward matures.
    let mut balances: Vec<u64> = Vec::new();
    for mined in 1..=150u64 {
        balances.push(mature_rewards(mined, COINBASE_MATURITY) * 5_000_000_000);
    }
    let calls = simulate_run(&balances, 1, 150);
    assert_eq!(calls, 101);
    assert!(balances[calls - 1] > 0);

    // Send 20 display units from wallet Miner to address T: the wallet
    // spends the matured 50-coin reward, pays 20 coins to T, and returns
    // the rest minus the fee to a change address.
    let coinbase = TransactionRecord {
        txid: "coinbase1".to_string(),
        inputs: Vec::new(),
        outputs: vec![TxOutput {
            address: Some("M".to_string()),
            value_sats: 5_000_000_000,
        }],
    };
    let transfer = TransactionRecord {
        txid: "transfer".to_string(),
        inputs: vec![TxInput {
            prev_txid: "coinbase1".to_string(),
            prev_vout: 0,
        }],
        outputs: vec![
            TxOutput {
                address: Some("T".to_string()),
                value_sats: 2_000_000_000,
            },
            TxOutput {
                address: Some("Mchange".to_string()),
                value_sats: 2_999_998_500,
            },
        ],
    };

    // Confirm with one more block and reconcile.
    let block = BlockRecord {
        block_id: "blockhash102".to_string(),
        height: 102,
        txids: vec!["coinbase102".to_string(), "transfer".to_string()],
    };
    let dest = "T".to_string();
    let r = reconcile(&transfer, &coinbase, &block, &dest).unwrap();

    // The report's recipient amount equals exactly 20 display units and
    // the recipient address equals T.
    assert_eq!(r.recipient_address, "T");
    assert_eq!(r.recipient_sats, 2_000_000_000);
    assert_eq!(coin_display_string(r.recipient_sats), "20");
    assert_eq!(r.fee_sats, 1_500);
    assert_eq!(r.block_height, 102);
}

#[test]
fn report_has_ten_lines_in_fixed_order() {
    let prev = TransactionRecord {
        txid: "prev".to_string(),
        inputs: Vec::new(),
        outputs: vec![TxOutput {
            address: Some("miner".to_string()),
            value_sats: 5_000_000_000,
        }],
    };
    let tx = TransactionRecord {
        txid: "spend".to_string(),
        inputs: vec![TxInput {
            prev_txid: "prev".to_string(),
            prev_vout: 0,
        }],
        outputs: vec![
            TxOutput {
                address: Some("to".to_string()),
                value_sats: 2_000_000_000,
            },
            TxOutput {
                address: Some("back".to_string()),
                value_sats: 2_999_998_500,
            },
        ],
    };
    let block = BlockRecord {
        block_id: "blk".to_string(),
        height: 102,
        txids: vec!["spend".to_string()],
    };
    let dest = "to".to_string();
    let r = reconcile(&tx, &prev, &block, &dest).unwrap();
    let lines = report_lines(&r);
    assert_eq!(
        lines,
        vec![
            "spend".to_string(),
            "miner".to_string(),
            "50".to_string(),
            "to".to_string(),
            "20".to_string(),
            "back".to_string(),
            "29.999985".to_string(),
            "0.000015".to_string(),
            "102".to_string(),
            "blk".to_string(),
        ]
    );
}
