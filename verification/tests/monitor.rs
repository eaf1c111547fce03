use address_monitor::chain::{BlockBody, BlockHeader, Transaction};
use address_monitor::config::{banner_lines, usage_lines, AppState};
use address_monitor::decimal::decimal_string;
use address_monitor::pipeline::{block_announcement, header_fetch_request, process_block, Delivery};
use address_monitor::report::{block_report_lines, txn_record_lines};

fn tx(hash: &str, from: &str, to: Option<&str>, input: &str, value: u128) -> Transaction {
    Transaction {
        hash: hash.to_string(),
        from: from.to_string(),
        to: to.map(|s| s.to_string()),
        input: input.to_string(),
        value,
    }
}

#[test]
fn usage_error_on_zero_one_or_three_args() {
    let zero: Vec<String> = vec![];
    let one = vec!["0xabc".to_string()];
    let three = vec![
        "0xabc".to_string(),
        "ws://localhost:8545".to_string(),
        "extra".to_string(),
    ];
    assert!(AppState::new(&zero).is_none());
    assert!(AppState::new(&one).is_none());
    assert!(AppState::new(&three).is_none());
}

#[test]
fn two_args_build_the_state() {
    let args = vec!["0xAbC".to_string(), "ws://localhost:8545".to_string()];
    let state = AppState::new(&args).unwrap();
    assert_eq!(state.get_watch_address(), "0xAbC");
    assert_eq!(state.get_endpoint(), "ws://localhost:8545");
}

#[test]
fn usage_message_text() {
    let lines = usage_lines();
    assert_eq!(
        lines,
        vec![
            "________________________________________________________".to_string(),
            "Invalid arguments provided :(".to_string(),
            "Example:".to_string(),
            "./address-monitor REPLACE_ADDRESS_HERE YOUR_WSS_RPC_URL".to_string(),
            "________________________________________________________".to_string(),
        ]
    );
}

#[test]
fn banner_names_the_address() {
    let lines = banner_lines("0xabc");
    assert_eq!(lines.len(), 2);
    assert_eq!(lines[0], "Listening for new blocks... :)");
    assert_eq!(lines[1], "Waching incoming txns for : 0xabc");
}

#[test]
fn decimal_notation() {
    assert_eq!(decimal_string(0), "0");
    assert_eq!(decimal_string(5), "5");
    assert_eq!(decimal_string(100), "100");
    assert_eq!(decimal_string(90537), "90537");
    assert_eq!(
        decimal_string(u128::MAX),
        "340282366920938463463374607431768211455"
    );
}

#[test]
fn one_fetch_per_numbered_header() {
    assert_eq!(
        header_fetch_request(&BlockHeader { number: Some(100) }),
        Some(100)
    );
    assert_eq!(header_fetch_request(&BlockHeader { number: None }), None);
}

#[test]
fn record_format_is_exact() {
    let t = tx("0x11", "0xDEF", Some("0xABC"), "0x", 5);
    let lines = txn_record_lines(&t);
    assert_eq!(
        lines,
        vec![
            "------------------".to_string(),
            "Transaction Hash: 0x11".to_string(),
            "From: 0xDEF".to_string(),
            "To: 0xABC".to_string(),
            "Tx 0x".to_string(),
            "Value: 5".to_string(),
            "------------------".to_string(),
        ]
    );
}

#[test]
fn matching_is_case_insensitive() {
    // Would fail if the case folding handed its argument back unchanged.
    let body = BlockBody {
        transactions: vec![tx("0x11", "0xDEF", Some("0xABC"), "0x", 5)],
    };
    let report = block_report_lines(&body, "0xabc");
    assert_eq!(report.len(), 7);
    let report_upper_watch = block_report_lines(&body, "0XABC");
    assert_eq!(report_upper_watch.len(), 7);
}

#[test]
fn missing_recipient_never_matches_and_never_crashes() {
    let body = BlockBody {
        transactions: vec![
            tx("0x10", "0xDEF", None, "0x", 1),
            tx("0x11", "0xDEF", Some("0xABC"), "0x", 2),
        ],
    };
    let report = block_report_lines(&body, "0xabc");
    assert_eq!(report.len(), 7);
    assert_eq!(report[1], "Transaction Hash: 0x11");
}

#[test]
fn records_keep_the_block_transaction_order() {
    let body = BlockBody {
        transactions: vec![
            tx("0x01", "0xAA", Some("0xabc"), "0x", 1),
            tx("0x02", "0xBB", Some("0xFFF"), "0x", 2),
            tx("0x03", "0xCC", Some("0xABC"), "0x", 3),
        ],
    };
    let report = block_report_lines(&body, "0xABC");
    assert_eq!(report.len(), 14);
    assert_eq!(report[1], "Transaction Hash: 0x01");
    assert_eq!(report[8], "Transaction Hash: 0x03");
}

#[test]
fn duplicate_delivery_reports_twice() {
    let delivery = Delivery {
        header: BlockHeader { number: Some(100) },
        fetched: Some(BlockBody {
            transactions: vec![tx("0x11", "0xDEF", Some("0xABC"), "0x", 5)],
        }),
    };
    let once = process_block(&delivery, "0xabc");
    let again = process_block(&delivery, "0xabc");
    assert_eq!(once, again);
    assert_eq!(once.len(), 8);
}

#[test]
fn end_to_end_matching_block() {
    let delivery = Delivery {
        header: BlockHeader { number: Some(100) },
        fetched: Some(BlockBody {
            transactions: vec![tx("0x11", "0xDEF", Some("0xABC"), "0x", 5)],
        }),
    };
    let lines = process_block(&delivery, "0xabc");
    assert_eq!(lines[0], "Block: 100");
    assert!(lines.iter().any(|l| l == "To: 0xABC"));
    assert!(lines.iter().any(|l| l == "Value: 5"));
}

#[test]
fn end_to_end_non_matching_block() {
    let delivery = Delivery {
        header: BlockHeader { number: Some(100) },
        fetched: Some(BlockBody {
            transactions: vec![tx("0x11", "0xDEF", Some("0xABC"), "0x", 5)],
        }),
    };
    let lines = process_block(&delivery, "0xFFF");
    assert_eq!(lines, vec!["Block: 100".to_string()]);
}

#[test]
fn failed_fetch_is_silently_dropped() {
    let delivery = Delivery {
        header: BlockHeader { number: Some(7) },
        fetched: None,
    };
    let lines = process_block(&delivery, "0xabc");
    assert_eq!(lines, vec!["Block: 7".to_string()]);
}

#[test]
fn header_without_number_is_skipped() {
    let delivery = Delivery {
        header: BlockHeader { number: None },
        fetched: None,
    };
    let lines = process_block(&delivery, "0xabc");
    assert!(lines.is_empty());
}

#[test]
fn block_announcement_text() {
    assert_eq!(block_announcement(100), "Block: 100");
}
