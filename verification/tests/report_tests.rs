use block_explorer::record::Block;
use block_explorer::record::Input;
use block_explorer::record::Output;
use block_explorer::record::Transaction;
use block_explorer::report::block_report;
use block_explorer::report::LISTED;

fn input() -> Input {
    Input { sequence: 0, witness: String::new(), script: String::new(), index: 0, prev_out: None }
}

fn output() -> Output {
    Output {
        output_type: 0,
        spent: false,
        value: 0,
        spending_outpoints: vec![],
        n: 0,
        tx_index: 0,
        script: String::new(),
        addr: None,
    }
}

fn transaction(i: u32) -> Transaction {
    Transaction {
        hash: format!("tx{}", i),
        ver: i + 10,
        inputs: (0..i).map(|_| input()).collect(),
        out: (0..2 * i).map(|_| output()).collect(),
    }
}

fn block(transactions: u32) -> Block {
    Block {
        hash: "00ab".to_string(),
        ver: 536870912,
        prev_block: "00aa".to_string(),
        merkle_root: "cafe".to_string(),
        time: 1700000000,
        bits: 386089497,
        nonce: 4294967295,
        n_tx: 4000,
        size: 1234567,
        block_index: 18446744073709551615,
        main_chain: false,
        height: 0,
        received_time: 1,
        relayed_by: "pool".to_string(),
        tx: (1..=transactions).map(transaction).collect(),
    }
}

fn heading(total: usize) -> Vec<String> {
    vec![
        "".to_string(),
        "Block Information:".to_string(),
        "------------------".to_string(),
        "Block Hash: 00ab".to_string(),
        "Version: 536870912".to_string(),
        "Previous Block: 00aa".to_string(),
        "Merkle Root: cafe".to_string(),
        "Timestamp: 1700000000".to_string(),
        "Bits: 386089497".to_string(),
        "Nonce: 4294967295".to_string(),
        "Number of Transactions: 4000".to_string(),
        "Block Size: 1234567 bytes".to_string(),
        "Block Index: 18446744073709551615".to_string(),
        "Is Main Chain: false".to_string(),
        "Block Height: 0".to_string(),
        "".to_string(),
        "Transactions Summary:".to_string(),
        "--------------------".to_string(),
        format!("Total Transactions: {}", total),
    ]
}

fn entry(i: u32) -> Vec<String> {
    vec![
        "".to_string(),
        format!("Transaction #{}", i),
        format!("Hash: tx{}", i),
        format!("Version: {}", i + 10),
        format!("Input Count: {}", i),
        format!("Output Count: {}", 2 * i),
    ]
}

#[test]
fn eight_transactions_show_five_and_three_more() {
    let lines = block_report(&block(8));
    let mut expected = heading(8);
    for i in 1..=5 {
        expected.extend(entry(i));
    }
    expected.push("".to_string());
    expected.push("... and 3 more transactions".to_string());
    assert_eq!(lines, expected);
    assert_eq!(lines.iter().filter(|l| l.starts_with("Transaction #")).count(), 5);
}

#[test]
fn five_transactions_are_all_shown() {
    let lines = block_report(&block(5));
    let mut expected = heading(5);
    for i in 1..=5 {
        expected.extend(entry(i));
    }
    assert_eq!(lines, expected);
}

#[test]
fn six_transactions_leave_one_out() {
    let lines = block_report(&block(6));
    assert_eq!(lines.len(), 19 + 6 * LISTED + 2);
    assert_eq!(lines.last().unwrap(), "... and 1 more transactions");
    assert!(!lines.contains(&"Transaction #6".to_string()));
}

#[test]
fn two_transactions_are_shown_in_order() {
    let lines = block_report(&block(2));
    let mut expected = heading(2);
    expected.extend(entry(1));
    expected.extend(entry(2));
    assert_eq!(lines, expected);
}

#[test]
fn a_block_without_transactions_shows_its_heading() {
    assert_eq!(block_report(&block(0)), heading(0));
}

#[test]
fn a_block_on_the_main_chain_says_true() {
    let mut on_chain = block(0);
    on_chain.main_chain = true;
    assert_eq!(block_report(&on_chain)[13], "Is Main Chain: true");
}

#[test]
fn many_transactions_are_counted() {
    let lines = block_report(&block(120));
    assert_eq!(lines[18], "Total Transactions: 120");
    assert_eq!(lines.len(), 19 + 30 + 2);
    assert_eq!(lines.last().unwrap(), "... and 115 more transactions");
}
