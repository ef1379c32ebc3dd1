//! The lines that are shown for a block.

use vstd::prelude::*;
use vstd::string::StringExecFns;

use crate::record::Block;
use crate::record::BlockView;
use crate::record::Transaction;
use crate::record::TransactionView;
use crate::text::append_decimal;
use crate::text::decimal;

verus! {

/// How many transactions of a block are listed one by one.
pub const LISTED: usize = 5;

/// The text that shows a boolean.
pub open spec fn bool_text(b: bool) -> Seq<char> {
    if b {
        "true"@
    } else {
        "false"@
    }
}

/// The lines about the block itself, and the head of the summary.
pub open spec fn heading(block: BlockView) -> Seq<Seq<char>> {
    seq![
        Seq::empty(),
        "Block Information:"@,
        "------------------"@,
        "Block Hash: "@ + block.hash,
        "Version: "@ + decimal(block.ver as nat),
        "Previous Block: "@ + block.prev_block,
        "Merkle Root: "@ + block.merkle_root,
        "Timestamp: "@ + decimal(block.time as nat),
        "Bits: "@ + decimal(block.bits as nat),
        "Nonce: "@ + decimal(block.nonce as nat),
        "Number of Transactions: "@ + decimal(block.n_tx as nat),
        "Block Size: "@ + decimal(block.size as nat) + " bytes"@,
        "Block Index: "@ + decimal(block.block_index as nat),
        "Is Main Chain: "@ + bool_text(block.main_chain),
        "Block Height: "@ + decimal(block.height as nat),
        Seq::empty(),
        "Transactions Summary:"@,
        "--------------------"@,
        "Total Transactions: "@ + decimal(block.tx.len()),
    ]
}

/// The lines about one transaction; `position` counts from one.
pub open spec fn entry(position: nat, transaction: TransactionView) -> Seq<Seq<char>> {
    seq![
        Seq::empty(),
        "Transaction #"@ + decimal(position),
        "Hash: "@ + transaction.hash,
        "Version: "@ + decimal(transaction.ver as nat),
        "Input Count: "@ + decimal(transaction.inputs.len()),
        "Output Count: "@ + decimal(transaction.out.len()),
    ]
}

/// The lines about the first `count` transactions, in order.
pub open spec fn entries(transactions: Seq<TransactionView>, count: nat) -> Seq<Seq<char>>
    decreases count,
{
    if count == 0 {
        Seq::empty()
    } else {
        entries(transactions, (count - 1) as nat) + entry(count, transactions[count - 1])
    }
}

/// How many of `total` transactions are listed one by one.
pub open spec fn listed(total: nat) -> nat {
    if total <= LISTED {
        total
    } else {
        LISTED as nat
    }
}

/// The closing lines, which say how many transactions were not listed; none
/// where all were.
pub open spec fn remainder(total: nat) -> Seq<Seq<char>> {
    if total > LISTED {
        seq![
            Seq::empty(),
            "... and "@ + decimal((total - LISTED) as nat) + " more transactions"@,
        ]
    } else {
        Seq::empty()
    }
}

/// All the lines for a block.
pub open spec fn report(block: BlockView) -> Seq<Seq<char>> {
    heading(block) + entries(block.tx, listed(block.tx.len())) + remainder(block.tx.len())
}

/// The lines about `count` transactions are six apiece, and those about
/// the transaction at `i` stand in their place among them.
pub proof fn lemma_entries_in_place(transactions: Seq<TransactionView>, count: nat, i: int)
    requires
        0 <= i < count,
    ensures
        entries(transactions, count).len() == 6 * count,
        entries(transactions, count).subrange(6 * i, 6 * i + 6) == entry(
            (i + 1) as nat,
            transactions[i],
        ),
    decreases count,
{
    let front = entries(transactions, (count - 1) as nat);
    if count > 1 {
        lemma_entries_in_place(transactions, (count - 1) as nat, if i < count - 1 {
            i
        } else {
            0
        });
    } else {
        assert(front.len() == 0);
    }
    assert(front.len() == 6 * (count - 1));
    let all = entries(transactions, count);
    let own = entry(count, transactions[count - 1]);
    assert(all == front + own);
    if i < count - 1 {
        assert(all.subrange(6 * i, 6 * i + 6) =~= front.subrange(6 * i, 6 * i + 6));
    } else {
        assert(all.subrange(6 * i, 6 * i + 6) =~= own);
    }
}

/// A report lists the first five transactions and no more: after the
/// nineteen lines of the heading come six lines for each transaction listed,
/// in the block's order; then, where the block has more than five, two
/// lines, of which the last says how many were left out.
pub proof fn lemma_report_lists_five(block: BlockView)
    ensures
        listed(block.tx.len()) <= LISTED,
        report(block).len() == 19 + 6 * listed(block.tx.len()) + (if block.tx.len() > LISTED {
            2int
        } else {
            0int
        }),
        report(block).subrange(0, 19) == heading(block),
        forall|i: int|
            0 <= i < listed(block.tx.len()) ==> #[trigger] report(block).subrange(
                19 + 6 * i,
                19 + 6 * i + 6,
            ) == entry((i + 1) as nat, block.tx[i]),
        block.tx.len() > LISTED ==> report(block).last() == "... and "@ + decimal(
            (block.tx.len() - LISTED) as nat,
        ) + " more transactions"@,
{
    let total = block.tx.len();
    let shown = listed(total);
    let head = heading(block);
    let body = entries(block.tx, shown);
    let tail = remainder(total);
    assert(head.len() == 19);
    if shown > 0 {
        lemma_entries_in_place(block.tx, shown, 0);
    } else {
        assert(body.len() == 0);
    }
    assert(report(block) == head + body + tail);
    assert(report(block).subrange(0, 19) =~= head);
    assert forall|i: int| 0 <= i < shown implies #[trigger] report(block).subrange(
        19 + 6 * i,
        19 + 6 * i + 6,
    ) == entry((i + 1) as nat, block.tx[i]) by {
        lemma_entries_in_place(block.tx, shown, i);
        assert(report(block).subrange(19 + 6 * i, 19 + 6 * i + 6) =~= body.subrange(
            6 * i,
            6 * i + 6,
        ));
    }
}

/// The characters of each line.
pub open spec fn texts(lines: Seq<String>) -> Seq<Seq<char>> {
    lines.map_values(|line: String| line@)
}

fn put(lines: &mut Vec<String>, line: String)
    ensures
        texts(final(lines)@) == texts(old(lines)@).push(line@),
{
    lines.push(line);
    assert(texts(lines@) =~= texts(old(lines)@).push(line@));
}

fn put_blank(lines: &mut Vec<String>)
    ensures
        texts(final(lines)@) == texts(old(lines)@).push(Seq::empty()),
{
    put(lines, String::new());
}

fn put_fixed(lines: &mut Vec<String>, line: &str)
    ensures
        texts(final(lines)@) == texts(old(lines)@).push(line@),
{
    put(lines, String::from_str(line));
}

fn put_text(lines: &mut Vec<String>, label: &str, value: &str)
    ensures
        texts(final(lines)@) == texts(old(lines)@).push(label@ + value@),
{
    let mut line = String::from_str(label);
    line.append(value);
    put(lines, line);
}

fn put_number(lines: &mut Vec<String>, label: &str, value: u64, unit: &str)
    ensures
        texts(final(lines)@) == texts(old(lines)@).push(
            label@ + decimal(value as nat) + unit@,
        ),
{
    let mut line = String::from_str(label);
    append_decimal(&mut line, value);
    line.append(unit);
    put(lines, line);
}

fn put_entry(lines: &mut Vec<String>, position: usize, transaction: &Transaction)
    ensures
        texts(final(lines)@) == texts(old(lines)@) + entry(position as nat, transaction@),
{
    proof {
        reveal_strlit("");
    }
    put_blank(lines);
    put_number(lines, "Transaction #", position as u64, "");
    put_text(lines, "Hash: ", transaction.hash.as_str());
    put_number(lines, "Version: ", transaction.ver as u64, "");
    put_number(lines, "Input Count: ", transaction.inputs.len() as u64, "");
    put_number(lines, "Output Count: ", transaction.out.len() as u64, "");
    assert("Transaction #"@ + decimal(position as nat) + ""@ =~= "Transaction #"@ + decimal(
        position as nat,
    ));
    assert("Version: "@ + decimal(transaction.ver as nat) + ""@ =~= "Version: "@ + decimal(
        transaction.ver as nat,
    ));
    assert("Input Count: "@ + decimal(transaction.inputs@.len()) + ""@ =~= "Input Count: "@
        + decimal(transaction.inputs@.len()));
    assert("Output Count: "@ + decimal(transaction.out@.len()) + ""@ =~= "Output Count: "@
        + decimal(transaction.out@.len()));
    assert(texts(lines@) =~= texts(old(lines)@) + entry(position as nat, transaction@));
}

/// The lines to show for `block`: its own fields, the number of its
/// transactions, the first five of them, and, where there are more, how many
/// were left out.
pub fn block_report(block: &Block) -> (lines: Vec<String>)
    ensures
        texts(lines@) == report(block@),
{
    proof {
        reveal_strlit("");
    }
    let mut lines: Vec<String> = Vec::new();
    assert(texts(lines@) =~= Seq::<Seq<char>>::empty());
    put_blank(&mut lines);
    put_fixed(&mut lines, "Block Information:");
    put_fixed(&mut lines, "------------------");
    put_text(&mut lines, "Block Hash: ", block.hash.as_str());
    put_number(&mut lines, "Version: ", block.ver as u64, "");
    put_text(&mut lines, "Previous Block: ", block.prev_block.as_str());
    put_text(&mut lines, "Merkle Root: ", block.merkle_root.as_str());
    put_number(&mut lines, "Timestamp: ", block.time, "");
    put_number(&mut lines, "Bits: ", block.bits as u64, "");
    put_number(&mut lines, "Nonce: ", block.nonce as u64, "");
    put_number(&mut lines, "Number of Transactions: ", block.n_tx as u64, "");
    put_number(&mut lines, "Block Size: ", block.size as u64, " bytes");
    put_number(&mut lines, "Block Index: ", block.block_index, "");
    put_text(&mut lines, "Is Main Chain: ", if block.main_chain { "true" } else { "false" });
    put_number(&mut lines, "Block Height: ", block.height as u64, "");
    put_blank(&mut lines);
    put_fixed(&mut lines, "Transactions Summary:");
    put_fixed(&mut lines, "--------------------");
    put_number(&mut lines, "Total Transactions: ", block.tx.len() as u64, "");
    assert(texts(lines@) =~= heading(block@));
    let total: usize = block.tx.len();
    let shown: usize = if total <= LISTED {
        total
    } else {
        LISTED
    };
    let mut i: usize = 0;
    assert(texts(lines@) =~= heading(block@) + entries(block@.tx, 0));
    while i < shown
        invariant
            i <= shown <= total,
            total == block.tx.len(),
            texts(lines@) == heading(block@) + entries(block@.tx, i as nat),
        decreases shown - i,
    {
        put_entry(&mut lines, i + 1, &block.tx[i]);
        i += 1;
        assert(texts(lines@) =~= heading(block@) + entries(block@.tx, i as nat));
    }
    if total > LISTED {
        let ghost before = texts(lines@);
        put_blank(&mut lines);
        put_number(&mut lines, "... and ", (total - LISTED) as u64, " more transactions");
        assert(texts(lines@) =~= before + remainder(total as nat));
    }
    assert(texts(lines@) =~= report(block@));
    lines
}

} // verus!
