//! The records that the block endpoint answers with, and their mathematical
//! views.

use vstd::prelude::*;

verus! {

/// A reference to one output of a transaction.
#[derive(Clone, Copy, Debug, PartialEq, Eq)]
pub struct SpendingOutpoint {
    pub tx_index: u64,
    pub n: u32,
}

/// The output that an input spends.
#[derive(Debug, PartialEq, Eq)]
pub struct PrevOut {
    pub output_type: u32,
    pub spent: bool,
    pub value: u64,
    pub spending_outpoints: Vec<SpendingOutpoint>,
    pub n: u32,
    pub tx_index: u64,
    pub script: String,
    pub addr: Option<String>,
}

/// One input of a transaction.
#[derive(Debug, PartialEq, Eq)]
pub struct Input {
    pub sequence: u64,
    pub witness: String,
    pub script: String,
    pub index: u32,
    pub prev_out: Option<PrevOut>,
}

/// One output of a transaction.
#[derive(Debug, PartialEq, Eq)]
pub struct Output {
    pub output_type: u32,
    pub spent: bool,
    pub value: u64,
    pub spending_outpoints: Vec<SpendingOutpoint>,
    pub n: u32,
    pub tx_index: u64,
    pub script: String,
    pub addr: Option<String>,
}

/// A transaction embedded in a block.
#[derive(Debug, PartialEq, Eq)]
pub struct Transaction {
    pub hash: String,
    pub ver: u32,
    pub inputs: Vec<Input>,
    pub out: Vec<Output>,
}

/// A block with its transactions.
#[derive(Debug, PartialEq, Eq)]
pub struct Block {
    pub hash: String,
    pub ver: u32,
    pub prev_block: String,
    pub merkle_root: String,
    pub time: u64,
    pub bits: u32,
    pub nonce: u32,
    pub n_tx: u32,
    pub size: u32,
    pub block_index: u64,
    pub main_chain: bool,
    pub height: u32,
    /// Zero where the answer names no time of receipt.
    pub received_time: u64,
    /// Empty where the answer names no relay, or names it by anything but a
    /// string.
    pub relayed_by: String,
    pub tx: Vec<Transaction>,
}

/// The mathematical value of a [`PrevOut`].
pub struct PrevOutView {
    pub output_type: u32,
    pub spent: bool,
    pub value: u64,
    pub spending_outpoints: Seq<SpendingOutpoint>,
    pub n: u32,
    pub tx_index: u64,
    pub script: Seq<char>,
    pub addr: Option<Seq<char>>,
}

/// The mathematical value of an [`Input`].
pub struct InputView {
    pub sequence: u64,
    pub witness: Seq<char>,
    pub script: Seq<char>,
    pub index: u32,
    pub prev_out: Option<PrevOutView>,
}

/// The mathematical value of an [`Output`].
pub struct OutputView {
    pub output_type: u32,
    pub spent: bool,
    pub value: u64,
    pub spending_outpoints: Seq<SpendingOutpoint>,
    pub n: u32,
    pub tx_index: u64,
    pub script: Seq<char>,
    pub addr: Option<Seq<char>>,
}

/// The mathematical value of a [`Transaction`].
pub struct TransactionView {
    pub hash: Seq<char>,
    pub ver: u32,
    pub inputs: Seq<InputView>,
    pub out: Seq<OutputView>,
}

/// The mathematical value of a [`Block`].
pub struct BlockView {
    pub hash: Seq<char>,
    pub ver: u32,
    pub prev_block: Seq<char>,
    pub merkle_root: Seq<char>,
    pub time: u64,
    pub bits: u32,
    pub nonce: u32,
    pub n_tx: u32,
    pub size: u32,
    pub block_index: u64,
    pub main_chain: bool,
    pub height: u32,
    pub received_time: u64,
    pub relayed_by: Seq<char>,
    pub tx: Seq<TransactionView>,
}

/// The mathematical values of `records`, one for one.
pub open spec fn views<T: View>(records: Seq<T>) -> Seq<T::V> {
    records.map_values(|record: T| record@)
}

/// The characters of an optional string.
pub open spec fn text_view(text: Option<String>) -> Option<Seq<char>> {
    match text {
        Some(s) => Some(s@),
        None => None,
    }
}

/// A reference to an output is its own mathematical value.
impl View for SpendingOutpoint {
    type V = SpendingOutpoint;

    open spec fn view(&self) -> SpendingOutpoint {
        *self
    }
}

impl View for PrevOut {
    type V = PrevOutView;

    open spec fn view(&self) -> PrevOutView {
        PrevOutView {
            output_type: self.output_type,
            spent: self.spent,
            value: self.value,
            spending_outpoints: self.spending_outpoints@,
            n: self.n,
            tx_index: self.tx_index,
            script: self.script@,
            addr: text_view(self.addr),
        }
    }
}

impl View for Input {
    type V = InputView;

    open spec fn view(&self) -> InputView {
        InputView {
            sequence: self.sequence,
            witness: self.witness@,
            script: self.script@,
            index: self.index,
            prev_out: match self.prev_out {
                Some(p) => Some(p@),
                None => None,
            },
        }
    }
}

impl View for Output {
    type V = OutputView;

    open spec fn view(&self) -> OutputView {
        OutputView {
            output_type: self.output_type,
            spent: self.spent,
            value: self.value,
            spending_outpoints: self.spending_outpoints@,
            n: self.n,
            tx_index: self.tx_index,
            script: self.script@,
            addr: text_view(self.addr),
        }
    }
}

impl View for Transaction {
    type V = TransactionView;

    open spec fn view(&self) -> TransactionView {
        TransactionView {
            hash: self.hash@,
            ver: self.ver,
            inputs: views(self.inputs@),
            out: views(self.out@),
        }
    }
}

impl View for Block {
    type V = BlockView;

    open spec fn view(&self) -> BlockView {
        BlockView {
            hash: self.hash@,
            ver: self.ver,
            prev_block: self.prev_block@,
            merkle_root: self.merkle_root@,
            time: self.time,
            bits: self.bits,
            nonce: self.nonce,
            n_tx: self.n_tx,
            size: self.size,
            block_index: self.block_index,
            main_chain: self.main_chain,
            height: self.height,
            received_time: self.received_time,
            relayed_by: self.relayed_by@,
            tx: views(self.tx@),
        }
    }
}

} // verus!
