//! The shape of the records in JSON: which members a record needs, which
//! may be absent, and what each must hold. These are the rules alone, as
//! functions on mathematical values; the code that follows them is in
//! `decode`.

use vstd::prelude::*;

use crate::json::JsonView;
use crate::record::BlockView;
use crate::record::InputView;
use crate::record::OutputView;
use crate::record::PrevOutView;
use crate::record::SpendingOutpoint;
use crate::record::TransactionView;

verus! {

/// What is wrong with a value that was to be read as a record.
pub enum Fault {
    /// The text is no well-formed JSON. What is held is the parser's account
    /// of it.
    Syntax(Seq<char>),
    /// A record was expected, and the value is no object.
    NotAnObject,
    /// The named member is required and absent.
    Missing(Seq<char>),
    /// The named member is present and holds a value of the wrong kind, or a
    /// number that its field cannot hold.
    Mismatch(Seq<char>),
}

/// A whole number from 0 to 2^64 - 1.
pub open spec fn u64_of(value: JsonView) -> Option<u64> {
    match value {
        JsonView::Natural(n) => Some(n),
        _ => None,
    }
}

/// A whole number from 0 to 2^32 - 1.
pub open spec fn u32_of(value: JsonView) -> Option<u32> {
    match value {
        JsonView::Natural(n) => if n <= u32::MAX {
            Some(n as u32)
        } else {
            None
        },
        _ => None,
    }
}

/// A boolean.
pub open spec fn bool_of(value: JsonView) -> Option<bool> {
    match value {
        JsonView::Bool(b) => Some(b),
        _ => None,
    }
}

/// A string.
pub open spec fn text_of(value: JsonView) -> Option<Seq<char>> {
    match value {
        JsonView::Text(s) => Some(s),
        _ => None,
    }
}

/// The result for a member that is present: what was read of it, or the
/// complaint that it does not fit.
pub open spec fn fitting<T>(name: Seq<char>, read: Option<T>) -> Result<T, Fault> {
    match read {
        Some(x) => Ok(x),
        None => Err(Fault::Mismatch(name)),
    }
}

/// A number that must be there.
pub open spec fn required_u64(record: JsonView, name: Seq<char>) -> Result<u64, Fault> {
    match record.member(name) {
        Some(value) => fitting(name, u64_of(value)),
        None => Err(Fault::Missing(name)),
    }
}

/// A number that must be there.
pub open spec fn required_u32(record: JsonView, name: Seq<char>) -> Result<u32, Fault> {
    match record.member(name) {
        Some(value) => fitting(name, u32_of(value)),
        None => Err(Fault::Missing(name)),
    }
}

/// A boolean that must be there.
pub open spec fn required_bool(record: JsonView, name: Seq<char>) -> Result<bool, Fault> {
    match record.member(name) {
        Some(value) => fitting(name, bool_of(value)),
        None => Err(Fault::Missing(name)),
    }
}

/// A string that must be there.
pub open spec fn required_text(record: JsonView, name: Seq<char>) -> Result<Seq<char>, Fault> {
    match record.member(name) {
        Some(value) => fitting(name, text_of(value)),
        None => Err(Fault::Missing(name)),
    }
}

/// A number that is zero where the member is absent.
pub open spec fn defaulted_u64(record: JsonView, name: Seq<char>) -> Result<u64, Fault> {
    match record.member(name) {
        Some(value) => fitting(name, u64_of(value)),
        None => Ok(0),
    }
}

/// A number that is zero where the member is absent.
pub open spec fn defaulted_u32(record: JsonView, name: Seq<char>) -> Result<u32, Fault> {
    match record.member(name) {
        Some(value) => fitting(name, u32_of(value)),
        None => Ok(0),
    }
}

/// A string that is empty where the member is absent.
pub open spec fn defaulted_text(record: JsonView, name: Seq<char>) -> Result<Seq<char>, Fault> {
    match record.member(name) {
        Some(value) => fitting(name, text_of(value)),
        None => Ok(Seq::empty()),
    }
}

/// A string that may be absent or null.
pub open spec fn optional_text(record: JsonView, name: Seq<char>) -> Result<
    Option<Seq<char>>,
    Fault,
> {
    match record.member(name) {
        None => Ok(None),
        Some(JsonView::Null) => Ok(None),
        Some(JsonView::Text(s)) => Ok(Some(s)),
        Some(_) => Err(Fault::Mismatch(name)),
    }
}

/// A string read with tolerance: the member's text where it holds a string,
/// and the empty string where it is absent or holds anything else. This
/// never fails.
pub open spec fn lenient_text(record: JsonView, name: Seq<char>) -> Seq<char> {
    match record.member(name) {
        Some(JsonView::Text(s)) => s,
        _ => Seq::empty(),
    }
}

/// Reads every item with `read`. The result holds what was read, in order,
/// unless an item fails; then it is the fault of the first item that does.
pub open spec fn each<T>(items: Seq<JsonView>, read: spec_fn(JsonView) -> Result<T, Fault>)
    -> Result<Seq<T>, Fault>
    decreases items.len(),
{
    if items.len() == 0 {
        Ok(Seq::empty())
    } else {
        match each(items.drop_last(), read) {
            Err(fault) => Err(fault),
            Ok(front) => match read(items.last()) {
                Err(fault) => Err(fault),
                Ok(x) => Ok(front.push(x)),
            },
        }
    }
}

/// Once a front part of `items` has failed, the whole fails in the same way.
pub proof fn lemma_each_keeps_fault<T>(
    items: Seq<JsonView>,
    read: spec_fn(JsonView) -> Result<T, Fault>,
    n: int,
)
    requires
        0 <= n <= items.len(),
        each(items.take(n), read) is Err,
    ensures
        each(items, read) == each(items.take(n), read),
    decreases items.len(),
{
    if n < items.len() {
        assert(items.drop_last().take(n) =~= items.take(n));
        lemma_each_keeps_fault(items.drop_last(), read, n);
    } else {
        assert(items.take(n) =~= items);
    }
}

/// Reading one item more: the step by which `each` grows.
pub proof fn lemma_each_step<T>(
    items: Seq<JsonView>,
    read: spec_fn(JsonView) -> Result<T, Fault>,
    n: int,
)
    requires
        0 <= n < items.len(),
        each(items.take(n), read) is Ok,
    ensures
        each(items.take(n + 1), read) == (match read(items[n]) {
            Ok(x) => Ok::<Seq<T>, Fault>(each(items.take(n), read)->Ok_0.push(x)),
            Err(fault) => Err::<Seq<T>, Fault>(fault),
        }),
{
    assert(items.take(n + 1).drop_last() =~= items.take(n));
    assert(items.take(n + 1).last() == items[n]);
}

/// What `each` comes to, item by item: it succeeds exactly when every item
/// is read, and then holds what was read of each; and where it fails, the
/// fault is that of the first item that is not read.
pub proof fn lemma_each_item_by_item<T>(
    items: Seq<JsonView>,
    read: spec_fn(JsonView) -> Result<T, Fault>,
)
    ensures
        each(items, read) is Ok <==> (forall|i: int|
            0 <= i < items.len() ==> (#[trigger] read(items[i])) is Ok),
        each(items, read) matches Ok(all) ==> all.len() == items.len() && (forall|i: int|
            0 <= i < items.len() ==> read(items[i]) == Ok::<T, Fault>(#[trigger] all[i])),
        each(items, read) matches Err(fault) ==> (exists|i: int|
            0 <= i < items.len() && #[trigger] read(items[i]) == Err::<T, Fault>(fault) && (
            forall|k: int| 0 <= k < i ==> (#[trigger] read(items[k])) is Ok)),
    decreases items.len(),
{
    if items.len() > 0 {
        let front = items.drop_last();
        lemma_each_item_by_item(front, read);
        assert(forall|i: int| 0 <= i < front.len() ==> front[i] == items[i]);
        match each(front, read) {
            Ok(all) => {
                match read(items.last()) {
                    Ok(x) => {
                        assert forall|i: int| 0 <= i < items.len() implies (#[trigger] read(
                            items[i],
                        )) is Ok by {
                            if i < front.len() {
                                assert(front[i] == items[i]);
                            }
                        }
                        assert forall|i: int| 0 <= i < items.len() implies read(items[i]) == Ok::<
                            T,
                            Fault,
                        >(#[trigger] all.push(x)[i]) by {
                            if i < front.len() {
                                assert(front[i] == items[i]);
                            }
                        }
                    },
                    Err(fault) => {
                        let i = items.len() - 1;
                        assert(read(items[i]) == Err::<T, Fault>(fault));
                        assert forall|k: int| 0 <= k < i implies (#[trigger] read(
                            items[k],
                        )) is Ok by {
                            assert(front[k] == items[k]);
                        }
                    },
                }
            },
            Err(fault) => {
                let i = choose|i: int|
                    0 <= i < front.len() && #[trigger] read(front[i]) == Err::<T, Fault>(fault)
                        && (forall|k: int| 0 <= k < i ==> (#[trigger] read(front[k])) is Ok);
                assert(front[i] == items[i]);
                assert(read(items[i]) == Err::<T, Fault>(fault));
                assert forall|k: int| 0 <= k < i implies (#[trigger] read(items[k])) is Ok by {
                    assert(front[k] == items[k]);
                }
            },
        }
    }
}

/// An array whose items are all read with `read`.
pub open spec fn array_of<T>(
    name: Seq<char>,
    value: JsonView,
    read: spec_fn(JsonView) -> Result<T, Fault>,
) -> Result<Seq<T>, Fault> {
    match value {
        JsonView::Array(items) => each(items, read),
        _ => Err(Fault::Mismatch(name)),
    }
}

/// A reference to an output: both members are required.
pub open spec fn outpoint_of(value: JsonView) -> Result<SpendingOutpoint, Fault> {
    let tx_index = required_u64(value, "tx_index"@);
    let n = required_u32(value, "n"@);
    if !(value is Object) {
        Err(Fault::NotAnObject)
    } else if tx_index is Err {
        Err(tx_index->Err_0)
    } else if n is Err {
        Err(n->Err_0)
    } else {
        Ok(SpendingOutpoint { tx_index: tx_index->Ok_0, n: n->Ok_0 })
    }
}

/// The member `spending_outpoints` where it is required.
pub open spec fn required_outpoints(record: JsonView) -> Result<Seq<SpendingOutpoint>, Fault> {
    match record.member("spending_outpoints"@) {
        Some(value) => array_of("spending_outpoints"@, value, |item: JsonView| outpoint_of(item)),
        None => Err(Fault::Missing("spending_outpoints"@)),
    }
}

/// The member `spending_outpoints` where it may be absent, and is then empty.
pub open spec fn defaulted_outpoints(record: JsonView) -> Result<Seq<SpendingOutpoint>, Fault> {
    match record.member("spending_outpoints"@) {
        Some(value) => array_of("spending_outpoints"@, value, |item: JsonView| outpoint_of(item)),
        None => Ok(Seq::empty()),
    }
}

/// The output that an input spends: every member is required but `addr`,
/// which may be absent or null.
pub open spec fn prev_out_of(value: JsonView) -> Result<PrevOutView, Fault> {
    let output_type = required_u32(value, "type"@);
    let spent = required_bool(value, "spent"@);
    let amount = required_u64(value, "value"@);
    let spending_outpoints = required_outpoints(value);
    let n = required_u32(value, "n"@);
    let tx_index = required_u64(value, "tx_index"@);
    let script = required_text(value, "script"@);
    let addr = optional_text(value, "addr"@);
    if !(value is Object) {
        Err(Fault::NotAnObject)
    } else if output_type is Err {
        Err(output_type->Err_0)
    } else if spent is Err {
        Err(spent->Err_0)
    } else if amount is Err {
        Err(amount->Err_0)
    } else if spending_outpoints is Err {
        Err(spending_outpoints->Err_0)
    } else if n is Err {
        Err(n->Err_0)
    } else if tx_index is Err {
        Err(tx_index->Err_0)
    } else if script is Err {
        Err(script->Err_0)
    } else if addr is Err {
        Err(addr->Err_0)
    } else {
        Ok(
            PrevOutView {
                output_type: output_type->Ok_0,
                spent: spent->Ok_0,
                value: amount->Ok_0,
                spending_outpoints: spending_outpoints->Ok_0,
                n: n->Ok_0,
                tx_index: tx_index->Ok_0,
                script: script->Ok_0,
                addr: addr->Ok_0,
            },
        )
    }
}

/// The member `prev_out`, which may be absent or null.
pub open spec fn optional_prev_out(record: JsonView) -> Result<Option<PrevOutView>, Fault> {
    match record.member("prev_out"@) {
        None => Ok(None),
        Some(JsonView::Null) => Ok(None),
        Some(value) => match prev_out_of(value) {
            Ok(prev_out) => Ok(Some(prev_out)),
            Err(fault) => Err(fault),
        },
    }
}

/// An input: `witness` is empty where it is absent, and `prev_out` may be
/// absent or null.
pub open spec fn input_of(value: JsonView) -> Result<InputView, Fault> {
    let sequence = required_u64(value, "sequence"@);
    let witness = defaulted_text(value, "witness"@);
    let script = required_text(value, "script"@);
    let index = required_u32(value, "index"@);
    let prev_out = optional_prev_out(value);
    if !(value is Object) {
        Err(Fault::NotAnObject)
    } else if sequence is Err {
        Err(sequence->Err_0)
    } else if witness is Err {
        Err(witness->Err_0)
    } else if script is Err {
        Err(script->Err_0)
    } else if index is Err {
        Err(index->Err_0)
    } else if prev_out is Err {
        Err(prev_out->Err_0)
    } else {
        Ok(
            InputView {
                sequence: sequence->Ok_0,
                witness: witness->Ok_0,
                script: script->Ok_0,
                index: index->Ok_0,
                prev_out: prev_out->Ok_0,
            },
        )
    }
}

/// An output: `spending_outpoints` is empty where it is absent, and `addr`
/// may be absent or null.
pub open spec fn output_of(value: JsonView) -> Result<OutputView, Fault> {
    let output_type = required_u32(value, "type"@);
    let spent = required_bool(value, "spent"@);
    let amount = required_u64(value, "value"@);
    let spending_outpoints = defaulted_outpoints(value);
    let n = required_u32(value, "n"@);
    let tx_index = required_u64(value, "tx_index"@);
    let script = required_text(value, "script"@);
    let addr = optional_text(value, "addr"@);
    if !(value is Object) {
        Err(Fault::NotAnObject)
    } else if output_type is Err {
        Err(output_type->Err_0)
    } else if spent is Err {
        Err(spent->Err_0)
    } else if amount is Err {
        Err(amount->Err_0)
    } else if spending_outpoints is Err {
        Err(spending_outpoints->Err_0)
    } else if n is Err {
        Err(n->Err_0)
    } else if tx_index is Err {
        Err(tx_index->Err_0)
    } else if script is Err {
        Err(script->Err_0)
    } else if addr is Err {
        Err(addr->Err_0)
    } else {
        Ok(
            OutputView {
                output_type: output_type->Ok_0,
                spent: spent->Ok_0,
                value: amount->Ok_0,
                spending_outpoints: spending_outpoints->Ok_0,
                n: n->Ok_0,
                tx_index: tx_index->Ok_0,
                script: script->Ok_0,
                addr: addr->Ok_0,
            },
        )
    }
}

/// The member `inputs`, which is empty where it is absent.
pub open spec fn defaulted_inputs(record: JsonView) -> Result<Seq<InputView>, Fault> {
    match record.member("inputs"@) {
        Some(value) => array_of("inputs"@, value, |item: JsonView| input_of(item)),
        None => Ok(Seq::empty()),
    }
}

/// The member `out`, which is empty where it is absent.
pub open spec fn defaulted_outputs(record: JsonView) -> Result<Seq<OutputView>, Fault> {
    match record.member("out"@) {
        Some(value) => array_of("out"@, value, |item: JsonView| output_of(item)),
        None => Ok(Seq::empty()),
    }
}

/// A transaction: every member may be absent.
pub open spec fn transaction_of(value: JsonView) -> Result<TransactionView, Fault> {
    let hash = defaulted_text(value, "hash"@);
    let ver = defaulted_u32(value, "ver"@);
    let inputs = defaulted_inputs(value);
    let out = defaulted_outputs(value);
    if !(value is Object) {
        Err(Fault::NotAnObject)
    } else if hash is Err {
        Err(hash->Err_0)
    } else if ver is Err {
        Err(ver->Err_0)
    } else if inputs is Err {
        Err(inputs->Err_0)
    } else if out is Err {
        Err(out->Err_0)
    } else {
        Ok(
            TransactionView {
                hash: hash->Ok_0,
                ver: ver->Ok_0,
                inputs: inputs->Ok_0,
                out: out->Ok_0,
            },
        )
    }
}

/// The member `tx` of a block, which is required.
pub open spec fn required_transactions(record: JsonView) -> Result<Seq<TransactionView>, Fault> {
    match record.member("tx"@) {
        Some(value) => array_of("tx"@, value, |item: JsonView| transaction_of(item)),
        None => Err(Fault::Missing("tx"@)),
    }
}

/// A block. Its members are looked at in the order of the fields, and the
/// first that is missing or does not fit decides the fault. Members that no
/// field reads are passed over.
pub open spec fn block_of(value: JsonView) -> Result<BlockView, Fault> {
    let hash = required_text(value, "hash"@);
    let ver = required_u32(value, "ver"@);
    let prev_block = required_text(value, "prev_block"@);
    let merkle_root = required_text(value, "mrkl_root"@);
    let time = required_u64(value, "time"@);
    let bits = required_u32(value, "bits"@);
    let nonce = required_u32(value, "nonce"@);
    let n_tx = required_u32(value, "n_tx"@);
    let size = required_u32(value, "size"@);
    let block_index = required_u64(value, "block_index"@);
    let main_chain = required_bool(value, "main_chain"@);
    let height = required_u32(value, "height"@);
    let received_time = defaulted_u64(value, "received_time"@);
    let tx = required_transactions(value);
    if !(value is Object) {
        Err(Fault::NotAnObject)
    } else if hash is Err {
        Err(hash->Err_0)
    } else if ver is Err {
        Err(ver->Err_0)
    } else if prev_block is Err {
        Err(prev_block->Err_0)
    } else if merkle_root is Err {
        Err(merkle_root->Err_0)
    } else if time is Err {
        Err(time->Err_0)
    } else if bits is Err {
        Err(bits->Err_0)
    } else if nonce is Err {
        Err(nonce->Err_0)
    } else if n_tx is Err {
        Err(n_tx->Err_0)
    } else if size is Err {
        Err(size->Err_0)
    } else if block_index is Err {
        Err(block_index->Err_0)
    } else if main_chain is Err {
        Err(main_chain->Err_0)
    } else if height is Err {
        Err(height->Err_0)
    } else if received_time is Err {
        Err(received_time->Err_0)
    } else if tx is Err {
        Err(tx->Err_0)
    } else {
        Ok(
            BlockView {
                hash: hash->Ok_0,
                ver: ver->Ok_0,
                prev_block: prev_block->Ok_0,
                merkle_root: merkle_root->Ok_0,
                time: time->Ok_0,
                bits: bits->Ok_0,
                nonce: nonce->Ok_0,
                n_tx: n_tx->Ok_0,
                size: size->Ok_0,
                block_index: block_index->Ok_0,
                main_chain: main_chain->Ok_0,
                height: height->Ok_0,
                received_time: received_time->Ok_0,
                relayed_by: lenient_text(value, "relayed_by"@),
                tx: tx->Ok_0,
            },
        )
    }
}

} // verus!
