//! What holds of reading records: which values are read at all, that
//! members outside a record's fields do not matter, and that `relayed_by`
//! never makes a block fail.

use vstd::prelude::*;

use crate::json::JsonView;
use crate::json::lemma_last_named_apart;
use crate::record::BlockView;
use crate::shape::Fault;
use crate::shape::block_of;
use crate::shape::each;
use crate::shape::input_of;
use crate::shape::lemma_each_item_by_item;
use crate::shape::lenient_text;
use crate::shape::outpoint_of;
use crate::shape::output_of;
use crate::shape::prev_out_of;
use crate::shape::transaction_of;

verus! {

/// The member `name` is there and holds a string.
pub open spec fn holds_text(record: JsonView, name: Seq<char>) -> bool {
    record.member(name) matches Some(value) && value is Text
}

/// The member `name` is there and holds a whole number from 0 to 2^64 - 1.
pub open spec fn holds_u64(record: JsonView, name: Seq<char>) -> bool {
    record.member(name) matches Some(value) && value is Natural
}

/// The member `name` is there and holds a whole number from 0 to 2^32 - 1.
pub open spec fn holds_u32(record: JsonView, name: Seq<char>) -> bool {
    record.member(name) matches Some(JsonView::Natural(n)) && n <= u32::MAX
}

/// The member `name` is there and holds a boolean.
pub open spec fn holds_bool(record: JsonView, name: Seq<char>) -> bool {
    record.member(name) matches Some(value) && value is Bool
}

/// The member `name` is absent, null, or a string.
pub open spec fn may_hold_text(record: JsonView, name: Seq<char>) -> bool {
    record.member(name) matches Some(value) ==> value is Null || value is Text
}

/// The value is an array, and `fits` holds of each of its items.
pub open spec fn all_items(value: JsonView, fits: spec_fn(JsonView) -> bool) -> bool {
    value matches JsonView::Array(items) && forall|i: int|
        0 <= i < items.len() ==> #[trigger] fits(items[i])
}

/// The value has the shape of a reference to an output.
pub open spec fn is_outpoint(value: JsonView) -> bool {
    &&& value is Object
    &&& holds_u64(value, "tx_index"@)
    &&& holds_u32(value, "n"@)
}

/// The value has the shape of the output that an input spends.
pub open spec fn is_prev_out(value: JsonView) -> bool {
    &&& value is Object
    &&& holds_u32(value, "type"@)
    &&& holds_bool(value, "spent"@)
    &&& holds_u64(value, "value"@)
    &&& value.member("spending_outpoints"@) matches Some(array) && all_items(
        array,
        |item: JsonView| is_outpoint(item),
    )
    &&& holds_u32(value, "n"@)
    &&& holds_u64(value, "tx_index"@)
    &&& holds_text(value, "script"@)
    &&& may_hold_text(value, "addr"@)
}

/// The value has the shape of an input.
pub open spec fn is_input(value: JsonView) -> bool {
    &&& value is Object
    &&& holds_u64(value, "sequence"@)
    &&& value.member("witness"@) matches Some(witness) ==> witness is Text
    &&& holds_text(value, "script"@)
    &&& holds_u32(value, "index"@)
    &&& value.member("prev_out"@) matches Some(prev_out) ==> prev_out is Null || is_prev_out(
        prev_out,
    )
}

/// The value has the shape of an output.
pub open spec fn is_output(value: JsonView) -> bool {
    &&& value is Object
    &&& holds_u32(value, "type"@)
    &&& holds_bool(value, "spent"@)
    &&& holds_u64(value, "value"@)
    &&& value.member("spending_outpoints"@) matches Some(array) ==> all_items(
        array,
        |item: JsonView| is_outpoint(item),
    )
    &&& holds_u32(value, "n"@)
    &&& holds_u64(value, "tx_index"@)
    &&& holds_text(value, "script"@)
    &&& may_hold_text(value, "addr"@)
}

/// The value has the shape of a transaction.
pub open spec fn is_transaction(value: JsonView) -> bool {
    &&& value is Object
    &&& value.member("hash"@) matches Some(hash) ==> hash is Text
    &&& value.member("ver"@) matches Some(ver) ==> ver matches JsonView::Natural(n) && n
        <= u32::MAX
    &&& value.member("inputs"@) matches Some(array) ==> all_items(
        array,
        |item: JsonView| is_input(item),
    )
    &&& value.member("out"@) matches Some(array) ==> all_items(
        array,
        |item: JsonView| is_output(item),
    )
}

/// The value has the shape of a block: an object that holds every required
/// member with a value of its field's kind and range, and transactions that
/// have their shape. Of `relayed_by` nothing is asked.
pub open spec fn is_block(value: JsonView) -> bool {
    &&& value is Object
    &&& holds_text(value, "hash"@)
    &&& holds_u32(value, "ver"@)
    &&& holds_text(value, "prev_block"@)
    &&& holds_text(value, "mrkl_root"@)
    &&& holds_u64(value, "time"@)
    &&& holds_u32(value, "bits"@)
    &&& holds_u32(value, "nonce"@)
    &&& holds_u32(value, "n_tx"@)
    &&& holds_u32(value, "size"@)
    &&& holds_u64(value, "block_index"@)
    &&& holds_bool(value, "main_chain"@)
    &&& holds_u32(value, "height"@)
    &&& value.member("received_time"@) matches Some(time) ==> time is Natural
    &&& value.member("tx"@) matches Some(array) && all_items(
        array,
        |item: JsonView| is_transaction(item),
    )
}

/// An array is read exactly when each of its items is.
proof fn lemma_array_read<T>(
    items: Seq<JsonView>,
    read: spec_fn(JsonView) -> Result<T, Fault>,
    fits: spec_fn(JsonView) -> bool,
)
    requires
        forall|i: int|
            0 <= i < items.len() ==> (fits(#[trigger] items[i]) <==> read(items[i]) is Ok),
    ensures
        each(items, read) is Ok <==> all_items(JsonView::Array(items), fits),
{
    lemma_each_item_by_item(items, read);
    if each(items, read) is Ok {
        assert forall|i: int| 0 <= i < items.len() implies #[trigger] fits(items[i]) by {
            assert(read(items[i]) is Ok);
        }
    }
    if all_items(JsonView::Array(items), fits) {
        let array = JsonView::Array(items);
        assert(array->Array_0 == items);
        assert(forall|i: int| 0 <= i < items.len() ==> #[trigger] fits(items[i]));
        assert forall|i: int| 0 <= i < items.len() implies (#[trigger] read(items[i])) is Ok by {
            assert(fits(items[i]));
        }
    }
}

/// A reference to an output is read exactly from the values of its shape.
pub proof fn lemma_outpoint_read(value: JsonView)
    ensures
        outpoint_of(value) is Ok <==> is_outpoint(value),
{
}

proof fn lemma_outpoints_read(items: Seq<JsonView>)
    ensures
        each(items, |item: JsonView| outpoint_of(item)) is Ok <==> all_items(
            JsonView::Array(items),
            |item: JsonView| is_outpoint(item),
        ),
{
    assert forall|i: int| 0 <= i < items.len() implies (is_outpoint(#[trigger] items[i])
        <==> outpoint_of(items[i]) is Ok) by {
        lemma_outpoint_read(items[i]);
    }
    lemma_array_read(items, |item: JsonView| outpoint_of(item), |item: JsonView| is_outpoint(item));
}

/// The output that an input spends is read exactly from the values of its
/// shape.
pub proof fn lemma_prev_out_read(value: JsonView)
    ensures
        prev_out_of(value) is Ok <==> is_prev_out(value),
{
    if let Some(JsonView::Array(items)) = value.member("spending_outpoints"@) {
        lemma_outpoints_read(items);
    }
}

/// An input is read exactly from the values of its shape.
pub proof fn lemma_input_read(value: JsonView)
    ensures
        input_of(value) is Ok <==> is_input(value),
{
    if let Some(prev_out) = value.member("prev_out"@) {
        lemma_prev_out_read(prev_out);
    }
}

/// An output is read exactly from the values of its shape.
pub proof fn lemma_output_read(value: JsonView)
    ensures
        output_of(value) is Ok <==> is_output(value),
{
    if let Some(JsonView::Array(items)) = value.member("spending_outpoints"@) {
        lemma_outpoints_read(items);
    }
}

/// A transaction is read exactly from the values of its shape.
pub proof fn lemma_transaction_read(value: JsonView)
    ensures
        transaction_of(value) is Ok <==> is_transaction(value),
{
    if let Some(JsonView::Array(items)) = value.member("inputs"@) {
        assert forall|i: int| 0 <= i < items.len() implies (is_input(#[trigger] items[i])
            <==> input_of(items[i]) is Ok) by {
            lemma_input_read(items[i]);
        }
        lemma_array_read(items, |item: JsonView| input_of(item), |item: JsonView| is_input(item));
    }
    if let Some(JsonView::Array(items)) = value.member("out"@) {
        assert forall|i: int| 0 <= i < items.len() implies (is_output(#[trigger] items[i])
            <==> output_of(items[i]) is Ok) by {
            lemma_output_read(items[i]);
        }
        lemma_array_read(items, |item: JsonView| output_of(item), |item: JsonView| is_output(item));
    }
}

/// A block is read exactly from the values that have the shape of a block.
pub proof fn lemma_block_read(value: JsonView)
    ensures
        block_of(value) is Ok <==> is_block(value),
{
    if let Some(JsonView::Array(items)) = value.member("tx"@) {
        assert forall|i: int| 0 <= i < items.len() implies (is_transaction(#[trigger] items[i])
            <==> transaction_of(items[i]) is Ok) by {
            lemma_transaction_read(items[i]);
        }
        lemma_array_read(
            items,
            |item: JsonView| transaction_of(item),
            |item: JsonView| is_transaction(item),
        );
    }
}

/// Every field of a block that was read holds what the member of its name
/// holds: strings their text, numbers their value, and `tx` what each item
/// of the array was read as, in order. The two fields that need no member
/// hold zero and the empty string where there is none.
pub proof fn lemma_block_fields_exact(value: JsonView)
    requires
        block_of(value) is Ok,
    ensures
        ({
            let block = block_of(value)->Ok_0;
            &&& value.member("hash"@) == Some(JsonView::Text(block.hash))
            &&& value.member("ver"@) == Some(JsonView::Natural(block.ver as u64))
            &&& value.member("prev_block"@) == Some(JsonView::Text(block.prev_block))
            &&& value.member("mrkl_root"@) == Some(JsonView::Text(block.merkle_root))
            &&& value.member("time"@) == Some(JsonView::Natural(block.time))
            &&& value.member("bits"@) == Some(JsonView::Natural(block.bits as u64))
            &&& value.member("nonce"@) == Some(JsonView::Natural(block.nonce as u64))
            &&& value.member("n_tx"@) == Some(JsonView::Natural(block.n_tx as u64))
            &&& value.member("size"@) == Some(JsonView::Natural(block.size as u64))
            &&& value.member("block_index"@) == Some(JsonView::Natural(block.block_index))
            &&& value.member("main_chain"@) == Some(JsonView::Bool(block.main_chain))
            &&& value.member("height"@) == Some(JsonView::Natural(block.height as u64))
            &&& block.received_time == (match value.member("received_time"@) {
                Some(JsonView::Natural(time)) => time,
                _ => 0,
            })
            &&& block.relayed_by == (match value.member("relayed_by"@) {
                Some(JsonView::Text(text)) => text,
                _ => Seq::<char>::empty(),
            })
            &&& value.member("tx"@) matches Some(JsonView::Array(items)) && items.len()
                == block.tx.len() && forall|i: int|
                0 <= i < items.len() ==> transaction_of(items[i]) == Ok::<_, Fault>(
                    #[trigger] block.tx[i],
                )
        }),
{
    let items = value.member("tx"@)->Some_0->Array_0;
    lemma_each_item_by_item(items, |item: JsonView| transaction_of(item));
}

/// The names of the members that a block is read from.
pub open spec fn is_block_member(name: Seq<char>) -> bool {
    ||| name == "hash"@
    ||| name == "ver"@
    ||| name == "prev_block"@
    ||| name == "mrkl_root"@
    ||| name == "time"@
    ||| name == "bits"@
    ||| name == "nonce"@
    ||| name == "n_tx"@
    ||| name == "size"@
    ||| name == "block_index"@
    ||| name == "main_chain"@
    ||| name == "height"@
    ||| name == "received_time"@
    ||| name == "relayed_by"@
    ||| name == "tx"@
}

/// Reading a block looks at the members of the block's names and at nothing
/// else: two objects that hold the same under each of these names are read
/// alike.
pub proof fn lemma_block_reads_its_members_only(a: JsonView, b: JsonView)
    requires
        a is Object,
        b is Object,
        forall|name: Seq<char>|
            is_block_member(name) ==> #[trigger] a.member(name) == b.member(name),
    ensures
        block_of(a) == block_of(b),
{
}

/// A member that no field of a block reads changes nothing of how the block
/// is read, wherever among the members it stands and whatever it holds.
pub proof fn lemma_unknown_member_ignored(
    members: Seq<(Seq<char>, JsonView)>,
    at: int,
    name: Seq<char>,
    held: JsonView,
)
    requires
        0 <= at <= members.len(),
        !is_block_member(name),
    ensures
        block_of(JsonView::Object(members.insert(at, (name, held)))) == block_of(
            JsonView::Object(members),
        ),
{
    let a = JsonView::Object(members.insert(at, (name, held)));
    let b = JsonView::Object(members);
    assert forall|known: Seq<char>| is_block_member(known) implies #[trigger] a.member(known)
        == b.member(known) by {
        lemma_last_named_apart(members, at, (name, held), known);
    }
    lemma_block_reads_its_members_only(a, b);
}

/// A block whose `relayed_by` holds a number, an object, or anything else
/// that is no string is read all the same, and its field is empty.
pub proof fn lemma_relayed_by_of_another_kind(value: JsonView)
    requires
        is_block(value),
        value.member("relayed_by"@) matches Some(held) && !(held is Text),
    ensures
        block_of(value) is Ok,
        block_of(value)->Ok_0.relayed_by == Seq::<char>::empty(),
{
    lemma_block_read(value);
}

/// No other member of a block is named `relayed_by`.
proof fn lemma_relayed_by_is_its_own_name()
    ensures
        "hash"@ != "relayed_by"@,
        "ver"@ != "relayed_by"@,
        "prev_block"@ != "relayed_by"@,
        "mrkl_root"@ != "relayed_by"@,
        "time"@ != "relayed_by"@,
        "bits"@ != "relayed_by"@,
        "nonce"@ != "relayed_by"@,
        "n_tx"@ != "relayed_by"@,
        "size"@ != "relayed_by"@,
        "block_index"@ != "relayed_by"@,
        "main_chain"@ != "relayed_by"@,
        "height"@ != "relayed_by"@,
        "received_time"@ != "relayed_by"@,
        "tx"@ != "relayed_by"@,
{
    reveal_strlit("relayed_by");
    reveal_strlit("hash");
    reveal_strlit("ver");
    reveal_strlit("prev_block");
    reveal_strlit("mrkl_root");
    reveal_strlit("time");
    reveal_strlit("bits");
    reveal_strlit("nonce");
    reveal_strlit("n_tx");
    reveal_strlit("size");
    reveal_strlit("block_index");
    reveal_strlit("main_chain");
    reveal_strlit("height");
    reveal_strlit("received_time");
    reveal_strlit("tx");
    assert("relayed_by"@.len() == 10 && "relayed_by"@[0] == 'r');
    assert("hash"@.len() == 4);
    assert("ver"@.len() == 3);
    assert("prev_block"@[0] == 'p');
    assert("mrkl_root"@.len() == 9);
    assert("time"@.len() == 4);
    assert("bits"@.len() == 4);
    assert("nonce"@.len() == 5);
    assert("n_tx"@.len() == 4);
    assert("size"@.len() == 4);
    assert("block_index"@.len() == 11);
    assert("main_chain"@[0] == 'm');
    assert("height"@.len() == 6);
    assert("received_time"@.len() == 13);
    assert("tx"@.len() == 2);
}

/// What `relayed_by` holds never decides whether a block is read: of two
/// objects that differ in that member alone, either both are refused, for the
/// same fault, or both are read, as blocks that differ in that field alone.
pub proof fn lemma_relayed_by_never_fails(a: JsonView, b: JsonView)
    requires
        a is Object,
        b is Object,
        forall|name: Seq<char>|
            is_block_member(name) && name != "relayed_by"@ ==> #[trigger] a.member(name)
                == b.member(name),
    ensures
        block_of(a) is Err ==> block_of(b) == block_of(a),
        block_of(a) matches Ok(read) ==> block_of(b) == Ok::<BlockView, Fault>(
            BlockView { relayed_by: lenient_text(b, "relayed_by"@), ..read },
        ),
{
    lemma_relayed_by_is_its_own_name();
}

} // verus!
