//! Reading records out of JSON values, by the rules of `shape`.

use vstd::prelude::*;
use vstd::string::StringExecFns;

use crate::json::Json;
use crate::json::JsonView;
use crate::json::lemma_items_view;
use crate::record::Block;
use crate::record::BlockView;
use crate::record::Input;
use crate::record::InputView;
use crate::record::Output;
use crate::record::OutputView;
use crate::record::PrevOut;
use crate::record::PrevOutView;
use crate::record::SpendingOutpoint;
use crate::record::Transaction;
use crate::record::TransactionView;
use crate::record::text_view;
use crate::record::views;
use crate::shape::Fault;
use crate::shape::array_of;
use crate::shape::block_of;
use crate::shape::bool_of;
use crate::shape::defaulted_outpoints;
use crate::shape::defaulted_text;
use crate::shape::defaulted_u32;
use crate::shape::defaulted_u64;
use crate::shape::each;
use crate::shape::input_of;
use crate::shape::lemma_each_keeps_fault;
use crate::shape::lemma_each_step;
use crate::shape::lenient_text;
use crate::shape::optional_prev_out;
use crate::shape::optional_text;
use crate::shape::outpoint_of;
use crate::shape::output_of;
use crate::shape::prev_out_of;
use crate::shape::required_bool;
use crate::shape::required_outpoints;
use crate::shape::required_text;
use crate::shape::required_u32;
use crate::shape::required_u64;
use crate::shape::text_of;
use crate::shape::transaction_of;
use crate::shape::u32_of;
use crate::shape::u64_of;

verus! {

/// Why an answer could not be read as a record.
#[derive(Debug, PartialEq, Eq)]
pub enum DecodeError {
    /// The text is no well-formed JSON. The message is the parser's.
    Syntax(String),
    /// A record was expected, and the value is no object.
    NotAnObject,
    /// The named member is required and absent.
    Missing(&'static str),
    /// The named member holds a value of the wrong kind, or a number that
    /// its field cannot hold.
    Mismatch(&'static str),
}

impl View for DecodeError {
    type V = Fault;

    open spec fn view(&self) -> Fault {
        match self {
            DecodeError::Syntax(message) => Fault::Syntax(message@),
            DecodeError::NotAnObject => Fault::NotAnObject,
            DecodeError::Missing(name) => Fault::Missing(name@),
            DecodeError::Mismatch(name) => Fault::Mismatch(name@),
        }
    }
}

/// What is shown for a fault.
pub open spec fn fault_text(fault: Fault) -> Seq<char> {
    match fault {
        Fault::Syntax(message) => "invalid JSON: "@ + message,
        Fault::NotAnObject => "expected a JSON object"@,
        Fault::Missing(name) => "missing field `"@ + name + "`"@,
        Fault::Mismatch(name) => "invalid value for field `"@ + name + "`"@,
    }
}

impl DecodeError {
    /// Says in words what is wrong.
    pub fn describe(&self) -> (text: String)
        ensures
            text@ == fault_text(self@),
    {
        match self {
            DecodeError::Syntax(message) => {
                let mut text = String::from_str("invalid JSON: ");
                text.append(message.as_str());
                text
            },
            DecodeError::NotAnObject => String::from_str("expected a JSON object"),
            DecodeError::Missing(name) => {
                let mut text = String::from_str("missing field `");
                text.append(name);
                text.append("`");
                text
            },
            DecodeError::Mismatch(name) => {
                let mut text = String::from_str("invalid value for field `");
                text.append(name);
                text.append("`");
                text
            },
        }
    }
}

/// Reads a whole number from 0 to 2^64 - 1.
pub fn read_u64(value: &Json) -> (read: Option<u64>)
    ensures
        read == u64_of(value@),
{
    match value {
        Json::Natural(n) => Some(*n),
        _ => None,
    }
}

/// Reads a whole number from 0 to 2^32 - 1.
pub fn read_u32(value: &Json) -> (read: Option<u32>)
    ensures
        read == u32_of(value@),
{
    match value {
        Json::Natural(n) => if *n <= 0xffff_ffff {
            Some(*n as u32)
        } else {
            None
        },
        _ => None,
    }
}

/// Reads a boolean.
pub fn read_bool(value: &Json) -> (read: Option<bool>)
    ensures
        read == bool_of(value@),
{
    match value {
        Json::Bool(b) => Some(*b),
        _ => None,
    }
}

/// Reads a string.
pub fn read_text(value: &Json) -> (read: Option<String>)
    ensures
        text_view(read) == text_of(value@),
{
    match value {
        Json::Text(s) => Some(s.clone()),
        _ => None,
    }
}

/// Reads the required number `name` of a record.
pub fn field_u64(record: &Json, name: &'static str) -> (read: Result<u64, DecodeError>)
    ensures
        match read {
            Ok(n) => required_u64(record@, name@) == Ok::<u64, Fault>(n),
            Err(error) => required_u64(record@, name@) == Err::<u64, Fault>(error@),
        },
{
    match record.get(name) {
        Some(value) => match read_u64(value) {
            Some(n) => Ok(n),
            None => Err(DecodeError::Mismatch(name)),
        },
        None => Err(DecodeError::Missing(name)),
    }
}

/// Reads the required number `name` of a record.
pub fn field_u32(record: &Json, name: &'static str) -> (read: Result<u32, DecodeError>)
    ensures
        match read {
            Ok(n) => required_u32(record@, name@) == Ok::<u32, Fault>(n),
            Err(error) => required_u32(record@, name@) == Err::<u32, Fault>(error@),
        },
{
    match record.get(name) {
        Some(value) => match read_u32(value) {
            Some(n) => Ok(n),
            None => Err(DecodeError::Mismatch(name)),
        },
        None => Err(DecodeError::Missing(name)),
    }
}

/// Reads the required boolean `name` of a record.
pub fn field_bool(record: &Json, name: &'static str) -> (read: Result<bool, DecodeError>)
    ensures
        match read {
            Ok(b) => required_bool(record@, name@) == Ok::<bool, Fault>(b),
            Err(error) => required_bool(record@, name@) == Err::<bool, Fault>(error@),
        },
{
    match record.get(name) {
        Some(value) => match read_bool(value) {
            Some(b) => Ok(b),
            None => Err(DecodeError::Mismatch(name)),
        },
        None => Err(DecodeError::Missing(name)),
    }
}

/// Reads the required string `name` of a record.
pub fn field_text(record: &Json, name: &'static str) -> (read: Result<String, DecodeError>)
    ensures
        match read {
            Ok(s) => required_text(record@, name@) == Ok::<Seq<char>, Fault>(s@),
            Err(error) => required_text(record@, name@) == Err::<Seq<char>, Fault>(error@),
        },
{
    match record.get(name) {
        Some(value) => match read_text(value) {
            Some(s) => Ok(s),
            None => Err(DecodeError::Mismatch(name)),
        },
        None => Err(DecodeError::Missing(name)),
    }
}

/// Reads the number `name` of a record, zero where the member is absent.
pub fn field_u64_or_zero(record: &Json, name: &'static str) -> (read: Result<u64, DecodeError>)
    ensures
        match read {
            Ok(n) => defaulted_u64(record@, name@) == Ok::<u64, Fault>(n),
            Err(error) => defaulted_u64(record@, name@) == Err::<u64, Fault>(error@),
        },
{
    match record.get(name) {
        Some(value) => match read_u64(value) {
            Some(n) => Ok(n),
            None => Err(DecodeError::Mismatch(name)),
        },
        None => Ok(0),
    }
}

/// Reads the number `name` of a record, zero where the member is absent.
pub fn field_u32_or_zero(record: &Json, name: &'static str) -> (read: Result<u32, DecodeError>)
    ensures
        match read {
            Ok(n) => defaulted_u32(record@, name@) == Ok::<u32, Fault>(n),
            Err(error) => defaulted_u32(record@, name@) == Err::<u32, Fault>(error@),
        },
{
    match record.get(name) {
        Some(value) => match read_u32(value) {
            Some(n) => Ok(n),
            None => Err(DecodeError::Mismatch(name)),
        },
        None => Ok(0),
    }
}

/// Reads the string `name` of a record, empty where the member is absent.
pub fn field_text_or_empty(record: &Json, name: &'static str) -> (read: Result<
    String,
    DecodeError,
>)
    ensures
        match read {
            Ok(s) => defaulted_text(record@, name@) == Ok::<Seq<char>, Fault>(s@),
            Err(error) => defaulted_text(record@, name@) == Err::<Seq<char>, Fault>(error@),
        },
{
    match record.get(name) {
        Some(value) => match read_text(value) {
            Some(s) => Ok(s),
            None => Err(DecodeError::Mismatch(name)),
        },
        None => Ok(String::new()),
    }
}

/// Reads the string `name` of a record, which may be absent or null.
pub fn field_text_if_any(record: &Json, name: &'static str) -> (read: Result<
    Option<String>,
    DecodeError,
>)
    ensures
        match read {
            Ok(s) => optional_text(record@, name@) == Ok::<Option<Seq<char>>, Fault>(text_view(s)),
            Err(error) => optional_text(record@, name@) == Err::<Option<Seq<char>>, Fault>(
                error@,
            ),
        },
{
    match record.get(name) {
        None => Ok(None),
        Some(Json::Null) => Ok(None),
        Some(Json::Text(s)) => Ok(Some(s.clone())),
        Some(_) => Err(DecodeError::Mismatch(name)),
    }
}

/// Reads the string `name` of a record with tolerance: a member that is
/// absent, or holds anything but a string, gives the empty string and no
/// error.
pub fn field_text_lenient(record: &Json, name: &str) -> (read: String)
    ensures
        read@ == lenient_text(record@, name@),
{
    match record.get(name) {
        Some(Json::Text(s)) => s.clone(),
        _ => String::new(),
    }
}

/// A record that is read from a JSON value by a rule of `shape`.
pub trait Record: View + Sized {
    /// The rule by which the record is read.
    spec fn rule(value: JsonView) -> Result<Self::V, Fault>;

    /// Reads `value` as the record.
    fn read(value: &Json) -> (read: Result<Self, DecodeError>)
        ensures
            match read {
                Ok(record) => Self::rule(value@) == Ok::<Self::V, Fault>(record@),
                Err(error) => Self::rule(value@) == Err::<Self::V, Fault>(error@),
            },
    ;
}

/// Reads an array of records, item by item; `name` is the member that holds
/// it. The first item that cannot be read decides the error.
pub fn decode_array<T: Record>(name: &'static str, value: &Json) -> (read: Result<
    Vec<T>,
    DecodeError,
>)
    ensures
        match read {
            Ok(records) => array_of(name@, value@, |item: JsonView| T::rule(item)) == Ok::<
                Seq<T::V>,
                Fault,
            >(views(records@)),
            Err(error) => array_of(name@, value@, |item: JsonView| T::rule(item)) == Err::<
                Seq<T::V>,
                Fault,
            >(error@),
        },
{
    match value {
        Json::Array(items) => {
            let ghost models = value@->Array_0;
            let ghost reader = |item: JsonView| T::rule(item);
            let mut records: Vec<T> = Vec::new();
            let mut i: usize = 0;
            proof {
                lemma_items_view(items@);
                assert(models.take(0) =~= Seq::<JsonView>::empty());
                assert(views(records@) =~= Seq::<T::V>::empty());
            }
            while i < items.len()
                invariant
                    i <= items.len(),
                    value@ == JsonView::Array(models),
                    reader == |item: JsonView| T::rule(item),
                    models.len() == items.len(),
                    forall|k: int| 0 <= k < items.len() ==> items[k]@ == #[trigger] models[k],
                    each(models.take(i as int), reader) == Ok::<Seq<T::V>, Fault>(
                        views(records@),
                    ),
                decreases items.len() - i,
            {
                proof {
                    lemma_each_step(models, reader, i as int);
                }
                match T::read(&items[i]) {
                    Ok(record) => {
                        let ghost before = records@;
                        records.push(record);
                        assert(views(records@) =~= views(before).push(record@));
                    },
                    Err(error) => {
                        proof {
                            lemma_each_keeps_fault(models, reader, i + 1);
                        }
                        return Err(error);
                    },
                }
                i += 1;
            }
            assert(models.take(i as int) =~= models);
            Ok(records)
        },
        _ => Err(DecodeError::Mismatch(name)),
    }
}

/// Reads a reference to an output.
pub fn decode_outpoint(value: &Json) -> (read: Result<SpendingOutpoint, DecodeError>)
    ensures
        match read {
            Ok(outpoint) => outpoint_of(value@) == Ok::<SpendingOutpoint, Fault>(outpoint),
            Err(error) => outpoint_of(value@) == Err::<SpendingOutpoint, Fault>(error@),
        },
{
    if !value.is_object() {
        return Err(DecodeError::NotAnObject);
    }
    let tx_index = match field_u64(value, "tx_index") {
        Ok(x) => x,
        Err(error) => return Err(error),
    };
    let n = match field_u32(value, "n") {
        Ok(x) => x,
        Err(error) => return Err(error),
    };
    Ok(SpendingOutpoint { tx_index, n })
}

/// Reads the array that a member `spending_outpoints` holds.
fn decode_outpoints(value: &Json) -> (read: Result<Vec<SpendingOutpoint>, DecodeError>)
    ensures
        match read {
            Ok(outpoints) => array_of(
                "spending_outpoints"@,
                value@,
                |item: JsonView| outpoint_of(item),
            ) == Ok::<Seq<SpendingOutpoint>, Fault>(outpoints@),
            Err(error) => array_of(
                "spending_outpoints"@,
                value@,
                |item: JsonView| outpoint_of(item),
            ) == Err::<Seq<SpendingOutpoint>, Fault>(error@),
        },
{
    let read = decode_array::<SpendingOutpoint>("spending_outpoints", value);
    proof {
        assert((|item: JsonView| SpendingOutpoint::rule(item)) =~= (|item: JsonView|
            outpoint_of(item)));
        if read is Ok {
            assert(views(read->Ok_0@) =~= read->Ok_0@);
        }
    }
    read
}

/// Reads the required member `spending_outpoints` of a record.
pub fn field_outpoints(record: &Json) -> (read: Result<Vec<SpendingOutpoint>, DecodeError>)
    ensures
        match read {
            Ok(outpoints) => required_outpoints(record@) == Ok::<Seq<SpendingOutpoint>, Fault>(
                outpoints@,
            ),
            Err(error) => required_outpoints(record@) == Err::<Seq<SpendingOutpoint>, Fault>(
                error@,
            ),
        },
{
    match record.get("spending_outpoints") {
        Some(value) => decode_outpoints(value),
        None => Err(DecodeError::Missing("spending_outpoints")),
    }
}

/// Reads the member `spending_outpoints` of a record, empty where it is
/// absent.
pub fn field_outpoints_or_empty(record: &Json) -> (read: Result<
    Vec<SpendingOutpoint>,
    DecodeError,
>)
    ensures
        match read {
            Ok(outpoints) => defaulted_outpoints(record@) == Ok::<Seq<SpendingOutpoint>, Fault>(
                outpoints@,
            ),
            Err(error) => defaulted_outpoints(record@) == Err::<Seq<SpendingOutpoint>, Fault>(
                error@,
            ),
        },
{
    match record.get("spending_outpoints") {
        Some(value) => decode_outpoints(value),
        None => Ok(Vec::new()),
    }
}

/// Reads the output that an input spends.
pub fn decode_prev_out(value: &Json) -> (read: Result<PrevOut, DecodeError>)
    ensures
        match read {
            Ok(prev_out) => prev_out_of(value@) == Ok::<PrevOutView, Fault>(prev_out@),
            Err(error) => prev_out_of(value@) == Err::<PrevOutView, Fault>(error@),
        },
{
    if !value.is_object() {
        return Err(DecodeError::NotAnObject);
    }
    let output_type = match field_u32(value, "type") {
        Ok(x) => x,
        Err(error) => return Err(error),
    };
    let spent = match field_bool(value, "spent") {
        Ok(x) => x,
        Err(error) => return Err(error),
    };
    let amount = match field_u64(value, "value") {
        Ok(x) => x,
        Err(error) => return Err(error),
    };
    let spending_outpoints = match field_outpoints(value) {
        Ok(x) => x,
        Err(error) => return Err(error),
    };
    let n = match field_u32(value, "n") {
        Ok(x) => x,
        Err(error) => return Err(error),
    };
    let tx_index = match field_u64(value, "tx_index") {
        Ok(x) => x,
        Err(error) => return Err(error),
    };
    let script = match field_text(value, "script") {
        Ok(x) => x,
        Err(error) => return Err(error),
    };
    let addr = match field_text_if_any(value, "addr") {
        Ok(x) => x,
        Err(error) => return Err(error),
    };
    Ok(PrevOut { output_type, spent, value: amount, spending_outpoints, n, tx_index, script, addr })
}

/// Reads the member `prev_out` of an input, which may be absent or null.
pub fn field_prev_out_if_any(record: &Json) -> (read: Result<Option<PrevOut>, DecodeError>)
    ensures
        match read {
            Ok(Some(prev_out)) => optional_prev_out(record@) == Ok::<Option<PrevOutView>, Fault>(
                Some(prev_out@),
            ),
            Ok(None) => optional_prev_out(record@) == Ok::<Option<PrevOutView>, Fault>(None),
            Err(error) => optional_prev_out(record@) == Err::<Option<PrevOutView>, Fault>(error@),
        },
{
    match record.get("prev_out") {
        None => Ok(None),
        Some(Json::Null) => Ok(None),
        Some(value) => match decode_prev_out(value) {
            Ok(prev_out) => Ok(Some(prev_out)),
            Err(error) => Err(error),
        },
    }
}

/// Reads one input of a transaction.
pub fn decode_input(value: &Json) -> (read: Result<Input, DecodeError>)
    ensures
        match read {
            Ok(input) => input_of(value@) == Ok::<InputView, Fault>(input@),
            Err(error) => input_of(value@) == Err::<InputView, Fault>(error@),
        },
{
    if !value.is_object() {
        return Err(DecodeError::NotAnObject);
    }
    let sequence = match field_u64(value, "sequence") {
        Ok(x) => x,
        Err(error) => return Err(error),
    };
    let witness = match field_text_or_empty(value, "witness") {
        Ok(x) => x,
        Err(error) => return Err(error),
    };
    let script = match field_text(value, "script") {
        Ok(x) => x,
        Err(error) => return Err(error),
    };
    let index = match field_u32(value, "index") {
        Ok(x) => x,
        Err(error) => return Err(error),
    };
    let prev_out = match field_prev_out_if_any(value) {
        Ok(x) => x,
        Err(error) => return Err(error),
    };
    Ok(Input { sequence, witness, script, index, prev_out })
}

/// Reads one output of a transaction.
pub fn decode_output(value: &Json) -> (read: Result<Output, DecodeError>)
    ensures
        match read {
            Ok(output) => output_of(value@) == Ok::<OutputView, Fault>(output@),
            Err(error) => output_of(value@) == Err::<OutputView, Fault>(error@),
        },
{
    if !value.is_object() {
        return Err(DecodeError::NotAnObject);
    }
    let output_type = match field_u32(value, "type") {
        Ok(x) => x,
        Err(error) => return Err(error),
    };
    let spent = match field_bool(value, "spent") {
        Ok(x) => x,
        Err(error) => return Err(error),
    };
    let amount = match field_u64(value, "value") {
        Ok(x) => x,
        Err(error) => return Err(error),
    };
    let spending_outpoints = match field_outpoints_or_empty(value) {
        Ok(x) => x,
        Err(error) => return Err(error),
    };
    let n = match field_u32(value, "n") {
        Ok(x) => x,
        Err(error) => return Err(error),
    };
    let tx_index = match field_u64(value, "tx_index") {
        Ok(x) => x,
        Err(error) => return Err(error),
    };
    let script = match field_text(value, "script") {
        Ok(x) => x,
        Err(error) => return Err(error),
    };
    let addr = match field_text_if_any(value, "addr") {
        Ok(x) => x,
        Err(error) => return Err(error),
    };
    Ok(Output { output_type, spent, value: amount, spending_outpoints, n, tx_index, script, addr })
}

/// Reads a transaction. Every member of it may be absent.
pub fn decode_transaction(value: &Json) -> (read: Result<Transaction, DecodeError>)
    ensures
        match read {
            Ok(transaction) => transaction_of(value@) == Ok::<TransactionView, Fault>(transaction@),
            Err(error) => transaction_of(value@) == Err::<TransactionView, Fault>(error@),
        },
{
    if !value.is_object() {
        return Err(DecodeError::NotAnObject);
    }
    let hash = match field_text_or_empty(value, "hash") {
        Ok(x) => x,
        Err(error) => return Err(error),
    };
    let ver = match field_u32_or_zero(value, "ver") {
        Ok(x) => x,
        Err(error) => return Err(error),
    };
    proof {
        assert((|item: JsonView| Input::rule(item)) =~= (|item: JsonView| input_of(item)));
        assert((|item: JsonView| Output::rule(item)) =~= (|item: JsonView| output_of(item)));
    }
    let inputs = match value.get("inputs") {
        Some(array) => match decode_array::<Input>("inputs", array) {
            Ok(x) => x,
            Err(error) => return Err(error),
        },
        None => Vec::new(),
    };
    let out = match value.get("out") {
        Some(array) => match decode_array::<Output>("out", array) {
            Ok(x) => x,
            Err(error) => return Err(error),
        },
        None => Vec::new(),
    };
    proof {
        if value@.member("inputs"@) is None {
            assert(views(inputs@) =~= Seq::<InputView>::empty());
        }
        if value@.member("out"@) is None {
            assert(views(out@) =~= Seq::<OutputView>::empty());
        }
    }
    Ok(Transaction { hash, ver, inputs, out })
}

/// Reads a block.
///
/// The answer is a block exactly when the value is an object that holds
/// every required member with a value that fits its field; members that no
/// field reads are passed over, and `relayed_by` is read with tolerance.
/// Otherwise the error names the first member, in the order of the fields,
/// that is missing or does not fit.
pub fn decode_block(value: &Json) -> (read: Result<Block, DecodeError>)
    ensures
        match read {
            Ok(block) => block_of(value@) == Ok::<BlockView, Fault>(block@),
            Err(error) => block_of(value@) == Err::<BlockView, Fault>(error@),
        },
{
    if !value.is_object() {
        return Err(DecodeError::NotAnObject);
    }
    let hash = match field_text(value, "hash") {
        Ok(x) => x,
        Err(error) => return Err(error),
    };
    let ver = match field_u32(value, "ver") {
        Ok(x) => x,
        Err(error) => return Err(error),
    };
    let prev_block = match field_text(value, "prev_block") {
        Ok(x) => x,
        Err(error) => return Err(error),
    };
    let merkle_root = match field_text(value, "mrkl_root") {
        Ok(x) => x,
        Err(error) => return Err(error),
    };
    let time = match field_u64(value, "time") {
        Ok(x) => x,
        Err(error) => return Err(error),
    };
    let bits = match field_u32(value, "bits") {
        Ok(x) => x,
        Err(error) => return Err(error),
    };
    let nonce = match field_u32(value, "nonce") {
        Ok(x) => x,
        Err(error) => return Err(error),
    };
    let n_tx = match field_u32(value, "n_tx") {
        Ok(x) => x,
        Err(error) => return Err(error),
    };
    let size = match field_u32(value, "size") {
        Ok(x) => x,
        Err(error) => return Err(error),
    };
    let block_index = match field_u64(value, "block_index") {
        Ok(x) => x,
        Err(error) => return Err(error),
    };
    let main_chain = match field_bool(value, "main_chain") {
        Ok(x) => x,
        Err(error) => return Err(error),
    };
    let height = match field_u32(value, "height") {
        Ok(x) => x,
        Err(error) => return Err(error),
    };
    let received_time = match field_u64_or_zero(value, "received_time") {
        Ok(x) => x,
        Err(error) => return Err(error),
    };
    proof {
        assert((|item: JsonView| Transaction::rule(item)) =~= (|item: JsonView|
            transaction_of(item)));
    }
    let tx = match value.get("tx") {
        Some(array) => match decode_array::<Transaction>("tx", array) {
            Ok(x) => x,
            Err(error) => return Err(error),
        },
        None => return Err(DecodeError::Missing("tx")),
    };
    let relayed_by = field_text_lenient(value, "relayed_by");
    Ok(
        Block {
            hash,
            ver,
            prev_block,
            merkle_root,
            time,
            bits,
            nonce,
            n_tx,
            size,
            block_index,
            main_chain,
            height,
            received_time,
            relayed_by,
            tx,
        },
    )
}

impl Record for SpendingOutpoint {
    open spec fn rule(value: JsonView) -> Result<SpendingOutpoint, Fault> {
        outpoint_of(value)
    }

    fn read(value: &Json) -> (read: Result<SpendingOutpoint, DecodeError>) {
        decode_outpoint(value)
    }
}

impl Record for Input {
    open spec fn rule(value: JsonView) -> Result<InputView, Fault> {
        input_of(value)
    }

    fn read(value: &Json) -> (read: Result<Input, DecodeError>) {
        decode_input(value)
    }
}

impl Record for Output {
    open spec fn rule(value: JsonView) -> Result<OutputView, Fault> {
        output_of(value)
    }

    fn read(value: &Json) -> (read: Result<Output, DecodeError>) {
        decode_output(value)
    }
}

impl Record for Transaction {
    open spec fn rule(value: JsonView) -> Result<TransactionView, Fault> {
        transaction_of(value)
    }

    fn read(value: &Json) -> (read: Result<Transaction, DecodeError>) {
        decode_transaction(value)
    }
}

} // verus!
