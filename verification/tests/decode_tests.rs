use block_explorer::decode::decode_array;
use block_explorer::decode::decode_block;
use block_explorer::decode::decode_input;
use block_explorer::decode::decode_outpoint;
use block_explorer::decode::decode_output;
use block_explorer::decode::decode_prev_out;
use block_explorer::decode::decode_transaction;
use block_explorer::decode::field_text_lenient;
use block_explorer::decode::field_u32;
use block_explorer::decode::field_u64;
use block_explorer::decode::read_u32;
use block_explorer::decode::DecodeError;
use block_explorer::fetch::decode_block_text;
use block_explorer::json::Json;
use block_explorer::parse::parse_json;
use block_explorer::record::Block;
use block_explorer::record::Input;
use block_explorer::record::Output;
use block_explorer::record::PrevOut;
use block_explorer::record::SpendingOutpoint;
use block_explorer::record::Transaction;

fn text(s: &str) -> Json {
    Json::Text(s.to_string())
}

fn object(members: Vec<(&str, Json)>) -> Json {
    Json::Object(members.into_iter().map(|(name, value)| (name.to_string(), value)).collect())
}

fn block_members() -> Vec<(&'static str, Json)> {
    vec![
        ("hash", text("00000000000000000001")),
        ("ver", Json::Natural(536870912)),
        ("prev_block", text("00000000000000000000")),
        ("mrkl_root", text("abcdef")),
        ("time", Json::Natural(1700000000)),
        ("bits", Json::Natural(386089497)),
        ("nonce", Json::Natural(4294967295)),
        ("n_tx", Json::Natural(2)),
        ("size", Json::Natural(1234)),
        ("block_index", Json::Natural(818000)),
        ("main_chain", Json::Bool(true)),
        ("height", Json::Natural(818000)),
        ("tx", Json::Array(vec![])),
    ]
}

fn without(members: Vec<(&'static str, Json)>, name: &str) -> Vec<(&'static str, Json)> {
    members.into_iter().filter(|(n, _)| *n != name).collect()
}

fn with(
    members: Vec<(&'static str, Json)>,
    name: &'static str,
    value: Json,
) -> Vec<(&'static str, Json)> {
    let mut kept = without(members, name);
    kept.push((name, value));
    kept
}

fn plain_block() -> Block {
    Block {
        hash: "00000000000000000001".to_string(),
        ver: 536870912,
        prev_block: "00000000000000000000".to_string(),
        merkle_root: "abcdef".to_string(),
        time: 1700000000,
        bits: 386089497,
        nonce: 4294967295,
        n_tx: 2,
        size: 1234,
        block_index: 818000,
        main_chain: true,
        height: 818000,
        received_time: 0,
        relayed_by: String::new(),
        tx: vec![],
    }
}

const FULL_BODY: &str = r#"{
  "hash": "0000000000000000000abc",
  "ver": 2,
  "prev_block": "0000000000000000000abb",
  "mrkl_root": "feed",
  "time": 1415239972,
  "bits": 404454260,
  "fee": 200000,
  "nonce": 2504433986,
  "n_tx": 1,
  "size": 1015,
  "block_index": 818044,
  "main_chain": true,
  "height": 154595,
  "received_time": 1415239973,
  "relayed_by": "108.60.208.156",
  "weight": 3000,
  "tx": [
    {
      "hash": "b6f6",
      "ver": 1,
      "vin_sz": 1,
      "lock_time": 0,
      "inputs": [
        {
          "sequence": 4294967295,
          "witness": "",
          "script": "76a9",
          "index": 0,
          "prev_out": {
            "type": 0,
            "spent": true,
            "value": 5000000000,
            "spending_outpoints": [{"tx_index": 12, "n": 0}],
            "n": 1,
            "tx_index": 11,
            "script": "76a914",
            "addr": "1PMycacnJaSqwwJqjawXBErnLsZ7RkXUAs"
          }
        },
        {
          "sequence": 0,
          "script": "",
          "index": 1,
          "prev_out": null
        }
      ],
      "out": [
        {
          "type": 0,
          "spent": false,
          "value": 4999800000,
          "n": 0,
          "tx_index": 12,
          "script": "76a914ff",
          "addr": null
        }
      ]
    }
  ]
}"#;

#[test]
fn decode_populates_every_field_of_a_full_body() {
    let block = decode_block_text(FULL_BODY.as_bytes()).unwrap();
    let expected = Block {
        hash: "0000000000000000000abc".to_string(),
        ver: 2,
        prev_block: "0000000000000000000abb".to_string(),
        merkle_root: "feed".to_string(),
        time: 1415239972,
        bits: 404454260,
        nonce: 2504433986,
        n_tx: 1,
        size: 1015,
        block_index: 818044,
        main_chain: true,
        height: 154595,
        received_time: 1415239973,
        relayed_by: "108.60.208.156".to_string(),
        tx: vec![Transaction {
            hash: "b6f6".to_string(),
            ver: 1,
            inputs: vec![
                Input {
                    sequence: 4294967295,
                    witness: String::new(),
                    script: "76a9".to_string(),
                    index: 0,
                    prev_out: Some(PrevOut {
                        output_type: 0,
                        spent: true,
                        value: 5000000000,
                        spending_outpoints: vec![SpendingOutpoint { tx_index: 12, n: 0 }],
                        n: 1,
                        tx_index: 11,
                        script: "76a914".to_string(),
                        addr: Some("1PMycacnJaSqwwJqjawXBErnLsZ7RkXUAs".to_string()),
                    }),
                },
                Input {
                    sequence: 0,
                    witness: String::new(),
                    script: String::new(),
                    index: 1,
                    prev_out: None,
                },
            ],
            out: vec![Output {
                output_type: 0,
                spent: false,
                value: 4999800000,
                spending_outpoints: vec![],
                n: 0,
                tx_index: 12,
                script: "76a914ff".to_string(),
                addr: None,
            }],
        }],
    };
    assert_eq!(block, expected);
}

#[test]
fn decode_reads_a_block_written_as_a_value() {
    let block = decode_block(&object(block_members())).unwrap();
    assert_eq!(block, plain_block());
}

#[test]
fn decode_passes_over_unknown_members() {
    let mut members = block_members();
    members.insert(0, ("fee", Json::Natural(12)));
    members.insert(5, ("next_block", Json::Array(vec![text("x")])));
    members.push(("weight", object(vec![("a", Json::Null)])));
    let block = decode_block(&object(members)).unwrap();
    assert_eq!(block, plain_block());
}

#[test]
fn relayed_by_that_is_a_number_reads_as_empty() {
    let members = with(block_members(), "relayed_by", Json::Natural(42));
    let block = decode_block(&object(members)).unwrap();
    assert_eq!(block.relayed_by, "");
    assert_eq!(block, plain_block());
}

#[test]
fn relayed_by_that_is_an_object_reads_as_empty() {
    let members = with(block_members(), "relayed_by", object(vec![("pool", text("x"))]));
    let block = decode_block(&object(members)).unwrap();
    assert_eq!(block.relayed_by, "");
}

#[test]
fn relayed_by_of_other_kinds_reads_as_empty() {
    for held in [Json::Null, Json::Bool(false), Json::OtherNumber, Json::Array(vec![])] {
        let members = with(block_members(), "relayed_by", held);
        let block = decode_block(&object(members)).unwrap();
        assert_eq!(block.relayed_by, "");
    }
}

#[test]
fn relayed_by_from_text_of_a_number_or_object() {
    let number = FULL_BODY.replace(r#""relayed_by": "108.60.208.156""#, r#""relayed_by": 17.5"#);
    assert_eq!(decode_block_text(number.as_bytes()).unwrap().relayed_by, "");
    let nested = FULL_BODY.replace(r#""relayed_by": "108.60.208.156""#, r#""relayed_by": {"a": 1}"#);
    assert_eq!(decode_block_text(nested.as_bytes()).unwrap().relayed_by, "");
}

#[test]
fn relayed_by_that_is_a_string_is_kept() {
    let members = with(block_members(), "relayed_by", text("0.0.0.0"));
    let block = decode_block(&object(members)).unwrap();
    assert_eq!(block.relayed_by, "0.0.0.0");
}

#[test]
fn received_time_is_zero_when_absent_and_kept_when_present() {
    let block = decode_block(&object(block_members())).unwrap();
    assert_eq!(block.received_time, 0);
    let members = with(block_members(), "received_time", Json::Natural(99));
    assert_eq!(decode_block(&object(members)).unwrap().received_time, 99);
    let members = with(block_members(), "received_time", text("99"));
    assert_eq!(
        decode_block(&object(members)),
        Err(DecodeError::Mismatch("received_time"))
    );
}

#[test]
fn each_required_member_is_missed() {
    for name in [
        "hash",
        "ver",
        "prev_block",
        "mrkl_root",
        "time",
        "bits",
        "nonce",
        "n_tx",
        "size",
        "block_index",
        "main_chain",
        "height",
        "tx",
    ] {
        let members = without(block_members(), name);
        match decode_block(&object(members)) {
            Err(DecodeError::Missing(missed)) => assert_eq!(missed, name),
            other => panic!("{}: {:?}", name, other),
        }
    }
}

#[test]
fn each_required_member_of_the_wrong_kind_is_refused() {
    for (name, held) in [
        ("hash", Json::Natural(1)),
        ("ver", text("1")),
        ("prev_block", Json::Null),
        ("mrkl_root", Json::Bool(true)),
        ("time", Json::OtherNumber),
        ("bits", Json::Natural(4294967296)),
        ("nonce", Json::Array(vec![])),
        ("n_tx", Json::Null),
        ("size", Json::OtherNumber),
        ("block_index", text("818000")),
        ("main_chain", Json::Natural(1)),
        ("height", Json::Natural(u64::MAX)),
        ("tx", object(vec![])),
    ] {
        let members = with(block_members(), name, held);
        match decode_block(&object(members)) {
            Err(DecodeError::Mismatch(refused)) => assert_eq!(refused, name),
            other => panic!("{}: {:?}", name, other),
        }
    }
}

#[test]
fn the_first_fault_in_field_order_is_reported() {
    let members = with(without(block_members(), "height"), "ver", text("x"));
    assert_eq!(decode_block(&object(members)), Err(DecodeError::Mismatch("ver")));
}

#[test]
fn a_value_that_is_no_object_is_refused() {
    assert_eq!(decode_block(&Json::Array(vec![])), Err(DecodeError::NotAnObject));
    assert_eq!(decode_block(&Json::Null), Err(DecodeError::NotAnObject));
    assert_eq!(decode_transaction(&Json::Natural(1)), Err(DecodeError::NotAnObject));
    assert_eq!(decode_input(&text("x")), Err(DecodeError::NotAnObject));
    assert_eq!(decode_output(&Json::Bool(true)), Err(DecodeError::NotAnObject));
    assert_eq!(decode_prev_out(&Json::Array(vec![])), Err(DecodeError::NotAnObject));
    assert_eq!(decode_outpoint(&Json::OtherNumber), Err(DecodeError::NotAnObject));
}

#[test]
fn the_last_of_two_members_of_one_name_counts() {
    let mut members = block_members();
    members.push(("height", Json::Natural(5)));
    assert_eq!(decode_block(&object(members)).unwrap().height, 5);
}

#[test]
fn a_transaction_may_be_empty() {
    let transaction = decode_transaction(&object(vec![])).unwrap();
    assert_eq!(
        transaction,
        Transaction { hash: String::new(), ver: 0, inputs: vec![], out: vec![] }
    );
}

#[test]
fn a_transaction_member_of_the_wrong_kind_is_refused() {
    assert_eq!(
        decode_transaction(&object(vec![("hash", Json::Null)])),
        Err(DecodeError::Mismatch("hash"))
    );
    assert_eq!(
        decode_transaction(&object(vec![("ver", Json::Natural(4294967296))])),
        Err(DecodeError::Mismatch("ver"))
    );
    assert_eq!(
        decode_transaction(&object(vec![("inputs", Json::Null)])),
        Err(DecodeError::Mismatch("inputs"))
    );
    assert_eq!(
        decode_transaction(&object(vec![("out", text("x"))])),
        Err(DecodeError::Mismatch("out"))
    );
}

#[test]
fn a_fault_inside_a_transaction_fails_the_block() {
    let broken = object(vec![("inputs", Json::Array(vec![object(vec![("sequence", Json::Natural(1))])]))]);
    let members = with(
        block_members(),
        "tx",
        Json::Array(vec![object(vec![]), broken, Json::Null]),
    );
    assert_eq!(decode_block(&object(members)), Err(DecodeError::Missing("script")));
}

#[test]
fn the_first_item_that_fails_decides_the_fault() {
    let members = with(
        block_members(),
        "tx",
        Json::Array(vec![object(vec![]), Json::Null, object(vec![("ver", Json::Null)])]),
    );
    assert_eq!(decode_block(&object(members)), Err(DecodeError::NotAnObject));
}

#[test]
fn an_input_reads_its_defaults() {
    let input = decode_input(&object(vec![
        ("sequence", Json::Natural(7)),
        ("script", text("ab")),
        ("index", Json::Natural(3)),
    ]))
    .unwrap();
    assert_eq!(
        input,
        Input {
            sequence: 7,
            witness: String::new(),
            script: "ab".to_string(),
            index: 3,
            prev_out: None
        }
    );
    assert_eq!(
        decode_input(&object(vec![
            ("sequence", Json::Natural(7)),
            ("witness", Json::Null),
            ("script", text("ab")),
            ("index", Json::Natural(3)),
        ])),
        Err(DecodeError::Mismatch("witness"))
    );
}

fn output_members() -> Vec<(&'static str, Json)> {
    vec![
        ("type", Json::Natural(0)),
        ("spent", Json::Bool(false)),
        ("value", Json::Natural(10)),
        ("n", Json::Natural(1)),
        ("tx_index", Json::Natural(2)),
        ("script", text("s")),
    ]
}

#[test]
fn a_prev_out_needs_its_outpoints_and_an_output_does_not() {
    assert_eq!(
        decode_prev_out(&object(output_members())),
        Err(DecodeError::Missing("spending_outpoints"))
    );
    let output = decode_output(&object(output_members())).unwrap();
    assert_eq!(
        output,
        Output {
            output_type: 0,
            spent: false,
            value: 10,
            spending_outpoints: vec![],
            n: 1,
            tx_index: 2,
            script: "s".to_string(),
            addr: None
        }
    );
}

#[test]
fn an_address_may_be_null_or_a_string_and_nothing_else() {
    let mut with_null = output_members();
    with_null.push(("addr", Json::Null));
    assert_eq!(decode_output(&object(with_null)).unwrap().addr, None);
    let mut with_text = output_members();
    with_text.push(("addr", text("1abc")));
    assert_eq!(decode_output(&object(with_text)).unwrap().addr, Some("1abc".to_string()));
    let mut with_number = output_members();
    with_number.push(("addr", Json::Natural(1)));
    assert_eq!(decode_output(&object(with_number)), Err(DecodeError::Mismatch("addr")));
}

#[test]
fn outpoints_are_read_in_order() {
    let value = object(vec![
        ("type", Json::Natural(0)),
        ("spent", Json::Bool(true)),
        ("value", Json::Natural(10)),
        (
            "spending_outpoints",
            Json::Array(vec![
                object(vec![("tx_index", Json::Natural(5)), ("n", Json::Natural(0))]),
                object(vec![("n", Json::Natural(1)), ("tx_index", Json::Natural(6))]),
            ]),
        ),
        ("n", Json::Natural(1)),
        ("tx_index", Json::Natural(2)),
        ("script", text("s")),
    ]);
    assert_eq!(
        decode_prev_out(&value).unwrap().spending_outpoints,
        vec![SpendingOutpoint { tx_index: 5, n: 0 }, SpendingOutpoint { tx_index: 6, n: 1 }]
    );
}

#[test]
fn numbers_are_held_to_their_range() {
    assert_eq!(read_u32(&Json::Natural(4294967295)), Some(4294967295));
    assert_eq!(read_u32(&Json::Natural(4294967296)), None);
    assert_eq!(read_u32(&Json::OtherNumber), None);
    let record = parse_json(br#"{"a": 18446744073709551615, "b": 18446744073709551616, "c": -1, "d": 2.0, "e": 4294967296}"#).ok().unwrap();
    assert_eq!(field_u64(&record, "a"), Ok(u64::MAX));
    assert_eq!(field_u64(&record, "b"), Err(DecodeError::Mismatch("b")));
    assert_eq!(field_u64(&record, "c"), Err(DecodeError::Mismatch("c")));
    assert_eq!(field_u64(&record, "d"), Err(DecodeError::Mismatch("d")));
    assert_eq!(field_u32(&record, "e"), Err(DecodeError::Mismatch("e")));
    assert_eq!(field_u64(&record, "e"), Ok(4294967296));
    assert_eq!(field_u64(&record, "f"), Err(DecodeError::Missing("f")));
}

#[test]
fn lenient_text_never_fails() {
    let record = object(vec![("a", text("x")), ("b", Json::Natural(1))]);
    assert_eq!(field_text_lenient(&record, "a"), "x");
    assert_eq!(field_text_lenient(&record, "b"), "");
    assert_eq!(field_text_lenient(&record, "c"), "");
    assert_eq!(field_text_lenient(&Json::Null, "a"), "");
}

#[test]
fn a_body_that_is_no_json_is_a_syntax_error() {
    match decode_block_text(b"<html>busy</html>") {
        Err(DecodeError::Syntax(message)) => assert!(!message.is_empty()),
        other => panic!("{:?}", other),
    }
}

#[test]
fn a_body_with_a_missing_member_is_refused() {
    let body = FULL_BODY.replace(r#""mrkl_root": "feed","#, "");
    assert_eq!(decode_block_text(body.as_bytes()), Err(DecodeError::Missing("mrkl_root")));
}

#[test]
fn errors_are_described() {
    assert_eq!(DecodeError::Missing("hash").describe(), "missing field `hash`");
    assert_eq!(DecodeError::Mismatch("ver").describe(), "invalid value for field `ver`");
    assert_eq!(DecodeError::NotAnObject.describe(), "expected a JSON object");
    assert_eq!(DecodeError::Syntax("eof".to_string()).describe(), "invalid JSON: eof");
}

#[test]
fn an_array_is_read_item_by_item() {
    let array = Json::Array(vec![
        object(vec![("tx_index", Json::Natural(1)), ("n", Json::Natural(2))]),
        object(vec![("tx_index", Json::Natural(3)), ("n", Json::Natural(4)), ("x", Json::Null)]),
    ]);
    assert_eq!(
        decode_array::<SpendingOutpoint>("spending_outpoints", &array),
        Ok(vec![SpendingOutpoint { tx_index: 1, n: 2 }, SpendingOutpoint { tx_index: 3, n: 4 }])
    );
    assert_eq!(decode_array::<Transaction>("tx", &Json::Array(vec![])), Ok(vec![]));
    assert_eq!(
        decode_array::<Transaction>("tx", &array),
        Ok(vec![
            Transaction { hash: String::new(), ver: 0, inputs: vec![], out: vec![] },
            Transaction { hash: String::new(), ver: 0, inputs: vec![], out: vec![] },
        ])
    );
}

#[test]
fn what_is_no_array_is_refused_under_the_name_of_its_member() {
    assert_eq!(
        decode_array::<Input>("inputs", &object(vec![])),
        Err(DecodeError::Mismatch("inputs"))
    );
    assert_eq!(decode_array::<Output>("out", &Json::Null), Err(DecodeError::Mismatch("out")));
    assert_eq!(
        decode_array::<Input>("inputs", &Json::Array(vec![Json::Null])),
        Err(DecodeError::NotAnObject)
    );
}
