use block_explorer::url::append_encoded;
use block_explorer::url::block_url;
use block_explorer::url::BLOCK_ENDPOINT;

fn encoded(segment: &str) -> String {
    let mut out = String::new();
    append_encoded(&mut out, segment);
    out
}

#[test]
fn a_hash_goes_into_the_address_as_it_is() {
    let hash = "0000000000000bae09a7a393a8acded75aa67e46cb81f7acaa5ad94f9eacd103";
    assert_eq!(block_url(hash), format!("https://blockchain.info/rawblock/{}", hash));
    assert_eq!(block_url("170"), "https://blockchain.info/rawblock/170");
}

#[test]
fn unreserved_characters_are_kept() {
    let all = "ABCDEFGHIJKLMNOPQRSTUVWXYZabcdefghijklmnopqrstuvwxyz0123456789-._~";
    assert_eq!(encoded(all), all);
}

#[test]
fn other_characters_are_escaped() {
    assert_eq!(encoded("a/b"), "a%2Fb");
    assert_eq!(encoded("a?b=c&d"), "a%3Fb%3Dc%26d");
    assert_eq!(encoded("a b"), "a%20b");
    assert_eq!(encoded("../x"), "..%2Fx");
    assert_eq!(encoded("#%"), "%23%25");
    assert_eq!(encoded("@[`{"), "%40%5B%60%7B");
    assert_eq!(encoded("\u{0}\u{7f}\n"), "%00%7F%0A");
}

#[test]
fn characters_beyond_ascii_are_escaped_byte_by_byte() {
    assert_eq!(encoded("\u{e9}"), "%C3%A9");
    assert_eq!(encoded("\u{20ac}1"), "%E2%82%AC1");
    assert_eq!(encoded("\u{1f600}"), "%F0%9F%98%80");
}

#[test]
fn the_empty_identifier_gives_the_endpoint() {
    assert_eq!(block_url(""), BLOCK_ENDPOINT);
    assert_eq!(BLOCK_ENDPOINT, "https://blockchain.info/rawblock/");
}

#[test]
fn encoding_appends_to_what_is_there() {
    let mut out = "x=".to_string();
    append_encoded(&mut out, "a b");
    assert_eq!(out, "x=a%20b");
}
