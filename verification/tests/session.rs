use sam3::proto::fields::parse_fields;
use sam3::session::{ensure_ok, parse_keyfile};
use sam3::{Destination, Keys, PrivateKey, SamClient, SamError, StreamListener};

#[test]
fn parse_fields_reads_basic_key_values() {
    let fields = parse_fields("HELLO REPLY RESULT=OK VERSION=3.3");

    assert_eq!(fields.get("RESULT").map(String::as_str), Some("OK"));
    assert_eq!(fields.get("VERSION").map(String::as_str), Some("3.3"));
    assert!(!fields.contains_key("HELLO"));
}

#[test]
fn parse_fields_reads_quoted_values_with_spaces() {
    let fields = parse_fields(r#"STREAM STATUS RESULT=I2P_ERROR MESSAGE="cannot reach peer""#);

    assert_eq!(
        fields.get("MESSAGE").map(String::as_str),
        Some("cannot reach peer")
    );
}

#[test]
fn parse_fields_unescapes_quoted_values() {
    let fields = parse_fields(r#"X Y MESSAGE="bad \"quoted\" value" PATH="a\\b""#);

    assert_eq!(
        fields.get("MESSAGE").map(String::as_str),
        Some(r#"bad "quoted" value"#)
    );
    assert_eq!(fields.get("PATH").map(String::as_str), Some(r#"a\b"#));
}

#[test]
fn ensure_ok_rejects_non_ok_results() {
    let err = ensure_ok("STREAM STATUS RESULT=CANT_REACH_PEER")
        .expect_err("non-OK result must fail");

    assert_eq!(err, SamError::CantReachPeer);
}

#[test]
fn session_keys_roundtrip_keyfile() {
    let keys = Keys::new("pubdest", "privdest");

    let contents = keys.to_keyfile();
    let loaded = Keys::from_keyfile(&contents);

    assert_eq!(loaded, keys);
}

#[test]
fn session_keys_read_private_only_keyfile() {
    let loaded = Keys::from_keyfile("privdest\n");

    assert_eq!(loaded.destination().as_str(), "");
    assert_eq!(loaded.private_key().as_str(), "privdest");
}

#[test]
fn client_keys_roundtrip_keyfile() {
    let keys = Keys::new("public_key_data", "private_key_data");
    let loaded = Keys::from_keyfile(&keys.to_keyfile());
    assert_eq!(loaded.destination().as_str(), "public_key_data");
    assert_eq!(loaded.private_key().as_str(), "private_key_data");
}

#[test]
fn client_keys_read_private_only_keyfile() {
    let loaded = Keys::from_keyfile("PRIV=only_private\nPUB=only_public\n");
    assert_eq!(loaded.destination().as_str(), "only_public");
    assert_eq!(loaded.private_key().as_str(), "only_private");
}

#[test]
fn keyfile_text_and_parsing() {
    let keys = Keys::new("P", "K");
    assert_eq!(keys.to_keyfile(), "PUB=P\nPRIV=K\n");
    assert_eq!(parse_keyfile("PUB=a\r\nPRIV=b\r\n"), Some(Keys::new("a", "b")));
    assert_eq!(parse_keyfile("PUB=a\nPUB=c\nPRIV=b"), Some(Keys::new("c", "b")));
    assert_eq!(parse_keyfile("PUB=a\n"), None);
    assert_eq!(parse_keyfile(""), None);
    let fallback = Keys::from_keyfile("PUB=only\n \n");
    assert_eq!(fallback.destination().as_str(), "");
    assert_eq!(fallback.private_key().as_str(), "PUB=only");
    // a final line without a newline keeps its carriage return
    assert_eq!(parse_keyfile("PUB=a\nPRIV=b\r"), Some(Keys::new("a", "b\r")));
}

#[test]
fn destinations_keys_clients_and_listeners() {
    let d = Destination::new("abc");
    assert_eq!(d.as_str(), "abc");
    assert_eq!(d.clone().into_string(), "abc");
    assert_eq!(Destination::from(String::from("abc")), d);
    let k = PrivateKey::new("priv");
    assert_eq!(k.as_str(), "priv");
    assert_eq!(k.into_string(), "priv");
    let keys = Keys::new("a", "b").with_destination(Destination::new("z"));
    assert_eq!(keys.destination().as_str(), "z");
    assert_eq!(keys.private_key().as_str(), "b");
    let keys2 = Keys::from_parts(Destination::new("z"), PrivateKey::from(String::from("b")));
    assert_eq!(keys, keys2);
    let c = SamClient::connect("127.0.0.1:7656");
    assert_eq!(c.sam_addr(), "127.0.0.1:7656");
    let l = StreamListener::new("127.0.0.1:7656", "srv", Destination::new("me"));
    assert_eq!(l.id(), "srv");
    assert_eq!(l.sam_addr(), "127.0.0.1:7656");
    assert_eq!(l.local().as_str(), "me");
}
