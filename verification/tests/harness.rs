use sam3::compat::{after_failed_dial, parse_role, DialStep, Role};
use sam3::SamError;
use sam3::harness::{
    accept_again, exported_hello, floodfill_published, gnunet_args, gnunet_log_connected,
    gnunet_stats_connected, harness_dest_keys, harness_ensure_ok, harness_hello, i2pd_args,
    i2pd_bootstrapped, imported_hello, parse_plain_fields,
};
use sam3::payload::payload_fits_check;
use sam3::text::{bytes_contain, contains};

#[test]
fn contains_finds_infixes() {
    assert!(contains("HELLO REPLY RESULT=OK", "RESULT=OK"));
    assert!(contains("abc", ""));
    assert!(!contains("abc", "abcd"));
    assert!(!contains("RESULT=O", "RESULT=OK"));
    assert!(bytes_contain(b"..Xf..", b"Xf"));
    assert!(!bytes_contain(b"X f", b"Xf"));
}

#[test]
fn plain_fields_split_at_first_equals() {
    let f = parse_plain_fields("DEST REPLY PUB=a=b PRIV=c RESULT=OK PUB=d");
    assert_eq!(f.get("PUB").map(String::as_str), Some("d"));
    assert_eq!(f.get("PRIV").map(String::as_str), Some("c"));
    assert_eq!(f.get("RESULT").map(String::as_str), Some("OK"));
    assert!(!f.contains_key("DEST"));
    let g = parse_plain_fields("X K=a=b");
    assert_eq!(g.get("K").map(String::as_str), Some("a=b"));
    let q = parse_plain_fields(r#"M="a b""#);
    assert_eq!(q.get("M").map(String::as_str), Some("\"a"));
}

#[test]
fn harness_hello_needs_reply_and_ok() {
    assert_eq!(harness_hello("HELLO REPLY RESULT=OK VERSION=3.1"), Ok(()));
    assert_eq!(
        harness_hello("HELLO REPLY RESULT=NOVERSION"),
        Err("HELLO failed: HELLO REPLY RESULT=NOVERSION".to_string())
    );
}

#[test]
fn harness_dest_keys_reads_and_reports() {
    assert_eq!(
        harness_dest_keys("DEST REPLY PUB=p PRIV=k"),
        Ok(("p".to_string(), "k".to_string()))
    );
    assert_eq!(
        harness_dest_keys("DEST REPLY RESULT=I2P_ERROR"),
        Err("DEST GENERATE failed: DEST REPLY RESULT=I2P_ERROR".to_string())
    );
    assert_eq!(
        harness_dest_keys("DEST REPLY PRIV=k"),
        Err("DEST GENERATE without PUB: DEST REPLY PRIV=k".to_string())
    );
    assert_eq!(
        harness_dest_keys("DEST REPLY PUB=p"),
        Err("DEST GENERATE without PRIV: DEST REPLY PUB=p".to_string())
    );
}

#[test]
fn harness_ensure_ok_names_the_command() {
    assert_eq!(harness_ensure_ok("SESSION STATUS RESULT=OK", "SESSION CREATE"), Ok(()));
    assert_eq!(
        harness_ensure_ok("STREAM STATUS RESULT=CANT_REACH_PEER", "STREAM CONNECT"),
        Err("STREAM CONNECT failed: STREAM STATUS RESULT=CANT_REACH_PEER".to_string())
    );
}

#[test]
fn receiver_accepts_again_only_after_early_eof() {
    assert!(accept_again("failed to read size: failed to fill whole buffer (EOF)"));
    assert!(!accept_again("failed to read size: connection reset"));
    assert!(!accept_again("failed to read sha256: EOF"));
}

#[test]
fn node_readiness_markers() {
    assert!(floodfill_published(b"caps=Xf;"));
    assert!(!floodfill_published(b"caps=X;f"));
    assert!(i2pd_bootstrapped("... Tunnel: all tunnels built ..."));
    assert!(i2pd_bootstrapped("NetDbReq: Exploring new 3 routers"));
    assert!(!i2pd_bootstrapped("starting"));
    assert!(gnunet_log_connected("core: connected to PEER"));
    assert!(!gnunet_log_connected("core: starting"));
    assert!(gnunet_stats_connected("core   # NEIGHBOUR entries allocated: 1"));
    assert!(gnunet_stats_connected("Connections: 2"));
    assert!(!gnunet_stats_connected("core # bytes: 0"));
}

#[test]
fn gnunet_and_i2pd_arguments() {
    assert_eq!(
        gnunet_args("ns0", "gnunet-hello", "/tmp/p.conf", &["-e"]),
        vec!["netns", "exec", "ns0", "gnunet-hello", "-c", "/tmp/p.conf", "-e"]
    );
    assert_eq!(
        i2pd_args("ns1", "/d", "/d/i2pd.conf", "10.0.0.2", "/d/i2pd.log", true),
        vec![
            "netns", "exec", "ns1", "i2pd", "--datadir=/d", "--conf=/d/i2pd.conf",
            "--address4=10.0.0.2", "--loglevel=info", "--log=file", "--logfile=/d/i2pd.log",
            "--daemon", "--floodfill",
        ]
    );
    assert_eq!(i2pd_args("n", "a", "b", "c", "d", false).len(), 11);
}

#[test]
fn hello_exchange_outcomes() {
    assert_eq!(exported_hello(true, "  HELLO-abc \n", ""), Ok("HELLO-abc".to_string()));
    assert_eq!(
        exported_hello(false, "", "boom"),
        Err("failed to export hello: boom".to_string())
    );
    assert_eq!(imported_hello(true, ""), Ok(()));
    assert_eq!(imported_hello(false, "bad"), Err("failed to import hello: bad".to_string()));
}

#[test]
fn roles_by_name() {
    assert_eq!(parse_role("sender"), Ok(Role::Sender));
    assert_eq!(parse_role("datagram-receiver"), Ok(Role::DatagramReceiver));
    assert_eq!(parse_role("primary-receiver"), Ok(Role::PrimaryReceiver));
    assert_eq!(parse_role("lookup"), Ok(Role::Lookup));
    assert_eq!(parse_role("Sender"), Err("Unknown role: Sender".to_string()));
}

#[test]
fn payload_fit_check_matches_overflow() {
    assert!(payload_fits_check(1024, 42));
    assert!(payload_fits_check(0, i64::MAX));
    assert!(payload_fits_check(1, i64::MAX));
    assert!(!payload_fits_check(3, i64::MAX));
    assert!(!payload_fits_check(i64::MAX, 2));
}

#[test]
fn failed_dials_retry_only_curable_errors() {
    assert_eq!(after_failed_dial(&SamError::CantReachPeer, true), DialStep::Again);
    assert_eq!(after_failed_dial(&SamError::Timeout, true), DialStep::Again);
    assert_eq!(after_failed_dial(&SamError::Timeout, false), DialStep::DeadlineExceeded);
    assert_eq!(after_failed_dial(&SamError::InvalidKey, true), DialStep::GiveUp);
    assert_eq!(after_failed_dial(&SamError::Io("x".into()), false), DialStep::GiveUp);
}
