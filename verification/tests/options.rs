use sam3::{RawSessionOptions, SessionOptions, StreamConnectOptions, SAM_TUNNEL_OPTIONS};
use std::collections::HashSet;

#[test]
fn to_opts_str_empty() {
    assert_eq!(SessionOptions::default().to_opts_str(), "");
}

#[test]
fn to_opts_str_zero_hop() {
    let s = SessionOptions::zero_hop().to_opts_str();
    assert!(s.contains("inbound.length=0"));
    assert!(s.contains("outbound.length=0"));
}

#[test]
fn stream_connect_options_default() {
    let opts = StreamConnectOptions::default();
    assert_eq!(opts.from_port, 0);
    assert_eq!(opts.to_port, 0);
    assert!(!opts.silent);
}

#[test]
fn raw_session_options_default() {
    let opts = RawSessionOptions::default();
    assert!(opts.protocol.is_none());
    assert!(!opts.header);
}

#[test]
fn zero_hop_matches_tunnel_options() {
    let pairs: HashSet<(String, String)> = SessionOptions::zero_hop().to_pairs().into_iter().collect();
    let expected: HashSet<(String, String)> = SAM_TUNNEL_OPTIONS
        .iter()
        .map(|(k, v)| (k.to_string(), v.to_string()))
        .collect();
    assert_eq!(pairs, expected);
    assert_eq!(SessionOptions::zero_hop().to_pairs().len(), 8);
    assert_eq!(
        SessionOptions::zero_hop().to_opts_str(),
        "inbound.length=0 outbound.length=0 inbound.lengthVariance=0 outbound.lengthVariance=0 inbound.quantity=2 outbound.quantity=2 inbound.backupQuantity=0 outbound.backupQuantity=0"
    );
}

#[test]
fn builders_set_single_options() {
    let o = SessionOptions::default().outbound_length_variance(-3).inbound_quantity(255);
    assert_eq!(
        o.to_pairs(),
        vec![
            ("outbound.lengthVariance".to_string(), "-3".to_string()),
            ("inbound.quantity".to_string(), "255".to_string()),
        ]
    );
    assert_eq!(o.to_opts_str(), "outbound.lengthVariance=-3 inbound.quantity=255");
    let o = SessionOptions::default()
        .inbound_length(1)
        .outbound_length(2)
        .inbound_length_variance(-128)
        .outbound_quantity(4)
        .inbound_backup_quantity(5)
        .outbound_backup_quantity(6);
    assert_eq!(
        o.to_opts_str(),
        "inbound.length=1 outbound.length=2 inbound.lengthVariance=-128 outbound.quantity=4 inbound.backupQuantity=5 outbound.backupQuantity=6"
    );
    assert_eq!(SessionOptions::default().inbound_length(7), SessionOptions::default().inbound_length(3).inbound_length(7));
}
