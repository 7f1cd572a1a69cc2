use base64::Engine;
use sam3::datagram::{datagram_packet, parse_received_datagram, raw_packet};
use sam3::messages::{MsgType, ReadyMsg};
use sam3::reseed::{reseed_entry_name, router_info_i2p_hash, RouterInfoError};
use sam3::topology::{setup_plan, Topology};
use sam3::{Destination, SamError};
use sha2::{Digest, Sha256};

#[test]
fn router_info_hash_names_identity() {
    let mut data = vec![7u8; 400];
    data[385] = 0;
    data[386] = 3;
    let name = router_info_i2p_hash(&data).unwrap();
    let digest = Sha256::digest(&data[..390]);
    let expected = base64::engine::general_purpose::STANDARD_NO_PAD
        .encode(digest)
        .replace('+', "-")
        .replace('/', "~");
    assert_eq!(name, expected);
    assert!(!name.contains('+') && !name.contains('/') && !name.contains('='));
    assert_eq!(name.len(), 43);
    assert_eq!(reseed_entry_name(&name), format!("routerInfo-{name}.dat"));
}

#[test]
fn router_info_too_short() {
    assert_eq!(router_info_i2p_hash(&[0u8; 386]), Err(RouterInfoError::TooShort));
    let mut data = vec![0u8; 390];
    data[385] = 1;
    assert_eq!(router_info_i2p_hash(&data), Err(RouterInfoError::TooShortForIdentity));
    assert_eq!(RouterInfoError::TooShort.message(), "router.info too short");
    assert_eq!(
        RouterInfoError::TooShortForIdentity.message(),
        "router.info too short for identity"
    );
    assert!(router_info_i2p_hash(&[0u8; 387]).is_ok());
}

#[test]
fn topology_names_nodes() {
    let tp = Topology::new(4, "10.88.0");
    assert_eq!(tp.bridge(), "br_10_88_0");
    assert_eq!(tp.nodes.len(), 4);
    assert_eq!(tp.nodes[2].ns, "ns_10_88_02");
    assert_eq!(tp.nodes[2].ip, "10.88.0.3");
    assert_eq!(tp.nodes[2].veth, "veth_10_88_02_n");
    assert_eq!(tp.nodes[0].index, 0);
    let down = tp.teardown_commands();
    assert_eq!(down.len(), 6);
    assert_eq!(down[0], vec!["netns", "del", "ns_10_88_03"]);
    assert_eq!(down[3], vec!["netns", "del", "ns_10_88_00"]);
    assert_eq!(down[4], vec!["link", "set", "br_10_88_0", "down"]);
    assert_eq!(down[5], vec!["link", "del", "br_10_88_0", "type", "bridge"]);
}

#[test]
fn topology_setup_plan() {
    let plan = setup_plan(2, "10.99.0");
    assert_eq!(plan.len(), 2 + 2 * 8);
    assert_eq!(plan[0], vec!["link", "add", "br_10_99_0", "type", "bridge"]);
    assert_eq!(plan[1], vec!["link", "set", "br_10_99_0", "up"]);
    assert_eq!(plan[2], vec!["netns", "add", "ns_10_99_00"]);
    assert_eq!(
        plan[4],
        vec!["link", "add", "veth_10_99_00_h", "type", "veth", "peer", "name", "veth_10_99_00_n"]
    );
    assert_eq!(
        plan[8],
        vec!["netns", "exec", "ns_10_99_00", "ip", "addr", "add", "10.99.0.1/24", "dev", "veth_10_99_00_n"]
    );
    assert_eq!(plan[17], vec!["netns", "exec", "ns_10_99_01", "ip", "link", "set", "veth_10_99_01_n", "up"]);
    assert_eq!(setup_plan(0, "x").len(), 2);
}

#[test]
fn datagram_packets() {
    let dest = Destination::new("target_dest");
    let p = datagram_packet("dg_id", &dest, b"hello world").unwrap();
    assert_eq!(p, b"3.1 dg_id target_dest\nhello world".to_vec());
    let p = raw_packet("raw_id", &dest, b"hello world").unwrap();
    assert_eq!(p, b"3.0 raw_id target_dest\nhello world".to_vec());
    assert!(datagram_packet("dg", &dest, &vec![0u8; 31744]).is_ok());
    assert!(raw_packet("raw", &dest, &vec![0u8; 32768]).is_ok());
}

#[test]
fn datagram_send_exceeds_limit() {
    let large_data = vec![0u8; 31745];
    let res = datagram_packet("dg", &"dest".to_string().into(), &large_data);
    assert!(matches!(res, Err(SamError::DatagramTooLarge { max: 31744, got: 31745 })));
}

#[test]
fn raw_send_exceeds_limit() {
    let large_data = vec![0u8; 32769];
    let res = raw_packet("raw", &"dest".to_string().into(), &large_data);
    assert!(matches!(res, Err(SamError::DatagramTooLarge { max: 32768, got: 32769 })));
}

#[test]
fn received_datagrams_split_at_first_newline() {
    let (from, payload) = parse_received_datagram(b"senderdest\nhi\nthere").unwrap().unwrap();
    assert_eq!(from.as_str(), "senderdest");
    assert_eq!(payload, b"hi\nthere".to_vec());
    let (from, payload) = parse_received_datagram(b"\n").unwrap().unwrap();
    assert_eq!(from.as_str(), "");
    assert!(payload.is_empty());
    assert!(parse_received_datagram(b"no newline").is_none());
    assert_eq!(
        parse_received_datagram(b"\xff\xfe\nx").unwrap().unwrap_err(),
        SamError::UnexpectedResponse("invalid utf8 in datagram header".into())
    );
}

#[test]
fn ready_message() {
    let m = ReadyMsg::new("abc".into());
    assert_eq!(m.msg_type, "ready");
    assert_eq!(m.dest, "abc");
    assert_eq!(MsgType::Ready.name(), "ready");
    assert_eq!(MsgType::Result.name(), "result");
}
