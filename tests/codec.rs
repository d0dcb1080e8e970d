use std::str::FromStr;

use farcaster_node::bus::{Error, ServiceBus};
use farcaster_node::checkpoint::{CheckpointWallet, MoneroAddress};
use farcaster_node::frame::Frame;
use farcaster_node::service::{InetSocketAddr, NodeAddr, OutPoint, ServiceId, SwapId};
use farcaster_node::rpc::{
    CreateSwap, IntoProgressOrFalure, IntoSuccessOrFalure, NodeInfo, OptionDetails, PeerInfo, Request, SwapInfo,
};
use farcaster_node::varint::write_varint;

const ADDRESS: &str = "4ADT1BtbxqEWeMKp9GgPr2NeyJXXtNxvoDawpyA4WpzFcGcoHUvXeijE66DNfohE9r1bQYaBiQjEtKE7CtkTdLwiDznFzra";

fn address_bytes() -> Vec<u8> {
    monero::Address::from_str(ADDRESS).unwrap().as_bytes()
}

#[test]
fn varint_encodes_seven_bits_per_byte() {
    let mut out = Vec::new();
    write_varint(&mut out, 300);
    assert_eq!(out, vec![0xac, 0x02]);
    let mut out = vec![5];
    write_varint(&mut out, 0);
    assert_eq!(out, vec![5, 0]);
}

#[test]
fn checkpoint_round_trip() {
    let addr = MoneroAddress::from_bytes(address_bytes()).unwrap();
    let c = CheckpointWallet { wallet: vec![1, 2, 3], xmr_addr: addr };
    let bytes = c.strict_encode().unwrap();
    assert_eq!(&bytes[..4], &[3, 1, 2, 3]);
    assert_eq!(bytes[4] as usize, address_bytes().len());
    assert_eq!(bytes.len(), 5 + address_bytes().len());
    assert_eq!(CheckpointWallet::strict_decode(&bytes), Ok(c));
}

#[test]
fn checkpoint_rejects_malformed_input() {
    let addr = MoneroAddress::from_bytes(address_bytes()).unwrap();
    let c = CheckpointWallet { wallet: vec![], xmr_addr: addr };
    let bytes = c.strict_encode().unwrap();
    assert!(matches!(CheckpointWallet::strict_decode(&bytes[..bytes.len() - 1]), Err(Error::DataIntegrityError(_))));
    assert!(matches!(CheckpointWallet::strict_decode(&[1]), Err(Error::DataIntegrityError(_))));
    assert!(matches!(CheckpointWallet::strict_decode(&[2, 0, 1]), Err(Error::DataIntegrityError(_))));
    assert!(matches!(CheckpointWallet::strict_decode(&[0x80, 0x00, 0]), Err(Error::DataIntegrityError(_))));
    let mut bad = address_bytes();
    bad[68] ^= 1;
    let mut raw = vec![0, bad.len() as u8];
    raw.extend_from_slice(&bad);
    assert!(matches!(CheckpointWallet::strict_decode(&raw), Err(Error::DataIntegrityError(_))));
}

#[test]
fn checkpoint_leaves_what_follows_unread() {
    let addr = MoneroAddress::from_bytes(address_bytes()).unwrap();
    let c = CheckpointWallet { wallet: vec![4, 5], xmr_addr: addr };
    let mut bytes = c.strict_encode().unwrap();
    bytes.extend_from_slice(&[0xff, 0, 1]);
    assert_eq!(CheckpointWallet::strict_decode(&bytes), Ok(c));
}

#[test]
fn request_tags_of_lists_and_peers() {
    assert_eq!(Request::UpdateSwapId(SwapId([1; 32])).type_tag(), 1);
    assert_eq!(Request::ConnectPeer(NodeAddr { node_id: [2; 33], ip: [0; 16], port: 9735 }).type_tag(), 201);
    assert_eq!(Request::PeerList(vec![]).type_tag(), 1103);
    assert_eq!(Request::SwapList(vec![]).type_tag(), 1104);
    assert!(matches!(Frame::decode(ServiceBus::Ctl, &[0x2c, 0x01, 0, 0, 0, 0]), Err(Error::NotSupported(ServiceBus::Ctl, _))));
    let listen = Frame::decode(ServiceBus::Ctl, &[200, 0, 2, 0, 0, 0, 7, 8]).unwrap();
    assert_eq!(listen, Frame { type_tag: 200, body: vec![7, 8] });
    let addr = InetSocketAddr { ip: [0; 16], port: 9376 };
    assert_eq!(Request::Listen(addr).type_tag(), 200);
    assert_eq!(Request::PeerMessage(vec![1]).type_tag(), 2);
    assert_eq!(Request::FarMsgs(vec![1]).type_tag(), 3);
    let create = CreateSwap { swap_req: vec![1, 2], peerd: ServiceId::Farcasterd, report_to: Some(ServiceId::Client(1)) };
    assert_eq!(Request::OpenSwapWith(create.clone()).type_tag(), 203);
    assert_eq!(Request::AcceptSwapFrom(create).type_tag(), 204);
    let outpoint = OutPoint { txid: [3; 32], vout: 1 };
    assert_eq!(Request::FundSwap(outpoint).type_tag(), 205);
    let node = NodeInfo { node_id: [2; 33], listens: vec![addr], uptime: 5, since: 10, peers: vec![], swaps: vec![] };
    assert_eq!(Request::NodeInfo(node).type_tag(), 1100);
    let peer = PeerInfo {
        local_id: [2; 33],
        remote_id: vec![[3; 33]],
        local_socket: Some(addr),
        remote_socket: vec![],
        uptime: 1,
        since: 2,
        messages_sent: 3,
        messages_received: 4,
        connected: true,
        awaits_pong: false,
    };
    assert_eq!(Request::PeerInfo(peer).type_tag(), 1101);
    let swap = SwapInfo {
        swap_id: None,
        temporary_swap_id: SwapId([4; 32]),
        state: vec![],
        funding_outpoint: outpoint,
        remote_peers: vec![],
        uptime: 0,
        since: 0,
        is_originator: true,
    };
    assert_eq!(Request::SwapInfo(swap).type_tag(), 1102);
    assert_eq!(Request::SwapFunding(vec![0x51]).type_tag(), 1203);
}

#[test]
fn checkpoint_holds_long_wallet() {
    let addr = MoneroAddress::from_bytes(address_bytes()).unwrap();
    let c = CheckpointWallet { wallet: vec![7; 0x10000], xmr_addr: addr };
    let bytes = c.strict_encode().unwrap();
    assert_eq!(&bytes[..3], &[0x80, 0x80, 0x04]);
    assert_eq!(CheckpointWallet::strict_decode(&bytes), Ok(c));
}

#[test]
fn monero_address_checked() {
    assert!(MoneroAddress::from_bytes(address_bytes()).is_ok());
    assert!(matches!(MoneroAddress::from_bytes(vec![0; 10]), Err(Error::DataIntegrityError(_))));
    let mut bad = address_bytes();
    bad[66] ^= 0xff;
    assert!(MoneroAddress::from_bytes(bad).is_err());
}

#[test]
fn frame_round_trip() {
    let f = Frame { type_tag: 1002, body: vec![1, 2, 3] };
    let bytes = f.encode().unwrap();
    assert_eq!(bytes, vec![0xea, 0x03, 3, 0, 0, 0, 1, 2, 3]);
    assert_eq!(Frame::decode(ServiceBus::Ctl, &bytes), Ok(f));
}

#[test]
fn frame_unknown_tag_is_not_supported() {
    let bytes = vec![0x39, 0x05, 0, 0, 0, 0];
    assert!(matches!(Frame::decode(ServiceBus::Info, &bytes), Err(Error::NotSupported(ServiceBus::Info, _))));
    assert!(matches!(Frame::decode(ServiceBus::Info, &[0, 0, 1]), Err(Error::DataIntegrityError(_))));
    assert!(matches!(Frame::decode(ServiceBus::Info, &[0, 0, 2, 0, 0, 0, 1]), Err(Error::DataIntegrityError(_))));
}

#[test]
fn request_tags_are_stable() {
    assert_eq!(Request::Hello.type_tag(), 0);
    assert_eq!(Request::GetInfo.type_tag(), 100);
    assert_eq!(Request::Progress("x".to_string()).type_tag(), 1002);
    assert_eq!(Request::Success(OptionDetails::new()).type_tag(), 1001);
}

#[test]
fn replies_to_client() {
    assert_eq!(OptionDetails::with("done").to_string(), "done");
    assert_eq!(OptionDetails::new().to_string(), "");
    let step: Result<String, Error> = Ok("step".to_string());
    assert_eq!(step.into_progress_or_failure(), Request::Progress("step".to_string()));
    let ok: Result<String, Error> = Ok("ok".to_string());
    assert_eq!(ok.into_success_or_failure(), Request::Success(OptionDetails(Some("ok".to_string()))));
    let unit: Result<(), Error> = Ok(());
    assert_eq!(unit.into_success_or_failure(), Request::Success(OptionDetails(None)));
    let failed: Result<String, Error> = Err(Error::NotSupported(ServiceBus::Ctl, "get_info()".to_string()));
    match failed.into_progress_or_failure() {
        Request::Failure(f) => assert_eq!(f.info, "get_info()"),
        other => panic!("unexpected {:?}", other),
    }
    let timeout: Result<(), Error> = Err(Error::Timeout);
    match timeout.into_success_or_failure() {
        Request::Failure(f) => {
            assert_eq!(f.code, 1);
            assert_eq!(f.info, "timeout");
        }
        other => panic!("unexpected {:?}", other),
    }
}
