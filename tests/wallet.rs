use farcaster_node::bus::{BusMsg, CtlMsg, Error, InfoMsg, Keys, PublicOffer, ServiceBus, Token};
use farcaster_node::bus::Failure;
use farcaster_node::service::ServiceId;
use farcaster_node::keys::MAX_SWAP_INDEX;
use farcaster_node::wallet::{Action, NodeSecrets, Runtime};

fn token(last: u8) -> Token {
    let mut t = [0u8; 16];
    t[15] = last;
    Token(t)
}

fn secrets(counter: u32) -> NodeSecrets {
    NodeSecrets { peerd_secret_key: [7u8; 32], node_id: [2u8; 33], wallet_seed: [9u8; 32], wallet_counter: counter }
}

fn create(rt: &mut Runtime, t: Token) -> Result<Vec<Action>, Error> {
    rt.handle(ServiceBus::Ctl, ServiceId::Farcasterd, BusMsg::Ctl(CtlMsg::CreateSwapKeys(PublicOffer(vec![1, 2]), t)))
}

fn index_of(actions: &[Action]) -> u32 {
    match actions {
        [Action::PersistCounter(n), Action::Send { bus: ServiceBus::Ctl, dest: ServiceId::Farcasterd, msg: BusMsg::Ctl(CtlMsg::SwapKeys(k)) }] => {
            assert_eq!(*n, k.swap_index);
            assert_eq!(k.public_offer, PublicOffer(vec![1, 2]));
            k.swap_index
        }
        other => panic!("unexpected actions {:?}", other),
    }
}

#[test]
fn get_keys_with_wrong_token_fails() {
    let mut rt = Runtime::new(token(1), secrets(5));
    let r = rt.handle(ServiceBus::Ctl, ServiceId::Farcasterd, BusMsg::Ctl(CtlMsg::GetKeys(token(2))));
    assert!(matches!(r, Err(Error::InvalidToken)));
    assert_eq!(rt.wallet_counter(), 5);
    let failure = Failure::from_error(&Error::InvalidToken);
    assert_eq!(failure.info, "invalid token");
}

#[test]
fn get_keys_with_right_token_sends_keys() {
    let mut rt = Runtime::new(token(1), secrets(5));
    let r = rt.handle(ServiceBus::Ctl, ServiceId::Farcasterd, BusMsg::Ctl(CtlMsg::GetKeys(token(1)))).unwrap();
    match &r[..] {
        [Action::Send { bus: ServiceBus::Ctl, dest: ServiceId::Farcasterd, msg: BusMsg::Ctl(CtlMsg::Keys(k)) }] => {
            assert_eq!(*k, Keys { secret_key: [7u8; 32], node_id: [2u8; 33] });
        }
        other => panic!("unexpected actions {:?}", other),
    }
}

#[test]
fn create_swap_keys_with_wrong_token_keeps_counter() {
    let mut rt = Runtime::new(token(1), secrets(5));
    assert!(matches!(create(&mut rt, token(3)), Err(Error::InvalidToken)));
    assert_eq!(rt.wallet_counter(), 5);
}

#[test]
fn counter_is_monotonic_across_restart() {
    let mut rt = Runtime::new(token(1), secrets(10));
    let a = create(&mut rt, token(1)).unwrap();
    let b = create(&mut rt, token(1)).unwrap();
    assert_eq!(index_of(&a), 11);
    assert_eq!(index_of(&b), 12);
    let persisted = match b[0] {
        Action::PersistCounter(n) => n,
        _ => panic!("counter not persisted first"),
    };
    let mut restarted = Runtime::new(token(9), secrets(persisted));
    let c = create(&mut restarted, token(9)).unwrap();
    assert_eq!(index_of(&c), 13);
    assert_eq!(restarted.wallet_counter(), 13);
}

#[test]
fn counter_stops_at_largest_index() {
    let mut rt = Runtime::new(token(1), secrets(MAX_SWAP_INDEX - 1));
    let a = create(&mut rt, token(1)).unwrap();
    assert_eq!(index_of(&a), MAX_SWAP_INDEX);
    assert!(matches!(create(&mut rt, token(1)), Err(Error::Internal(_))));
    assert_eq!(rt.wallet_counter(), MAX_SWAP_INDEX);
    let mut full = Runtime::new(token(1), secrets(u32::MAX));
    assert!(matches!(create(&mut full, token(1)), Err(Error::Internal(_))));
    assert_eq!(full.wallet_counter(), u32::MAX);
}

#[test]
fn wallet_accepts_only_ctl_lane() {
    let mut rt = Runtime::new(token(1), secrets(0));
    let r = rt.handle(ServiceBus::Info, ServiceId::Client(1), BusMsg::Info(InfoMsg::GetInfo));
    assert!(matches!(r, Err(Error::NotSupported(ServiceBus::Info, ref m)) if m == "get_info()"));
    let r = rt.handle(ServiceBus::Ctl, ServiceId::Client(1), BusMsg::Ctl(CtlMsg::Hello)).unwrap();
    assert!(r.is_empty());
    assert_eq!(rt.wallet_counter(), 0);
}

#[test]
fn tokens_compare_by_every_byte() {
    assert_eq!(token(1), token(1));
    assert_ne!(token(1), token(2));
    let mut t = [0u8; 16];
    t[0] = 1;
    assert_ne!(Token(t), token(0));
}

#[test]
fn wallet_exits_on_terminate_from_supervisor() {
    let mut rt = Runtime::new(token(1), secrets(0));
    let r = rt.handle(ServiceBus::Ctl, ServiceId::Farcasterd, BusMsg::Ctl(CtlMsg::Terminate)).unwrap();
    assert!(matches!(&r[..], [Action::Exit]));
    let r = rt.handle(ServiceBus::Ctl, ServiceId::Client(4), BusMsg::Ctl(CtlMsg::Terminate)).unwrap();
    assert!(r.is_empty());
}

#[test]
fn issue_swap_keys_commits_only_on_derivation() {
    let mut rt = Runtime::new(token(1), secrets(5));
    let failed = rt.issue_swap_keys(6, PublicOffer(vec![1, 2]), Err(farcaster_core::crypto::Error::UnsupportedKey));
    assert!(matches!(failed, Err(Error::Internal(_))));
    assert_eq!(rt.wallet_counter(), 5);
    let manager = farcaster_core::swap::btcxmr::KeyManager::new([9u8; 32], 6).unwrap();
    let done = rt.issue_swap_keys(6, PublicOffer(vec![1, 2]), Ok(manager)).unwrap();
    assert_eq!(index_of(&done), 6);
    assert_eq!(rt.wallet_counter(), 6);
}
