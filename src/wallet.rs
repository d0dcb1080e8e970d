//! The wallet's bus handler: it answers key requests that carry the right token and
//! hands out a fresh derivation index for every new swap.
use vstd::prelude::*;

use crate::bus::{
    family_of, msg_name, BusMsg, CtlMsg, Error, Family, Keys, PublicOffer, ServiceBus, SwapKeys, Token,
};
use crate::keys::{derives, MAX_SWAP_INDEX};
use farcaster_core::crypto::Error as CryptoError;
use farcaster_core::swap::btcxmr::KeyManager;

use crate::keys::new_key_manager;
use crate::service::ServiceId;

verus! {

/// The (lane, family) pairs the wallet accepts.
pub open spec fn wallet_admits(bus: ServiceBus, f: Family) -> bool {
    bus == ServiceBus::Ctl && f == Family::Ctl
}

/// The node's secrets and the derivation index of the last swap.
#[derive(Clone, Copy, Debug, PartialEq, Eq)]
pub struct NodeSecrets {
    pub peerd_secret_key: [u8; 32],
    pub node_id: [u8; 33],
    pub wallet_seed: [u8; 32],
    pub wallet_counter: u32,
}

/// What the caller of the wallet's handler is asked to do, in order.
#[derive(Debug)]
pub enum Action {
    /// Write the counter durably; nothing after it may be sent before it is written.
    PersistCounter(u32),
    /// Send a message on a lane to a service.
    Send { bus: ServiceBus, dest: ServiceId, msg: BusMsg },
    /// Leave the event loop.
    Exit,
}

/// The state of the wallet's bus handler.
pub struct Runtime {
    pub identity: ServiceId,
    pub wallet_token: Token,
    pub node_secrets: NodeSecrets,
}

impl Runtime {
    /// A wallet that accepts `wallet_token`, starting from the persisted `node_secrets`.
    pub fn new(wallet_token: Token, node_secrets: NodeSecrets) -> (r: Runtime)
        ensures
            r.identity == ServiceId::Wallet,
            r.wallet_token == wallet_token,
            r.node_secrets == node_secrets,
    {
        Runtime { identity: ServiceId::Wallet, wallet_token, node_secrets }
    }

    pub fn identity(&self) -> (r: ServiceId)
        ensures
            r == self.identity,
    {
        self.identity
    }

    pub fn wallet_counter(&self) -> (r: u32)
        ensures
            r == self.node_secrets.wallet_counter,
    {
        self.node_secrets.wallet_counter
    }

    /// Dispatches a message: only Ctl messages on the Ctl lane are accepted; anything else
    /// is refused with `NotSupported` and changes nothing.
    pub fn handle(&mut self, bus: ServiceBus, source: ServiceId, request: BusMsg) -> (r: Result<
        Vec<Action>,
        Error,
    >)
        ensures
            handled(*old(self), *final(self), bus, source, request, r),
    {
        match (bus, request) {
            (ServiceBus::Ctl, BusMsg::Ctl(req)) => self.handle_ctl(source, req),
            (bus, req) => Err(Error::NotSupported(bus, req.name())),
        }
    }

    /// Errors of the transport are reported where they happen; the handler only goes on.
    pub fn handle_err(&mut self) -> (r: Result<(), Error>)
        ensures
            *final(self) == *old(self),
            r is Ok,
    {
        Ok(())
    }

    /// Completes a key request with the key manager derived for `swap_index`, the index one
    /// above the counter: on success the counter moves up to it, the caller is asked to
    /// persist it and then to send the key manager, its index and the offer to the
    /// supervisor; a failed derivation fails with `Internal` and changes nothing.
    pub fn issue_swap_keys(
        &mut self,
        swap_index: u32,
        public_offer: PublicOffer,
        derived: Result<KeyManager, CryptoError>,
    ) -> (r: Result<Vec<Action>, Error>)
        requires
            swap_index == old(self).node_secrets.wallet_counter + 1,
        ensures
            derived is Err ==> *final(self) == *old(self) && (r matches Err(Error::Internal(_))),
            derived matches Ok(k) ==> issued(*old(self), *final(self), swap_index, k, public_offer, r),
    {
        match derived {
            Ok(key_manager) => {
                self.node_secrets.wallet_counter = swap_index;
                let swap_keys = SwapKeys { key_manager, swap_index, public_offer };
                Ok(
                    vec![
                        Action::PersistCounter(swap_index),
                        Action::Send {
                            bus: ServiceBus::Ctl,
                            dest: ServiceId::Farcasterd,
                            msg: BusMsg::Ctl(CtlMsg::SwapKeys(swap_keys)),
                        },
                    ],
                )
            },
            Err(_) => Err(Error::Internal("key derivation failed".to_owned())),
        }
    }

    fn handle_ctl(&mut self, source: ServiceId, request: CtlMsg) -> (r: Result<Vec<Action>, Error>)
        ensures
            ctl_outcome(*old(self), *final(self), source, request, r),
    {
        match request {
            CtlMsg::Terminate => {
                if source == ServiceId::Farcasterd {
                    Ok(vec![Action::Exit])
                } else {
                    Ok(Vec::new())
                }
            },
            CtlMsg::CreateSwapKeys(public_offer, wallet_token) => {
                if !(wallet_token == self.wallet_token) {
                    return Err(Error::InvalidToken);
                }
                if self.node_secrets.wallet_counter == u32::MAX {
                    return Err(Error::Internal("wallet counter exhausted".to_owned()));
                }
                let swap_index: u32 = self.node_secrets.wallet_counter + 1;
                let derived = new_key_manager(self.node_secrets.wallet_seed, swap_index);
                self.issue_swap_keys(swap_index, public_offer, derived)
            },
            CtlMsg::GetKeys(wallet_token) => {
                if !(wallet_token == self.wallet_token) {
                    return Err(Error::InvalidToken);
                }
                let keys = Keys {
                    secret_key: self.node_secrets.peerd_secret_key,
                    node_id: self.node_secrets.node_id,
                };
                Ok(
                    vec![
                        Action::Send {
                            bus: ServiceBus::Ctl,
                            dest: ServiceId::Farcasterd,
                            msg: BusMsg::Ctl(CtlMsg::Keys(keys)),
                        },
                    ],
                )
            },
            _ => Ok(Vec::new()),
        }
    }
}

/// The wallet's answer to a Ctl message.
///
/// A key request whose token differs from the stored one fails with `InvalidToken` and
/// changes nothing. `CreateSwapKeys` with the right token derives the key manager for the
/// next index, one above the counter; when that succeeds the counter moves up to it, the
/// caller is asked to persist it and then to send the key manager with its index and the
/// offer to the supervisor; that is so exactly when the counter can grow and a key manager
/// is derived from the seed for the next index. When the derivation fails (always past the largest hardened
/// index) or the counter cannot grow, the request fails with `Internal` and changes nothing.
/// `GetKeys` with the right token sends the node's keys to the supervisor. `Terminate` from
/// the supervisor asks to exit. Other messages are dropped.
pub open spec fn ctl_outcome(
    pre: Runtime,
    post: Runtime,
    source: ServiceId,
    m: CtlMsg,
    r: Result<Vec<Action>, Error>,
) -> bool {
    match m {
        CtlMsg::Terminate => post == pre && (r matches Ok(v) && if source == ServiceId::Farcasterd {
            v@ =~= seq![Action::Exit]
        } else {
            v.len() == 0
        }),
        CtlMsg::CreateSwapKeys(offer, token) => if token != pre.wallet_token {
            post == pre && r == Err::<Vec<Action>, Error>(Error::InvalidToken)
        } else {
            let n = pre.node_secrets.wallet_counter + 1;
            &&& r is Ok <==> (n <= u32::MAX && derives(pre.node_secrets.wallet_seed@, n as u32))
            &&& n > MAX_SWAP_INDEX ==> r is Err
            &&& r is Err ==> (post == pre && r matches Err(Error::Internal(_)))
            &&& r is Ok ==> (exists|k: KeyManager| #[trigger] issued(pre, post, n as u32, k, offer, r))
        },
        CtlMsg::GetKeys(token) => post == pre && if token != pre.wallet_token {
            r == Err::<Vec<Action>, Error>(Error::InvalidToken)
        } else {
            r matches Ok(v) && v@ =~= seq![
                Action::Send {
                    bus: ServiceBus::Ctl,
                    dest: ServiceId::Farcasterd,
                    msg: BusMsg::Ctl(
                        CtlMsg::Keys(
                            Keys {
                                secret_key: pre.node_secrets.peerd_secret_key,
                                node_id: pre.node_secrets.node_id,
                            },
                        ),
                    ),
                },
            ]
        },
        _ => post == pre && (r matches Ok(v) && v.len() == 0),
    }
}

/// A key request answered with key manager `k` for index `n`: the counter is now `n`, and
/// the caller is asked to persist it and then to send `k`, `n` and the offer to the
/// supervisor.
pub open spec fn issued(
    pre: Runtime,
    post: Runtime,
    n: u32,
    k: KeyManager,
    offer: PublicOffer,
    r: Result<Vec<Action>, Error>,
) -> bool {
    &&& post.identity == pre.identity
    &&& post.wallet_token == pre.wallet_token
    &&& post.node_secrets == NodeSecrets { wallet_counter: n, ..pre.node_secrets }
    &&& r matches Ok(v)
    &&& v@ =~= seq![
        Action::PersistCounter(n),
        Action::Send {
            bus: ServiceBus::Ctl,
            dest: ServiceId::Farcasterd,
            msg: BusMsg::Ctl(CtlMsg::SwapKeys(SwapKeys { key_manager: k, swap_index: n, public_offer: offer })),
        },
    ]
}

/// The token a key request carries, if it is one.
pub open spec fn request_token(m: CtlMsg) -> Option<Token> {
    match m {
        CtlMsg::CreateSwapKeys(_, t) => Some(t),
        CtlMsg::GetKeys(t) => Some(t),
        _ => None,
    }
}

/// What handling `request` on lane `bus` from `source` does: anything but a Ctl message on
/// the Ctl lane is refused with `NotSupported` and changes nothing; a Ctl message has the
/// wallet's Ctl outcome.
pub open spec fn handled(
    pre: Runtime,
    post: Runtime,
    bus: ServiceBus,
    source: ServiceId,
    request: BusMsg,
    r: Result<Vec<Action>, Error>,
) -> bool {
    &&& !wallet_admits(bus, family_of(request)) ==> post == pre && (r matches Err(
        Error::NotSupported(b, s),
    ) && b == bus && s@ == msg_name(request))
    &&& bus == ServiceBus::Ctl ==> (request matches BusMsg::Ctl(c) ==> ctl_outcome(pre, post, source, c, r))
}

/// A key request fails with `InvalidToken` exactly when its token differs from the stored
/// one, and then nothing changes and nothing is sent.
pub proof fn lemma_token_gate(
    pre: Runtime,
    post: Runtime,
    source: ServiceId,
    m: CtlMsg,
    r: Result<Vec<Action>, Error>,
)
    requires
        handled(pre, post, ServiceBus::Ctl, source, BusMsg::Ctl(m), r),
        request_token(m) is Some,
    ensures
        (r == Err::<Vec<Action>, Error>(Error::InvalidToken)) <==> request_token(m)->0
            != pre.wallet_token,
        request_token(m)->0 != pre.wallet_token ==> post == pre,
{
}

/// The index a successful `CreateSwapKeys` hands out.
pub open spec fn issued_index(r: Result<Vec<Action>, Error>) -> Option<u32> {
    match r {
        Ok(v) => if v.len() == 2 && (v[1] matches Action::Send {
            msg: BusMsg::Ctl(CtlMsg::SwapKeys(k)),
            ..
        }) {
            Some(v[1]->Send_msg->Ctl_0->SwapKeys_0.swap_index)
        } else {
            None
        },
        Err(_) => None,
    }
}

/// Successive successful key requests hand out consecutive indices, and the counter follows.
pub proof fn lemma_counter_consecutive(
    w0: Runtime,
    w1: Runtime,
    w2: Runtime,
    source1: ServiceId,
    source2: ServiceId,
    m1: CtlMsg,
    m2: CtlMsg,
    r1: Result<Vec<Action>, Error>,
    r2: Result<Vec<Action>, Error>,
)
    requires
        m1 is CreateSwapKeys,
        m2 is CreateSwapKeys,
        handled(w0, w1, ServiceBus::Ctl, source1, BusMsg::Ctl(m1), r1),
        handled(w1, w2, ServiceBus::Ctl, source2, BusMsg::Ctl(m2), r2),
        r1 is Ok,
        r2 is Ok,
    ensures
        issued_index(r1) == Some((w0.node_secrets.wallet_counter + 1) as u32),
        issued_index(r2) == Some((w0.node_secrets.wallet_counter + 2) as u32),
        w2.node_secrets.wallet_counter == w0.node_secrets.wallet_counter + 2,
{
}

/// Indices never repeat across a restart: after a key request that handed out `n`, a wallet
/// that starts again from the counter persisted for it hands out `n + 1` next.
pub proof fn lemma_counter_survives_restart(
    w0: Runtime,
    w1: Runtime,
    restarted: Runtime,
    w2: Runtime,
    source1: ServiceId,
    source2: ServiceId,
    m1: CtlMsg,
    m2: CtlMsg,
    r1: Result<Vec<Action>, Error>,
    r2: Result<Vec<Action>, Error>,
)
    requires
        m1 is CreateSwapKeys,
        m2 is CreateSwapKeys,
        handled(w0, w1, ServiceBus::Ctl, source1, BusMsg::Ctl(m1), r1),
        r1 is Ok,
        r1->Ok_0[0] == Action::PersistCounter(restarted.node_secrets.wallet_counter),
        handled(restarted, w2, ServiceBus::Ctl, source2, BusMsg::Ctl(m2), r2),
        r2 is Ok,
    ensures
        issued_index(r1) matches Some(n) && issued_index(r2) == Some((n + 1) as u32),
        w1.node_secrets.wallet_counter == restarted.node_secrets.wallet_counter,
{
}

/// `Terminate` from the supervisor asks the wallet to leave its loop, sends nothing and
/// changes nothing.
pub proof fn lemma_terminate_exits(w0: Runtime, w1: Runtime, r: Result<Vec<Action>, Error>)
    requires
        handled(w0, w1, ServiceBus::Ctl, ServiceId::Farcasterd, BusMsg::Ctl(CtlMsg::Terminate), r),
    ensures
        w1 == w0,
        r matches Ok(v) && v@ == seq![Action::Exit],
{
}

} // verus!
