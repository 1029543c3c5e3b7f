//! Requests to the keeper of the node's secrets.
use vstd::prelude::*;

use crate::base::{Error, ServiceBus, ServiceId};
use crate::blob::Blob;
use crate::message::{Request, RuntimeContext};

verus! {

/// The node's secrets, its public key, and the token that opens them.
pub struct Runtime {
    pub walletd_token: String,
    pub node_secrets: Blob,
    pub node_id: [u8; 33],
}

/// A request on its way to the node daemon.
#[derive(Debug, PartialEq, Eq)]
pub struct Outgoing {
    pub bus: ServiceBus,
    pub dest: ServiceId,
    pub request: Request,
}

/// A request to the node daemon on the control bus.
pub open spec fn to_farcasterd(request: Request) -> Outgoing {
    Outgoing { bus: ServiceBus::Ctl, dest: ServiceId::Farcasterd, request }
}

/// The request that was held back until the secrets were there.
pub open spec fn taken_up(context: RuntimeContext) -> Request {
    match context {
        RuntimeContext::GetInfo => Request::GetInfo,
        RuntimeContext::MakeOffer(offer) => Request::MakeOffer(offer),
        RuntimeContext::TakeOffer(offer) => Request::TakeOffer(offer),
        RuntimeContext::Listen(addr) => Request::Listen(addr),
        RuntimeContext::ConnectPeer(addr) => Request::ConnectPeer(addr),
    }
}

/// What the wallet daemon answers on the control bus, and whom: the secrets go to the
/// node daemon alone, and only for the right token.
pub open spec fn answer(
    token: Seq<char>,
    secrets: Blob,
    node_id: [u8; 33],
    request: Request,
) -> Result<Option<Outgoing>, Error> {
    match request {
        Request::GetSecret(presented, context) => if presented@ == token {
            Ok(Some(to_farcasterd(Request::Secret(secrets, context))))
        } else {
            Err(Error::InvalidToken)
        },
        Request::GetNodeId => Ok(Some(to_farcasterd(Request::NodeId(node_id)))),
        Request::Loopback(context) => Ok(Some(to_farcasterd(taken_up(context)))),
        _ => Ok(None),
    }
}

/// Sets up the wallet daemon.
pub fn run(walletd_token: String, node_secrets: Blob, node_id: [u8; 33]) -> (r: Runtime)
    ensures
        r.walletd_token == walletd_token,
        r.node_secrets == node_secrets,
        r.node_id == node_id,
{
    Runtime { walletd_token, node_secrets, node_id }
}

impl Runtime {
    /// The service under which the wallet daemon is known.
    pub fn identity(&self) -> (r: ServiceId)
        ensures
            r == ServiceId::Wallet,
    {
        ServiceId::Wallet
    }

    fn send_farcasterd(&self, request: Request) -> (r: Outgoing)
        ensures
            r == to_farcasterd(request),
    {
        Outgoing { bus: ServiceBus::Ctl, dest: ServiceId::Farcasterd, request }
    }

    /// Handles a request on any bus. Nothing is done on the message bus.
    pub fn handle(&self, bus: ServiceBus, request: Request) -> (r: Result<Option<Outgoing>, Error>)
        ensures
            r == (match bus {
                ServiceBus::Msg => Ok(None),
                ServiceBus::Ctl => answer(
                    self.walletd_token@,
                    self.node_secrets,
                    self.node_id,
                    request,
                ),
                ServiceBus::Bridge => Err(
                    Error::NotSupported(ServiceBus::Bridge, request.get_type()),
                ),
            }),
    {
        match bus {
            ServiceBus::Msg => Ok(None),
            ServiceBus::Ctl => self.handle_rpc_ctl(request),
            ServiceBus::Bridge => Err(
                Error::NotSupported(ServiceBus::Bridge, request.get_type()),
            ),
        }
    }

    /// Handles a request on the control bus.
    pub fn handle_rpc_ctl(&self, request: Request) -> (r: Result<Option<Outgoing>, Error>)
        ensures
            r == answer(self.walletd_token@, self.node_secrets, self.node_id, request),
    {
        match request {
            Request::GetSecret(presented, context) => {
                if presented == self.walletd_token {
                    Ok(
                        Some(
                            self.send_farcasterd(
                                Request::Secret(self.node_secrets.clone(), context),
                            ),
                        ),
                    )
                } else {
                    Err(Error::InvalidToken)
                }
            },
            Request::GetNodeId => Ok(Some(self.send_farcasterd(Request::NodeId(self.node_id)))),
            Request::Loopback(context) => {
                let request = match context {
                    RuntimeContext::GetInfo => Request::GetInfo,
                    RuntimeContext::MakeOffer(offer) => Request::MakeOffer(offer),
                    RuntimeContext::TakeOffer(offer) => Request::TakeOffer(offer),
                    RuntimeContext::Listen(addr) => Request::Listen(addr),
                    RuntimeContext::ConnectPeer(addr) => Request::ConnectPeer(addr),
                };
                Ok(Some(self.send_farcasterd(request)))
            },
            _ => Ok(None),
        }
    }
}

/// Whatever is asked of the wallet daemon, secrets leave it only in answer to its
/// token, and only towards the node daemon.
pub proof fn law_secrets_guarded(
    token: Seq<char>,
    secrets: Blob,
    node_id: [u8; 33],
    request: Request,
)
    ensures
        answer(token, secrets, node_id, request) matches Ok(Some(out)) ==> {
            &&& out.dest == ServiceId::Farcasterd
            &&& out.request is Secret ==> (request matches Request::GetSecret(presented, _)
                && presented@ == token)
        },
{
}

/// The wallet daemon answers three questions, each to the node daemon on the control
/// bus: for its secrets, if and only if the token is the right one, with the context of
/// the question; for the node's identifier; and for a request that was held back, with
/// that request. A wrong token is an error, and anything else is passed over.
pub proof fn law_wallet_daemon_answers(
    token: Seq<char>,
    secrets: Blob,
    node_id: [u8; 33],
    request: Request,
)
    ensures
        match request {
            Request::GetSecret(presented, context) => if presented@ == token {
                answer(token, secrets, node_id, request) matches Ok(Some(out)) && out.bus
                    == ServiceBus::Ctl && out.dest == ServiceId::Farcasterd && out.request
                    == Request::Secret(secrets, context)
            } else {
                answer(token, secrets, node_id, request) == Err::<Option<Outgoing>, Error>(
                    Error::InvalidToken,
                )
            },
            Request::GetNodeId => answer(token, secrets, node_id, request) matches Ok(Some(out))
                && out.bus == ServiceBus::Ctl && out.dest == ServiceId::Farcasterd && out.request
                == Request::NodeId(node_id),
            Request::Loopback(context) => answer(token, secrets, node_id, request) matches Ok(
                Some(out),
            ) && out.bus == ServiceBus::Ctl && out.dest == ServiceId::Farcasterd && match context {
                RuntimeContext::GetInfo => out.request is GetInfo,
                RuntimeContext::MakeOffer(x) => out.request == Request::MakeOffer(x),
                RuntimeContext::TakeOffer(x) => out.request == Request::TakeOffer(x),
                RuntimeContext::Listen(x) => out.request == Request::Listen(x),
                RuntimeContext::ConnectPeer(x) => out.request == Request::ConnectPeer(x),
            },
            _ => answer(token, secrets, node_id, request) == Ok::<Option<Outgoing>, Error>(None),
        },
{
}

} // verus!
