//! The keeper of the node's secrets.
use farcaster_node::base::{Error, NodeAddr, RequestType, ServiceBus, ServiceId};
use farcaster_node::blob::Blob;
use farcaster_node::message::{Request, RuntimeContext};
use farcaster_node::walletd::runtime::{run, Outgoing, Runtime};

fn daemon() -> Runtime {
    run("sesame".to_string(), Blob::new(vec![42]), [5; 33])
}

fn answered(request: Request) -> Request {
    match daemon().handle(ServiceBus::Ctl, request) {
        Ok(Some(Outgoing { bus: ServiceBus::Ctl, dest: ServiceId::Farcasterd, request })) => request,
        other => panic!("{:?}", other),
    }
}

#[test]
fn secrets_for_the_right_token() {
    assert_eq!(
        answered(Request::GetSecret("sesame".to_string(), RuntimeContext::GetInfo)),
        Request::Secret(Blob::new(vec![42]), RuntimeContext::GetInfo)
    );
}

#[test]
fn no_secrets_for_another_token() {
    let request = Request::GetSecret("Sesame".to_string(), RuntimeContext::GetInfo);
    assert_eq!(daemon().handle(ServiceBus::Ctl, request), Err(Error::InvalidToken));
}

#[test]
fn node_id_and_what_was_held_back() {
    let addr = NodeAddr { node_id: [1; 33], host: [2; 32], port: 3 };
    let offer = Blob::new(vec![1]);
    assert_eq!(answered(Request::GetNodeId), Request::NodeId([5; 33]));
    assert_eq!(answered(Request::Loopback(RuntimeContext::GetInfo)), Request::GetInfo);
    assert_eq!(
        answered(Request::Loopback(RuntimeContext::MakeOffer(offer.clone()))),
        Request::MakeOffer(offer.clone())
    );
    assert_eq!(
        answered(Request::Loopback(RuntimeContext::TakeOffer(offer.clone()))),
        Request::TakeOffer(offer)
    );
    assert_eq!(
        answered(Request::Loopback(RuntimeContext::Listen(addr))),
        Request::Listen(addr)
    );
    assert_eq!(
        answered(Request::Loopback(RuntimeContext::ConnectPeer(addr))),
        Request::ConnectPeer(addr)
    );
}

#[test]
fn other_requests_and_buses() {
    assert_eq!(daemon().identity(), ServiceId::Wallet);
    assert_eq!(daemon().handle(ServiceBus::Ctl, Request::Hello), Ok(None));
    assert_eq!(daemon().handle(ServiceBus::Msg, Request::GetNodeId), Ok(None));
    assert_eq!(
        daemon().handle(ServiceBus::Bridge, Request::GetNodeId),
        Err(Error::NotSupported(ServiceBus::Bridge, RequestType::GetNodeId))
    );
}
