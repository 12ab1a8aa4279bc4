//! The decisions of a guest rendezvous. To forward an accepted TCP
//! connection the daemon binds a vsock listener on a port of the kernel's
//! choice, asks the control plane to make the guest connect back to it,
//! waits a bounded time for that connection and checks that it comes from
//! the expected guest. The caller does the binding, asking, waiting and
//! accepting; what to ask and what to make of each answer is decided here.

use vstd::prelude::*;
use crate::forwarder::{ForwarderSession, SessionView};
use crate::sessions::{Error, TcpForwardTarget};
use crate::stream::{SocketKind, SocketView, StreamSocket};
use crate::vsock::SocketAddr;

verus! {

/// Seconds to wait for the guest to connect back.
pub const CHUNNEL_CONNECT_TIMEOUT_SECS: u64 = 10;

/// Milliseconds to wait for the control plane to answer.
pub const DBUS_TIMEOUT_MS: i32 = 30000;

/// The request to the control plane to start a peer in the guest.
#[derive(Debug)]
pub struct ConnectChunnelRequest {
    pub vm_name: String,
    pub container_name: String,
    pub owner_id: String,
    /// The vsock port on which the daemon waits for the guest.
    pub chunneld_port: u32,
    /// The TCP port in the guest that the connection is for.
    pub target_tcp4_port: u32,
}

/// The status with which the control plane answers.
#[derive(Clone, Copy, Debug, PartialEq, Eq, Structural)]
pub enum ConnectChunnelStatus {
    Unknown,
    Success,
    Failed,
}

/// What came of waiting for the guest.
#[derive(Clone, Copy, Debug, PartialEq, Eq, Structural)]
pub enum GuestArrival {
    /// The time allowed passed without a connection.
    TimedOut,
    /// A peer with this address connected.
    Connected(SocketAddr),
}

/// The request that asks for a peer for `target`, to connect back to
/// `vsock_port` and to reach `tcp4_port` in the guest.
pub fn launch_request(vsock_port: u32, tcp4_port: u16, target: &TcpForwardTarget) -> (request:
    ConnectChunnelRequest)
    ensures
        request.vm_name@ == target.vm_name@,
        request.container_name@ == target.container_name@,
        request.owner_id@ == target.owner_id@,
        request.chunneld_port == vsock_port,
        request.target_tcp4_port == tcp4_port,
{
    ConnectChunnelRequest {
        vm_name: target.vm_name.clone(),
        container_name: target.container_name.clone(),
        owner_id: target.owner_id.clone(),
        chunneld_port: vsock_port,
        target_tcp4_port: tcp4_port as u32,
    }
}

/// What the control plane's answer means: success lets the rendezvous go
/// on, any other status ends it with the reason that came with it.
pub fn launch_chunnel(status: ConnectChunnelStatus, failure_reason: String) -> (result: Result<
    (),
    Error,
>)
    ensures
        result == (if status == ConnectChunnelStatus::Success {
            Ok::<(), Error>(())
        } else {
            Err(Error::ConnectChunnelFailure(failure_reason))
        }),
{
    match status {
        ConnectChunnelStatus::Success => Ok(()),
        _ => Err(Error::ConnectChunnelFailure(failure_reason)),
    }
}

/// The session, or the failure, that a rendezvous for `target` ends in.
pub open spec fn rendezvous_result(arrival: GuestArrival, target: TcpForwardTarget) -> Result<
    SessionView,
    Error,
> {
    match arrival {
        GuestArrival::TimedOut => Err(Error::VsockAcceptTimeout),
        GuestArrival::Connected(peer) => if peer.cid != target.vsock_cid {
            Err(Error::IncorrectCid(peer.cid))
        } else {
            Ok(
                SessionView::start(
                    SocketView::connected(SocketKind::Tcp),
                    SocketView::connected(SocketKind::Vsock),
                    crate::forwarder::DEFAULT_CHUNK_SIZE as nat,
                ),
            )
        },
    }
}

/// Concludes a rendezvous: a session between the accepted TCP connection
/// and the guest's vsock connection if the expected guest connected in
/// time. A timeout and a connection from another guest each end the
/// attempt with their own failure.
pub fn create_forwarder_session(arrival: GuestArrival, target: &TcpForwardTarget) -> (result: Result<
    ForwarderSession,
    Error,
>)
    ensures
        match result {
            Ok(session) => rendezvous_result(arrival, *target) == Ok::<SessionView, Error>(session@),
            Err(error) => rendezvous_result(arrival, *target) == Err::<SessionView, Error>(error),
        },
{
    match arrival {
        GuestArrival::TimedOut => Err(Error::VsockAcceptTimeout),
        GuestArrival::Connected(peer) => {
            if peer.cid != target.vsock_cid {
                Err(Error::IncorrectCid(peer.cid))
            } else {
                Ok(
                    ForwarderSession::new(
                        StreamSocket::new(SocketKind::Tcp),
                        StreamSocket::new(SocketKind::Vsock),
                    ),
                )
            }
        },
    }
}

/// Rendezvous timeout: when no guest connects within the time allowed, the
/// attempt fails with the timeout error, whatever the target.
pub proof fn timeout_fails_attempt(target: TcpForwardTarget)
    ensures
        rendezvous_result(GuestArrival::TimedOut, target) == Err::<SessionView, Error>(
            Error::VsockAcceptTimeout,
        ),
{
}

/// A rendezvous succeeds exactly when a peer with the target's context id
/// connected, and the session it gives has both directions open.
pub proof fn rendezvous_succeeds_for_expected_guest(arrival: GuestArrival, target: TcpForwardTarget)
    ensures
        rendezvous_result(arrival, target) is Ok <==> (arrival matches GuestArrival::Connected(peer)
            && peer.cid == target.vsock_cid),
        rendezvous_result(arrival, target) matches Ok(session) ==> session.wf()
            && !session.shut_down(),
{
}

} // verus!
