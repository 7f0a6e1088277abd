use vstd::prelude::*;
use crate::error::{ErrorKind, SessionError, SessionErrorView};
use crate::transport::{Channel, ChannelView};

verus! {

/// The step of building a connection that is under way.
#[derive(Clone, Copy, Debug, PartialEq, Eq, Structural)]
pub enum ConnectStage {
    /// Resolving host and port to an address.
    Resolving,
    /// Building the TLS context from the certificate.
    Trusting,
    /// Opening the byte stream to the address.
    Opening,
    /// Performing the TLS handshake over the byte stream.
    Securing,
    /// Performing the WebSocket upgrade.
    Upgrading,
    /// The connection stands.
    Ready,
}

/// The kind of failure that a step reports when it does not succeed.
pub open spec fn failure_kind(stage: ConnectStage) -> ErrorKind {
    match stage {
        ConnectStage::Resolving => ErrorKind::Resolution,
        ConnectStage::Trusting => ErrorKind::Tls,
        ConnectStage::Opening => ErrorKind::Connect,
        ConnectStage::Securing => ErrorKind::Tls,
        ConnectStage::Upgrading => ErrorKind::Handshake,
        ConnectStage::Ready => ErrorKind::Transport,
    }
}

/// The step that follows a successful one. A plain channel skips the two
/// steps of TLS.
pub open spec fn stage_after(stage: ConnectStage, encrypted: bool) -> ConnectStage {
    match stage {
        ConnectStage::Resolving => if encrypted {
            ConnectStage::Trusting
        } else {
            ConnectStage::Opening
        },
        ConnectStage::Trusting => ConnectStage::Opening,
        ConnectStage::Opening => if encrypted {
            ConnectStage::Securing
        } else {
            ConnectStage::Upgrading
        },
        ConnectStage::Securing => ConnectStage::Upgrading,
        ConnectStage::Upgrading => ConnectStage::Ready,
        ConnectStage::Ready => ConnectStage::Ready,
    }
}

/// The steps that build a connection, in order, ending with `Ready`.
pub open spec fn route(encrypted: bool) -> Seq<ConnectStage> {
    if encrypted {
        seq![
            ConnectStage::Resolving,
            ConnectStage::Trusting,
            ConnectStage::Opening,
            ConnectStage::Securing,
            ConnectStage::Upgrading,
            ConnectStage::Ready,
        ]
    } else {
        seq![
            ConnectStage::Resolving,
            ConnectStage::Opening,
            ConnectStage::Upgrading,
            ConnectStage::Ready,
        ]
    }
}

/// Whether a channel is encrypted.
pub open spec fn is_encrypted(channel: ChannelView) -> bool {
    channel is Tls
}

/// The step with which every connection starts.
pub fn first_stage() -> (res: ConnectStage)
    ensures
        res == ConnectStage::Resolving,
{
    ConnectStage::Resolving
}

/// Whether a channel is encrypted.
pub fn encrypted(channel: &Channel) -> (res: bool)
    ensures
        res == is_encrypted(channel@),
{
    match channel {
        Channel::Plain => false,
        Channel::Tls { .. } => true,
    }
}

/// Decides what follows a step from how it went: after a success the next
/// step on the route, after a failure the error of the step's kind with the
/// detail that was reported.
pub fn advance(stage: ConnectStage, encrypted: bool, outcome: Result<(), String>) -> (res: Result<
    ConnectStage,
    SessionError,
>)
    ensures
        match outcome {
            Ok(_) => res == Ok::<ConnectStage, SessionError>(stage_after(stage, encrypted)),
            Err(detail) => res is Err && res->Err_0@ == (SessionErrorView {
                kind: failure_kind(stage),
                detail: detail@,
            }),
        },
{
    match outcome {
        Ok(_) => {
            let next = match stage {
                ConnectStage::Resolving => if encrypted {
                    ConnectStage::Trusting
                } else {
                    ConnectStage::Opening
                },
                ConnectStage::Trusting => ConnectStage::Opening,
                ConnectStage::Opening => if encrypted {
                    ConnectStage::Securing
                } else {
                    ConnectStage::Upgrading
                },
                ConnectStage::Securing => ConnectStage::Upgrading,
                ConnectStage::Upgrading => ConnectStage::Ready,
                ConnectStage::Ready => ConnectStage::Ready,
            };
            Ok(next)
        },
        Err(detail) => {
            let kind = match stage {
                ConnectStage::Resolving => ErrorKind::Resolution,
                ConnectStage::Trusting => ErrorKind::Tls,
                ConnectStage::Opening => ErrorKind::Connect,
                ConnectStage::Securing => ErrorKind::Tls,
                ConnectStage::Upgrading => ErrorKind::Handshake,
                ConnectStage::Ready => ErrorKind::Transport,
            };
            Err(SessionError::new(kind, detail))
        },
    }
}

/// Successes alone walk the route: the route starts with resolution, each of
/// its steps is followed by the next, and it ends with `Ready`, where it
/// stays.
pub proof fn successes_walk_the_route(encrypted: bool)
    ensures
        route(encrypted)[0] == ConnectStage::Resolving,
        route(encrypted).last() == ConnectStage::Ready,
        forall|i: int|
            0 <= i < route(encrypted).len() - 1 ==> stage_after(
                #[trigger] route(encrypted)[i],
                encrypted,
            ) == route(encrypted)[i + 1],
        stage_after(ConnectStage::Ready, encrypted) == ConnectStage::Ready,
{
}

/// A plain connection never passes a step of TLS.
pub proof fn plain_route_has_no_tls_step(i: int)
    requires
        0 <= i < route(false).len(),
    ensures
        route(false)[i] != ConnectStage::Trusting,
        route(false)[i] != ConnectStage::Securing,
{
}

} // verus!
