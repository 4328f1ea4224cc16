//! The outside crates as the verifier sees them: their types, and the contracts of the functions
//! that the library calls. The contracts of this file are believed, not proved.

use anyhow::Error as AnyhowError;
use reqwest::Error as ReqwestError;
use serde_json::Error as JsonError;
use std::io::Error as IoError;
use std::task::Context;
use std::task::Poll;
use tokio::sync::mpsc;
use tokio::sync::watch;
use tokio::task::JoinError;
use tower::discover::Change;
use vstd::prelude::*;

use crate::service_discovery::taken_after;
use crate::service_discovery::ClusterMember;
use crate::service_discovery::SearchResponse;
use crate::service_discovery::SearchResponseView;
use crate::service_discovery::SocketAddr;

verus! {

/// `tokio::task::JoinError`, why a task did not run to its end.
#[verifier::external_type_specification]
#[verifier::external_body]
pub struct ExJoinError(tokio::task::JoinError);

/// `tokio::sync::oneshot::error::RecvError`, the sender of a reply was dropped.
#[verifier::external_type_specification]
#[verifier::external_body]
pub struct ExRecvError(tokio::sync::oneshot::error::RecvError);

/// `tokio::time::error::Elapsed`, a deadline passed.
#[verifier::external_type_specification]
#[verifier::external_body]
pub struct ExElapsed(tokio::time::error::Elapsed);

/// `tokio::sync::watch::Receiver`, the reading end of a single shared value.
#[verifier::external_type_specification]
#[verifier::external_body]
#[verifier::reject_recursive_types(T)]
pub struct ExWatchReceiver<T>(tokio::sync::watch::Receiver<T>);

/// `tokio::sync::mpsc::Receiver`, the reading end of a queue.
#[verifier::external_type_specification]
#[verifier::external_body]
#[verifier::reject_recursive_types(T)]
pub struct ExMpscReceiver<T>(tokio::sync::mpsc::Receiver<T>);

/// `std::task::Context`, whom to wake.
#[verifier::external_type_specification]
#[verifier::external_body]
pub struct ExContext<'a>(std::task::Context<'a>);

/// `std::task::Poll`. The verifier reads its variants.
#[verifier::external_type_specification]
#[verifier::reject_recursive_types(T)]
pub struct ExPoll<T>(std::task::Poll<T>);

/// `tower::discover::Change`. The verifier reads its variants.
#[verifier::external_type_specification]
#[verifier::reject_recursive_types(K)]
#[verifier::reject_recursive_types(V)]
pub struct ExChange<K, V>(tower::discover::Change<K, V>);

/// `anyhow::Error`, why a client could not be built.
#[verifier::external_type_specification]
#[verifier::external_body]
pub struct ExAnyhowError(AnyhowError);

/// `tonic::Status`, how a remote call failed.
#[verifier::external_type_specification]
#[verifier::external_body]
pub struct ExStatus(tonic::Status);

/// `tonic::Response`, a message with its metadata.
#[verifier::external_type_specification]
#[verifier::external_body]
#[verifier::reject_recursive_types(T)]
pub struct ExResponse<T>(tonic::Response<T>);

/// `reqwest::Error`, a failed HTTP exchange.
#[verifier::external_type_specification]
#[verifier::external_body]
pub struct ExReqwestError(ReqwestError);

/// `reqwest::StatusCode`, an HTTP status.
#[verifier::external_type_specification]
#[verifier::external_body]
pub struct ExStatusCode(reqwest::StatusCode);

/// `serde_json::Error`, a failed JSON conversion.
#[verifier::external_type_specification]
#[verifier::external_body]
pub struct ExJsonError(JsonError);

/// `std::io::Error`, which `tokio::io::Error` names too.
#[verifier::external_type_specification]
#[verifier::external_body]
pub struct ExIoError(IoError);

/// Whether a panic of the task caused `err`: what `JoinError::is_panic` answers. The cause is
/// fixed when the error is made and nothing changes it afterwards.
pub uninterp spec fn join_error_is_panic(err: JoinError) -> bool;

/// `JoinError::is_panic` reads the cause of the error.
pub assume_specification[ JoinError::is_panic ](err: &JoinError) -> (is_panic: bool)
    ensures
        is_panic == join_error_is_panic(*err),
;

/// The status of the response that caused `err`, if a response did: what `reqwest::Error::status`
/// answers. It is fixed when the error is made and nothing changes it afterwards.
pub uninterp spec fn client_error_status(err: ReqwestError) -> Option<reqwest::StatusCode>;

/// `reqwest::Error::status` reads the status that the error was made with.
pub assume_specification[ ReqwestError::status ](err: &ReqwestError) -> (status: Option<
    reqwest::StatusCode,
>)
    ensures
        status == client_error_status(*err),
;

/// The changes that `receiver` has handed out so far, in the order of its channel: those below the
/// position that it reads from next.
pub uninterp spec fn taken_changes(
    receiver: mpsc::Receiver<Change<SocketAddr, ClusterMember>>,
) -> Seq<Change<SocketAddr, ClusterMember>>;

/// Whether `receiver` has answered a poll that its channel is closed and that all of it was taken.
pub uninterp spec fn found_closed(
    receiver: mpsc::Receiver<Change<SocketAddr, ClusterMember>>,
) -> bool;

/// `mpsc::Receiver::poll_recv`. A change that it returns is the next one of the channel, and the
/// receiver moves on by that one change; with any other answer the receiver stays where it is. A
/// channel that was found closed stays closed: no change comes of it any more. Which answer comes
/// depends, apart from that, on the senders and on the scheduler, so nothing is claimed of it.
#[verifier::external_body]
pub fn poll_changes(
    receiver: &mut mpsc::Receiver<Change<SocketAddr, ClusterMember>>,
    cx: &mut Context<'_>,
) -> (polled: Poll<Option<Change<SocketAddr, ClusterMember>>>)
    ensures
        taken_changes(*final(receiver)) == taken_after(taken_changes(*old(receiver)), polled),
        found_closed(*final(receiver)) == (found_closed(*old(receiver)) || (polled matches Poll::Ready(
            None,
        ))),
        found_closed(*old(receiver)) ==> !(polled matches Poll::Ready(Some(_))),
{
    receiver.poll_recv(cx)
}

/// `watch::Receiver::borrow`, and a clone of what it borrows. The result is a clone of some value
/// of `T`; which one depends on what the sender has published so far, so nothing is claimed of
/// that.
#[verifier::external_body]
pub fn latest_value<T: Clone>(receiver: &watch::Receiver<T>) -> (value: T)
    ensures
        exists|original: T| call_ensures(T::clone, (&original,), value),
{
    receiver.borrow().clone()
}

/// The response around `message` that `tonic::Response::new` makes: with no metadata and no
/// extensions.
pub uninterp spec fn response_of(message: SearchResponseView) -> tonic::Response<SearchResponse>;

/// `tonic::Response::new`. What it makes depends on `message` alone.
#[verifier::external_body]
pub(crate) fn new_response(message: SearchResponse) -> (response: tonic::Response<SearchResponse>)
    ensures
        response == response_of(message@),
{
    tonic::Response::new(message)
}

/// `text` between double quotes and with its special characters escaped, as the `Debug` of `str`
/// writes it.
pub uninterp spec fn quoted_text(text: Seq<char>) -> Seq<char>;

/// `<str as std::fmt::Debug>::fmt`, called through `format!`.
#[verifier::external_body]
pub(crate) fn quote(text: &str) -> (quoted: String)
    ensures
        quoted@ == quoted_text(text@),
{
    format!("{:?}", text)
}

} // verus!
