use crate::models::{Error, JsMsg, JsRequest, JsonResponse, Reply};
use tokio::sync::oneshot;
use vstd::prelude::*;

verus! {

#[verifier::external_type_specification]
#[verifier::external_body]
#[verifier::reject_recursive_types(T)]
pub struct ExOneshotSender<T>(oneshot::Sender<T>);

#[verifier::external_type_specification]
#[verifier::external_body]
#[verifier::reject_recursive_types(T)]
pub struct ExOneshotReceiver<T>(oneshot::Receiver<T>);

#[verifier::external_type_specification]
#[verifier::external_body]
pub struct ExOneshotRecvError(oneshot::error::RecvError);

/// Relies on `tokio::sync::oneshot::channel`: a fresh, connected pair of
/// ends, shared with no other request.
pub assume_specification<T>[ oneshot::channel::<T> ]() -> (oneshot::Sender<T>, oneshot::Receiver<T>);

impl JsMsg {
    /// Wraps `req` with a fresh reply slot; the caller keeps the read end.
    pub fn new(req: JsRequest) -> (r: (JsMsg, oneshot::Receiver<Reply>))
        ensures
            r.0.req == req,
    {
        let (responder, receiver) = oneshot::channel();
        (JsMsg { req, responder }, receiver)
    }
}

/// The caller's view of a finished request: the reply read from its slot, or
/// `None` where the slot was dropped unanswered because the engine thread is
/// gone.
pub fn settle(received: Option<Reply>) -> (r: Result<JsonResponse, Error>)
    ensures
        received is None ==> r == Err::<JsonResponse, Error>(Error::ChannelClosed),
        received matches Some(Ok(v)) ==> r == Ok::<JsonResponse, Error>(JsonResponse { value: v }),
        received matches Some(Err(e)) ==> r == Err::<JsonResponse, Error>(e),
{
    match received {
        Some(Ok(value)) => Ok(JsonResponse { value }),
        Some(Err(e)) => Err(e),
        None => Err(Error::ChannelClosed),
    }
}

} // verus!
