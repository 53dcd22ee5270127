//! What a receive call hands back: the payload of a publication, or an error
//! that says why there is none.

use vstd::prelude::*;
use vstd::string::*;
use crate::error::ServiceError;

verus! {

/// The body of a received message, as far as receiving cares.
#[derive(Clone, Debug, PartialEq, Eq)]
pub enum MessageContent {
    /// A publication, with its payload.
    Publish(Vec<u8>),
    /// A message of another type (subscription, control, ...).
    Other,
    /// A message without a type.
    Missing,
}

/// A message taken from the application's channel, with the session
/// information it arrived with.
#[derive(Clone, Debug)]
pub struct ReceivedMessage<I> {
    pub info: I,
    pub content: MessageContent,
}

/// The outcome of a receive, from what the channel gave:
/// `None` when it was closed, `Err` with the session error's text, or a
/// message. Only a publication gives a result, its session information and
/// its payload unchanged; every other case is a `ReceiveError`.
pub fn receive_outcome<I>(msg: Option<Result<ReceivedMessage<I>, String>>) -> (r: Result<
    (I, Vec<u8>),
    ServiceError,
>)
    ensures
        match msg {
            None => r matches Err(ServiceError::ReceiveError(m)) && m@ == "no message received"@,
            Some(Err(e)) => r matches Err(ServiceError::ReceiveError(m)) && m@ == e@,
            Some(Ok(received)) => match received.content {
                MessageContent::Publish(blob) => r matches Ok((info, payload)) && info
                    == received.info && payload@ == blob@,
                MessageContent::Other => r matches Err(ServiceError::ReceiveError(m)) && m@
                    == "receive publish message type"@,
                MessageContent::Missing => r matches Err(ServiceError::ReceiveError(m)) && m@
                    == "no message received"@,
            },
        },
{
    match msg {
        None => Err(ServiceError::ReceiveError("no message received".to_owned())),
        Some(Err(e)) => Err(ServiceError::ReceiveError(e)),
        Some(Ok(received)) => {
            let ReceivedMessage { info, content } = received;
            match content {
                MessageContent::Publish(blob) => Ok((info, blob)),
                MessageContent::Other => Err(
                    ServiceError::ReceiveError("receive publish message type".to_owned()),
                ),
                MessageContent::Missing => Err(
                    ServiceError::ReceiveError("no message received".to_owned()),
                ),
            }
        },
    }
}

} // verus!
