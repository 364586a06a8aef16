//! The submission endpoint: what a posted message becomes in the queue, and
//! what the submitter is told.

use crate::processor::{OutboundRequest, OutboundRequestView};
use crate::signal_service::{inv, submitted, SignalServiceWrapper};
use vstd::prelude::*;

verus! {

/// The status told to a submitter whose message was queued.
pub const STATUS_OK: u16 = 200;

/// The status told to a submitter whose message the queue did not take.
pub const STATUS_INTERNAL_SERVER_ERROR: u16 = 500;

/// A message to send. The view is its text.
#[derive(Clone, PartialEq, Eq, Debug)]
pub struct Message {
    content: String,
}

impl View for Message {
    type V = Seq<char>;

    closed spec fn view(&self) -> Seq<char> {
        self.content@
    }
}

impl Message {
    /// A message with this text.
    pub fn new(content: String) -> (r: Message)
        ensures
            r@ == content@,
    {
        Message { content }
    }

    /// The text of the message.
    pub fn content(&self) -> (r: &str)
        ensures
            r@ == self@,
    {
        self.content.as_str()
    }
}

/// Sends a message to a destination: the pair joins the queue of the
/// service, and the status says whether the queue took it.
pub fn send(destination: String, session: &mut SignalServiceWrapper, message: Message) -> (status:
    u16)
    ensures
        final(session)@ == submitted(
            old(session)@,
            OutboundRequestView { destination: destination@, body: message@ },
        ),
        status == (if old(session)@.closed {
            STATUS_INTERNAL_SERVER_ERROR
        } else {
            STATUS_OK
        }),
        inv(old(session)@) ==> inv(final(session)@),
{
    let request = OutboundRequest { destination, body: message.content };
    if session.enqueue(request) {
        STATUS_OK
    } else {
        STATUS_INTERNAL_SERVER_ERROR
    }
}

} // verus!
