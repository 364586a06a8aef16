//! The receive loop's work on one item of the stream: the event to show and
//! the attachments to fetch.

use crate::attachment::{attachment_jobs, attachments_of, jobs_view, AttachmentJob};
use crate::classify::{classified, classify, event_view, ClassifiedEvent, Lookups};
use crate::content::{ProtocolContent, Thread};
use vstd::prelude::*;
use vstd::string::*;

verus! {

/// What one item of the stream gives.
#[derive(Clone, PartialEq, Eq, Debug)]
pub struct Incoming {
    /// The event to hand to the notification sink, if the item gives one.
    pub event: Option<ClassifiedEvent>,
    /// The attachments to fetch and save, in order.
    pub attachments: Vec<AttachmentJob>,
}

/// Handles one item. `thread` is the conversation derived from the item; an
/// item from which none could be derived is skipped: it gives no event and
/// no attachment. `lookups` holds what the store answered to the lookups of
/// `lookup_plan`.
pub fn process_incoming_message(
    content: &ProtocolContent,
    thread: &Option<Thread>,
    lookups: &Lookups,
) -> (r: Incoming)
    ensures
        match *thread {
            Some(conversation) => {
                &&& event_view(r.event) == classified(content@, conversation, lookups@)
                &&& jobs_view(r.attachments@) == attachments_of(content@)
            },
            None => {
                &&& r.event is None
                &&& r.attachments@.len() == 0
            },
        },
{
    match thread {
        Some(conversation) => Incoming {
            event: classify(content, conversation, lookups),
            attachments: attachment_jobs(content),
        },
        None => Incoming { event: None, attachments: Vec::new() },
    }
}

/// A desktop notification.
#[derive(Clone, PartialEq, Eq, Debug)]
pub struct Notice {
    pub summary: String,
    pub body: String,
    pub icon: String,
}

/// The notification that shows an event: the attribution as its summary,
/// the event's summary as its body, under the icon of the protocol client.
pub fn notice(event: &ClassifiedEvent) -> (r: Notice)
    ensures
        r.summary@ == event.prefix@,
        r.body@ == event.summary@,
        r.icon@ == "presage"@,
{
    Notice {
        summary: event.prefix.clone(),
        body: event.summary.clone(),
        icon: String::from_str("presage"),
    }
}

} // verus!
