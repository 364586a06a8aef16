//! The event classifier: from one incoming item and what the store knows,
//! to at most one attributed, human-readable event.

use crate::account::{hyphenated, AccountId};
use crate::content::{
    contact_view, content_view, group_view, text_view, Contact, ContentBody, ContentBodyView,
    DataMessage, DataMessageView, Group, ProtocolContent, ProtocolContentView, Thread,
};
use crate::text::{decimal, decimal_text};
use vstd::prelude::*;
use vstd::string::*;

verus! {

/// Whether an event tells of a message that came in or of one that this
/// account sent.
#[derive(Clone, Copy, PartialEq, Eq, Structural, Debug)]
pub enum Direction {
    Sent,
    Received,
}

/// Whether a data message is a reply: it quotes a text and has a body.
pub open spec fn is_reply(data: DataMessageView) -> bool {
    &&& data.quote matches Some(quote)
    &&& quote.text is Some
    &&& data.body is Some
}

/// The time stamp of the message that a data message reacts to. Only a
/// message that is no reply, and whose reaction names both its target and an
/// emoji, reacts to one.
pub open spec fn reaction_target(data: DataMessageView) -> Option<u64> {
    if is_reply(data) {
        None
    } else {
        match data.reaction {
            Some(reaction) => if reaction.emoji is Some {
                reaction.target_sent_timestamp
            } else {
                None
            },
            None => None,
        }
    }
}

/// The body of a stored message, where the store has the message, it is a
/// data message and it has a body.
pub open spec fn stored_body(stored: Option<ProtocolContentView>) -> Option<Seq<char>> {
    match stored {
        Some(content) => match content.body {
            ContentBodyView::DataMessage(data) => data.body,
            _ => None,
        },
        None => None,
    }
}

/// The summary of a data message, by the first form that it has: a reply,
/// a reaction, a plain body, or none of these. `stored` is what the store
/// holds at the time stamp that a reaction names; a reaction whose target has
/// no body there has no summary.
pub open spec fn summary(data: DataMessageView, stored: Option<ProtocolContentView>) -> Option<
    Seq<char>,
> {
    if is_reply(data) {
        Some(
            "Answer to message \""@ + data.quote->0.text->0 + "\": "@ + data.body->0,
        )
    } else if reaction_target(data) is Some {
        match stored_body(stored) {
            Some(body) => Some(
                "Reacted with "@ + data.reaction->0.emoji->0 + " to message: \""@ + body + "\""@,
            ),
            None => None,
        }
    } else {
        match data.body {
            Some(body) => Some(body),
            None => Some("Empty data message"@),
        }
    }
}

/// Summarises a data message. `stored` is the message that the store holds
/// in the same conversation at the time stamp that `reaction_target` names.
pub fn summarize(data: &DataMessage, stored: &Option<ProtocolContent>) -> (r: Option<String>)
    ensures
        text_view(r) == summary(data@, content_view(*stored)),
{
    if let Some(quote) = &data.quote {
        if let Some(quoted) = &quote.text {
            if let Some(body) = &data.body {
                let r = String::from_str("Answer to message \"").concat(quoted.as_str()).concat(
                    "\": ",
                ).concat(body.as_str());
                return Some(r);
            }
        }
    }
    if let Some(reaction) = &data.reaction {
        if let Some(emoji) = &reaction.emoji {
            if reaction.target_sent_timestamp.is_some() {
                let r = match stored {
                    Some(content) => match &content.body {
                        ContentBody::DataMessage(target) => match &target.body {
                            Some(body) => Some(
                                String::from_str("Reacted with ").concat(emoji.as_str()).concat(
                                    " to message: \"",
                                ).concat(body.as_str()).concat("\""),
                            ),
                            None => None,
                        },
                        _ => None,
                    },
                    None => None,
                };
                return r;
            }
        }
    }
    match &data.body {
        Some(body) => Some(body.clone()),
        None => Some(String::from_str("Empty data message")),
    }
}

/// How a participant is shown: by name and id where the store has a contact
/// with a name, by id alone otherwise.
pub open spec fn contact_label(id: AccountId, contact: Option<Seq<char>>) -> Seq<char> {
    match contact {
        Some(name) => if name.len() > 0 {
            name + ": "@ + hyphenated(id.value)
        } else {
            hyphenated(id.value)
        },
        None => hyphenated(id.value),
    }
}

/// Renders a participant for display. `contact` is what the store holds
/// under `id`.
pub fn format_contact(id: &AccountId, contact: &Option<Contact>) -> (r: String)
    ensures
        r@ == contact_label(*id, contact_view(*contact)),
{
    let id_text = id.text();
    match contact {
        Some(c) => {
            if c.name.as_str().is_empty() {
                id_text
            } else {
                c.name.clone().concat(": ").concat(id_text.as_str())
            }
        },
        None => id_text,
    }
}

/// How a group is shown: by its title, or as missing where the store has
/// no such group.
pub open spec fn group_label(group: Option<Seq<char>>) -> Seq<char> {
    match group {
        Some(title) => title,
        None => "<missing group>"@,
    }
}

/// Renders a group for display. `group` is what the store holds under the
/// group's key.
pub fn format_group(group: &Option<Group>) -> (r: String)
    ensures
        r@ == group_label(group_view(*group)),
{
    match group {
        Some(g) => g.title.clone(),
        None => String::from_str("<missing group>"),
    }
}

/// The line that attributes an event: who it came from or went to, in which
/// group, and when. In a group, a received event names its sender, and a
/// sent one names the group alone.
pub open spec fn attribution(
    direction: Direction,
    thread: Thread,
    sender: AccountId,
    timestamp: u64,
    contact: Option<Seq<char>>,
    group: Option<Seq<char>>,
) -> Seq<char> {
    match thread {
        Thread::Contact(id) => match direction {
            Direction::Received => "From "@ + contact_label(id, contact) + " @ "@ + decimal(
                timestamp as nat,
            ) + ": "@,
            Direction::Sent => "To "@ + contact_label(id, contact) + " @ "@ + decimal(
                timestamp as nat,
            ),
        },
        Thread::Group(_) => match direction {
            Direction::Received => "From "@ + contact_label(sender, contact) + " to group "@
                + group_label(group) + " @ "@ + decimal(timestamp as nat) + ": "@,
            Direction::Sent => "To group "@ + group_label(group) + " @ "@ + decimal(
                timestamp as nat,
            ),
        },
    }
}

/// Renders the attribution of an event. `contact` is what the store holds
/// of the participant to show (see `lookup_plan`), `group` what it holds of
/// the thread's group.
pub fn format_prefix(
    direction: Direction,
    thread: &Thread,
    sender: &AccountId,
    timestamp: u64,
    contact: &Option<Contact>,
    group: &Option<Group>,
) -> (r: String)
    ensures
        r@ == attribution(
            direction,
            *thread,
            *sender,
            timestamp,
            contact_view(*contact),
            group_view(*group),
        ),
{
    let when = decimal_text(timestamp);
    match thread {
        Thread::Contact(id) => {
            let who = format_contact(id, contact);
            match direction {
                Direction::Received => String::from_str("From ").concat(who.as_str()).concat(
                    " @ ",
                ).concat(when.as_str()).concat(": "),
                Direction::Sent => String::from_str("To ").concat(who.as_str()).concat(
                    " @ ",
                ).concat(when.as_str()),
            }
        },
        Thread::Group(_) => {
            let which = format_group(group);
            match direction {
                Direction::Received => {
                    let who = format_contact(sender, contact);
                    String::from_str("From ").concat(who.as_str()).concat(" to group ").concat(
                        which.as_str(),
                    ).concat(" @ ").concat(when.as_str()).concat(": ")
                },
                Direction::Sent => String::from_str("To group ").concat(which.as_str()).concat(
                    " @ ",
                ).concat(when.as_str()),
            }
        },
    }
}

/// What the session's store answered to the lookups that `lookup_plan`
/// names. A lookup that was not made, that failed or that found nothing is
/// `None`.
#[derive(Clone, PartialEq, Eq, Debug)]
pub struct Lookups {
    /// The stored message of the same conversation at the planned time stamp.
    pub message: Option<ProtocolContent>,
    /// The contact stored under the planned account id.
    pub contact: Option<Contact>,
    /// The group stored under the planned key.
    pub group: Option<Group>,
}

pub struct LookupsView {
    pub message: Option<ProtocolContentView>,
    pub contact: Option<Seq<char>>,
    pub group: Option<Seq<char>>,
}

impl View for Lookups {
    type V = LookupsView;

    open spec fn view(&self) -> LookupsView {
        LookupsView {
            message: content_view(self.message),
            contact: contact_view(self.contact),
            group: group_view(self.group),
        }
    }
}

/// The lookups that classifying one item may read.
#[derive(Clone, Copy, PartialEq, Eq, Debug)]
pub struct LookupPlan {
    /// The time stamp of the message to fetch from the item's conversation.
    pub message: Option<u64>,
    /// The account whose contact entry to fetch.
    pub contact: Option<AccountId>,
    /// The key of the group to fetch.
    pub group: Option<[u8; 32]>,
}

/// The data message that an item is classified by, and the direction that it
/// gives the event: an incoming data message, or the one that a
/// synchronisation message records as sent.
pub open spec fn carried(body: ContentBodyView) -> Option<(Direction, DataMessageView)> {
    match body {
        ContentBodyView::DataMessage(data) => Some((Direction::Received, data)),
        ContentBodyView::SynchronizeMessage(Some(data)) => Some((Direction::Sent, data)),
        _ => None,
    }
}

/// The direction and summary of the event that a body gives, if it gives
/// one. `stored` is what the store holds at the time stamp that a reaction
/// names.
pub open spec fn outline(body: ContentBodyView, stored: Option<ProtocolContentView>) -> Option<
    (Direction, Seq<char>),
> {
    match body {
        ContentBodyView::NullMessage => Some(
            (Direction::Received, "Null message (for example deleted)"@),
        ),
        ContentBodyView::CallMessage => Some((Direction::Received, "is calling!"@)),
        ContentBodyView::TypingMessage => Some((Direction::Received, "is typing..."@)),
        _ => match carried(body) {
            Some((direction, data)) => match summary(data, stored) {
                Some(text) => Some((direction, text)),
                None => None,
            },
            None => None,
        },
    }
}

/// The direction of the event that a body may give, whatever the store
/// holds.
pub open spec fn direction_of(body: ContentBodyView) -> Option<Direction> {
    match body {
        ContentBodyView::NullMessage => Some(Direction::Received),
        ContentBodyView::CallMessage => Some(Direction::Received),
        ContentBodyView::TypingMessage => Some(Direction::Received),
        _ => match carried(body) {
            Some((direction, _)) => Some(direction),
            None => None,
        },
    }
}

/// The lookups to make for an item of the conversation `thread`: the target
/// of a reaction; the contact to show, which is the other side of a
/// one-to-one conversation and the sender of what a group received; and the
/// group of a group conversation.
pub open spec fn planned(content: ProtocolContentView, thread: Thread) -> LookupPlan {
    LookupPlan {
        message: match carried(content.body) {
            Some((_, data)) => reaction_target(data),
            None => None,
        },
        contact: match direction_of(content.body) {
            Some(direction) => match thread {
                Thread::Contact(id) => Some(id),
                Thread::Group(_) => if direction == Direction::Received {
                    Some(content.sender)
                } else {
                    None
                },
            },
            None => None,
        },
        group: match direction_of(content.body) {
            Some(_) => match thread {
                Thread::Contact(_) => None,
                Thread::Group(key) => Some(key),
            },
            None => None,
        },
    }
}

/// One classified event: which way the message went, in which conversation,
/// what it said and when, with the line that attributes it.
#[derive(Clone, PartialEq, Eq, Debug)]
pub struct ClassifiedEvent {
    pub direction: Direction,
    pub thread: Thread,
    pub summary: String,
    pub timestamp: u64,
    pub prefix: String,
}

pub struct ClassifiedEventView {
    pub direction: Direction,
    pub thread: Thread,
    pub summary: Seq<char>,
    pub timestamp: u64,
    pub prefix: Seq<char>,
}

impl View for ClassifiedEvent {
    type V = ClassifiedEventView;

    open spec fn view(&self) -> ClassifiedEventView {
        ClassifiedEventView {
            direction: self.direction,
            thread: self.thread,
            summary: self.summary@,
            timestamp: self.timestamp,
            prefix: self.prefix@,
        }
    }
}

/// The view of an optional event.
pub open spec fn event_view(event: Option<ClassifiedEvent>) -> Option<ClassifiedEventView> {
    match event {
        Some(e) => Some(e@),
        None => None,
    }
}

/// The event that an item of the conversation `thread` gives, if any, with
/// `lookups` being what the store answered.
pub open spec fn classified(
    content: ProtocolContentView,
    thread: Thread,
    lookups: LookupsView,
) -> Option<ClassifiedEventView> {
    match outline(content.body, lookups.message) {
        Some((direction, text)) => Some(
            ClassifiedEventView {
                direction,
                thread,
                summary: text,
                timestamp: content.timestamp,
                prefix: attribution(
                    direction,
                    thread,
                    content.sender,
                    content.timestamp,
                    lookups.contact,
                    lookups.group,
                ),
            },
        ),
        None => None,
    }
}

/// Names the lookups that `classify` may read for this item.
pub fn lookup_plan(content: &ProtocolContent, thread: &Thread) -> (r: LookupPlan)
    ensures
        r == planned(content@, *thread),
{
    let carried_data: Option<(Direction, &DataMessage)> = match &content.body {
        ContentBody::DataMessage(data) => Some((Direction::Received, data)),
        ContentBody::SynchronizeMessage(sync) => match &sync.sent {
            Some(sent) => match &sent.message {
                Some(data) => Some((Direction::Sent, data)),
                None => None,
            },
            None => None,
        },
        _ => None,
    };
    let direction: Option<Direction> = match &content.body {
        ContentBody::NullMessage => Some(Direction::Received),
        ContentBody::CallMessage => Some(Direction::Received),
        ContentBody::TypingMessage => Some(Direction::Received),
        _ => match carried_data {
            Some((d, _)) => Some(d),
            None => None,
        },
    };
    let message = match carried_data {
        Some((_, data)) => target_of(data),
        None => None,
    };
    let contact = match direction {
        Some(d) => match thread {
            Thread::Contact(id) => Some(*id),
            Thread::Group(_) => match d {
                Direction::Received => Some(content.sender),
                Direction::Sent => None,
            },
        },
        None => None,
    };
    let group = match direction {
        Some(_) => match thread {
            Thread::Contact(_) => None,
            Thread::Group(key) => Some(*key),
        },
        None => None,
    };
    LookupPlan { message, contact, group }
}

/// The time stamp of the message that a data message reacts to, if it is a
/// reaction.
pub fn target_of(data: &DataMessage) -> (r: Option<u64>)
    ensures
        r == reaction_target(data@),
{
    if let Some(quote) = &data.quote {
        if quote.text.is_some() && data.body.is_some() {
            return None;
        }
    }
    match &data.reaction {
        Some(reaction) => if reaction.emoji.is_some() {
            reaction.target_sent_timestamp
        } else {
            None
        },
        None => None,
    }
}

/// Classifies one item of the conversation `thread`. `lookups` holds what
/// the store answered to the lookups of `lookup_plan`.
pub fn classify(content: &ProtocolContent, thread: &Thread, lookups: &Lookups) -> (r: Option<
    ClassifiedEvent,
>)
    ensures
        event_view(r) == classified(content@, *thread, lookups@),
{
    let found: Option<(Direction, String)> = match &content.body {
        ContentBody::NullMessage => Some(
            (Direction::Received, String::from_str("Null message (for example deleted)")),
        ),
        ContentBody::CallMessage => Some((Direction::Received, String::from_str("is calling!"))),
        ContentBody::TypingMessage => Some(
            (Direction::Received, String::from_str("is typing...")),
        ),
        ContentBody::DataMessage(data) => match summarize(data, &lookups.message) {
            Some(text) => Some((Direction::Received, text)),
            None => None,
        },
        ContentBody::SynchronizeMessage(sync) => match &sync.sent {
            Some(sent) => match &sent.message {
                Some(data) => match summarize(data, &lookups.message) {
                    Some(text) => Some((Direction::Sent, text)),
                    None => None,
                },
                None => None,
            },
            None => None,
        },
        ContentBody::Other => None,
    };
    match found {
        Some((direction, summary)) => {
            let prefix = format_prefix(
                direction,
                thread,
                &content.sender,
                content.timestamp,
                &lookups.contact,
                &lookups.group,
            );
            Some(
                ClassifiedEvent {
                    direction,
                    thread: *thread,
                    summary,
                    timestamp: content.timestamp,
                    prefix,
                },
            )
        },
        None => None,
    }
}

impl ClassifiedEvent {
    /// The line that shows the event on a console: the attribution, then
    /// the summary.
    pub open spec fn line(self) -> Seq<char> {
        self.prefix@ + " / "@ + self.summary@
    }

    /// Renders the event for a console.
    pub fn console_line(&self) -> (r: String)
        ensures
            r@ == self.line(),
    {
        self.prefix.clone().concat(" / ").concat(self.summary.as_str())
    }
}

/// Classification is determined by its inputs: two items with the same view,
/// in the same conversation and with the same answers of the store, give the
/// same event or both give none.
pub proof fn lemma_classification_determined(
    first: ProtocolContent,
    second: ProtocolContent,
    first_thread: Thread,
    second_thread: Thread,
    first_lookups: Lookups,
    second_lookups: Lookups,
)
    requires
        first@ == second@,
        first_thread == second_thread,
        first_lookups@ == second_lookups@,
    ensures
        classified(first@, first_thread, first_lookups@) == classified(
            second@,
            second_thread,
            second_lookups@,
        ),
{
}

/// A reaction whose target the store does not hold gives no event, and
/// neither does one whose target is there without a body.
pub proof fn lemma_reaction_without_target(
    content: ProtocolContentView,
    thread: Thread,
    lookups: LookupsView,
)
    requires
        planned(content, thread).message is Some,
        lookups.message is None || stored_body(lookups.message) is None,
    ensures
        classified(content, thread, lookups) is None,
{
}

/// Classification reads no lookup that the plan does not name: two sets of
/// answers that agree on the planned lookups give the same result.
pub proof fn lemma_plan_covers_reads(
    content: ProtocolContentView,
    thread: Thread,
    first: LookupsView,
    second: LookupsView,
)
    requires
        planned(content, thread).message is Some ==> first.message == second.message,
        planned(content, thread).contact is Some ==> first.contact == second.contact,
        planned(content, thread).group is Some ==> first.group == second.group,
    ensures
        classified(content, thread, first) == classified(content, thread, second),
{
}

} // verus!
