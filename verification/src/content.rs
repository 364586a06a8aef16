//! The data model: what arrives from the protocol session, which conversation
//! it belongs to, and what the session's store can tell about it.
//!
//! Each type has a view over plain mathematical values; the contracts of the
//! crate speak of the views.

use crate::account::AccountId;
use vstd::prelude::*;

verus! {

/// The view of an optional text.
pub open spec fn text_view(text: Option<String>) -> Option<Seq<char>> {
    match text {
        Some(t) => Some(t@),
        None => None,
    }
}

/// Copies an optional text.
pub fn copy_text(text: &Option<String>) -> (r: Option<String>)
    ensures
        text_view(r) == text_view(*text),
{
    match text {
        Some(t) => Some(t.clone()),
        None => None,
    }
}

/// The conversation that an item belongs to: one contact, or a group named
/// by its key.
#[derive(Clone, Copy, PartialEq, Eq, Debug)]
pub enum Thread {
    Contact(AccountId),
    Group([u8; 32]),
}

/// The message that a reply quotes.
#[derive(Clone, PartialEq, Eq, Debug)]
pub struct Quote {
    pub text: Option<String>,
}

pub struct QuoteView {
    pub text: Option<Seq<char>>,
}

impl View for Quote {
    type V = QuoteView;

    open spec fn view(&self) -> QuoteView {
        QuoteView { text: text_view(self.text) }
    }
}

/// A reaction to an earlier message of the same conversation, which is
/// named by the time it was sent.
#[derive(Clone, PartialEq, Eq, Debug)]
pub struct Reaction {
    pub emoji: Option<String>,
    pub target_sent_timestamp: Option<u64>,
}

pub struct ReactionView {
    pub emoji: Option<Seq<char>>,
    pub target_sent_timestamp: Option<u64>,
}

impl View for Reaction {
    type V = ReactionView;

    open spec fn view(&self) -> ReactionView {
        ReactionView {
            emoji: text_view(self.emoji),
            target_sent_timestamp: self.target_sent_timestamp,
        }
    }
}

/// What a data message says of one attachment.
#[derive(Clone, PartialEq, Eq, Debug)]
pub struct AttachmentPointer {
    pub content_type: Option<String>,
    pub file_name: Option<String>,
}

pub struct AttachmentPointerView {
    pub content_type: Option<Seq<char>>,
    pub file_name: Option<Seq<char>>,
}

impl View for AttachmentPointer {
    type V = AttachmentPointerView;

    open spec fn view(&self) -> AttachmentPointerView {
        AttachmentPointerView {
            content_type: text_view(self.content_type),
            file_name: text_view(self.file_name),
        }
    }
}

/// A message with user content.
#[derive(Clone, PartialEq, Eq, Debug)]
pub struct DataMessage {
    pub body: Option<String>,
    pub quote: Option<Quote>,
    pub reaction: Option<Reaction>,
    pub attachments: Vec<AttachmentPointer>,
}

pub struct DataMessageView {
    pub body: Option<Seq<char>>,
    pub quote: Option<QuoteView>,
    pub reaction: Option<ReactionView>,
    pub attachments: Seq<AttachmentPointerView>,
}

impl View for DataMessage {
    type V = DataMessageView;

    open spec fn view(&self) -> DataMessageView {
        DataMessageView {
            body: text_view(self.body),
            quote: match self.quote {
                Some(q) => Some(q@),
                None => None,
            },
            reaction: match self.reaction {
                Some(r) => Some(r@),
                None => None,
            },
            attachments: Seq::new(self.attachments@.len(), |i: int| self.attachments@[i]@),
        }
    }
}

/// The record of a message that this account sent from another device.
#[derive(Clone, PartialEq, Eq, Debug)]
pub struct Sent {
    pub message: Option<DataMessage>,
}

/// A message that keeps the devices of one account in step.
#[derive(Clone, PartialEq, Eq, Debug)]
pub struct SyncMessage {
    pub sent: Option<Sent>,
}

/// What an incoming item carries.
#[derive(Clone, PartialEq, Eq, Debug)]
pub enum ContentBody {
    DataMessage(DataMessage),
    SynchronizeMessage(SyncMessage),
    NullMessage,
    CallMessage,
    TypingMessage,
    Other,
}

/// The view of a body. A synchronisation message is viewed by the data
/// message that it records as sent, if it records one.
pub enum ContentBodyView {
    DataMessage(DataMessageView),
    SynchronizeMessage(Option<DataMessageView>),
    NullMessage,
    CallMessage,
    TypingMessage,
    Other,
}

impl View for SyncMessage {
    type V = Option<DataMessageView>;

    open spec fn view(&self) -> Option<DataMessageView> {
        match self.sent {
            Some(sent) => match sent.message {
                Some(message) => Some(message@),
                None => None,
            },
            None => None,
        }
    }
}

impl View for ContentBody {
    type V = ContentBodyView;

    open spec fn view(&self) -> ContentBodyView {
        match *self {
            ContentBody::DataMessage(message) => ContentBodyView::DataMessage(message@),
            ContentBody::SynchronizeMessage(sync) => ContentBodyView::SynchronizeMessage(sync@),
            ContentBody::NullMessage => ContentBodyView::NullMessage,
            ContentBody::CallMessage => ContentBodyView::CallMessage,
            ContentBody::TypingMessage => ContentBodyView::TypingMessage,
            ContentBody::Other => ContentBodyView::Other,
        }
    }
}

/// One item of the session's receive stream.
#[derive(Clone, PartialEq, Eq, Debug)]
pub struct ProtocolContent {
    pub sender: AccountId,
    pub timestamp: u64,
    pub body: ContentBody,
}

pub struct ProtocolContentView {
    pub sender: AccountId,
    pub timestamp: u64,
    pub body: ContentBodyView,
}

impl View for ProtocolContent {
    type V = ProtocolContentView;

    open spec fn view(&self) -> ProtocolContentView {
        ProtocolContentView { sender: self.sender, timestamp: self.timestamp, body: self.body@ }
    }
}

/// What the store knows of a contact. The view is the contact's name.
#[derive(Clone, PartialEq, Eq, Debug)]
pub struct Contact {
    pub name: String,
}

impl View for Contact {
    type V = Seq<char>;

    open spec fn view(&self) -> Seq<char> {
        self.name@
    }
}

/// What the store knows of a group. The view is the group's title.
#[derive(Clone, PartialEq, Eq, Debug)]
pub struct Group {
    pub title: String,
}

impl View for Group {
    type V = Seq<char>;

    open spec fn view(&self) -> Seq<char> {
        self.title@
    }
}

/// The view of an optional item.
pub open spec fn content_view(content: Option<ProtocolContent>) -> Option<ProtocolContentView> {
    match content {
        Some(c) => Some(c@),
        None => None,
    }
}

/// The name of an optional contact.
pub open spec fn contact_view(contact: Option<Contact>) -> Option<Seq<char>> {
    match contact {
        Some(c) => Some(c@),
        None => None,
    }
}

/// The title of an optional group.
pub open spec fn group_view(group: Option<Group>) -> Option<Seq<char>> {
    match group {
        Some(g) => Some(g@),
        None => None,
    }
}

} // verus!
