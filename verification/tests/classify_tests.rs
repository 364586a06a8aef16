use signal_relayer::account::AccountId;
use signal_relayer::classify::{
    classify, format_contact, format_group, format_prefix, lookup_plan, summarize, target_of,
    ClassifiedEvent, Direction, LookupPlan, Lookups,
};
use signal_relayer::content::{
    Contact, ContentBody, DataMessage, Group, ProtocolContent, Quote, Reaction, Sent, SyncMessage,
    Thread,
};
use signal_relayer::receive::{notice, process_incoming_message};

const ALICE: u128 = 0x11111111_1111_1111_1111_111111111111;
const ALICE_TEXT: &str = "11111111-1111-1111-1111-111111111111";
const BOB: u128 = 0xa1a2a3a4_b1b2_c1c2_d1d2_d3d4d5d6d7d8;
const BOB_TEXT: &str = "a1a2a3a4-b1b2-c1c2-d1d2-d3d4d5d6d7d8";

fn alice() -> AccountId {
    AccountId { value: ALICE }
}

fn bob() -> AccountId {
    AccountId { value: BOB }
}

fn plain(body: Option<&str>) -> DataMessage {
    DataMessage {
        body: body.map(|b| b.to_string()),
        quote: None,
        reaction: None,
        attachments: Vec::new(),
    }
}

fn reaction(emoji: Option<&str>, target: Option<u64>, body: Option<&str>) -> DataMessage {
    DataMessage {
        body: body.map(|b| b.to_string()),
        quote: None,
        reaction: Some(Reaction {
            emoji: emoji.map(|e| e.to_string()),
            target_sent_timestamp: target,
        }),
        attachments: Vec::new(),
    }
}

fn item(sender: AccountId, timestamp: u64, body: ContentBody) -> ProtocolContent {
    ProtocolContent { sender, timestamp, body }
}

fn no_lookups() -> Lookups {
    Lookups { message: None, contact: None, group: None }
}

fn named(name: &str) -> Option<Contact> {
    Some(Contact { name: name.to_string() })
}

fn sync_of(data: Option<DataMessage>) -> ContentBody {
    ContentBody::SynchronizeMessage(SyncMessage { sent: Some(Sent { message: data }) })
}

#[test]
fn plain_body_from_known_contact() {
    let content = item(alice(), 1234, ContentBody::DataMessage(plain(Some("hi"))));
    let thread = Thread::Contact(alice());
    let lookups = Lookups { message: None, contact: named("Alice"), group: None };
    let event = classify(&content, &thread, &lookups).unwrap();
    assert_eq!(event.direction, Direction::Received);
    assert_eq!(event.summary, "hi");
    assert_eq!(event.thread, thread);
    assert_eq!(event.timestamp, 1234);
    assert_eq!(event.prefix, format!("From Alice: {} @ 1234: ", ALICE_TEXT));
    assert_eq!(
        event.console_line(),
        "From Alice: 11111111-1111-1111-1111-111111111111 @ 1234:  / hi"
    );
}

#[test]
fn reaction_to_stored_message() {
    let content =
        item(alice(), 2000, ContentBody::DataMessage(reaction(Some("👍"), Some(1000), None)));
    let thread = Thread::Contact(alice());
    let stored = item(bob(), 1000, ContentBody::DataMessage(plain(Some("ok"))));
    let lookups = Lookups { message: Some(stored), contact: None, group: None };
    let event = classify(&content, &thread, &lookups).unwrap();
    assert_eq!(event.summary, "Reacted with 👍 to message: \"ok\"");
    assert_eq!(event.direction, Direction::Received);
    assert_eq!(event.prefix, format!("From {} @ 2000: ", ALICE_TEXT));
}

#[test]
fn reaction_without_target_gives_no_event() {
    let content =
        item(alice(), 2000, ContentBody::DataMessage(reaction(Some("👍"), Some(1000), None)));
    let thread = Thread::Contact(alice());
    assert_eq!(classify(&content, &thread, &no_lookups()), None);
    let with_body =
        item(alice(), 2000, ContentBody::DataMessage(reaction(Some("👍"), Some(1000), Some("x"))));
    assert_eq!(classify(&with_body, &thread, &no_lookups()), None);
}

#[test]
fn reaction_to_message_without_body_gives_no_event() {
    let content =
        item(alice(), 2000, ContentBody::DataMessage(reaction(Some("👍"), Some(1000), None)));
    let thread = Thread::Contact(alice());
    let empty = item(bob(), 1000, ContentBody::DataMessage(plain(None)));
    let lookups = Lookups { message: Some(empty), contact: None, group: None };
    assert_eq!(classify(&content, &thread, &lookups), None);
    let typing = item(bob(), 1000, ContentBody::TypingMessage);
    let lookups = Lookups { message: Some(typing), contact: None, group: None };
    assert_eq!(classify(&content, &thread, &lookups), None);
}

#[test]
fn reaction_without_emoji_falls_back_to_body() {
    let stored = Some(item(bob(), 1000, ContentBody::DataMessage(plain(Some("ok")))));
    let with_body = reaction(None, Some(1000), Some("text"));
    assert_eq!(summarize(&with_body, &stored), Some("text".to_string()));
    assert_eq!(target_of(&with_body), None);
    let without_body = reaction(None, Some(1000), None);
    assert_eq!(summarize(&without_body, &stored), Some("Empty data message".to_string()));
    let without_target = reaction(Some("👍"), None, Some("text"));
    assert_eq!(summarize(&without_target, &stored), Some("text".to_string()));
    assert_eq!(target_of(&without_target), None);
}

#[test]
fn reply_comes_before_reaction() {
    let mut data = reaction(Some("👍"), Some(1000), Some("yes"));
    data.quote = Some(Quote { text: Some("are you there?".to_string()) });
    assert_eq!(
        summarize(&data, &None),
        Some("Answer to message \"are you there?\": yes".to_string())
    );
    assert_eq!(target_of(&data), None);
}

#[test]
fn quote_without_text_or_body_is_no_reply() {
    let mut data = plain(Some("yes"));
    data.quote = Some(Quote { text: None });
    assert_eq!(summarize(&data, &None), Some("yes".to_string()));
    let mut data = plain(None);
    data.quote = Some(Quote { text: Some("q".to_string()) });
    assert_eq!(summarize(&data, &None), Some("Empty data message".to_string()));
    let mut data = reaction(Some("🎉"), Some(7), None);
    data.quote = Some(Quote { text: Some("q".to_string()) });
    assert_eq!(target_of(&data), Some(7));
    let stored = Some(item(bob(), 7, ContentBody::DataMessage(plain(Some("done")))));
    assert_eq!(
        summarize(&data, &stored),
        Some("Reacted with 🎉 to message: \"done\"".to_string())
    );
}

#[test]
fn empty_data_message() {
    let content = item(alice(), 5, ContentBody::DataMessage(plain(None)));
    let event = classify(&content, &Thread::Contact(alice()), &no_lookups()).unwrap();
    assert_eq!(event.summary, "Empty data message");
    assert_eq!(event.direction, Direction::Received);
}

#[test]
fn null_call_and_typing_messages() {
    let thread = Thread::Contact(alice());
    let null = classify(&item(alice(), 1, ContentBody::NullMessage), &thread, &no_lookups());
    assert_eq!(null.unwrap().summary, "Null message (for example deleted)");
    let call = classify(&item(alice(), 1, ContentBody::CallMessage), &thread, &no_lookups());
    let call = call.unwrap();
    assert_eq!(call.summary, "is calling!");
    assert_eq!(call.direction, Direction::Received);
    let typing = classify(&item(alice(), 1, ContentBody::TypingMessage), &thread, &no_lookups());
    assert_eq!(typing.unwrap().summary, "is typing...");
}

#[test]
fn other_content_is_dropped() {
    let thread = Thread::Contact(alice());
    assert_eq!(classify(&item(alice(), 1, ContentBody::Other), &thread, &no_lookups()), None);
    let no_sent = ContentBody::SynchronizeMessage(SyncMessage { sent: None });
    assert_eq!(classify(&item(alice(), 1, no_sent), &thread, &no_lookups()), None);
    assert_eq!(classify(&item(alice(), 1, sync_of(None)), &thread, &no_lookups()), None);
}

#[test]
fn sent_message_to_contact() {
    let content = item(alice(), 77, sync_of(Some(plain(Some("on my way")))));
    let thread = Thread::Contact(bob());
    let lookups = Lookups { message: None, contact: named("Bob"), group: None };
    let event = classify(&content, &thread, &lookups).unwrap();
    assert_eq!(event.direction, Direction::Sent);
    assert_eq!(event.summary, "on my way");
    assert_eq!(event.prefix, format!("To Bob: {} @ 77", BOB_TEXT));
    assert_eq!(event.console_line(), format!("To Bob: {} @ 77 / on my way", BOB_TEXT));
}

#[test]
fn received_group_message_names_sender_and_group() {
    let key = [7u8; 32];
    let content = item(alice(), 900, ContentBody::DataMessage(plain(Some("hello all"))));
    let thread = Thread::Group(key);
    let lookups = Lookups {
        message: None,
        contact: named("Alice"),
        group: Some(Group { title: "Family".to_string() }),
    };
    let event = classify(&content, &thread, &lookups).unwrap();
    assert_eq!(event.prefix, format!("From Alice: {} to group Family @ 900: ", ALICE_TEXT));
    assert_eq!(event.thread, Thread::Group(key));
}

#[test]
fn sent_group_message_names_group_only() {
    let content = item(alice(), 901, sync_of(Some(plain(Some("bye")))));
    let thread = Thread::Group([1u8; 32]);
    let lookups = Lookups {
        message: None,
        contact: named("Alice"),
        group: Some(Group { title: "Family".to_string() }),
    };
    let event = classify(&content, &thread, &lookups).unwrap();
    assert_eq!(event.prefix, "To group Family @ 901");
    assert_eq!(event.direction, Direction::Sent);
}

#[test]
fn missing_group_and_unnamed_contact() {
    let content = item(bob(), 0, ContentBody::DataMessage(plain(Some("x"))));
    let thread = Thread::Group([0u8; 32]);
    let lookups = Lookups { message: None, contact: named(""), group: None };
    let event = classify(&content, &thread, &lookups).unwrap();
    assert_eq!(event.prefix, format!("From {} to group <missing group> @ 0: ", BOB_TEXT));
    assert_eq!(format_group(&None), "<missing group>");
    assert_eq!(format_contact(&bob(), &named("")), BOB_TEXT);
    assert_eq!(format_contact(&bob(), &None), BOB_TEXT);
    assert_eq!(format_contact(&bob(), &named("Bob")), format!("Bob: {}", BOB_TEXT));
}

#[test]
fn prefix_renders_large_timestamps() {
    let prefix = format_prefix(
        Direction::Sent,
        &Thread::Contact(alice()),
        &bob(),
        u64::MAX,
        &None,
        &None,
    );
    assert_eq!(prefix, format!("To {} @ 18446744073709551615", ALICE_TEXT));
}

#[test]
fn classification_is_deterministic() {
    let content =
        item(alice(), 2000, ContentBody::DataMessage(reaction(Some("👍"), Some(1000), None)));
    let thread = Thread::Contact(alice());
    let stored = item(bob(), 1000, ContentBody::DataMessage(plain(Some("ok"))));
    let lookups = Lookups { message: Some(stored), contact: named("Alice"), group: None };
    let first = classify(&content, &thread, &lookups);
    let second = classify(&content.clone(), &thread.clone(), &lookups.clone());
    assert!(first.is_some());
    assert_eq!(first, second);
    let none_first = classify(&content, &thread, &no_lookups());
    let none_second = classify(&content, &thread, &no_lookups());
    assert_eq!(none_first, None);
    assert_eq!(none_first, none_second);
}

#[test]
fn plan_names_the_lookups() {
    let thread = Thread::Contact(bob());
    let react =
        item(alice(), 2000, ContentBody::DataMessage(reaction(Some("👍"), Some(1000), None)));
    assert_eq!(
        lookup_plan(&react, &thread),
        LookupPlan { message: Some(1000), contact: Some(bob()), group: None }
    );
    let key = [9u8; 32];
    let group = Thread::Group(key);
    let received = item(alice(), 1, ContentBody::DataMessage(plain(Some("x"))));
    assert_eq!(
        lookup_plan(&received, &group),
        LookupPlan { message: None, contact: Some(alice()), group: Some(key) }
    );
    let sent = item(alice(), 1, sync_of(Some(reaction(Some("👍"), Some(5), None))));
    assert_eq!(
        lookup_plan(&sent, &group),
        LookupPlan { message: Some(5), contact: None, group: Some(key) }
    );
    let other = item(alice(), 1, ContentBody::Other);
    assert_eq!(
        lookup_plan(&other, &group),
        LookupPlan { message: None, contact: None, group: None }
    );
    let typing = item(alice(), 1, ContentBody::TypingMessage);
    assert_eq!(
        lookup_plan(&typing, &thread),
        LookupPlan { message: None, contact: Some(bob()), group: None }
    );
}

#[test]
fn unplanned_lookups_are_not_read() {
    let content = item(alice(), 3, sync_of(Some(plain(Some("x")))));
    let thread = Thread::Group([2u8; 32]);
    let group = Some(Group { title: "G".to_string() });
    let bare = Lookups { message: None, contact: None, group: group.clone() };
    let full = Lookups {
        message: Some(item(bob(), 1, ContentBody::NullMessage)),
        contact: named("Somebody"),
        group,
    };
    assert_eq!(classify(&content, &thread, &bare), classify(&content, &thread, &full));
}

#[test]
fn item_without_thread_is_skipped() {
    let mut data = plain(Some("with file"));
    data.attachments.push(signal_relayer::content::AttachmentPointer {
        content_type: Some("image/png".to_string()),
        file_name: Some("cat".to_string()),
    });
    let content = item(alice(), 10, ContentBody::DataMessage(data));
    let skipped = process_incoming_message(&content, &None, &no_lookups());
    assert_eq!(skipped.event, None);
    assert!(skipped.attachments.is_empty());
    let handled =
        process_incoming_message(&content, &Some(Thread::Contact(alice())), &no_lookups());
    assert_eq!(handled.event.unwrap().summary, "with file");
    assert_eq!(handled.attachments.len(), 1);
    assert_eq!(handled.attachments[0].sender, alice());
}

#[test]
fn notice_shows_prefix_and_summary() {
    let event = ClassifiedEvent {
        direction: Direction::Received,
        thread: Thread::Contact(alice()),
        summary: "hi".to_string(),
        timestamp: 1,
        prefix: "From somebody @ 1: ".to_string(),
    };
    let shown = notice(&event);
    assert_eq!(shown.summary, "From somebody @ 1: ");
    assert_eq!(shown.body, "hi");
    assert_eq!(shown.icon, "presage");
}
