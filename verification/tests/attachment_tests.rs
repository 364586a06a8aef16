use signal_relayer::account::AccountId;
use signal_relayer::attachment::{
    attachment_jobs, derive_extension, extension_from, file_name_with, name_attachment,
    saved_file_name, AttachmentJob,
};
use signal_relayer::content::{
    AttachmentPointer, ContentBody, DataMessage, ProtocolContent, Sent, SyncMessage,
};

fn pointer(content_type: Option<&str>, file_name: Option<&str>) -> AttachmentPointer {
    AttachmentPointer {
        content_type: content_type.map(|t| t.to_string()),
        file_name: file_name.map(|n| n.to_string()),
    }
}

fn message_with(attachments: Vec<AttachmentPointer>) -> DataMessage {
    DataMessage { body: None, quote: None, reaction: None, attachments }
}

#[test]
fn png_has_extension_png() {
    assert_eq!(derive_extension(&Some("image/png".to_string())), "png");
}

#[test]
fn unknown_or_absent_type_has_extension_bin() {
    assert_eq!(derive_extension(&None), "bin");
    assert_eq!(derive_extension(&Some("application/x-no-such-type".to_string())), "bin");
    assert_eq!(derive_extension(&Some("nonsense".to_string())), "bin");
    assert_eq!(derive_extension(&Some("".to_string())), "bin");
    assert_eq!(derive_extension(&Some("image/".to_string())), "bin");
}

#[test]
fn known_type_has_first_extension_of_the_table() {
    assert_eq!(derive_extension(&Some("text/plain; charset=utf-8".to_string())), "asm");
    assert_eq!(derive_extension(&Some("IMAGE/PNG".to_string())), "png");
    assert_eq!(derive_extension(&Some("application/pdf".to_string())), "pdf");
}

#[test]
fn extension_is_first_known_or_bin() {
    const TWO: &[&str] = &["jpe", "jpeg"];
    const NONE_KNOWN: &[&str] = &[];
    assert_eq!(extension_from(Some(TWO)), "jpe");
    assert_eq!(extension_from(Some(NONE_KNOWN)), "bin");
    assert_eq!(extension_from(None), "bin");
}

#[test]
fn saved_file_name_has_prefix_and_extension() {
    assert_eq!(saved_file_name("cat", "png"), "presage-cat.png");
    assert_eq!(saved_file_name("", "bin"), "presage-.bin");
    assert_eq!(saved_file_name("a.b", "tar"), "presage-a.b.tar");
}

#[test]
fn supplied_name_is_kept() {
    let p = pointer(Some("image/png"), Some("holiday"));
    assert_eq!(file_name_with(&p, "2023-01-01-00-00-1672531200"), "presage-holiday.png");
    assert_eq!(name_attachment(&p), "presage-holiday.png");
    let p = pointer(None, Some("notes"));
    assert_eq!(name_attachment(&p), "presage-notes.bin");
}

#[test]
fn missing_name_falls_back() {
    let p = pointer(Some("image/png"), None);
    assert_eq!(
        file_name_with(&p, "2023-01-01-00-00-1672531200"),
        "presage-2023-01-01-00-00-1672531200.png"
    );
}

#[test]
fn missing_name_falls_back_to_local_time() {
    let p = pointer(Some("application/x-no-such-type"), None);
    let name = name_attachment(&p);
    assert!(name.starts_with("presage-"));
    assert!(name.ends_with(".bin"));
    let stamp = &name["presage-".len()..name.len() - ".bin".len()];
    let parts: Vec<&str> = stamp.split('-').collect();
    assert_eq!(parts.len(), 6);
    for part in parts.iter() {
        assert!(!part.is_empty());
        assert!(part.chars().all(|c| c.is_ascii_digit()));
    }
    assert_eq!(parts[1].len(), 2);
    assert_eq!(parts[2].len(), 2);
    assert_eq!(parts[3].len(), 2);
    assert_eq!(parts[4].len(), 2);
}

#[test]
fn data_message_lists_its_attachments_in_order() {
    let sender = AccountId { value: 42 };
    let first = pointer(Some("image/png"), Some("a"));
    let second = pointer(None, None);
    let content = ProtocolContent {
        sender,
        timestamp: 1,
        body: ContentBody::DataMessage(message_with(vec![first.clone(), second.clone()])),
    };
    assert_eq!(
        attachment_jobs(&content),
        vec![
            AttachmentJob { pointer: first, sender },
            AttachmentJob { pointer: second, sender },
        ]
    );
}

#[test]
fn other_items_list_no_attachments() {
    let sender = AccountId { value: 42 };
    let sent = ContentBody::SynchronizeMessage(SyncMessage {
        sent: Some(Sent { message: Some(message_with(vec![pointer(None, Some("a"))])) }),
    });
    let content = ProtocolContent { sender, timestamp: 1, body: sent };
    assert!(attachment_jobs(&content).is_empty());
    let content = ProtocolContent { sender, timestamp: 1, body: ContentBody::CallMessage };
    assert!(attachment_jobs(&content).is_empty());
    let content =
        ProtocolContent { sender, timestamp: 1, body: ContentBody::DataMessage(message_with(vec![])) };
    assert!(attachment_jobs(&content).is_empty());
}
