//! Attachments: which ones an item asks to fetch, and the name of the file
//! that each is saved under.

use crate::account::AccountId;
use crate::content::{
    copy_text, text_view, AttachmentPointer, AttachmentPointerView, ContentBody, ContentBodyView,
    ProtocolContent, ProtocolContentView,
};
use vstd::prelude::*;
use vstd::string::*;

verus! {

/// What `mime_guess::get_mime_extensions_str` holds for a MIME type: the
/// file extensions known for it, in the order of its table, or nothing where
/// the type is unknown.
pub uninterp spec fn mime_extensions(mime: Seq<char>) -> Option<Seq<Seq<char>>>;

/// The texts of a list of string slices.
pub open spec fn texts(list: Seq<&'static str>) -> Seq<Seq<char>> {
    Seq::new(list.len(), |i: int| list[i]@)
}

/// The texts of an optional list of string slices.
pub open spec fn known_view(known: Option<&'static [&'static str]>) -> Option<Seq<Seq<char>>> {
    match known {
        Some(list) => Some(texts(list@)),
        None => None,
    }
}

/// Calls `mime_guess::get_mime_extensions_str`. Trusted: the result is the
/// slice of the crate's static table that belongs to the type, which depends
/// on the text alone. The function's documentation warns of a panic on a
/// malformed type; its source returns `None` for a text without a `/` and
/// has no panicking path.
#[verifier::external_body]
fn known_extensions(mime: &str) -> (r: Option<&'static [&'static str]>)
    ensures
        known_view(r) == mime_extensions(mime@),
{
    mime_guess::get_mime_extensions_str(mime)
}

/// Calls `chrono::Local::now` and formats the local time as year, month,
/// day, hour and minute followed by the seconds since the epoch, separated
/// by hyphens. Nothing is claimed of the result: it depends on the clock and
/// on the time zone of the machine.
#[verifier::external_body]
fn local_time_stamp() -> String {
    chrono::Local::now().format("%Y-%m-%d-%H-%M-%s").to_string()
}

/// The extension chosen from what is known for a type: the first known
/// one, and `bin` where none is known.
pub open spec fn extension_of(known: Option<Seq<Seq<char>>>) -> Seq<char> {
    match known {
        Some(list) => if list.len() > 0 {
            list[0]
        } else {
            "bin"@
        },
        None => "bin"@,
    }
}

/// The extension for an attachment of the given content type: `bin` for an
/// absent type, else what is chosen from the extensions known for it.
pub open spec fn derived_extension(content_type: Option<Seq<char>>) -> Seq<char> {
    match content_type {
        Some(mime) => extension_of(mime_extensions(mime)),
        None => "bin"@,
    }
}

/// The name of the file that an attachment is saved under.
pub open spec fn file_name(name: Seq<char>, extension: Seq<char>) -> Seq<char> {
    "presage-"@ + name + "."@ + extension
}

/// The name that the protocol supplied, or `fallback` where it supplied none.
pub open spec fn chosen_name(supplied: Option<Seq<char>>, fallback: Seq<char>) -> Seq<char> {
    match supplied {
        Some(name) => name,
        None => fallback,
    }
}

/// Chooses the extension from the extensions known for a type.
pub fn extension_from(known: Option<&'static [&'static str]>) -> (r: String)
    ensures
        r@ == extension_of(known_view(known)),
{
    match known {
        Some(list) => {
            if list.len() > 0 {
                String::from_str(list[0])
            } else {
                String::from_str("bin")
            }
        },
        None => String::from_str("bin"),
    }
}

/// Derives the extension of an attachment from its content type.
pub fn derive_extension(content_type: &Option<String>) -> (r: String)
    ensures
        r@ == derived_extension(text_view(*content_type)),
{
    match content_type {
        Some(mime) => extension_from(known_extensions(mime.as_str())),
        None => String::from_str("bin"),
    }
}

/// Joins a name and an extension into the name of the saved file.
pub fn saved_file_name(name: &str, extension: &str) -> (r: String)
    ensures
        r@ == file_name(name@, extension@),
{
    String::from_str("presage-").concat(name).concat(".").concat(extension)
}

/// Names the file for an attachment, with `fallback` standing in for a
/// name that the protocol did not supply.
pub fn file_name_with(pointer: &AttachmentPointer, fallback: &str) -> (r: String)
    ensures
        r@ == file_name(
            chosen_name(pointer@.file_name, fallback@),
            derived_extension(pointer@.content_type),
        ),
{
    let extension = derive_extension(&pointer.content_type);
    match &pointer.file_name {
        Some(name) => saved_file_name(name.as_str(), extension.as_str()),
        None => saved_file_name(fallback, extension.as_str()),
    }
}

/// Names the file for an attachment. Where the protocol supplied no name,
/// the local time of the call stands in for it.
pub fn name_attachment(pointer: &AttachmentPointer) -> (r: String)
    ensures
        exists|fallback: Seq<char>|
            r@ == file_name(
                chosen_name(pointer@.file_name, fallback),
                derived_extension(pointer@.content_type),
            ),
        pointer@.file_name matches Some(name) ==> r@ == file_name(
            name,
            derived_extension(pointer@.content_type),
        ),
{
    match &pointer.file_name {
        Some(name) => {
            let r = file_name_with(pointer, name.as_str());
            assert(r@ == file_name(
                chosen_name(pointer@.file_name, name@),
                derived_extension(pointer@.content_type),
            ));
            r
        },
        None => {
            let stamp = local_time_stamp();
            let r = file_name_with(pointer, stamp.as_str());
            assert(r@ == file_name(
                chosen_name(pointer@.file_name, stamp@),
                derived_extension(pointer@.content_type),
            ));
            r
        },
    }
}

/// An attachment to fetch and save, with who sent it.
#[derive(Clone, PartialEq, Eq, Debug)]
pub struct AttachmentJob {
    pub pointer: AttachmentPointer,
    pub sender: AccountId,
}

pub struct AttachmentJobView {
    pub pointer: AttachmentPointerView,
    pub sender: AccountId,
}

impl View for AttachmentJob {
    type V = AttachmentJobView;

    open spec fn view(&self) -> AttachmentJobView {
        AttachmentJobView { pointer: self.pointer@, sender: self.sender }
    }
}

/// The views of a list of jobs.
pub open spec fn jobs_view(jobs: Seq<AttachmentJob>) -> Seq<AttachmentJobView> {
    Seq::new(jobs.len(), |i: int| jobs[i]@)
}

/// The attachments that an item asks to fetch: those of an incoming data
/// message, in their order, each with the item's sender. Other items have
/// none.
pub open spec fn attachments_of(content: ProtocolContentView) -> Seq<AttachmentJobView> {
    match content.body {
        ContentBodyView::DataMessage(data) => Seq::new(
            data.attachments.len(),
            |i: int| AttachmentJobView { pointer: data.attachments[i], sender: content.sender },
        ),
        _ => Seq::empty(),
    }
}

/// Lists the attachments that an item asks to fetch.
pub fn attachment_jobs(content: &ProtocolContent) -> (r: Vec<AttachmentJob>)
    ensures
        jobs_view(r@) == attachments_of(content@),
{
    let mut jobs: Vec<AttachmentJob> = Vec::new();
    if let ContentBody::DataMessage(data) = &content.body {
        let mut i: usize = 0;
        while i < data.attachments.len()
            invariant
                i <= data.attachments.len(),
                jobs.len() == i,
                forall|k: int|
                    0 <= k < i ==> (#[trigger] jobs[k])@ == (AttachmentJobView {
                        pointer: data.attachments[k]@,
                        sender: content.sender,
                    }),
            decreases data.attachments.len() - i,
        {
            let pointer = &data.attachments[i];
            jobs.push(
                AttachmentJob {
                    pointer: AttachmentPointer {
                        content_type: copy_text(&pointer.content_type),
                        file_name: copy_text(&pointer.file_name),
                    },
                    sender: content.sender,
                },
            );
            i += 1;
        }
        assert(jobs_view(jobs@) =~= attachments_of(content@));
    } else {
        assert(jobs_view(jobs@) =~= attachments_of(content@));
    }
    jobs
}

/// An attachment without a content type, or with one that the table does
/// not know, is saved with the extension `bin`.
pub proof fn lemma_unknown_type_is_bin(content_type: Option<Seq<char>>)
    requires
        content_type matches Some(mime) ==> mime_extensions(mime) is None,
    ensures
        derived_extension(content_type) == "bin"@,
{
}

} // verus!
