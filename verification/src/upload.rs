//! Decoding of `multipart/form-data` uploads into the three values that make
//! a song: its name, its tag and its audio bytes.
//!
//! The parts of a body are told apart by the `multipart` crate; what is done
//! with them is decided here.

use vstd::prelude::*;
use vstd::utf8::{decode_utf8, valid_utf8};
use multipart::server::Multipart;
use std::io::{Cursor, Read};
use crate::text::{chars_of, find_from, find_in, lemma_find_from, same_text};

verus! {

/// `std::io::Cursor`, carried through to the form reader and never looked
/// into.
#[verifier::external_type_specification]
#[verifier::external_body]
#[verifier::reject_recursive_types(T)]
pub struct ExCursor<T>(Cursor<T>);

/// `std::io::Error`, as the form reader reports it; never looked into.
#[verifier::external_type_specification]
#[verifier::external_body]
pub struct ExIoError(std::io::Error);

/// `multipart::server::Multipart`, the reader that walks the parts of a body.
#[verifier::external_type_specification]
#[verifier::external_body]
#[verifier::reject_recursive_types(R)]
pub struct ExMultipart<R>(Multipart<R>);

/// One part of a form as the reader reports it.
pub struct FormFieldView {
    pub name: Seq<char>,
    pub filename: Option<Seq<char>>,
    pub data: Seq<u8>,
}

/// One part of a form: the field's name, the file name it declares if any,
/// and its content.
#[derive(Debug)]
pub struct FormField {
    pub name: String,
    pub filename: Option<String>,
    pub data: Vec<u8>,
}

impl View for FormField {
    type V = FormFieldView;

    open spec fn view(&self) -> FormFieldView {
        FormFieldView {
            name: self.name@,
            filename: match self.filename {
                Some(f) => Some(f@),
                None => None,
            },
            data: self.data@,
        }
    }
}

/// The views of a sequence of fields, one for one.
pub open spec fn field_views(fields: Seq<FormField>) -> Seq<FormFieldView> {
    Seq::new(fields.len(), |i: int| fields[i]@)
}

/// The parts that the `multipart` reader finds in `body` under `boundary`, in
/// order, where it reaches the form's end; nothing where it meets a fault
/// first, be it a body that breaks off or a part that is malformed.
pub uninterp spec fn multipart_form(body: Seq<u8>, boundary: Seq<char>) -> Option<
    Seq<FormFieldView>,
>;

/// The parts that a reader has yet to hand out before it reaches the form's
/// end or a fault. A part is handed out with its content read to the end.
pub uninterp spec fn pending_fields(reader: Multipart<Cursor<Vec<u8>>>) -> Seq<FormFieldView>;

/// Whether a reader meets a fault, not the form's end, once its pending
/// parts are handed out.
pub uninterp spec fn pending_fault(reader: Multipart<Cursor<Vec<u8>>>) -> bool;

/// `Multipart::with_body` over a cursor on `body`: a reader that has read
/// nothing yet, so that all the parts of the body are still to come.
#[verifier::external_body]
fn open_form(body: Vec<u8>, boundary: &str) -> (reader: Multipart<Cursor<Vec<u8>>>)
    ensures
        multipart_form(body@, boundary@) == if pending_fault(reader) {
            None
        } else {
            Some(pending_fields(reader))
        },
{
    Multipart::with_body(Cursor::new(body), boundary)
}

/// `Multipart::read_entry`, followed by reading the entry's content to its
/// end: the next pending part, or the form's end, or the fault, whichever the
/// reader has reached.
#[verifier::external_body]
fn next_field(reader: &mut Multipart<Cursor<Vec<u8>>>) -> (res: Result<
    Option<FormField>,
    std::io::Error,
>)
    ensures
        match res {
            Ok(Some(field)) => {
                &&& pending_fields(*old(reader)).len() > 0
                &&& field@ == pending_fields(*old(reader))[0]
                &&& pending_fields(*final(reader)) == pending_fields(*old(reader)).skip(1)
                &&& pending_fault(*final(reader)) == pending_fault(*old(reader))
            },
            Ok(None) => pending_fields(*old(reader)).len() == 0 && !pending_fault(*old(reader)),
            Err(_) => pending_fields(*old(reader)).len() == 0 && pending_fault(*old(reader)),
        },
{
    match reader.read_entry()? {
        None => Ok(None),
        Some(mut entry) => {
            let mut data = Vec::new();
            entry.data.read_to_end(&mut data)?;
            Ok(Some(FormField { name: entry.headers.name.to_string(), filename: entry.headers.filename, data }))
        },
    }
}

/// Why an upload could not be decoded.
#[derive(Debug, PartialEq, Eq, Structural)]
pub enum ParseError {
    /// The content type names no boundary, or the body does not decode into
    /// well-formed parts.
    MalformedBody,
}

/// Every part of the form in `body`, in order, or the error if the body
/// breaks off or is malformed anywhere.
pub fn read_fields(body: Vec<u8>, boundary: &str) -> (res: Result<Vec<FormField>, ParseError>)
    ensures
        match res {
            Ok(fields) => multipart_form(body@, boundary@) == Some(field_views(fields@)),
            Err(_) => multipart_form(body@, boundary@) is None,
        },
{
    let ghost form = multipart_form(body@, boundary@);
    let mut reader = open_form(body, boundary);
    let mut fields: Vec<FormField> = Vec::new();
    loop
        invariant
            form == multipart_form(body@, boundary@),
            form == if pending_fault(reader) {
                None
            } else {
                Some(field_views(fields@) + pending_fields(reader))
            },
        decreases pending_fields(reader).len(),
    {
        let ghost before = pending_fields(reader);
        let ghost so_far = field_views(fields@);
        match next_field(&mut reader) {
            Err(_) => {
                return Err(ParseError::MalformedBody);
            },
            Ok(None) => {
                assert(so_far + before =~= so_far);
                return Ok(fields);
            },
            Ok(Some(field)) => {
                fields.push(field);
                assert(field_views(fields@) + before.skip(1) =~= so_far + before);
            },
        }
    }
}

/// `String::from_utf8`: the text that `bytes` encode, where they are valid
/// UTF-8, and nothing where they are not.
#[verifier::external_body]
fn decode_text(bytes: Vec<u8>) -> (text: Option<String>)
    ensures
        text is Some <==> valid_utf8(bytes@),
        text is Some ==> text->0@ == decode_utf8(bytes@),
{
    String::from_utf8(bytes).ok()
}

/// The boundary that a content type declares: what stands between the first
/// `boundary=` and the next one, or the end of the text.
pub open spec fn boundary_of(content_type: Seq<char>) -> Option<Seq<char>> {
    let marker = "boundary="@;
    match find_from(content_type, marker, 0) {
        None => None,
        Some(at) => {
            let start = at + marker.len();
            match find_from(content_type, marker, start) {
                Some(end) => Some(content_type.subrange(start, end)),
                None => Some(content_type.subrange(start, content_type.len() as int)),
            }
        },
    }
}

/// The boundary that `content_type` declares, if it declares one.
pub fn extract_boundary(content_type: &str) -> (boundary: Option<String>)
    ensures
        match boundary {
            Some(b) => boundary_of(content_type@) == Some(b@),
            None => boundary_of(content_type@) is None,
        },
{
    let hay = chars_of(content_type);
    let marker = chars_of("boundary=");
    let size = hay.len();
    match find_in(&hay, &marker, 0) {
        None => None,
        Some(at) => {
            proof {
                lemma_find_from(hay@, marker@, 0);
            }
            let start = at + marker.len();
            proof {
                lemma_find_from(hay@, marker@, start as int);
            }
            let end = match find_in(&hay, &marker, start) {
                Some(next) => next,
                None => size,
            };
            Some(String::from_str(content_type.substring_char(start, end)))
        },
    }
}

/// The three values that an upload carries.
pub struct UploadFormView {
    pub name: Seq<char>,
    pub tag_key: Seq<char>,
    pub file: Seq<u8>,
}

/// The three values that an upload carries: the song's name, the key of its
/// tag and its audio bytes. A value that the form did not carry is empty.
#[derive(Debug)]
pub struct UploadForm {
    pub name: String,
    pub tag_key: String,
    pub file: Vec<u8>,
}

impl View for UploadForm {
    type V = UploadFormView;

    open spec fn view(&self) -> UploadFormView {
        UploadFormView { name: self.name@, tag_key: self.tag_key@, file: self.file@ }
    }
}

/// Whether a field carries text that the upload reads.
pub open spec fn is_text_field(field: FormFieldView) -> bool {
    field.name == "name"@ || field.name == "tag"@
}

/// Whether a field carries the upload's audio: it is called `file` and
/// declares a file name.
pub open spec fn is_file_field(field: FormFieldView) -> bool {
    field.name == "file"@ && field.filename is Some
}

/// Whether every text field of the form holds valid UTF-8.
pub open spec fn texts_valid(fields: Seq<FormFieldView>) -> bool {
    forall|i: int|
        0 <= i < fields.len() && is_text_field(#[trigger] fields[i]) ==> valid_utf8(fields[i].data)
}

/// The text of the fields called `which`, one after the other.
pub open spec fn text_of(fields: Seq<FormFieldView>, which: Seq<char>) -> Seq<char>
    decreases fields.len(),
{
    if fields.len() == 0 {
        Seq::<char>::empty()
    } else if fields.last().name == which {
        text_of(fields.drop_last(), which) + decode_utf8(fields.last().data)
    } else {
        text_of(fields.drop_last(), which)
    }
}

/// The content of the file fields, one after the other.
pub open spec fn file_of(fields: Seq<FormFieldView>) -> Seq<u8>
    decreases fields.len(),
{
    if fields.len() == 0 {
        Seq::<u8>::empty()
    } else if is_file_field(fields.last()) {
        file_of(fields.drop_last()) + fields.last().data
    } else {
        file_of(fields.drop_last())
    }
}

/// What a form's fields amount to: the upload's three values, or the error
/// if a text field is not valid UTF-8. Fields under other names, and a
/// `file` field without a file name, count for nothing.
pub open spec fn extracted(fields: Seq<FormFieldView>) -> Result<UploadFormView, ParseError> {
    if texts_valid(fields) {
        Ok(
            UploadFormView {
                name: text_of(fields, "name"@),
                tag_key: text_of(fields, "tag"@),
                file: file_of(fields),
            },
        )
    } else {
        Err(ParseError::MalformedBody)
    }
}

/// The upload's values out of a form's fields.
pub fn extract_upload(fields: Vec<FormField>) -> (res: Result<UploadForm, ParseError>)
    ensures
        match res {
            Ok(form) => extracted(field_views(fields@)) == Ok::<UploadFormView, ParseError>(form@),
            Err(e) => extracted(field_views(fields@)) == Err::<UploadFormView, ParseError>(e),
        },
{
    let ghost all = field_views(fields@);
    let mut name = String::new();
    let mut tag_key = String::new();
    let mut file: Vec<u8> = Vec::new();
    let mut i: usize = 0;
    while i < fields.len()
        invariant
            0 <= i <= fields@.len(),
            all == field_views(fields@),
            texts_valid(all.take(i as int)),
            name@ == text_of(all.take(i as int), "name"@),
            tag_key@ == text_of(all.take(i as int), "tag"@),
            file@ == file_of(all.take(i as int)),
        decreases fields@.len() - i,
    {
        let field = &fields[i];
        proof {
            assert(all.take(i + 1).drop_last() =~= all.take(i as int));
            assert(all.take(i + 1).last() == field@);
            reveal_strlit("name");
            reveal_strlit("tag");
            reveal_strlit("file");
        }
        let is_name = same_text(field.name.as_str(), "name");
        let is_tag = same_text(field.name.as_str(), "tag");
        assert("name"@.len() == 4 && "tag"@.len() == 3 && "file"@.len() == 4);
        assert("name"@[0] == 'n' && "file"@[0] == 'f');
        if is_name || is_tag {
            match decode_text(field.data.clone()) {
                None => {
                    assert(is_text_field(all[i as int]));
                    assert(!texts_valid(all));
                    return Err(ParseError::MalformedBody);
                },
                Some(text) => {
                    if is_name {
                        name.append(text.as_str());
                    } else {
                        tag_key.append(text.as_str());
                    }
                },
            }
        } else if same_text(field.name.as_str(), "file") && field.filename.is_some() {
            file.extend_from_slice(field.data.as_slice());
        }
        assert(texts_valid(all.take(i + 1))) by {
            assert forall|j: int|
                0 <= j < all.take(i + 1).len() && is_text_field(
                    #[trigger] all.take(i + 1)[j],
                ) implies valid_utf8(all.take(i + 1)[j].data) by {
                if j < i {
                    assert(all.take(i as int)[j] == all.take(i + 1)[j]);
                }
            }
        }
        i += 1;
    }
    assert(all.take(i as int) =~= all);
    Ok(UploadForm { name, tag_key, file })
}

/// What the form in `body` under `boundary` amounts to.
pub open spec fn parsed(body: Seq<u8>, boundary: Seq<char>) -> Result<UploadFormView, ParseError> {
    match multipart_form(body, boundary) {
        None => Err(ParseError::MalformedBody),
        Some(fields) => extracted(fields),
    }
}

/// Decodes the form in `body`, whose parts `boundary` separates, into the
/// upload's three values.
pub fn parse_form(body: Vec<u8>, boundary: &str) -> (res: Result<UploadForm, ParseError>)
    ensures
        match res {
            Ok(form) => parsed(body@, boundary@) == Ok::<UploadFormView, ParseError>(form@),
            Err(e) => parsed(body@, boundary@) == Err::<UploadFormView, ParseError>(e),
        },
{
    match read_fields(body, boundary) {
        Err(e) => Err(e),
        Ok(fields) => extract_upload(fields),
    }
}

/// What an upload with the content type `content_type` and the body `body`
/// amounts to: an error where no boundary is declared, else what the form
/// under that boundary amounts to.
pub open spec fn parsed_upload(content_type: Seq<char>, body: Seq<u8>) -> Result<
    UploadFormView,
    ParseError,
> {
    match boundary_of(content_type) {
        None => Err(ParseError::MalformedBody),
        Some(boundary) => parsed(body, boundary),
    }
}

/// Decodes an upload from its content type and its body.
pub fn parse_upload(content_type: &str, body: Vec<u8>) -> (res: Result<UploadForm, ParseError>)
    ensures
        match res {
            Ok(form) => parsed_upload(content_type@, body@) == Ok::<UploadFormView, ParseError>(
                form@,
            ),
            Err(e) => parsed_upload(content_type@, body@) == Err::<UploadFormView, ParseError>(e),
        },
{
    match extract_boundary(content_type) {
        None => Err(ParseError::MalformedBody),
        Some(boundary) => parse_form(body, boundary.as_str()),
    }
}

} // verus!
