//! Selection of the cover picture and its rendering as a data URL.

use vstd::prelude::*;
use vstd::string::*;
use crate::encoding::{
    base64_standard, base64_standard_decoded, decode_standard, encodable, encode_standard,
    encoded_len,
};
use crate::model::{AudioContainer, ExtractionError, Failure, Picture, Tag};

verus! {

/// The bytes with which a JPEG image begins.
pub open spec fn jpeg_magic() -> Seq<u8> {
    seq![0xFFu8, 0xD8u8, 0xFFu8]
}

/// The bytes with which a PNG image begins.
pub open spec fn png_magic() -> Seq<u8> {
    seq![0x89u8, 0x50u8, 0x4Eu8, 0x47u8]
}

/// `data` begins with the bytes of `magic`.
pub open spec fn begins_with(data: Seq<u8>, magic: Seq<u8>) -> bool {
    magic.len() <= data.len() && data.subrange(0, magic.len() as int) == magic
}

/// The position of the tag that is consulted: the primary tag where the
/// container designates one, else the first tag, else none.
pub open spec fn selected_index(container: AudioContainer) -> Option<int> {
    match container.primary {
        Some(i) => Some(i as int),
        None => if container.tags@.len() > 0 {
            Some(0int)
        } else {
            None
        },
    }
}

/// The picture that is consulted: the first one of the selected tag.
pub open spec fn selected_picture(container: AudioContainer) -> Option<Picture> {
    match selected_index(container) {
        Some(i) => if container.tags@[i].pictures@.len() > 0 {
            Some(container.tags@[i].pictures@[0])
        } else {
            None
        },
        None => None,
    }
}

/// The MIME type under which a picture is emitted: the declared one verbatim,
/// else the one its leading bytes show, else JPEG.
pub open spec fn mime_label(picture: Picture) -> Seq<char> {
    match picture.mime_type {
        Some(declared) => declared@,
        None => if begins_with(picture.data@, jpeg_magic()) {
            "image/jpeg"@
        } else if begins_with(picture.data@, png_magic()) {
            "image/png"@
        } else {
            "image/jpeg"@
        },
    }
}

/// What stands in a data URL before the payload.
pub open spec fn data_url_header(mime: Seq<char>) -> Seq<char> {
    "data:"@ + mime + ";base64,"@
}

/// The data URL of a picture.
pub open spec fn data_url_text(picture: Picture) -> Seq<char> {
    data_url_header(mime_label(picture)) + base64_standard(picture.data@)
}

/// The bytes that standard base64 reads back from what follows the header in
/// a data URL of MIME type `mime`, or `None` where it rejects that text.
pub open spec fn decoded_payload(url: Seq<char>, mime: Seq<char>) -> Option<Seq<u8>> {
    base64_standard_decoded(url.skip(data_url_header(mime).len() as int))
}

/// The bytes that a data URL of MIME type `mime` carries: `None` where the
/// text does not begin with the header for `mime`, or where what follows the
/// header is not standard base64.
pub open spec fn carried_bytes(url: Seq<char>, mime: Seq<char>) -> Option<Seq<u8>> {
    let header = data_url_header(mime);
    if header.len() <= url.len() && url.subrange(0, header.len() as int) == header {
        decoded_payload(url, mime)
    } else {
        None
    }
}

/// What extraction yields for the outcome of parsing a file.
pub open spec fn cover_art_outcome(parsed: Result<AudioContainer, String>) -> Result<
    Option<Seq<char>>,
    Failure,
> {
    match parsed {
        Err(cause) => Err(Failure::ReadFailed(cause@)),
        Ok(container) => match selected_index(container) {
            None => Err(Failure::NoMetadata),
            Some(_) => match selected_picture(container) {
                None => Ok(None),
                Some(picture) => Ok(Some(data_url_text(picture))),
            },
        },
    }
}

/// A result of extraction, its texts as sequences of characters.
pub open spec fn outcome_view(outcome: Result<Option<String>, ExtractionError>) -> Result<
    Option<Seq<char>>,
    Failure,
> {
    match outcome {
        Ok(Some(url)) => Ok(Some(url@)),
        Ok(None) => Ok(None),
        Err(error) => Err(error@),
    }
}

/// The machine can hold the base64 text of the picture that is consulted.
pub open spec fn cover_encodable(container: AudioContainer) -> bool {
    match selected_picture(container) {
        Some(picture) => encodable(picture.data@.len()),
        None => true,
    }
}

/// Selects the tag to consult: the primary tag, else the first tag. Fails
/// with `NoMetadata` exactly where the container holds no tag.
pub fn select_tag(container: &AudioContainer) -> (selected: Result<&Tag, ExtractionError>)
    requires
        container.wf(),
    ensures
        match selected_index(*container) {
            Some(i) => selected is Ok && *selected->Ok_0 == container.tags@[i],
            None => selected is Err && selected->Err_0 == ExtractionError::NoMetadata,
        },
{
    match container.primary {
        Some(i) => Ok(&container.tags[i]),
        None => {
            if container.tags.len() > 0 {
                Ok(&container.tags[0])
            } else {
                Err(ExtractionError::NoMetadata)
            }
        },
    }
}

/// The first picture of a tag, if the tag holds any.
pub fn first_picture(tag: &Tag) -> (first: Option<&Picture>)
    ensures
        first == (if tag.pictures@.len() > 0 {
            Some(&tag.pictures@[0])
        } else {
            None
        }),
{
    if tag.pictures.len() > 0 {
        Some(&tag.pictures[0])
    } else {
        None
    }
}

/// Whether `data` begins with the three bytes of a JPEG image.
fn is_jpeg(data: &Vec<u8>) -> (yes: bool)
    ensures
        yes == begins_with(data@, jpeg_magic()),
{
    let yes = data.len() >= 3 && data[0] == 0xFF && data[1] == 0xD8 && data[2] == 0xFF;
    proof {
        if yes {
            assert(data@.subrange(0, 3) =~= jpeg_magic());
        } else if data@.len() >= 3 {
            let head = data@.subrange(0, 3);
            assert(head[0] == data@[0] && head[1] == data@[1] && head[2] == data@[2]);
        }
    }
    yes
}

/// Whether `data` begins with the four bytes of a PNG image.
fn is_png(data: &Vec<u8>) -> (yes: bool)
    ensures
        yes == begins_with(data@, png_magic()),
{
    let yes = data.len() >= 4 && data[0] == 0x89 && data[1] == 0x50 && data[2] == 0x4E
        && data[3] == 0x47;
    proof {
        if yes {
            assert(data@.subrange(0, 4) =~= png_magic());
        } else if data@.len() >= 4 {
            let head = data@.subrange(0, 4);
            assert(head[0] == data@[0] && head[1] == data@[1] && head[2] == data@[2] && head[3]
                == data@[3]);
        }
    }
    yes
}

/// The MIME type under which a picture is emitted.
pub fn mime_type_of(picture: &Picture) -> (mime: String)
    ensures
        mime@ == mime_label(*picture),
{
    match &picture.mime_type {
        Some(declared) => declared.clone(),
        None => {
            if is_jpeg(&picture.data) {
                String::from_str("image/jpeg")
            } else if is_png(&picture.data) {
                String::from_str("image/png")
            } else {
                String::from_str("image/jpeg")
            }
        },
    }
}

/// Renders a picture as `data:<mime>;base64,<payload>`.
pub fn data_url(picture: &Picture) -> (url: String)
    requires
        encodable(picture.data@.len()),
    ensures
        url@ == data_url_text(*picture),
        url@.len() == data_url_header(mime_label(*picture)).len() + encoded_len(
            picture.data@.len(),
        ),
        carried_bytes(url@, mime_label(*picture)) == Some(picture.data@),
{
    let mime = mime_type_of(picture);
    let payload = encode_standard(picture.data.as_slice());
    let mut url = String::from_str("data:");
    url.append(mime.as_str());
    url.append(";base64,");
    url.append(payload.as_str());
    proof {
        assert(url@.skip(data_url_header(mime@).len() as int) =~= payload@);
        assert(url@.subrange(0, data_url_header(mime@).len() as int) =~= data_url_header(mime@));
    }
    url
}

/// Reads back the bytes that a data URL of MIME type `mime` carries.
pub fn decode_data_url(url: &str, mime: &str) -> (bytes: Option<Vec<u8>>)
    ensures
        match bytes {
            Some(data) => carried_bytes(url@, mime@) == Some(data@),
            None => carried_bytes(url@, mime@) is None,
        },
{
    let mut header = String::from_str("data:");
    header.append(mime);
    header.append(";base64,");
    let header_len: usize = header.as_str().unicode_len();
    let url_len: usize = url.unicode_len();
    if url_len < header_len {
        return None;
    }
    let head = String::from_str(url.substring_char(0, header_len));
    if head != header {
        return None;
    }
    let payload = url.substring_char(header_len, url_len);
    proof {
        assert(url@.subrange(header_len as int, url_len as int) =~= url@.skip(header_len as int));
    }
    decode_standard(payload)
}

/// The cover art of a parsed container: the data URL of the first picture of
/// the selected tag, `None` where that tag holds no picture, and `NoMetadata`
/// where the container holds no tag.
pub fn cover_art(container: &AudioContainer) -> (art: Result<Option<String>, ExtractionError>)
    requires
        container.wf(),
        cover_encodable(*container),
    ensures
        outcome_view(art) == cover_art_outcome(Ok(*container)),
        selected_picture(*container) matches Some(picture) ==> art matches Ok(Some(url))
            && carried_bytes(url@, mime_label(picture)) == Some(picture.data@),
{
    let tag = select_tag(container)?;
    match first_picture(tag) {
        Some(picture) => Ok(Some(data_url(picture))),
        None => Ok(None),
    }
}

/// The cover art for the outcome of parsing a file: a parse failure becomes
/// `ReadFailed` with the parser's words, a parsed container goes through
/// `cover_art`.
pub fn extract_cover_art(parsed: Result<AudioContainer, String>) -> (art: Result<
    Option<String>,
    ExtractionError,
>)
    requires
        parsed is Ok ==> parsed->Ok_0.wf() && cover_encodable(parsed->Ok_0),
    ensures
        outcome_view(art) == cover_art_outcome(parsed),
        parsed matches Ok(container) ==> (selected_picture(container) matches Some(picture)
            ==> art matches Ok(Some(url)) && carried_bytes(url@, mime_label(picture)) == Some(
            picture.data@,
        )),
{
    match parsed {
        Ok(container) => cover_art(&container),
        Err(cause) => Err(ExtractionError::ReadFailed(cause)),
    }
}

/// A container whose selected tag holds no picture yields no cover art, and
/// that is a success.
pub proof fn lemma_no_picture_is_no_art(container: AudioContainer)
    requires
        container.wf(),
        container.tags@.len() > 0,
        selected_picture(container) is None,
    ensures
        cover_art_outcome(Ok(container)) == Ok::<Option<Seq<char>>, Failure>(None),
{
}

/// A container in which no tag holds a picture yields no cover art, and that
/// is a success.
pub proof fn lemma_no_pictures_anywhere_is_no_art(container: AudioContainer)
    requires
        container.wf(),
        container.tags@.len() > 0,
        forall|i: int| 0 <= i < container.tags@.len() ==> container.tags@[i].pictures@.len() == 0,
    ensures
        cover_art_outcome(Ok(container)) == Ok::<Option<Seq<char>>, Failure>(None),
{
}

/// Extraction fails with `NoMetadata` exactly for the containers that hold
/// no tag.
pub proof fn lemma_no_metadata_iff_no_tag(container: AudioContainer)
    requires
        container.wf(),
    ensures
        cover_art_outcome(Ok(container)) == Err::<Option<Seq<char>>, Failure>(Failure::NoMetadata)
            <==> container.tags@.len() == 0,
{
}

/// A picture without a declared MIME type is labelled by its leading bytes:
/// JPEG for `FF D8 FF`, PNG for `89 50 4E 47`, and JPEG for anything else. A
/// declared MIME type is kept as it is.
pub proof fn lemma_mime_classification(picture: Picture)
    ensures
        picture.mime_type matches Some(declared) ==> mime_label(picture) == declared@,
        picture.mime_type is None && picture.data@.len() >= 3 && picture.data@[0] == 0xFF
            && picture.data@[1] == 0xD8 && picture.data@[2] == 0xFF ==> mime_label(picture)
            == "image/jpeg"@,
        picture.mime_type is None && picture.data@.len() >= 4 && picture.data@[0] == 0x89
            && picture.data@[1] == 0x50 && picture.data@[2] == 0x4E && picture.data@[3] == 0x47
            ==> mime_label(picture) == "image/png"@,
        picture.mime_type is None && !begins_with(picture.data@, png_magic()) ==> mime_label(
            picture,
        ) == "image/jpeg"@,
{
    let data = picture.data@;
    if data.len() >= 3 && data[0] == 0xFF && data[1] == 0xD8 && data[2] == 0xFF {
        assert(data.subrange(0, 3) =~= jpeg_magic());
    }
    if data.len() >= 4 && data[0] == 0x89 && data[1] == 0x50 && data[2] == 0x4E && data[3]
        == 0x47 {
        assert(data.subrange(0, 4) =~= png_magic());
        if begins_with(data, jpeg_magic()) {
            assert(data.subrange(0, 3)[0] == jpeg_magic()[0]);
        }
    }
}

/// Only the first picture of the selected tag counts: two containers that
/// agree on it yield the same cover art.
pub proof fn lemma_only_first_picture_counts(first: AudioContainer, second: AudioContainer)
    requires
        selected_index(first) is Some,
        selected_index(second) is Some,
        selected_picture(first) == selected_picture(second),
    ensures
        cover_art_outcome(Ok(first)) == cover_art_outcome(Ok(second)),
{
}

/// Extraction is repeatable: two results for the same outcome of parsing,
/// each as `extract_cover_art` ensures it, are the same.
pub proof fn lemma_extraction_repeatable(
    parsed: Result<AudioContainer, String>,
    first: Result<Option<String>, ExtractionError>,
    second: Result<Option<String>, ExtractionError>,
)
    requires
        outcome_view(first) == cover_art_outcome(parsed),
        outcome_view(second) == cover_art_outcome(parsed),
    ensures
        outcome_view(first) == outcome_view(second),
{
}

} // verus!
