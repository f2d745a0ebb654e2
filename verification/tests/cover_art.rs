use audio_meta::cover::{
    cover_art, data_url, decode_data_url, extract_cover_art, first_picture, mime_type_of, select_tag,
};
use audio_meta::model::{AudioContainer, ExtractionError, Picture, StreamDuration, Tag};
use base64::Engine;

fn picture(data: &[u8], mime: Option<&str>) -> Picture {
    Picture { data: data.to_vec(), mime_type: mime.map(|m| m.to_string()) }
}

fn tag(pictures: Vec<Picture>) -> Tag {
    Tag { pictures }
}

fn container(tags: Vec<Tag>, primary: Option<usize>) -> AudioContainer {
    let duration = StreamDuration::new(0, 0).unwrap();
    AudioContainer::new(tags, primary, duration).unwrap()
}

fn url_of(tags: Vec<Tag>, primary: Option<usize>) -> Option<String> {
    extract_cover_art(Ok(container(tags, primary))).unwrap()
}

#[test]
fn embedded_picture_round_trips_through_base64() {
    let payload: Vec<u8> = (0u16..=300).map(|b| (b % 251) as u8).collect();
    let url = url_of(vec![tag(vec![picture(&payload, Some("image/webp"))])], Some(0)).unwrap();
    let prefix = "data:image/webp;base64,";
    assert!(url.starts_with(prefix));
    let decoded = base64::engine::general_purpose::STANDARD.decode(&url[prefix.len()..]).unwrap();
    assert_eq!(decoded, payload);
}

#[test]
fn round_trip_holds_for_every_padding_length() {
    for len in 0usize..10 {
        let payload: Vec<u8> = (0..len).map(|i| (i * 37 + 5) as u8).collect();
        let url = url_of(vec![tag(vec![picture(&payload, None)])], None).unwrap();
        let prefix = "data:image/jpeg;base64,";
        assert!(url.starts_with(prefix));
        let text = &url[prefix.len()..];
        assert_eq!(text.len(), (len + 2) / 3 * 4);
        let decoded = base64::engine::general_purpose::STANDARD.decode(text).unwrap();
        assert_eq!(decoded, payload);
    }
}

#[test]
fn data_url_is_exact() {
    assert_eq!(data_url(&picture(b"hello", None)), "data:image/jpeg;base64,aGVsbG8=");
    assert_eq!(
        data_url(&picture(&[0, 1, 2, 3, 4, 5, 6, 7, 8, 9], Some("image/gif"))),
        "data:image/gif;base64,AAECAwQFBgcICQ=="
    );
}

#[test]
fn payload_is_encoded_not_copied() {
    let url = data_url(&picture(b"first", Some("image/png")));
    assert_eq!(url, "data:image/png;base64,Zmlyc3Q=");
    assert!(!url.contains("first"));
}

#[test]
fn empty_payload_gives_an_empty_base64_segment() {
    assert_eq!(data_url(&picture(b"", None)), "data:image/jpeg;base64,");
}

#[test]
fn tag_without_pictures_is_success_without_art() {
    let art = extract_cover_art(Ok(container(vec![tag(vec![])], Some(0))));
    assert!(matches!(art, Ok(None)));
    let art = extract_cover_art(Ok(container(vec![tag(vec![]), tag(vec![])], None)));
    assert!(matches!(art, Ok(None)));
}

#[test]
fn container_without_tags_has_no_metadata() {
    let art = extract_cover_art(Ok(container(vec![], None)));
    assert!(matches!(art, Err(ExtractionError::NoMetadata)));
    let art = cover_art(&container(vec![], None));
    assert!(matches!(art, Err(ExtractionError::NoMetadata)));
}

#[test]
fn parse_failure_is_read_failed_with_the_cause() {
    let art = extract_cover_art(Err("unknown format".to_string()));
    match art {
        Err(ExtractionError::ReadFailed(cause)) => assert_eq!(cause, "unknown format"),
        other => panic!("unexpected: {:?}", other),
    }
}

#[test]
fn jpeg_magic_is_labelled_jpeg() {
    assert_eq!(mime_type_of(&picture(&[0xFF, 0xD8, 0xFF, 0xE0], None)), "image/jpeg");
    assert_eq!(mime_type_of(&picture(&[0xFF, 0xD8, 0xFF], None)), "image/jpeg");
    assert_eq!(data_url(&picture(&[0xFF, 0xD8, 0xFF, 0xE0], None)), "data:image/jpeg;base64,/9j/4A==");
}

#[test]
fn png_magic_is_labelled_png() {
    assert_eq!(mime_type_of(&picture(&[0x89, 0x50, 0x4E, 0x47, 0x0D], None)), "image/png");
    assert_eq!(mime_type_of(&picture(&[0x89, 0x50, 0x4E, 0x47], None)), "image/png");
    assert_eq!(data_url(&picture(&[0x89, 0x50, 0x4E, 0x47], None)), "data:image/png;base64,iVBORw==");
}

#[test]
fn unclassifiable_payload_falls_back_to_jpeg() {
    assert_eq!(mime_type_of(&picture(b"GIF89a", None)), "image/jpeg");
    assert_eq!(mime_type_of(&picture(b"", None)), "image/jpeg");
    assert_eq!(mime_type_of(&picture(&[0x89, 0x50, 0x4E], None)), "image/jpeg");
    assert_eq!(mime_type_of(&picture(&[0xFF, 0xD8], None)), "image/jpeg");
    assert_eq!(mime_type_of(&picture(&[0x89, 0x50, 0x4E, 0x48], None)), "image/jpeg");
}

#[test]
fn declared_mime_is_used_verbatim() {
    assert_eq!(mime_type_of(&picture(&[0x89, 0x50, 0x4E, 0x47], Some("image/gif"))), "image/gif");
    assert_eq!(mime_type_of(&picture(&[0xFF, 0xD8, 0xFF], Some("text/plain, odd"))), "text/plain, odd");
    assert_eq!(mime_type_of(&picture(b"x", Some(""))), "");
}

#[test]
fn extraction_is_repeatable() {
    let build = || vec![tag(vec![picture(&[0x89, 0x50, 0x4E, 0x47, 1, 2, 3], None)])];
    let first = url_of(build(), Some(0));
    let second = url_of(build(), Some(0));
    assert_eq!(first, second);
    assert_eq!(first.unwrap(), "data:image/png;base64,iVBORwECAw==");
}

#[test]
fn primary_tag_wins_over_first_tag() {
    let tags = vec![tag(vec![picture(b"first", None)]), tag(vec![picture(b"second", None)])];
    assert_eq!(url_of(tags, Some(1)).unwrap(), "data:image/jpeg;base64,c2Vjb25k");
}

#[test]
fn first_tag_is_the_fallback() {
    let tags = vec![tag(vec![picture(b"first", None)]), tag(vec![picture(b"second", None)])];
    assert_eq!(url_of(tags, None).unwrap(), "data:image/jpeg;base64,Zmlyc3Q=");
}

#[test]
fn primary_tag_without_pictures_does_not_fall_back() {
    let tags = vec![tag(vec![picture(b"first", None)]), tag(vec![])];
    assert_eq!(url_of(tags, Some(1)), None);
}

#[test]
fn only_the_first_picture_is_consulted() {
    let tags = vec![tag(vec![picture(b"first", Some("image/png")), picture(b"second", Some("image/gif"))])];
    assert_eq!(url_of(tags, Some(0)).unwrap(), "data:image/png;base64,Zmlyc3Q=");
}

#[test]
fn select_tag_and_first_picture_pick_by_position() {
    let c = container(vec![tag(vec![]), tag(vec![picture(b"a", None), picture(b"b", None)])], Some(1));
    let selected = select_tag(&c).unwrap();
    assert_eq!(selected.pictures.len(), 2);
    assert_eq!(first_picture(selected).unwrap().data, b"a".to_vec());
    let c = container(vec![tag(vec![]), tag(vec![picture(b"a", None)])], None);
    let selected = select_tag(&c).unwrap();
    assert!(first_picture(selected).is_none());
    assert!(matches!(select_tag(&container(vec![], None)), Err(ExtractionError::NoMetadata)));
}

#[test]
fn container_rejects_a_primary_position_past_the_tags() {
    let duration = StreamDuration::new(1, 0).unwrap();
    assert!(AudioContainer::new(vec![], Some(0), duration).is_none());
    assert!(AudioContainer::new(vec![tag(vec![])], Some(1), duration).is_none());
    assert!(AudioContainer::new(vec![tag(vec![])], Some(0), duration).is_some());
    assert!(AudioContainer::new(vec![], None, duration).is_some());
}

#[test]
fn error_messages_name_the_cause() {
    assert_eq!(ExtractionError::ReadFailed("bad header".to_string()).message(), "Failed to read audio file: bad header");
    assert_eq!(ExtractionError::NoMetadata.message(), "No metadata found in audio file");
    assert_eq!(ExtractionError::IoFailed("disk full".to_string()).message(), "Failed to write temp file: disk full");
}

#[test]
fn data_url_reads_back_to_the_picture() {
    for len in 0usize..40 {
        let payload: Vec<u8> = (0..len).map(|i| (i * 101 + 7) as u8).collect();
        for mime in [None, Some("image/png"), Some("image/x-icon;v=1,2"), Some("")] {
            let p = picture(&payload, mime);
            let url = data_url(&p);
            let label = mime_type_of(&p);
            assert_eq!(decode_data_url(&url, &label), Some(payload.clone()));
        }
    }
}

#[test]
fn decode_data_url_gives_the_exact_bytes() {
    assert_eq!(decode_data_url("data:image/jpeg;base64,aGVsbG8=", "image/jpeg"), Some(b"hello".to_vec()));
    assert_eq!(decode_data_url("data:image/png;base64,", "image/png"), Some(vec![]));
    assert_eq!(decode_data_url("data:image/png;base64,iVBORw==", "image/png"), Some(vec![0x89, 0x50, 0x4E, 0x47]));
}

#[test]
fn decode_data_url_rejects_another_header() {
    assert_eq!(decode_data_url("data:image/jpeg;base64,aGVsbG8=", "image/png"), None);
    assert_eq!(decode_data_url("data:image/jpeg;base64", "image/jpeg"), None);
    assert_eq!(decode_data_url("", "image/jpeg"), None);
    assert_eq!(decode_data_url("Data:image/jpeg;base64,aGVsbG8=", "image/jpeg"), None);
}

#[test]
fn decode_data_url_rejects_text_that_is_not_base64() {
    assert_eq!(decode_data_url("data:image/jpeg;base64,aGVsbG8", "image/jpeg"), None);
    assert_eq!(decode_data_url("data:image/jpeg;base64,aGV sbG8=", "image/jpeg"), None);
    assert_eq!(decode_data_url("data:image/jpeg;base64,hello", "image/jpeg"), None);
}

#[test]
fn decode_data_url_counts_characters_not_bytes() {
    let p = picture(b"hello", Some("image/\u{e9}t\u{e9}"));
    let url = data_url(&p);
    assert_eq!(url, "data:image/\u{e9}t\u{e9};base64,aGVsbG8=");
    assert_eq!(decode_data_url(&url, "image/\u{e9}t\u{e9}"), Some(b"hello".to_vec()));
}
