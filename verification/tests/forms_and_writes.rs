use temp_share::routes::file::index::PostError as PartPostError;
use temp_share::routes::index::PostError;
use temp_share::util::get_and_validate_multipart_field;
use temp_share::util::get_next_multipart_field;
use temp_share::util::write_file;
use temp_share::util::FieldHead;
use temp_share::util::MultipartError;
use temp_share::util::WRITE_BUFFER_BYTES;
use temp_share::util::WRITE_CONCURRENCY;

fn field(name: Option<&str>) -> FieldHead {
    FieldHead { name: name.map(|name| name.to_string()), file_name: None }
}

#[test]
fn a_write_succeeds_only_if_content_and_close_both_did() {
    assert_eq!(write_file::<u64, &str>(Ok(12), Ok(())), Ok(()));
    assert_eq!(write_file::<u64, &str>(Err("stream broke"), Ok(())), Err("stream broke"));
    assert_eq!(write_file::<u64, &str>(Ok(12), Err("close failed")), Err("close failed"));
}

#[test]
fn a_failure_of_the_content_is_reported_also_where_closing_failed_too() {
    assert_eq!(write_file::<u64, &str>(Err("stream broke"), Err("close failed")), Err("stream broke"));
}

#[test]
fn writes_go_through_a_bounded_buffer_one_chunk_at_a_time() {
    assert_eq!(WRITE_BUFFER_BYTES, 625_000);
    assert_eq!(WRITE_CONCURRENCY, 1);
}

#[test]
fn the_next_field_is_handed_on_as_it_is() {
    assert_eq!(get_next_multipart_field(Ok(None)), Ok(None));
    assert_eq!(
        get_next_multipart_field(Ok(Some(field(Some("File"))))),
        Ok(Some(field(Some("File"))))
    );
    assert_eq!(
        get_next_multipart_field(Err("bad boundary".to_string())),
        Err(MultipartError::Unkown("bad boundary".to_string()))
    );
}

#[test]
fn a_field_has_to_bear_the_name_that_is_asked_for() {
    assert_eq!(
        get_and_validate_multipart_field("Part", Ok(Some(field(Some("Part"))))),
        Ok(field(Some("Part")))
    );
    let with_file = FieldHead {
        name: Some("File".to_string()),
        file_name: Some("holiday.mp4".to_string()),
    };
    assert_eq!(
        get_and_validate_multipart_field("File", Ok(Some(with_file.clone()))),
        Ok(with_file)
    );
}

#[test]
fn a_form_that_ends_or_goes_on_otherwise_misses_the_field() {
    assert_eq!(
        get_and_validate_multipart_field("Part", Ok(None)),
        Err(MultipartError::MissingField("Part"))
    );
    assert_eq!(
        get_and_validate_multipart_field("Part", Ok(Some(field(Some("File"))))),
        Err(MultipartError::MissingField("Part"))
    );
    assert_eq!(
        get_and_validate_multipart_field("Part", Ok(Some(field(Some("part"))))),
        Err(MultipartError::MissingField("Part"))
    );
    assert_eq!(
        get_and_validate_multipart_field("Part", Ok(Some(field(None)))),
        Err(MultipartError::MissingField("Part"))
    );
    assert_eq!(
        get_and_validate_multipart_field("Part", Err("bad boundary".to_string())),
        Err(MultipartError::Unkown("bad boundary".to_string()))
    );
}

#[test]
fn errors_of_the_form_have_their_words() {
    assert_eq!(MultipartError::MissingField("Share for").message(), "'Share for' is required!");
    assert_eq!(MultipartError::Unkown("bad boundary".to_string()).message(), "Unkown error.");
}

#[test]
fn errors_of_the_form_become_errors_of_the_handlers() {
    assert_eq!(
        PostError::from(MultipartError::MissingField("Share for")),
        PostError::MissingField("Share for")
    );
    assert_eq!(
        PostError::from(MultipartError::Unkown("bad boundary".to_string())),
        PostError::Unkown("bad boundary".to_string())
    );
    assert_eq!(
        PartPostError::from(MultipartError::MissingField("Part")),
        PartPostError::MissingField("Part")
    );
    assert_eq!(
        PartPostError::from(MultipartError::Unkown("bad boundary".to_string())),
        PartPostError::Unkown("bad boundary".to_string())
    );
}
