use temp_share::instant::Instant;
use temp_share::object_id::ObjectId;
use temp_share::routes::file::index as parts;
use temp_share::routes::file::index::Held;
use temp_share::routes::parse_file_name;
use temp_share::routes::stream::get_stream;
use temp_share::routes::stream::get_stream_source;
use temp_share::routes::stream::GetStreamError;
use temp_share::routes::StorageError;

const NAME: &str = "01d1a94a-2000-7000-8000-000000000000.mp4";
const EXPIRES: Instant = Instant { secs: 2_000_000_000, nanos: 0 };

fn before() -> Instant {
    Instant { secs: 1_999_999_999, nanos: 999_999_999 }
}

#[test]
fn the_name_used_here_is_that_of_an_identifier_expiring_at_two_billion() {
    let id = ObjectId::with_entropy(EXPIRES, &[0; 10]).unwrap();
    assert_eq!(format!("{}.mp4", id.to_text()), NAME);
    assert_eq!(parse_file_name(NAME), Some(id));
}

#[test]
fn file_names_lead_to_identifiers_by_their_stem() {
    let id = Some(ObjectId { bits: 0x01d1a94a_2000_7000_8000_000000000000 });
    assert_eq!(parse_file_name("01d1a94a-2000-7000-8000-000000000000"), id);
    assert_eq!(parse_file_name("01d1a94a-2000-7000-8000-000000000000.tar"), id);
    assert_eq!(parse_file_name("some/where/01d1a94a-2000-7000-8000-000000000000.tar"), id);
    assert_eq!(parse_file_name("01d1a94a20007000800000000000000.x"), None);
    assert_eq!(parse_file_name("01d1a94a-2000-7000-8000-000000000000.tar.gz"), None);
    assert_eq!(parse_file_name(".01d1a94a-2000-7000-8000-000000000000"), None);
    assert_eq!(parse_file_name(""), None);
    assert_eq!(parse_file_name(".."), None);
    assert_eq!(parse_file_name("readme.txt"), None);
}

#[test]
fn an_object_is_streamed_from_its_bucket_until_it_expires() {
    assert_eq!(get_stream(NAME, before()), Ok(format!("2000001600/{NAME}")));
    assert_eq!(
        get_stream(NAME, Instant { secs: 0, nanos: 0 }),
        Ok(format!("2000001600/{NAME}"))
    );
}

#[test]
fn an_expired_object_is_not_found() {
    assert_eq!(get_stream(NAME, EXPIRES), Err(GetStreamError::NotFound));
    assert_eq!(get_stream(NAME, Instant { secs: 2_000_000_000, nanos: 1 }), Err(GetStreamError::NotFound));
    assert_eq!(get_stream(NAME, Instant { secs: 2_000_001_600, nanos: 0 }), Err(GetStreamError::NotFound));
    assert_eq!(parts::get(NAME, EXPIRES, Held::Parts), Err(parts::GetError::NotFound));
}

#[test]
fn an_expired_object_and_a_missing_one_get_the_same_answer() {
    let expired = get_stream(NAME, EXPIRES).unwrap_err();
    let missing = GetStreamError::from_storage(StorageError::NotFound);
    assert_eq!(expired, missing);
    assert_eq!(expired.status_code(), 404);
    assert_eq!(expired.message(), "File not found.");
    let expired = parts::get(NAME, EXPIRES, Held::Parts).unwrap_err();
    let missing = parts::GetError::from_storage(StorageError::NotFound);
    assert_eq!(expired, missing);
    assert_eq!(expired.status_code(), missing.status_code());
    assert_eq!(expired.message(), missing.message());
}

#[test]
fn names_without_an_identifier_are_refused() {
    let now = before();
    assert_eq!(get_stream("readme.txt", now), Err(GetStreamError::InvalidFileName));
    assert_eq!(get_stream("", now), Err(GetStreamError::InvalidFileName));
    assert_eq!(parts::get("readme.txt", now, Held::Parts), Err(parts::GetError::InvalidFileName));
    assert_eq!(get_stream_source(None, NAME, now), Err(GetStreamError::InvalidFileName));
}

#[test]
fn identifiers_of_another_version_are_refused() {
    let now = before();
    let v4 = "550e8400-e29b-41d4-a716-446655440000.mp4";
    assert_eq!(get_stream(v4, now), Err(GetStreamError::InvalidUUIDVersion));
    assert_eq!(parts::get(v4, now, Held::Parts), Err(parts::GetError::InvalidUUIDVersion));
    let v1 = "c232ab00-9414-11ec-b3c8-9f6bdeced846.mp4";
    assert_eq!(get_stream(v1, Instant { secs: 0, nanos: 0 }), Err(GetStreamError::InvalidUUIDVersion));
    assert_eq!(
        parts::post(v4, Some("0")),
        Err(parts::PostError::InvalidUUIDVersion)
    );
}

#[test]
fn what_the_name_says_counts_for_nothing_where_the_identifier_is_handed_in() {
    let id = ObjectId::with_entropy(Instant { secs: 7200, nanos: 0 }, &[1; 10]);
    assert_eq!(
        get_stream_source(id, "anything.bin", Instant { secs: 7199, nanos: 0 }),
        Ok("7200/anything.bin".to_string())
    );
    assert_eq!(
        parts::get_source(id, "anything.bin", Instant { secs: 7199, nanos: 0 }, Held::Parts),
        Ok("7200/anything.bin/0".to_string())
    );
    assert_eq!(
        parts::post_target(id, "anything.bin", Some("12")),
        Ok("7200/anything.bin/12".to_string())
    );
}

#[test]
fn an_object_in_one_piece_is_read_from_its_own_path() {
    assert_eq!(parts::probe(NAME, before()), Ok(format!("2000001600/{NAME}")));
    assert_eq!(parts::get(NAME, before(), Held::Object), Ok(format!("2000001600/{NAME}")));
    assert_eq!(parts::get(NAME, EXPIRES, Held::Object), Err(parts::GetError::NotFound));
    assert_eq!(parts::probe(NAME, EXPIRES), Err(parts::GetError::NotFound));
    assert_eq!(parts::probe("readme.txt", before()), Err(parts::GetError::InvalidFileName));
    let id = ObjectId::with_entropy(Instant { secs: 7200, nanos: 0 }, &[1; 10]);
    assert_eq!(
        parts::get_source(id, "anything.bin", Instant { secs: 7199, nanos: 0 }, Held::Object),
        Ok("7200/anything.bin".to_string())
    );
    assert_eq!(
        parts::get_probe_path(id, "anything.bin", Instant { secs: 7199, nanos: 0 }),
        Ok("7200/anything.bin".to_string())
    );
}

#[test]
fn what_the_backend_holds_decides_where_to_read() {
    assert_eq!(Held::of(None), Ok(Held::Parts));
    assert_eq!(Held::of(Some(Ok(Held::Object))), Ok(Held::Object));
    assert_eq!(Held::of(Some(Ok(Held::Parts))), Ok(Held::Parts));
    assert_eq!(Held::of(Some(Err(StorageError::NotFound))), Ok(Held::Parts));
    assert_eq!(
        Held::of(Some(Err(StorageError::Unexpected("timeout".to_string())))),
        Err("timeout".to_string())
    );
}

#[test]
fn an_object_in_parts_is_read_from_its_first_part() {
    assert_eq!(parts::get(NAME, before(), Held::Parts), Ok(format!("2000001600/{NAME}/0")));
    assert_eq!(parts::FIRST_PART, 0);
}

#[test]
fn a_part_is_written_under_its_number() {
    assert_eq!(parts::post(NAME, Some("0")), Ok(format!("2000001600/{NAME}/0")));
    assert_eq!(parts::post(NAME, Some("41")), Ok(format!("2000001600/{NAME}/41")));
    assert_eq!(parts::post(NAME, Some("+7")), Ok(format!("2000001600/{NAME}/7")));
    assert_eq!(parts::post(NAME, Some("007")), Ok(format!("2000001600/{NAME}/7")));
}

#[test]
fn a_part_without_a_number_is_refused_before_the_name_is_looked_at() {
    assert_eq!(parts::post(NAME, None), Err(parts::PostError::InvalidPartField));
    assert_eq!(parts::post(NAME, Some("")), Err(parts::PostError::InvalidPartField));
    assert_eq!(parts::post(NAME, Some("-1")), Err(parts::PostError::InvalidPartField));
    assert_eq!(parts::post(NAME, Some("one")), Err(parts::PostError::InvalidPartField));
    assert_eq!(parts::post("readme.txt", Some("one")), Err(parts::PostError::InvalidPartField));
    assert_eq!(parts::post("readme.txt", Some("1")), Err(parts::PostError::InvalidFileName));
}

#[test]
fn failures_of_the_backend_are_unknown_errors() {
    let failure = StorageError::Unexpected("permission denied".to_string());
    assert_eq!(
        GetStreamError::from_storage(failure.clone()),
        GetStreamError::Unkown("permission denied".to_string())
    );
    assert_eq!(
        parts::GetError::from_storage(failure),
        parts::GetError::Unkown("permission denied".to_string())
    );
}

#[test]
fn errors_of_reading_have_their_status_and_words() {
    let all = [
        (GetStreamError::InvalidFileName, 400, "Invalid filename is not UUID.EXT."),
        (GetStreamError::InvalidUUIDVersion, 400, "UUID needs to be v7."),
        (GetStreamError::InvalidUUIDTimestamp, 400, "UUID has an invalid timestamp."),
        (GetStreamError::NotFound, 404, "File not found."),
        (GetStreamError::Unkown("disk on fire".to_string()), 500, "disk on fire"),
    ];
    for (error, status, words) in all {
        assert_eq!(error.status_code(), status);
        assert_eq!(error.message(), words);
        if status == 500 {
            assert_eq!(error.response_text(), "Unkown error.");
        } else {
            assert_eq!(error.response_text(), words);
        }
    }
    let all = [
        (parts::GetError::InvalidFileName, 400, "Invalid filename is not UUID.EXT."),
        (parts::GetError::InvalidUUIDVersion, 400, "UUID needs to be v7."),
        (parts::GetError::InvalidUUIDTimestamp, 400, "UUID has an invalid timestamp."),
        (parts::GetError::NotFound, 404, "File not found."),
        (parts::GetError::Unkown("disk on fire".to_string()), 500, "disk on fire"),
    ];
    for (error, status, words) in all {
        assert_eq!(error.status_code(), status);
        assert_eq!(error.message(), words);
        if status == 500 {
            assert_eq!(error.response_text(), "Unkown error.");
        } else {
            assert_eq!(error.response_text(), words);
        }
    }
}

#[test]
fn the_sender_is_told_nothing_of_the_storage() {
    let words = "NotFound (permanent) at stat, context: { path: 2000001600/x.mp4 }".to_string();
    let failure = StorageError::Unexpected(words.clone());
    let error = GetStreamError::from_storage(failure.clone());
    assert_eq!(error.message(), words);
    assert_eq!(error.response_text(), "Unkown error.");
    let error = parts::GetError::from_storage(failure);
    assert_eq!(error.message(), words);
    assert_eq!(error.response_text(), "Unkown error.");
    let error = parts::PostError::Unkown(words.clone());
    assert_eq!(error.message(), format!("Unexpected error: {words}"));
    assert_eq!(error.response_text(), "Unexpected error.");
}

#[test]
fn errors_of_writing_a_part_have_their_status_and_words() {
    let all = [
        (parts::PostError::MissingField("Part"), 400, false, "'Part' is required!"),
        (parts::PostError::InvalidPartField, 400, false, "Invalid part field."),
        (parts::PostError::InvalidFileName, 400, false, "Missing file name."),
        (parts::PostError::InvalidUUIDVersion, 400, false, "UUID needs to be v7."),
        (parts::PostError::InvalidUUIDTimestamp, 400, false, "UUID has an invalid timestamp."),
        (parts::PostError::Unkown("boom".to_string()), 500, true, "Unexpected error: boom"),
    ];
    for (error, status, retry, words) in all {
        assert_eq!(error.status_code(), status);
        assert_eq!(error.include_retry_button(), retry);
        assert_eq!(error.message(), words);
        if status == 500 {
            assert_eq!(error.response_text(), "Unexpected error.");
        } else {
            assert_eq!(error.response_text(), words);
        }
    }
}
