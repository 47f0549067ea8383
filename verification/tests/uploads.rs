use temp_share::instant::Instant;
use temp_share::instant::MAX_SECONDS;
use temp_share::object_id::ObjectId;
use temp_share::routes::file::index as parts;
use temp_share::routes::index::expiration_datetime;
use temp_share::routes::index::parse_parts;
use temp_share::routes::index::parts_upload;
use temp_share::routes::index::share_for;
use temp_share::routes::index::share_for_options;
use temp_share::routes::index::single_part_upload;
use temp_share::routes::index::upload_file_in_parts_and_redirect;
use temp_share::routes::index::upload_file_in_single_part_and_redirect;
use temp_share::routes::index::upload_kind;
use temp_share::routes::index::PartsUpload;
use temp_share::routes::index::PostError;
use temp_share::routes::index::SinglePartUpload;
use temp_share::routes::index::Upload;
use temp_share::routes::parse_file_name;
use temp_share::routes::shared::get_shared;
use temp_share::routes::stream::get_stream;
use temp_share::routes::stream::GetStreamError;
use temp_share::util::FieldHead;

#[test]
fn the_form_offers_six_retentions() {
    assert_eq!(
        share_for_options(),
        vec!["30 minutes", "1 hour", "6 hours", "12 hours", "1 day", "3 days"]
    );
    let seconds: Vec<i64> = share_for_options().iter().map(|choice| share_for(choice)).collect();
    assert_eq!(seconds, vec![1_800, 3_600, 21_600, 43_200, 86_400, 259_200]);
}

#[test]
fn an_unknown_retention_counts_as_the_first() {
    assert_eq!(share_for(""), 1_800);
    assert_eq!(share_for("forever"), 1_800);
    assert_eq!(share_for("1 Hour"), 1_800);
    assert_eq!(share_for("1 hour "), 1_800);
}

#[test]
fn the_expiration_is_the_retention_after_now() {
    let now = Instant { secs: 1_700_000_000, nanos: 5 };
    assert_eq!(expiration_datetime(now, "1 hour"), Ok(Instant { secs: 1_700_003_600, nanos: 5 }));
    assert_eq!(expiration_datetime(now, "3 days"), Ok(Instant { secs: 1_700_259_200, nanos: 5 }));
    assert_eq!(expiration_datetime(now, "?"), Ok(Instant { secs: 1_700_001_800, nanos: 5 }));
}

#[test]
fn there_is_no_expiration_past_the_end_of_the_calendar() {
    let now = Instant { secs: MAX_SECONDS - 1_799, nanos: 0 };
    assert!(matches!(expiration_datetime(now, "30 minutes"), Err(PostError::Unkown(_))));
    let now = Instant { secs: MAX_SECONDS - 1_800, nanos: 0 };
    assert_eq!(expiration_datetime(now, "30 minutes"), Ok(Instant { secs: MAX_SECONDS, nanos: 0 }));
}

#[test]
fn the_form_goes_on_with_the_file_or_the_number_of_parts() {
    let file = FieldHead { name: Some("File".to_string()), file_name: Some("a.mp4".to_string()) };
    assert_eq!(upload_kind(Ok(Some(file))), Ok(Upload::File { file_name: Some("a.mp4".to_string()) }));
    let nameless = FieldHead { name: Some("File".to_string()), file_name: None };
    assert_eq!(upload_kind(Ok(Some(nameless))), Ok(Upload::File { file_name: None }));
    let parts = FieldHead { name: Some("Parts".to_string()), file_name: None };
    assert_eq!(upload_kind(Ok(Some(parts))), Ok(Upload::Parts));
}

#[test]
fn a_form_that_goes_on_with_anything_else_is_refused() {
    let other = FieldHead { name: Some("Filename".to_string()), file_name: None };
    assert_eq!(upload_kind(Ok(Some(other))), Err(PostError::MissingField("File or Parts")));
    let unnamed = FieldHead { name: None, file_name: Some("a.mp4".to_string()) };
    assert_eq!(upload_kind(Ok(Some(unnamed))), Err(PostError::MissingField("File or Parts")));
    assert_eq!(upload_kind(Ok(None)), Err(PostError::MissingField("File or Parts")));
    assert_eq!(
        upload_kind(Err("bad boundary".to_string())),
        Err(PostError::Unkown("bad boundary".to_string()))
    );
}

#[test]
fn a_file_is_sent_in_one_part_at_least() {
    assert_eq!(parse_parts("0"), Ok(1));
    assert_eq!(parse_parts("1"), Ok(1));
    assert_eq!(parse_parts("2"), Ok(2));
    assert_eq!(parse_parts("+64"), Ok(64));
    assert_eq!(parse_parts("many"), Err(PostError::Unkown("invalid number of parts".to_string())));
    assert_eq!(parse_parts("-1"), Err(PostError::Unkown("invalid number of parts".to_string())));
    assert_eq!(parse_parts(""), Err(PostError::Unkown("invalid number of parts".to_string())));
}

#[test]
fn a_file_in_one_piece_is_stored_in_its_bucket_under_its_identifier() {
    let id = ObjectId { bits: 0x01d1a94a_2000_7000_8000_000000000000 };
    assert_eq!(
        single_part_upload(id, "mp4"),
        Ok(SinglePartUpload {
            id,
            file_name: "01d1a94a-2000-7000-8000-000000000000.mp4".to_string(),
            file_path: "2000001600/01d1a94a-2000-7000-8000-000000000000.mp4".to_string(),
            redirect: "/file/01d1a94a-2000-7000-8000-000000000000.mp4/view".to_string(),
        })
    );
}

#[test]
fn a_file_in_parts_gets_a_directory_under_its_identifier() {
    let id = ObjectId { bits: 0x01d1a94a_2000_7000_8000_000000000000 };
    assert_eq!(
        parts_upload(id, "mp4", 3),
        Ok(PartsUpload {
            id,
            file_name: "01d1a94a-2000-7000-8000-000000000000.mp4".to_string(),
            directory: "2000001600/01d1a94a-2000-7000-8000-000000000000.mp4/".to_string(),
            post_to: "/file/01d1a94a-2000-7000-8000-000000000000.mp4".to_string(),
            redirect: "/file/01d1a94a-2000-7000-8000-000000000000.mp4/view".to_string(),
            parts: 3,
        })
    );
}

#[test]
fn an_identifier_without_an_expiration_places_nothing() {
    let v4 = ObjectId { bits: 0x550e8400_e29b_41d4_a716_446655440000 };
    assert!(matches!(single_part_upload(v4, "mp4"), Err(PostError::Unkown(_))));
    assert!(matches!(parts_upload(v4, "mp4", 2), Err(PostError::Unkown(_))));
}

#[test]
fn a_new_upload_is_placed_by_the_expiration_in_its_identifier() {
    let expiration = Instant { secs: 2_000_000_000, nanos: 123_456_789 };
    let upload = upload_file_in_single_part_and_redirect(Some("holiday.final.MP4"), expiration).unwrap();
    assert_eq!(upload.id.decode_expiration(), Ok(Instant { secs: 2_000_000_000, nanos: 123_000_000 }));
    assert_eq!(upload.file_name, format!("{}.MP4", upload.id.to_text()));
    assert_eq!(upload.file_path, format!("2000001600/{}", upload.file_name));
    assert_eq!(upload.redirect, format!("/file/{}/view", upload.file_name));
    assert_eq!(parse_file_name(&upload.file_name), Some(upload.id));
}

#[test]
fn what_was_written_is_read_back_from_the_same_path_until_it_expires() {
    let expiration = Instant { secs: 1_700_002_800, nanos: 999 };
    let upload = upload_file_in_single_part_and_redirect(Some("a.txt"), expiration).unwrap();
    let just_before = Instant { secs: 1_700_002_799, nanos: 999_999_999 };
    assert_eq!(get_stream(&upload.file_name, just_before), Ok(upload.file_path.clone()));
    assert_eq!(upload.file_path, format!("1700002800/{}", upload.file_name));
    assert_eq!(
        get_shared(&upload.file_name, just_before).unwrap().lookup,
        Some(upload.file_path.clone())
    );
    assert_eq!(
        get_stream(&upload.file_name, Instant { secs: 1_700_002_800, nanos: 0 }),
        Err(GetStreamError::NotFound)
    );
    assert_eq!(get_stream(&upload.file_name, expiration), Err(GetStreamError::NotFound));
    assert_eq!(get_shared(&upload.file_name, expiration).unwrap().lookup, None);
}

#[test]
fn an_upload_is_read_back_until_the_retention_is_over() {
    let start = Instant { secs: 1_700_000_000, nanos: 0 };
    let expiration = expiration_datetime(start, "6 hours").unwrap();
    let upload = upload_file_in_single_part_and_redirect(Some("a.txt"), expiration).unwrap();
    for waited in [0, 1, 3_600, 21_599] {
        let now = Instant { secs: 1_700_000_000 + waited, nanos: 999_999_999 };
        assert_eq!(get_stream(&upload.file_name, now), Ok(upload.file_path.clone()), "{waited}");
    }
    for waited in [21_600, 21_601, 86_400] {
        let now = Instant { secs: 1_700_000_000 + waited, nanos: 0 };
        assert_eq!(get_stream(&upload.file_name, now), Err(GetStreamError::NotFound), "{waited}");
    }
}

#[test]
fn parts_are_written_into_the_directory_made_for_them() {
    let expiration = Instant { secs: 2_000_000_000, nanos: 0 };
    let upload = upload_file_in_parts_and_redirect("big.iso", 4, expiration).unwrap();
    assert_eq!(upload.parts, 4);
    assert_eq!(upload.directory, format!("2000001600/{}/", upload.file_name));
    assert_eq!(upload.post_to, format!("/file/{}", upload.file_name));
    assert_eq!(upload.redirect, format!("/file/{}/view", upload.file_name));
    for part in 0..upload.parts {
        assert_eq!(
            parts::post(&upload.file_name, Some(&part.to_string())),
            Ok(format!("{}{}", upload.directory, part))
        );
    }
}

#[test]
fn a_file_needs_a_name_with_an_extension() {
    let expiration = Instant { secs: 2_000_000_000, nanos: 0 };
    assert_eq!(
        upload_file_in_single_part_and_redirect(None, expiration),
        Err(PostError::MissingFileName)
    );
    assert_eq!(
        upload_file_in_single_part_and_redirect(Some(""), expiration),
        Err(PostError::MissingFileName)
    );
    for name in ["README", ".profile", "dir.d/README", "..", "a/.."] {
        assert_eq!(
            upload_file_in_single_part_and_redirect(Some(name), expiration),
            Err(PostError::UnknownFileType),
            "{name:?}"
        );
        assert_eq!(
            upload_file_in_parts_and_redirect(name, 2, expiration),
            Err(PostError::UnknownFileType),
            "{name:?}"
        );
    }
    assert_eq!(upload_file_in_parts_and_redirect("", 2, expiration), Err(PostError::UnknownFileType));
}

#[test]
fn the_name_is_looked_at_before_the_expiration() {
    let unfit = Instant { secs: -1, nanos: 0 };
    assert_eq!(upload_file_in_single_part_and_redirect(None, unfit), Err(PostError::MissingFileName));
    assert_eq!(
        upload_file_in_single_part_and_redirect(Some("README"), unfit),
        Err(PostError::UnknownFileType)
    );
    assert!(matches!(
        upload_file_in_single_part_and_redirect(Some("a.txt"), unfit),
        Err(PostError::Unkown(_))
    ));
    assert!(matches!(upload_file_in_parts_and_redirect("a.txt", 2, unfit), Err(PostError::Unkown(_))));
}

#[test]
fn errors_of_an_upload_have_their_words() {
    assert_eq!(PostError::MissingField("File or Parts").message(), "'File or Parts' is required!");
    assert_eq!(PostError::MissingFileName.message(), "Missing file name.");
    assert_eq!(PostError::UnknownFileType.message(), "Unkown file type.");
    assert_eq!(PostError::Unkown("disk on fire".to_string()).message(), "Unkown error.");
}

#[test]
fn an_upload_in_one_piece_is_read_back_at_the_address_it_is_sent_on_to() {
    let expiration = Instant { secs: 2_000_000_000, nanos: 0 };
    let before = Instant { secs: 1_999_999_999, nanos: 0 };
    let upload = upload_file_in_single_part_and_redirect(Some("a.txt"), expiration).unwrap();
    assert_eq!(upload.redirect, format!("/file/{}/view", upload.file_name));
    assert_eq!(parts::probe(&upload.file_name, before), Ok(upload.file_path.clone()));
    let held = parts::Held::of(Some(Ok(parts::Held::Object))).unwrap();
    let page = temp_share::routes::file::view::get(&upload.file_name, before, held).unwrap();
    assert_eq!(page.lookup, Some(upload.file_path.clone()));
    assert_eq!(page.file_source, format!("/file/{}", upload.file_name));
    assert_eq!(parts::get(&upload.file_name, before, held), Ok(upload.file_path.clone()));
    assert_eq!(get_stream(&upload.file_name, before), Ok(upload.file_path.clone()));
    let page = temp_share::routes::file::view::get(&upload.file_name, expiration, held).unwrap();
    assert_eq!(page.lookup, None);
    assert_eq!(parts::get(&upload.file_name, expiration, held), Err(parts::GetError::NotFound));
    assert_eq!(parts::probe(&upload.file_name, expiration), Err(parts::GetError::NotFound));
}

#[test]
fn an_upload_in_parts_is_read_back_from_its_first_part() {
    let expiration = Instant { secs: 2_000_000_000, nanos: 0 };
    let before = Instant { secs: 1_999_999_999, nanos: 0 };
    let upload = upload_file_in_parts_and_redirect("big.iso", 2, expiration).unwrap();
    let held = parts::Held::of(Some(Err(temp_share::routes::StorageError::NotFound))).unwrap();
    assert_eq!(held, parts::Held::Parts);
    assert_eq!(
        parts::get(&upload.file_name, before, held).ok(),
        parts::post(&upload.file_name, Some("0")).ok()
    );
    assert_eq!(parts::get(&upload.file_name, before, held), Ok(format!("{}0", upload.directory)));
    let page = temp_share::routes::file::view::get(&upload.file_name, before, held).unwrap();
    assert_eq!(page.lookup, Some(upload.directory.clone()));
}

#[test]
fn a_name_that_does_not_lead_back_to_its_identifier_places_nothing() {
    let id = ObjectId { bits: 0x01d1a94a_2000_7000_8000_000000000000 };
    let astray = PostError::Unkown("name does not lead back to its identifier".to_string());
    for extension in ["tar.gz", "a/b", ".", "/x", "..", "a.", ".a", "/.."] {
        assert_eq!(single_part_upload(id, extension), Err(astray.clone()), "{extension:?}");
        assert_eq!(parts_upload(id, extension, 2), Err(astray.clone()), "{extension:?}");
    }
    for extension in ["", "mp4", "MP4", "d-1", "día", "7z", "/", "x/", "x//", "/."] {
        let upload = single_part_upload(id, extension).unwrap();
        assert_eq!(parse_file_name(&upload.file_name), Some(id), "{extension:?}");
        assert_eq!(upload.file_name, format!("{}.{extension}", id.to_text()));
        let upload = parts_upload(id, extension, 2).unwrap();
        assert_eq!(parse_file_name(&upload.file_name), Some(id), "{extension:?}");
    }
    let v4 = ObjectId { bits: 0x550e8400_e29b_41d4_a716_446655440000 };
    assert_eq!(
        single_part_upload(v4, "mp4"),
        Err(PostError::Unkown("identifier carries no expiration".to_string()))
    );
    assert_eq!(
        parts_upload(v4, "a/b", 2),
        Err(PostError::Unkown("identifier carries no expiration".to_string()))
    );
}
