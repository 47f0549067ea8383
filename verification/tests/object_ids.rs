use temp_share::instant::Instant;
use temp_share::object_id::InvalidIdentifier;
use temp_share::object_id::ObjectId;
use temp_share::util::DatetimeUUIDv7GeneratorExt;
use uuid::Builder;
use uuid::Uuid;
use uuid::Variant;
use uuid::Version;

#[test]
fn the_layout_is_that_of_a_version_7_uuid() {
    let t = Instant { secs: 1_497_624_119, nanos: 1_234 };
    let zeros = ObjectId::with_entropy(t, &[0; 10]).unwrap();
    assert_eq!(zeros.bits, 0x015cb15a_86d8_7000_8000_000000000000);
    let ones = ObjectId::with_entropy(t, &[0xff; 10]).unwrap();
    assert_eq!(ones.bits, 0x015cb15a_86d8_7fff_bfff_ffffffffffff);
    let mixed = ObjectId::with_entropy(
        Instant { secs: 1_645_557_742, nanos: 987_654_321 },
        &[0x12, 0x34, 0x56, 0x78, 0x9a, 0xbc, 0xde, 0xf0, 0x0f, 0xed],
    )
    .unwrap();
    assert_eq!(mixed.bits, 0x017f22e2_7d8b_7234_9678_9abcdef00fed);
}

#[test]
fn the_layout_agrees_with_the_uuid_library() {
    let entropy = [0xa5, 0x5a, 0xc3, 0x3c, 0x01, 0x80, 0x7f, 0xfe, 0x10, 0x99];
    for millis in [0u64, 1, 999, 1_000, 1_700_000_000_123, (1 << 48) - 1] {
        let t = Instant { secs: (millis / 1000) as i64, nanos: (millis % 1000) as u32 * 1_000_000 };
        let ours = ObjectId::with_entropy(t, &entropy).unwrap();
        let theirs = Builder::from_unix_timestamp_millis(millis, &entropy).into_uuid();
        assert_eq!(ours.bits, theirs.as_u128());
        assert_eq!(ours.get_millis(), millis);
        assert_eq!(ours.get_version(), 7);
        assert_eq!(ours.get_variant(), 2);
        assert_eq!(theirs.get_version(), Some(Version::SortRand));
        assert_eq!(theirs.get_variant(), Variant::RFC4122);
    }
}

#[test]
fn new_identifiers_carry_their_expiration() {
    let t = Instant { secs: 1_700_000_000, nanos: 123_456_789 };
    let first = t.generate_uuidv7().unwrap();
    let second = ObjectId::generate(t).unwrap();
    for id in [first, second] {
        assert_eq!(id.get_version(), 7);
        assert_eq!(id.get_variant(), 2);
        assert_eq!(id.get_millis(), 1_700_000_000_123);
        assert_eq!(
            id.decode_expiration(),
            Ok(Instant { secs: 1_700_000_000, nanos: 123_000_000 })
        );
        assert_eq!(Uuid::from_u128(id.bits).get_version(), Some(Version::SortRand));
    }
    assert_ne!(first, second);
}

#[test]
fn decoding_gives_back_whole_milliseconds_exactly() {
    for t in [
        Instant { secs: 0, nanos: 0 },
        Instant { secs: 0, nanos: 1_000_000 },
        Instant { secs: 1_700_000_000, nanos: 999_000_000 },
        Instant { secs: 281_474_976_710, nanos: 655_000_000 },
    ] {
        assert_eq!(t.generate_uuidv7().unwrap().decode_expiration(), Ok(t));
        assert_eq!(ObjectId::with_entropy(t, &[7; 10]).unwrap().decode_expiration(), Ok(t));
    }
}

#[test]
fn decoding_cuts_off_what_is_less_than_a_millisecond() {
    let id = ObjectId::with_entropy(Instant { secs: 5, nanos: 999_999_999 }, &[0; 10]).unwrap();
    assert_eq!(id.decode_expiration(), Ok(Instant { secs: 5, nanos: 999_000_000 }));
    let leap = ObjectId::with_entropy(Instant { secs: 59, nanos: 1_250_000_000 }, &[0; 10]).unwrap();
    assert_eq!(leap.decode_expiration(), Ok(Instant { secs: 60, nanos: 250_000_000 }));
}

#[test]
fn instants_that_do_not_fit_get_no_identifier() {
    let entropy = [0; 10];
    for t in [
        Instant { secs: -1, nanos: 0 },
        Instant { secs: -1, nanos: 999_999_999 },
        Instant { secs: i64::MIN, nanos: 0 },
        Instant { secs: 281_474_976_710, nanos: 656_000_000 },
        Instant { secs: 281_474_976_711, nanos: 0 },
        Instant { secs: i64::MAX, nanos: 0 },
    ] {
        assert_eq!(t.generate_uuidv7(), None, "{t:?}");
        assert_eq!(ObjectId::generate(t), None, "{t:?}");
        assert_eq!(ObjectId::with_entropy(t, &entropy), None, "{t:?}");
    }
    let last = Instant { secs: 281_474_976_710, nanos: 655_999_999 };
    assert_eq!(last.generate_uuidv7().unwrap().get_millis(), (1 << 48) - 1);
}

#[test]
fn other_versions_and_variants_carry_no_expiration() {
    let v4 = ObjectId { bits: 0x550e8400_e29b_41d4_a716_446655440000 };
    assert_eq!(v4.decode_expiration(), Err(InvalidIdentifier::Version));
    let v1 = ObjectId { bits: 0xc232ab00_9414_11ec_b3c8_9f6bdeced846 };
    assert_eq!(v1.decode_expiration(), Err(InvalidIdentifier::Version));
    let v6 = ObjectId { bits: 0x1ec9414c_232a_6b00_b3c8_9f6bdeced846 };
    assert_eq!(v6.decode_expiration(), Err(InvalidIdentifier::Version));
    let nil = ObjectId { bits: 0 };
    assert_eq!(nil.decode_expiration(), Err(InvalidIdentifier::Version));
    let max = ObjectId { bits: u128::MAX };
    assert_eq!(max.decode_expiration(), Err(InvalidIdentifier::Version));
    let other_variant = ObjectId { bits: 0x015cb15a_86d8_7000_c000_000000000000 };
    assert_eq!(other_variant.get_version(), 7);
    assert_eq!(other_variant.get_variant(), 3);
    assert_eq!(other_variant.decode_expiration(), Err(InvalidIdentifier::Version));
    let old_variant = ObjectId { bits: 0x015cb15a_86d8_7000_0000_000000000000 };
    assert_eq!(old_variant.decode_expiration(), Err(InvalidIdentifier::Version));
}

#[test]
fn fields_agree_with_the_uuid_library() {
    for bits in [
        0u128,
        u128::MAX,
        0x550e8400_e29b_41d4_a716_446655440000,
        0x015cb15a_86d8_7abc_9def_0123456789ab,
        0x015cb15a_86d8_7abc_5def_0123456789ab,
        0x015cb15a_86d8_7abc_fdef_0123456789ab,
    ] {
        let ours = ObjectId { bits };
        let theirs = Uuid::from_u128(bits);
        assert_eq!(ours.get_version() as usize, theirs.get_version_num());
        assert_eq!(ours.get_variant() == 2, theirs.get_variant() == Variant::RFC4122);
        assert_eq!(ours.get_millis(), (bits >> 80) as u64);
    }
}

#[test]
fn identifiers_are_written_as_hyphenated_lower_case() {
    let id = ObjectId { bits: 0x015cb15a_86d8_7ABC_9def_0123456789ab };
    assert_eq!(id.to_text(), "015cb15a-86d8-7abc-9def-0123456789ab");
    assert_eq!(ObjectId { bits: 0 }.to_text(), "00000000-0000-0000-0000-000000000000");
}

#[test]
fn identifiers_are_read_in_the_forms_that_uuids_are_written_in() {
    let id = Some(ObjectId { bits: 0x015cb15a_86d8_7abc_9def_0123456789ab });
    assert_eq!(ObjectId::from_text("015cb15a-86d8-7abc-9def-0123456789ab"), id);
    assert_eq!(ObjectId::from_text("015CB15A-86D8-7ABC-9DEF-0123456789AB"), id);
    assert_eq!(ObjectId::from_text("015cb15a86d87abc9def0123456789ab"), id);
    assert_eq!(ObjectId::from_text("{015cb15a-86d8-7abc-9def-0123456789ab}"), id);
    assert_eq!(ObjectId::from_text("urn:uuid:015cb15a-86d8-7abc-9def-0123456789ab"), id);
    assert_eq!(ObjectId::from_text(&id.unwrap().to_text()), id);
}

#[test]
fn other_texts_spell_no_identifier() {
    for text in [
        "",
        "abc",
        "015cb15a-86d8-7abc-9def-0123456789a",
        "015cb15a-86d8-7abc-9def-0123456789abc",
        "015cb15a-86d8-7abc-9def-0123456789ag",
        "015cb15a_86d8_7abc_9def_0123456789ab",
        " 015cb15a-86d8-7abc-9def-0123456789ab",
    ] {
        assert_eq!(ObjectId::from_text(text), None, "{text:?}");
    }
}

#[test]
fn entropy_tells_identifiers_of_one_millisecond_apart() {
    let t = Instant { secs: 1_700_000_000, nanos: 0 };
    let base = [0x12, 0x34, 0x56, 0x78, 0x9a, 0xbc, 0xde, 0xf0, 0x0f, 0xed];
    let id = ObjectId::with_entropy(t, &base).unwrap();
    for place in 0..10 {
        for bit in 0..8 {
            let mut other = base;
            other[place] ^= 1 << bit;
            let dropped = (place == 0 && bit >= 4) || (place == 2 && bit >= 6);
            let made = ObjectId::with_entropy(t, &other).unwrap();
            assert_eq!(made == id, dropped, "byte {place}, bit {bit}");
            assert_eq!(made.decode_expiration(), id.decode_expiration());
        }
    }
}
