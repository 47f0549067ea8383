//! Object identifiers: 128-bit values in the layout of a version 7 UUID,
//! whose leading 48 bits hold the expiration of the object in milliseconds
//! since the Unix epoch.
//!
//! From the top, an identifier holds the 48 bits of the timestamp, the four
//! bits of the version (7), twelve bits that set identifiers of one
//! millisecond apart, the two bits of the variant (binary 10), and 62 more
//! bits of the same kind as the twelve.

use crate::instant::Instant;
use crate::paths::is_plain;
use uuid::Builder;
use uuid::NoContext;
use uuid::Timestamp;
use uuid::Uuid;
use vstd::arithmetic::power::pow;
use vstd::prelude::*;

verus! {

/// Two to the power 48: the first number of milliseconds that no identifier
/// can hold.
pub const MILLIS_LIMIT: u64 = 0x1_0000_0000_0000;

/// The first whole second after the Unix epoch whose milliseconds no
/// identifier can hold.
pub const SECONDS_LIMIT: i64 = 281_474_976_711;

/// Two to the power 80: the weight of the timestamp's lowest bit.
pub const TIMESTAMP_UNIT: u128 = 0x1_0000_0000_0000_0000_0000;

/// Two to the power 76: the weight of the version's lowest bit.
pub const VERSION_UNIT: u128 = 0x1000_0000_0000_0000_0000;

/// Two to the power 62: the weight of the variant's lowest bit.
pub const VARIANT_UNIT: u128 = 0x4000_0000_0000_0000;

/// The version that identifiers carry.
pub const VERSION: u8 = 7;

/// The variant that identifiers carry: binary 10, that of RFC 4122.
pub const VARIANT: u8 = 2;

/// An object identifier, as the 128-bit number that its sixteen bytes spell
/// out, the first byte being the most significant.
#[derive(Clone, Copy, Debug, PartialEq, Eq, Hash, Structural)]
pub struct ObjectId {
    pub bits: u128,
}

/// Why an identifier gives no expiration instant.
#[derive(Clone, Copy, Debug, PartialEq, Eq, Structural)]
pub enum InvalidIdentifier {
    /// The version is not 7, or the variant is not that of RFC 4122.
    Version,
    /// The timestamp is that of no calendar date.
    Timestamp,
}

/// The milliseconds since the Unix epoch that stand for an instant: the
/// instant cut down to whole milliseconds.
pub open spec fn unix_millis(t: Instant) -> int {
    t.secs * 1000 + t.nanos / 1_000_000
}

/// Whether an identifier can hold `t`: `t` lies at or after the Unix epoch
/// and its milliseconds fit into 48 bits.
pub open spec fn encodable(t: Instant) -> bool {
    0 <= t.secs && unix_millis(t) < MILLIS_LIMIT
}

/// The instant that lies `millis` milliseconds after the Unix epoch.
pub open spec fn instant_of_millis(millis: int) -> Instant {
    Instant { secs: (millis / 1000) as i64, nanos: ((millis % 1000) * 1_000_000) as u32 }
}

/// The number that the layout spells out for a timestamp and ten bytes of
/// entropy. Of the first entropy byte the low four bits are used and of the
/// third the low six; the bits they lose make room for the version and the
/// variant.
pub open spec fn layout(millis: int, entropy: Seq<u8>) -> int {
    (millis % 0x1_0000_0000_0000) * 0x1_0000_0000_0000_0000_0000
        + 7 * 0x1000_0000_0000_0000_0000
        + (entropy[0] % 16) * 0x100_0000_0000_0000_0000
        + entropy[1] * 0x1_0000_0000_0000_0000
        + 2 * 0x4000_0000_0000_0000
        + (entropy[2] % 64) * 0x100_0000_0000_0000
        + entropy[3] * 0x1_0000_0000_0000
        + entropy[4] * 0x100_0000_0000
        + entropy[5] * 0x1_0000_0000
        + entropy[6] * 0x100_0000
        + entropy[7] * 0x1_0000
        + entropy[8] * 0x100
        + entropy[9]
}

/// The 128-bit number that `Uuid::try_parse` of uuid reads from a text, the
/// first byte of the UUID being the most significant; `None` for a text that
/// it refuses.
pub uninterp spec fn uuid_parse(text: Seq<char>) -> Option<u128>;

/// The character of one hexadecimal digit, in lower case.
pub open spec fn hex_char(digit: int) -> char {
    if digit < 10 {
        ((48 + digit) as u8) as char
    } else {
        ((87 + digit) as u8) as char
    }
}

/// The 32 hexadecimal digits of a 128-bit number, most significant first.
pub open spec fn hex_digits(bits: u128) -> Seq<char> {
    Seq::new(32, |k: int| hex_char((bits as int / pow(16, (31 - k) as nat)) % 16))
}

/// An identifier as text: its 32 hexadecimal digits in lower case, in groups
/// of 8, 4, 4, 4 and 12 with a `-` between them.
pub open spec fn uuid_text(bits: u128) -> Seq<char> {
    let hex = hex_digits(bits);
    hex.subrange(0, 8) + seq!['-'] + hex.subrange(8, 12) + seq!['-'] + hex.subrange(12, 16)
        + seq!['-'] + hex.subrange(16, 20) + seq!['-'] + hex.subrange(20, 32)
}

/// `Uuid::new_v7` of uuid, on the `Timestamp` that `Timestamp::from_unix`
/// makes without a counter. The bits below the timestamp come from a random
/// source, so two calls differ; the contract claims what the layout fixes:
/// the version, the variant, and the timestamp, which for times that fit into
/// 48 bits is the time in whole milliseconds. Where the operating system
/// hands out no random bytes the call panics; no argument brings that about
/// or keeps it away.
#[verifier::external_body]
fn uuid_new_v7(secs: u64, nanos: u32) -> (bits: u128)
    requires
        secs * 1000 + nanos / 1_000_000 < MILLIS_LIMIT,
    ensures
        (ObjectId { bits }).well_formed(),
        (ObjectId { bits }).millis() == secs * 1000 + nanos / 1_000_000,
{
    Uuid::new_v7(Timestamp::from_unix(NoContext, secs, nanos)).as_u128()
}

/// `Builder::from_unix_timestamp_millis` of uuid: the version 7 UUID of a
/// timestamp and ten given bytes, which the contract claims to be laid out
/// as `layout` says.
#[verifier::external_body]
fn uuid_from_unix_timestamp_millis(millis: u64, entropy: &[u8; 10]) -> (bits: u128)
    ensures
        bits == layout(millis as int, entropy@),
{
    Builder::from_unix_timestamp_millis(millis, entropy).into_uuid().as_u128()
}

/// `Uuid::get_timestamp` of uuid, read through `Timestamp::to_unix`. The
/// contract claims that it finds a timestamp in the versions 1, 6 and 7 only,
/// and that the timestamp of a version 7 UUID is its leading 48 bits, taken as
/// milliseconds and handed out as seconds and nanoseconds.
#[verifier::external_body]
fn uuid_get_timestamp(bits: u128) -> (stamp: Option<(u64, u32)>)
    ensures
        stamp is Some <==> (ObjectId { bits }).version() == 1 || (ObjectId { bits }).version() == 6
            || (ObjectId { bits }).version() == 7,
        (ObjectId { bits }).version() == 7 ==> stamp == Some(
            (
                ((ObjectId { bits }).millis() / 1000) as u64,
                (((ObjectId { bits }).millis() % 1000) * 1_000_000) as u32,
            ),
        ),
{
    match Uuid::from_u128(bits).get_timestamp() {
        Some(stamp) => Some(stamp.to_unix()),
        None => None,
    }
}

/// `Uuid::try_parse` of uuid, with the UUID handed out as a number.
#[verifier::external_body]
fn uuid_try_parse(text: &str) -> (bits: Option<u128>)
    ensures
        bits == uuid_parse(text@),
{
    match Uuid::try_parse(text) {
        Ok(uuid) => Some(uuid.as_u128()),
        Err(_) => None,
    }
}

/// `to_string` of a `Uuid` of uuid: the text that its `Display` writes. The
/// contract claims that this is the hyphenated form in lower case, and that
/// `Uuid::try_parse` reads it back as the UUID that it was written for.
#[verifier::external_body]
fn uuid_to_string(bits: u128) -> (text: String)
    ensures
        text@ == uuid_text(bits),
        uuid_parse(text@) == Some(bits),
{
    Uuid::from_u128(bits).to_string()
}

/// The milliseconds since the Unix epoch that stand for `t`, where an
/// identifier can hold them.
pub fn get_unix_millis(t: Instant) -> (millis: Option<u64>)
    ensures
        millis == if encodable(t) {
            Some(unix_millis(t) as u64)
        } else {
            None::<u64>
        },
{
    if t.secs < 0 || t.secs >= SECONDS_LIMIT {
        return None;
    }
    let millis: u64 = t.secs as u64 * 1000 + (t.nanos / 1_000_000) as u64;
    if millis >= MILLIS_LIMIT {
        None
    } else {
        Some(millis)
    }
}

impl ObjectId {
    /// The timestamp: the leading 48 bits.
    pub open spec fn millis(self) -> int {
        self.bits as int / TIMESTAMP_UNIT as int
    }

    /// The version: the four bits below the timestamp.
    pub open spec fn version(self) -> int {
        (self.bits as int / VERSION_UNIT as int) % 16
    }

    /// The variant: the two leading bits of the lower half.
    pub open spec fn variant(self) -> int {
        (self.bits as int / VARIANT_UNIT as int) % 4
    }

    /// Whether the identifier has the version and the variant that
    /// identifiers carry.
    pub open spec fn well_formed(self) -> bool {
        self.version() == VERSION && self.variant() == VARIANT
    }

    /// The expiration instant that the identifier carries, or the reason
    /// why it carries none.
    pub open spec fn decoded(self) -> Result<Instant, InvalidIdentifier> {
        if self.well_formed() {
            Ok(instant_of_millis(self.millis()))
        } else {
            Err(InvalidIdentifier::Version)
        }
    }

    /// The timestamp: the leading 48 bits.
    pub fn get_millis(&self) -> (millis: u64)
        ensures
            millis == self.millis(),
            millis < MILLIS_LIMIT,
    {
        (self.bits / TIMESTAMP_UNIT) as u64
    }

    /// The version: the four bits below the timestamp.
    pub fn get_version(&self) -> (version: u8)
        ensures
            version == self.version(),
    {
        ((self.bits / VERSION_UNIT) % 16) as u8
    }

    /// The variant: the two leading bits of the lower half.
    pub fn get_variant(&self) -> (variant: u8)
        ensures
            variant == self.variant(),
    {
        ((self.bits / VARIANT_UNIT) % 4) as u8
    }

    /// The identifier that a text spells, in any of the forms that UUIDs are
    /// written in; `None` for any other text.
    pub fn from_text(text: &str) -> (id: Option<ObjectId>)
        ensures
            id == match uuid_parse(text@) {
                Some(bits) => Some(ObjectId { bits }),
                None => None,
            },
    {
        match uuid_try_parse(text) {
            Some(bits) => Some(ObjectId { bits }),
            None => None,
        }
    }

    /// Whether the text of the identifier spells the identifier.
    pub open spec fn reads_back(self) -> bool {
        uuid_parse(uuid_text(self.bits)) == Some(self.bits)
    }

    /// The identifier as text, which spells the identifier.
    pub fn to_text(&self) -> (text: String)
        ensures
            text@ == uuid_text(self.bits),
            self.reads_back(),
    {
        uuid_to_string(self.bits)
    }

    /// The expiration instant that the identifier carries. An identifier
    /// of another version or variant is refused; a well-formed one always
    /// carries an instant, as 48 bits of milliseconds never leave the
    /// calendar.
    pub fn decode_expiration(&self) -> (expiration: Result<Instant, InvalidIdentifier>)
        ensures
            expiration == self.decoded(),
            self.well_formed() ==> expiration is Ok && expiration->Ok_0.valid(),
    {
        if self.get_version() != VERSION || self.get_variant() != VARIANT {
            return Err(InvalidIdentifier::Version);
        }
        match uuid_get_timestamp(self.bits) {
            None => Err(InvalidIdentifier::Version),
            Some((secs, nanos)) => match Instant::from_timestamp(secs as i64, nanos) {
                Some(expiration) => Ok(expiration),
                None => Err(InvalidIdentifier::Timestamp),
            },
        }
    }

    /// A new identifier that expires at `expiration`, cut down to whole
    /// milliseconds, with bits for uniqueness from the random source of the
    /// UUID library. `None` where no identifier can hold `expiration`.
    pub fn generate(expiration: Instant) -> (id: Option<ObjectId>)
        ensures
            id is Some <==> encodable(expiration),
            id matches Some(minted) ==> minted.well_formed() && minted.millis() == unix_millis(
                expiration,
            ),
    {
        match get_unix_millis(expiration) {
            Some(_) => Some(ObjectId { bits: uuid_new_v7(expiration.secs as u64, expiration.nanos) }),
            None => None,
        }
    }

    /// The identifier that expires at `expiration`, cut down to whole
    /// milliseconds, with the given bytes for uniqueness, laid out as `layout`
    /// says. `None` where no identifier can hold `expiration`.
    pub fn with_entropy(expiration: Instant, entropy: &[u8; 10]) -> (id: Option<ObjectId>)
        ensures
            id == if encodable(expiration) {
                Some(ObjectId { bits: layout(unix_millis(expiration), entropy@) as u128 })
            } else {
                None::<ObjectId>
            },
            id matches Some(minted) ==> minted.well_formed() && minted.millis() == unix_millis(
                expiration,
            ),
    {
        match get_unix_millis(expiration) {
            Some(millis) => {
                let bits = uuid_from_unix_timestamp_millis(millis, entropy);
                proof {
                    lemma_layout(millis as int, entropy@);
                }
                Some(ObjectId { bits })
            },
            None => None,
        }
    }
}

/// Decoding undoes encoding, up to the resolution of the timestamp: an
/// identifier made for `t` gives back `t` cut down to whole milliseconds, and
/// so `t` itself where `t` holds whole milliseconds only. Outside a leap
/// second the seconds come back unchanged, and what is cut off is the
/// nanoseconds past the last millisecond.
pub proof fn lemma_decode_inverts_encode(t: Instant, id: ObjectId)
    requires
        encodable(t),
        id.well_formed(),
        id.millis() == unix_millis(t),
    ensures
        id.decoded() == Ok::<Instant, InvalidIdentifier>(instant_of_millis(unix_millis(t))),
        unix_millis(instant_of_millis(unix_millis(t))) == unix_millis(t),
        t.nanos < 1_000_000_000 ==> instant_of_millis(unix_millis(t)) == (Instant {
            secs: t.secs,
            nanos: (t.nanos - t.nanos % 1_000_000) as u32,
        }),
        t.nanos < 1_000_000_000 && t.nanos % 1_000_000 == 0 ==> id.decoded() == Ok::<
            Instant,
            InvalidIdentifier,
        >(t),
{
}

/// The text of an identifier is 36 characters long and plain: it holds
/// hexadecimal digits and `-`, and so neither `.` nor `/`.
pub proof fn lemma_uuid_text_is_plain(bits: u128)
    ensures
        uuid_text(bits).len() == 36,
        is_plain(uuid_text(bits)),
{
    let hex = hex_digits(bits);
    let text = uuid_text(bits);
    assert forall|k: int| 0 <= k < 32 implies #[trigger] hex[k] != '.' && hex[k] != '/' by {
        let digit = (bits as int / pow(16, (31 - k) as nat)) % 16;
        assert(0 <= digit < 16);
        assert(hex[k] == hex_char(digit));
    }
    assert forall|i: int| 0 <= i < text.len() implies #[trigger] text[i] != '.' && text[i]
        != '/' by {
        if i < 8 {
            assert(text[i] == hex[i]);
        } else if i == 8 {
        } else if i < 13 {
            assert(text[i] == hex[i - 1]);
        } else if i == 13 {
        } else if i < 18 {
            assert(text[i] == hex[i - 2]);
        } else if i == 18 {
        } else if i < 23 {
            assert(text[i] == hex[i - 3]);
        } else if i == 23 {
        } else {
            assert(text[i] == hex[i - 4]);
        }
    }
}

/// Identifiers sort by their expiration: of two identifiers, the one that
/// expires at the earlier millisecond is the smaller number, whatever their
/// other bits.
pub proof fn lemma_identifiers_sort_by_expiration(earlier: ObjectId, later: ObjectId)
    requires
        earlier.millis() < later.millis(),
    ensures
        earlier.bits < later.bits,
{
}

/// A number that is written as digits to a base holds each digit in its
/// place: where `below` is what stands below a digit and `above` what
/// stands above it, dividing by the weight of the digit and taking what is
/// left to the base gives the digit.
proof fn lemma_digit_in_place(x: int, unit: int, base: int, above: int, digit: int, below: int)
    requires
        unit > 0,
        base > 0,
        0 <= digit < base,
        0 <= below < unit,
        x == (above * base + digit) * unit + below,
    ensures
        (x / unit) % base == digit,
{
    vstd::arithmetic::div_mod::lemma_fundamental_div_mod_converse_div(
        x,
        unit,
        above * base + digit,
        below,
    );
    vstd::arithmetic::div_mod::lemma_fundamental_div_mod_converse_mod(
        x / unit,
        base,
        above,
        digit,
    );
}

/// The layout keeps the entropy that it uses in places of its own: each of
/// the bytes, and of the first and the third what is used of them, is read
/// off the number that the layout spells out.
pub proof fn lemma_layout_keeps_entropy(millis: int, entropy: Seq<u8>)
    requires
        0 <= millis,
        entropy.len() == 10,
    ensures
        (layout(millis, entropy) / 0x100_0000_0000_0000_0000) % 16 == entropy[0] % 16,
        (layout(millis, entropy) / 0x1_0000_0000_0000_0000) % 256 == entropy[1],
        (layout(millis, entropy) / 0x100_0000_0000_0000) % 64 == entropy[2] % 64,
        (layout(millis, entropy) / 0x1_0000_0000_0000) % 256 == entropy[3],
        (layout(millis, entropy) / 0x100_0000_0000) % 256 == entropy[4],
        (layout(millis, entropy) / 0x1_0000_0000) % 256 == entropy[5],
        (layout(millis, entropy) / 0x100_0000) % 256 == entropy[6],
        (layout(millis, entropy) / 0x1_0000) % 256 == entropy[7],
        (layout(millis, entropy) / 0x100) % 256 == entropy[8],
        layout(millis, entropy) % 256 == entropy[9],
{
    let x = layout(millis, entropy);
    let e0 = (entropy[0] % 16) as int;
    let e2 = (entropy[2] % 64) as int;
    let b9 = entropy[9] as int;
    let b8 = entropy[8] * 0x100 + b9;
    let b7 = entropy[7] * 0x1_0000 + b8;
    let b6 = entropy[6] * 0x100_0000 + b7;
    let b5 = entropy[5] * 0x1_0000_0000 + b6;
    let b4 = entropy[4] * 0x100_0000_0000 + b5;
    let b3 = entropy[3] * 0x1_0000_0000_0000 + b4;
    let b2 = e2 * 0x100_0000_0000_0000 + b3;
    let b1 = entropy[1] * 0x1_0000_0000_0000_0000 + 2 * 0x4000_0000_0000_0000 + b2;
    let a0 = (millis % 0x1_0000_0000_0000) * 16 + 7;
    let a1 = a0 * 16 + e0;
    let a2 = (a1 * 256 + entropy[1]) * 4 + 2;
    let a3 = a2 * 64 + e2;
    let a4 = a3 * 256 + entropy[3];
    let a5 = a4 * 256 + entropy[4];
    let a6 = a5 * 256 + entropy[5];
    let a7 = a6 * 256 + entropy[6];
    let a8 = a7 * 256 + entropy[7];
    let a9 = a8 * 256 + entropy[8];
    lemma_digit_in_place(x, 0x100_0000_0000_0000_0000, 16, a0, e0, b1);
    lemma_digit_in_place(x, 0x1_0000_0000_0000_0000, 256, a1, entropy[1] as int, 2 * 0x4000_0000_0000_0000 + b2);
    lemma_digit_in_place(x, 0x100_0000_0000_0000, 64, a2, e2, b3);
    lemma_digit_in_place(x, 0x1_0000_0000_0000, 256, a3, entropy[3] as int, b4);
    lemma_digit_in_place(x, 0x100_0000_0000, 256, a4, entropy[4] as int, b5);
    lemma_digit_in_place(x, 0x1_0000_0000, 256, a5, entropy[5] as int, b6);
    lemma_digit_in_place(x, 0x100_0000, 256, a6, entropy[6] as int, b7);
    lemma_digit_in_place(x, 0x1_0000, 256, a7, entropy[7] as int, b8);
    lemma_digit_in_place(x, 0x100, 256, a8, entropy[8] as int, b9);
    lemma_digit_in_place(x, 1, 256, a9, entropy[9] as int, 0);
}

/// Identifiers of one millisecond are told apart by their entropy: two that
/// are equal were made from entropy that is equal wherever the layout uses
/// it, which is everywhere but in the high four bits of the first byte and
/// the high two bits of the third.
pub proof fn lemma_entropy_tells_apart(millis: int, one: Seq<u8>, other: Seq<u8>)
    requires
        0 <= millis,
        one.len() == 10,
        other.len() == 10,
        layout(millis, one) == layout(millis, other),
    ensures
        one[0] % 16 == other[0] % 16,
        one[1] == other[1],
        one[2] % 64 == other[2] % 64,
        forall|i: int| 3 <= i < 10 ==> one[i] == other[i],
{
    lemma_layout_keeps_entropy(millis, one);
    lemma_layout_keeps_entropy(millis, other);
}

/// What the layout spells out fits into 128 bits and holds the version, the
/// variant and the timestamp in their places.
pub proof fn lemma_layout(millis: int, entropy: Seq<u8>)
    requires
        0 <= millis,
        entropy.len() == 10,
    ensures
        0 <= layout(millis, entropy) <= u128::MAX,
        (ObjectId { bits: layout(millis, entropy) as u128 }).well_formed(),
        (ObjectId { bits: layout(millis, entropy) as u128 }).millis() == millis % 0x1_0000_0000_0000,
{
    let stamp = millis % 0x1_0000_0000_0000;
    let high = (entropy[0] % 16) * 256 + entropy[1];
    let low = (entropy[2] % 64) * 0x100_0000_0000_0000 + entropy[3] * 0x1_0000_0000_0000
        + entropy[4] * 0x100_0000_0000 + entropy[5] * 0x1_0000_0000 + entropy[6] * 0x100_0000
        + entropy[7] * 0x1_0000 + entropy[8] * 0x100 + entropy[9];
    let bits = layout(millis, entropy);
    let below_version = high * 0x1_0000_0000_0000_0000 + 2 * 0x4000_0000_0000_0000 + low;
    let below_stamp = 7 * 0x1000_0000_0000_0000_0000 + below_version;
    vstd::arithmetic::div_mod::lemma_fundamental_div_mod_converse_div(
        bits,
        0x1_0000_0000_0000_0000_0000,
        stamp,
        below_stamp,
    );
    vstd::arithmetic::div_mod::lemma_fundamental_div_mod_converse_div(
        bits,
        0x1000_0000_0000_0000_0000,
        stamp * 16 + 7,
        below_version,
    );
    vstd::arithmetic::div_mod::lemma_fundamental_div_mod_converse_div(
        bits,
        0x4000_0000_0000_0000,
        stamp * 0x4_0000 + 7 * 0x4000 + high * 4 + 2,
        low,
    );
}

} // verus!
