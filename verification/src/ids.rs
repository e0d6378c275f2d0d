//! Identifiers and instants as the dashboard shows them: UUIDs through the
//! `uuid` crate, UTC instants through `chrono`.
use vstd::prelude::*;
use vstd::arithmetic::power::pow;
use crate::text::first_chars;

verus! {

/// The lower-case hexadecimal digit for `d` (which is below sixteen).
pub open spec fn hex_digit(d: nat) -> char {
    if d < 10 {
        (48 + d) as char
    } else {
        (87 + d) as char
    }
}

/// The 32 hexadecimal digits of a 128-bit value, most significant first.
pub open spec fn hex32(v: nat) -> Seq<char> {
    Seq::new(32, |k: int| hex_digit(((v / pow(16, (31 - k) as nat) as nat) % 16) as nat))
}

/// The hyphenated UUID form `xxxxxxxx-xxxx-xxxx-xxxx-xxxxxxxxxxxx` of a
/// 128-bit value whose bytes are taken in big-endian order.
pub open spec fn hyphenated(v: nat) -> Seq<char> {
    let h = hex32(v);
    h.subrange(0, 8) + seq!['-'] + h.subrange(8, 12) + seq!['-'] + h.subrange(12, 16) + seq!['-']
        + h.subrange(16, 20) + seq!['-'] + h.subrange(20, 32)
}

/// `uuid::Uuid::from_u128(value).to_string()`. The `uuid` crate builds the
/// UUID from the value's big-endian bytes and its `Display` writes the
/// lower-case hyphenated form; the contract claims exactly that text.
#[verifier::external_body]
fn uuid_text(value: u128) -> (out: String)
    ensures
        out@ == hyphenated(value as nat),
{
    uuid::Uuid::from_u128(value).to_string()
}

/// The full hyphenated text of a UUID.
pub fn uuid_string(value: u128) -> (out: String)
    ensures
        out@ == hyphenated(value as nat),
{
    uuid_text(value)
}

/// The first eight characters of a UUID's text: its first eight hex digits.
pub fn short_uuid(value: u128) -> (out: String)
    ensures
        out@ == hex32(value as nat).subrange(0, 8),
{
    let full = uuid_text(value);
    let out = first_chars(full.as_str(), 8);
    assert(out@ =~= hex32(value as nat).subrange(0, 8));
    out
}

/// Whether `chrono::DateTime::<Utc>::from_timestamp(secs, 0)` yields an instant.
pub uninterp spec fn chrono_accepts(secs: int) -> bool;

/// The text that `chrono` formats with `"%Y-%m-%d %H:%M UTC"` for the instant
/// `secs` seconds after the Unix epoch.
pub uninterp spec fn utc_minute_text(secs: int) -> Seq<char>;

/// `chrono::DateTime::<Utc>::from_timestamp(secs, 0)` followed by
/// `format("%Y-%m-%d %H:%M UTC").to_string()`. The contract claims that an
/// instant is produced exactly when `chrono_accepts(secs)` (chrono refuses
/// seconds outside its calendar range) and that the text is the one named by
/// `utc_minute_text(secs)`; what that text is, is not stated here.
#[verifier::external_body]
fn format_utc_minute(secs: i64) -> (out: Option<String>)
    ensures
        out is Some <==> chrono_accepts(secs as int),
        out matches Some(t) ==> t@ == utc_minute_text(secs as int),
{
    match chrono::DateTime::<chrono::Utc>::from_timestamp(secs, 0) {
        Some(t) => Some(t.format("%Y-%m-%d %H:%M UTC").to_string()),
        None => None,
    }
}

/// An instant that `chrono` can represent, kept as whole seconds since the
/// Unix epoch together with its minute-precision label.
#[derive(Debug)]
pub struct UtcTimestamp {
    secs: i64,
    label: String,
}

impl UtcTimestamp {
    #[verifier::type_invariant]
    spec fn well_formed(self) -> bool {
        &&& chrono_accepts(self.secs as int)
        &&& self.label@ == utc_minute_text(self.secs as int)
    }

    /// Seconds since the Unix epoch.
    pub closed spec fn seconds(self) -> int {
        self.secs as int
    }

    /// The instant `secs` seconds after the Unix epoch, or `None` where
    /// `chrono` cannot represent it.
    pub fn from_unix_seconds(secs: i64) -> (out: Option<UtcTimestamp>)
        ensures
            out is Some <==> chrono_accepts(secs as int),
            out matches Some(t) ==> t.seconds() == secs,
    {
        match format_utc_minute(secs) {
            Some(label) => Some(UtcTimestamp { secs, label }),
            None => None,
        }
    }

    /// Seconds since the Unix epoch.
    pub fn unix_seconds(&self) -> (out: i64)
        ensures
            out == self.seconds(),
    {
        self.secs
    }

    /// `YYYY-MM-DD HH:MM UTC`, as `chrono` formats it.
    pub fn label(&self) -> (out: String)
        ensures
            out@ == utc_minute_text(self.seconds()),
    {
        proof {
            use_type_invariant(self);
        }
        self.label.clone()
    }
}


/// The short form of a UUID is the start of its full text: the eight
/// characters before the first hyphen.
pub proof fn short_uuid_is_prefix_of_text(value: u128)
    ensures
        hex32(value as nat).subrange(0, 8) == hyphenated(value as nat).subrange(0, 8),
        hyphenated(value as nat).len() == 36,
        hyphenated(value as nat)[8] == '-',
{
    assert(hex32(value as nat).subrange(0, 8) =~= hyphenated(value as nat).subrange(0, 8));
}

} // verus!
