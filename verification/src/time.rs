use vstd::prelude::*;

verus! {

/// Microseconds of -262143-01-01T00:00:00Z, chrono's first instant.
pub const CHRONO_MIN_MICROS: i64 = -8334601228800000000;

/// Microseconds of +262142-12-31T23:59:59.999999Z, chrono's last instant at that precision.
pub const CHRONO_MAX_MICROS: i64 = 8210266876799999999;

/// Whether chrono can represent this many microseconds since the Unix epoch as a UTC
/// date-time: years from -262143 to 262142.
pub open spec fn chrono_micros_in_range(micros: int) -> bool {
    CHRONO_MIN_MICROS <= micros <= CHRONO_MAX_MICROS
}

/// The RFC 3339 text that chrono writes for this many microseconds since the Unix epoch.
pub uninterp spec fn chrono_rfc3339(micros: int) -> Seq<char>;

/// What chrono's `FromStr` for `DateTime<Utc>` reads from a text, in whole microseconds since
/// the Unix epoch, or `None` when it rejects the text.
pub uninterp spec fn chrono_parse_utc(text: Seq<char>) -> Option<int>;

/// What chrono's `DateTime::parse_from_rfc3339` reads from a text, in whole microseconds
/// since the Unix epoch, or `None` when it rejects the text.
pub uninterp spec fn chrono_rfc3339_micros(text: Seq<char>) -> Option<int>;

/// Whether `chrono::DateTime::<Utc>::from_timestamp_micros` accepts `micros`. The contract
/// claims chrono's range: `NaiveDate` holds the years `MIN_YEAR = -262143` to
/// `MAX_YEAR = 262142`, and `from_timestamp` accepts exactly the days between them.
#[verifier::external_body]
fn chrono_accepts_micros(micros: i64) -> (accepted: bool)
    ensures
        accepted == chrono_micros_in_range(micros as int),
{
    chrono::DateTime::<chrono::Utc>::from_timestamp_micros(micros).is_some()
}

/// `chrono::DateTime::to_rfc3339` of the UTC instant `micros`. The contract claims that
/// the text is chrono's, and that chrono's `FromStr` reads back the same instant:
/// `write_rfc3339` writes a year in `0..=9999` as four digits and any other year with an
/// explicit sign (`{year:+05}`), which the relaxed RFC 3339 parser reads back at any width;
/// `AutoSi` writes every non-zero sub-second digit; the offset is `+00:00`; and an instant
/// made by `from_timestamp_micros` is never a leap second.
#[verifier::external_body]
fn chrono_to_rfc3339(micros: i64) -> (text: String)
    requires
        chrono_micros_in_range(micros as int),
    ensures
        text@ == chrono_rfc3339(micros as int),
        chrono_parse_utc(text@) == Some(micros as int),
{
    match chrono::DateTime::<chrono::Utc>::from_timestamp_micros(micros) {
        Some(time) => time.to_rfc3339(),
        None => String::new(),
    }
}

/// `text.parse::<chrono::DateTime<Utc>>()` in whole microseconds (`timestamp_micros`). The
/// contract claims only that the answer is chrono's; it says nothing of whether
/// `from_timestamp_micros` accepts the result (a leap second at the end of chrono's range
/// counts into the next second, which it does not).
#[verifier::external_body]
pub(crate) fn chrono_parse_rfc3339(text: &str) -> (micros: Option<i64>)
    ensures
        micros is None <==> chrono_parse_utc(text@) is None,
        micros matches Some(m) ==> chrono_parse_utc(text@) == Some(m as int),
{
    match text.parse::<chrono::DateTime<chrono::Utc>>() {
        Ok(time) => Some(time.timestamp_micros()),
        Err(_) => None,
    }
}

/// `chrono::DateTime::parse_from_rfc3339(text)` in whole microseconds since the Unix epoch.
/// The contract claims only that the answer is chrono's.
#[verifier::external_body]
pub(crate) fn chrono_parse_from_rfc3339(text: &str) -> (micros: Option<i64>)
    ensures
        micros is None <==> chrono_rfc3339_micros(text@) is None,
        micros matches Some(m) ==> chrono_rfc3339_micros(text@) == Some(m as int),
{
    chrono::DateTime::parse_from_rfc3339(text).ok().map(|time| time.timestamp_micros())
}

/// A UTC instant with microsecond precision that chrono can represent.
#[derive(Clone, Copy, Debug)]
pub struct Timestamp {
    micros: i64,
}

impl Timestamp {
    #[verifier::type_invariant]
    spec fn representable(self) -> bool {
        chrono_micros_in_range(self.micros as int)
    }

    /// Microseconds since the Unix epoch.
    pub closed spec fn micros_spec(self) -> i64 {
        self.micros
    }

    /// The instant `micros` microseconds after the Unix epoch, when chrono can represent it.
    pub fn from_micros(micros: i64) -> (t: Option<Timestamp>)
        ensures
            t is Some <==> chrono_micros_in_range(micros as int),
            t matches Some(t) ==> t.micros_spec() == micros,
    {
        if chrono_accepts_micros(micros) {
            Some(Timestamp { micros })
        } else {
            None
        }
    }

    /// Microseconds since the Unix epoch.
    pub fn micros(&self) -> (m: i64)
        ensures
            m == self.micros_spec(),
            chrono_micros_in_range(m as int),
    {
        proof {
            use_type_invariant(self);
        }
        self.micros
    }

    /// The RFC 3339 text of this instant.
    pub fn to_rfc3339(&self) -> (text: String)
        ensures
            text@ == chrono_rfc3339(self.micros_spec() as int),
            chrono_parse_utc(text@) == Some(self.micros_spec() as int),
    {
        proof {
            use_type_invariant(self);
        }
        chrono_to_rfc3339(self.micros)
    }

    /// Reads an RFC 3339 date-time whose instant is representable in microseconds.
    pub fn parse(text: &str) -> (t: Option<Timestamp>)
        ensures
            t is Some <==> (chrono_parse_utc(text@) matches Some(m) && chrono_micros_in_range(m)),
            t matches Some(t) ==> chrono_parse_utc(text@) == Some(t.micros_spec() as int),
    {
        match chrono_parse_rfc3339(text) {
            Some(micros) => if chrono_accepts_micros(micros) {
                Some(Timestamp { micros })
            } else {
                None
            },
            None => None,
        }
    }
}

/// Whether a microsecond count names a representable instant.
pub fn micros_representable(micros: i64) -> (r: bool)
    ensures
        r == chrono_micros_in_range(micros as int),
{
    chrono_accepts_micros(micros)
}

} // verus!
