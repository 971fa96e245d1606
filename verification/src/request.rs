//! Write requests and their validation against the panel's geometry.

use validator::{validate_length, Validator};
use vstd::prelude::*;

verus! {

/// Highest cursor offset that a write may name.
pub const MAX_POSITION: u8 = 40;

/// Most characters that a write may carry.
pub const MAX_LENGTH: u64 = 40;

/// Reason given when the cursor offset is out of range.
pub const POSITION_REASON: &'static str = "position not in range 0-40";

/// Reason given when the text is too long.
pub const STRING_REASON: &'static str = "string length > 40 characters";

/// A request to write `string` starting at cursor offset `position`.
#[derive(Debug, PartialEq, Eq)]
pub struct Msg {
    pub position: u8,
    pub string: String,
}

/// What validation found wrong with a request, per field: the reason where
/// the field failed, nothing where it passed.
pub struct Findings {
    pub position: Option<Seq<char>>,
    pub string: Option<Seq<char>>,
}

/// The fields of a request that failed validation, each with its reason.
/// At least one field is named.
#[derive(Debug, PartialEq, Eq)]
pub enum ValidationFailure {
    /// Only the cursor offset failed.
    Position { reason: String },
    /// Only the text failed.
    Text { reason: String },
    /// Both failed.
    Both { position: String, string: String },
}

impl View for ValidationFailure {
    type V = Findings;

    open spec fn view(&self) -> Findings {
        match *self {
            ValidationFailure::Position { reason } => Findings {
                position: Some(reason@),
                string: None,
            },
            ValidationFailure::Text { reason } => Findings {
                position: None,
                string: Some(reason@),
            },
            ValidationFailure::Both { position, string } => Findings {
                position: Some(position@),
                string: Some(string@),
            },
        }
    }
}

/// Whether a cursor offset lies on the panel.
pub open spec fn position_in_range(position: int) -> bool {
    0 <= position <= MAX_POSITION
}

/// Whether a text is short enough, counted in characters.
pub open spec fn length_in_range(string: Seq<char>) -> bool {
    string.len() <= MAX_LENGTH
}

/// The findings for a request with the given offset and text. The two
/// checks do not depend on each other.
pub open spec fn findings(position: int, string: Seq<char>) -> Findings {
    Findings {
        position: if position_in_range(position) {
            None
        } else {
            Some(POSITION_REASON@)
        },
        string: if length_in_range(string) {
            None
        } else {
            Some(STRING_REASON@)
        },
    }
}

/// Findings that name no field.
pub open spec fn clean() -> Findings {
    Findings { position: None, string: None }
}

/// Calls `validator::validate_length` with an upper bound and no other
/// limit. For a `&str` that function counts `chars()`, and with only `max`
/// set it answers whether the count is at most `max`.
#[verifier::external_body]
fn length_at_most(text: &str, max: u64) -> (ok: bool)
    ensures
        ok == (text@.len() <= max),
{
    validate_length(Validator::Length { min: None, max: Some(max), equal: None }, text)
}

impl Findings {
    /// The reason of the first field that failed, the cursor offset coming
    /// before the text.
    pub open spec fn first(self) -> Option<Seq<char>> {
        if self.position is Some {
            self.position
        } else {
            self.string
        }
    }
}

impl ValidationFailure {
    /// The reason of the first field that failed, the cursor offset coming
    /// before the text.
    pub open spec fn first_reason(self) -> String {
        match self {
            ValidationFailure::Position { reason } => reason,
            ValidationFailure::Text { reason } => reason,
            ValidationFailure::Both { position, string } => position,
        }
    }

    /// Gives up the failure for the reason of its first field.
    pub fn into_first_reason(self) -> (reason: String)
        ensures
            reason == self.first_reason(),
            Some(reason@) == self@.first(),
    {
        match self {
            ValidationFailure::Position { reason } => reason,
            ValidationFailure::Text { reason } => reason,
            ValidationFailure::Both { position, string: _ } => position,
        }
    }
}

impl Msg {
    /// A request for `string` at cursor offset `position`, not yet validated.
    pub fn new(position: u8, string: String) -> (msg: Msg)
        ensures
            msg.position == position,
            msg.string == string,
    {
        Msg { position, string }
    }

    /// Whether the request respects the panel's geometry.
    pub open spec fn valid(&self) -> bool {
        findings(self.position as int, self.string@) == clean()
    }

    /// Checks the cursor offset, then the text length. Succeeds exactly when
    /// both pass; otherwise reports every field that failed.
    pub fn validate(&self) -> (r: Result<(), ValidationFailure>)
        ensures
            r is Ok <==> self.valid(),
            r matches Err(e) ==> e@ == findings(self.position as int, self.string@),
    {
        let position_ok = self.position <= MAX_POSITION;
        let string_ok = length_at_most(self.string.as_str(), MAX_LENGTH);
        if position_ok && string_ok {
            Ok(())
        } else if string_ok {
            Err(ValidationFailure::Position { reason: POSITION_REASON.to_owned() })
        } else if position_ok {
            Err(ValidationFailure::Text { reason: STRING_REASON.to_owned() })
        } else {
            Err(
                ValidationFailure::Both {
                    position: POSITION_REASON.to_owned(),
                    string: STRING_REASON.to_owned(),
                },
            )
        }
    }
}

/// A cursor offset from 0 to 40 passes the position check whatever the text
/// is, and with an empty text the whole request passes.
pub proof fn position_in_range_passes(position: int, string: Seq<char>)
    requires
        0 <= position <= 40,
    ensures
        findings(position, string).position is None,
        findings(position, Seq::<char>::empty()) == clean(),
{
}

/// A cursor offset outside 0 to 40 fails validation whatever the text is,
/// and the failure names the position with its reason.
pub proof fn position_out_of_range_is_named(position: int, string: Seq<char>)
    requires
        position < 0 || position > 40,
    ensures
        findings(position, string) != clean(),
        findings(position, string).position == Some("position not in range 0-40"@),
        findings(position, string).first() == Some("position not in range 0-40"@),
{
}

/// A text of more than 40 characters fails validation whatever the cursor
/// offset is, and the failure names the string with its reason; a text of
/// up to 40 characters passes the length check.
pub proof fn length_decides_string_check(position: int, string: Seq<char>)
    ensures
        string.len() > 40 ==> findings(position, string) != clean() && findings(
            position,
            string,
        ).string == Some("string length > 40 characters"@),
        string.len() <= 40 ==> findings(position, string).string is None,
{
}

} // verus!
