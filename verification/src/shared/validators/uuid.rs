use vstd::prelude::*;


verus! {

#[verifier::external_type_specification]
#[verifier::external_body]
pub struct ExValidationError(::validator::ValidationError);

/// A hexadecimal digit, in either case.
pub open spec fn is_hex_digit(c: char) -> bool {
    ('0' <= c <= '9') || ('a' <= c <= 'f') || ('A' <= c <= 'F')
}

/// Where the hyphens of the hyphenated form stand.
pub open spec fn is_hyphen_position(i: int) -> bool {
    i == 8 || i == 13 || i == 18 || i == 23
}

/// 32 hexadecimal digits.
pub open spec fn is_simple_uuid(s: Seq<char>) -> bool {
    s.len() == 32 && forall|i: int| 0 <= i < 32 ==> is_hex_digit(#[trigger] s[i])
}

/// 36 characters: hexadecimal digits in groups of 8, 4, 4, 4 and 12, joined
/// by hyphens.
pub open spec fn is_hyphenated_uuid(s: Seq<char>) -> bool {
    s.len() == 36 && forall|i: int|
        0 <= i < 36 ==> if is_hyphen_position(i) {
            #[trigger] s[i] == '-'
        } else {
            is_hex_digit(s[i])
        }
}

/// The text starts with `urn:uuid:`, its letters in either case.
pub open spec fn is_urn_prefix(s: Seq<char>) -> bool {
    &&& s.len() >= 9
    &&& s[0] == 'u' || s[0] == 'U'
    &&& s[1] == 'r' || s[1] == 'R'
    &&& s[2] == 'n' || s[2] == 'N'
    &&& s[3] == ':'
    &&& s[4] == 'u' || s[4] == 'U'
    &&& s[5] == 'u' || s[5] == 'U'
    &&& s[6] == 'i' || s[6] == 'I'
    &&& s[7] == 'd' || s[7] == 'D'
    &&& s[8] == ':'
}

/// The texts that `uuid::Uuid::parse_str` accepts: the simple form, the
/// hyphenated form, the hyphenated form in braces, and `urn:uuid:` followed
/// by the hyphenated form.
pub open spec fn is_uuid_text(s: Seq<char>) -> bool {
    ||| is_simple_uuid(s)
    ||| is_hyphenated_uuid(s)
    ||| s.len() == 38 && s[0] == '{' && s[37] == '}' && is_hyphenated_uuid(s.subrange(1, 37))
    ||| s.len() == 45 && is_urn_prefix(s) && is_hyphenated_uuid(s.subrange(9, 45))
}

/// Calls `uuid::Uuid::parse_str` and tells whether it succeeded. Its source
/// (`try_parse` in `parser.rs`) accepts exactly the four forms of
/// `is_uuid_text`: a text of 32, 36, 38 or 45 bytes in that shape, hex digits
/// in either case. Each accepted text is ASCII, so its bytes are its
/// characters.
#[verifier::external_body]
fn parses_as_uuid(text: &str) -> (r: bool)
    ensures
        r == is_uuid_text(text@),
{
    ::uuid::Uuid::parse_str(text).is_ok()
}

/// Calls `validator::ValidationError::new`, which makes an error with the
/// given code, no message and no parameters. Nothing of the error is stated.
#[verifier::external_body]
fn validation_error(code: &'static str) -> (r: ::validator::ValidationError) {
    ::validator::ValidationError::new(code)
}

/// Why a field was refused.
#[derive(Debug, Clone, Copy, PartialEq, Eq, Structural)]
pub enum FieldError {
    /// The text is not a UUID.
    InvalidUuid,
}

impl FieldError {
    /// The code that names the refusal.
    pub open spec fn code_text(self) -> Seq<char> {
        match self {
            FieldError::InvalidUuid => "Invalid UUID"@,
        }
    }

    /// The code that names the refusal.
    pub fn code(&self) -> (r: &'static str)
        ensures
            r@ == self.code_text(),
    {
        match self {
            FieldError::InvalidUuid => "Invalid UUID",
        }
    }

    /// The refusal as the validator crate reports it: an error whose code is
    /// `self.code()`, with no message and no parameters.
    pub fn to_validation_error(&self) -> ::validator::ValidationError {
        validation_error(self.code())
    }
}

/// The outcome of the UUID check once the text has been parsed or not: success,
/// or the refusal `InvalidUuid`, whose code is `Invalid UUID`.
pub fn uuid_outcome(parsed: bool) -> (r: Result<(), FieldError>)
    ensures
        r is Ok <==> parsed,
        r matches Err(e) ==> e == FieldError::InvalidUuid && e.code_text() == "Invalid UUID"@,
{
    if parsed {
        Ok(())
    } else {
        Err(FieldError::InvalidUuid)
    }
}

/// Validates that a text is a UUID: success when `uuid::Uuid::parse_str`
/// accepts it, else the refusal `InvalidUuid` (code `Invalid UUID`).
pub fn uuid(text: &str) -> (r: Result<(), FieldError>)
    ensures
        r is Ok <==> is_uuid_text(text@),
        r matches Err(e) ==> e == FieldError::InvalidUuid && e.code_text() == "Invalid UUID"@,
{
    uuid_outcome(parses_as_uuid(text))
}

} // verus!
