use vstd::prelude::*;

verus! {

broadcast use vstd::string::group_string_axioms;

/// Why a JSON request body was refused.
#[derive(Debug, Clone, Copy, PartialEq, Eq, Structural)]
pub enum JsonPayloadErrorKind {
    /// The request did not declare a JSON content type.
    ContentType,
    /// The body was not the JSON that the endpoint expects.
    Deserialize,
    /// Any other failure to read the body.
    Other,
}

/// The answer to a refused JSON body: its HTTP status and the JSON object
/// `{ "name", "message", "details" }`, the details only where there are some.
#[derive(Debug, PartialEq, Eq)]
pub struct JsonErrorAnswer {
    pub status: u16,
    pub name: String,
    pub message: String,
    pub details: Option<String>,
}

/// The answer to a refused JSON body: 406 when the content type is wrong,
/// 400 with the parser's account when the JSON is invalid, 500 otherwise.
pub fn json_error_answer(kind: JsonPayloadErrorKind, details: &str) -> (r: JsonErrorAnswer)
    ensures
        kind == JsonPayloadErrorKind::ContentType ==> r.status == 406 && r.name@ == "NotAcceptable"@
            && r.message@ == "Content-Type must be application/json"@ && r.details is None,
        kind == JsonPayloadErrorKind::Deserialize ==> r.status == 400 && r.name@ == "BadRequest"@
            && r.message@ == "Invalid JSON"@ && (r.details matches Some(d) && d@ == details@),
        kind == JsonPayloadErrorKind::Other ==> r.status == 500 && r.name@ == "InternalServerError"@
            && r.message@ == "Internal Server Error"@ && r.details is None,
{
    match kind {
        JsonPayloadErrorKind::ContentType => JsonErrorAnswer {
            status: 406,
            name: "NotAcceptable".to_string(),
            message: "Content-Type must be application/json".to_string(),
            details: None,
        },
        JsonPayloadErrorKind::Deserialize => JsonErrorAnswer {
            status: 400,
            name: "BadRequest".to_string(),
            message: "Invalid JSON".to_string(),
            details: Some(details.to_string()),
        },
        JsonPayloadErrorKind::Other => JsonErrorAnswer {
            status: 500,
            name: "InternalServerError".to_string(),
            message: "Internal Server Error".to_string(),
            details: None,
        },
    }
}

} // verus!
