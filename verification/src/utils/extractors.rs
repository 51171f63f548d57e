//! Turning the text of a JSON body that could not be read into a client
//! message and one `{ field: detail }` entry.
use vstd::prelude::*;
use vstd::string::*;
use crate::text::{
    contains_str, find_char, has_infix, is_first_index, is_last_index, lowercase_of, rfind_char,
    to_lowercase,
};
use crate::utils::response::{ApiResponse, ErrorDetails};

verus! {

/// A JSON body extracted from a request; a body that cannot be read is
/// answered with the message and entry of [`parse_serde_error`].
pub struct ValidatedJson<T>(pub T);

/// The text between the first and the last backquote of `s`, when there are
/// two distinct backquotes.
pub open spec fn quoted_field(s: Seq<char>) -> Option<Seq<char>> {
    if exists|i: int, j: int| is_first_index(s, '`', i) && is_last_index(s, '`', j) && i < j {
        let (i, j) = choose|i: int, j: int|
            is_first_index(s, '`', i) && is_last_index(s, '`', j) && i < j;
        Some(s.subrange(i + 1, j))
    } else {
        None
    }
}

/// The kind of reading failure, told apart by phrases of the lowercased text.
pub enum PayloadProblem {
    MissingField,
    InvalidValue,
    UnknownField,
    Other,
}

/// Which kind a lowercased error text describes; the first phrase found wins.
pub open spec fn problem_of(lower: Seq<char>) -> PayloadProblem {
    if has_infix(lower, "missing field"@) {
        PayloadProblem::MissingField
    } else if has_infix(lower, "invalid type"@) || has_infix(lower, "invalid value"@) {
        PayloadProblem::InvalidValue
    } else if has_infix(lower, "unknown field"@) {
        PayloadProblem::UnknownField
    } else {
        PayloadProblem::Other
    }
}

/// The message, entry key and entry detail for an error text `error` whose
/// lowercase form is `lower`.
pub open spec fn serde_error_parts(error: Seq<char>, lower: Seq<char>) -> (
    Seq<char>,
    Seq<char>,
    Seq<char>,
) {
    match problem_of(lower) {
        PayloadProblem::MissingField => match quoted_field(error) {
            Some(f) => ("The '"@ + f + "' field is required"@, f, "This field is required"@),
            None => ("Missing required field"@, "general"@, "Missing required field"@),
        },
        PayloadProblem::InvalidValue => match quoted_field(error) {
            Some(f) => ("The '"@ + f + "' field has an invalid value"@, f, "Invalid value provided"@),
            None => ("Invalid field value"@, "general"@, "Invalid field value"@),
        },
        PayloadProblem::UnknownField => match quoted_field(error) {
            Some(f) => ("Unknown field '"@ + f + "'"@, f, "This field is not recognized"@),
            None => ("Unknown field provided"@, "general"@, "Unknown field provided"@),
        },
        PayloadProblem::Other => (
            "Invalid request payload"@,
            "general"@,
            "Invalid request body"@,
        ),
    }
}

/// Whether a message and entry are the given parts.
pub open spec fn has_parts(r: (String, ErrorDetails), parts: (Seq<char>, Seq<char>, Seq<char>)) -> bool {
    &&& r.0@ == parts.0
    &&& r.1 matches ErrorDetails::Entry { key, detail }
    &&& key@ == parts.1
    &&& detail@ == parts.2
}

/// The field named between backquotes, if the text has two distinct backquotes.
fn quoted(error: &str) -> (r: Option<String>)
    ensures
        match quoted_field(error@) {
            Some(f) => r matches Some(s) && s@ == f,
            None => r is None,
        },
{
    match find_char(error, '`') {
        Some(start) => match rfind_char(error, '`') {
            Some(end) => {
                if start < end {
                    let field = error.substring_char(start + 1, end);
                    let r = String::from_str(field);
                    proof {
                        let s = error@;
                        assert(is_first_index(s, '`', start as int) && is_last_index(s, '`', end as int)
                            && start < end);
                        let (i, j) = choose|i: int, j: int|
                            is_first_index(s, '`', i) && is_last_index(s, '`', j) && i < j;
                        assert(i == start as int) by {
                            if i < start {
                                assert(s[i] != '`');
                            } else if i > start {
                                assert(s[start as int] != '`');
                            }
                        }
                        assert(j == end as int) by {
                            if j < end {
                                assert(s[end as int] != '`');
                            } else if j > end {
                                assert(s[j] != '`');
                            }
                        }
                    }
                    Some(r)
                } else {
                    proof {
                        let s = error@;
                        assert forall|i: int, j: int|
                            is_first_index(s, '`', i) && is_last_index(s, '`', j) implies !(i < j) by {
                            if i < start {
                                assert(s[i] != '`');
                            } else if i > start {
                                assert(s[start as int] != '`');
                            }
                            if j < end {
                                assert(s[end as int] != '`');
                            } else if j > end {
                                assert(s[j] != '`');
                            }
                        }
                    }
                    None
                }
            },
            None => {
                assert(!exists|i: int, j: int|
                    is_first_index(error@, '`', i) && is_last_index(error@, '`', j) && i < j);
                None
            },
        },
        None => {
            assert(!exists|i: int, j: int|
                is_first_index(error@, '`', i) && is_last_index(error@, '`', j) && i < j);
            None
        },
    }
}

/// A message and an entry whose key is owned text.
fn entry(message: String, key: String, detail: &str) -> (r: (String, ErrorDetails))
    ensures
        r.0@ == message@,
        r.1 matches ErrorDetails::Entry { key: k, detail: d } && k@ == key@ && d@ == detail@,
{
    (message, ErrorDetails::Entry { key, detail: String::from_str(detail) })
}

/// Builds the message and entry for an error text `error` whose lowercase
/// form is `lower`.
pub fn classify_serde_error(error: &str, lower: &str) -> (r: (String, ErrorDetails))
    ensures
        has_parts(r, serde_error_parts(error@, lower@)),
{
    if contains_str(lower, "missing field") {
        match quoted(error) {
            Some(field) => {
                let mut m = String::from_str("The '");
                m.append(field.as_str());
                m.append("' field is required");
                entry(m, field, "This field is required")
            },
            None => entry(
                String::from_str("Missing required field"),
                String::from_str("general"),
                "Missing required field",
            ),
        }
    } else if contains_str(lower, "invalid type") || contains_str(lower, "invalid value") {
        match quoted(error) {
            Some(field) => {
                let mut m = String::from_str("The '");
                m.append(field.as_str());
                m.append("' field has an invalid value");
                entry(m, field, "Invalid value provided")
            },
            None => entry(
                String::from_str("Invalid field value"),
                String::from_str("general"),
                "Invalid field value",
            ),
        }
    } else if contains_str(lower, "unknown field") {
        match quoted(error) {
            Some(field) => {
                let mut m = String::from_str("Unknown field '");
                m.append(field.as_str());
                m.append("'");
                entry(m, field, "This field is not recognized")
            },
            None => entry(
                String::from_str("Unknown field provided"),
                String::from_str("general"),
                "Unknown field provided",
            ),
        }
    } else {
        entry(
            String::from_str("Invalid request payload"),
            String::from_str("general"),
            "Invalid request body",
        )
    }
}

/// The message and entry for the text of a JSON body that could not be read:
/// the kind is told from the lowercased text, the field from the backquotes.
pub fn parse_serde_error(error: &str) -> (r: (String, ErrorDetails))
    ensures
        has_parts(r, serde_error_parts(error@, lowercase_of(error@))),
{
    let lower = to_lowercase(error);
    classify_serde_error(error, lower.as_str())
}

/// The answer (with status 400) to a body that could not be read.
pub fn payload_rejection(error: &str) -> (r: (u16, ApiResponse<()>))
    ensures
        r.0 == 400,
        !r.1.success,
        r.1.data is None,
        r.1.message matches Some(m) && r.1.errors matches Some(details) && has_parts(
            (m, details),
            serde_error_parts(error@, lowercase_of(error@)),
        ),
{
    let (message, errors) = parse_serde_error(error);
    (400, ApiResponse { success: false, message: Some(message), data: None, errors: Some(errors) })
}

} // verus!
