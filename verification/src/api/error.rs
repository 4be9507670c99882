//! The API's error type: how an error is classified, which HTTP status
//! answers it, the plain-text message that is returned to the client, and
//! whether it is logged.

use vstd::prelude::*;
use crate::text::{lemma_contains_in_context, lemma_contains_is_some_window, seq_contains, str_contains};
use vstd::string::to_string_from_display_ensures;
use anyhow::Error as AnyhowError;
use serde_json::Error as JsonError;
use sqlx::Error as SqlxError;

verus! {

/// The error of the database layer, carried through unchanged.
#[verifier::external_type_specification]
#[verifier::external_body]
pub struct ExSqlxError(SqlxError);

/// A dynamic error from the services, carried through unchanged.
#[verifier::external_type_specification]
#[verifier::external_body]
pub struct ExAnyhowError(AnyhowError);

/// A failure to decode a hex string, carried through unchanged.
#[verifier::external_type_specification]
#[verifier::external_body]
pub struct ExFromHexError(hex::FromHexError);

/// A JSON (de)serialisation failure, carried through unchanged.
#[verifier::external_type_specification]
#[verifier::external_body]
pub struct ExSerdeJsonError(JsonError);

/// Every way a request to the API can fail.
#[derive(Debug)]
pub enum Error {
    /// The database failed.
    Sqlx(SqlxError),
    /// A service failed for a reason other than a missing object.
    Anyhow(AnyhowError),
    /// A hex string in the request did not decode.
    Decode(hex::FromHexError),
    /// A JSON value did not (de)serialise.
    Serde(JsonError),
    /// The requested object does not exist.
    NotFound,
}

/// A service error text that says that the requested object is missing.
pub open spec fn marks_not_found(text: Seq<char>) -> bool {
    ||| seq_contains(text, "not found"@)
    ||| seq_contains(text, "cant find pool"@)
    ||| seq_contains(text, "none pair"@)
}

/// A service error text that holds "not found", "cant find pool" or
/// "none pair" anywhere, whatever precedes and follows it, says that the
/// object is missing.
pub proof fn lemma_missing_phrase_anywhere(a: Seq<char>, b: Seq<char>)
    ensures
        marks_not_found(a + "not found"@ + b),
        marks_not_found(a + "cant find pool"@ + b),
        marks_not_found(a + "none pair"@ + b),
{
    lemma_contains_in_context(a, "not found"@, b);
    lemma_contains_in_context(a, "cant find pool"@, b);
    lemma_contains_in_context(a, "none pair"@, b);
}

/// A service error text in which no window equals "not found",
/// "cant find pool" or "none pair" does not say that the object is missing.
pub proof fn lemma_no_missing_phrase(text: Seq<char>)
    requires
        forall|i: int|
            0 <= i && i + "not found"@.len() <= text.len() ==> #[trigger] text.subrange(
                i,
                i + "not found"@.len(),
            ) != "not found"@,
        forall|i: int|
            0 <= i && i + "cant find pool"@.len() <= text.len() ==> #[trigger] text.subrange(
                i,
                i + "cant find pool"@.len(),
            ) != "cant find pool"@,
        forall|i: int|
            0 <= i && i + "none pair"@.len() <= text.len() ==> #[trigger] text.subrange(
                i,
                i + "none pair"@.len(),
            ) != "none pair"@,
    ensures
        !marks_not_found(text),
{
    lemma_contains_is_some_window(text, "not found"@);
    lemma_contains_is_some_window(text, "cant find pool"@);
    lemma_contains_is_some_window(text, "none pair"@);
}

/// A service error classified by a text that holds one of the missing-object
/// phrases anywhere is answered 404 "not found"; by a text that holds none,
/// 500 with the text behind "an internal server error occurred: ".
pub proof fn lemma_classification_by_phrase(e: AnyhowError, a: Seq<char>, b: Seq<char>, other: Seq<char>)
    requires
        forall|i: int|
            0 <= i && i + "not found"@.len() <= other.len() ==> #[trigger] other.subrange(
                i,
                i + "not found"@.len(),
            ) != "not found"@,
        forall|i: int|
            0 <= i && i + "cant find pool"@.len() <= other.len() ==> #[trigger] other.subrange(
                i,
                i + "cant find pool"@.len(),
            ) != "cant find pool"@,
        forall|i: int|
            0 <= i && i + "none pair"@.len() <= other.len() ==> #[trigger] other.subrange(
                i,
                i + "none pair"@.len(),
            ) != "none pair"@,
    ensures
        classified(e, a + "not found"@ + b) is NotFound,
        classified(e, a + "not found"@ + b).status_spec() == 404,
        classified(e, a + "cant find pool"@ + b) is NotFound,
        classified(e, a + "none pair"@ + b) is NotFound,
        classified(e, other) == Error::Anyhow(e),
        classified(e, other).status_spec() == 500,
        classified(e, other).reason_spec(other) == "an internal server error occurred: "@ + other,
{
    lemma_missing_phrase_anywhere(a, b);
    lemma_no_missing_phrase(other);
}

/// An `Anyhow` error is not logged when its text holds "empty" anywhere,
/// and is logged when no window of its text equals "empty".
pub proof fn lemma_anyhow_logged_unless_empty(e: AnyhowError, a: Seq<char>, b: Seq<char>, d: Seq<char>)
    ensures
        !Error::Anyhow(e).logged_spec(a + "empty"@ + b),
        (forall|i: int|
            0 <= i && i + "empty"@.len() <= d.len() ==> #[trigger] d.subrange(
                i,
                i + "empty"@.len(),
            ) != "empty"@) ==> Error::Anyhow(e).logged_spec(d),
{
    lemma_contains_in_context(a, "empty"@, b);
    lemma_contains_is_some_window(d, "empty"@);
}

/// Whether a service error text says that the requested object is missing.
pub fn text_marks_not_found(text: &str) -> (r: bool)
    ensures
        r == marks_not_found(text@),
{
    str_contains(text, "not found") || str_contains(text, "cant find pool") || str_contains(
        text,
        "none pair",
    )
}

/// The API error for the service error `e` whose text is `text`.
pub open spec fn classified(e: AnyhowError, text: Seq<char>) -> Error {
    if marks_not_found(text) {
        Error::NotFound
    } else {
        Error::Anyhow(e)
    }
}

/// A service error is answered with 404 and the reason "not found" when its
/// text says that the object is missing ("not found", "cant find pool" or
/// "none pair"), and with 500 and the reason "an internal server error
/// occurred: " followed by its text otherwise.
pub proof fn lemma_classified_answer(e: AnyhowError, text: Seq<char>)
    ensures
        marks_not_found(text) ==> classified(e, text).status_spec() == 404
            && classified(e, text).reason_spec(text) == "not found"@,
        !marks_not_found(text) ==> classified(e, text).status_spec() == 500
            && classified(e, text).reason_spec(text) == "an internal server error occurred: "@
            + text,
{
}

impl Error {
    /// The HTTP status that answers the error.
    pub open spec fn status_spec(self) -> u16 {
        match self {
            Error::Sqlx(_) | Error::Anyhow(_) => 500,
            Error::Decode(_) | Error::Serde(_) => 400,
            Error::NotFound => 404,
        }
    }

    /// The text that describes the error; `detail` is the text of the
    /// service error that an `Anyhow` carries.
    pub open spec fn reason_spec(self, detail: Seq<char>) -> Seq<char> {
        match self {
            Error::Sqlx(_) => "an error occurred with the database"@,
            Error::Anyhow(_) => "an internal server error occurred: "@ + detail,
            Error::Decode(_) => "hex error occurred"@,
            Error::Serde(_) => "serde error occurred"@,
            Error::NotFound => "not found"@,
        }
    }

    /// Whether answering the error writes it to the log; `detail` as in
    /// `reason_spec`.
    pub open spec fn logged_spec(self, detail: Seq<char>) -> bool {
        match self {
            Error::Sqlx(_) | Error::Decode(_) | Error::Serde(_) => true,
            Error::Anyhow(_) => !seq_contains(detail, "empty"@),
            Error::NotFound => false,
        }
    }

    /// Classifies a service error by its text: one that says that the object
    /// is missing becomes `NotFound`, any other is kept as `Anyhow`.
    pub fn classify(e: AnyhowError, text: &str) -> (r: Error)
        ensures
            r == classified(e, text@),
    {
        if text_marks_not_found(text) {
            Error::NotFound
        } else {
            Error::Anyhow(e)
        }
    }

    /// Turns a service error into an API error, classifying it by the text
    /// that it displays (see `classify`).
    pub fn from_anyhow(e: AnyhowError) -> (r: Error)
        ensures
            r is NotFound || r == Error::Anyhow(e),
            exists|text: String|
                to_string_from_display_ensures::<AnyhowError>(&e, text) && r == classified(
                    e,
                    #[trigger] text@,
                ),
    {
        let text = e.to_string();
        let ghost shown = text;
        let r = Error::classify(e, text.as_str());
        assert(to_string_from_display_ensures::<AnyhowError>(&e, shown) && r == classified(e, shown@));
        r
    }

    /// The HTTP status that answers the error.
    pub fn status_code(&self) -> (r: u16)
        ensures
            r == self.status_spec(),
    {
        match self {
            Error::Sqlx(_) | Error::Anyhow(_) => 500,
            Error::Decode(_) | Error::Serde(_) => 400,
            Error::NotFound => 404,
        }
    }

    /// `d` is the text of the service error that an `Anyhow` carries, as its
    /// `Display` shows it; for the other variants, the empty text.
    pub open spec fn is_detail(self, d: String) -> bool {
        match self {
            Error::Anyhow(e) => to_string_from_display_ensures::<AnyhowError>(&e, d),
            _ => d@ == Seq::<char>::empty(),
        }
    }

    /// The text of the service error that an `Anyhow` carries, as it
    /// displays; empty for the other variants.
    pub fn detail(&self) -> (r: String)
        ensures
            self.is_detail(r),
    {
        match self {
            Error::Anyhow(e) => e.to_string(),
            _ => String::new(),
        }
    }

    /// The text that describes the error, given the text of the service
    /// error that an `Anyhow` carries.
    pub fn reason_with(&self, detail: &str) -> (r: String)
        ensures
            r@ == self.reason_spec(detail@),
    {
        match self {
            Error::Sqlx(_) => String::from_str("an error occurred with the database"),
            Error::Anyhow(_) => String::from_str("an internal server error occurred: ").concat(detail),
            Error::Decode(_) => String::from_str("hex error occurred"),
            Error::Serde(_) => String::from_str("serde error occurred"),
            Error::NotFound => String::from_str("not found"),
        }
    }

    /// The text that describes the error: the plain-text message with which
    /// the error is answered.
    pub fn reason(&self) -> (r: String)
        ensures
            exists|d: String| #[trigger] self.is_detail(d) && r@ == self.reason_spec(d@),
            !(self is Anyhow) ==> r@ == self.reason_spec(Seq::<char>::empty()),
    {
        let d = self.detail();
        let r = self.reason_with(d.as_str());
        assert(self.is_detail(d) && r@ == self.reason_spec(d@));
        r
    }

    /// Whether answering the error writes it to the log, given the text of
    /// the service error that an `Anyhow` carries.
    pub fn logged_with(&self, detail: &str) -> (r: bool)
        ensures
            r == self.logged_spec(detail@),
    {
        match self {
            Error::Sqlx(_) | Error::Decode(_) | Error::Serde(_) => true,
            Error::Anyhow(_) => !str_contains(detail, "empty"),
            Error::NotFound => false,
        }
    }

    /// Whether answering the error writes it to the log.
    pub fn logs_on_response(&self) -> (r: bool)
        ensures
            exists|d: String| #[trigger] self.is_detail(d) && r == self.logged_spec(d@),
            !(self is Anyhow) ==> r == self.logged_spec(Seq::<char>::empty()),
    {
        let d = self.detail();
        let r = self.logged_with(d.as_str());
        assert(self.is_detail(d) && r == self.logged_spec(d@));
        r
    }
}

/// The two errors are of the same kind, and neither is `Anyhow`, whose
/// answer carries the text of its service error.
pub open spec fn same_fixed_kind(x: Error, y: Error) -> bool {
    ||| x is Sqlx && y is Sqlx
    ||| x is Decode && y is Decode
    ||| x is Serde && y is Serde
    ||| x is NotFound && y is NotFound
}

/// Two errors of the same kind other than `Anyhow` get the same answer:
/// the same status, the same plain-text message and the same logging,
/// whatever the errors that they carry; their text never reaches the client.
pub proof fn lemma_same_kind_same_answer(x: Error, y: Error, dx: Seq<char>, dy: Seq<char>)
    requires
        same_fixed_kind(x, y),
    ensures
        x.status_spec() == y.status_spec(),
        x.reason_spec(dx) == y.reason_spec(dy),
        x.logged_spec(dx) == y.logged_spec(dy),
{
}

/// A missing object is answered with 404 and the plain-text message
/// "not found", and is not logged.
pub proof fn lemma_not_found_answer(d: Seq<char>)
    ensures
        Error::NotFound.status_spec() == 404,
        Error::NotFound.reason_spec(d) == "not found"@,
        !Error::NotFound.logged_spec(d),
{
}

impl From<SqlxError> for Error {
    fn from(e: SqlxError) -> (r: Error) {
        Error::Sqlx(e)
    }
}

impl vstd::std_specs::convert::FromSpecImpl<SqlxError> for Error {
    open spec fn obeys_from_spec() -> bool {
        true
    }

    open spec fn from_spec(e: SqlxError) -> Error {
        Error::Sqlx(e)
    }
}

impl From<hex::FromHexError> for Error {
    fn from(e: hex::FromHexError) -> (r: Error) {
        Error::Decode(e)
    }
}

impl vstd::std_specs::convert::FromSpecImpl<hex::FromHexError> for Error {
    open spec fn obeys_from_spec() -> bool {
        true
    }

    open spec fn from_spec(e: hex::FromHexError) -> Error {
        Error::Decode(e)
    }
}

impl From<JsonError> for Error {
    fn from(e: JsonError) -> (r: Error) {
        Error::Serde(e)
    }
}

impl vstd::std_specs::convert::FromSpecImpl<JsonError> for Error {
    open spec fn obeys_from_spec() -> bool {
        true
    }

    open spec fn from_spec(e: JsonError) -> Error {
        Error::Serde(e)
    }
}

} // verus!
