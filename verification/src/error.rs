//! What an operation refuses with, and the statuses that the refusals map to.

use vstd::prelude::*;
use vstd::string::*;

use crate::text;

verus! {

/// Why an operation was refused or failed.
#[derive(Debug)]
pub enum GradatumError {
    /// No credential.
    Unauthorized,
    /// A credential without the right.
    Forbidden(String),
    /// A request that makes no sense.
    InvalidInput(String),
    /// A value that breaks a rule of the data model.
    Validation(String),
    /// No note of that identifier.
    NoteNotFound(String),
    /// No vault of that name.
    VaultNotFound(String),
    /// A request that collides with the current state.
    Conflict(String),
    /// A status change that the life cycle does not have.
    InvalidStatusTransition { from: String, to: String },
    /// A failure of the index or the vault.
    Storage(String),
    /// A failure of the file system.
    Io(String),
    /// Any other internal failure.
    Internal(String),
}

/// A [`GradatumError`] by its contents.
pub enum Refusal {
    Unauthorized,
    Forbidden(Seq<char>),
    InvalidInput(Seq<char>),
    Validation(Seq<char>),
    NoteNotFound(Seq<char>),
    VaultNotFound(Seq<char>),
    Conflict(Seq<char>),
    InvalidStatusTransition(Seq<char>, Seq<char>),
    Storage(Seq<char>),
    Io(Seq<char>),
    Internal(Seq<char>),
}

impl View for GradatumError {
    type V = Refusal;

    open spec fn view(&self) -> Refusal {
        match self {
            GradatumError::Unauthorized => Refusal::Unauthorized,
            GradatumError::Forbidden(m) => Refusal::Forbidden(m@),
            GradatumError::InvalidInput(m) => Refusal::InvalidInput(m@),
            GradatumError::Validation(m) => Refusal::Validation(m@),
            GradatumError::NoteNotFound(m) => Refusal::NoteNotFound(m@),
            GradatumError::VaultNotFound(m) => Refusal::VaultNotFound(m@),
            GradatumError::Conflict(m) => Refusal::Conflict(m@),
            GradatumError::InvalidStatusTransition { from, to } =>
                Refusal::InvalidStatusTransition(from@, to@),
            GradatumError::Storage(m) => Refusal::Storage(m@),
            GradatumError::Io(m) => Refusal::Io(m@),
            GradatumError::Internal(m) => Refusal::Internal(m@),
        }
    }
}

impl GradatumError {
    /// A copy of the error.
    pub fn copy(&self) -> (r: GradatumError)
        ensures
            r@ == self@,
    {
        match self {
            GradatumError::Unauthorized => GradatumError::Unauthorized,
            GradatumError::Forbidden(m) => GradatumError::Forbidden(m.clone()),
            GradatumError::InvalidInput(m) => GradatumError::InvalidInput(m.clone()),
            GradatumError::Validation(m) => GradatumError::Validation(m.clone()),
            GradatumError::NoteNotFound(m) => GradatumError::NoteNotFound(m.clone()),
            GradatumError::VaultNotFound(m) => GradatumError::VaultNotFound(m.clone()),
            GradatumError::Conflict(m) => GradatumError::Conflict(m.clone()),
            GradatumError::InvalidStatusTransition { from, to } =>
                GradatumError::InvalidStatusTransition { from: from.clone(), to: to.clone() },
            GradatumError::Storage(m) => GradatumError::Storage(m.clone()),
            GradatumError::Io(m) => GradatumError::Io(m.clone()),
            GradatumError::Internal(m) => GradatumError::Internal(m.clone()),
        }
    }

    /// A lack of right, with its reason.
    pub fn forbidden(m: &str) -> (r: GradatumError)
        ensures
            r@ == Refusal::Forbidden(m@),
    {
        GradatumError::Forbidden(m.to_owned())
    }

    /// A request that makes no sense, with the reason.
    pub fn invalid(m: &str) -> (r: GradatumError)
        ensures
            r@ == Refusal::InvalidInput(m@),
    {
        GradatumError::InvalidInput(m.to_owned())
    }
}

/// The words for a change of status that the life cycle has no room for.
pub open spec fn transition_text(from: Seq<char>, to: Seq<char>) -> Seq<char> {
    "invalid status transition: "@ + from + " → "@ + to
}

/// The words for a change of status that the life cycle has no room for.
pub fn transition_message(from: &str, to: &str) -> (r: String)
    ensures
        r@ == transition_text(from@, to@),
{
    let mut message = text::cat("invalid status transition: ", from);
    message.append(" → ");
    message.append(to);
    message
}

/// The statuses of the HTTP surface.
#[derive(Debug, Clone, Copy, PartialEq, Eq, Structural)]
pub enum StatusCode {
    Success,
    Accepted,
    NoContent,
    BadRequest,
    Unauthorized,
    Forbidden,
    NotFound,
    Conflict,
    PayloadTooLarge,
    UnprocessableEntity,
    InternalServerError,
    NotImplemented,
    ServiceUnavailable,
}

/// The number of a status.
pub open spec fn status_number(s: StatusCode) -> u16 {
    match s {
        StatusCode::Success => 200,
        StatusCode::Accepted => 202,
        StatusCode::NoContent => 204,
        StatusCode::BadRequest => 400,
        StatusCode::Unauthorized => 401,
        StatusCode::Forbidden => 403,
        StatusCode::NotFound => 404,
        StatusCode::Conflict => 409,
        StatusCode::PayloadTooLarge => 413,
        StatusCode::UnprocessableEntity => 422,
        StatusCode::InternalServerError => 500,
        StatusCode::NotImplemented => 501,
        StatusCode::ServiceUnavailable => 503,
    }
}

impl StatusCode {
    /// The number of the status.
    pub fn as_u16(&self) -> (r: u16)
        ensures
            r == status_number(*self),
    {
        match self {
            StatusCode::Success => 200,
            StatusCode::Accepted => 202,
            StatusCode::NoContent => 204,
            StatusCode::BadRequest => 400,
            StatusCode::Unauthorized => 401,
            StatusCode::Forbidden => 403,
            StatusCode::NotFound => 404,
            StatusCode::Conflict => 409,
            StatusCode::PayloadTooLarge => 413,
            StatusCode::UnprocessableEntity => 422,
            StatusCode::InternalServerError => 500,
            StatusCode::NotImplemented => 501,
            StatusCode::ServiceUnavailable => 503,
        }
    }
}

/// Whether a storage message reports that something is absent.
pub open spec fn reports_absence(m: Seq<char>) -> bool {
    text::has_infix(m, "not found"@) || text::has_infix(m, "Not found"@)
}

fn says_absent(m: &str) -> (r: bool)
    ensures
        r == reports_absence(m@),
{
    text::contains(m, "not found") || text::contains(m, "Not found")
}

/// The status of an error on the general HTTP surface.
pub open spec fn refusal_status(e: Refusal) -> StatusCode {
    match e {
        Refusal::Unauthorized => StatusCode::Unauthorized,
        Refusal::Forbidden(_) => StatusCode::Forbidden,
        Refusal::InvalidInput(_) => StatusCode::BadRequest,
        Refusal::Conflict(_) => StatusCode::Conflict,
        Refusal::NoteNotFound(_) => StatusCode::NotFound,
        Refusal::Storage(m) => if reports_absence(m) {
            StatusCode::NotFound
        } else {
            StatusCode::InternalServerError
        },
        _ => StatusCode::InternalServerError,
    }
}

/// The status of an error on the general HTTP surface.
pub fn err_to_status(e: &GradatumError) -> (r: StatusCode)
    ensures
        r == refusal_status(e@),
{
    match e {
        GradatumError::Unauthorized => StatusCode::Unauthorized,
        GradatumError::Forbidden(_) => StatusCode::Forbidden,
        GradatumError::InvalidInput(_) => StatusCode::BadRequest,
        GradatumError::Conflict(_) => StatusCode::Conflict,
        GradatumError::NoteNotFound(_) => StatusCode::NotFound,
        GradatumError::Storage(m) => if says_absent(m.as_str()) {
            StatusCode::NotFound
        } else {
            StatusCode::InternalServerError
        },
        _ => StatusCode::InternalServerError,
    }
}

/// The status of an error on the history surface, which has no conflicts of its own.
pub open spec fn history_status(e: Refusal) -> StatusCode {
    if e is Conflict {
        StatusCode::InternalServerError
    } else {
        refusal_status(e)
    }
}

/// The status of an error on the history surface.
pub fn map_err_to_status_history(e: &GradatumError) -> (r: StatusCode)
    ensures
        r == history_status(e@),
{
    match e {
        GradatumError::Conflict(_) => StatusCode::InternalServerError,
        _ => err_to_status(e),
    }
}

// ── Laws ────────────────────────────────────────────────────────────────────

/// Each refusal has its own status, and what went wrong inside is an internal error.
pub proof fn each_refusal_has_its_status(e: Refusal)
    ensures
        e is Unauthorized ==> refusal_status(e) == StatusCode::Unauthorized,
        e is Forbidden ==> refusal_status(e) == StatusCode::Forbidden,
        e is InvalidInput ==> refusal_status(e) == StatusCode::BadRequest,
        e is Conflict ==> refusal_status(e) == StatusCode::Conflict,
        e is NoteNotFound ==> refusal_status(e) == StatusCode::NotFound,
        e is Io || e is Internal ==> refusal_status(e) == StatusCode::InternalServerError,
        e is Storage ==> refusal_status(e) == StatusCode::InternalServerError || refusal_status(e)
            == StatusCode::NotFound,
        e is Conflict ==> history_status(e) == StatusCode::InternalServerError,
        !(e is Conflict) ==> history_status(e) == refusal_status(e),
{
}

/// Each status is told by its number.
pub proof fn each_status_has_its_number(s: StatusCode, t: StatusCode)
    ensures
        status_number(s) == status_number(t) ==> s == t,
        status_number(StatusCode::Success) == 200,
        status_number(StatusCode::Accepted) == 202,
        status_number(StatusCode::NoContent) == 204,
        status_number(StatusCode::BadRequest) == 400,
        status_number(StatusCode::Unauthorized) == 401,
        status_number(StatusCode::Forbidden) == 403,
        status_number(StatusCode::NotFound) == 404,
        status_number(StatusCode::Conflict) == 409,
        status_number(StatusCode::InternalServerError) == 500,
{
}

/// An error says what it holds.
pub proof fn an_error_says_what_it_holds(e: GradatumError)
    ensures
        match e {
            GradatumError::Unauthorized => e@ is Unauthorized,
            GradatumError::Forbidden(m) => e@ == Refusal::Forbidden(m@),
            GradatumError::InvalidInput(m) => e@ == Refusal::InvalidInput(m@),
            GradatumError::Validation(m) => e@ == Refusal::Validation(m@),
            GradatumError::NoteNotFound(m) => e@ == Refusal::NoteNotFound(m@),
            GradatumError::VaultNotFound(m) => e@ == Refusal::VaultNotFound(m@),
            GradatumError::Conflict(m) => e@ == Refusal::Conflict(m@),
            GradatumError::InvalidStatusTransition { from, to } => e@ is InvalidStatusTransition
                && e@->InvalidStatusTransition_0 == from@ && e@->InvalidStatusTransition_1 == to@,
            GradatumError::Storage(m) => e@ == Refusal::Storage(m@),
            GradatumError::Io(m) => e@ == Refusal::Io(m@),
            GradatumError::Internal(m) => e@ == Refusal::Internal(m@),
        },
{
}

}
