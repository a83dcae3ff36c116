//! What the contact form takes in, and the rules it is held to.

use vstd::prelude::*;
use vstd::string::*;
use vstd::utf8::encode_utf8;
use crate::fresh::{current_timestamp, fresh_uuid, is_clock_time, is_uuid_text};

verus! {

/// A message as the contact form sends it.
#[derive(Debug)]
pub struct ContactSubmission {
    pub name: String,
    pub email: String,
    pub phone: Option<String>,
    pub message: String,
}

/// The answer to a message that was not taken.
#[derive(Debug)]
pub struct ErrorResponse {
    pub message: String,
    pub code: String,
}

/// The answer to a message that was taken.
#[derive(Debug)]
pub struct SuccessResponse {
    pub message: String,
    pub submission_id: String,
}

/// A message as the admin enters it on the dashboard.
#[derive(Debug)]
pub struct AdminContactSubmission {
    pub name: String,
    pub email: String,
    pub phone: Option<String>,
    pub message: String,
}

/// The answer to an admin's message that was not taken.
#[derive(Debug)]
pub struct AdminErrorResponse {
    pub message: String,
    pub code: String,
}

/// The answer to an admin's message that was taken.
#[derive(Debug)]
pub struct AdminSuccessResponse {
    pub message: String,
    pub submission_id: String,
}

/// What is wrong with a message.
#[derive(Debug, Clone, Copy, PartialEq, Eq, Structural)]
pub enum Fault {
    /// The name is shorter than 2 bytes or longer than 255.
    Name,
    /// The address holds no `@` or is longer than 254 bytes.
    Email,
    /// The text is shorter than 10 bytes or longer than 1000.
    Message,
}

/// Bytes that `s` takes in UTF-8.
pub open spec fn byte_length(s: Seq<char>) -> nat {
    encode_utf8(s).len()
}

/// The first rule that a message breaks, if it breaks one.
pub open spec fn first_fault(name: Seq<char>, email: Seq<char>, message: Seq<char>) -> Option<Fault> {
    if byte_length(name) < 2 || byte_length(name) > 255 {
        Some(Fault::Name)
    } else if !email.contains('@') || byte_length(email) > 254 {
        Some(Fault::Email)
    } else if byte_length(message) < 10 || byte_length(message) > 1000 {
        Some(Fault::Message)
    } else {
        None
    }
}

/// The words in which a fault is reported.
pub open spec fn fault_words(fault: Fault) -> Seq<char> {
    match fault {
        Fault::Name => "Имя должно содержать 2-255 символов"@,
        Fault::Email => "Некорректный email адрес"@,
        Fault::Message => "Сообщение должно содержать 10-1000 символов"@,
    }
}

/// Whether `s` holds `c`.
pub fn holds_char(s: &str, c: char) -> (b: bool)
    ensures
        b == s@.contains(c),
{
    for d in it: s.chars()
        invariant
            it.seq() == s@,
            forall|j: int| 0 <= j < it.index() ==> s@[j] != c,
    {
        if d == c {
            assert(s@[it.index() as int] == c);
            return true;
        }
    }
    false
}

/// Bytes that `s` takes in UTF-8.
pub fn byte_len(s: &str) -> (n: usize)
    ensures
        n == byte_length(s@),
{
    s.as_bytes().len()
}

/// Holds a message to the rules of the form.
pub fn check_contact(name: &str, email: &str, message: &str) -> (r: Option<Fault>)
    ensures
        r == first_fault(name@, email@, message@),
{
    let name_len = byte_len(name);
    if name_len < 2 || name_len > 255 {
        return Some(Fault::Name);
    }
    if !holds_char(email, '@') || byte_len(email) > 254 {
        return Some(Fault::Email);
    }
    let message_len = byte_len(message);
    if message_len < 10 || message_len > 1000 {
        return Some(Fault::Message);
    }
    None
}

/// The words in which a fault is reported.
pub fn describe_fault(fault: Fault) -> (words: String)
    ensures
        words@ == fault_words(fault),
{
    match fault {
        Fault::Name => String::from_str("Имя должно содержать 2-255 символов"),
        Fault::Email => String::from_str("Некорректный email адрес"),
        Fault::Message => String::from_str("Сообщение должно содержать 10-1000 символов"),
    }
}

impl ContactSubmission {
    /// Holds the message to the rules of the form: it passes, or the
    /// first rule it breaks is reported as a validation error.
    pub fn validate(&self) -> (r: Result<(), ErrorResponse>)
        ensures
            match first_fault(self.name@, self.email@, self.message@) {
                None => r is Ok,
                Some(fault) => r matches Err(e) && e.message@ == fault_words(fault) && e.code@
                    == "VALIDATION_ERROR"@,
            },
    {
        match check_contact(self.name.as_str(), self.email.as_str(), self.message.as_str()) {
            None => Ok(()),
            Some(fault) => Err(
                ErrorResponse {
                    message: describe_fault(fault),
                    code: String::from_str("VALIDATION_ERROR"),
                },
            ),
        }
    }
}

impl AdminContactSubmission {
    /// Holds the message to the rules of the form: it passes, or the
    /// first rule it breaks is reported as a validation error.
    pub fn validate(&self) -> (r: Result<(), AdminErrorResponse>)
        ensures
            match first_fault(self.name@, self.email@, self.message@) {
                None => r is Ok,
                Some(fault) => r matches Err(e) && e.message@ == fault_words(fault) && e.code@
                    == "VALIDATION_ERROR"@,
            },
    {
        match check_contact(self.name.as_str(), self.email.as_str(), self.message.as_str()) {
            None => Ok(()),
            Some(fault) => Err(
                AdminErrorResponse {
                    message: describe_fault(fault),
                    code: String::from_str("VALIDATION_ERROR"),
                },
            ),
        }
    }
}

impl SuccessResponse {
    /// The answer to a message that was taken under `submission_id`.
    pub fn new(submission_id: String) -> (r: SuccessResponse)
        ensures
            r.message@ == "Сообщение успешно отправлено"@,
            r.submission_id@ == submission_id@,
    {
        SuccessResponse { message: String::from_str("Сообщение успешно отправлено"), submission_id }
    }
}

impl AdminSuccessResponse {
    /// The answer to a message that was taken under `submission_id`.
    pub fn new(submission_id: String) -> (r: AdminSuccessResponse)
        ensures
            r.message@ == "Сообщение успешно отправлено"@,
            r.submission_id@ == submission_id@,
    {
        AdminSuccessResponse {
            message: String::from_str("Сообщение успешно отправлено"),
            submission_id,
        }
    }
}

/// A message that has passed the rules, on its way to be kept.
#[derive(Debug)]
pub struct CreateSubmissionRequest {
    pub submission_id: String,
    pub name: String,
    pub email: String,
    pub phone: Option<String>,
    pub message: String,
}

/// A message as it is kept.
#[derive(Debug)]
pub struct Submission {
    pub submission_id: String,
    pub name: String,
    pub email: String,
    pub phone: Option<String>,
    pub message: String,
    /// When it was taken, in seconds since the epoch.
    pub created_at: i64,
    pub status: String,
}

/// Whether `kept` is `request` as it is kept: what the sender wrote,
/// as it was written, and new.
pub open spec fn kept_as(request: CreateSubmissionRequest, kept: Submission) -> bool {
    &&& kept.name@ == request.name@
    &&& kept.email@ == request.email@
    &&& kept.phone == request.phone
    &&& kept.message@ == request.message@
    &&& kept.status@ == "new"@
}

impl CreateSubmissionRequest {
    /// The message as it is kept under `submission_id`, taken at `now`.
    pub fn filed(self, submission_id: String, now: i64) -> (kept: Submission)
        ensures
            kept_as(self, kept),
            kept.submission_id@ == submission_id@,
            kept.created_at == now,
    {
        Submission {
            submission_id,
            name: self.name,
            email: self.email,
            phone: self.phone,
            message: self.message,
            created_at: now,
            status: String::from_str("new"),
        }
    }

    /// The message as it is kept, taken now, under a random identifier
    /// of its own.
    pub fn into_submission(self) -> (kept: Submission)
        ensures
            kept_as(self, kept),
            is_uuid_text(kept.submission_id@),
            is_clock_time(kept.created_at as int),
    {
        let now = current_timestamp();
        let id = fresh_uuid();
        self.filed(id, now)
    }
}

/// The request that a message which passes the rules makes under
/// `submission_id`.
pub open spec fn accepted_as(
    name: Seq<char>,
    email: Seq<char>,
    phone: Option<String>,
    message: Seq<char>,
    submission_id: Seq<char>,
    request: CreateSubmissionRequest,
) -> bool {
    &&& request.submission_id@ == submission_id
    &&& request.name@ == name
    &&& request.email@ == email
    &&& request.phone == phone
    &&& request.message@ == message
}

impl ContactSubmission {
    /// Takes the message in under `submission_id` if it passes the rules.
    pub fn accept(self, submission_id: String) -> (r: Result<CreateSubmissionRequest, ErrorResponse>)
        ensures
            match first_fault(self.name@, self.email@, self.message@) {
                None => r matches Ok(request) && accepted_as(
                    self.name@,
                    self.email@,
                    self.phone,
                    self.message@,
                    submission_id@,
                    request,
                ),
                Some(fault) => r matches Err(e) && e.message@ == fault_words(fault) && e.code@
                    == "VALIDATION_ERROR"@,
            },
    {
        match self.validate() {
            Err(e) => Err(e),
            Ok(_) => Ok(
                CreateSubmissionRequest {
                    submission_id,
                    name: self.name,
                    email: self.email,
                    phone: self.phone,
                    message: self.message,
                },
            ),
        }
    }
}

impl AdminContactSubmission {
    /// Takes the message in under `submission_id` if it passes the rules.
    pub fn accept(self, submission_id: String) -> (r: Result<
        CreateSubmissionRequest,
        AdminErrorResponse,
    >)
        ensures
            match first_fault(self.name@, self.email@, self.message@) {
                None => r matches Ok(request) && accepted_as(
                    self.name@,
                    self.email@,
                    self.phone,
                    self.message@,
                    submission_id@,
                    request,
                ),
                Some(fault) => r matches Err(e) && e.message@ == fault_words(fault) && e.code@
                    == "VALIDATION_ERROR"@,
            },
    {
        match self.validate() {
            Err(e) => Err(e),
            Ok(_) => Ok(
                CreateSubmissionRequest {
                    submission_id,
                    name: self.name,
                    email: self.email,
                    phone: self.phone,
                    message: self.message,
                },
            ),
        }
    }
}

/// Takes a message from the contact form in, under a random identifier
/// of its own, if it passes the rules.
pub fn accept_form(data: ContactSubmission) -> (r: Result<CreateSubmissionRequest, ErrorResponse>)
    ensures
        match first_fault(data.name@, data.email@, data.message@) {
            None => r matches Ok(request) && is_uuid_text(request.submission_id@) && accepted_as(
                data.name@,
                data.email@,
                data.phone,
                data.message@,
                request.submission_id@,
                request,
            ),
            Some(fault) => r matches Err(e) && e.message@ == fault_words(fault) && e.code@
                == "VALIDATION_ERROR"@,
        },
{
    let id = fresh_uuid();
    data.accept(id)
}

/// Takes a message that the admin enters in, under a random identifier
/// of its own, if it passes the rules.
pub fn create_contact_submission(data: AdminContactSubmission) -> (r: Result<
    CreateSubmissionRequest,
    AdminErrorResponse,
>)
    ensures
        match first_fault(data.name@, data.email@, data.message@) {
            None => r matches Ok(request) && is_uuid_text(request.submission_id@) && accepted_as(
                data.name@,
                data.email@,
                data.phone,
                data.message@,
                request.submission_id@,
                request,
            ),
            Some(fault) => r matches Err(e) && e.message@ == fault_words(fault) && e.code@
                == "VALIDATION_ERROR"@,
        },
{
    let id = fresh_uuid();
    data.accept(id)
}

} // verus!
