use vstd::prelude::*;

verus! {

/// The three causes for which a request is refused.
#[derive(Clone, Copy, Debug, PartialEq, Eq, Structural)]
pub enum ErrorKind {
    /// The body or one of its fields is malformed.
    InvalidInput,
    /// The entity, key or route that the request names is absent.
    NotFound,
    /// The request collides with something that must stay unique.
    Conflict,
}

/// The HTTP status of a success that returns or changes something.
pub const STATUS_OK: u16 = 200;

/// The HTTP status of a success that created an entity.
pub const STATUS_CREATED: u16 = 201;

impl ErrorKind {
    /// The HTTP status that reports this kind of refusal.
    pub open spec fn status_spec(self) -> u16 {
        match self {
            ErrorKind::InvalidInput => 400,
            ErrorKind::NotFound => 404,
            ErrorKind::Conflict => 409,
        }
    }

    /// The HTTP status that reports this kind of refusal.
    pub fn status(self) -> (code: u16)
        ensures
            code == self.status_spec(),
    {
        match self {
            ErrorKind::InvalidInput => 400,
            ErrorKind::NotFound => 404,
            ErrorKind::Conflict => 409,
        }
    }
}

/// Why a request was refused.
#[derive(Clone, Debug, PartialEq, Eq)]
pub enum Rejection {
    /// The body of a user request is not the JSON that the route expects.
    InvalidJsonBody,
    /// A new user's name is empty or whitespace.
    NameRequired,
    /// An update would leave the user's name empty or whitespace.
    NameEmpty,
    /// The email has no `@`.
    InvalidEmail,
    /// Another user already has this email.
    EmailExists,
    /// No user has the id that the request names.
    UserNotFound,
    /// The body of a compute request is not the JSON that the route expects.
    InvalidJson,
    /// A compute request carries no numbers.
    EmptyData,
    /// A compute request names an operation that is not offered.
    UnknownOperation(String),
    /// No route, cache entry or file answers to the request.
    NotFound,
}

impl Rejection {
    /// The cause that this refusal falls under.
    pub open spec fn kind_spec(self) -> ErrorKind {
        match self {
            Rejection::EmailExists => ErrorKind::Conflict,
            Rejection::UserNotFound | Rejection::NotFound => ErrorKind::NotFound,
            _ => ErrorKind::InvalidInput,
        }
    }

    /// The HTTP status that goes out with this refusal.
    pub open spec fn status_spec(self) -> u16 {
        self.kind_spec().status_spec()
    }

    /// The text that goes out with this refusal.
    pub open spec fn message_spec(self) -> Seq<char> {
        match self {
            Rejection::InvalidJsonBody => "Invalid JSON body"@,
            Rejection::NameRequired => "Name is required"@,
            Rejection::NameEmpty => "Name cannot be empty"@,
            Rejection::InvalidEmail => "Invalid email"@,
            Rejection::EmailExists => "Email already exists"@,
            Rejection::UserNotFound => "User not found"@,
            Rejection::InvalidJson => "Invalid JSON"@,
            Rejection::EmptyData => "Data array is empty"@,
            Rejection::UnknownOperation(name) => "Unknown operation: "@ + name@,
            Rejection::NotFound => "Not found"@,
        }
    }

    /// The cause that this refusal falls under.
    pub fn kind(&self) -> (kind: ErrorKind)
        ensures
            kind == self.kind_spec(),
    {
        match self {
            Rejection::EmailExists => ErrorKind::Conflict,
            Rejection::UserNotFound => ErrorKind::NotFound,
            Rejection::NotFound => ErrorKind::NotFound,
            _ => ErrorKind::InvalidInput,
        }
    }

    /// The HTTP status that goes out with this refusal.
    pub fn status(&self) -> (code: u16)
        ensures
            code == self.status_spec(),
            code == 400 || code == 404 || code == 409,
    {
        self.kind().status()
    }

    /// The text that goes out with this refusal.
    pub fn message(&self) -> (text: String)
        ensures
            text@ == self.message_spec(),
    {
        match self {
            Rejection::InvalidJsonBody => String::from_str("Invalid JSON body"),
            Rejection::NameRequired => String::from_str("Name is required"),
            Rejection::NameEmpty => String::from_str("Name cannot be empty"),
            Rejection::InvalidEmail => String::from_str("Invalid email"),
            Rejection::EmailExists => String::from_str("Email already exists"),
            Rejection::UserNotFound => String::from_str("User not found"),
            Rejection::InvalidJson => String::from_str("Invalid JSON"),
            Rejection::EmptyData => String::from_str("Data array is empty"),
            Rejection::UnknownOperation(name) => {
                String::from_str("Unknown operation: ").concat(name.as_str())
            },
            Rejection::NotFound => String::from_str("Not found"),
        }
    }
}

/// The uniform body of a JSON answer: either a payload or an error text.
#[derive(Clone, Debug, PartialEq, Eq)]
pub struct ApiResponse<T> {
    pub success: bool,
    pub data: Option<T>,
    pub error: Option<String>,
}

impl<T> ApiResponse<T> {
    /// A success carries no error text, a failure carries no payload.
    pub open spec fn well_formed(&self) -> bool {
        &&& self.success ==> self.error is None
        &&& !self.success ==> self.data is None
    }

    /// The success envelope around `data`.
    pub fn ok(data: T) -> (body: Self)
        ensures
            body.success,
            body.data == Some(data),
            body.error is None,
            body.well_formed(),
    {
        ApiResponse { success: true, data: Some(data), error: None }
    }

    /// The success envelope that carries nothing.
    pub fn empty() -> (body: Self)
        ensures
            body.success,
            body.data is None,
            body.error is None,
            body.well_formed(),
    {
        ApiResponse { success: true, data: None, error: None }
    }

    /// The failure envelope with the text of `reason`.
    pub fn fail(reason: &Rejection) -> (body: Self)
        ensures
            !body.success,
            body.data is None,
            body.error is Some,
            body.error->0@ == reason.message_spec(),
            body.well_formed(),
    {
        ApiResponse { success: false, data: None, error: Some(reason.message()) }
    }
}

/// A JSON answer: the HTTP status and the envelope.
#[derive(Clone, Debug, PartialEq, Eq)]
pub struct JsonReply<T> {
    pub status: u16,
    pub body: ApiResponse<T>,
}

impl<T> JsonReply<T> {
    /// The answer is the refusal `reason`: its status, its text, no payload.
    pub open spec fn is_rejection(&self, reason: Rejection) -> bool {
        &&& self.status == reason.status_spec()
        &&& !self.body.success
        &&& self.body.data is None
        &&& self.body.error is Some
        &&& self.body.error->0@ == reason.message_spec()
    }

    /// The answer is a success with `status` that carries `data`.
    pub open spec fn is_success(&self, status: u16, data: Option<T>) -> bool {
        &&& self.status == status
        &&& self.body.success
        &&& self.body.data == data
        &&& self.body.error is None
    }

    /// 200 with `data`.
    pub fn ok(data: T) -> (reply: Self)
        ensures
            reply.is_success(STATUS_OK, Some(data)),
            reply.body.well_formed(),
    {
        JsonReply { status: STATUS_OK, body: ApiResponse::ok(data) }
    }

    /// 201 with the entity that was created.
    pub fn created(data: T) -> (reply: Self)
        ensures
            reply.is_success(STATUS_CREATED, Some(data)),
            reply.body.well_formed(),
    {
        JsonReply { status: STATUS_CREATED, body: ApiResponse::ok(data) }
    }

    /// 200 with no payload.
    pub fn done() -> (reply: Self)
        ensures
            reply.is_success(STATUS_OK, None),
            reply.body.well_formed(),
    {
        JsonReply { status: STATUS_OK, body: ApiResponse::empty() }
    }

    /// The answer that reports `reason`.
    pub fn rejected(reason: &Rejection) -> (reply: Self)
        ensures
            reply.is_rejection(*reason),
            reply.body.well_formed(),
    {
        JsonReply { status: reason.status(), body: ApiResponse::fail(reason) }
    }
}

/// A plain-text answer.
#[derive(Clone, Debug, PartialEq, Eq)]
pub struct TextReply {
    pub status: u16,
    pub text: String,
}

/// Every refusal goes out as a well-formed failure with one of the three
/// error statuses.
pub proof fn lemma_rejection_well_formed<T>(reply: JsonReply<T>, reason: Rejection)
    requires
        reply.is_rejection(reason),
    ensures
        reply.body.well_formed(),
        !reply.body.success,
        reply.status == 400 || reply.status == 404 || reply.status == 409,
{
}

/// Every success goes out as a well-formed envelope.
pub proof fn lemma_success_well_formed<T>(reply: JsonReply<T>, status: u16, data: Option<T>)
    requires
        reply.is_success(status, data),
    ensures
        reply.body.well_formed(),
        reply.body.success,
{
}

} // verus!
