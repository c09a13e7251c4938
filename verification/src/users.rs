use vstd::prelude::*;
use crate::envelope::{JsonReply, Rejection, STATUS_CREATED, STATUS_OK};
use crate::host::{fresh_id, timestamp_now, ID_LENGTH};
use crate::sql::Query;
use crate::text::{lowercase, to_lowercase, trim, trimmed};
use crate::validate::{is_non_empty_after_trim, looks_like_email};

verus! {

/// A user as the database holds it.
#[derive(Clone, Debug, PartialEq, Eq)]
pub struct User {
    pub id: String,
    pub name: String,
    pub email: String,
    pub created_at: String,
}

/// The four texts of a user.
pub struct UserView {
    pub id: Seq<char>,
    pub name: Seq<char>,
    pub email: Seq<char>,
    pub created_at: Seq<char>,
}

impl View for User {
    type V = UserView;

    open spec fn view(&self) -> UserView {
        UserView {
            id: self.id@,
            name: self.name@,
            email: self.email@,
            created_at: self.created_at@,
        }
    }
}

/// The body of a request that creates a user.
#[derive(Clone, Debug, PartialEq, Eq)]
pub struct CreateUserRequest {
    pub name: String,
    pub email: String,
}

/// The body of a request that changes a user; a field that is absent stays
/// as it is.
#[derive(Clone, Debug, PartialEq, Eq)]
pub struct UpdateUserRequest {
    pub name: Option<String>,
    pub email: Option<String>,
}

/// Name and email of a user that passed validation, in the form in which
/// they are stored.
#[derive(Clone, Debug, PartialEq, Eq)]
pub struct NewUser {
    pub name: String,
    pub email: String,
}

/// The text of an optional string.
pub open spec fn opt_text(s: Option<String>) -> Option<Seq<char>> {
    match s {
        Some(t) => Some(t@),
        None => None,
    }
}

/// What validation makes of the name and email of a new user: the refusal,
/// or the name without the whitespace around it and the email in lower case.
pub open spec fn checked_create(name: Seq<char>, email: Seq<char>) -> Result<
    (Seq<char>, Seq<char>),
    Rejection,
> {
    if trimmed(name).len() == 0 {
        Err(Rejection::NameRequired)
    } else if !email.contains('@') {
        Err(Rejection::InvalidEmail)
    } else {
        Ok((trimmed(name), lowercase(email)))
    }
}

/// What creating a user comes to in a store whose users have the emails
/// `taken`: the refusal, or name and email of the user that is stored.
pub open spec fn create_outcome(taken: Set<Seq<char>>, name: Seq<char>, email: Seq<char>) -> Result<
    (Seq<char>, Seq<char>),
    Rejection,
> {
    match checked_create(name, email) {
        Err(reason) => Err(reason),
        Ok((stored_name, stored_email)) => if taken.contains(stored_email) {
            Err(Rejection::EmailExists)
        } else {
            Ok((stored_name, stored_email))
        },
    }
}

/// What an update makes of `user`: the first refusal in the order name,
/// email, or the user with each given field replaced.
pub open spec fn checked_update(
    user: UserView,
    name: Option<Seq<char>>,
    email: Option<Seq<char>>,
) -> Result<UserView, Rejection> {
    if name is Some && trimmed(name->0).len() == 0 {
        Err(Rejection::NameEmpty)
    } else if email is Some && !email->0.contains('@') {
        Err(Rejection::InvalidEmail)
    } else {
        Ok(
            UserView {
                id: user.id,
                name: if name is Some {
                    trimmed(name->0)
                } else {
                    user.name
                },
                email: if email is Some {
                    lowercase(email->0)
                } else {
                    user.email
                },
                created_at: user.created_at,
            },
        )
    }
}

/// Validates the fields of a new user and brings them into the stored form.
pub fn check_create(input: &CreateUserRequest) -> (out: Result<NewUser, Rejection>)
    ensures
        match checked_create(input.name@, input.email@) {
            Ok((name, email)) => out matches Ok(pending) && pending.name@ == name && pending.email@
                == email,
            Err(reason) => out == Err::<NewUser, Rejection>(reason),
        },
{
    if !is_non_empty_after_trim(input.name.as_str()) {
        return Err(Rejection::NameRequired);
    }
    if !looks_like_email(input.email.as_str()) {
        return Err(Rejection::InvalidEmail);
    }
    Ok(
        NewUser {
            name: String::from_str(trim(input.name.as_str())),
            email: to_lowercase(input.email.as_str()),
        },
    )
}

/// Applies the fields of `input` to `user`, each after its validation.
pub fn apply_update(user: User, input: &UpdateUserRequest) -> (out: Result<User, Rejection>)
    ensures
        match checked_update(user@, opt_text(input.name), opt_text(input.email)) {
            Ok(changed) => out matches Ok(after) && after@ == changed,
            Err(reason) => out == Err::<User, Rejection>(reason),
        },
{
    let mut user = user;
    match &input.name {
        Some(name) => {
            if !is_non_empty_after_trim(name.as_str()) {
                return Err(Rejection::NameEmpty);
            }
            user.name = String::from_str(trim(name.as_str()));
        },
        None => {},
    }
    match &input.email {
        Some(email) => {
            if !looks_like_email(email.as_str()) {
                return Err(Rejection::InvalidEmail);
            }
            user.email = to_lowercase(email.as_str());
        },
        None => {},
    }
    Ok(user)
}

/// The user that is stored for `pending` under `id`, created at `created_at`.
pub fn new_user(id: String, created_at: String, pending: NewUser) -> (user: User)
    ensures
        user@ == (UserView {
            id: id@,
            name: pending.name@,
            email: pending.email@,
            created_at: created_at@,
        }),
{
    User { id, name: pending.name, email: pending.email, created_at }
}

/// The statement that stores `user`.
pub fn insert_query(user: &User) -> (query: Query)
    ensures
        query matches Query::InsertUser { id, name, email, created_at } && id@ == user.id@ && name@
            == user.name@ && email@ == user.email@ && created_at@ == user.created_at@,
{
    Query::InsertUser {
        id: user.id.clone(),
        name: user.name.clone(),
        email: user.email.clone(),
        created_at: user.created_at.clone(),
    }
}

/// What creating a user does next.
#[derive(Clone, Debug, PartialEq, Eq)]
pub enum CreateUserStep {
    /// Ask the database whether `query` finds a user, then go on with
    /// `create_user_after_lookup`.
    FindEmail { pending: NewUser, query: Query },
    /// Run `query`, then go on with `create_user_after_insert`.
    Insert { user: User, query: Query },
    /// Answer.
    Respond(JsonReply<User>),
}

/// Creating a user, first step: `body` is the parsed request body, `None`
/// where it could not be parsed. A body that fails validation is answered
/// at once; for any other the database is asked for the email.
pub fn handle_create_user(body: Option<CreateUserRequest>) -> (step: CreateUserStep)
    ensures
        match body {
            None => step matches CreateUserStep::Respond(reply) && reply.is_rejection(
                Rejection::InvalidJsonBody,
            ),
            Some(input) => match checked_create(input.name@, input.email@) {
                Err(reason) => step matches CreateUserStep::Respond(reply) && reply.is_rejection(
                    reason,
                ),
                Ok((name, email)) => {
                    &&& step matches CreateUserStep::FindEmail { pending, query }
                    &&& pending.name@ == name
                    &&& pending.email@ == email
                    &&& query matches Query::FindUserByEmail { email: key }
                    &&& key@ == email
                },
            },
        },
{
    match body {
        None => CreateUserStep::Respond(JsonReply::rejected(&Rejection::InvalidJsonBody)),
        Some(input) => match check_create(&input) {
            Err(reason) => CreateUserStep::Respond(JsonReply::rejected(&reason)),
            Ok(pending) => {
                let query = Query::FindUserByEmail { email: pending.email.clone() };
                CreateUserStep::FindEmail { pending, query }
            },
        },
    }
}

/// Creating a user, second step: `exists` says whether the database found a
/// user with the email. If so the request is refused; if not, the user gets
/// a fresh id and the current time and is to be stored.
pub fn create_user_after_lookup(pending: NewUser, exists: bool) -> (step: CreateUserStep)
    ensures
        exists ==> (step matches CreateUserStep::Respond(reply) && reply.is_rejection(
            Rejection::EmailExists,
        )),
        !exists ==> {
            &&& step matches CreateUserStep::Insert { user, query }
            &&& user.name@ == pending.name@
            &&& user.email@ == pending.email@
            &&& user.id@.len() == ID_LENGTH
            &&& query matches Query::InsertUser { id, name, email, created_at }
            &&& id@ == user.id@
            &&& name@ == user.name@
            &&& email@ == user.email@
            &&& created_at@ == user.created_at@
        },
{
    if exists {
        return CreateUserStep::Respond(JsonReply::rejected(&Rejection::EmailExists));
    }
    let id = fresh_id();
    let now = timestamp_now();
    let user = new_user(id, now, pending);
    let query = insert_query(&user);
    CreateUserStep::Insert { user, query }
}

/// Creating a user, last step: the user is stored and goes out with 201.
pub fn create_user_after_insert(user: User) -> (reply: JsonReply<User>)
    ensures
        reply.is_success(STATUS_CREATED, Some(user)),
        reply.body.well_formed(),
{
    JsonReply::created(user)
}

/// Reading a user, first step: the statement that looks `id` up.
pub fn handle_get_user(id: &str) -> (query: Query)
    ensures
        query matches Query::FindUserById { id: key } && key@ == id@,
{
    Query::FindUserById { id: String::from_str(id) }
}

/// Reading a user, last step: the user that was found goes out with 200; if
/// none was found the answer is 404.
pub fn get_user_reply(found: Option<User>) -> (reply: JsonReply<User>)
    ensures
        match found {
            Some(user) => reply.is_success(STATUS_OK, Some(user)),
            None => reply.is_rejection(Rejection::UserNotFound),
        },
        reply.body.well_formed(),
{
    match found {
        Some(user) => JsonReply::ok(user),
        None => JsonReply::rejected(&Rejection::UserNotFound),
    }
}

/// What changing a user does next.
#[derive(Clone, Debug, PartialEq, Eq)]
pub enum UpdateUserStep {
    /// Run `query` for the user, then go on with `update_user_after_lookup`.
    FindUser { query: Query },
    /// Read and parse the request body, then go on with
    /// `update_user_after_body`.
    ReadBody { user: User },
    /// Run `query`, then go on with `update_user_after_write`.
    Persist { user: User, query: Query },
    /// Answer.
    Respond(JsonReply<User>),
}

/// Changing a user, first step: the user with `id` is looked up before
/// anything is read from the request.
pub fn handle_update_user(id: &str) -> (step: UpdateUserStep)
    ensures
        step matches UpdateUserStep::FindUser { query } && query matches Query::FindUserById {
            id: key,
        } && key@ == id@,
{
    UpdateUserStep::FindUser { query: handle_get_user(id) }
}

/// Changing a user, second step: without the user the answer is 404,
/// whatever the body holds; it is not even read. With the user, the body is
/// asked for.
pub fn update_user_after_lookup(existing: Option<User>) -> (step: UpdateUserStep)
    ensures
        match existing {
            None => step matches UpdateUserStep::Respond(reply) && reply.is_rejection(
                Rejection::UserNotFound,
            ),
            Some(user) => step == (UpdateUserStep::ReadBody { user }),
        },
{
    match existing {
        None => UpdateUserStep::Respond(JsonReply::rejected(&Rejection::UserNotFound)),
        Some(user) => UpdateUserStep::ReadBody { user },
    }
}

/// Changing a user, third step: `body` is the parsed request body, `None`
/// where it could not be parsed. A body that fails validation is answered
/// with 400 and nothing is written; any other is applied to `user`, and the
/// result is to be written under the id of the request.
pub fn update_user_after_body(id: &str, user: User, body: Option<UpdateUserRequest>) -> (step:
    UpdateUserStep)
    ensures
        match body {
            None => step matches UpdateUserStep::Respond(reply) && reply.is_rejection(
                Rejection::InvalidJsonBody,
            ),
            Some(input) => match checked_update(
                user@,
                opt_text(input.name),
                opt_text(input.email),
            ) {
                Err(reason) => step matches UpdateUserStep::Respond(reply) && reply.is_rejection(
                    reason,
                ),
                Ok(changed) => {
                    &&& step matches UpdateUserStep::Persist { user: after, query }
                    &&& after@ == changed
                    &&& query matches Query::UpdateUser { name, email, id: key }
                    &&& name@ == changed.name
                    &&& email@ == changed.email
                    &&& key@ == id@
                },
            },
        },
{
    match body {
        None => UpdateUserStep::Respond(JsonReply::rejected(&Rejection::InvalidJsonBody)),
        Some(input) => match apply_update(user, &input) {
            Err(reason) => UpdateUserStep::Respond(JsonReply::rejected(&reason)),
            Ok(after) => {
                let query = Query::UpdateUser {
                    name: after.name.clone(),
                    email: after.email.clone(),
                    id: String::from_str(id),
                };
                UpdateUserStep::Persist { user: after, query }
            },
        },
    }
}

/// Changing a user, last step: the changed user goes out with 200.
pub fn update_user_after_write(user: User) -> (reply: JsonReply<User>)
    ensures
        reply.is_success(STATUS_OK, Some(user)),
        reply.body.well_formed(),
{
    JsonReply::ok(user)
}

/// Removing a user, first step: the statement that deletes `id`.
pub fn handle_delete_user(id: &str) -> (query: Query)
    ensures
        query matches Query::DeleteUser { id: key } && key@ == id@,
{
    Query::DeleteUser { id: String::from_str(id) }
}

/// The number of rows that a statement changed; a result without this
/// number counts as no row.
pub open spec fn rows_changed(changes: Option<u64>) -> u64 {
    match changes {
        Some(n) => n,
        None => 0,
    }
}

/// Removing a user, last step: `changes` is the number of rows that the
/// database reports as changed. No row means that there was no such user,
/// and the answer is 404; else it is 200 without a payload.
pub fn delete_user_reply(changes: Option<u64>) -> (reply: JsonReply<()>)
    ensures
        rows_changed(changes) == 0 ==> reply.is_rejection(Rejection::UserNotFound),
        rows_changed(changes) != 0 ==> reply.is_success(STATUS_OK, None),
        reply.body.well_formed(),
{
    let changed: u64 = match changes {
        Some(n) => n,
        None => 0,
    };
    if changed == 0 {
        JsonReply::rejected(&Rejection::UserNotFound)
    } else {
        JsonReply::done()
    }
}

/// Two requests whose emails differ at most in case ask the database for
/// the same email: once the first is stored, the second is refused as a
/// duplicate, provided that it passes validation.
pub proof fn lemma_same_email_conflicts(
    taken: Set<Seq<char>>,
    first_name: Seq<char>,
    first_email: Seq<char>,
    second_name: Seq<char>,
    second_email: Seq<char>,
)
    requires
        create_outcome(taken, first_name, first_email) is Ok,
        checked_create(second_name, second_email) is Ok,
        lowercase(first_email) == lowercase(second_email),
    ensures
        create_outcome(
            taken.insert(create_outcome(taken, first_name, first_email)->Ok_0.1),
            second_name,
            second_email,
        ) == Err::<(Seq<char>, Seq<char>), Rejection>(Rejection::EmailExists),
{
}

} // verus!
