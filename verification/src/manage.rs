//! User management: the creation of a new user.
//!
//! [`create`] asks the backend whether the name is taken, hashes the password,
//! hands the record to the backend and turns whatever went wrong into an
//! [`Outcome`] for the client. Check and insert are two calls: two requests
//! for one name may both pass the check. Only a uniqueness constraint in the
//! backend itself rules out duplicates.

use crate::backend::{AuthConnector, AuthContext, UserInfo};
use crate::argon::MAX_SECRET_LEN;
use crate::password::{hash, hash_of};
use vstd::prelude::*;
use vstd::string::*;

verus! {

/// What a client is told about a request that did not succeed.
#[derive(Debug)]
pub struct ErrorReply {
    /// A fixed identifier of the kind of failure, for the client to branch on.
    pub id: String,
    /// A sentence for a human reader.
    pub message: String,
}

/// An [`ErrorReply`] as its two texts.
pub struct ErrorReplyView {
    pub id: Seq<char>,
    pub message: Seq<char>,
}

impl View for ErrorReply {
    type V = ErrorReplyView;

    open spec fn view(&self) -> ErrorReplyView {
        ErrorReplyView { id: self.id@, message: self.message@ }
    }
}

/// How a request ended, as the client is to see it.
#[derive(Debug)]
pub enum Outcome {
    /// The user was handed to the backend and the backend took it.
    Created,
    /// The name is taken.
    Conflict { reply: ErrorReply },
    /// The backend or the hashing failed. The reply says no more than that.
    Internal { reply: ErrorReply },
}

/// An [`Outcome`] with its reply as texts.
pub enum OutcomeView {
    Created,
    Conflict { reply: ErrorReplyView },
    Internal { reply: ErrorReplyView },
}

impl View for Outcome {
    type V = OutcomeView;

    open spec fn view(&self) -> OutcomeView {
        match *self {
            Outcome::Created => OutcomeView::Created,
            Outcome::Conflict { reply } => OutcomeView::Conflict { reply: reply@ },
            Outcome::Internal { reply } => OutcomeView::Internal { reply: reply@ },
        }
    }
}

/// The message of a conflict about `name`.
pub open spec fn conflict_message(name: Seq<char>) -> Seq<char> {
    "A user with name '"@ + name + "' already exists"@
}

/// The conflict about `name`: identifier `user-exists` and the message that
/// names it.
pub open spec fn conflict(name: Seq<char>) -> OutcomeView {
    OutcomeView::Conflict {
        reply: ErrorReplyView { id: "user-exists"@, message: conflict_message(name) },
    }
}

/// The one reply to an internal failure: identifier `internal-error` and a
/// message that is the same whatever failed.
pub open spec fn internal() -> OutcomeView {
    OutcomeView::Internal {
        reply: ErrorReplyView { id: "internal-error"@, message: "An internal error has occurred"@ },
    }
}

impl Outcome {
    /// The HTTP status that goes with this outcome.
    pub open spec fn status_code(self) -> u16 {
        match self {
            Outcome::Created => 200,
            Outcome::Conflict { .. } => 409,
            Outcome::Internal { .. } => 500,
        }
    }

    /// The HTTP status that goes with this outcome: 200, 409 or 500.
    pub fn status(&self) -> (code: u16)
        ensures
            code == self.status_code(),
    {
        match self {
            Outcome::Created => 200,
            Outcome::Conflict { .. } => 409,
            Outcome::Internal { .. } => 500,
        }
    }
}

/// What can go wrong while a user is created. `E` is the error of the backend.
#[derive(Debug)]
#[allow(inconsistent_fields)]
pub enum Error<E> {
    /// The backend failed to say whether a user exists.
    ConnectorUserExists { user: String, err: E },
    /// The backend failed to insert a user.
    ConnectorInsertUser { user: String, err: E },
    /// Failed to hash a password.
    PasswordHash { err: crate::password::Error },
    /// A user with this name exists already.
    UserExists { name: String },
}

/// An [`Error`] with its names as texts.
#[allow(inconsistent_fields)]
pub enum ErrorView<E> {
    ConnectorUserExists { user: Seq<char>, err: E },
    ConnectorInsertUser { user: Seq<char>, err: E },
    PasswordHash { err: crate::password::Error },
    UserExists { name: Seq<char> },
}

impl<E> View for Error<E> {
    type V = ErrorView<E>;

    open spec fn view(&self) -> ErrorView<E> {
        match *self {
            Error::ConnectorUserExists { user, err } => ErrorView::ConnectorUserExists {
                user: user@,
                err,
            },
            Error::ConnectorInsertUser { user, err } => ErrorView::ConnectorInsertUser {
                user: user@,
                err,
            },
            Error::PasswordHash { err } => ErrorView::PasswordHash { err },
            Error::UserExists { name } => ErrorView::UserExists { name: name@ },
        }
    }
}

impl<E> ErrorView<E> {
    /// The text of [`Error::message`].
    pub open spec fn message_text(self) -> Seq<char> {
        match self {
            ErrorView::ConnectorUserExists { user, .. } => "Database connector failed to check if user '"@
                + user + "' exists"@,
            ErrorView::ConnectorInsertUser { user, .. } => "Database connector failed to insert user '"@
                + user + "'"@,
            ErrorView::PasswordHash { err } => "Failed to hash password: "@ + err.message_text(),
            ErrorView::UserExists { name } => "User with name '"@ + name + "' already exists"@,
        }
    }

    /// What [`Error::source`] returns.
    pub open spec fn cause(self) -> Option<E> {
        match self {
            ErrorView::ConnectorUserExists { err, .. } => Some(err),
            ErrorView::ConnectorInsertUser { err, .. } => Some(err),
            ErrorView::PasswordHash { .. } => None,
            ErrorView::UserExists { .. } => None,
        }
    }

    /// What the client is told of this error: a taken name is a conflict that
    /// names it, everything else is the internal failure.
    pub open spec fn response(self) -> OutcomeView {
        match self {
            ErrorView::UserExists { name } => conflict(name),
            _ => internal(),
        }
    }
}

/// What [`screen`] decides: a free name may go on, a taken one is
/// `UserExists`, and an error of the backend is `ConnectorUserExists`.
pub open spec fn screened<E>(name: Seq<char>, answer: Result<bool, E>) -> Result<(), ErrorView<E>> {
    match answer {
        Ok(false) => Ok(()),
        Ok(true) => Err(ErrorView::UserExists { name }),
        Err(err) => Err(ErrorView::ConnectorUserExists { user: name, err }),
    }
}

/// What [`conclude`] decides: an insert that failed is `ConnectorInsertUser`.
pub open spec fn concluded<E>(user: Seq<char>, answer: Result<(), E>) -> Result<(), ErrorView<E>> {
    match answer {
        Ok(()) => Ok(()),
        Err(err) => Err(ErrorView::ConnectorInsertUser { user, err }),
    }
}

/// What [`respond`] answers: `Created`, or the response to the error.
pub open spec fn responded<E>(result: Result<(), ErrorView<E>>) -> OutcomeView {
    match result {
        Ok(()) => OutcomeView::Created,
        Err(err) => err.response(),
    }
}

impl<E> Error<E> {
    /// What went wrong, for the server's log. The cause of a backend failure
    /// is not in it; see [`Error::source`].
    pub fn message(&self) -> (text: String)
        ensures
            text@ == self@.message_text(),
    {
        match self {
            Error::ConnectorUserExists { user, .. } => String::from_str(
                "Database connector failed to check if user '",
            ).concat(user.as_str()).concat("' exists"),
            Error::ConnectorInsertUser { user, .. } => String::from_str(
                "Database connector failed to insert user '",
            ).concat(user.as_str()).concat("'"),
            Error::PasswordHash { err } => {
                let cause = err.message();
                String::from_str("Failed to hash password: ").concat(cause.as_str())
            },
            Error::UserExists { name } => String::from_str("User with name '").concat(
                name.as_str(),
            ).concat("' already exists"),
        }
    }

    /// The backend's error behind this one, where the backend failed.
    pub fn source(&self) -> (cause: Option<&E>)
        ensures
            match cause {
                Some(err) => self@.cause() == Some(*err),
                None => self@.cause() is None,
            },
    {
        match self {
            Error::ConnectorUserExists { err, .. } => Some(err),
            Error::ConnectorInsertUser { err, .. } => Some(err),
            Error::PasswordHash { .. } => None,
            Error::UserExists { .. } => None,
        }
    }

    /// Converts this error into what the client is told.
    ///
    /// A taken name is a conflict and the reply names it. Everything else is
    /// an internal failure, and the reply is the same for all of them: nothing
    /// of the backend's or the hash function's error reaches the client.
    pub fn into_response(self) -> (out: Outcome)
        ensures
            out@ == self@.response(),
    {
        match self {
            Error::UserExists { name } => {
                let message = String::from_str("A user with name '").concat(name.as_str()).concat(
                    "' already exists",
                );
                Outcome::Conflict { reply: ErrorReply { id: String::from_str("user-exists"), message } }
            },
            _ => Outcome::Internal {
                reply: ErrorReply {
                    id: String::from_str("internal-error"),
                    message: String::from_str("An internal error has occurred"),
                },
            },
        }
    }
}

/// Decides from the backend's answer to "does a user of this name exist?"
/// whether the creation may go on.
///
/// `Ok(false)`, the name is free: go on. `Ok(true)`, the name is taken:
/// `UserExists`, and nothing is inserted. An error of the backend:
/// `ConnectorUserExists`, with the name and the error.
pub fn screen<E>(name: &str, answer: Result<bool, E>) -> (r: Result<(), Error<E>>)
    ensures
        match r {
            Ok(()) => screened(name@, answer) is Ok,
            Err(err) => screened(name@, answer) == Err::<(), ErrorView<E>>(err@),
        },
{
    match answer {
        Ok(false) => Ok(()),
        Ok(true) => Err(Error::UserExists { name: String::from_str(name) }),
        Err(err) => Err(Error::ConnectorUserExists { user: String::from_str(name), err }),
    }
}

/// Decides from the backend's answer to the insert whether the user was
/// created: an error of the backend is `ConnectorInsertUser`, with the name
/// and the error.
pub fn conclude<E>(user: String, answer: Result<(), E>) -> (r: Result<(), Error<E>>)
    ensures
        match r {
            Ok(()) => concluded(user@, answer) is Ok,
            Err(err) => concluded(user@, answer) == Err::<(), ErrorView<E>>(err@),
        },
{
    match answer {
        Ok(()) => Ok(()),
        Err(err) => Err(Error::ConnectorInsertUser { user, err }),
    }
}

/// Turns the result of [`register`] into what the client is told.
pub fn respond<E>(result: Result<(), Error<E>>) -> (out: Outcome)
    ensures
        match result {
            Ok(()) => out@ == OutcomeView::Created,
            Err(err) => out@ == err@.response(),
        },
{
    match result {
        Ok(()) => Outcome::Created,
        Err(err) => err.into_response(),
    }
}

/// The backend was asked about the record: `conn` is the connector that
/// `context` gave, `name` is what the record gave as its name, and `answer` is
/// what the connector said when asked whether a user of that name exists.
pub open spec fn asked<U: UserInfo, C: AuthContext<U>>(
    context: C,
    info: U,
    conn: &C::Connector,
    name: &str,
    answer: Result<bool, <C::Connector as AuthConnector<U>>::Error>,
) -> bool {
    &&& call_ensures(C::auth_connector, (&context,), conn)
    &&& call_ensures(U::name, (&info,), name)
    &&& exists|put: &str|
        put@ == name@ && #[trigger] call_ensures(
            <C::Connector as AuthConnector<U>>::user_exists,
            (conn, put),
            answer,
        )
}

/// What the record gave as its password is too long to be hashed: more than
/// 2^32 - 1 bytes.
pub open spec fn overlong<U: UserInfo>(info: U) -> bool {
    exists|plain: &str| #[trigger]
        call_ensures(U::password, (&info,), plain) && plain.spec_bytes().len() > MAX_SECRET_LEN
}

/// Replaces the password of `info` by its hash under a fresh salt.
///
/// On `Ok`, the record is as `update_password` leaves it when it is handed
/// the hash of what `password` returned. It is an error, `HashCompute`, only
/// where `password` returned more than 2^32 - 1 bytes, and the record is then
/// as it was.
pub fn seal<U: UserInfo>(info: &mut U) -> (r: Result<(), crate::password::Error>)
    ensures
        r matches Err(e) ==> e is HashCompute,
        r is Ok ==> exists|plain: &str, me: &mut U, text: String|
            #![trigger
                call_ensures(U::password, (&*old(info),), plain),
                call_ensures(U::update_password, (me, text), ())]
            {
                &&& call_ensures(U::password, (&*old(info),), plain)
                &&& hash_of(plain.spec_bytes(), text@)
                &&& *me == *old(info)
                &&& *final(me) == *final(info)
                &&& call_ensures(U::update_password, (me, text), ())
            },
        r is Err ==> *final(info) == *old(info) && overlong(*old(info)),
{
    match hash(info.password().as_bytes()) {
        Ok(text) => {
            info.update_password(text);
            Ok(())
        },
        Err(err) => Err(err),
    }
}

/// Carries out the creation of a new user and says what went wrong, if
/// anything did.
///
/// In this order: asks the backend whether the name of `info` is taken
/// ([`screen`]); replaces the password of `info` by its hash ([`seal`]); hands
/// `info` to the backend; and takes the backend's word for the insert
/// ([`conclude`]). The first step that fails ends the request. So the backend
/// is never handed a record whose password was not hashed, nor any record
/// under a name that it reported as taken. Nothing is tried twice.
///
/// The contract follows these steps. Whatever the backend answered to the
/// check, the result is what [`screen`] makes of it, if that is an error.
/// Else either the password is too long to be hashed and the result is
/// `PasswordHash`, or the record was sealed, the sealed record was handed to
/// the backend, and the result is what [`conclude`] makes of its answer.
pub fn register<U: UserInfo, C: AuthContext<U>>(context: C, info: U) -> (r: Result<
    (),
    Error<<C::Connector as AuthConnector<U>>::Error>,
>)
    ensures
        r matches Err(Error::PasswordHash { err }) ==> err is HashCompute,
        exists|
            conn: &C::Connector,
            name: &str,
            answer: Result<bool, <C::Connector as AuthConnector<U>>::Error>,
        |
            #[trigger] asked(context, info, conn, name, answer) && match screened(name@, answer) {
                Err(failed) => r matches Err(err) && err@ == failed,
                Ok(()) => {
                    ||| (r matches Err(Error::PasswordHash { .. })) && overlong(info)
                    ||| exists|
                        plain: &str,
                        me: &mut U,
                        text: String,
                        inserted: Result<(), <C::Connector as AuthConnector<U>>::Error>,
                    |
                        #![trigger
                            call_ensures(U::password, (&info,), plain),
                            call_ensures(U::update_password, (me, text), ()),
                            call_ensures(
                                <C::Connector as AuthConnector<U>>::insert_user,
                                (conn, *final(me)),
                                inserted,
                            )]
                        {
                            &&& call_ensures(U::password, (&info,), plain)
                            &&& hash_of(plain.spec_bytes(), text@)
                            &&& *me == info
                            &&& call_ensures(U::update_password, (me, text), ())
                            &&& call_ensures(
                                <C::Connector as AuthConnector<U>>::insert_user,
                                (conn, *final(me)),
                                inserted,
                            )
                            &&& match r {
                                Ok(()) => concluded(name@, inserted) is Ok,
                                Err(err) => concluded(name@, inserted) == Err::<
                                    (),
                                    ErrorView<<C::Connector as AuthConnector<U>>::Error>,
                                >(err@),
                            }
                        }
                },
            },
{
    let ghost given = info;
    let mut info = info;
    let conn = context.auth_connector();
    let name = info.name();
    let ghost named = name;
    let user = String::from_str(name);

    let answer = conn.user_exists(user.as_str());
    let ghost answered = answer;
    assert(asked(context, given, conn, named, answered));
    match screen(user.as_str(), answer) {
        Ok(()) => {},
        Err(err) => {
            return Err(err);
        },
    }

    match seal(&mut info) {
        Ok(()) => {},
        Err(err) => {
            return Err(Error::PasswordHash { err });
        },
    }

    conclude(user, conn.insert_user(info))
}

/// Creates a new user: [`register`], and the outcome as the client is to see
/// it ([`respond`]).
///
/// Whatever the backend answered to the check, the outcome is the response
/// to what [`screen`] makes of it, if that is an error: the conflict about
/// the record's name, or the internal failure. Else either the password is
/// too long to be hashed and the outcome is the internal failure, or the
/// sealed record was handed to the backend, and the outcome is `Created` if
/// the backend took it and the internal failure if not.
pub fn create<U: UserInfo, C: AuthContext<U>>(context: C, info: U) -> (out: Outcome)
    ensures
        out@ == OutcomeView::Created || out@ == internal() || exists|name: Seq<char>|
            out@ == #[trigger] conflict(name),
        exists|
            conn: &C::Connector,
            name: &str,
            answer: Result<bool, <C::Connector as AuthConnector<U>>::Error>,
        |
            #[trigger] asked(context, info, conn, name, answer) && match screened(name@, answer) {
                Err(failed) => out@ == failed.response(),
                Ok(()) => {
                    ||| out@ == internal() && overlong(info)
                    ||| exists|
                        plain: &str,
                        me: &mut U,
                        text: String,
                        inserted: Result<(), <C::Connector as AuthConnector<U>>::Error>,
                    |
                        #![trigger
                            call_ensures(U::password, (&info,), plain),
                            call_ensures(U::update_password, (me, text), ()),
                            call_ensures(
                                <C::Connector as AuthConnector<U>>::insert_user,
                                (conn, *final(me)),
                                inserted,
                            )]
                        {
                            &&& call_ensures(U::password, (&info,), plain)
                            &&& hash_of(plain.spec_bytes(), text@)
                            &&& *me == info
                            &&& call_ensures(U::update_password, (me, text), ())
                            &&& call_ensures(
                                <C::Connector as AuthConnector<U>>::insert_user,
                                (conn, *final(me)),
                                inserted,
                            )
                            &&& out@ == responded(concluded(name@, inserted))
                        }
                },
            },
{
    respond(register(context, info))
}

/// A name that the backend reports as taken is answered with the conflict
/// that names it: the creation does not go on to hashing or inserting.
pub proof fn law_taken_name_is_conflict<E>(name: Seq<char>)
    ensures
        screened::<E>(name, Ok(true)) == Err::<(), ErrorView<E>>(ErrorView::UserExists { name }),
        responded(screened::<E>(name, Ok(true))) == conflict(name),
{
}

/// A backend that fails, on the check or on the insert, is answered with the
/// internal failure, and that reply does not depend on what the backend
/// failed with.
pub proof fn law_backend_failure_is_internal<E>(name: Seq<char>, cause: E)
    ensures
        responded(screened(name, Err::<bool, E>(cause))) == internal(),
        responded(concluded(name, Err::<(), E>(cause))) == internal(),
{
}

/// Only a free name and an insert that the backend took end in `Created`.
pub proof fn law_created_needs_both<E>(name: Seq<char>, exists: Result<bool, E>, inserted: Result<(), E>)
    ensures
        responded(screened(name, exists)) == OutcomeView::Created <==> exists == Ok::<bool, E>(false),
        responded(concluded(name, inserted)) == OutcomeView::Created <==> inserted is Ok,
{
}

} // verus!
