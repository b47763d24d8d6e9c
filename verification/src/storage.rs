//! The user store: what creating a user and logging one in must do, whatever
//! holds the users.
//!
//! A store is modelled by the sequence of its accounts in order of creation.
//! The rules themselves (validate, hash, read the engine's answer, verify,
//! reply) are functions here, so that a store backed by a database does its
//! two statements and leaves every decision to them.
//!
//! Emails are compared character by character: two emails that differ in case
//! are two emails.

use vstd::prelude::*;
use crate::credential::{hash_password, verifies, verify_password, verify_spec, within_limit};
use crate::error::{lemma_login_failures_look_alike, Error, Rejection};
use crate::http::{
    CreateUserRequest,
    CreateUserResponse,
    Credentials,
    GetUserRequest,
    GetUserResponse,
    UserRecord,
};

verus! {

/// One stored user as plain text: identifier, email and hash record.
pub ghost struct Account {
    pub user_id: Seq<char>,
    pub email: Seq<char>,
    pub password_hash: Seq<char>,
}

/// One stored user. The password is held as a hash record only.
#[derive(Debug, PartialEq, Eq)]
pub struct User {
    pub user_id: String,
    pub email: String,
    pub password_hash: String,
}

impl View for User {
    type V = Account;

    open spec fn view(&self) -> Account {
        Account {
            user_id: self.user_id@,
            email: self.email@,
            password_hash: self.password_hash@,
        }
    }
}

impl Clone for User {
    fn clone(&self) -> (copy: User)
        ensures
            copy == *self,
    {
        User {
            user_id: self.user_id.clone(),
            email: self.email.clone(),
            password_hash: self.password_hash.clone(),
        }
    }
}

/// What is handed to the persistence engine to create a user: the email and
/// the hash record of the password.
#[derive(Debug, PartialEq, Eq)]
pub struct Registration {
    pub email: String,
    pub password_hash: String,
}

/// The persistence engine's answer to an insert.
#[derive(Debug, PartialEq, Eq)]
pub enum InsertOutcome {
    /// The row was stored under the identifier that the engine assigned.
    Inserted { user_id: String },
    /// The email is taken: the engine's uniqueness constraint refused the row.
    Duplicate,
    /// The engine failed for another reason.
    Failed,
}

/// The persistence engine's answer to a lookup by email.
#[derive(Debug, PartialEq, Eq)]
pub enum LookupOutcome {
    /// The row stored under the email.
    Found(User),
    /// No row is stored under the email.
    Absent,
    /// The engine failed.
    Failed,
}

/// Whether some account has this email.
pub open spec fn registered(accounts: Seq<Account>, email: Seq<char>) -> bool {
    exists|i: int| 0 <= i < accounts.len() && (#[trigger] accounts[i]).email == email
}

/// Whether some account has this identifier.
pub open spec fn id_in_use(accounts: Seq<Account>, user_id: Seq<char>) -> bool {
    exists|i: int| 0 <= i < accounts.len() && (#[trigger] accounts[i]).user_id == user_id
}

/// The account stored under the email, if there is one.
pub open spec fn find(accounts: Seq<Account>, email: Seq<char>) -> Option<Account> {
    if registered(accounts, email) {
        Some(
            accounts[choose|i: int|
                0 <= i < accounts.len() && (#[trigger] accounts[i]).email == email],
        )
    } else {
        None
    }
}

/// No two accounts share an email.
pub open spec fn unique_emails(accounts: Seq<Account>) -> bool {
    forall|i: int, j: int|
        0 <= i < j < accounts.len() ==> (#[trigger] accounts[i]).email != (
        #[trigger] accounts[j]).email
}

/// No two accounts share an identifier.
pub open spec fn unique_ids(accounts: Seq<Account>) -> bool {
    forall|i: int, j: int|
        0 <= i < j < accounts.len() ==> (#[trigger] accounts[i]).user_id != (
        #[trigger] accounts[j]).user_id
}

/// A request to create a user is acceptable when neither field is empty.
pub open spec fn valid(req: Credentials) -> bool {
    req.email.len() > 0 && req.password.len() > 0
}

/// A result with its success taken by its view.
pub open spec fn result_view<T: View>(r: Result<T, Error>) -> Result<T::V, Error> {
    match r {
        Ok(value) => Ok(value@),
        Err(e) => Err(e),
    }
}

/// What a successful creation does to the accounts: one account is added at
/// the end, under a new identifier and an email that was free, with a hash
/// record that verifies the password; the accounts that were there stay as
/// they were.
pub open spec fn created_account(
    before: Seq<Account>,
    after: Seq<Account>,
    req: Credentials,
    record: UserRecord,
) -> bool {
    &&& !registered(before, req.email)
    &&& !id_in_use(before, record.user_id)
    &&& record.email == req.email
    &&& after.len() == before.len() + 1
    &&& after.drop_last() == before
    &&& after.last().user_id == record.user_id
    &&& after.last().email == req.email
    &&& verifies(after.last().password_hash, req.password)
}

/// What creating a user comes to in any store.
///
/// A request with an empty field fails with `InvalidInput`, and nothing else
/// does. Success is `created_account`. Every failure leaves the accounts as
/// they were; `EmailAlreadyExists` is given only for an email that is taken,
/// and an email that is taken never leads to success. The hashing algorithm
/// and the engine may fail on their own account, with `HashingFailure` and
/// `StorageFailure`.
pub open spec fn create_user_spec(
    before: Seq<Account>,
    after: Seq<Account>,
    req: Credentials,
    result: Result<UserRecord, Error>,
) -> bool {
    match result {
        Ok(record) => valid(req) && created_account(before, after, req, record),
        Err(e) => {
            &&& after == before
            &&& e == Error::InvalidInput <==> !valid(req)
            &&& e == Error::EmailAlreadyExists ==> registered(before, req.email)
            &&& (e == Error::InvalidInput || e == Error::EmailAlreadyExists || e
                == Error::HashingFailure || e == Error::StorageFailure)
        },
    }
}

/// What a login comes to, given the account found under the email: `NotFound`
/// without an account, the error of a hash record that does not parse,
/// `InvalidCredentials` for a password that the record does not accept, else
/// the user's identifier with the email that was asked for.
pub open spec fn login_spec(found: Option<Account>, req: Credentials) -> Result<UserRecord, Error> {
    match found {
        None => Err(Error::NotFound),
        Some(account) => match verify_spec(req.password, account.password_hash) {
            Ok(accepted) => if accepted {
                Ok(UserRecord { user_id: account.user_id, email: req.email })
            } else {
                Err(Error::InvalidCredentials)
            },
            Err(e) => Err(e),
        },
    }
}

/// What logging a user in comes to in any store: the login on the account
/// stored under the email, unless the engine failed.
pub open spec fn get_user_spec(
    accounts: Seq<Account>,
    req: Credentials,
    result: Result<UserRecord, Error>,
) -> bool {
    result == login_spec(find(accounts, req.email), req) || result == Err::<UserRecord, Error>(
        Error::StorageFailure,
    )
}

/// The reply to a create request, given the engine's answer to the insert.
pub open spec fn created_spec(email: Seq<char>, outcome: InsertOutcome) -> Result<
    UserRecord,
    Error,
> {
    match outcome {
        InsertOutcome::Inserted { user_id } => Ok(UserRecord { user_id: user_id@, email }),
        InsertOutcome::Duplicate => Err(Error::EmailAlreadyExists),
        InsertOutcome::Failed => Err(Error::StorageFailure),
    }
}

/// The reply to a login, given what checking the password came to.
pub open spec fn grant_spec(
    user_id: Seq<char>,
    email: Seq<char>,
    verified: Result<bool, Error>,
) -> Result<UserRecord, Error> {
    match verified {
        Ok(accepted) => if accepted {
            Ok(UserRecord { user_id, email })
        } else {
            Err(Error::InvalidCredentials)
        },
        Err(e) => Err(e),
    }
}

/// The reply to a login, given the engine's answer to the lookup.
pub open spec fn authenticate_spec(req: Credentials, found: LookupOutcome) -> Result<
    UserRecord,
    Error,
> {
    match found {
        LookupOutcome::Found(user) => login_spec(Some(user@), req),
        LookupOutcome::Absent => login_spec(None, req),
        LookupOutcome::Failed => Err(Error::StorageFailure),
    }
}

/// A store of users. Creating a user and logging one in are its two
/// operations; there is none that changes or removes a user.
pub trait UserStorage: Sync + Send {
    /// The accounts that the store holds, in order of creation.
    spec fn accounts(&self) -> Seq<Account>;

    /// The store's own invariant. Its constructors establish it, and creating
    /// a user keeps it.
    spec fn well_formed(&self) -> bool;

    /// Creates a user from an email and a password, and returns the
    /// identifier under which it was stored. The hash record is not returned.
    fn create_user(&mut self, req: CreateUserRequest) -> (r: Result<CreateUserResponse, Error>)
        requires
            old(self).well_formed(),
        ensures
            final(self).well_formed(),
            create_user_spec(old(self).accounts(), final(self).accounts(), req@, result_view(r)),
    ;

    /// Logs a user in by email and password.
    fn get_user(&self, req: GetUserRequest) -> (r: Result<GetUserResponse, Error>)
        requires
            self.well_formed(),
        ensures
            get_user_spec(self.accounts(), req@, result_view(r)),
    ;
}

/// Refuses a create request with an empty email or an empty password.
pub fn validate(req: &CreateUserRequest) -> (r: Result<(), Error>)
    ensures
        valid(req@) ==> r == Ok::<(), Error>(()),
        !valid(req@) ==> r == Err::<(), Error>(Error::InvalidInput),
{
    if req.email.as_str().is_empty() || req.password.as_str().is_empty() {
        Err(Error::InvalidInput)
    } else {
        Ok(())
    }
}

/// The first half of creating a user: validates the request and hashes the
/// password. What comes back is what the engine is asked to insert.
///
/// An empty field gives `InvalidInput` before any hashing. Any other request
/// whose password is within the limit of the algorithm gives a registration
/// under the request's email, with a hash record that verifies the password.
/// Beyond that limit the result is the same or `HashingFailure`.
pub fn register(req: CreateUserRequest) -> (r: Result<Registration, Error>)
    ensures
        valid(req@) && within_limit(req@.password) ==> r is Ok,
        match r {
            Ok(registration) => {
                &&& valid(req@)
                &&& registration.email@ == req@.email
                &&& verifies(registration.password_hash@, req@.password)
            },
            Err(e) => if valid(req@) {
                e == Error::HashingFailure && !within_limit(req@.password)
            } else {
                e == Error::InvalidInput
            },
        },
{
    match validate(&req) {
        Err(e) => Err(e),
        Ok(()) => {
            let CreateUserRequest { email, password } = req;
            match hash_password(password) {
                Ok(password_hash) => Ok(Registration { email, password_hash }),
                Err(e) => Err(e),
            }
        },
    }
}

/// The second half of creating a user: turns the engine's answer to the insert
/// into the reply. A refused duplicate is `EmailAlreadyExists`, any other
/// failure of the engine `StorageFailure`.
pub fn created(email: String, outcome: InsertOutcome) -> (r: Result<CreateUserResponse, Error>)
    ensures
        result_view(r) == created_spec(email@, outcome),
{
    match outcome {
        InsertOutcome::Inserted { user_id } => Ok(CreateUserResponse { user_id, email }),
        InsertOutcome::Duplicate => Err(Error::EmailAlreadyExists),
        InsertOutcome::Failed => Err(Error::StorageFailure),
    }
}

/// The reply to a login once the password has been checked against the stored
/// hash record: the user for an accepted password, `InvalidCredentials` for a
/// password that was not accepted, and the check's own error otherwise.
pub fn grant(user_id: String, email: String, verified: Result<bool, Error>) -> (r: Result<
    GetUserResponse,
    Error,
>)
    ensures
        result_view(r) == grant_spec(user_id@, email@, verified),
{
    match verified {
        Ok(accepted) => {
            if accepted {
                Ok(GetUserResponse { user_id, email })
            } else {
                Err(Error::InvalidCredentials)
            }
        },
        Err(e) => Err(e),
    }
}

/// Logging a user in, once the engine has answered the lookup by email:
/// checks the password against the stored hash record and replies.
pub fn authenticate(req: GetUserRequest, found: LookupOutcome) -> (r: Result<
    GetUserResponse,
    Error,
>)
    ensures
        result_view(r) == authenticate_spec(req@, found),
{
    match found {
        LookupOutcome::Found(user) => {
            let GetUserRequest { email, password } = req;
            let User { user_id, email: _, password_hash } = user;
            grant(user_id, email, verify_password(password, password_hash))
        },
        LookupOutcome::Absent => Err(Error::NotFound),
        LookupOutcome::Failed => Err(Error::StorageFailure),
    }
}

/// In accounts with distinct emails, the account found under an account's
/// email is that account.
pub proof fn lemma_find_at(accounts: Seq<Account>, i: int)
    requires
        unique_emails(accounts),
        0 <= i < accounts.len(),
    ensures
        find(accounts, accounts[i].email) == Some(accounts[i]),
{
    let email = accounts[i].email;
    let j = choose|j: int| 0 <= j < accounts.len() && (#[trigger] accounts[j]).email == email;
    assert(j == i);
}

/// A user that was created can log in: after a successful creation, the login
/// with the same email and password yields the record that the creation
/// returned, and a store answers it with that record unless its engine fails.
pub proof fn lemma_create_then_get(
    before: Seq<Account>,
    after: Seq<Account>,
    req: Credentials,
    record: UserRecord,
    reply: Result<UserRecord, Error>,
)
    requires
        create_user_spec(before, after, req, Ok(record)),
        get_user_spec(after, req, reply),
    ensures
        login_spec(find(after, req.email), req) == Ok::<UserRecord, Error>(record),
        reply == Ok::<UserRecord, Error>(record) || reply == Err::<UserRecord, Error>(
            Error::StorageFailure,
        ),
{
    let last = after.len() - 1;
    assert(after[last].email == req.email);
    let j = choose|j: int| 0 <= j < after.len() && (#[trigger] after[j]).email == req.email;
    if j < last {
        assert(after.drop_last()[j] == after[j]);
        assert(before[j].email == req.email);
    }
}

/// An email that is taken cannot be taken again: creating a user under it
/// fails and leaves the accounts, and so their number, as they were. For a
/// request that is valid the failure is `EmailAlreadyExists`, unless hashing
/// or the engine failed first.
pub proof fn lemma_taken_email_is_refused(
    before: Seq<Account>,
    after: Seq<Account>,
    req: Credentials,
    result: Result<UserRecord, Error>,
)
    requires
        registered(before, req.email),
        create_user_spec(before, after, req, result),
    ensures
        result is Err,
        after == before,
        after.len() == before.len(),
        valid(req) ==> result == Err::<UserRecord, Error>(Error::EmailAlreadyExists) || result
            == Err::<UserRecord, Error>(Error::HashingFailure) || result == Err::<
            UserRecord,
            Error,
        >(Error::StorageFailure),
{
}

/// Of two creations under one email, one after the other, the second fails
/// whenever the first succeeded, and changes nothing.
pub proof fn lemma_second_create_fails(
    start: Seq<Account>,
    middle: Seq<Account>,
    end: Seq<Account>,
    first: Credentials,
    second: Credentials,
    record: UserRecord,
    result: Result<UserRecord, Error>,
)
    requires
        first.email == second.email,
        create_user_spec(start, middle, first, Ok(record)),
        create_user_spec(middle, end, second, result),
    ensures
        result is Err,
        end == middle,
{
    assert(middle[middle.len() - 1].email == second.email);
}

/// Creating a user keeps emails distinct, and identifiers too.
pub proof fn lemma_create_keeps_uniqueness(
    before: Seq<Account>,
    after: Seq<Account>,
    req: Credentials,
    result: Result<UserRecord, Error>,
)
    requires
        create_user_spec(before, after, req, result),
    ensures
        unique_emails(before) ==> unique_emails(after),
        unique_ids(before) ==> unique_ids(after),
{
    if result is Ok {
        assert forall|i: int| 0 <= i < before.len() implies before[i] == #[trigger] after[i] by {
            assert(after.drop_last()[i] == after[i]);
        }
        if unique_emails(before) {
            assert forall|i: int, j: int| 0 <= i < j < after.len() implies (#[trigger] after[i]).email
                != (#[trigger] after[j]).email by {
                if j < before.len() {
                    assert(before[i].email != before[j].email);
                } else {
                    assert(before[i].email != req.email);
                }
            }
        }
        if unique_ids(before) {
            assert forall|i: int, j: int| 0 <= i < j < after.len() implies (
            #[trigger] after[i]).user_id != (#[trigger] after[j]).user_id by {
                if j < before.len() {
                    assert(before[i].user_id != before[j].user_id);
                } else {
                    assert(before[i].user_id != after[j].user_id);
                }
            }
        }
    }
}

/// A user, once created, is never changed: whatever a later creation comes
/// to, each account stays in its place as it was, and where emails are
/// distinct the same account is found under its email.
pub proof fn lemma_create_keeps_accounts(
    before: Seq<Account>,
    after: Seq<Account>,
    req: Credentials,
    result: Result<UserRecord, Error>,
    i: int,
)
    requires
        create_user_spec(before, after, req, result),
        0 <= i < before.len(),
    ensures
        i < after.len(),
        after[i] == before[i],
        unique_emails(before) ==> find(after, before[i].email) == Some(before[i]),
{
    if result is Ok {
        assert(after.drop_last()[i] == after[i]);
    }
    if unique_emails(before) {
        lemma_create_keeps_uniqueness(before, after, req, result);
        lemma_find_at(after, i);
    }
}

/// A login fails in one of two ways, and a caller cannot tell them apart: an
/// email that is not registered gives `NotFound`, a password that the stored
/// record does not accept gives `InvalidCredentials`, and whichever of the two
/// a login fails with, it is shown as a failed authentication.
pub proof fn lemma_login_failure_is_uniform(accounts: Seq<Account>, req: Credentials)
    ensures
        !registered(accounts, req.email) ==> login_spec(find(accounts, req.email), req) == Err::<
            UserRecord,
            Error,
        >(Error::NotFound),
        find(accounts, req.email) matches Some(account) ==> (verify_spec(
            req.password,
            account.password_hash,
        ) == Ok::<bool, Error>(false) ==> login_spec(find(accounts, req.email), req) == Err::<
            UserRecord,
            Error,
        >(Error::InvalidCredentials)),
        login_spec(find(accounts, req.email), req) matches Err(e) ==> (e == Error::NotFound || e
            == Error::InvalidCredentials ==> e.rejection_spec() == Rejection::AuthenticationFailed),
{
    if let Err(e) = login_spec(find(accounts, req.email), req) {
        lemma_login_failures_look_alike(e);
    }
}

} // verus!
