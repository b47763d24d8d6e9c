//! A user store that keeps its users in memory, in order of creation. It
//! assigns the identifiers itself: the first user is "1", the next "2", and so
//! on.

use vstd::prelude::*;
use crate::decimal::{decimal, lemma_decimal_injective, to_decimal};
use crate::credential::within_limit;
use crate::error::Error;
use crate::http::{
    CreateUserRequest,
    CreateUserResponse,
    Credentials,
    GetUserRequest,
    GetUserResponse,
    UserRecord,
};
use crate::storage::{
    authenticate,
    create_user_spec,
    created,
    find,
    id_in_use,
    lemma_find_at,
    login_spec,
    register,
    registered,
    result_view,
    unique_emails,
    unique_ids,
    valid,
    Account,
    InsertOutcome,
    LookupOutcome,
    Registration,
    User,
    UserStorage,
};

verus! {

/// The accounts of a list of users.
pub open spec fn accounts_of(users: Seq<User>) -> Seq<Account> {
    Seq::new(users.len(), |i: int| users[i]@)
}

/// Each account's identifier is the decimal numeral of its place, counted
/// from one.
pub open spec fn numbered(accounts: Seq<Account>) -> bool {
    forall|i: int|
        0 <= i < accounts.len() ==> (#[trigger] accounts[i]).user_id == decimal((i + 1) as nat)
}

/// Accounts that are numbered by their places have identifiers of their own.
pub proof fn lemma_numbered_ids_are_unique(accounts: Seq<Account>)
    requires
        numbered(accounts),
    ensures
        unique_ids(accounts),
        !id_in_use(accounts, decimal(accounts.len() + 1)),
{
    assert forall|i: int, j: int| 0 <= i < j < accounts.len() implies (#[trigger] accounts[i]).user_id
        != (#[trigger] accounts[j]).user_id by {
        if accounts[i].user_id == accounts[j].user_id {
            lemma_decimal_injective((i + 1) as nat, (j + 1) as nat);
        }
    }
    assert forall|i: int| 0 <= i < accounts.len() implies (#[trigger] accounts[i]).user_id
        != decimal(accounts.len() + 1) by {
        if accounts[i].user_id == decimal(accounts.len() + 1) {
            lemma_decimal_injective((i + 1) as nat, accounts.len() + 1);
        }
    }
}

/// What creating a user comes to in a store in memory: what it comes to in any
/// store, and more, since the store itself never fails. A valid request whose
/// password is within the limit of the algorithm is decided by the email alone:
/// a free email gives the new user, a taken one `EmailAlreadyExists`.
/// `HashingFailure` is left for a password beyond that limit. The identifier
/// of a new user is the numeral that follows the number of users.
pub open spec fn create_in_memory_spec(
    before: Seq<Account>,
    after: Seq<Account>,
    req: Credentials,
    result: Result<UserRecord, Error>,
) -> bool {
    &&& create_user_spec(before, after, req, result)
    &&& match result {
        Ok(record) => record.user_id == decimal(before.len() + 1),
        Err(e) => {
            &&& e != Error::StorageFailure
            &&& e == Error::HashingFailure ==> !within_limit(req.password)
        },
    }
    &&& valid(req) && within_limit(req.password) && !registered(before, req.email) ==> result is Ok
}

/// The creation in place `i` of a row: its request is answered on the
/// accounts that the one before it left.
pub open spec fn creation_at(
    states: Seq<Seq<Account>>,
    reqs: Seq<Credentials>,
    results: Seq<Result<UserRecord, Error>>,
    i: int,
) -> bool {
    create_in_memory_spec(states[i], states[i + 1], reqs[i], results[i])
}

/// Creations in a row, one after the other on one store.
pub open spec fn created_in_turn(
    states: Seq<Seq<Account>>,
    reqs: Seq<Credentials>,
    results: Seq<Result<UserRecord, Error>>,
) -> bool {
    &&& states.len() == reqs.len() + 1
    &&& results.len() == reqs.len()
    &&& forall|i: int| 0 <= i < reqs.len() ==> #[trigger] creation_at(states, reqs, results, i)
}

/// Of any number of creations under one free email, made one after the other
/// with valid requests and passwords within the limit, exactly one succeeds:
/// the first. Each later one fails with `EmailAlreadyExists` and changes
/// nothing, so one account has been added at the end.
pub proof fn lemma_exactly_one_creation_succeeds(
    states: Seq<Seq<Account>>,
    reqs: Seq<Credentials>,
    results: Seq<Result<UserRecord, Error>>,
    email: Seq<char>,
    i: int,
)
    requires
        created_in_turn(states, reqs, results),
        !registered(states[0], email),
        forall|j: int|
            0 <= j < reqs.len() ==> (#[trigger] reqs[j]).email == email && valid(reqs[j])
                && within_limit(reqs[j].password),
        0 <= i < reqs.len(),
    ensures
        results[0] is Ok,
        i > 0 ==> results[i] == Err::<UserRecord, Error>(Error::EmailAlreadyExists),
        states[i + 1] == states[1],
        states[1].len() == states[0].len() + 1,
    decreases i,
{
    assert(creation_at(states, reqs, results, 0));
    assert(reqs[0].email == email);
    if i > 0 {
        lemma_exactly_one_creation_succeeds(states, reqs, results, email, i - 1);
        assert(states[i] == states[1]);
        assert(states[1][states[1].len() - 1].email == email);
        assert(registered(states[i], email));
        assert(creation_at(states, reqs, results, i));
        assert(reqs[i].email == email);
    }
}

/// A user store in memory.
pub struct MemoryUserStorage {
    users: Vec<User>,
}

impl View for MemoryUserStorage {
    type V = Seq<Account>;

    closed spec fn view(&self) -> Seq<Account> {
        accounts_of(self.users@)
    }
}

impl MemoryUserStorage {
    /// A store without users.
    pub fn new() -> (store: MemoryUserStorage)
        ensures
            store.well_formed(),
            store@ == Seq::<Account>::empty(),
    {
        let store = MemoryUserStorage { users: Vec::new() };
        assert(store@ =~= Seq::<Account>::empty());
        store
    }

    /// The number of users.
    pub fn len(&self) -> (n: usize)
        ensures
            n == self@.len(),
    {
        self.users.len()
    }

    /// Looks a user up by email. The store keeps emails distinct, so there is
    /// at most one; and a lookup in memory does not fail.
    pub fn select(&self, email: &String) -> (found: LookupOutcome)
        requires
            self.well_formed(),
        ensures
            match found {
                LookupOutcome::Found(user) => find(self@, email@) == Some(user@),
                LookupOutcome::Absent => find(self@, email@).is_none(),
                LookupOutcome::Failed => false,
            },
    {
        let mut i: usize = 0;
        while i < self.users.len()
            invariant
                i <= self.users.len(),
                self@ == accounts_of(self.users@),
                unique_emails(self@),
                forall|j: int| 0 <= j < i ==> (#[trigger] self@[j]).email != email@,
            decreases self.users.len() - i,
        {
            if self.users[i].email == *email {
                proof {
                    lemma_find_at(self@, i as int);
                }
                return LookupOutcome::Found(self.users[i].clone());
            }
            i += 1;
        }
        LookupOutcome::Absent
    }

    /// Stores a registration, as the persistence engine of this store: an
    /// email that is taken is refused as a duplicate and nothing changes; any
    /// other registration is added at the end under the next identifier.
    pub fn insert(&mut self, registration: Registration) -> (outcome: InsertOutcome)
        requires
            old(self).well_formed(),
        ensures
            final(self).well_formed(),
            match outcome {
                InsertOutcome::Inserted { user_id } => {
                    &&& !registered(old(self)@, registration.email@)
                    &&& !id_in_use(old(self)@, user_id@)
                    &&& user_id@ == decimal(old(self)@.len() + 1)
                    &&& final(self)@ == old(self)@.push(
                        Account {
                            user_id: user_id@,
                            email: registration.email@,
                            password_hash: registration.password_hash@,
                        },
                    )
                },
                InsertOutcome::Duplicate => {
                    &&& registered(old(self)@, registration.email@)
                    &&& final(self)@ == old(self)@
                },
                InsertOutcome::Failed => false,
            },
    {
        match self.select(&registration.email) {
            LookupOutcome::Absent => {
                proof {
                    lemma_numbered_ids_are_unique(self@);
                }
                let Registration { email, password_hash } = registration;
                let user_id = to_decimal(self.users.len() as u128 + 1);
                let ghost before = self@;
                let ghost account = Account {
                    user_id: user_id@,
                    email: email@,
                    password_hash: password_hash@,
                };
                self.users.push(User { user_id: user_id.clone(), email, password_hash });
                proof {
                    let after = self@;
                    assert(after =~= before.push(account));
                    assert forall|i: int, j: int| 0 <= i < j < after.len() implies (
                    #[trigger] after[i]).email != (#[trigger] after[j]).email by {
                        if j < before.len() {
                            assert(before[i].email != before[j].email);
                        } else {
                            assert(before[i].email != account.email);
                        }
                    }
                    assert(numbered(after));
                }
                InsertOutcome::Inserted { user_id }
            },
            _ => InsertOutcome::Duplicate,
        }
    }
}

impl UserStorage for MemoryUserStorage {
    open spec fn accounts(&self) -> Seq<Account> {
        self@
    }

    /// Emails are distinct, and each identifier is the decimal numeral of the
    /// account's place, counted from one.
    open spec fn well_formed(&self) -> bool {
        unique_emails(self@) && numbered(self@)
    }

    /// Creates a user: validates the request, hashes the password and stores
    /// the registration under the next identifier.
    fn create_user(&mut self, req: CreateUserRequest) -> (r: Result<CreateUserResponse, Error>)
        ensures
            create_in_memory_spec(old(self)@, final(self)@, req@, result_view(r)),
    {
        let registration = match register(req) {
            Ok(registration) => registration,
            Err(e) => {
                return Err(e);
            },
        };
        let email = registration.email.clone();
        let outcome = self.insert(registration);
        proof {
            if outcome is Inserted {
                assert(self@.drop_last() =~= old(self)@);
            }
        }
        created(email, outcome)
    }

    /// Logs a user in. The lookup in memory does not fail, so the result is
    /// the login on the account stored under the email.
    fn get_user(&self, req: GetUserRequest) -> (r: Result<GetUserResponse, Error>)
        ensures
            result_view(r) == login_spec(find(self@, req@.email), req@),
    {
        let found = self.select(&req.email);
        authenticate(req, found)
    }
}

} // verus!
