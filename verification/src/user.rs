//! The account registry: identities with salted password verifiers, unique
//! by username without regard to case.

use crate::errors::{AccountError, ValidationError};
use crate::primitives::{
    char_is_alphanumeric, fresh_id, is_alphanumeric, lowercase, str_lowercase,
};
use crate::text::{is_blank, is_blank_text, same_text, to_chars};
use crate::time::Timestamp;
use crate::phc::{make_verifier, test_password, verifier_check};
use vstd::prelude::*;

verus! {

/// The least number of characters in a username.
pub const MIN_USERNAME_LEN: usize = 3;

/// The greatest number of characters in a username.
pub const MAX_USERNAME_LEN: usize = 50;

/// The least number of characters in a password.
pub const MIN_PASSWORD_LEN: usize = 6;

/// The greatest number of characters in a password.
pub const MAX_PASSWORD_LEN: usize = 128;

/// A registered identity.
#[derive(Debug)]
pub struct User {
    /// The identity's unique id, which names its storage.
    pub id: String,
    /// The name the user chose.
    pub username: String,
    /// The password verifier, a PHC string. It serves to test a password and
    /// is no key.
    pub password_hash: String,
    /// The salt of the verifier.
    pub salt: String,
    /// When the identity was created.
    pub created_at: Timestamp,
}

/// A [`User`] with its strings as texts.
pub struct UserView {
    pub id: Seq<char>,
    pub username: Seq<char>,
    pub password_hash: Seq<char>,
    pub salt: Seq<char>,
    pub created_at: Timestamp,
}

impl View for User {
    type V = UserView;

    open spec fn view(&self) -> UserView {
        UserView {
            id: self.id@,
            username: self.username@,
            password_hash: self.password_hash@,
            salt: self.salt@,
            created_at: self.created_at,
        }
    }
}

impl Clone for User {
    fn clone(&self) -> (r: Self)
        ensures
            r@ == self@,
    {
        User {
            id: self.id.clone(),
            username: self.username.clone(),
            password_hash: self.password_hash.clone(),
            salt: self.salt.clone(),
            created_at: self.created_at,
        }
    }
}

/// What testing `password` against a verifier gives: whether it verifies, or
/// an error where the verifier is no password hash string.
pub open spec fn verification(verifier: Seq<char>, password: Seq<char>) -> Result<
    bool,
    AccountError,
> {
    match verifier_check(verifier, password) {
        Some(verdict) => Ok(verdict),
        None => Err(AccountError::MalformedVerifier),
    }
}

impl User {
    /// Creates an identity for `username` with a fresh id, a verifier for
    /// `password` under a fresh random salt, and the current time.
    ///
    /// Id, salt and time are not determined by the arguments. Of the verifier
    /// the contract says what matters: `password` verifies against it.
    pub fn new(username: String, password: &str) -> (res: Result<User, AccountError>)
        ensures
            match res {
                Ok(user) => user.username@ == username@ && verifier_check(
                    user.password_hash@,
                    password@,
                ) == Some(true),
                Err(e) => e == AccountError::HashingFailed,
            },
    {
        let verifier = make_verifier(password);
        if verifier.is_none() {
            return Err(AccountError::HashingFailed);
        }
        User::with_verifier(fresh_id(), username, verifier, Timestamp::now())
    }

    /// An identity of the given parts with the verifier and salt that were
    /// made for it; the failure where none were made.
    pub fn with_verifier(
        id: String,
        username: String,
        verifier: Option<(String, String)>,
        created_at: Timestamp,
    ) -> (res: Result<User, AccountError>)
        ensures
            match verifier {
                Some(pair) => res matches Ok(user) && user@ == (UserView {
                    id: id@,
                    username: username@,
                    password_hash: pair.0@,
                    salt: pair.1@,
                    created_at,
                }),
                None => res matches Err(e) && e == AccountError::HashingFailed,
            },
    {
        match verifier {
            None => Err(AccountError::HashingFailed),
            Some(pair) => Ok(
                User { id, username, password_hash: pair.0, salt: pair.1, created_at },
            ),
        }
    }

    /// Tests `password` against the stored verifier.
    pub fn verify_password(&self, password: &str) -> (res: Result<bool, AccountError>)
        ensures
            res == verification(self.password_hash@, password@),
    {
        match test_password(self.password_hash.as_str(), password) {
            Some(verdict) => Ok(verdict),
            None => Err(AccountError::MalformedVerifier),
        }
    }
}

/// The views of a sequence of users.
pub open spec fn user_views(users: Seq<User>) -> Seq<UserView> {
    users.map_values(|u: User| u@)
}

/// Whether a character may stand in a username.
pub open spec fn is_username_char(c: char) -> bool {
    char_is_alphanumeric(c) || c == '_' || c == '-'
}

/// Whether every character of `s` may stand in a username.
pub open spec fn has_username_chars(s: Seq<char>) -> bool {
    forall|i: int| 0 <= i < s.len() ==> is_username_char(#[trigger] s[i])
}

/// What is wrong with the shape of a username, if anything. The tests are
/// made in this order: blank, too short, too long, characters.
pub open spec fn username_fault(username: Seq<char>) -> Option<ValidationError> {
    if is_blank_text(username) {
        Some(ValidationError::EmptyUsername)
    } else if username.len() < MIN_USERNAME_LEN {
        Some(ValidationError::UsernameTooShort)
    } else if username.len() > MAX_USERNAME_LEN {
        Some(ValidationError::UsernameTooLong)
    } else if !has_username_chars(username) {
        Some(ValidationError::InvalidUsernameCharacters)
    } else {
        None
    }
}

/// What is wrong with the length of a password, if anything.
pub open spec fn password_fault(password: Seq<char>) -> Option<ValidationError> {
    if password.len() < MIN_PASSWORD_LEN {
        Some(ValidationError::PasswordTooShort)
    } else if password.len() > MAX_PASSWORD_LEN {
        Some(ValidationError::PasswordTooLong)
    } else {
        None
    }
}

/// Whether some identity has `username`, compared without regard to case.
pub open spec fn name_taken(users: Seq<UserView>, username: Seq<char>) -> bool {
    exists|i: int|
        0 <= i < users.len() && str_lowercase((#[trigger] users[i]).username) == str_lowercase(
            username,
        )
}

/// Why a registration is turned down, if it is: the username's shape comes
/// first, then the password's length, then the test for a duplicate.
pub open spec fn registration_fault(
    users: Seq<UserView>,
    username: Seq<char>,
    password: Seq<char>,
) -> Option<ValidationError> {
    if username_fault(username) is Some {
        username_fault(username)
    } else if password_fault(password) is Some {
        password_fault(password)
    } else if name_taken(users, username) {
        Some(ValidationError::DuplicateUsername)
    } else {
        None
    }
}

/// Whether no two identities share a username, compared without regard to
/// case.
pub open spec fn usernames_distinct(users: Seq<UserView>) -> bool {
    forall|i: int, j: int|
        0 <= i < j < users.len() ==> str_lowercase((#[trigger] users[i]).username)
            != str_lowercase((#[trigger] users[j]).username)
}

/// Whether no two identities share an id.
pub open spec fn user_ids_distinct(users: Seq<UserView>) -> bool {
    forall|i: int, j: int|
        0 <= i < j < users.len() ==> (#[trigger] users[i]).id != (#[trigger] users[j]).id
}

/// Whether some identity has this id.
pub open spec fn id_taken(users: Seq<UserView>, id: Seq<char>) -> bool {
    exists|i: int| 0 <= i < users.len() && (#[trigger] users[i]).id == id
}

/// The invariant of the registry: usernames are unique without regard to
/// case, and ids are unique.
pub open spec fn registry_well_formed(users: Seq<UserView>) -> bool {
    usernames_distinct(users) && user_ids_distinct(users)
}

/// The position of the identity with exactly this username, if there is one.
pub open spec fn position_of(users: Seq<UserView>, username: Seq<char>) -> Option<int>
    decreases users.len(),
{
    if users.len() == 0 {
        None
    } else {
        match position_of(users.drop_last(), username) {
            Some(i) => Some(i),
            None => if users.last().username == username {
                Some(users.len() - 1)
            } else {
                None
            },
        }
    }
}

/// [`position_of`] finds the first identity with the username and finds
/// nothing only where no identity has it.
pub proof fn lemma_position_of(users: Seq<UserView>, username: Seq<char>)
    ensures
        match position_of(users, username) {
            Some(i) => {
                &&& 0 <= i < users.len()
                &&& users[i].username == username
                &&& forall|j: int| 0 <= j < i ==> (#[trigger] users[j]).username != username
            },
            None => forall|j: int| 0 <= j < users.len() ==> (#[trigger] users[j]).username
                != username,
        },
    decreases users.len(),
{
    if users.len() > 0 {
        lemma_position_of(users.drop_last(), username);
        assert forall|j: int| 0 <= j < users.len() - 1 implies users[j] == users.drop_last()[j] by {}
    }
}

/// Tests the shape of a username.
pub fn validate_username(username: &str) -> (res: Result<(), ValidationError>)
    ensures
        match username_fault(username@) {
            Some(fault) => res == Err::<(), ValidationError>(fault),
            None => res == Ok::<(), ValidationError>(()),
        },
{
    if is_blank(username) {
        return Err(ValidationError::EmptyUsername);
    }
    let chars = to_chars(username);
    if chars.len() < MIN_USERNAME_LEN {
        return Err(ValidationError::UsernameTooShort);
    }
    if chars.len() > MAX_USERNAME_LEN {
        return Err(ValidationError::UsernameTooLong);
    }
    let mut i: usize = 0;
    while i < chars.len()
        invariant
            i <= chars.len(),
            chars@ == username@,
            !is_blank_text(username@),
            MIN_USERNAME_LEN <= username@.len() <= MAX_USERNAME_LEN,
            forall|j: int| 0 <= j < i ==> is_username_char(#[trigger] username@[j]),
        decreases chars.len() - i,
    {
        let c = chars[i];
        if !(is_alphanumeric(c) || c == '_' || c == '-') {
            assert(!is_username_char(username@[i as int]));
            return Err(ValidationError::InvalidUsernameCharacters);
        }
        i += 1;
    }
    Ok(())
}

/// Tests the length of a password.
pub fn validate_password(password: &str) -> (res: Result<(), ValidationError>)
    ensures
        match password_fault(password@) {
            Some(fault) => res == Err::<(), ValidationError>(fault),
            None => res == Ok::<(), ValidationError>(()),
        },
{
    let count = password.unicode_len();
    if count < MIN_PASSWORD_LEN {
        Err(ValidationError::PasswordTooShort)
    } else if count > MAX_PASSWORD_LEN {
        Err(ValidationError::PasswordTooLong)
    } else {
        Ok(())
    }
}

/// The registry of identities.
pub struct UserManager {
    users: Vec<User>,
}

impl View for UserManager {
    type V = Seq<UserView>;

    closed spec fn view(&self) -> Seq<UserView> {
        user_views(self.users@)
    }
}

impl Clone for UserManager {
    fn clone(&self) -> (r: Self)
        ensures
            r@ == self@,
    {
        proof {
            use_type_invariant(self);
        }
        let mut users: Vec<User> = Vec::new();
        let mut i: usize = 0;
        while i < self.users.len()
            invariant
                i <= self.users.len(),
                user_views(users@) == user_views(self.users@).take(i as int),
            decreases self.users.len() - i,
        {
            let ghost before = user_views(users@);
            users.push(self.users[i].clone());
            assert(user_views(users@) =~= before.push(self.users@[i as int]@));
            assert(user_views(self.users@).take(i + 1) =~= before.push(self.users@[i as int]@));
            i += 1;
        }
        assert(user_views(self.users@).take(self.users.len() as int) =~= user_views(
            self.users@,
        ));
        UserManager { users }
    }
}

impl UserManager {
    #[verifier::type_invariant]
    spec fn inv(self) -> bool {
        registry_well_formed(user_views(self.users@))
    }

    /// An empty registry.
    pub fn new() -> (r: Self)
        ensures
            r@ == Seq::<UserView>::empty(),
            registry_well_formed(r@),
    {
        let r = UserManager { users: Vec::new() };
        assert(r@ =~= Seq::<UserView>::empty());
        r
    }

    /// The number of registered identities.
    pub fn get_user_count(&self) -> (r: usize)
        ensures
            r == self@.len(),
            registry_well_formed(self@),
    {
        proof {
            use_type_invariant(self);
        }
        self.users.len()
    }

    /// The identity at position `index`, in the order of registration.
    pub fn user_at(&self, index: usize) -> (r: Option<&User>)
        ensures
            match r {
                Some(user) => index < self@.len() && user@ == self@[index as int],
                None => index >= self@.len(),
            },
    {
        if index < self.users.len() {
            Some(&self.users[index])
        } else {
            None
        }
    }

    fn take_users(&mut self) -> (users: Vec<User>)
        ensures
            user_views(users@) == old(self)@,
            final(self)@ == Seq::<UserView>::empty(),
    {
        let mut taken = UserManager { users: Vec::new() };
        assert(taken@ =~= Seq::<UserView>::empty());
        std::mem::swap(self, &mut taken);
        taken.users
    }

    fn find(&self, username: &str) -> (r: Option<usize>)
        ensures
            match r {
                Some(i) => position_of(self@, username@) == Some(i as int) && i < self@.len(),
                None => position_of(self@, username@) is None,
            },
    {
        let mut i: usize = 0;
        while i < self.users.len()
            invariant
                i <= self.users.len(),
                forall|j: int| 0 <= j < i ==> (#[trigger] self@[j]).username != username@,
            decreases self.users.len() - i,
        {
            if same_text(self.users[i].username.as_str(), username) {
                proof {
                    assert(self@[i as int].username == username@);
                    lemma_position_of(self@, username@);
                }
                return Some(i);
            }
            i += 1;
        }
        proof {
            lemma_position_of(self@, username@);
        }
        None
    }

    fn is_name_taken(&self, username: &str) -> (r: bool)
        ensures
            r == name_taken(self@, username@),
    {
        let wanted = lowercase(username);
        let mut i: usize = 0;
        while i < self.users.len()
            invariant
                i <= self.users.len(),
                wanted@ == str_lowercase(username@),
                forall|j: int|
                    0 <= j < i ==> str_lowercase((#[trigger] self@[j]).username) != wanted@,
            decreases self.users.len() - i,
        {
            let candidate = lowercase(self.users[i].username.as_str());
            if candidate == wanted {
                assert(str_lowercase(self@[i as int].username) == str_lowercase(username@));
                return true;
            }
            i += 1;
        }
        false
    }

    /// Tests a registration without changing anything.
    pub fn validate_registration(&self, username: &str, password: &str) -> (res: Result<
        (),
        ValidationError,
    >)
        ensures
            match registration_fault(self@, username@, password@) {
                Some(fault) => res == Err::<(), ValidationError>(fault),
                None => res == Ok::<(), ValidationError>(()),
            },
    {
        match validate_username(username) {
            Err(fault) => {
                return Err(fault);
            },
            Ok(_) => {},
        }
        match validate_password(password) {
            Err(fault) => {
                return Err(fault);
            },
            Ok(_) => {},
        }
        if self.is_name_taken(username) {
            Err(ValidationError::DuplicateUsername)
        } else {
            Ok(())
        }
    }

    /// A registry of the given identities, in their order; `None` where two
    /// of them share a username, compared without regard to case, or an id.
    pub fn from_users(users: Vec<User>) -> (r: Option<Self>)
        ensures
            match r {
                Some(registry) => registry@ == user_views(users@) && registry_well_formed(
                    registry@,
                ),
                None => !registry_well_formed(user_views(users@)),
            },
    {
        let mut lowered: Vec<String> = Vec::new();
        let mut i: usize = 0;
        while i < users.len()
            invariant
                i <= users.len(),
                lowered@.len() == i,
                forall|k: int|
                    0 <= k < i ==> (#[trigger] lowered@[k])@ == str_lowercase(
                        user_views(users@)[k].username,
                    ),
                forall|a: int, b: int|
                    0 <= a < b < i ==> str_lowercase((#[trigger] user_views(users@)[a]).username)
                        != str_lowercase((#[trigger] user_views(users@)[b]).username),
                forall|a: int, b: int|
                    0 <= a < b < i ==> (#[trigger] user_views(users@)[a]).id != (
                    #[trigger] user_views(users@)[b]).id,
            decreases users.len() - i,
        {
            let candidate = lowercase(users[i].username.as_str());
            let mut k: usize = 0;
            while k < i
                invariant
                    k <= i,
                    i < users.len(),
                    lowered@.len() == i,
                    candidate@ == str_lowercase(user_views(users@)[i as int].username),
                    forall|m: int|
                        0 <= m < i ==> (#[trigger] lowered@[m])@ == str_lowercase(
                            user_views(users@)[m].username,
                        ),
                    forall|m: int|
                        0 <= m < k ==> str_lowercase((#[trigger] user_views(users@)[m]).username)
                            != candidate@,
                    forall|m: int|
                        0 <= m < k ==> (#[trigger] user_views(users@)[m]).id != user_views(
                            users@,
                        )[i as int].id,
                decreases i - k,
            {
                if lowered[k] == candidate {
                    assert(str_lowercase(user_views(users@)[k as int].username) == str_lowercase(
                        user_views(users@)[i as int].username,
                    ));
                    return None;
                }
                if users[k].id == users[i].id {
                    assert(user_views(users@)[k as int].id == user_views(users@)[i as int].id);
                    return None;
                }
                k += 1;
            }
            lowered.push(candidate);
            i += 1;
        }
        Some(UserManager { users })
    }

    fn is_id_taken(&self, id: &str) -> (r: bool)
        ensures
            r == id_taken(self@, id@),
    {
        let mut i: usize = 0;
        while i < self.users.len()
            invariant
                i <= self.users.len(),
                forall|j: int| 0 <= j < i ==> (#[trigger] self@[j]).id != id@,
            decreases self.users.len() - i,
        {
            if same_text(self.users[i].id.as_str(), id) {
                assert(self@[i as int].id == id@);
                return true;
            }
            i += 1;
        }
        false
    }

    /// What [`UserManager::create_user`] comes to: the fault that turns the
    /// registration down, with the registry as it was; else either the registry
    /// with one more identity at its end, under the requested username, with a
    /// verifier for the password and an id that no other identity has; or, with
    /// the registry as it was, the failure to make a verifier or to draw an id
    /// that is free.
    pub open spec fn created(
        self,
        after: UserManager,
        res: Result<(), AccountError>,
        username: Seq<char>,
        password: Seq<char>,
    ) -> bool {
        match registration_fault(self@, username, password) {
            Some(fault) => res == Err::<(), AccountError>(AccountError::Validation(fault))
                && after@ == self@,
            None => match res {
                Ok(_) => {
                    &&& after@.len() == self@.len() + 1
                    &&& after@.drop_last() == self@
                    &&& after@.last().username == username
                    &&& verifier_check(after@.last().password_hash, password) == Some(true)
                    &&& !id_taken(self@, after@.last().id)
                },
                Err(e) => (e == AccountError::HashingFailed || e == AccountError::IdCollision)
                    && after@ == self@,
            },
        }
    }

    /// Why an identity cannot be added, if it cannot: its username has a
    /// fault or is taken, or its id is taken, in this order.
    pub open spec fn admission_fault(self, user: UserView) -> Option<AccountError> {
        if username_fault(user.username) is Some {
            Some(AccountError::Validation(username_fault(user.username)->0))
        } else if name_taken(self@, user.username) {
            Some(AccountError::Validation(ValidationError::DuplicateUsername))
        } else if id_taken(self@, user.id) {
            Some(AccountError::IdCollision)
        } else {
            None
        }
    }

    /// Adds an identity that was made elsewhere, at the end of the registry,
    /// where its username is well-formed and free and its id is free.
    pub fn add_user(&mut self, user: User) -> (res: Result<(), AccountError>)
        ensures
            registry_well_formed(final(self)@),
            match old(self).admission_fault(user@) {
                Some(fault) => res == Err::<(), AccountError>(fault) && final(self)@ == old(
                    self,
                )@,
                None => res == Ok::<(), AccountError>(()) && final(self)@ == old(self)@.push(
                    user@,
                ),
            },
    {
        proof {
            use_type_invariant(&*self);
        }
        match validate_username(user.username.as_str()) {
            Err(fault) => {
                return Err(AccountError::Validation(fault));
            },
            Ok(_) => {},
        }
        if self.is_name_taken(user.username.as_str()) {
            return Err(AccountError::Validation(ValidationError::DuplicateUsername));
        }
        if self.is_id_taken(user.id.as_str()) {
            return Err(AccountError::IdCollision);
        }
        let ghost before = self@;
        let ghost added = user@;
        let mut users = self.take_users();
        users.push(user);
        proof {
            assert(user_views(users@) =~= before.push(added));
        }
        *self = UserManager { users };
        Ok(())
    }

    /// Registers a new identity.
    ///
    /// The registration is tested first: where [`registration_fault`] finds a
    /// fault, that fault is returned and the registry is left as it is.
    /// Otherwise an identity is made with [`User::new`] and added as
    /// [`UserManager::add_user`] does. Making it rests on a random salt, a
    /// random id and the hashing itself; where the hashing fails or the id is
    /// taken, the registry is left as it is.
    pub fn create_user(&mut self, username: String, password: &str) -> (res: Result<
        (),
        AccountError,
    >)
        ensures
            registry_well_formed(final(self)@),
            old(self).created(*final(self), res, username@, password@),
    {
        proof {
            use_type_invariant(&*self);
        }
        match self.validate_registration(username.as_str(), password) {
            Err(fault) => {
                return Err(AccountError::Validation(fault));
            },
            Ok(_) => {},
        }
        match User::new(username, password) {
            Err(e) => Err(e),
            Ok(user) => {
                let ghost before = self@;
                let ghost added = user@;
                let res = self.add_user(user);
                proof {
                    assert(before.push(added).drop_last() =~= before);
                }
                res
            },
        }
    }

    /// What [`UserManager::authenticate`] returns: the identity with exactly
    /// this username, where `password` verifies against its verifier.
    pub open spec fn authenticated(&self, username: Seq<char>, password: Seq<char>) -> Option<
        UserView,
    > {
        match position_of(self@, username) {
            Some(i) => if verifier_check(self@[i].password_hash, password) == Some(true) {
                Some(self@[i])
            } else {
                None
            },
            None => None,
        }
    }

    /// Logs a user in. Every failure gives the same error, whether the
    /// username is unknown, the password wrong or the stored verifier
    /// unreadable, so that the answer does not tell which usernames exist.
    pub fn authenticate(&self, username: &str, password: &str) -> (res: Result<User, AccountError>)
        ensures
            match self.authenticated(username@, password@) {
                Some(user) => res matches Ok(found) && found@ == user,
                None => res matches Err(e) && e == AccountError::InvalidCredentials,
            },
    {
        match self.find(username) {
            None => Err(AccountError::InvalidCredentials),
            Some(i) => match self.users[i].verify_password(password) {
                Ok(true) => Ok(self.users[i].clone()),
                _ => Err(AccountError::InvalidCredentials),
            },
        }
    }

    /// Removes the identity with exactly this username. The user's notes and
    /// crypto data are not the registry's: the caller removes them first.
    pub fn delete_user(&mut self, username: &str) -> (res: Result<(), AccountError>)
        ensures
            registry_well_formed(final(self)@),
            match position_of(old(self)@, username@) {
                Some(i) => res == Ok::<(), AccountError>(()) && final(self)@ == old(self)@.remove(
                    i,
                ),
                None => res == Err::<(), AccountError>(AccountError::UserNotFound) && final(self)@
                    == old(self)@,
            },
    {
        proof {
            use_type_invariant(&*self);
        }
        match self.find(username) {
            None => Err(AccountError::UserNotFound),
            Some(i) => {
                let ghost before = self@;
                let mut users = self.take_users();
                users.remove(i);
                proof {
                    let after = user_views(users@);
                    assert(after =~= before.remove(i as int));
                    assert forall|a: int, b: int| 0 <= a < b < after.len() implies str_lowercase(
                        (#[trigger] after[a]).username,
                    ) != str_lowercase((#[trigger] after[b]).username) && after[a].id
                        != after[b].id by {
                        let a0 = if a < i { a } else { a + 1 };
                        let b0 = if b < i { b } else { b + 1 };
                        assert(after[a] == before[a0] && after[b] == before[b0]);
                    }
                }
                *self = UserManager { users };
                Ok(())
            },
        }
    }

    /// What a change of password is turned down for before a new verifier is
    /// made, if it is: an unknown user, an unreadable verifier, a wrong old
    /// password, a new password of the wrong length, in this order.
    pub open spec fn password_change_fault(
        &self,
        username: Seq<char>,
        old_password: Seq<char>,
        new_password: Seq<char>,
    ) -> Option<AccountError> {
        match position_of(self@, username) {
            None => Some(AccountError::UserNotFound),
            Some(i) => match verifier_check(self@[i].password_hash, old_password) {
                None => Some(AccountError::MalformedVerifier),
                Some(false) => Some(AccountError::IncorrectPassword),
                Some(true) => match password_fault(new_password) {
                    Some(fault) => Some(AccountError::Validation(fault)),
                    None => None,
                },
            },
        }
    }

    /// What [`UserManager::change_password`] comes to: the fault, with the
    /// registry as it was; else either the registry in which the user's verifier
    /// is one for the new password and nothing else has changed but the salt, or
    /// the failure to make a verifier, with the registry as it was.
    pub open spec fn password_changed(
        self,
        after: UserManager,
        res: Result<(), AccountError>,
        username: Seq<char>,
        old_password: Seq<char>,
        new_password: Seq<char>,
    ) -> bool {
        match self.password_change_fault(username, old_password, new_password) {
            Some(fault) => res == Err::<(), AccountError>(fault) && after@ == self@,
            None => match res {
                Ok(_) => {
                    let i = position_of(self@, username)->0;
                    &&& after@.len() == self@.len()
                    &&& forall|j: int| 0 <= j < after@.len() && j != i ==> after@[j] == self@[j]
                    &&& after@[i].id == self@[i].id
                    &&& after@[i].username == self@[i].username
                    &&& after@[i].created_at == self@[i].created_at
                    &&& verifier_check(after@[i].password_hash, new_password) == Some(true)
                },
                Err(e) => e == AccountError::HashingFailed && after@ == self@,
            },
        }
    }

    /// Replaces a user's verifier by one for `new_password`, under a fresh
    /// random salt, after `old_password` has verified.
    pub fn change_password(
        &mut self,
        username: &str,
        old_password: &str,
        new_password: &str,
    ) -> (res: Result<(), AccountError>)
        ensures
            registry_well_formed(final(self)@),
            old(self).password_changed(
                *final(self),
                res,
                username@,
                old_password@,
                new_password@,
            ),
    {
        proof {
            use_type_invariant(&*self);
        }
        let i = match self.find(username) {
            None => {
                return Err(AccountError::UserNotFound);
            },
            Some(i) => i,
        };
        match self.users[i].verify_password(old_password) {
            Err(e) => {
                return Err(e);
            },
            Ok(false) => {
                return Err(AccountError::IncorrectPassword);
            },
            Ok(true) => {},
        }
        match validate_password(new_password) {
            Err(fault) => {
                return Err(AccountError::Validation(fault));
            },
            Ok(_) => {},
        }
        let verifier = make_verifier(new_password);
        self.replace_verifier(username, verifier)
    }

    /// Gives the identity with exactly this username the verifier and salt
    /// that were made for it, and changes nothing else. Fails, and changes
    /// nothing at all, where no identity has the username or no verifier was
    /// made.
    pub fn replace_verifier(
        &mut self,
        username: &str,
        verifier: Option<(String, String)>,
    ) -> (res: Result<(), AccountError>)
        ensures
            registry_well_formed(final(self)@),
            match position_of(old(self)@, username@) {
                None => {
                    &&& res == Err::<(), AccountError>(AccountError::UserNotFound)
                    &&& final(self)@ == old(self)@
                },
                Some(i) => match verifier {
                    None => {
                        &&& res == Err::<(), AccountError>(AccountError::HashingFailed)
                        &&& final(self)@ == old(self)@
                    },
                    Some(pair) => {
                        &&& res == Ok::<(), AccountError>(())
                        &&& final(self)@ == old(self)@.update(
                            i,
                            UserView { password_hash: pair.0@, salt: pair.1@, ..old(self)@[i] },
                        )
                    },
                },
            },
    {
        proof {
            use_type_invariant(&*self);
        }
        let i = match self.find(username) {
            None => {
                return Err(AccountError::UserNotFound);
            },
            Some(i) => i,
        };
        match verifier {
            None => Err(AccountError::HashingFailed),
            Some(pair) => {
                let ghost before = self@;
                let updated = User {
                    id: self.users[i].id.clone(),
                    username: self.users[i].username.clone(),
                    password_hash: pair.0,
                    salt: pair.1,
                    created_at: self.users[i].created_at,
                };
                let ghost updated_view = updated@;
                let mut users = self.take_users();
                users.set(i, updated);
                proof {
                    let after = user_views(users@);
                    assert(after =~= before.update(i as int, updated_view));
                    assert forall|a: int, b: int| 0 <= a < b < after.len() implies str_lowercase(
                        (#[trigger] after[a]).username,
                    ) != str_lowercase((#[trigger] after[b]).username) && after[a].id
                        != after[b].id by {
                        assert(after[a].username == before[a].username);
                        assert(after[b].username == before[b].username);
                        assert(after[a].id == before[a].id);
                        assert(after[b].id == before[b].id);
                    }
                }
                *self = UserManager { users };
                Ok(())
            },
        }
    }
}

/// No username can be registered twice: once an identity is in the registry,
/// a registration under a username that differs from its username at most in
/// case is turned down. Where the new username and password are well-formed, the
/// fault is the duplicate.
pub proof fn lemma_duplicate_username_rejected(
    users: Seq<UserView>,
    position: int,
    username: Seq<char>,
    password: Seq<char>,
)
    requires
        0 <= position < users.len(),
        str_lowercase(users[position].username) == str_lowercase(username),
    ensures
        registration_fault(users, username, password) is Some,
        username_fault(username) is None && password_fault(password) is None
            ==> registration_fault(users, username, password) == Some(
            ValidationError::DuplicateUsername,
        ),
{
    assert(name_taken(users, username));
}

/// Who has registered can log in: in the registry that a successful
/// registration leaves, the new username and the password authenticate the
/// identity that was added.
pub proof fn lemma_registered_user_can_log_in(
    before: UserManager,
    after: UserManager,
    username: Seq<char>,
    password: Seq<char>,
)
    requires
        before.created(after, Ok(()), username, password),
    ensures
        after.authenticated(username, password) == Some(after@.last()),
{
    let users = after@;
    let last = users.len() - 1;
    lemma_position_of(users, username);
    assert forall|j: int| 0 <= j < last implies (#[trigger] users[j]).username != username by {
        assert(users[j] == users.drop_last()[j]);
        if before@[j].username == username {
            assert(name_taken(before@, username));
        }
    }
    assert(users[last] == users.last());
}

/// A password of fewer than six characters is turned down whatever the
/// registry holds, and a well-formed username with a password of six to 128
/// characters is accepted by a registry in which the name is free.
pub proof fn lemma_password_policy(users: Seq<UserView>, username: Seq<char>, password: Seq<char>)
    ensures
        password.len() < MIN_PASSWORD_LEN ==> registration_fault(users, username, password)
            is Some,
        username_fault(username) is None && MIN_PASSWORD_LEN <= password.len()
            <= MAX_PASSWORD_LEN && !name_taken(users, username) ==> registration_fault(
            users,
            username,
            password,
        ) is None,
{
}

} // verus!
