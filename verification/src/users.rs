//! User accounts with validating constructors, a repository interface
//! stated over a mathematical map, an in-memory implementation, a mock for
//! tests, and a command handler that works against any repository through
//! a trait object.

use vstd::prelude::*;
use vstd::string::StrSliceExecFns;
use vstd::string::StringSliceAdditionalSpecFns;

verus! {

/// Domain errors for user operations.
#[derive(Debug, Clone, PartialEq, Eq)]
pub enum UserError {
    /// A user with this identifier is already stored.
    AlreadyExists(u64),
    /// No user with this identifier is stored.
    NotFound(u64),
    /// The email address failed validation; carries the rejected input.
    InvalidEmail(String),
    /// The identifier failed validation (zero is reserved).
    InvalidId(u64),
}

/// An acceptable email address for an account: non-empty, containing an
/// `@`, and at most 255 bytes long in its UTF-8 encoding.
pub open spec fn spec_acceptable_email(s: Seq<char>) -> bool {
    &&& s.len() > 0
    &&& s.contains('@')
    &&& vstd::utf8::encode_utf8(s).len() <= 255
}

/// Validates an email address for an account.
fn validate_email(email: &str) -> (r: bool)
    ensures
        r == spec_acceptable_email(email@),
{
    if email.is_empty() {
        return false;
    }
    let bytes = email.as_bytes();
    if bytes.len() > 255 {
        return false;
    }
    crate::text::contains_char(email, '@')
}

/// A user entity with a unique identifier, email and activation status.
#[derive(Clone, Debug, PartialEq, Eq)]
pub struct User {
    id: u64,
    email: String,
    activated: bool,
}

impl User {
    pub closed spec fn spec_id(self) -> u64 {
        self.id
    }

    pub closed spec fn spec_email(self) -> Seq<char> {
        self.email@
    }

    pub closed spec fn spec_activated(self) -> bool {
        self.activated
    }

    /// Creates a user after validating the email (non-empty, has `@`, at
    /// most 255 bytes) and the identifier (non-zero). A new user starts
    /// deactivated.
    pub fn new(id: u64, email: String) -> (r: Result<Self, UserError>)
        ensures
            match r {
                Ok(u) => {
                    &&& spec_acceptable_email(email@)
                    &&& id != 0
                    &&& u.spec_id() == id
                    &&& u.spec_email() == email@
                    &&& !u.spec_activated()
                },
                Err(UserError::InvalidEmail(e)) => !spec_acceptable_email(email@) && e@
                    == email@,
                Err(UserError::InvalidId(i)) => spec_acceptable_email(email@) && id == 0
                    && i == id,
                Err(_) => false,
            },
    {
        if !validate_email(email.as_str()) {
            return Err(UserError::InvalidEmail(email));
        }
        if id == 0 {
            return Err(UserError::InvalidId(id));
        }
        Ok(Self { id, email, activated: false })
    }

    pub fn id(&self) -> (r: u64)
        ensures
            r == self.spec_id(),
    {
        self.id
    }

    pub fn email(&self) -> (r: &str)
        ensures
            r@ == self.spec_email(),
    {
        self.email.as_str()
    }

    pub fn is_activated(&self) -> (r: bool)
        ensures
            r == self.spec_activated(),
    {
        self.activated
    }

    pub fn activate(&mut self)
        ensures
            final(self).spec_id() == old(self).spec_id(),
            final(self).spec_email() == old(self).spec_email(),
            final(self).spec_activated(),
    {
        self.activated = true;
    }
}

/// Repository interface for user persistence, stated over the map of
/// stored users.
pub trait UserRepository {
    /// The stored users, keyed by identifier.
    spec fn spec_users(&self) -> Map<u64, User>;

    /// Adds a new user; an identifier that is already present is refused
    /// with `AlreadyExists`. An implementation may also refuse for reasons
    /// of its own, but never stores anything on failure.
    fn add(&mut self, user: User) -> (r: Result<(), UserError>)
        ensures
            match r {
                Ok(()) => {
                    &&& !old(self).spec_users().contains_key(user.spec_id())
                    &&& final(self).spec_users() == old(self).spec_users().insert(
                        user.spec_id(),
                        user,
                    )
                },
                Err(UserError::AlreadyExists(i)) => i == user.spec_id() && final(self).spec_users() == old(self).spec_users(),
                Err(_) => false,
            },
    ;

    /// Looks a user up by identifier.
    fn get(&self, id: u64) -> (r: Option<&User>)
        ensures
            match r {
                Some(u) => self.spec_users().contains_key(id) && *u == self.spec_users()[id],
                None => !self.spec_users().contains_key(id),
            },
    ;

    /// Replaces an existing user; an absent identifier is refused with
    /// `NotFound`.
    fn update(&mut self, user: User) -> (r: Result<(), UserError>)
        ensures
            match r {
                Ok(()) => {
                    &&& old(self).spec_users().contains_key(user.spec_id())
                    &&& final(self).spec_users() == old(self).spec_users().insert(
                        user.spec_id(),
                        user,
                    )
                },
                Err(UserError::NotFound(i)) => i == user.spec_id() && !old(self).spec_users().contains_key(user.spec_id()) && final(self).spec_users() == old(self).spec_users(),
                Err(_) => false,
            },
    ;

    /// Removes a user by identifier, returning the removed record.
    fn remove(&mut self, id: u64) -> (r: Option<User>)
        ensures
            match r {
                Some(u) => {
                    &&& old(self).spec_users().contains_key(id)
                    &&& u == old(self).spec_users()[id]
                    &&& final(self).spec_users() == old(self).spec_users().remove(id)
                },
                None => {
                    &&& !old(self).spec_users().contains_key(id)
                    &&& final(self).spec_users() == old(self).spec_users()
                },
            },
    ;

    /// Whether a user with this identifier is stored.
    fn contains(&self, id: u64) -> (r: bool)
        ensures
            r == self.spec_users().contains_key(id),
    {
        self.get(id).is_some()
    }
}

/// A command requesting that a new user be created.
#[derive(Debug, Clone)]
pub struct CreateUser {
    pub id: u64,
    pub email: String,
}

impl CreateUser {
    /// Validates at the command boundary: the same rules as `User::new`.
    pub fn new(id: u64, email: String) -> (r: Result<Self, UserError>)
        ensures
            match r {
                Ok(c) => {
                    &&& spec_acceptable_email(email@)
                    &&& id != 0
                    &&& c.id == id
                    &&& c.email@ == email@
                },
                Err(UserError::InvalidEmail(e)) => !spec_acceptable_email(email@) && e@
                    == email@,
                Err(UserError::InvalidId(i)) => spec_acceptable_email(email@) && id == 0
                    && i == id,
                Err(_) => false,
            },
    {
        if !validate_email(email.as_str()) {
            return Err(UserError::InvalidEmail(email));
        }
        if id == 0 {
            return Err(UserError::InvalidId(id));
        }
        Ok(Self { id, email })
    }
}

/// Marker trait for commands.
pub trait Command {

}

impl Command for CreateUser {

}

/// Handles a command against a context; the context type may be unsized,
/// so a trait object can serve as the context.
pub trait CommandHandler<C: Command> {
    type Context: ?Sized;

    type Result;

    fn handle_command(&self, cmd: &C, ctx: &Self::Context) -> Self::Result;
}

impl CommandHandler<CreateUser> for User {
    type Context = dyn UserRepository;

    type Result = Result<(), UserError>;

    /// Validates the command against the repository: refuses an identifier
    /// that is already stored, then re-runs the user validation. It does
    /// not persist anything; storing the user needs a mutable repository.
    fn handle_command(&self, cmd: &CreateUser, ctx: &Self::Context) -> (r: Result<
        (),
        UserError,
    >)
        ensures
            match r {
                Ok(()) => !ctx.spec_users().contains_key(cmd.id) && spec_acceptable_email(
                    cmd.email@,
                ) && cmd.id != 0,
                Err(UserError::AlreadyExists(i)) => i == cmd.id && ctx.spec_users().contains_key(
                    cmd.id,
                ),
                Err(UserError::InvalidEmail(e)) => !spec_acceptable_email(cmd.email@) && e@
                    == cmd.email@,
                Err(UserError::InvalidId(i)) => spec_acceptable_email(cmd.email@) && i == 0
                    && cmd.id == 0,
                Err(_) => false,
            },
    {
        if ctx.contains(cmd.id) {
            return Err(UserError::AlreadyExists(cmd.id));
        }
        match User::new(cmd.id, cmd.email.clone()) {
            Ok(_) => Ok(()),
            Err(e) => Err(e),
        }
    }
}

/// In-memory user repository over a hash map.
pub struct InMemoryUserRepository {
    users: vstd::hash_map::HashMapWithView<u64, User>,
}

impl InMemoryUserRepository {
    pub fn new() -> (r: Self)
        ensures
            r.spec_users() == Map::<u64, User>::empty(),
    {
        Self { users: vstd::hash_map::HashMapWithView::new() }
    }

    pub fn with_capacity(capacity: usize) -> (r: Self)
        ensures
            r.spec_users() == Map::<u64, User>::empty(),
    {
        Self { users: vstd::hash_map::HashMapWithView::with_capacity(capacity) }
    }

    /// How many users are stored.
    pub fn count(&self) -> (r: usize)
        ensures
            r == self.spec_users().len(),
    {
        self.users.len()
    }
}

impl Default for InMemoryUserRepository {
    fn default() -> (r: Self)
        ensures
            r.spec_users() == Map::<u64, User>::empty(),
    {
        Self::new()
    }
}

impl UserRepository for InMemoryUserRepository {
    closed spec fn spec_users(&self) -> Map<u64, User> {
        self.users@
    }

    fn add(&mut self, user: User) -> (r: Result<(), UserError>) {
        let id = user.id();
        if self.users.contains_key(&id) {
            return Err(UserError::AlreadyExists(id));
        }
        self.users.insert(id, user);
        Ok(())
    }

    fn get(&self, id: u64) -> (r: Option<&User>) {
        self.users.get(&id)
    }

    fn update(&mut self, user: User) -> (r: Result<(), UserError>) {
        let id = user.id();
        if !self.users.contains_key(&id) {
            return Err(UserError::NotFound(id));
        }
        self.users.insert(id, user);
        Ok(())
    }

    fn remove(&mut self, id: u64) -> (r: Option<User>) {
        self.users.remove(&id)
    }
}

/// The map described by inserting each user of `s` in order, keyed by
/// identifier; later duplicates overwrite earlier ones.
pub open spec fn spec_users_map(s: Seq<User>) -> Map<u64, User>
    decreases s.len(),
{
    if s.len() == 0 {
        Map::empty()
    } else {
        spec_users_map(s.drop_last()).insert(s.last().spec_id(), s.last())
    }
}

/// A repository double for tests: it records how often `add` was called
/// and can be told to refuse every `add`.
pub struct MockUserRepository {
    users: vstd::hash_map::HashMapWithView<u64, User>,
    pub call_count_add: usize,
    pub should_fail_add: bool,
}

impl MockUserRepository {
    /// How often `add` has been called.
    pub closed spec fn spec_call_count_add(self) -> usize {
        self.call_count_add
    }

    /// Whether every `add` is refused.
    pub closed spec fn spec_should_fail_add(self) -> bool {
        self.should_fail_add
    }

    pub fn new() -> (r: Self)
        ensures
            r.spec_users() == Map::<u64, User>::empty(),
            r.spec_call_count_add() == 0,
            !r.spec_should_fail_add(),
    {
        Self {
            users: vstd::hash_map::HashMapWithView::new(),
            call_count_add: 0,
            should_fail_add: false,
        }
    }

    /// A mock pre-populated with the given users, keyed by identifier.
    pub fn with_users(users: Vec<User>) -> (r: Self)
        ensures
            r.spec_users() == spec_users_map(users@),
            r.spec_call_count_add() == 0,
            !r.spec_should_fail_add(),
    {
        let mut repo = Self::new();
        let mut remaining = users;
        let ghost all: Seq<User> = remaining@;
        let mut i: usize = 0;
        let n = remaining.len();
        while i < n
            invariant
                i <= n,
                n == all.len(),
                remaining@ == all.skip(i as int),
                repo.spec_users() == spec_users_map(all.take(i as int)),
                repo.spec_call_count_add() == 0,
                !repo.spec_should_fail_add(),
            decreases n - i,
        {
            let user = remaining.remove(0);
            proof {
                assert(remaining@ =~= all.skip(i + 1));
                assert(user == all[i as int]);
            }
            let id = user.id();
            repo.users.insert(id, user);
            proof {
                assert(all.take(i + 1).drop_last() =~= all.take(i as int));
                assert(all.take(i + 1).last() == all[i as int]);
            }
            i = i + 1;
        }
        proof {
            assert(all.take(n as int) =~= all);
        }
        repo
    }
}

impl Default for MockUserRepository {
    fn default() -> (r: Self)
        ensures
            r.spec_users() == Map::<u64, User>::empty(),
            r.spec_call_count_add() == 0,
            !r.spec_should_fail_add(),
    {
        Self::new()
    }
}

impl UserRepository for MockUserRepository {
    closed spec fn spec_users(&self) -> Map<u64, User> {
        self.users@
    }

    /// Counts the call; when `should_fail_add` is set, refuses as if the
    /// user already existed.
    fn add(&mut self, user: User) -> (r: Result<(), UserError>)
        ensures
            final(self).spec_call_count_add() == old(self).spec_call_count_add().wrapping_add(1),
            final(self).spec_should_fail_add() == old(self).spec_should_fail_add(),
    {
        self.call_count_add = self.call_count_add.wrapping_add(1);
        let id = user.id();
        if self.should_fail_add {
            return Err(UserError::AlreadyExists(id));
        }
        if self.users.contains_key(&id) {
            return Err(UserError::AlreadyExists(id));
        }
        self.users.insert(id, user);
        Ok(())
    }

    fn get(&self, id: u64) -> (r: Option<&User>) {
        self.users.get(&id)
    }

    fn update(&mut self, user: User) -> (r: Result<(), UserError>) {
        let id = user.id();
        if !self.users.contains_key(&id) {
            return Err(UserError::NotFound(id));
        }
        self.users.insert(id, user);
        Ok(())
    }

    fn remove(&mut self, id: u64) -> (r: Option<User>) {
        self.users.remove(&id)
    }
}

} // verus!
