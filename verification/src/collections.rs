//! Validated user identifiers and nicknames, and an immutable users
//! repository with lookup by identifier and substring search by nickname.
//! The repository's storage keeps its records sorted by identifier, so
//! searches hand identifiers back in ascending order.

use crate::text;
use vstd::prelude::*;

verus! {

/// A strictly positive user identifier.
#[derive(Debug, Clone, Copy, PartialEq, Eq, Structural, Hash, PartialOrd, Ord)]
pub struct UserId {
    value: u64,
}

/// Why a `UserId` could not be built.
#[derive(Debug, Clone, Copy, PartialEq, Eq, Structural)]
pub enum UserIdError {
    /// The identifier value must be non-zero.
    ZeroValue,
}

impl UserId {
    /// The raw identifier value.
    pub closed spec fn spec_get(self) -> u64 {
        self.value
    }

    /// Accepts any non-zero value.
    pub fn new(value: u64) -> (r: Result<Self, UserIdError>)
        ensures
            match r {
                Ok(id) => value != 0 && id.spec_get() == value,
                Err(e) => value == 0 && e == UserIdError::ZeroValue,
            },
    {
        if value == 0 {
            Err(UserIdError::ZeroValue)
        } else {
            Ok(Self { value })
        }
    }

    /// The raw value.
    pub fn get(self) -> (r: u64)
        ensures
            r == self.spec_get(),
    {
        self.value
    }
}

/// A non-blank nickname.
#[derive(Debug, Clone, PartialEq, Eq)]
pub struct Nickname(String);

/// Why a `Nickname` could not be built.
#[derive(Debug, Clone, Copy, PartialEq, Eq, Structural)]
pub enum NicknameError {
    /// The value must not be blank.
    EmptyValue,
}

impl Nickname {
    /// The nickname's characters.
    pub closed spec fn spec_str(self) -> Seq<char> {
        self.0@
    }

    /// Accepts any value that does not trim to nothing.
    pub fn new(value: String) -> (r: Result<Self, NicknameError>)
        ensures
            match r {
                Ok(n) => !text::spec_blank(value@) && n.spec_str() == value@,
                Err(e) => text::spec_blank(value@) && e == NicknameError::EmptyValue,
            },
    {
        if text::is_blank(value.as_str()) {
            return Err(NicknameError::EmptyValue);
        }
        Ok(Self(value))
    }

    /// The nickname as text.
    pub fn as_str(&self) -> (r: &str)
        ensures
            r@ == self.spec_str(),
    {
        self.0.as_str()
    }
}

/// A non-blank nickname search query.
#[derive(Debug, Clone, PartialEq, Eq)]
pub struct NicknameQuery(String);

/// Why a `NicknameQuery` could not be built.
#[derive(Debug, Clone, Copy, PartialEq, Eq, Structural)]
pub enum NicknameQueryError {
    /// The value must not be blank.
    EmptyValue,
}

impl NicknameQuery {
    /// The query's characters.
    pub closed spec fn spec_str(self) -> Seq<char> {
        self.0@
    }

    /// Accepts any value that does not trim to nothing.
    pub fn new(value: String) -> (r: Result<Self, NicknameQueryError>)
        ensures
            match r {
                Ok(q) => !text::spec_blank(value@) && q.spec_str() == value@,
                Err(e) => text::spec_blank(value@) && e == NicknameQueryError::EmptyValue,
            },
    {
        if text::is_blank(value.as_str()) {
            return Err(NicknameQueryError::EmptyValue);
        }
        Ok(Self(value))
    }

    /// The query as text.
    pub fn as_str(&self) -> (r: &str)
        ensures
            r@ == self.spec_str(),
    {
        self.0.as_str()
    }
}

/// A user record: an identifier and a nickname.
#[derive(Debug, Clone, PartialEq, Eq)]
pub struct User {
    id: UserId,
    nickname: Nickname,
}

impl User {
    pub closed spec fn spec_id(self) -> UserId {
        self.id
    }

    pub closed spec fn spec_nickname(self) -> Nickname {
        self.nickname
    }

    pub fn new(id: UserId, nickname: Nickname) -> (r: Self)
        ensures
            r.spec_id() == id,
            r.spec_nickname() == nickname,
    {
        Self { id, nickname }
    }

    pub fn id(&self) -> (r: UserId)
        ensures
            r == self.spec_id(),
    {
        self.id
    }

    pub fn nickname(&self) -> (r: &Nickname)
        ensures
            *r == self.spec_nickname(),
    {
        &self.nickname
    }
}

/// Read access to a store of users.
pub trait UsersRepository {
    /// The stored users in ascending identifier order.
    spec fn spec_records(&self) -> Seq<User>;

    /// Looks a user up by identifier.
    fn get_user_by_id(&self, user_id: UserId) -> (r: Option<User>)
        ensures
            match r {
                Some(u) => self.spec_records().contains(u) && u.spec_id() == user_id,
                None => forall|u: User|
                    self.spec_records().contains(u) ==> (#[trigger] u.spec_id()) != user_id,
            },
    ;

    /// Looks up each requested identifier, keeping the request order and
    /// skipping identifiers that are absent.
    fn get_users_by_ids(&self, user_ids: &[UserId]) -> (r: Vec<User>)
        ensures
            r@ == spec_selected(self.spec_records(), user_ids@),
    ;

    /// The identifiers of the stored users whose nickname holds the query
    /// as a substring, in storage (ascending) order.
    fn search_user_ids_by_nickname(&self, nickname_query: &NicknameQuery) -> (r: Vec<UserId>)
        ensures
            r@ == self.spec_records().filter(
                |u: User|
                    text::spec_contains_sub(u.spec_nickname().spec_str(), nickname_query.spec_str()),
            ).map_values(|u: User| u.spec_id()),
    ;
}

/// Why an `ImmutableUsersRepository` could not be built.
#[derive(Debug, Clone, Copy, PartialEq, Eq, Structural)]
pub enum UsersRepositoryError {
    /// Two inputs shared this identifier.
    DuplicateUserId(UserId),
}

/// A persistent (copy-on-write) map from identifiers to users, kept as a
/// vector sorted strictly by identifier.
#[derive(Debug, Clone)]
pub struct PersistentUsersMap {
    inner: Vec<User>,
}

impl PersistentUsersMap {
    /// The records in ascending identifier order.
    pub closed spec fn spec_records(self) -> Seq<User> {
        self.inner@
    }

    /// The records are sorted strictly by identifier.
    pub open spec fn wf(self) -> bool {
        forall|i: int, j: int|
            0 <= i < j < self.spec_records().len() ==> (#[trigger] self.spec_records()[i]).spec_id().spec_get() < (
            #[trigger] self.spec_records()[j]).spec_id().spec_get()
    }

    /// Whether some record carries this identifier.
    pub open spec fn spec_contains_id(self, id: UserId) -> bool {
        exists|i: int|
            0 <= i < self.spec_records().len() && (#[trigger] self.spec_records()[i]).spec_id()
                == id
    }

    /// An empty map.
    pub fn new() -> (r: Self)
        ensures
            r.spec_records() == Seq::<User>::empty(),
            r.wf(),
    {
        Self { inner: Vec::new() }
    }

    /// Whether a record with this identifier is present.
    pub fn contains_key(&self, user_id: &UserId) -> (r: bool)
        ensures
            r == self.spec_contains_id(*user_id),
    {
        let n = self.inner.len();
        let mut i: usize = 0;
        while i < n
            invariant
                i <= n,
                n == self.spec_records().len(),
                forall|j: int|
                    0 <= j < i ==> (#[trigger] self.spec_records()[j]).spec_id() != *user_id,
            decreases n - i,
        {
            if self.inner[i].id().get() == user_id.get() {
                proof {
                    assert(self.spec_records()[i as int].spec_id().spec_get()
                        == user_id.spec_get());
                    assert(self.spec_records()[i as int].spec_id() == *user_id);
                }
                return true;
            }
            proof {
                assert(self.spec_records()[i as int].spec_id() != *user_id);
            }
            i = i + 1;
        }
        false
    }

    /// The record with this identifier, if present.
    pub fn get(&self, user_id: &UserId) -> (r: Option<&User>)
        ensures
            match r {
                Some(u) => self.spec_records().contains(*u) && u.spec_id() == *user_id,
                None => !self.spec_contains_id(*user_id),
            },
    {
        let n = self.inner.len();
        let mut i: usize = 0;
        while i < n
            invariant
                i <= n,
                n == self.spec_records().len(),
                forall|j: int|
                    0 <= j < i ==> (#[trigger] self.spec_records()[j]).spec_id() != *user_id,
            decreases n - i,
        {
            if self.inner[i].id().get() == user_id.get() {
                proof {
                    assert(self.spec_records()[i as int].spec_id().spec_get()
                        == user_id.spec_get());
                    assert(self.spec_records()[i as int].spec_id() == *user_id);
                    assert(self.spec_records().contains(self.spec_records()[i as int]));
                }
                return Some(&self.inner[i]);
            }
            proof {
                assert(self.spec_records()[i as int].spec_id() != *user_id);
            }
            i = i + 1;
        }
        None
    }

    /// The records in ascending identifier order.
    pub fn values(&self) -> (r: &Vec<User>)
        ensures
            r@ == self.spec_records(),
    {
        &self.inner
    }

    /// A copy of the map with `user` stored under `user_id`; a record with
    /// an equal identifier is replaced. The copy stays sorted.
    #[verifier::rlimit(60)]
    pub fn insert(&self, user_id: UserId, user: User) -> (r: Self)
        requires
            self.wf(),
            user.spec_id() == user_id,
        ensures
            r.wf(),
            r.spec_contains_id(user_id),
            r.spec_records().contains(user),
            self.spec_contains_id(user_id) ==> r.spec_records().len()
                == self.spec_records().len(),
            !self.spec_contains_id(user_id) ==> r.spec_records().len() == self.spec_records().len()
                + 1,
            forall|id: UserId|
                #[trigger] r.spec_contains_id(id) <==> (self.spec_contains_id(id) || id
                    == user_id),
            forall|u: User|
                #[trigger] r.spec_records().contains(u) ==> u == user
                    || (self.spec_records().contains(u) && u.spec_id() != user_id),
            forall|u: User|
                #[trigger] self.spec_records().contains(u) && u.spec_id() != user_id
                    ==> r.spec_records().contains(u),
    {
        let ghost old_rs = self.spec_records();
        let n = self.inner.len();
        let mut pos: usize = 0;
        while pos < n && self.inner[pos].id().get() < user_id.get()
            invariant
                pos <= n,
                n == old_rs.len(),
                old_rs == self.spec_records(),
                forall|j: int|
                    0 <= j < pos ==> (#[trigger] old_rs[j]).spec_id().spec_get()
                        < user_id.spec_get(),
            decreases n - pos,
        {
            pos = pos + 1;
        }
        let mut copy: Vec<User> = Vec::new();
        let mut i: usize = 0;
        proof {
            assert(copy@ =~= old_rs.take(0));
        }
        while i < n
            invariant
                i <= n,
                n == old_rs.len(),
                old_rs == self.spec_records(),
                copy@ == old_rs.take(i as int),
            decreases n - i,
        {
            copy.push(self.inner[i].clone_record());
            proof {
                assert(copy@ =~= old_rs.take(i + 1));
            }
            i = i + 1;
        }
        proof {
            assert(copy@ =~= old_rs);
        }
        let replace = pos < n && copy[pos].id().get() == user_id.get();
        if replace {
            copy.set(pos, user);
        } else {
            copy.insert(pos, user);
        }
        proof {
            let rs = copy@;
            let p = pos as int;
            if replace {
                assert(old_rs[p].spec_id().spec_get() == user_id.spec_get());
                assert(old_rs[p].spec_id() == user_id);
                assert(rs =~= old_rs.update(p, user));
                assert forall|i2: int, j2: int| 0 <= i2 < j2 < rs.len() implies (
                #[trigger] rs[i2]).spec_id().spec_get() < (
                #[trigger] rs[j2]).spec_id().spec_get() by {
                    assert(old_rs[i2].spec_id().spec_get() < old_rs[j2].spec_id().spec_get());
                }
                assert(rs[p] == user);
                let r2 = Self { inner: copy };
                assert(r2.spec_records() == rs);
                assert((r2.spec_records()[p]).spec_id() == user_id);
                assert(r2.spec_contains_id(user_id));
                assert(rs.contains(user)) by {
                    assert(rs[p] == user);
                }
                assert forall|id: UserId| #[trigger] Self {
                    inner: copy,
                }.spec_contains_id(id) implies (self.spec_contains_id(id) || id == user_id) by {
                    let w = choose|w: int|
                        0 <= w < rs.len() && (#[trigger] rs[w]).spec_id() == id;
                    if w != p {
                        assert(old_rs[w].spec_id() == id);
                    }
                }
                assert forall|id: UserId|
                    self.spec_contains_id(id) || id == user_id implies #[trigger] Self {
                    inner: copy,
                }.spec_contains_id(id) by {
                    if id == user_id {
                        assert(rs[p].spec_id() == id);
                    } else if self.spec_contains_id(id) {
                        let w = choose|w: int|
                            0 <= w < old_rs.len() && (#[trigger] old_rs[w]).spec_id() == id;
                        assert(w != p);
                        assert(rs[w].spec_id() == id);
                    }
                }
                assert forall|u: User| #[trigger] rs.contains(u) implies u == user || (
                old_rs.contains(u) && u.spec_id() != user_id) by {
                    let w = choose|w: int| 0 <= w < rs.len() && (#[trigger] rs[w]) == u;
                    if w != p {
                        assert(old_rs[w] == u);
                        assert(u.spec_id().spec_get() != user_id.spec_get()) by {
                            if w < p {
                                assert(old_rs[w].spec_id().spec_get()
                                    < old_rs[p].spec_id().spec_get());
                            } else {
                                assert(old_rs[p].spec_id().spec_get()
                                    < old_rs[w].spec_id().spec_get());
                            }
                        }
                    }
                }
                assert forall|u: User|
                    #[trigger] old_rs.contains(u) && u.spec_id() != user_id implies rs.contains(
                    u,
                ) by {
                    let w = choose|w: int| 0 <= w < old_rs.len() && (#[trigger] old_rs[w]) == u;
                    assert(w != p);
                    assert(rs[w] == u);
                }
            } else {
                assert(pos < n ==> old_rs[p].spec_id().spec_get() > user_id.spec_get());
                old_rs.insert_ensures(p, user);
                assert(rs == old_rs.insert(p, user));
                assert(rs.len() == old_rs.len() + 1);
                assert forall|i2: int, j2: int| 0 <= i2 < j2 < rs.len() implies (
                #[trigger] rs[i2]).spec_id().spec_get() < (
                #[trigger] rs[j2]).spec_id().spec_get() by {
                    if i2 < p && j2 < p {
                        assert(rs[i2] == old_rs[i2] && rs[j2] == old_rs[j2]);
                    } else if i2 < p && j2 == p {
                        assert(rs[i2] == old_rs[i2] && rs[j2] == user);
                    } else if i2 < p && j2 > p {
                        assert(rs[i2] == old_rs[i2] && rs[j2] == old_rs[j2 - 1]);
                        if j2 - 1 >= p {
                            if j2 - 1 == p {
                                if p < old_rs.len() {
                                    assert(old_rs[p].spec_id().spec_get() > user_id.spec_get());
                                }
                            }
                            assert(i2 < j2 - 1 || old_rs[j2 - 1].spec_id().spec_get()
                                > old_rs[i2].spec_id().spec_get());
                        }
                    } else if i2 == p {
                        assert(rs[i2] == user && rs[j2] == old_rs[j2 - 1]);
                        assert(j2 - 1 >= p);
                        assert(old_rs[j2 - 1].spec_id().spec_get() >= old_rs[p].spec_id().spec_get());
                    } else {
                        assert(rs[i2] == old_rs[i2 - 1] && rs[j2] == old_rs[j2 - 1]);
                    }
                }
                assert(rs[p] == user);
                let r2 = Self { inner: copy };
                assert(r2.spec_records() == rs);
                assert((r2.spec_records()[p]).spec_id() == user_id);
                assert(r2.spec_contains_id(user_id));
                assert(rs.contains(user)) by {
                    assert(rs[p] == user);
                }
                assert(!self.spec_contains_id(user_id)) by {
                    if self.spec_contains_id(user_id) {
                        let w = choose|w: int|
                            0 <= w < old_rs.len() && (#[trigger] old_rs[w]).spec_id() == user_id;
                        if w < p {
                            assert(old_rs[w].spec_id().spec_get() < user_id.spec_get());
                        } else if w == p {
                        } else {
                            assert(old_rs[p].spec_id().spec_get()
                                < old_rs[w].spec_id().spec_get());
                            assert(old_rs[p].spec_id().spec_get() > user_id.spec_get());
                        }
                    }
                }
                assert forall|id: UserId| #[trigger] Self {
                    inner: copy,
                }.spec_contains_id(id) implies (self.spec_contains_id(id) || id == user_id) by {
                    let w = choose|w: int|
                        0 <= w < rs.len() && (#[trigger] rs[w]).spec_id() == id;
                    if w < p {
                        assert(old_rs[w].spec_id() == id);
                    } else if w > p {
                        assert(rs[w] == old_rs[w - 1]);
                        assert(old_rs[w - 1].spec_id() == id);
                    }
                }
                assert forall|id: UserId|
                    self.spec_contains_id(id) || id == user_id implies #[trigger] Self {
                    inner: copy,
                }.spec_contains_id(id) by {
                    if id == user_id {
                        assert(rs[p].spec_id() == id);
                    } else if self.spec_contains_id(id) {
                        let w = choose|w: int|
                            0 <= w < old_rs.len() && (#[trigger] old_rs[w]).spec_id() == id;
                        if w < p {
                            assert(rs[w].spec_id() == id);
                        } else {
                            assert(rs[w + 1] == old_rs[w]);
                            assert(rs[w + 1].spec_id() == id);
                        }
                    }
                }
                assert forall|u: User| #[trigger] rs.contains(u) implies u == user || (
                old_rs.contains(u) && u.spec_id() != user_id) by {
                    let w = choose|w: int| 0 <= w < rs.len() && (#[trigger] rs[w]) == u;
                    if w < p {
                        assert(old_rs[w] == u);
                        assert(old_rs[w].spec_id().spec_get() < user_id.spec_get());
                    } else if w > p {
                        assert(rs[w] == old_rs[w - 1]);
                        assert(old_rs[w - 1] == u);
                        assert(old_rs[w - 1].spec_id().spec_get() >= old_rs[p  - 1 + 1].spec_id().spec_get() || w - 1 == p);
                        if w - 1 == p {
                            if p < old_rs.len() {
                                assert(old_rs[p].spec_id().spec_get() > user_id.spec_get());
                            }
                        } else {
                            assert(old_rs[p].spec_id().spec_get()
                                <= old_rs[w - 1].spec_id().spec_get());
                            assert(old_rs[p].spec_id().spec_get() > user_id.spec_get());
                        }
                    }
                }
                assert forall|u: User|
                    #[trigger] old_rs.contains(u) && u.spec_id() != user_id implies rs.contains(
                    u,
                ) by {
                    let w = choose|w: int| 0 <= w < old_rs.len() && (#[trigger] old_rs[w]) == u;
                    if w < p {
                        assert(rs[w] == u);
                    } else {
                        assert(rs[w + 1] == u);
                    }
                }
            }
        }
        Self { inner: copy }
    }
}

impl User {
    /// An explicit deep copy of the record.
    fn clone_record(&self) -> (r: User)
        ensures
            r == *self,
    {
        User { id: UserId { value: self.id.value }, nickname: Nickname(self.nickname.0.clone()) }
    }
}


/// The record with this identifier, if any.
pub open spec fn spec_lookup(records: Seq<User>, id: UserId) -> Option<User> {
    if exists|i: int| 0 <= i < records.len() && (#[trigger] records[i]).spec_id() == id {
        Some(records[choose|i: int| 0 <= i < records.len() && (#[trigger] records[i]).spec_id() == id])
    } else {
        None
    }
}

/// The records selected by `ids` in request order, skipping absent ones.
pub open spec fn spec_selected(records: Seq<User>, ids: Seq<UserId>) -> Seq<User>
    decreases ids.len(),
{
    if ids.len() == 0 {
        Seq::empty()
    } else {
        let rest = spec_selected(records, ids.drop_first());
        match spec_lookup(records, ids[0]) {
            Some(u) => seq![u] + rest,
            None => rest,
        }
    }
}

/// Whether the user at `i` repeats an identifier seen earlier in `s`.
pub open spec fn spec_dup_at(s: Seq<User>, i: int) -> bool {
    exists|k: int| 0 <= k < i && (#[trigger] s[k]).spec_id() == s[i].spec_id()
}

/// The identifier of the first user that repeats an earlier identifier.
pub open spec fn spec_first_dup_from(s: Seq<User>, i: int) -> Option<UserId>
    decreases s.len() - i,
{
    if i < 0 || i >= s.len() {
        None
    } else if spec_dup_at(s, i) {
        Some(s[i].spec_id())
    } else {
        spec_first_dup_from(s, i + 1)
    }
}

proof fn lemma_first_dup_skip(s: Seq<User>, i: int)
    requires
        0 <= i <= s.len(),
        forall|k: int| 0 <= k < i ==> !spec_dup_at(s, k),
    ensures
        spec_first_dup_from(s, 0) == spec_first_dup_from(s, i),
    decreases i,
{
    if i > 0 {
        lemma_first_dup_skip(s, i - 1);
        assert(!spec_dup_at(s, i - 1));
    }
}

/// Distinct identifiers force distinct positions.
proof fn lemma_wf_unique(m: PersistentUsersMap, i: int, j: int)
    requires
        m.wf(),
        0 <= i < m.spec_records().len(),
        0 <= j < m.spec_records().len(),
        m.spec_records()[i].spec_id() == m.spec_records()[j].spec_id(),
    ensures
        i == j,
{
}

/// An immutable repository: built once from a list of users, then only
/// read. Its records are stored in ascending identifier order.
#[derive(Debug)]
pub struct ImmutableUsersRepository {
    users: PersistentUsersMap,
}

impl ImmutableUsersRepository {
    #[verifier::type_invariant]
    spec fn type_inv(self) -> bool {
        self.users.wf()
    }

    /// Builds the repository, refusing the first repeated identifier.
    pub fn new(users: Vec<User>) -> (r: Result<Self, UsersRepositoryError>)
        ensures
            match r {
                Ok(repo) => {
                    &&& spec_first_dup_from(users@, 0) is None
                    &&& repo.spec_records().len() == users@.len()
                    &&& forall|u: User|
                        repo.spec_records().contains(u) <==> #[trigger] users@.contains(u)
                },
                Err(UsersRepositoryError::DuplicateUserId(id)) => spec_first_dup_from(users@, 0)
                    == Some(id),
            },
    {
        let mut users_map = PersistentUsersMap::new();
        let ghost all: Seq<User> = users@;
        let n = users.len();
        let mut i: usize = 0;
        while i < n
            invariant
                i <= n,
                n == all.len(),
                all == users@,
                users_map.wf(),
                users_map.spec_records().len() == i,
                forall|k: int| 0 <= k < i ==> !spec_dup_at(all, k),
                forall|u: User|
                    users_map.spec_records().contains(u) <==> #[trigger] all.take(
                        i as int,
                    ).contains(u),
                forall|id: UserId|
                    #[trigger] users_map.spec_contains_id(id) <==> exists|k: int|
                        0 <= k < i && (#[trigger] all[k]).spec_id() == id,
            decreases n - i,
        {
            let user = users[i].clone_record();
            proof {
                assert(user == all[i as int]);
            }
            let user_id = user.id();
            if users_map.contains_key(&user_id) {
                proof {
                    let ghost k = choose|k: int|
                        0 <= k < i && (#[trigger] all[k]).spec_id() == user_id;
                    assert(all[k].spec_id() == all[i as int].spec_id());
                    assert(spec_dup_at(all, i as int));
                    lemma_first_dup_skip(all, i as int);
                    assert(spec_first_dup_from(all, i as int) == Some(user_id));
                }
                return Err(UsersRepositoryError::DuplicateUserId(user_id));
            }
            proof {
                assert(!spec_dup_at(all, i as int));
            }
            let ghost before = users_map;
            users_map = users_map.insert(user_id, user);
            proof {
                assert forall|u: User|
                    users_map.spec_records().contains(u) implies #[trigger] all.take(
                    i + 1,
                ).contains(u) by {
                    if u == all[i as int] {
                        assert(all.take(i + 1)[i as int] == u);
                    } else {
                        assert(before.spec_records().contains(u));
                        assert(all.take(i as int).contains(u));
                        let t = all.take(i as int);
                        let w = choose|w: int| 0 <= w < t.len() && t[w] == u;
                        assert(t[w] == all[w]);
                        assert(all.take(i + 1)[w] == all[w]);
                        assert(all.take(i + 1)[w] == u);
                    }
                };
                assert forall|u: User| #[trigger] all.take(i + 1).contains(
                    u,
                ) implies users_map.spec_records().contains(u) by {
                    let w = choose|w: int|
                        0 <= w < all.take(i + 1).len() && (#[trigger] all.take(i + 1)[w]) == u;
                    assert(all.take(i + 1)[w] == all[w]);
                    if w < i {
                        assert(all.take(i as int)[w] == all[w]);
                        assert(all.take(i as int).contains(u));
                        assert(before.spec_records().contains(u));
                        assert(u.spec_id() != user_id) by {
                            if u.spec_id() == user_id {
                                let v = choose|v: int|
                                    0 <= v < before.spec_records().len() && (
                                    #[trigger] before.spec_records()[v]) == u;
                                assert(before.spec_records()[v].spec_id() == user_id);
                                assert(before.spec_contains_id(user_id));
                            }
                        }
                        assert(users_map.spec_records().contains(u));
                    } else {
                        assert(u == all[i as int]);
                        assert(users_map.spec_records().contains(user));
                    }
                };
                assert forall|id: UserId| #[trigger] users_map.spec_contains_id(id) implies (
                exists|k: int| 0 <= k < i + 1 && (#[trigger] all[k]).spec_id() == id) by {
                    if before.spec_contains_id(id) {
                        let k = choose|k: int| 0 <= k < i && (#[trigger] all[k]).spec_id() == id;
                        assert(0 <= k < i + 1 && all[k].spec_id() == id);
                    } else {
                        assert(id == user_id);
                        assert(all[i as int].spec_id() == id);
                    }
                };
                assert forall|id: UserId|
                    (exists|k: int| 0 <= k < i + 1 && (#[trigger] all[k]).spec_id()
                        == id) implies #[trigger] users_map.spec_contains_id(id) by {
                    let k = choose|k: int| 0 <= k < i + 1 && (#[trigger] all[k]).spec_id() == id;
                    if k < i {
                        assert(before.spec_contains_id(id));
                    } else {
                        assert(id == user_id);
                    }
                };
            }
            i = i + 1;
        }
        proof {
            lemma_first_dup_skip(all, n as int);
            assert(all.take(n as int) =~= all);
        }
        Ok(Self { users: users_map })
    }
}

impl UsersRepository for ImmutableUsersRepository {
    closed spec fn spec_records(&self) -> Seq<User> {
        self.users.spec_records()
    }

    fn get_user_by_id(&self, user_id: UserId) -> (r: Option<User>) {
        let found = self.users.get(&user_id);
        match found {
            Some(u) => Some(u.clone_record()),
            None => None,
        }
    }

    fn get_users_by_ids(&self, user_ids: &[UserId]) -> (r: Vec<User>) {
        proof {
            use_type_invariant(self);
        }
        let ghost records = self.users.spec_records();
        let mut result: Vec<User> = Vec::new();
        let n = user_ids.len();
        let mut i: usize = 0;
        proof {
            assert(user_ids@.skip(0) =~= user_ids@);
            assert(result@ + spec_selected(records, user_ids@) =~= spec_selected(
                records,
                user_ids@,
            ));
        }
        while i < n
            invariant
                i <= n,
                n == user_ids@.len(),
                self.users.wf(),
                records == self.users.spec_records(),
                spec_selected(records, user_ids@) == result@ + spec_selected(
                    records,
                    user_ids@.skip(i as int),
                ),
            decreases n - i,
        {
            let id = *vstd::slice::slice_index_get(user_ids, i);
            proof {
                assert(user_ids@.skip(i as int).drop_first() =~= user_ids@.skip(i + 1));
                assert(user_ids@.skip(i as int)[0] == user_ids@[i as int]);
            }
            match self.users.get(&id) {
                Some(u) => {
                    proof {
                        let w = choose|w: int|
                            0 <= w < records.len() && (#[trigger] records[w]).spec_id() == id;
                        let v = choose|v: int|
                            0 <= v < records.len() && (#[trigger] records[v]) == *u;
                        assert(records[v].spec_id() == id);
                        lemma_wf_unique(self.users, w, v);
                        assert(spec_lookup(records, id) == Some(*u));
                    }
                    let copied = u.clone_record();
                    result.push(copied);
                    proof {
                        assert(result@ + spec_selected(records, user_ids@.skip(i + 1)) =~= (
                        result@.drop_last() + (seq![*u] + spec_selected(
                            records,
                            user_ids@.skip(i + 1),
                        ))));
                    }
                },
                None => {
                    proof {
                        assert(spec_lookup(records, id) is None);
                    }
                },
            }
            i = i + 1;
        }
        proof {
            assert(user_ids@.skip(n as int).len() == 0);
            assert(spec_selected(records, user_ids@.skip(n as int)) =~= Seq::<User>::empty());
            assert(result@ =~= result@ + spec_selected(records, user_ids@.skip(n as int)));
        }
        result
    }

    fn search_user_ids_by_nickname(&self, nickname_query: &NicknameQuery) -> (r: Vec<UserId>) {
        let ghost records = self.users.spec_records();
        let ghost q: Seq<char> = nickname_query.spec_str();
        let ghost pred = |u: User| text::spec_contains_sub(u.spec_nickname().spec_str(), q);
        let values = self.users.values();
        let mut result: Vec<UserId> = Vec::new();
        let n = values.len();
        let mut i: usize = 0;
        while i < n
            invariant
                i <= n,
                n == records.len(),
                values@ == records,
                q == nickname_query.spec_str(),
                pred == (|u: User| text::spec_contains_sub(u.spec_nickname().spec_str(), q)),
                result@ == records.take(i as int).filter(pred).map_values(
                    |u: User| u.spec_id(),
                ),
            decreases n - i,
        {
            let u = &values[i];
            let is_match = text::contains_sub(u.nickname().as_str(), nickname_query.as_str());
            proof {
                reveal(Seq::filter);
                assert(records.take(i + 1).drop_last() =~= records.take(i as int));
                assert(records.take(i + 1).last() == records[i as int]);
                assert(is_match == pred(records[i as int]));
            }
            if is_match {
                result.push(u.id());
                proof {
                    assert(result@ =~= records.take(i + 1).filter(pred).map_values(
                        |u2: User| u2.spec_id(),
                    ));
                }
            } else {
                proof {
                    assert(result@ =~= records.take(i + 1).filter(pred).map_values(
                        |u2: User| u2.spec_id(),
                    ));
                }
            }
            i = i + 1;
        }
        proof {
            assert(records.take(n as int) =~= records);
        }
        result
    }
}

} // verus!
