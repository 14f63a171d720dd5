//! The user directory: the authoritative name-to-credential map.
//!
//! Names are unique; a user, once added, is never changed or removed.  The
//! directory itself is pure in-memory state: the surrounding program writes
//! a snapshot to the durable store after every successful `add` and rebuilds
//! the directory from it at startup with `from_users`.

use crate::table::Table;
use vstd::prelude::*;

verus! {

/// One registered user: a name and its plaintext password.
///
/// Passwords are stored and compared in the clear; that is the wire and
/// store contract of this service, not an oversight.
pub struct User {
    pub name: String,
    pub password: String,
}

/// The mathematical shape of a `User`.
pub struct UserView {
    pub name: Seq<char>,
    pub password: Seq<char>,
}

impl View for User {
    type V = UserView;

    open spec fn view(&self) -> UserView {
        UserView { name: self.name@, password: self.password@ }
    }
}

impl Clone for User {
    fn clone(&self) -> (r: Self)
        ensures
            r == *self,
    {
        User { name: self.name.clone(), password: self.password.clone() }
    }
}

/// Why an `add` was refused.
#[derive(Debug, PartialEq, Eq, Structural)]
pub enum DirectoryError {
    AlreadyExists,
}

/// The outcome of checking a name/password pair.
#[derive(Debug, PartialEq, Eq, Structural)]
pub enum AuthResult {
    Granted,
    WrongPassword,
    NoSuchUser,
}

/// What authentication returns for every directory, name and password.
pub open spec fn auth_spec(
    users: Map<Seq<char>, Seq<char>>,
    name: Seq<char>,
    password: Seq<char>,
) -> AuthResult {
    if !users.contains_key(name) {
        AuthResult::NoSuchUser
    } else if users[name] != password {
        AuthResult::WrongPassword
    } else {
        AuthResult::Granted
    }
}

/// The directory a sequence of stored users denotes; a later record for the
/// same name wins, as when a map is built from an iterator of records.
pub open spec fn users_map(s: Seq<User>) -> Map<Seq<char>, Seq<char>>
    decreases s.len(),
{
    if s.len() == 0 {
        Map::empty()
    } else {
        users_map(s.drop_last()).insert(s.last().name@, s.last().password@)
    }
}

/// A faithful snapshot: one record per directory entry, names distinct.
pub open spec fn snapshot_matches(s: Seq<User>, users: Map<Seq<char>, Seq<char>>) -> bool {
    &&& forall|i: int, j: int| 0 <= i < j < s.len() ==> s[i].name@ != s[j].name@
    &&& forall|i: int|
        0 <= i < s.len() ==> users.contains_key(#[trigger] s[i].name@) && users[s[i].name@]
            == s[i].password@
    &&& forall|k: Seq<char>|
        users.contains_key(k) ==> exists|i: int| 0 <= i < s.len() && s[i].name@ == k
}

/// The registered users, seen as a map from name to password.
pub struct Directory {
    table: Table<String>,
}

/// The same map with owned passwords taken to their views.
spec fn creds(m: Map<Seq<char>, String>) -> Map<Seq<char>, Seq<char>> {
    Map::new(|k: Seq<char>| m.contains_key(k), |k: Seq<char>| m[k]@)
}

proof fn lemma_creds_insert(m: Map<Seq<char>, String>, k: Seq<char>, v: String)
    ensures
        creds(m.insert(k, v)) == creds(m).insert(k, v@),
{
    assert(creds(m.insert(k, v)) =~= creds(m).insert(k, v@));
}

impl View for Directory {
    type V = Map<Seq<char>, Seq<char>>;

    closed spec fn view(&self) -> Map<Seq<char>, Seq<char>> {
        creds(self.table@)
    }
}

impl Directory {
    /// The empty directory.
    pub fn new() -> (d: Self)
        ensures
            d@ == Map::<Seq<char>, Seq<char>>::empty(),
    {
        Directory { table: Table::new() }
    }

    /// Registers a user: fails with `AlreadyExists` and changes nothing when
    /// the name is taken, records the password under the name otherwise.
    pub fn add(&mut self, user: &User) -> (r: Result<(), DirectoryError>)
        ensures
            r is Ok <==> !old(self)@.contains_key(user.name@),
            r is Ok ==> final(self)@ == old(self)@.insert(user.name@, user.password@),
            r is Err ==> final(self)@ == old(self)@ && r == Err::<(), DirectoryError>(
                DirectoryError::AlreadyExists,
            ),
    {
        if self.table.contains(&user.name) {
            proof {
                assert(old(self)@.contains_key(user.name@));
            }
            Err(DirectoryError::AlreadyExists)
        } else {
            proof {
                assert(!old(self)@.contains_key(user.name@));
            }
            let ghost m0 = self.table@;
            self.table.insert(user.name.clone(), user.password.clone());
            proof {
                lemma_creds_insert(m0, user.name@, user.password);
            }
            Ok(())
        }
    }

    /// The user registered under `name`, if any.
    pub fn get(&self, name: &String) -> (r: Option<User>)
        ensures
            match r {
                Some(u) => self@.contains_key(name@) && u.name@ == name@ && u.password@
                    == self@[name@],
                None => !self@.contains_key(name@),
            },
    {
        proof {
            assert(self@.contains_key(name@) == self.table@.contains_key(name@));
        }
        match self.table.get(name) {
            Some(pw) => {
                proof {
                    assert(self@[name@] == pw@);
                }
                Some(User { name: name.clone(), password: pw.clone() })
            },
            None => None,
        }
    }

    /// Checks a name/password pair against the directory.
    pub fn authenticate(&self, name: &String, password: &String) -> (r: AuthResult)
        ensures
            r == auth_spec(self@, name@, password@),
    {
        proof {
            assert(self@.contains_key(name@) == self.table@.contains_key(name@));
        }
        match self.table.get(name) {
            None => AuthResult::NoSuchUser,
            Some(pw) => {
                proof {
                    assert(self@[name@] == pw@);
                }
                if *pw == *password {
                    AuthResult::Granted
                } else {
                    AuthResult::WrongPassword
                }
            },
        }
    }

    /// How many users are registered.
    pub fn len(&self) -> (n: usize)
        ensures
            n == self@.dom().len(),
    {
        proof {
            assert(self@.dom() =~= self.table@.dom());
        }
        self.table.len()
    }

    /// The full user set, one record per entry, for the durable store.
    pub fn snapshot(&self) -> (r: Vec<User>)
        ensures
            snapshot_matches(r@, self@),
    {
        let entries = self.table.entries();
        let n = entries.len();
        let mut r: Vec<User> = Vec::new();
        let mut i: usize = 0;
        while i < n
            invariant
                i <= n,
                n == entries@.len(),
                r@.len() == i,
                forall|j: int|
                    0 <= j < i ==> r@[j].name@ == #[trigger] entries@[j].0@ && r@[j].password@
                        == entries@[j].1@,
                crate::table::keys_distinct(entries@),
                forall|j: int|
                    0 <= j < entries@.len() ==> self.table@.contains_key(
                        #[trigger] entries@[j].0@,
                    ) && self.table@[entries@[j].0@] == entries@[j].1,
                forall|k: Seq<char>|
                    self.table@.contains_key(k) ==> exists|j: int|
                        0 <= j < entries@.len() && entries@[j].0@ == k,
            decreases n - i,
        {
            r.push(User { name: entries[i].0.clone(), password: entries[i].1.clone() });
            i = i + 1;
        }
        proof {
            assert forall|i2: int, j2: int| 0 <= i2 < j2 < r@.len() implies r@[i2].name@
                != r@[j2].name@ by {
                assert(r@[i2].name@ == entries@[i2].0@);
                assert(r@[j2].name@ == entries@[j2].0@);
                assert(entries@[i2].0@ != entries@[j2].0@);
            }
            assert forall|i2: int| 0 <= i2 < r@.len() implies self@.contains_key(
                #[trigger] r@[i2].name@,
            ) && self@[r@[i2].name@] == r@[i2].password@ by {
                assert(self.table@.contains_key(entries@[i2].0@));
                assert(r@[i2].name@ == entries@[i2].0@);
                assert(self@[r@[i2].name@] == self.table@[r@[i2].name@]@);
            }
            assert forall|k: Seq<char>| self@.contains_key(k) implies exists|i2: int|
                0 <= i2 < r@.len() && r@[i2].name@ == k by {
                assert(self.table@.contains_key(k));
                let i2 = choose|i2: int| 0 <= i2 < entries@.len() && entries@[i2].0@ == k;
                assert(r@[i2].name@ == k);
            }
        }
        r
    }

    /// Rebuilds a directory from stored records; a later record for the same
    /// name overwrites an earlier one.
    pub fn from_users(users: Vec<User>) -> (d: Self)
        ensures
            d@ == users_map(users@),
    {
        let n = users.len();
        let mut d = Directory::new();
        let mut i: usize = 0;
        while i < n
            invariant
                i <= n,
                n == users@.len(),
                d@ == users_map(users@.take(i as int)),
            decreases n - i,
        {
            proof {
                assert(users@.take(i as int + 1).drop_last() =~= users@.take(i as int));
            }
            let ghost m0 = d.table@;
            d.table.insert(users[i].name.clone(), users[i].password.clone());
            proof {
                lemma_creds_insert(m0, users@[i as int].name@, users@[i as int].password);
            }
            i = i + 1;
        }
        proof {
            assert(users@.take(n as int) =~= users@);
        }
        d
    }
}

/// Registering the same name twice: the directory refuses the second call.
///
/// After the first registration the name is present (so a second `add` takes
/// its error path and leaves the directory as it was), it maps to the first
/// password, and the directory holds exactly one entry more than before.
pub proof fn lemma_duplicate_registration(
    users: Map<Seq<char>, Seq<char>>,
    name: Seq<char>,
    password: Seq<char>,
)
    requires
        !users.contains_key(name),
        users.dom().finite(),
    ensures
        users.insert(name, password).contains_key(name),
        users.insert(name, password)[name] == password,
        users.insert(name, password).dom().len() == users.dom().len() + 1,
{
    broadcast use vstd::set::axiom_set_insert_len;

    assert(users.insert(name, password).dom() =~= users.dom().insert(name));
}

/// Reloading a snapshot reproduces exactly the directory it was taken from.
pub proof fn lemma_snapshot_reload(s: Seq<User>, users: Map<Seq<char>, Seq<char>>)
    requires
        snapshot_matches(s, users),
    ensures
        users_map(s) == users,
    decreases s.len(),
{
    if s.len() == 0 {
        assert(users_map(s) =~= users);
    } else {
        let pre = s.drop_last();
        let last = s.last();
        let rest = users.remove(last.name@);
        assert forall|k: Seq<char>| rest.contains_key(k) implies exists|i: int|
            0 <= i < pre.len() && pre[i].name@ == k by {
            let i = choose|i: int| 0 <= i < s.len() && s[i].name@ == k;
            assert(i < s.len() - 1);
            assert(pre[i].name@ == k);
        }
        assert forall|i: int| 0 <= i < pre.len() implies rest.contains_key(
            #[trigger] pre[i].name@,
        ) && rest[pre[i].name@] == pre[i].password@ by {
            assert(s[i].name@ == pre[i].name@);
            assert(s[i].name@ != last.name@);
        }
        lemma_snapshot_reload(pre, rest);
        assert(s[s.len() - 1] == last);
        assert(users_map(s) =~= users);
    }
}

} // verus!
