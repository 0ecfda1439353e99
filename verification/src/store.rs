//! An in-memory user store: the user rows the core reads through, keyed by
//! their unique usernames. The surrounding process owns where the rows
//! really live; the core only ever looks a user up by name and inserts the
//! row registration built.

use vstd::prelude::*;

use crate::models::{NewUser, User, UserView};

verus! {

/// In a store with unique usernames, an element with a given username is the
/// element at any index carrying that username.
pub proof fn lemma_unique_username(store: &UserStore, u: UserView, i: int)
    requires
        store.wf(),
        store@.contains(u),
        0 <= i < store@.len(),
        store@[i].username == u.username,
    ensures
        store@[i] == u,
{
    let k = choose|k: int| 0 <= k < store@.len() && store@[k] == u;
    assert(store@[k].username == store@[i].username);
    if k < i {
        assert(store@[k].username != store@[i].username);
    } else if i < k {
        assert(store@[i].username != store@[k].username);
    }
}

/// Why persisting a user row failed.
#[derive(Clone, Copy, PartialEq, Eq, Structural, Debug)]
pub enum StoreError {
    /// A row with this username already exists; usernames are unique.
    DuplicateUsername,
    /// No id is left to assign.
    Full,
}

/// The user rows, usernames unique.
pub struct UserStore {
    users: Vec<User>,
}

impl View for UserStore {
    type V = Seq<UserView>;

    closed spec fn view(&self) -> Seq<UserView> {
        self.users.deep_view()
    }
}

impl UserStore {
    /// The store's invariant: no two rows share a username.
    pub open spec fn wf(&self) -> bool {
        forall|i: int, j: int|
            0 <= i < j < self@.len() ==> #[trigger] self@[i].username != #[trigger] self@[j].username
    }

    /// Whether some row carries this username.
    pub open spec fn contains_username(&self, name: Seq<char>) -> bool {
        exists|i: int| 0 <= i < self@.len() && #[trigger] self@[i].username == name
    }

    /// An empty store.
    pub fn new() -> (r: UserStore)
        ensures
            r@ =~= Seq::<UserView>::empty(),
            r.wf(),
    {
        UserStore { users: Vec::new() }
    }

    /// The number of rows.
    pub fn len(&self) -> (r: usize)
        ensures
            r == self@.len(),
    {
        self.users.len()
    }

    /// Loads the row with this username, or nothing if there is none.
    pub fn find_by_username(&self, username: &str) -> (r: Option<User>)
        ensures
            r matches Some(u) ==> u@.username == username@ && self@.contains(u@),
            r is None ==> !self.contains_username(username@),
    {
        let wanted: String = username.to_owned();
        let n = self.users.len();
        let mut i: usize = 0;
        while i < n
            invariant
                n == self.users.len(),
                i <= n,
                wanted@ == username@,
                forall|j: int| 0 <= j < i ==> #[trigger] self@[j].username != username@,
            decreases n - i,
        {
            if self.users[i].username == wanted {
                let u = self.users[i].duplicate();
                assert(u@ == self@[i as int]);
                return Some(u);
            }
            i = i + 1;
        }
        None
    }

    /// Appends the row, assigning it the next id; refuses a duplicate
    /// username, and a store whose ids are used up.
    pub fn insert(&mut self, user: NewUser) -> (r: Result<(), StoreError>)
        requires
            old(self).wf(),
        ensures
            final(self).wf(),
            r matches Ok(()) ==> final(self)@ =~= old(self)@.push(
                UserView {
                    id: old(self)@.len() as int,
                    username: user.username@,
                    display_name: user.display_name@,
                    password_hash: user.password_hash@,
                    password_salt: user.password_salt@,
                    permissions: user.permissions.deep_view(),
                },
            ),
            r is Err ==> final(self)@ == old(self)@,
            old(self).contains_username(user.username@) ==> r == Err::<(), StoreError>(
                StoreError::DuplicateUsername,
            ),
            r == Err::<(), StoreError>(StoreError::DuplicateUsername) ==> old(
                self,
            ).contains_username(user.username@),
            !old(self).contains_username(user.username@) && old(self)@.len() < i32::MAX ==> r
                matches Ok(()),
    {
        match self.find_by_username(user.username.as_str()) {
            Some(_) => Err(StoreError::DuplicateUsername),
            None => {
                if self.users.len() >= i32::MAX as usize {
                    return Err(StoreError::Full);
                }
                let id: i32 = self.users.len() as i32;
                let row = User {
                    id,
                    username: user.username,
                    display_name: user.display_name,
                    password_hash: user.password_hash,
                    password_salt: user.password_salt,
                    permissions: user.permissions,
                };
                let ghost old_view = self@;
                self.users.push(row);
                proof {
                    assert(self@ =~= old_view.push(self@.last()));
                }
                Ok(())
            },
        }
    }
}

} // verus!
