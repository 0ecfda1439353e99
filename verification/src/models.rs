//! The data the core works over: user rows as the user store holds them,
//! their public projections, contests, and the permission test that gates
//! privileged operations.

use vstd::prelude::*;

verus! {

/// Mathematical image of a user row.
pub ghost struct UserView {
    pub id: int,
    pub username: Seq<char>,
    pub display_name: Seq<char>,
    pub password_hash: Seq<char>,
    pub password_salt: Seq<char>,
    pub permissions: Seq<Seq<char>>,
}

/// A user row, loaded on demand from the user store and never cached by the
/// core.
#[derive(Debug)]
pub struct User {
    pub id: i32,
    pub username: String,
    pub display_name: String,
    pub password_hash: String,
    pub password_salt: String,
    pub permissions: Vec<String>,
}

impl View for User {
    type V = UserView;

    open spec fn view(&self) -> UserView {
        UserView {
            id: self.id as int,
            username: self.username@,
            display_name: self.display_name@,
            password_hash: self.password_hash@,
            password_salt: self.password_salt@,
            permissions: self.permissions.deep_view(),
        }
    }
}

impl DeepView for User {
    type V = UserView;

    open spec fn deep_view(&self) -> UserView {
        self.view()
    }
}

/// A user row as it is first persisted: everything but the
/// store-generated id.
pub struct NewUser {
    pub username: String,
    pub display_name: String,
    pub password_hash: String,
    pub password_salt: String,
    pub permissions: Vec<String>,
}

/// Membership of a capability in a permission set: exact match, the one
/// policy for what satisfies a required capability.
pub open spec fn spec_has_permission(permissions: Seq<Seq<char>>, permission: Seq<char>) -> bool {
    exists|i: int| 0 <= i < permissions.len() && permissions[i] == permission
}

impl User {
    /// Whether the user holds the capability, by exact match against the
    /// permission set.
    pub fn has_permission(&self, permission: &str) -> (r: bool)
        ensures
            r == spec_has_permission(self@.permissions, permission@),
    {
        let wanted: String = permission.to_owned();
        let n = self.permissions.len();
        let mut i: usize = 0;
        while i < n
            invariant
                n == self.permissions.len(),
                i <= n,
                wanted@ == permission@,
                forall|j: int| 0 <= j < i ==> self.permissions.deep_view()[j] != permission@,
            decreases n - i,
        {
            if self.permissions[i] == wanted {
                assert(self.permissions.deep_view()[i as int] == permission@);
                return true;
            }
            i = i + 1;
        }
        false
    }

    /// Whether the user holds the `admin` capability.
    pub fn is_admin(&self) -> (r: bool)
        ensures
            r == spec_has_permission(self@.permissions, "admin"@),
    {
        self.has_permission("admin")
    }

    /// A field-for-field copy of the row.
    pub fn duplicate(&self) -> (r: User)
        ensures
            r@ == self@,
    {
        let r = User {
            id: self.id,
            username: self.username.clone(),
            display_name: self.display_name.clone(),
            password_hash: self.password_hash.clone(),
            password_salt: self.password_salt.clone(),
            permissions: self.permissions.clone(),
        };
        proof {
            broadcast use vstd::std_specs::vec::vec_clone_deep_view_proof;

            assert(r.permissions.deep_view() =~= self.permissions.deep_view());
        }
        r
    }
}

/// Mathematical image of a public user.
pub ghost struct PublicUserView {
    pub id: int,
    pub username: Seq<char>,
    pub display_name: Seq<char>,
}

/// The part of a user row that may be shown to anyone: no credential
/// material, no permissions.
pub struct PublicUser {
    pub id: i32,
    pub username: String,
    pub display_name: String,
}

impl View for PublicUser {
    type V = PublicUserView;

    open spec fn view(&self) -> PublicUserView {
        PublicUserView {
            id: self.id as int,
            username: self.username@,
            display_name: self.display_name@,
        }
    }
}

impl PublicUser {
    /// Strips a user row down to its public fields.
    pub fn from(user: User) -> (r: PublicUser)
        ensures
            r@.id == user@.id,
            r@.username == user@.username,
            r@.display_name == user@.display_name,
    {
        PublicUser { id: user.id, username: user.username, display_name: user.display_name }
    }
}

/// Mathematical image of a contest row.
pub ghost struct ContestView {
    pub id: int,
    pub public: bool,
    pub slug: Seq<char>,
    pub title: Seq<char>,
}

/// A contest row.
pub struct Contest {
    pub id: i32,
    pub public: bool,
    pub slug: String,
    pub title: String,
}

impl View for Contest {
    type V = ContestView;

    open spec fn view(&self) -> ContestView {
        ContestView {
            id: self.id as int,
            public: self.public,
            slug: self.slug@,
            title: self.title@,
        }
    }
}

impl DeepView for Contest {
    type V = ContestView;

    open spec fn deep_view(&self) -> ContestView {
        self.view()
    }
}

/// A contest row as it is first persisted.
pub struct NewContest {
    pub public: bool,
    pub slug: String,
    pub title: String,
}

/// Mathematical image of a public contest.
pub ghost struct PublicContestView {
    pub id: int,
    pub slug: Seq<char>,
    pub title: Seq<char>,
}

/// The part of a contest row that may be shown to anyone.
pub struct PublicContest {
    pub id: i32,
    pub slug: String,
    pub title: String,
}

impl View for PublicContest {
    type V = PublicContestView;

    open spec fn view(&self) -> PublicContestView {
        PublicContestView { id: self.id as int, slug: self.slug@, title: self.title@ }
    }
}

impl DeepView for PublicContest {
    type V = PublicContestView;

    open spec fn deep_view(&self) -> PublicContestView {
        self.view()
    }
}

/// The public projection of a contest row.
pub open spec fn strip_contest(c: ContestView) -> PublicContestView {
    PublicContestView { id: c.id, slug: c.slug, title: c.title }
}

impl PublicContest {
    /// Strips a contest row down to its public fields.
    pub fn from(contest: Contest) -> (r: PublicContest)
        ensures
            r@ == strip_contest(contest@),
    {
        PublicContest { id: contest.id, slug: contest.slug, title: contest.title }
    }
}

/// The contest rows a viewer may see: all of them for an administrator,
/// only the public ones, shorn of their non-public fields, for anyone else.
pub open spec fn visible_contests(contests: Seq<ContestView>) -> Seq<PublicContestView> {
    contests.filter(|c: ContestView| c.public).map_values(|c: ContestView| strip_contest(c))
}

/// The public projections of the public contests among the given rows, in
/// their order.
pub fn select_public_contests(contests: Vec<Contest>) -> (r: Vec<PublicContest>)
    ensures
        r.deep_view() == visible_contests(contests.deep_view()),
{
    let n = contests.len();
    let mut r: Vec<PublicContest> = Vec::new();
    let mut i: usize = 0;
    while i < n
        invariant
            n == contests.len(),
            i <= n,
            r.deep_view() == visible_contests(contests.deep_view().take(i as int)),
        decreases n - i,
    {
        let ghost pred = |x: ContestView| x.public;
        let ghost strip = |x: ContestView| strip_contest(x);
        let ghost prefix = contests.deep_view().take(i as int);
        let ghost c = contests.deep_view()[i as int];
        let ghost old_r = r.deep_view();
        proof {
            reveal_with_fuel(Seq::filter, 2);
            assert(contests.deep_view().take(i as int + 1) =~= prefix.push(c));
            assert(prefix.push(c).drop_last() =~= prefix);
            assert(prefix.push(c).last() == c);
            assert(prefix.push(c).filter(pred) == if pred(c) {
                prefix.filter(pred).push(c)
            } else {
                prefix.filter(pred)
            });
        }
        if contests[i].public {
            let item = PublicContest {
                id: contests[i].id,
                slug: contests[i].slug.clone(),
                title: contests[i].title.clone(),
            };
            assert(item@ == strip_contest(c));
            r.push(item);
            proof {
                assert(r.deep_view() =~= old_r.push(strip_contest(c)));
                assert(prefix.filter(pred).push(c).map_values(strip) =~= prefix.filter(
                    pred,
                ).map_values(strip).push(strip_contest(c)));
                assert(r.deep_view() =~= visible_contests(prefix.push(c)));
            }
        } else {
            proof {
                assert(r.deep_view() =~= visible_contests(prefix.push(c)));
            }
        }
        i = i + 1;
    }
    proof {
        assert(contests.deep_view().take(n as int) =~= contests.deep_view());
    }
    r
}

} // verus!
