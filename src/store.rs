use crate::credential::{argon2_accepts, hash, password_fits};
use crate::errors::{ApiError, Invalid};
use crate::model::{lemma_no_owned_tags, tags_of, join_users_tags, listing, listing_view, tags_view, users_view, Tag, TagView, User, UserView, UserWithTags};
use crate::registry::{
    check_login, check_registration, check_tag_name, email_well_formed, is_blank, login_result, option_view,
    registration_error,
};
use vstd::prelude::*;

verus! {

/// Upper bound on the number of rows of each table: ids are `i32`.
pub const MAX_ROWS: usize = 2147483647;

/// What a store holds: users in insertion order with their digests, and tags
/// in insertion order.
pub struct StoreView {
    pub users: Seq<UserView>,
    pub digests: Seq<Seq<char>>,
    pub tags: Seq<TagView>,
}

/// Storage-level rules: ids assigned sequentially from 1, emails unique, every
/// tag owned by an existing user.
pub open spec fn well_formed(s: StoreView) -> bool {
    &&& s.digests.len() == s.users.len()
    &&& s.users.len() <= MAX_ROWS
    &&& s.tags.len() <= MAX_ROWS
    &&& forall|i: int| 0 <= i < s.users.len() ==> #[trigger] s.users[i].id == i + 1
    &&& forall|i: int, j: int|
        0 <= i < s.users.len() && 0 <= j < s.users.len() && i != j
            ==> #[trigger] s.users[i].email != #[trigger] s.users[j].email
    &&& forall|k: int| 0 <= k < s.tags.len() ==> #[trigger] s.tags[k].id == k + 1
    &&& forall|k: int| 0 <= k < s.tags.len() ==> user_exists(s, #[trigger] s.tags[k].user_id)
}

pub open spec fn email_taken(s: StoreView, email: Seq<char>) -> bool {
    exists|i: int| 0 <= i < s.users.len() && #[trigger] s.users[i].email == email
}

pub open spec fn user_exists(s: StoreView, id: int) -> bool {
    1 <= id <= s.users.len()
}

/// The digest stored for `email`, if a user has it.
pub open spec fn stored_digest(s: StoreView, email: Seq<char>) -> Option<Seq<char>> {
    if email_taken(s, email) {
        let i = choose|i: int| 0 <= i < s.users.len() && #[trigger] s.users[i].email == email;
        Some(s.digests[i])
    } else {
        None
    }
}

/// The reason, if any, for which a registration fails before its password is hashed.
pub open spec fn register_precheck(s: StoreView, email: Seq<char>, password: Seq<char>) -> Option<ApiError> {
    if registration_error(email, password) is Some {
        registration_error(email, password)
    } else if email_taken(s, email) {
        Some(ApiError::Conflict)
    } else if s.users.len() >= MAX_ROWS {
        Some(ApiError::Unavailable)
    } else {
        None
    }
}

pub open spec fn result_view<T: View>(r: Result<T, ApiError>) -> Result<T::V, ApiError> {
    match r {
        Ok(v) => Ok(v@),
        Err(e) => Err(e),
    }
}

/// The relation between the store before and after a registration and what
/// the registration returned: either it fails and nothing changes, or one user
/// is appended with the next id, whose digest verifies against the password.
/// Past the checks, only a password too long for the hashing function fails.
pub open spec fn registered(
    s0: StoreView,
    s1: StoreView,
    email: Seq<char>,
    password: Seq<char>,
    now: int,
    r: Result<UserView, ApiError>,
) -> bool {
    match register_precheck(s0, email, password) {
        Some(e) => r == Err::<UserView, ApiError>(e) && s1 == s0,
        None => match r {
            Ok(u) => {
                &&& u == (UserView { id: s0.users.len() + 1 as int, email, created_at: now })
                &&& s1.users == s0.users.push(u)
                &&& s1.digests.len() == s0.digests.len() + 1
                &&& s1.digests.drop_last() == s0.digests
                &&& argon2_accepts(password, s1.digests.last())
                &&& s1.tags == s0.tags
            },
            Err(e) => {
                &&& e == ApiError::Validation(Invalid::Password)
                &&& !password_fits(password)
                &&& s1 == s0
            },
        },
    }
}

/// What creating a tag returns.
pub open spec fn tag_outcome(s: StoreView, user_id: int, name: Seq<char>, now: int) -> Result<TagView, ApiError> {
    if is_blank(name) {
        Err(ApiError::Validation(Invalid::TagName))
    } else if !user_exists(s, user_id) {
        Err(ApiError::NotFound)
    } else if s.tags.len() >= MAX_ROWS {
        Err(ApiError::Unavailable)
    } else {
        Ok(TagView { id: s.tags.len() + 1 as int, user_id, name, created_at: now })
    }
}

/// The store after creating a tag: the new tag appended, or nothing changed.
pub open spec fn after_tag(s: StoreView, user_id: int, name: Seq<char>, now: int) -> StoreView {
    match tag_outcome(s, user_id, name, now) {
        Ok(t) => StoreView { tags: s.tags.push(t), ..s },
        Err(_) => s,
    }
}

/// Users and tags held in memory under the same constraints that a relational
/// store enforces: a unique email index and a foreign key from tags to users.
/// Every operation takes `&mut self` or `&self`, so a check and the write it
/// guards happen as one step.
pub struct Store {
    users: Vec<User>,
    digests: Vec<String>,
    tags: Vec<Tag>,
}

impl View for Store {
    type V = StoreView;

    closed spec fn view(&self) -> StoreView {
        StoreView {
            users: users_view(self.users@),
            digests: self.digests@.map_values(|d: String| d@),
            tags: tags_view(self.tags@),
        }
    }
}

impl Store {
    pub open spec fn wf(&self) -> bool {
        well_formed(self@)
    }

    /// An empty store.
    pub fn new() -> (r: Store)
        ensures
            r.wf(),
            r@.users.len() == 0,
            r@.tags.len() == 0,
    {
        let r = Store { users: Vec::new(), digests: Vec::new(), tags: Vec::new() };
        proof {
            assert(r@.users =~= Seq::<UserView>::empty());
        }
        r
    }

    /// The index of the user whose email is `email`, if there is one.
    fn find_email(&self, email: &str) -> (r: Option<usize>)
        requires
            self.wf(),
        ensures
            match r {
                Some(i) => i < self@.users.len() && self@.users[i as int].email == email@,
                None => !email_taken(self@, email@),
            },
    {
        let key = email.to_owned();
        let mut i: usize = 0;
        while i < self.users.len()
            invariant
                i <= self.users@.len(),
                key@ == email@,
                forall|j: int| 0 <= j < i ==> self@.users[j].email != email@,
            decreases self.users@.len() - i,
        {
            if self.users[i].email == key {
                return Some(i);
            }
            i = i + 1;
        }
        None
    }

    /// Registers a user. The email must be well formed, the password non-empty
    /// and the email not yet taken (`Conflict`); the check and the insert are one
    /// step. A password that the hashing function refuses is a `Validation`
    /// error. The password is kept only as a salted digest, and the user returned
    /// carries no digest.
    pub fn register(&mut self, email: &str, password: &str, now: i64) -> (r: Result<User, ApiError>)
        requires
            old(self).wf(),
        ensures
            final(self).wf(),
            registered(old(self)@, final(self)@, email@, password@, now as int, result_view(r)),
    {
        match check_registration(email, password) {
            Err(e) => return Err(e),
            Ok(()) => {},
        }
        if self.find_email(email).is_some() {
            return Err(ApiError::Conflict);
        }
        if self.users.len() >= MAX_ROWS {
            return Err(ApiError::Unavailable);
        }
        let digest = match hash(password) {
            Some(d) => d,
            None => return Err(ApiError::Validation(Invalid::Password)),
        };
        let user = User { id: (self.users.len() + 1) as i32, email: email.to_owned(), created_at: now };
        let out = user.clone_user();
        let ghost s0 = self@;
        self.users.push(user);
        self.digests.push(digest);
        proof {
            assert(self@.users =~= s0.users.push(out@));
            assert(self@.digests.drop_last() =~= s0.digests);
            assert(self@.tags =~= s0.tags);
            assert forall|i: int, j: int|
                0 <= i < self@.users.len() && 0 <= j < self@.users.len() && i != j
                    implies #[trigger] self@.users[i].email != #[trigger] self@.users[j].email by {
                if i == s0.users.len() {
                    assert(s0.users[j].email == self@.users[j].email);
                } else if j == s0.users.len() {
                    assert(s0.users[i].email == self@.users[i].email);
                }
            }
            assert forall|k: int| 0 <= k < self@.tags.len() implies user_exists(self@, #[trigger] self@.tags[k].user_id) by {
                assert(user_exists(s0, s0.tags[k].user_id));
            }
        }
        Ok(out)
    }

    /// Checks a login. An unknown email and a wrong password give the same error.
    pub fn login(&self, email: &str, password: &str) -> (r: Result<(), ApiError>)
        requires
            self.wf(),
        ensures
            r == login_result(stored_digest(self@, email@), password@),
    {
        let found = self.find_email(email);
        let stored: Option<String> = match found {
            Some(i) => Some(self.digests[i].clone()),
            None => None,
        };
        proof {
            if let Some(i) = found {
                let j = choose|j: int| 0 <= j < self@.users.len() && #[trigger] self@.users[j].email == email@;
                assert(self@.users[i as int].email == email@);
                assert(j == i);
                assert(option_view(stored) == stored_digest(self@, email@));
            }
        }
        check_login(&stored, password)
    }

    /// All users in insertion order, each with the tags it owns in insertion
    /// order; a user without tags is listed with an empty list.
    pub fn list_with_tags(&self) -> (r: Vec<UserWithTags>)
        ensures
            listing_view(r@) == listing(self@.users, self@.tags),
    {
        join_users_tags(&self.users, &self.tags)
    }

    /// Creates a tag owned by `user_id`. A blank name is refused; a user id that
    /// names no user gives `NotFound`. On failure nothing is stored.
    pub fn create_tag(&mut self, user_id: i32, name: &str, now: i64) -> (r: Result<Tag, ApiError>)
        requires
            old(self).wf(),
        ensures
            final(self).wf(),
            result_view(r) == tag_outcome(old(self)@, user_id as int, name@, now as int),
            final(self)@ == after_tag(old(self)@, user_id as int, name@, now as int),
    {
        match check_tag_name(name) {
            Err(e) => return Err(e),
            Ok(()) => {},
        }
        if user_id < 1 || user_id as usize > self.users.len() {
            return Err(ApiError::NotFound);
        }
        if self.tags.len() >= MAX_ROWS {
            return Err(ApiError::Unavailable);
        }
        let tag = Tag { id: (self.tags.len() + 1) as i32, user_id, name: name.to_owned(), created_at: now };
        let out = tag.clone_tag();
        let ghost s0 = self@;
        self.tags.push(tag);
        proof {
            assert(self@.tags =~= s0.tags.push(out@));
            assert(self@.users =~= s0.users);
            assert(self@.digests =~= s0.digests);
        }
        Ok(out)
    }

    /// The number of users stored.
    pub fn user_count(&self) -> (r: usize)
        ensures
            r == self@.users.len(),
    {
        self.users.len()
    }

    /// The number of tags stored.
    pub fn tag_count(&self) -> (r: usize)
        ensures
            r == self@.tags.len(),
    {
        self.tags.len()
    }
}


/// One email registers once: of two registrations of the same email, one after
/// the other on the same store, at most one succeeds, and once the first has
/// succeeded a second with a non-empty password is refused with `Conflict`.
/// Where the email is new and well formed, the first password non-empty and
/// within the hashing limit, and the table has room, exactly the first succeeds.
pub proof fn lemma_one_registration_per_email(
    s0: StoreView,
    s1: StoreView,
    s2: StoreView,
    email: Seq<char>,
    p1: Seq<char>,
    p2: Seq<char>,
    t1: int,
    t2: int,
    r1: Result<UserView, ApiError>,
    r2: Result<UserView, ApiError>,
)
    requires
        well_formed(s0),
        registered(s0, s1, email, p1, t1, r1),
        registered(s1, s2, email, p2, t2, r2),
    ensures
        !(r1 is Ok && r2 is Ok),
        r1 is Ok && p2.len() > 0 ==> r2 == Err::<UserView, ApiError>(ApiError::Conflict),
        email_well_formed(email) && !email_taken(s0, email) && p1.len() > 0 && password_fits(p1)
            && s0.users.len() < MAX_ROWS && p2.len() > 0
            ==> r1 is Ok && r2 == Err::<UserView, ApiError>(ApiError::Conflict),
{
    if r1 is Ok {
        assert(s1.users[s0.users.len() as int].email == email);
        assert(email_taken(s1, email));
    }
}

/// A login with an email that no user has and a login with a user's email and
/// a password that its digest rejects fail alike, with `Unauthorized`.
pub proof fn lemma_login_failures_alike(
    s: StoreView,
    unknown: Seq<char>,
    p1: Seq<char>,
    known: Seq<char>,
    p2: Seq<char>,
)
    requires
        well_formed(s),
        !email_taken(s, unknown),
        email_taken(s, known),
        !argon2_accepts(p2, stored_digest(s, known)->0),
    ensures
        login_result(stored_digest(s, unknown), p1) == login_result(stored_digest(s, known), p2),
        login_result(stored_digest(s, unknown), p1) == Err::<(), ApiError>(ApiError::Unauthorized),
{
}

/// Creating a tag for a user id that names no user fails with `NotFound` (once
/// the name is accepted) and stores nothing.
pub proof fn lemma_tag_needs_owner(s: StoreView, user_id: int, name: Seq<char>, now: int)
    requires
        well_formed(s),
        !user_exists(s, user_id),
    ensures
        tag_outcome(s, user_id, name, now) is Err,
        !is_blank(name) ==> tag_outcome(s, user_id, name, now) == Err::<TagView, ApiError>(ApiError::NotFound),
        after_tag(s, user_id, name, now) == s,
{
}

/// Creating a tag keeps the store's rules: no tag ever names a missing user.
pub proof fn lemma_tag_keeps_rules(s: StoreView, user_id: int, name: Seq<char>, now: int)
    requires
        well_formed(s),
    ensures
        well_formed(after_tag(s, user_id, name, now)),
{
    let s1 = after_tag(s, user_id, name, now);
    if tag_outcome(s, user_id, name, now) is Ok {
        assert forall|k: int| 0 <= k < s1.tags.len() implies user_exists(s1, #[trigger] s1.tags[k].user_id) by {
            if k < s.tags.len() {
                assert(s1.tags[k] == s.tags[k]);
            }
        }
    }
}

/// A registration that succeeded is followed by a login with the same
/// credentials that succeeds, and by a tag for the new user (a non-blank name,
/// room in the tag table) that belongs to it, and the listing then ends with
/// that user holding exactly that tag.
pub proof fn lemma_register_login_tag(
    s0: StoreView,
    s1: StoreView,
    email: Seq<char>,
    password: Seq<char>,
    t1: int,
    u: UserView,
    name: Seq<char>,
    t2: int,
)
    requires
        well_formed(s0),
        registered(s0, s1, email, password, t1, Ok(u)),
        !is_blank(name),
        s1.tags.len() < MAX_ROWS,
    ensures
        u.id == s0.users.len() + 1,
        u.email == email,
        u.created_at == t1,
        login_result(stored_digest(s1, email), password) == Ok::<(), ApiError>(()),
        tag_outcome(s1, u.id, name, t2) == Ok::<TagView, ApiError>(
            TagView { id: s1.tags.len() + 1 as int, user_id: u.id, name, created_at: t2 },
        ),
        listing(after_tag(s1, u.id, name, t2).users, after_tag(s1, u.id, name, t2).tags).last() == (
            u,
            seq![TagView { id: s1.tags.len() + 1 as int, user_id: u.id, name, created_at: t2 }],
        ),
{
    let n = s0.users.len() as int;
    assert(s1.users[n] == u);
    assert(s1.users[n].email == email);
    assert(email_taken(s1, email));
    let j = choose|j: int| 0 <= j < s1.users.len() && #[trigger] s1.users[j].email == email;
    if j < n {
        assert(s0.users[j] == s1.users[j]);
        assert(email_taken(s0, email));
    }
    assert(j == n);
    let t = TagView { id: s1.tags.len() + 1 as int, user_id: u.id, name, created_at: t2 };
    let s2 = after_tag(s1, u.id, name, t2);
    assert(s2.tags == s1.tags.push(t));
    assert forall|k: int| 0 <= k < s1.tags.len() implies #[trigger] s1.tags[k].user_id != u.id by {
        assert(s1.tags[k] == s0.tags[k]);
        assert(user_exists(s0, s0.tags[k].user_id));
    }
    lemma_no_owned_tags(s1.tags, u.id);
    reveal(Seq::filter);
    assert(s2.tags.drop_last() =~= s1.tags);
    assert(tags_of(s2.tags, u.id) =~= seq![t]);
}

} // verus!
