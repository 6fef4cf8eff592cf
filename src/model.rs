use vstd::prelude::*;

verus! {

/// A user as callers see it; the password digest never leaves the store.
#[derive(Clone, Debug)]
pub struct User {
    pub id: i32,
    pub email: String,
    pub created_at: i64,
}

pub struct UserView {
    pub id: int,
    pub email: Seq<char>,
    pub created_at: int,
}

impl View for User {
    type V = UserView;

    open spec fn view(&self) -> UserView {
        UserView { id: self.id as int, email: self.email@, created_at: self.created_at as int }
    }
}

/// A label owned by one user.
#[derive(Clone, Debug)]
pub struct Tag {
    pub id: i32,
    pub user_id: i32,
    pub name: String,
    pub created_at: i64,
}

pub struct TagView {
    pub id: int,
    pub user_id: int,
    pub name: Seq<char>,
    pub created_at: int,
}

impl View for Tag {
    type V = TagView;

    open spec fn view(&self) -> TagView {
        TagView {
            id: self.id as int,
            user_id: self.user_id as int,
            name: self.name@,
            created_at: self.created_at as int,
        }
    }
}

/// One entry of the user listing: a user and the tags it owns, oldest first.
#[derive(Clone, Debug)]
pub struct UserWithTags {
    pub user: User,
    pub tags: Vec<Tag>,
}

pub open spec fn users_view(users: Seq<User>) -> Seq<UserView> {
    users.map_values(|u: User| u@)
}

pub open spec fn tags_view(tags: Seq<Tag>) -> Seq<TagView> {
    tags.map_values(|t: Tag| t@)
}

/// The tags of `tags` that `user_id` owns, in their order.
pub open spec fn tags_of(tags: Seq<TagView>, user_id: int) -> Seq<TagView> {
    tags.filter(|t: TagView| t.user_id == user_id)
}

/// The listing of `users`, each with its own tags out of `tags`.
pub open spec fn listing(users: Seq<UserView>, tags: Seq<TagView>) -> Seq<(UserView, Seq<TagView>)> {
    users.map_values(|u: UserView| (u, tags_of(tags, u.id)))
}

pub open spec fn listing_view(entries: Seq<UserWithTags>) -> Seq<(UserView, Seq<TagView>)> {
    entries.map_values(|e: UserWithTags| (e.user@, tags_view(e.tags@)))
}

/// The tags of `tags` that `user_id` owns, oldest first.
pub fn collect_tags(tags: &Vec<Tag>, user_id: i32) -> (r: Vec<Tag>)
    ensures
        tags_view(r@) == tags_of(tags_view(tags@), user_id as int),
{
    let mut r: Vec<Tag> = Vec::new();
    let mut k: usize = 0;
    while k < tags.len()
        invariant
            k <= tags@.len(),
            tags_view(r@) == tags_of(tags_view(tags@.take(k as int)), user_id as int),
        decreases tags@.len() - k,
    {
        let t = &tags[k];
        proof {
            reveal(Seq::filter);
            assert(tags_view(tags@.take(k + 1)).drop_last() =~= tags_view(tags@.take(k as int)));
            assert(tags_view(tags@.take(k + 1)).last() == t@);
        }
        if t.user_id == user_id {
            r.push(t.clone_tag());
        }
        proof {
            reveal(Seq::filter);
            assert(tags_view(r@) =~= tags_of(tags_view(tags@.take(k + 1)), user_id as int));
        }
        k = k + 1;
    }
    proof {
        assert(tags@.take(tags@.len() as int) =~= tags@);
    }
    r
}

impl Tag {
    /// A copy with the same view.
    pub fn clone_tag(&self) -> (r: Tag)
        ensures
            r@ == self@,
    {
        Tag { id: self.id, user_id: self.user_id, name: self.name.clone(), created_at: self.created_at }
    }
}

impl User {
    /// A copy with the same view.
    pub fn clone_user(&self) -> (r: User)
        ensures
            r@ == self@,
    {
        User { id: self.id, email: self.email.clone(), created_at: self.created_at }
    }
}

/// Joins users with the tags they own: one entry per user, in the users' order,
/// each with its tags in their order; a user without tags keeps an empty list.
pub fn join_users_tags(users: &Vec<User>, tags: &Vec<Tag>) -> (r: Vec<UserWithTags>)
    ensures
        listing_view(r@) == listing(users_view(users@), tags_view(tags@)),
{
    let mut r: Vec<UserWithTags> = Vec::new();
    let mut i: usize = 0;
    while i < users.len()
        invariant
            i <= users@.len(),
            listing_view(r@) == listing(users_view(users@.take(i as int)), tags_view(tags@)),
        decreases users@.len() - i,
    {
        let u = &users[i];
        let own = collect_tags(tags, u.id);
        let ghost prev = r@;
        r.push(UserWithTags { user: u.clone_user(), tags: own });
        proof {
            assert(users_view(users@.take(i + 1)) =~= users_view(users@.take(i as int)).push(u@));
            assert(listing_view(r@) =~= listing_view(prev).push((u@, tags_view(own@))));
            assert(listing_view(r@) =~= listing(users_view(users@.take(i + 1)), tags_view(tags@)));
        }
        i = i + 1;
    }
    proof {
        assert(users@.take(users@.len() as int) =~= users@);
    }
    r
}


/// A user id that no tag names owns no tag.
pub proof fn lemma_no_owned_tags(tags: Seq<TagView>, user_id: int)
    requires
        forall|k: int| 0 <= k < tags.len() ==> #[trigger] tags[k].user_id != user_id,
    ensures
        tags_of(tags, user_id) == Seq::<TagView>::empty(),
    decreases tags.len(),
{
    reveal(Seq::filter);
    if tags.len() > 0 {
        lemma_no_owned_tags(tags.drop_last(), user_id);
        assert(tags.last().user_id != user_id);
    }
}

/// The listing has one entry per user, in the users' order, each holding its user;
/// a user who owns no tag is kept, with an empty tag list.
pub proof fn lemma_untagged_user_listed(users: Seq<UserView>, tags: Seq<TagView>, i: int)
    requires
        0 <= i < users.len(),
        forall|k: int| 0 <= k < tags.len() ==> #[trigger] tags[k].user_id != users[i].id,
    ensures
        listing(users, tags).len() == users.len(),
        listing(users, tags)[i] == (users[i], Seq::<TagView>::empty()),
{
    lemma_no_owned_tags(tags, users[i].id);
}

} // verus!
