use vstd::prelude::*;

verus! {

use crate::errors::BlogError;
use crate::models::{BlogPost, PostDraft, PostRecord};

/// Validates a finished draft: both required fields must have been seen
/// during demultiplexing. Presence alone is checked — an empty decoded
/// string that was nonetheless submitted as a field passes. The username
/// is checked first.
pub fn finalize(draft: &PostDraft) -> (r: Result<PostRecord, BlogError>)
    ensures
        draft.username is None ==> (r matches Err(BlogError::Validation(m))
            && m@ == "Username is required"@),
        draft.username is Some && draft.content is None ==> (r matches Err(
            BlogError::Validation(m),
        ) && m@ == "Content is required"@),
        draft.is_complete() ==> (r matches Ok(rec) && Some(rec.username) == draft.username
            && Some(rec.content) == draft.content && rec.image_path == draft.image_path
            && rec.avatar_url == draft.avatar_url),
        r is Ok <==> draft.is_complete(),
{
    match &draft.username {
        Option::None => Err(
            BlogError::Validation("Username is required".to_owned()),
        ),
        Option::Some(u) => match &draft.content {
            Option::None => Err(BlogError::Validation("Content is required".to_owned())),
            Option::Some(c) => Ok(
                PostRecord {
                    username: u.clone(),
                    content: c.clone(),
                    image_path: crate::models::clone_opt_text(&draft.image_path),
                    avatar_url: crate::models::clone_opt_text(&draft.avatar_url),
                },
            ),
        },
    }
}

/// Newest first: every earlier element was created no earlier than every
/// later one.
pub open spec fn sorted_desc(s: Seq<BlogPost>) -> bool {
    forall|i: int, j: int| 0 <= i < j < s.len() ==> s[i].created_at >= s[j].created_at
}

/// Where a post created at `ts` lands in a feed held newest first: before
/// every strictly newer post, after none of them.
pub open spec fn is_insert_position(s: Seq<BlogPost>, ts: i64, k: int) -> bool {
    &&& 0 <= k <= s.len()
    &&& forall|j: int| 0 <= j < k ==> s[j].created_at > ts
    &&& k < s.len() ==> s[k].created_at <= ts
}

/// The position is determined: two insert positions for the same feed and
/// timestamp coincide.
pub proof fn lemma_insert_position_unique(s: Seq<BlogPost>, ts: i64, k1: int, k2: int)
    requires
        is_insert_position(s, ts, k1),
        is_insert_position(s, ts, k2),
    ensures
        k1 == k2,
{
    if k1 < k2 {
        assert(s[k1].created_at > ts);
    }
    if k2 < k1 {
        assert(s[k2].created_at > ts);
    }
}

/// The durable row a committed record becomes, with the identity and
/// creation time storage assigned.
pub open spec fn new_post_of(id: i32, rec: PostRecord, ts: i64) -> BlogPost {
    BlogPost {
        id,
        username: rec.username,
        content: rec.content,
        created_at: ts,
        image_path: rec.image_path,
        avatar_url: rec.avatar_url,
    }
}

/// The table of posts, held exactly as the feed serves it: newest first,
/// each row under a distinct identity that storage assigned at insert time.
/// Rows are never mutated or deleted.
pub struct PostStore {
    pub posts: Vec<BlogPost>,
    pub next_id: i32,
}

impl PostStore {
    /// What the feed holds, newest first.
    pub open spec fn feed(&self) -> Seq<BlogPost> {
        self.posts@
    }

    pub open spec fn spec_next_id(&self) -> i32 {
        self.next_id
    }

    pub open spec fn inv(&self) -> bool {
        &&& sorted_desc(self.posts@)
        &&& forall|i: int| 0 <= i < self.posts@.len() ==> self.posts@[i].id < self.next_id
        &&& forall|i: int, j: int|
            0 <= i < j < self.posts@.len() ==> self.posts@[i].id != self.posts@[j].id
    }

    pub fn new() -> (r: PostStore)
        ensures
            r.inv(),
            r.feed() == Seq::<BlogPost>::empty(),
            r.spec_next_id() == 1,
    {
        PostStore { posts: Vec::new(), next_id: 1 }
    }

    /// Commits one validated record: assigns the next identity and the
    /// caller's creation time, and places the row so the feed stays newest
    /// first — before every strictly newer row, never displacing one.
    pub fn insert(&mut self, rec: PostRecord, created_at: i64) -> (id: i32)
        requires
            old(self).inv(),
            old(self).spec_next_id() < i32::MAX,
        ensures
            final(self).inv(),
            id == old(self).spec_next_id(),
            final(self).spec_next_id() == old(self).spec_next_id() + 1,
            exists|k: int|
                is_insert_position(old(self).feed(), created_at, k) && final(self).feed()
                    == old(self).feed().insert(k, new_post_of(id, rec, created_at)),
    {
        let ghost orig = self.posts@;
        let mut idx: usize = 0;
        while idx < self.posts.len() && self.posts[idx].created_at > created_at
            invariant
                idx <= self.posts@.len(),
                self.posts@ == orig,
                forall|j: int| 0 <= j < idx ==> orig[j].created_at > created_at,
            decreases self.posts@.len() - idx,
        {
            idx += 1;
        }
        proof {
            assert(is_insert_position(orig, created_at, idx as int));
        }
        let id = self.next_id;
        let post = BlogPost {
            id,
            username: rec.username,
            content: rec.content,
            created_at,
            image_path: rec.image_path,
            avatar_url: rec.avatar_url,
        };
        let ghost p0 = post;
        self.posts.insert(idx, post);
        self.next_id = self.next_id + 1;
        proof {
            assert(p0 == new_post_of(id, rec, created_at));
            let s2 = self.posts@;
            assert forall|i: int, j: int| 0 <= i < j < s2.len() implies s2[i].created_at
                >= s2[j].created_at by {
                if j < idx {
                    assert(s2[i] == orig[i] && s2[j] == orig[j]);
                } else if i > idx {
                    assert(s2[i] == orig[i - 1] && s2[j] == orig[j - 1]);
                } else if i == idx {
                    assert(s2[j] == orig[j - 1]);
                    assert(orig[j - 1].created_at <= created_at);
                } else if j == idx {
                    assert(s2[i] == orig[i]);
                } else {
                    assert(s2[i] == orig[i]);
                    assert(s2[j] == orig[j - 1]);
                    assert(orig[j - 1].created_at <= orig[idx as int].created_at);
                }
            }
            let k = idx as int;
            assert(is_insert_position(old(self).feed(), created_at, k));
            assert(self.posts@ == old(self).feed().insert(k, new_post_of(id, rec, created_at)));
            assert(exists|k2: int|
                is_insert_position(old(self).feed(), created_at, k2) && self.posts@ == old(
                    self,
                ).feed().insert(k2, new_post_of(id, rec, created_at)));
        }
        id
    }

    /// The feed, read back in full: exactly the stored rows, newest first,
    /// no pagination.
    pub fn list_all(&self) -> (r: Vec<BlogPost>)
        ensures
            r@ == self.feed(),
    {
        let mut r: Vec<BlogPost> = Vec::new();
        let mut i: usize = 0;
        while i < self.posts.len()
            invariant
                i <= self.posts@.len(),
                r@ =~= self.posts@.subrange(0, i as int),
            decreases self.posts@.len() - i,
        {
            let p = (&self.posts[i]).clone();
            r.push(p);
            i += 1;
        }
        proof {
            assert(r@ =~= self.feed());
        }
        r
    }
}

/// A read is a pure function of the store: two feed reads with no
/// intervening write return identical sequences.
pub proof fn lemma_feed_read_idempotent(s: &PostStore, r1: Seq<BlogPost>, r2: Seq<BlogPost>)
    requires
        r1 == s.feed(),
        r2 == s.feed(),
    ensures
        r1 == r2,
{
}

/// Ordering law: a freshly inserted post whose creation time is at least
/// that of every post already in the feed is read back as the feed's first
/// element — a tie goes to the newcomer, which never displaces an older
/// post from its place among the rest.
pub proof fn lemma_latest_insert_first(
    pre: PostStore,
    post: PostStore,
    rec: PostRecord,
    ts: i64,
    id: i32,
    k: int,
)
    requires
        is_insert_position(pre.feed(), ts, k),
        post.feed() == pre.feed().insert(k, new_post_of(id, rec, ts)),
        forall|i: int| 0 <= i < pre.feed().len() ==> pre.feed()[i].created_at <= ts,
    ensures
        post.feed().len() == pre.feed().len() + 1,
        post.feed()[0] == new_post_of(id, rec, ts),
        forall|i: int| 0 <= i < pre.feed().len() ==> post.feed()[i + 1] == pre.feed()[i],
{
    if pre.feed().len() > 0 {
        assert(pre.feed()[0].created_at <= ts);
    }
    assert(k == 0);
}

} // verus!
