use vstd::prelude::*;

verus! {

/// A durable blog post, as the storage layer returns it. Once created it is
/// never mutated or deleted by this system; identity and creation time are
/// assigned by storage at insert time.
pub struct BlogPost {
    pub id: i32,
    pub username: String,
    pub content: String,
    /// Seconds since the Unix epoch, UTC.
    pub created_at: i64,
    pub image_path: Option<String>,
    pub avatar_url: Option<String>,
}

/// The display form of a post: absent optional fields are rendered as empty
/// strings, so the template layer never observes absence, only emptiness.
pub struct BlogPostView {
    pub id: i32,
    pub username: String,
    pub content: String,
    pub created_at: i64,
    pub image_path: String,
    pub avatar_url: String,
}

/// The request-scoped accumulator the demultiplexer fills: the same shape as
/// a post minus identity and timestamp, every field optional until
/// validation.
pub struct PostDraft {
    pub username: Option<String>,
    pub content: Option<String>,
    pub image_path: Option<String>,
    pub avatar_url: Option<String>,
}

/// The payload of the single insert that commits a submission: the validated
/// required fields and the optional asset references.
pub struct PostRecord {
    pub username: String,
    pub content: String,
    pub image_path: Option<String>,
    pub avatar_url: Option<String>,
}

impl PostDraft {
    pub open spec fn is_empty_draft(&self) -> bool {
        &&& self.username is None
        &&& self.content is None
        &&& self.image_path is None
        &&& self.avatar_url is None
    }

    /// Both required fields have been seen.
    pub open spec fn is_complete(&self) -> bool {
        self.username is Some && self.content is Some
    }

    pub fn new() -> (r: PostDraft)
        ensures
            r.is_empty_draft(),
    {
        PostDraft { username: None, content: None, image_path: None, avatar_url: None }
    }
}

/// The view of an optional asset reference on the display form: the
/// reference itself when present, the empty string when absent.
pub open spec fn opt_text_view(o: Option<String>) -> Seq<char> {
    match o {
        Option::Some(s) => s@,
        Option::None => Seq::empty(),
    }
}

/// A by-hand clone of an optional text field, exact at the spec level.
pub fn clone_opt_text(o: &Option<String>) -> (r: Option<String>)
    ensures
        r == *o,
{
    match o {
        Option::Some(s) => Some(s.clone()),
        Option::None => None,
    }
}

impl Clone for BlogPost {
    /// An exact copy: rows are read out of the store by value.
    fn clone(&self) -> (r: Self)
        ensures
            r == *self,
    {
        BlogPost {
            id: self.id,
            username: self.username.clone(),
            content: self.content.clone(),
            created_at: self.created_at,
            image_path: clone_opt_text(&self.image_path),
            avatar_url: clone_opt_text(&self.avatar_url),
        }
    }
}

fn opt_text_or_empty(o: Option<String>) -> (r: String)
    ensures
        r@ == opt_text_view(o),
{
    match o {
        Option::Some(s) => s,
        Option::None => String::new(),
    }
}

impl From<BlogPost> for BlogPostView {
    /// The display mapping: identity on every field that is present, the
    /// empty string for an absent asset reference.
    fn from(post: BlogPost) -> (r: BlogPostView)
        ensures
            r.id == post.id,
            r.username == post.username,
            r.content == post.content,
            r.created_at == post.created_at,
            r.image_path@ == opt_text_view(post.image_path),
            r.avatar_url@ == opt_text_view(post.avatar_url),
    {
        BlogPostView {
            id: post.id,
            username: post.username,
            content: post.content,
            created_at: post.created_at,
            image_path: opt_text_or_empty(post.image_path),
            avatar_url: opt_text_or_empty(post.avatar_url),
        }
    }
}

impl vstd::std_specs::convert::FromSpecImpl<BlogPost> for BlogPostView {
    open spec fn obeys_from_spec() -> bool {
        false
    }

    open spec fn from_spec(v: BlogPost) -> Self {
        arbitrary()
    }
}

} // verus!
