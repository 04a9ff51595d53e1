use vstd::prelude::*;

verus! {

use crate::models::{opt_text_view, BlogPost, BlogPostView};

/// The calendar rendering of a Unix timestamp as `year-month-day
/// hour:minute`, zero-padded, in UTC. It depends on the timestamp alone.
pub uninterp spec fn date_display_of(secs: int) -> Seq<char>;

/// Relies on `chrono::DateTime::<Utc>::from_timestamp` and formatting with
/// `%Y-%m-%d %H:%M`: for any timestamp between the epoch and the end of
/// year 9999 the conversion succeeds (its source rejects only day numbers
/// outside the supported calendar, far beyond this range), and the
/// rendered text is a function of the timestamp alone — UTC, fixed format,
/// no locale.
#[verifier::external_body]
fn format_timestamp(secs: i64) -> (r: String)
    requires
        0 <= secs < 253402300800,
    ensures
        r@ == date_display_of(secs as int),
{
    match chrono::DateTime::<chrono::Utc>::from_timestamp(secs, 0) {
        Some(dt) => dt.format("%Y-%m-%d %H:%M").to_string(),
        None => String::new(),
    }
}

/// The feed's timestamp filter: what the page shows for a post's creation
/// time. The bound keeps the timestamp within the calendar the renderer
/// supports (up to the end of year 9999).
pub fn date(secs: i64) -> (r: String)
    requires
        0 <= secs < 253402300800,
    ensures
        r@ == date_display_of(secs as int),
{
    format_timestamp(secs)
}

/// The display form matches its row: identity on what is present, the
/// empty string for an absent asset reference.
pub open spec fn view_matches_post(v: BlogPostView, p: BlogPost) -> bool {
    &&& v.id == p.id
    &&& v.username == p.username
    &&& v.content == p.content
    &&& v.created_at == p.created_at
    &&& v.image_path@ == opt_text_view(p.image_path)
    &&& v.avatar_url@ == opt_text_view(p.avatar_url)
}

/// Maps the feed to its display forms, in order, one view per row.
pub fn posts_to_views(posts: &Vec<BlogPost>) -> (r: Vec<BlogPostView>)
    ensures
        r@.len() == posts@.len(),
        forall|i: int| 0 <= i < posts@.len() ==> view_matches_post(r@[i], posts@[i]),
{
    let mut r: Vec<BlogPostView> = Vec::new();
    let mut i: usize = 0;
    while i < posts.len()
        invariant
            i <= posts@.len(),
            r@.len() == i,
            forall|j: int| 0 <= j < i ==> view_matches_post(r@[j], posts@[j]),
        decreases posts@.len() - i,
    {
        let p = (&posts[i]).clone();
        r.push(BlogPostView::from(p));
        i += 1;
    }
    r
}

} // verus!
