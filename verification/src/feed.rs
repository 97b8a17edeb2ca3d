//! The data model of a parsed feed: one `Blog` record per `<url>` entry,
//! and a `Blogs` feed whose `last_update` is the maximum over its records.
//! Timestamps are counts of milliseconds since the Unix epoch; the epoch
//! itself (0) is the default for a record whose `<lastmod>` never came.

use vstd::prelude::*;

verus! {

/// One feed entry: title (may be empty), canonical link, and the last
/// modification instant in milliseconds since the Unix epoch.
#[derive(Debug)]
pub struct Blog {
    pub title: String,
    pub link: String,
    pub last_update: i64,
}

/// The mathematical value of a `Blog`.
pub struct BlogV {
    pub title: Seq<char>,
    pub link: Seq<char>,
    pub last_update: int,
}

impl View for Blog {
    type V = BlogV;

    open spec fn view(&self) -> BlogV {
        BlogV { title: self.title@, link: self.link@, last_update: self.last_update as int }
    }
}

impl Blog {
    /// A record before any field was assigned: empty strings, the epoch.
    pub fn default() -> (r: Blog)
        ensures
            r@ == empty_blog(),
    {
        Blog { title: String::new(), link: String::new(), last_update: 0 }
    }

    /// The title as displayed: a fixed placeholder when the title is
    /// empty, the title itself otherwise.
    pub fn display_title(&self) -> (r: &str)
        ensures
            self@.title.len() == 0 ==> r@ == "Empty title"@,
            self@.title.len() > 0 ==> r@ == self@.title,
    {
        if self.title.as_str().is_empty() {
            "Empty title"
        } else {
            self.title.as_str()
        }
    }
}

/// The value that a freshly opened record carries.
pub open spec fn empty_blog() -> BlogV {
    BlogV { title: Seq::empty(), link: Seq::empty(), last_update: 0 }
}

/// The parsed result of one fetch, in document order.
#[derive(Debug)]
pub struct Blogs {
    pub last_update: i64,
    pub blogs: Vec<Blog>,
}

/// The mathematical value of a `Blogs` feed.
pub struct BlogsV {
    pub last_update: int,
    pub blogs: Seq<BlogV>,
}

/// The views of a sequence of records, element by element.
pub open spec fn blogs_view(s: Seq<Blog>) -> Seq<BlogV> {
    s.map_values(|b: Blog| b@)
}

impl View for Blogs {
    type V = BlogsV;

    open spec fn view(&self) -> BlogsV {
        BlogsV { last_update: self.last_update as int, blogs: blogs_view(self.blogs@) }
    }
}

/// The maximum `last_update` over a sequence of records, or the epoch (0)
/// when the sequence is empty.
pub open spec fn spec_max_update(blogs: Seq<BlogV>) -> int
    decreases blogs.len(),
{
    if blogs.len() == 0 {
        0
    } else if blogs.len() == 1 {
        blogs[0].last_update
    } else {
        let rest = spec_max_update(blogs.drop_last());
        if blogs.last().last_update > rest {
            blogs.last().last_update
        } else {
            rest
        }
    }
}

/// A well-formed feed: `last_update` is exactly the maximum over the
/// records (the epoch for an empty feed), recomputed, never cached stale.
pub open spec fn feed_wf(f: BlogsV) -> bool {
    f.last_update == spec_max_update(f.blogs)
}

/// `spec_max_update` is the maximum: no record's `last_update` exceeds it.
pub proof fn lemma_max_update_ge(blogs: Seq<BlogV>, i: int)
    requires
        0 <= i < blogs.len(),
    ensures
        spec_max_update(blogs) >= blogs[i].last_update,
    decreases blogs.len(),
{
    if blogs.len() > 1 && i < blogs.len() - 1 {
        lemma_max_update_ge(blogs.drop_last(), i);
    }
}

/// `spec_max_update` is attained: some record of a non-empty sequence
/// carries exactly that `last_update`.
pub proof fn lemma_max_update_attained(blogs: Seq<BlogV>)
    requires
        blogs.len() > 0,
    ensures
        exists|i: int|
            0 <= i < blogs.len() && #[trigger] blogs[i].last_update == spec_max_update(blogs),
    decreases blogs.len(),
{
    if blogs.len() == 1 {
        assert(blogs[0].last_update == spec_max_update(blogs));
    } else if spec_max_update(blogs) == blogs.last().last_update {
        assert(blogs[blogs.len() - 1].last_update == spec_max_update(blogs));
    } else {
        lemma_max_update_attained(blogs.drop_last());
        let j = choose|j: int|
            0 <= j < blogs.drop_last().len() && #[trigger] blogs.drop_last()[j].last_update
                == spec_max_update(blogs.drop_last());
        assert(blogs[j].last_update == spec_max_update(blogs));
    }
}

} // verus!
