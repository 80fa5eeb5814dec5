//! Posts as they are handed to the store.
use vstd::prelude::*;

verus! {

/// What a new post supplies. What is left out takes the store's default.
#[derive(Debug)]
pub struct PostForCreate {
    pub title: String,
    pub description: String,
    pub is_published: Option<bool>,
    pub cover_media_url: Option<String>,
    pub thumbnail_url: Option<String>,
    pub media_count: Option<i32>,
    pub has_video: Option<bool>,
}

impl PostForCreate {
    /// The row is a bare post with this title and description.
    pub open spec fn is_bare(&self, title: Seq<char>, description: Seq<char>) -> bool {
        &&& self.title@ == title
        &&& self.description@ == description
        &&& self.is_published is None
        &&& self.cover_media_url is None
        &&& self.thumbnail_url is None
        &&& self.media_count is None
        &&& self.has_video is None
    }

    /// A post of a title and a description, all else left to the store.
    pub fn bare(title: &str, description: &str) -> (row: PostForCreate)
        ensures
            row.is_bare(title@, description@),
    {
        PostForCreate {
            title: title.to_owned(),
            description: description.to_owned(),
            is_published: None,
            cover_media_url: None,
            thumbnail_url: None,
            media_count: None,
            has_video: None,
        }
    }
}

} // verus!
