//! Seed data for development.
use crate::model::post::PostForCreate;
use vstd::prelude::*;

verus! {

/// The posts to seed: one for each title that has a description at the
/// same place, in order; titles or descriptions beyond the shorter list
/// are left out.
pub fn seed_posts(titles: &[&str], descriptions: &[&str]) -> (rows: Vec<PostForCreate>)
    ensures
        rows.len() == if titles.len() <= descriptions.len() {
            titles.len()
        } else {
            descriptions.len()
        },
        forall|i: int|
            0 <= i < rows.len() ==> (#[trigger] rows[i]).is_bare(titles[i]@, descriptions[i]@),
{
    let n = if titles.len() <= descriptions.len() {
        titles.len()
    } else {
        descriptions.len()
    };
    let mut rows: Vec<PostForCreate> = Vec::new();
    let mut i: usize = 0;
    while i < n
        invariant
            i <= n,
            n <= titles.len(),
            n <= descriptions.len(),
            rows.len() == i,
            forall|k: int|
                0 <= k < i ==> (#[trigger] rows[k]).is_bare(titles[k]@, descriptions[k]@),
        decreases n - i,
    {
        rows.push(PostForCreate::bare(titles[i], descriptions[i]));
        i += 1;
    }
    rows
}

} // verus!
