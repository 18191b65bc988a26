use vstd::prelude::*;

verus! {

/// A stored confession: the text a visitor left, under the id that storage
/// assigned to it.
#[derive(Debug)]
pub struct Confession {
    pub id: i32,
    pub content: String,
}

/// A confession that is about to be stored: its text, and no id yet.
#[derive(Debug)]
pub struct NewConfession<'a> {
    pub content: &'a str,
}

/// The body of a request that leaves a confession.
#[derive(Debug)]
pub struct ConfessionJson {
    pub content: String,
}

/// The body of the answer to a confession that was stored.
#[derive(Debug)]
pub struct NewConfessionResponse {
    pub confession: Confession,
}

/// What the home page shows: the text of one confession, or none where the
/// board is still empty, and how many confessions there are.
#[derive(Debug)]
pub struct HomepageTemplate {
    pub confession: Option<String>,
    pub total_confessions: i64,
}

impl ConfessionJson {
    /// The confession that this request asks to store: it holds the text of
    /// the request, untouched.
    pub fn new_confession(&self) -> (new: NewConfession<'_>)
        ensures
            new.content@ == self.content@,
    {
        NewConfession { content: self.content.as_str() }
    }
}

} // verus!
