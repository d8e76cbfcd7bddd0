//! The content records of the demonstration schema: what a loader keyed by
//! [`ContentId`] loads.

use vstd::prelude::*;

verus! {

/// The identifier of a piece of content.
#[derive(Clone, Copy, Debug, PartialEq, Eq, Structural, PartialOrd, Ord, Hash)]
pub struct ContentId(pub i32);

/// What is needed to create a piece of content.
#[derive(Clone, Debug, PartialEq, Eq)]
pub struct CreateContent {
    pub title: String,
}

/// A piece of content as it is stored.
#[derive(Clone, Debug, PartialEq, Eq)]
pub struct Content {
    pub id: ContentId,
    pub title: String,
}

} // verus!
