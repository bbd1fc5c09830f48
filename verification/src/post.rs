//! A typestate-driven post workflow. A `Post<S>` can only move along the
//! legal moderation path — new, unmoderated, published, deleted — because
//! each transition consumes the old state and returns the next one, and no
//! transition changes the post's data.

use crate::postdata;
use crate::userdata;
use vstd::prelude::*;

verus! {

/// The payload carried through every state of the workflow.
#[derive(Debug, PartialEq, Eq)]
pub struct PostData {
    id: postdata::Id,
    user_id: userdata::Id,
    title: postdata::Title,
    body: postdata::Body,
}

impl PostData {
    pub closed spec fn spec_id(self) -> postdata::Id {
        self.id
    }

    pub closed spec fn spec_user_id(self) -> userdata::Id {
        self.user_id
    }

    pub closed spec fn spec_title(self) -> postdata::Title {
        self.title
    }

    pub closed spec fn spec_body(self) -> postdata::Body {
        self.body
    }

    pub fn new(
        id: postdata::Id,
        user_id: userdata::Id,
        title: postdata::Title,
        body: postdata::Body,
    ) -> (r: Self)
        ensures
            r.spec_id() == id,
            r.spec_user_id() == user_id,
            r.spec_title() == title,
            r.spec_body() == body,
    {
        Self { id, user_id, title, body }
    }
}

impl Clone for PostData {
    fn clone(&self) -> (r: Self)
        ensures
            r == *self,
    {
        PostData {
            id: postdata::Id(self.id.0),
            user_id: userdata::Id(self.user_id.0),
            title: postdata::Title(self.title.0.clone()),
            body: postdata::Body(self.body.0.clone()),
        }
    }
}

impl Default for PostData {
    /// A fresh post: identifiers zero, a stock title and body.
    fn default() -> (r: Self)
        ensures
            r.spec_id() == postdata::Id(0),
            r.spec_user_id() == userdata::Id(0),
            r.spec_title().0@ == "New"@,
            r.spec_body().0@ == "Some body once told me"@,
    {
        Self::new(
            postdata::Id(0),
            userdata::Id(0),
            postdata::Title("New".to_owned()),
            postdata::Body("Some body once told me".to_owned()),
        )
    }
}

/// Tag for a freshly created post.
pub struct New;

/// Tag for a post submitted for moderation.
pub struct Unmoderated;

/// Tag for a post visible to readers.
pub struct Published;

/// Tag for a post taken down.
pub struct Deleted;

/// The set of legal workflow tags.
pub trait PostState {

}

impl PostState for New {

}

impl PostState for Unmoderated {

}

impl PostState for Published {

}

impl PostState for Deleted {

}

/// A post at a particular stage `S` of the moderation workflow.
pub struct Post<S: PostState> {
    data: PostData,
    _state: core::marker::PhantomData<S>,
}

impl<S: PostState> Clone for Post<S> {
    fn clone(&self) -> (r: Self)
        ensures
            r.spec_data() == self.spec_data(),
    {
        Post { data: self.data.clone(), _state: self._state }
    }
}

impl<S> Post<S> where S: PostState {
    /// The post's payload.
    pub closed spec fn spec_data(self) -> PostData {
        self.data
    }

    /// Starts the workflow with the default payload: zero identifiers and
    /// the stock title and body.
    pub fn new() -> (r: Post<New>)
        ensures
            r.spec_data().spec_id() == postdata::Id(0),
            r.spec_data().spec_user_id() == userdata::Id(0),
            r.spec_data().spec_title().0@ == "New"@,
            r.spec_data().spec_body().0@ == "Some body once told me"@,
    {
        Post { data: PostData::default(), _state: core::marker::PhantomData }
    }
}

impl Post<New> {
    /// Submits the post for moderation; the payload is untouched.
    pub fn publish(self) -> (r: Post<Unmoderated>)
        ensures
            r.spec_data() == self.spec_data(),
    {
        Post { data: self.data, _state: core::marker::PhantomData }
    }
}

impl Post<Unmoderated> {
    /// Moderation passed: the post becomes visible. The payload is
    /// untouched.
    pub fn allow(self) -> (r: Post<Published>)
        ensures
            r.spec_data() == self.spec_data(),
    {
        Post { data: self.data, _state: core::marker::PhantomData }
    }

    /// Moderation failed: the post is taken down. The payload is untouched.
    pub fn deny(self) -> (r: Post<Deleted>)
        ensures
            r.spec_data() == self.spec_data(),
    {
        Post { data: self.data, _state: core::marker::PhantomData }
    }
}

impl Post<Published> {
    /// Takes a published post down. The payload is untouched.
    pub fn delete(self) -> (r: Post<Deleted>)
        ensures
            r.spec_data() == self.spec_data(),
    {
        Post { data: self.data, _state: core::marker::PhantomData }
    }
}

} // verus!
