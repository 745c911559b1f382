//! The blog service: creating, reading, updating, deleting and listing
//! posts, where only the author of a post may change or delete it.
use vstd::prelude::*;
use vstd::string::*;
use crate::data::{CreatePostData, RepositoryError};
use crate::data::post_repository::{Field, FieldView, Order, fields_view};
use crate::domain::{Post, PostError, ValidationError};
use crate::dto::{CreatePostRequest, UpdatePostRequest, join_lines};
use crate::text::{dec, push_decimal};

verus! {

/// Creates, reads, updates, deletes and lists posts.
#[derive(Debug)]
pub struct BlogService {}

/// The message for a post that is not there.
pub open spec fn post_not_found_text(id: u32) -> Seq<char> {
    "post with id "@ + dec(id as nat) + " not found"@
}

/// The message for a user who may not change a post.
pub open spec fn access_denied_text(post_id: u32, user: u32) -> Seq<char> {
    "access denied to update post "@ + dec(post_id as nat) + " for user "@ + dec(user as nat)
}

/// The user wrote the post.
pub open spec fn is_author(post: Post, user: u32) -> bool {
    post.author_id as u32 == user
}

/// The answer to the lookup of post `id`: the post, `NotFound` when there
/// is none, an unexpected failure when the lookup failed.
pub open spec fn found_post(id: u32, found: Result<Post, RepositoryError>, r: Result<Post, PostError>) -> bool {
    match found {
        Ok(p) => r == Ok::<Post, PostError>(p),
        Err(RepositoryError::NotFound(_)) => r matches Err(PostError::NotFound(m)) && m@ == post_not_found_text(id),
        Err(RepositoryError::InternalError(e)) => r matches Err(PostError::UnexpectedFailure(m)) && m@ == e@,
    }
}

/// An update waiting for the post it changes.
#[derive(Debug)]
pub struct PendingUpdate {
    post_id: u32,
    data: UpdatePostRequest,
    user: u32,
}

impl PendingUpdate {
    pub closed spec fn post_id(&self) -> u32 {
        self.post_id
    }

    pub closed spec fn user(&self) -> u32 {
        self.user
    }

    /// The fields the update sets.
    pub closed spec fn fields(&self) -> Seq<FieldView> {
        (match self.data.content {
            Some(c) => seq![FieldView::Content(c@)],
            None => Seq::empty(),
        }) + (match self.data.title {
            Some(t) => seq![FieldView::Title(t@)],
            None => Seq::empty(),
        })
    }
}

/// What an update needs next.
#[derive(Debug)]
pub enum UpdateStep {
    /// Look up the post to update.
    FindPost { pending: PendingUpdate, post_id: u32 },
    /// Set these fields of the post.
    Update { post_id: u32, fields: Vec<Field> },
    /// The update is over.
    Finish(Result<Post, PostError>),
}

/// A deletion waiting for the post it removes.
#[derive(Debug)]
pub struct PendingDelete {
    post_id: u32,
    user: u32,
}

impl PendingDelete {
    pub closed spec fn post_id(&self) -> u32 {
        self.post_id
    }

    pub closed spec fn user(&self) -> u32 {
        self.user
    }
}

/// What a deletion needs next.
#[derive(Debug)]
pub enum DeleteStep {
    /// Look up the post to delete.
    FindPost { pending: PendingDelete, post_id: u32 },
    /// Remove the post.
    Delete { post_id: u32 },
    /// The deletion is over.
    Finish(Result<(), PostError>),
}

/// The parameters of the list query.
#[derive(Debug)]
pub struct ListQuery {
    pub offset: u32,
    pub limit: u8,
    pub order: Order,
}

fn unexpected<T>(r: Result<T, String>) -> (out: Result<T, PostError>)
    ensures
        match r {
            Ok(v) => out == Ok::<T, PostError>(v),
            Err(e) => out matches Err(PostError::UnexpectedFailure(m)) && m@ == e@,
        },
{
    match r {
        Ok(v) => Ok(v),
        Err(e) => Err(PostError::UnexpectedFailure(e)),
    }
}

fn access_denied(post_id: u32, user: u32) -> (m: String)
    ensures
        m@ == access_denied_text(post_id, user),
{
    let mut m = String::from_str("access denied to update post ");
    push_decimal(&mut m, post_id as u64);
    m.append(" for user ");
    push_decimal(&mut m, user as u64);
    m
}

impl BlogService {
    pub fn new() -> (r: Self) {
        BlogService {}
    }

    /// Starts the creation of a post by `user`: a post that fails its checks
    /// is refused with `data is not valid` and the details; otherwise it is
    /// to be stored with `user` as its author.
    pub fn add_post(&self, data: CreatePostRequest, user: u32) -> (r: Result<CreatePostData, PostError>)
        ensures
            data.check_lines().len() == 0 ==> (r matches Ok(d) && d.title@ == data.title@
                && d.content@ == data.content@ && d.author == user),
            data.check_lines().len() > 0 ==> (r matches Err(PostError::Validation(v))
                && v.error@ == "data is not valid"@ && v.details@ == join_lines(data.check_lines())),
    {
        match data.validate() {
            Err(details) => Err(PostError::Validation(ValidationError {
                error: String::from_str("data is not valid"),
                details,
            })),
            Ok(()) => Ok(CreatePostData::from_request(data, user)),
        }
    }

    /// Finishes the creation of a post once it is stored.
    pub fn add_post_result(&self, created: Result<Post, String>) -> (r: Result<Post, PostError>)
        ensures
            match created {
                Ok(p) => r == Ok::<Post, PostError>(p),
                Err(e) => r matches Err(PostError::UnexpectedFailure(m)) && m@ == e@,
            },
    {
        unexpected(created)
    }

    /// The answer to the lookup of post `id`.
    pub fn find_post(&self, id: u32, found: Result<Post, RepositoryError>) -> (r: Result<Post, PostError>)
        ensures
            found_post(id, found, r),
    {
        match found {
            Ok(p) => Ok(p),
            Err(RepositoryError::NotFound(_)) => {
                let mut m = String::from_str("post with id ");
                push_decimal(&mut m, id as u64);
                m.append(" not found");
                Err(PostError::NotFound(m))
            },
            Err(RepositoryError::InternalError(e)) => Err(PostError::UnexpectedFailure(e)),
        }
    }

    /// Starts the update of post `post_id` by `user`: texts that fail their
    /// checks are refused with `post is not valid` and the details;
    /// otherwise the post is looked up.
    pub fn update_post(&self, post_id: u32, data: UpdatePostRequest, user: u32) -> (r: UpdateStep)
        ensures
            data.check_lines().len() == 0 ==> (r matches UpdateStep::FindPost { pending, post_id: id }
                && id == post_id && pending.post_id() == post_id && pending.user() == user
                && pending.fields() == (match data.content {
                    Some(c) => seq![FieldView::Content(c@)],
                    None => Seq::empty(),
                }) + (match data.title {
                    Some(t) => seq![FieldView::Title(t@)],
                    None => Seq::empty(),
                })),
            data.check_lines().len() > 0 ==> (r matches UpdateStep::Finish(Err(PostError::Validation(v)))
                && v.error@ == "post is not valid"@ && v.details@ == join_lines(data.check_lines())),
    {
        match data.validate() {
            Err(details) => UpdateStep::Finish(Err(PostError::Validation(ValidationError {
                error: String::from_str("post is not valid"),
                details,
            }))),
            Ok(()) => UpdateStep::FindPost { pending: PendingUpdate { post_id, data, user }, post_id },
        }
    }

    /// Goes on with an update once the post is looked up: a missing post or
    /// a failed lookup ends it as `find_post` answers; a post by another
    /// author is forbidden; the author's post is to be updated with the
    /// fields given.
    pub fn update_post_on_found(&self, pending: PendingUpdate, found: Result<Post, RepositoryError>) -> (r: UpdateStep)
        ensures
            found is Err ==> (r matches UpdateStep::Finish(res) && found_post(pending.post_id(), found, res)),
            found matches Ok(p) && !is_author(p, pending.user()) ==> (
                r matches UpdateStep::Finish(Err(PostError::Forbidden(m)))
                && m@ == access_denied_text(pending.post_id(), pending.user())),
            found matches Ok(p) && is_author(p, pending.user()) ==> (
                r matches UpdateStep::Update { post_id, fields }
                && post_id == pending.post_id() && fields_view(fields@) == pending.fields()),
            r matches UpdateStep::Update { post_id, fields } ==> (found matches Ok(p) && is_author(p, pending.user())),
            !(r is FindPost),
    {
        let post = match self.find_post(pending.post_id, found) {
            Ok(p) => p,
            Err(e) => {
                return UpdateStep::Finish(Err(e));
            },
        };
        if post.author_id as u32 != pending.user {
            return UpdateStep::Finish(Err(PostError::Forbidden(access_denied(pending.post_id, pending.user))));
        }
        let post_id = pending.post_id;
        let fields = Field::list_from_update(pending.data);
        UpdateStep::Update { post_id, fields }
    }

    /// Finishes an update once the store has run it.
    pub fn update_post_result(&self, updated: Result<Post, String>) -> (r: Result<Post, PostError>)
        ensures
            match updated {
                Ok(p) => r == Ok::<Post, PostError>(p),
                Err(e) => r matches Err(PostError::UnexpectedFailure(m)) && m@ == e@,
            },
    {
        unexpected(updated)
    }

    /// Starts the deletion of post `post_id` by `user`: the post is looked up.
    pub fn delete_post(&self, post_id: u32, user: u32) -> (r: DeleteStep)
        ensures
            r matches DeleteStep::FindPost { pending, post_id: id } && id == post_id
                && pending.post_id() == post_id && pending.user() == user,
    {
        DeleteStep::FindPost { pending: PendingDelete { post_id, user }, post_id }
    }

    /// Goes on with a deletion once the post is looked up: a missing post or
    /// a failed lookup ends it as `find_post` answers; a post by another
    /// author is forbidden; the author's post is to be removed.
    pub fn delete_post_on_found(&self, pending: PendingDelete, found: Result<Post, RepositoryError>) -> (r: DeleteStep)
        ensures
            found matches Err(RepositoryError::NotFound(_)) ==> (
                r matches DeleteStep::Finish(Err(PostError::NotFound(m))) && m@ == post_not_found_text(pending.post_id())),
            found matches Err(RepositoryError::InternalError(e)) ==> (
                r matches DeleteStep::Finish(Err(PostError::UnexpectedFailure(m))) && m@ == e@),
            found matches Ok(p) && !is_author(p, pending.user()) ==> (
                r matches DeleteStep::Finish(Err(PostError::Forbidden(m)))
                && m@ == access_denied_text(pending.post_id(), pending.user())),
            found matches Ok(p) && is_author(p, pending.user()) ==> (
                r matches DeleteStep::Delete { post_id } && post_id == pending.post_id()),
            r is Delete ==> (found matches Ok(p) && is_author(p, pending.user())),
            !(r is FindPost),
    {
        let post = match self.find_post(pending.post_id, found) {
            Ok(p) => p,
            Err(e) => {
                return DeleteStep::Finish(Err(e));
            },
        };
        if post.author_id as u32 != pending.user {
            return DeleteStep::Finish(Err(PostError::Forbidden(access_denied(pending.post_id, pending.user))));
        }
        DeleteStep::Delete { post_id: pending.post_id }
    }

    /// Finishes a deletion once the store has run it.
    pub fn delete_post_result(&self, deleted: Result<(), String>) -> (r: Result<(), PostError>)
        ensures
            match deleted {
                Ok(()) => r is Ok,
                Err(e) => r matches Err(PostError::UnexpectedFailure(m)) && m@ == e@,
            },
    {
        unexpected(deleted)
    }

    /// The list query for a page of posts, in ascending order.
    pub fn post_list(&self, offset: u32, limit: u8) -> (r: ListQuery)
        ensures
            r.offset == offset && r.limit == limit && r.order is Asc,
    {
        ListQuery { offset, limit, order: Order::Asc }
    }

    /// Finishes the listing once the store has run it.
    pub fn post_list_result(&self, listed: Result<Vec<Post>, String>) -> (r: Result<Vec<Post>, PostError>)
        ensures
            match listed {
                Ok(v) => r == Ok::<Vec<Post>, PostError>(v),
                Err(e) => r matches Err(PostError::UnexpectedFailure(m)) && m@ == e@,
            },
    {
        unexpected(listed)
    }

    /// The total number of posts, once the store has counted them.
    pub fn post_total_count(&self, counted: Result<u32, String>) -> (r: Result<u32, PostError>)
        ensures
            match counted {
                Ok(n) => r == Ok::<u32, PostError>(n),
                Err(e) => r matches Err(PostError::UnexpectedFailure(m)) && m@ == e@,
            },
    {
        unexpected(counted)
    }
}

} // verus!
