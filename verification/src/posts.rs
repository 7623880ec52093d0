//! Posts: thread openers and replies, their creation requests, stored rows,
//! public responses, the rows inserted for them, the bump of a thread when it
//! gets a reply, and the page of a thread listed to clients.

use crate::error::{AppError, Missing};
use crate::validation::{check_field, field_violations, FieldViolation, RequestField};
use crate::ids::{fresh_id, is_random_uuid};
use crate::time::Timestamp;
use vstd::prelude::*;

verus! {

/// Fewest bytes in a post's content.
pub const CONTENT_MIN_BYTES: usize = 1;
/// Most bytes in a post's content.
pub const CONTENT_MAX_BYTES: usize = 2_000;

/// The body of a request to create a thread or a reply.
pub struct CreatePostRequest {
    pub content: String,
}

impl CreatePostRequest {
    /// Every rule that the request breaks: the content must have 1 to 2000
    /// bytes.
    pub open spec fn violations(&self) -> Seq<FieldViolation> {
        field_violations(RequestField::Content, self.content@, CONTENT_MIN_BYTES, CONTENT_MAX_BYTES)
    }

    /// Checks the request: `Ok` when it breaks no rule, else every violation.
    pub fn validate(&self) -> (r: Result<(), Vec<FieldViolation>>)
        ensures
            r is Ok <==> self.violations().len() == 0,
            r matches Err(v) ==> v@ == self.violations(),
    {
        let found = check_field(RequestField::Content, &self.content, CONTENT_MIN_BYTES, CONTENT_MAX_BYTES);
        if found.len() == 0 {
            Ok(())
        } else {
            Err(found)
        }
    }
}

/// A stored post. A thread opener has no parent and is its own root; a reply
/// names its parent and the root of its thread.
pub struct PostRecord {
    pub id: u128,
    pub board_id: u128,
    pub root_post_id: u128,
    pub parent_post_id: Option<u128>,
    pub author_tripcode: String,
    pub content: String,
    pub reply_count: i32,
    pub created_at: Timestamp,
    pub last_bumped_at: Option<Timestamp>,
}

/// A post as clients see it.
pub struct PostResponse {
    pub id: u128,
    pub board_id: u128,
    pub root_post_id: u128,
    pub parent_post_id: Option<u128>,
    pub author_tripcode: String,
    pub content: String,
    pub reply_count: i32,
    pub created_at: Timestamp,
    pub last_bumped_at: Option<Timestamp>,
}

/// The response for a stored post: all of its fields.
pub open spec fn post_response_of(p: PostRecord) -> PostResponse {
    PostResponse {
        id: p.id,
        board_id: p.board_id,
        root_post_id: p.root_post_id,
        parent_post_id: p.parent_post_id,
        author_tripcode: p.author_tripcode,
        content: p.content,
        reply_count: p.reply_count,
        created_at: p.created_at,
        last_bumped_at: p.last_bumped_at,
    }
}

/// Whether a response carries every field of the stored post unchanged.
pub open spec fn response_keeps_post(r: PostResponse, p: PostRecord) -> bool {
    &&& r.id == p.id
    &&& r.board_id == p.board_id
    &&& r.root_post_id == p.root_post_id
    &&& r.parent_post_id == p.parent_post_id
    &&& r.author_tripcode == p.author_tripcode
    &&& r.content == p.content
    &&& r.reply_count == p.reply_count
    &&& r.created_at == p.created_at
    &&& r.last_bumped_at == p.last_bumped_at
}

/// The response for a stored post carries each of its fields unchanged: id,
/// board, thread root, parent, tripcode, content, reply count, creation time
/// and bump time.
pub proof fn lemma_post_response_keeps_fields(p: PostRecord)
    ensures
        response_keeps_post(post_response_of(p), p),
{
}

impl From<PostRecord> for PostResponse {
    fn from(p: PostRecord) -> (r: PostResponse)
        ensures
            r.id == p.id,
            r.board_id == p.board_id,
            r.root_post_id == p.root_post_id,
            r.parent_post_id == p.parent_post_id,
            r.author_tripcode == p.author_tripcode,
            r.content == p.content,
            r.reply_count == p.reply_count,
            r.created_at == p.created_at,
            r.last_bumped_at == p.last_bumped_at,
    {
        PostResponse {
            id: p.id,
            board_id: p.board_id,
            root_post_id: p.root_post_id,
            parent_post_id: p.parent_post_id,
            author_tripcode: p.author_tripcode,
            content: p.content,
            reply_count: p.reply_count,
            created_at: p.created_at,
            last_bumped_at: p.last_bumped_at,
        }
    }
}

impl vstd::std_specs::convert::FromSpecImpl<PostRecord> for PostResponse {
    open spec fn obeys_from_spec() -> bool {
        true
    }

    open spec fn from_spec(p: PostRecord) -> PostResponse {
        post_response_of(p)
    }
}

/// The responses for a list of posts, in the same order.
pub fn post_responses(records: Vec<PostRecord>) -> (r: Vec<PostResponse>)
    ensures
        r@.len() == records@.len(),
        forall|i: int| 0 <= i < r@.len() ==> #[trigger] r@[i] == post_response_of(records@[i]),
        forall|i: int| 0 <= i < r@.len() ==> response_keeps_post(#[trigger] r@[i], records@[i]),
{
    let ghost src = records@;
    let mut r: Vec<PostResponse> = Vec::new();
    for record in it: records.into_iter()
        invariant
            it.seq() == src,
            r@.len() == it.index(),
            forall|j: int| 0 <= j < it.index() ==> #[trigger] r@[j] == post_response_of(src[j]),
            forall|j: int| 0 <= j < it.index() ==> response_keeps_post(#[trigger] r@[j], src[j]),
    {
        r.push(PostResponse::from(record));
    }
    r
}

/// The row inserted for a new post. The database fills in the creation time
/// and a reply count of zero.
pub struct NewPost {
    pub id: u128,
    pub board_id: u128,
    pub root_post_id: u128,
    pub parent_post_id: Option<u128>,
    pub author_tripcode: String,
    pub content: String,
    pub last_bumped_at: Option<Timestamp>,
}

/// The stored post that inserting `row` at `created_at` yields.
pub open spec fn stored_post(row: NewPost, created_at: Timestamp) -> PostRecord {
    PostRecord {
        id: row.id,
        board_id: row.board_id,
        root_post_id: row.root_post_id,
        parent_post_id: row.parent_post_id,
        author_tripcode: row.author_tripcode,
        content: row.content,
        reply_count: 0,
        created_at,
        last_bumped_at: row.last_bumped_at,
    }
}

impl NewPost {
    /// The row of a new thread on `board_id`, opened at `now`: a fresh random
    /// id that is also its root, no parent, bumped at `now`.
    pub fn thread(board_id: u128, author_tripcode: String, content: String, now: Timestamp) -> (row: NewPost)
        ensures
            is_random_uuid(row.id),
            row.board_id == board_id,
            row.root_post_id == row.id,
            row.parent_post_id is None,
            row.author_tripcode == author_tripcode,
            row.content == content,
            row.last_bumped_at == Some(now),
    {
        let id = fresh_id();
        NewPost {
            id,
            board_id,
            root_post_id: id,
            parent_post_id: None,
            author_tripcode,
            content,
            last_bumped_at: Some(now),
        }
    }

    /// The row of a reply to `parent`: a fresh random id, the parent's board
    /// and thread root, the parent as parent, and no bump time of its own.
    pub fn reply(parent: &PostRecord, author_tripcode: String, content: String) -> (row: NewPost)
        ensures
            is_random_uuid(row.id),
            row.board_id == parent.board_id,
            row.root_post_id == parent.root_post_id,
            row.parent_post_id == Some(parent.id),
            row.author_tripcode == author_tripcode,
            row.content == content,
            row.last_bumped_at is None,
    {
        NewPost {
            id: fresh_id(),
            board_id: parent.board_id,
            root_post_id: parent.root_post_id,
            parent_post_id: Some(parent.id),
            author_tripcode,
            content,
            last_bumped_at: None,
        }
    }
}

/// The update that a reply makes to the root post of its thread: one more
/// reply, and bumped at `bumped_at`.
#[derive(Clone, Copy, Debug)]
pub struct ThreadBump {
    pub root_post_id: u128,
    pub bumped_at: Timestamp,
}

impl ThreadBump {
    /// The bump for a reply to `parent` at `now`: it targets the root of the
    /// parent's thread.
    pub fn for_reply_to(parent: &PostRecord, now: Timestamp) -> (b: ThreadBump)
        ensures
            b.root_post_id == parent.root_post_id,
            b.bumped_at == now,
    {
        ThreadBump { root_post_id: parent.root_post_id, bumped_at: now }
    }

    /// A stored post after the bump: the targeted post gains a reply and its
    /// bump time; every other post is unchanged.
    pub open spec fn applied_to(self, p: PostRecord) -> PostRecord {
        if p.id == self.root_post_id {
            PostRecord { reply_count: (p.reply_count + 1) as i32, last_bumped_at: Some(self.bumped_at), ..p }
        } else {
            p
        }
    }
}

/// The outcome of a bump that touched `rows_affected` rows: "thread root post
/// not found" when it touched none.
pub fn bump_outcome(rows_affected: u64) -> (r: Result<(), AppError>)
    ensures
        rows_affected == 0 ==> r == Err::<(), AppError>(AppError::NotFound(Missing::ThreadRoot)),
        rows_affected > 0 ==> r is Ok,
{
    if rows_affected == 0 {
        Err(AppError::NotFound(Missing::ThreadRoot))
    } else {
        Ok(())
    }
}

/// Posts listed per page of a thread when the client names no limit.
pub fn default_limit() -> (n: u64)
    ensures
        n == 50,
{
    50
}

/// Most posts listed per page of a thread.
pub const MAX_REPLY_PAGE: u64 = 50;

/// Posts listed for a requested page size: the default when none is named,
/// and never more than `MAX_REPLY_PAGE`.
pub open spec fn reply_page_limit(requested: Option<u64>) -> u64 {
    let n = match requested {
        Some(n) => n,
        None => 50,
    };
    if n < MAX_REPLY_PAGE {
        n
    } else {
        MAX_REPLY_PAGE
    }
}

/// A page of a thread: its posts, oldest first, created after `after` when
/// that is given, at most `limit`.
pub struct ReplyPageQuery {
    pub root_post_id: u128,
    pub after: Option<Timestamp>,
    pub limit: u64,
}

impl ReplyPageQuery {
    /// The query for a page of the thread of the post that a client named:
    /// "post not found" when that post does not exist, else the page of its
    /// thread.
    pub fn for_anchor(anchor: Option<PostRecord>, after: Option<Timestamp>, limit: Option<u64>) -> (r: Result<ReplyPageQuery, AppError>)
        ensures
            anchor is None ==> r == Err::<ReplyPageQuery, AppError>(AppError::NotFound(Missing::Post)),
            anchor matches Some(a) ==> (r matches Ok(q) && q.root_post_id == a.root_post_id
                && q.after == after && q.limit == reply_page_limit(limit) && q.limit <= MAX_REPLY_PAGE),
    {
        match anchor {
            None => Err(AppError::NotFound(Missing::Post)),
            Some(a) => {
                let requested = match limit {
                    Some(n) => n,
                    None => default_limit(),
                };
                let limit = if requested < MAX_REPLY_PAGE {
                    requested
                } else {
                    MAX_REPLY_PAGE
                };
                Ok(ReplyPageQuery { root_post_id: a.root_post_id, after, limit })
            },
        }
    }
}

} // verus!
