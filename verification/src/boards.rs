//! Boards: their creation requests, stored rows and public responses, and the
//! page of threads listed on a board.

use crate::error::{AppError, Missing};
use crate::validation::{field_violations, check_field, FieldViolation, RequestField};
use crate::ids::{fresh_id, is_random_uuid};
use crate::salt::generate_salt;
use crate::schema::{
    lemma_chars_at_most_utf8_bytes, BOARD_NAME_COLUMN_CHARS, DESCRIPTION_COLUMN_CHARS, SALT_COLUMN_BYTES,
    SLUG_COLUMN_CHARS,
};
use crate::time::Timestamp;
use vstd::prelude::*;

verus! {

/// Fewest bytes in a board slug.
pub const SLUG_MIN_BYTES: usize = 1;
/// Most bytes in a board slug.
pub const SLUG_MAX_BYTES: usize = 16;
/// Fewest bytes in a board name.
pub const NAME_MIN_BYTES: usize = 2;
/// Most bytes in a board name.
pub const NAME_MAX_BYTES: usize = 64;
/// Most bytes in a board description.
pub const DESCRIPTION_MAX_BYTES: usize = 2_000;

/// The body of a request to create a board.
pub struct CreateBoardRequest {
    pub slug: String,
    pub name: String,
    pub description: Option<String>,
}

impl CreateBoardRequest {
    /// Every rule that the request breaks, in field order: the slug must have
    /// 1 to 16 bytes, the name 2 to 64 bytes, and a description, when given,
    /// at most 2000 bytes.
    pub open spec fn violations(&self) -> Seq<FieldViolation> {
        field_violations(RequestField::Slug, self.slug@, SLUG_MIN_BYTES, SLUG_MAX_BYTES)
            + field_violations(RequestField::Name, self.name@, NAME_MIN_BYTES, NAME_MAX_BYTES)
            + match self.description {
                Some(d) => field_violations(RequestField::Description, d@, 0, DESCRIPTION_MAX_BYTES),
                None => Seq::empty(),
            }
    }

    /// Checks the request: `Ok` when it breaks no rule, else every violation.
    pub fn validate(&self) -> (r: Result<(), Vec<FieldViolation>>)
        ensures
            r is Ok <==> self.violations().len() == 0,
            r matches Err(v) ==> v@ == self.violations(),
    {
        let mut found = check_field(RequestField::Slug, &self.slug, SLUG_MIN_BYTES, SLUG_MAX_BYTES);
        let mut name_found = check_field(RequestField::Name, &self.name, NAME_MIN_BYTES, NAME_MAX_BYTES);
        found.append(&mut name_found);
        match &self.description {
            Some(d) => {
                let mut d_found = check_field(RequestField::Description, d, 0, DESCRIPTION_MAX_BYTES);
                found.append(&mut d_found);
            },
            None => {},
        }
        assert(found@ =~= self.violations());
        if found.len() == 0 {
            Ok(())
        } else {
            Err(found)
        }
    }
}

/// A stored board.
pub struct BoardRecord {
    pub id: u128,
    pub slug: String,
    pub name: String,
    pub description: Option<String>,
    pub salt: Vec<u8>,
}

/// A board as clients see it: everything but its salt.
pub struct BoardResponse {
    pub id: u128,
    pub slug: String,
    pub name: String,
    pub description: Option<String>,
}

/// The response for a stored board.
pub open spec fn board_response_of(record: BoardRecord) -> BoardResponse {
    BoardResponse { id: record.id, slug: record.slug, name: record.name, description: record.description }
}

/// Whether a response carries the id, slug, name and description of the
/// stored board unchanged.
pub open spec fn response_keeps_board(r: BoardResponse, record: BoardRecord) -> bool {
    &&& r.id == record.id
    &&& r.slug == record.slug
    &&& r.name == record.name
    &&& r.description == record.description
}

/// The response for a stored board carries its id, slug, name and
/// description unchanged.
pub proof fn lemma_board_response_keeps_fields(record: BoardRecord)
    ensures
        response_keeps_board(board_response_of(record), record),
{
}

impl From<BoardRecord> for BoardResponse {
    fn from(record: BoardRecord) -> (r: BoardResponse)
        ensures
            r.id == record.id,
            r.slug == record.slug,
            r.name == record.name,
            r.description == record.description,
    {
        BoardResponse { id: record.id, slug: record.slug, name: record.name, description: record.description }
    }
}

impl vstd::std_specs::convert::FromSpecImpl<BoardRecord> for BoardResponse {
    open spec fn obeys_from_spec() -> bool {
        true
    }

    open spec fn from_spec(record: BoardRecord) -> BoardResponse {
        board_response_of(record)
    }
}

/// The responses for a list of boards, in the same order.
pub fn board_responses(records: Vec<BoardRecord>) -> (r: Vec<BoardResponse>)
    ensures
        r@.len() == records@.len(),
        forall|i: int| 0 <= i < r@.len() ==> #[trigger] r@[i] == board_response_of(records@[i]),
        forall|i: int| 0 <= i < r@.len() ==> response_keeps_board(#[trigger] r@[i], records@[i]),
{
    let ghost src = records@;
    let mut r: Vec<BoardResponse> = Vec::new();
    for record in it: records.into_iter()
        invariant
            it.seq() == src,
            r@.len() == it.index(),
            forall|j: int| 0 <= j < it.index() ==> #[trigger] r@[j] == board_response_of(src[j]),
            forall|j: int| 0 <= j < it.index() ==> response_keeps_board(#[trigger] r@[j], src[j]),
    {
        r.push(BoardResponse::from(record));
    }
    r
}

/// Whether a board's text fields fit their columns.
pub open spec fn fits_board_columns(slug: Seq<char>, name: Seq<char>, description: Option<String>) -> bool {
    &&& slug.len() <= SLUG_COLUMN_CHARS
    &&& name.len() <= BOARD_NAME_COLUMN_CHARS
    &&& description matches Some(d) ==> d@.len() <= DESCRIPTION_COLUMN_CHARS
}

/// A request that passes validation fits the board columns.
pub proof fn lemma_valid_board_request_fits_columns(request: CreateBoardRequest)
    requires
        request.violations().len() == 0,
    ensures
        fits_board_columns(request.slug@, request.name@, request.description),
{
    lemma_chars_at_most_utf8_bytes(request.slug@);
    lemma_chars_at_most_utf8_bytes(request.name@);
    match request.description {
        Some(d) => lemma_chars_at_most_utf8_bytes(d@),
        None => {},
    }
    let s = field_violations(RequestField::Slug, request.slug@, SLUG_MIN_BYTES, SLUG_MAX_BYTES);
    let n = field_violations(RequestField::Name, request.name@, NAME_MIN_BYTES, NAME_MAX_BYTES);
    assert(s.len() == 0);
    assert(n.len() == 0);
}

/// The answer to a lookup of a board by slug: its response when it was
/// found, else "board not found".
pub fn board_lookup(found: Option<BoardRecord>) -> (r: Result<BoardResponse, AppError>)
    ensures
        found is None ==> r == Err::<BoardResponse, AppError>(AppError::NotFound(Missing::Board)),
        found matches Some(b) ==> r == Ok::<BoardResponse, AppError>(board_response_of(b)),
        found matches Some(b) ==> (r matches Ok(resp) && response_keeps_board(resp, b)),
{
    match found {
        Some(b) => Ok(BoardResponse::from(b)),
        None => Err(AppError::NotFound(Missing::Board)),
    }
}

/// The row inserted for a new board.
pub struct NewBoard {
    pub id: u128,
    pub slug: String,
    pub name: String,
    pub description: Option<String>,
    pub salt: Vec<u8>,
}

impl NewBoard {
    /// The row for a validated creation request: a fresh random id, the
    /// request's slug, name and description, and a fresh 16-byte salt.
    pub fn from_request(request: CreateBoardRequest) -> (row: NewBoard)
        requires
            request.violations().len() == 0,
        ensures
            is_random_uuid(row.id),
            row.slug == request.slug,
            row.name == request.name,
            row.description == request.description,
            row.salt@.len() == SALT_COLUMN_BYTES,
            fits_board_columns(row.slug@, row.name@, row.description),
    {
        proof {
            lemma_valid_board_request_fits_columns(request);
        }
        let id = fresh_id();
        let salt = generate_salt();
        NewBoard { id, slug: request.slug, name: request.name, description: request.description, salt }
    }
}

/// Threads listed per page when the client names no limit.
pub fn default_limit() -> (n: u64)
    ensures
        n == 50,
{
    50
}

/// Most threads listed per page.
pub const MAX_THREAD_PAGE: u64 = 100;

/// Threads listed for a requested page size: the default when none is named,
/// and never more than `MAX_THREAD_PAGE`.
pub open spec fn thread_page_limit(requested: Option<u64>) -> u64 {
    let n = match requested {
        Some(n) => n,
        None => 50,
    };
    if n < MAX_THREAD_PAGE {
        n
    } else {
        MAX_THREAD_PAGE
    }
}

/// A page of the threads of a board: its top-level posts, most recently
/// bumped first, bumped before `before` when that is given, at most `limit`.
pub struct ThreadPageQuery {
    pub board_id: u128,
    pub before: Option<Timestamp>,
    pub limit: u64,
}

impl ThreadPageQuery {
    /// The query for a client's page request.
    pub fn new(board_id: u128, before: Option<Timestamp>, limit: Option<u64>) -> (q: ThreadPageQuery)
        ensures
            q.board_id == board_id,
            q.before == before,
            q.limit == thread_page_limit(limit),
            q.limit <= MAX_THREAD_PAGE,
    {
        let requested = match limit {
            Some(n) => n,
            None => default_limit(),
        };
        let limit = if requested < MAX_THREAD_PAGE {
            requested
        } else {
            MAX_THREAD_PAGE
        };
        ThreadPageQuery { board_id, before, limit }
    }
}

} // verus!
