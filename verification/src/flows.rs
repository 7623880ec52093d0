//! The request flows that alternate storage work and decisions.
//!
//! Each flow is a chain of states. A state says what storage work comes next
//! (through its getters) and is consumed by the method that takes the result
//! of that work, which decides the next state or the answer. The fields are
//! private, so a later state is reached only through the earlier ones.

use crate::boards::BoardRecord;
use crate::error::{AppError, Missing};
use crate::ids::is_random_uuid;
use crate::posts::{bump_outcome, post_response_of, response_keeps_post, NewPost, PostRecord, PostResponse, ThreadBump};
use crate::time::{read_clock, ClockReading, Timestamp};
use crate::tripcode::{derive_tripcode, is_lower_hex_char, tripcode_of, TRIPCODE_LEN};
use vstd::prelude::*;

verus! {

// ---------------------------------------------------------------------------
// Tripcode of a poster on a board
// ---------------------------------------------------------------------------

/// Deriving a tripcode, first step: the board must be loaded.
pub struct TripcodeLookup {
    board_id: u128,
    ip_text: String,
}

/// Deriving a tripcode, second step: the current daily salt must be
/// obtained.
pub struct TripcodeAwaitingSalt {
    ip_text: String,
    board_salt: Vec<u8>,
}

impl TripcodeLookup {
    pub closed spec fn board_id_spec(&self) -> u128 {
        self.board_id
    }

    pub closed spec fn ip_text_spec(&self) -> Seq<char> {
        self.ip_text@
    }

    /// Starts deriving the tripcode of the poster at `ip_text` on board
    /// `board_id`.
    pub fn new(board_id: u128, ip_text: String) -> (s: TripcodeLookup)
        ensures
            s.board_id_spec() == board_id,
            s.ip_text_spec() == ip_text@,
    {
        TripcodeLookup { board_id, ip_text }
    }

    /// The board to load.
    pub fn board_id(&self) -> (id: u128)
        ensures
            id == self.board_id_spec(),
    {
        self.board_id
    }

    /// Takes the loaded board: "board not found" when there is none, else the
    /// next step, which keeps the board's salt.
    pub fn board_loaded(self, found: Option<BoardRecord>) -> (r: Result<TripcodeAwaitingSalt, AppError>)
        ensures
            found is None ==> r == Err::<TripcodeAwaitingSalt, AppError>(AppError::NotFound(Missing::Board)),
            found matches Some(b) ==> (r matches Ok(next) && next.ip_text_spec() == self.ip_text_spec()
                && next.board_salt_spec() == b.salt@),
    {
        match found {
            None => Err(AppError::NotFound(Missing::Board)),
            Some(b) => Ok(TripcodeAwaitingSalt { ip_text: self.ip_text, board_salt: b.salt }),
        }
    }
}

impl TripcodeAwaitingSalt {
    pub closed spec fn ip_text_spec(&self) -> Seq<char> {
        self.ip_text@
    }

    pub closed spec fn board_salt_spec(&self) -> Seq<u8> {
        self.board_salt@
    }

    /// Takes the current daily salt: the tripcode.
    pub fn daily_salt_ready(self, daily_salt: &[u8]) -> (code: String)
        ensures
            code@ == tripcode_of(self.ip_text_spec(), daily_salt@, self.board_salt_spec()),
            code@.len() == TRIPCODE_LEN,
            forall|i: int| 0 <= i < code@.len() ==> is_lower_hex_char(#[trigger] code@[i]),
    {
        derive_tripcode(self.ip_text.as_str(), daily_salt, self.board_salt.as_slice())
    }
}

// ---------------------------------------------------------------------------
// A new thread
// ---------------------------------------------------------------------------

/// Opening a thread, first step: the board must be loaded.
pub struct ThreadOpening {
    board_id: u128,
    content: String,
}

/// Opening a thread, second step: the poster's tripcode on the board must be
/// derived.
pub struct ThreadAwaitingTripcode {
    board_id: u128,
    content: String,
}

impl ThreadOpening {
    pub closed spec fn board_id_spec(&self) -> u128 {
        self.board_id
    }

    pub closed spec fn content_spec(&self) -> String {
        self.content
    }

    /// Starts opening a thread on board `board_id` with a validated content.
    pub fn new(board_id: u128, content: String) -> (s: ThreadOpening)
        ensures
            s.board_id_spec() == board_id,
            s.content_spec() == content,
    {
        ThreadOpening { board_id, content }
    }

    /// The board to load.
    pub fn board_id(&self) -> (id: u128)
        ensures
            id == self.board_id_spec(),
    {
        self.board_id
    }

    /// Takes the loaded board: "board not found" when there is none.
    pub fn board_loaded(self, found: Option<BoardRecord>) -> (r: Result<ThreadAwaitingTripcode, AppError>)
        ensures
            found is None ==> r == Err::<ThreadAwaitingTripcode, AppError>(AppError::NotFound(Missing::Board)),
            found is Some ==> (r matches Ok(next) && next.board_id_spec() == self.board_id_spec()
                && next.content_spec() == self.content_spec()),
    {
        match found {
            None => Err(AppError::NotFound(Missing::Board)),
            Some(_) => Ok(ThreadAwaitingTripcode { board_id: self.board_id, content: self.content }),
        }
    }
}

impl ThreadAwaitingTripcode {
    pub closed spec fn board_id_spec(&self) -> u128 {
        self.board_id
    }

    pub closed spec fn content_spec(&self) -> String {
        self.content
    }

    /// The board on which the tripcode is derived.
    pub fn board_id(&self) -> (id: u128)
        ensures
            id == self.board_id_spec(),
    {
        self.board_id
    }

    /// Takes the poster's tripcode, at `now`: the row of the new thread.
    pub fn tripcode_ready_at(self, author_tripcode: String, now: Timestamp) -> (row: NewPost)
        ensures
            is_random_uuid(row.id),
            row.board_id == self.board_id_spec(),
            row.root_post_id == row.id,
            row.parent_post_id is None,
            row.author_tripcode == author_tripcode,
            row.content == self.content_spec(),
            row.last_bumped_at == Some(now),
    {
        NewPost::thread(self.board_id, author_tripcode, self.content, now)
    }

    /// Takes the poster's tripcode and reads the clock for the bump time: the
    /// row of the new thread, bumped at the instant that the clock returned.
    pub fn tripcode_ready(self, author_tripcode: String) -> (row: NewPost)
        ensures
            is_random_uuid(row.id),
            row.board_id == self.board_id_spec(),
            row.root_post_id == row.id,
            row.parent_post_id is None,
            row.author_tripcode == author_tripcode,
            row.content == self.content_spec(),
            row.last_bumped_at is Some,
            exists|reading: ClockReading| row.last_bumped_at == Some(#[trigger] reading.at()),
    {
        let reading = read_clock();
        let now = reading.timestamp();
        self.tripcode_ready_at(author_tripcode, now)
    }
}

// ---------------------------------------------------------------------------
// A reply, in one transaction
// ---------------------------------------------------------------------------

/// Replying, first step (inside a transaction): the parent post must be
/// loaded.
pub struct ReplyOpening {
    parent_post_id: u128,
    content: String,
}

/// Replying, second step: the poster's tripcode on the parent's board must be
/// derived.
pub struct ReplyAwaitingTripcode {
    parent: PostRecord,
    content: String,
}

/// Replying, third step: the reply's row must be inserted.
pub struct ReplyAwaitingInsert {
    parent: PostRecord,
    row: NewPost,
}

/// Replying, fourth step: the thread's root must be bumped.
pub struct ReplyAwaitingBump {
    reply: PostRecord,
    bump: ThreadBump,
}

/// Replying, last step: the transaction must be committed.
pub struct ReplyAwaitingCommit {
    reply: PostRecord,
}

impl ReplyOpening {
    pub closed spec fn parent_post_id_spec(&self) -> u128 {
        self.parent_post_id
    }

    pub closed spec fn content_spec(&self) -> String {
        self.content
    }

    /// Starts a reply to post `parent_post_id` with a validated content.
    pub fn new(parent_post_id: u128, content: String) -> (s: ReplyOpening)
        ensures
            s.parent_post_id_spec() == parent_post_id,
            s.content_spec() == content,
    {
        ReplyOpening { parent_post_id, content }
    }

    /// The parent post to load.
    pub fn parent_post_id(&self) -> (id: u128)
        ensures
            id == self.parent_post_id_spec(),
    {
        self.parent_post_id
    }

    /// Takes the loaded parent: "parent post not found" when there is none.
    pub fn parent_loaded(self, found: Option<PostRecord>) -> (r: Result<ReplyAwaitingTripcode, AppError>)
        ensures
            found is None ==> r == Err::<ReplyAwaitingTripcode, AppError>(AppError::NotFound(Missing::ParentPost)),
            found matches Some(p) ==> (r matches Ok(next) && next.parent_spec() == p
                && next.content_spec() == self.content_spec()),
    {
        match found {
            None => Err(AppError::NotFound(Missing::ParentPost)),
            Some(parent) => Ok(ReplyAwaitingTripcode { parent, content: self.content }),
        }
    }
}

impl ReplyAwaitingTripcode {
    pub closed spec fn parent_spec(&self) -> PostRecord {
        self.parent
    }

    pub closed spec fn content_spec(&self) -> String {
        self.content
    }

    /// The board on which the tripcode is derived: the parent's.
    pub fn board_id(&self) -> (id: u128)
        ensures
            id == self.parent_spec().board_id,
    {
        self.parent.board_id
    }

    /// Takes the poster's tripcode: the reply's row is ready to insert.
    pub fn tripcode_ready(self, author_tripcode: String) -> (next: ReplyAwaitingInsert)
        ensures
            next.parent_spec() == self.parent_spec(),
            is_random_uuid(next.row_spec().id),
            next.row_spec().board_id == self.parent_spec().board_id,
            next.row_spec().root_post_id == self.parent_spec().root_post_id,
            next.row_spec().parent_post_id == Some(self.parent_spec().id),
            next.row_spec().author_tripcode == author_tripcode,
            next.row_spec().content == self.content_spec(),
            next.row_spec().last_bumped_at is None,
    {
        let row = NewPost::reply(&self.parent, author_tripcode, self.content);
        ReplyAwaitingInsert { parent: self.parent, row }
    }
}

impl ReplyAwaitingInsert {
    pub closed spec fn parent_spec(&self) -> PostRecord {
        self.parent
    }

    pub closed spec fn row_spec(&self) -> NewPost {
        self.row
    }

    /// The row to insert.
    pub fn row(&self) -> (r: &NewPost)
        ensures
            *r == self.row_spec(),
    {
        &self.row
    }

    /// Takes the inserted reply, at `now`: the root of the parent's thread is
    /// bumped next.
    pub fn inserted_at(self, reply: PostRecord, now: Timestamp) -> (next: ReplyAwaitingBump)
        ensures
            next.reply_spec() == reply,
            next.bump_spec().root_post_id == self.parent_spec().root_post_id,
            next.bump_spec().bumped_at == now,
    {
        let bump = ThreadBump::for_reply_to(&self.parent, now);
        ReplyAwaitingBump { reply, bump }
    }

    /// Takes the inserted reply and reads the clock: the thread's root is
    /// bumped at the instant that the clock returned.
    pub fn inserted(self, reply: PostRecord) -> (next: ReplyAwaitingBump)
        ensures
            next.reply_spec() == reply,
            next.bump_spec().root_post_id == self.parent_spec().root_post_id,
            exists|reading: ClockReading| next.bump_spec().bumped_at == #[trigger] reading.at(),
    {
        let reading = read_clock();
        let now = reading.timestamp();
        self.inserted_at(reply, now)
    }
}

impl ReplyAwaitingBump {
    pub closed spec fn reply_spec(&self) -> PostRecord {
        self.reply
    }

    pub closed spec fn bump_spec(&self) -> ThreadBump {
        self.bump
    }

    /// The bump to apply.
    pub fn bump(&self) -> (b: ThreadBump)
        ensures
            b == self.bump_spec(),
    {
        self.bump
    }

    /// Takes the number of rows the bump touched: "thread root post not
    /// found" when none, else the transaction is committed next.
    pub fn bumped(self, rows_affected: u64) -> (r: Result<ReplyAwaitingCommit, AppError>)
        ensures
            rows_affected == 0 ==> r == Err::<ReplyAwaitingCommit, AppError>(AppError::NotFound(Missing::ThreadRoot)),
            rows_affected > 0 ==> (r matches Ok(next) && next.reply_spec() == self.reply_spec()),
    {
        match bump_outcome(rows_affected) {
            Err(e) => Err(e),
            Ok(()) => Ok(ReplyAwaitingCommit { reply: self.reply }),
        }
    }
}

impl ReplyAwaitingCommit {
    pub closed spec fn reply_spec(&self) -> PostRecord {
        self.reply
    }

    /// Takes the news that the transaction is committed: the answer is the
    /// reply.
    pub fn committed(self) -> (r: PostResponse)
        ensures
            r == post_response_of(self.reply_spec()),
            response_keeps_post(r, self.reply_spec()),
    {
        PostResponse::from(self.reply)
    }
}

} // verus!
