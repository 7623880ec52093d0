//! Sizes of the stored columns, shared by the database schema and the rules
//! that keep stored values inside them.

use vstd::prelude::*;

verus! {

/// Characters in a board's `slug` column.
pub const SLUG_COLUMN_CHARS: usize = 32;

/// Characters in a board's `name` column.
pub const BOARD_NAME_COLUMN_CHARS: usize = 64;

/// Characters in a board's `description` column.
pub const DESCRIPTION_COLUMN_CHARS: usize = 2_000;

/// Characters in a post's `author_tripcode` column.
pub const TRIPCODE_COLUMN_CHARS: usize = 16;

/// Bytes in a board's `salt` column and in the daily salt's `value` column.
pub const SALT_COLUMN_BYTES: usize = 16;

/// Default of a board's `thread_limit` column.
pub const DEFAULT_THREAD_LIMIT: i64 = 100;

/// Key of the single row of the daily salt table.
pub const DAILY_SALT_ROW_ID: i32 = 1;

/// Number of bytes in the UTF-8 encoding of `text`.
pub open spec fn utf8_len(text: Seq<char>) -> int {
    vstd::utf8::encode_utf8(text).len() as int
}

/// A text never has more characters than its UTF-8 encoding has bytes.
pub proof fn lemma_chars_at_most_utf8_bytes(text: Seq<char>)
    ensures
        text.len() <= utf8_len(text),
    decreases text.len(),
{
    if text.len() > 0 {
        lemma_chars_at_most_utf8_bytes(text.drop_first());
    }
}

} // verus!
