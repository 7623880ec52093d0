//! The shape of the stored posts, as a map from id to post, and the laws that
//! the rows this crate builds keep it.
//!
//! Every post belongs to the thread of a root post on the same board. A root
//! has no parent, is its own root, has been bumped, and counts exactly the
//! other posts of its thread as replies. A reply has a parent in the same
//! thread, no bump time and no replies of its own.

use crate::posts::{stored_post, NewPost, PostRecord, ThreadBump};
use crate::time::Timestamp;
use vstd::prelude::*;
use vstd::set_lib::lemma_set_subset_finite;

verus! {

/// Whether `p` opens a thread.
pub open spec fn is_thread_root(p: PostRecord) -> bool {
    p.parent_post_id is None && p.root_post_id == p.id
}

/// The ids of the replies in the thread whose root is `root`.
pub open spec fn replies_in(posts: Map<u128, PostRecord>, root: u128) -> Set<u128> {
    Set::new(|id: u128| posts.dom().contains(id) && posts[id].root_post_id == root && id != root)
}

/// Whether the post stored under `id` sits where it should.
pub open spec fn well_placed(posts: Map<u128, PostRecord>, id: u128) -> bool {
    let p = posts[id];
    &&& p.id == id
    &&& posts.dom().contains(p.root_post_id)
    &&& is_thread_root(posts[p.root_post_id])
    &&& posts[p.root_post_id].board_id == p.board_id
    &&& if is_thread_root(p) {
        &&& p.last_bumped_at is Some
        &&& p.reply_count == replies_in(posts, id).len()
    } else {
        &&& p.parent_post_id is Some
        &&& posts.dom().contains(p.parent_post_id->0)
        &&& posts[p.parent_post_id->0].root_post_id == p.root_post_id
        &&& p.last_bumped_at is None
        &&& p.reply_count == 0
    }
}

/// Whether the stored posts form well-shaped threads.
pub open spec fn well_threaded(posts: Map<u128, PostRecord>) -> bool {
    &&& posts.dom().finite()
    &&& forall|id: u128| posts.dom().contains(id) ==> #[trigger] well_placed(posts, id)
}

/// The stored posts after a bump is applied to them.
pub open spec fn bumped(posts: Map<u128, PostRecord>, bump: ThreadBump) -> Map<u128, PostRecord> {
    posts.map_values(|p: PostRecord| bump.applied_to(p))
}

/// The stored posts after `row` is inserted at `created_at`.
pub open spec fn with_inserted(posts: Map<u128, PostRecord>, row: NewPost, created_at: Timestamp) -> Map<u128, PostRecord> {
    posts.insert(row.id, stored_post(row, created_at))
}

proof fn lemma_replies_finite(posts: Map<u128, PostRecord>, root: u128)
    requires
        posts.dom().finite(),
    ensures
        replies_in(posts, root).finite(),
{
    lemma_set_subset_finite(posts.dom(), replies_in(posts, root));
}

/// Whether every thread root counts exactly the other posts of its thread as
/// its replies.
pub open spec fn reply_counts_hold(posts: Map<u128, PostRecord>) -> bool {
    forall|id: u128|
        posts.dom().contains(id) && is_thread_root(#[trigger] posts[id]) ==> posts[id].reply_count
            == replies_in(posts, id).len()
}

/// Whether every post is stored under its own id (its primary key).
pub open spec fn stored_by_id(posts: Map<u128, PostRecord>) -> bool {
    forall|id: u128| posts.dom().contains(id) ==> (#[trigger] posts[id]).id == id
}

/// A reply keeps every thread root's reply count equal to the number of posts
/// below it in its thread: inserting, at any creation time, a row with a
/// fresh id that has a parent, then bumping the stored post that the row
/// names as its root. Beyond posts being stored under their ids, nothing else
/// of the stored posts' shape is needed; the bumped post's count must have
/// room for one more.
pub proof fn lemma_reply_keeps_reply_counts(
    posts: Map<u128, PostRecord>,
    row: NewPost,
    created_at: Timestamp,
    bump: ThreadBump,
)
    requires
        posts.dom().finite(),
        stored_by_id(posts),
        reply_counts_hold(posts),
        !posts.dom().contains(row.id),
        row.parent_post_id is Some,
        posts.dom().contains(bump.root_post_id),
        row.root_post_id == bump.root_post_id,
        posts[bump.root_post_id].reply_count < i32::MAX,
    ensures
        stored_by_id(bumped(with_inserted(posts, row, created_at), bump)),
        reply_counts_hold(bumped(with_inserted(posts, row, created_at), bump)),
{
    let mid = with_inserted(posts, row, created_at);
    let after = bumped(mid, bump);
    let root = bump.root_post_id;
    assert(mid.dom() =~= posts.dom().insert(row.id));
    assert(after.dom() =~= mid.dom());
    assert forall|r: u128| replies_in(after, r) =~= replies_in(mid, r) by {}
    assert forall|r: u128| r != root implies replies_in(mid, r) =~= replies_in(posts, r) by {}
    assert(replies_in(mid, root) =~= replies_in(posts, root).insert(row.id));
    lemma_replies_finite(posts, root);
    assert(!replies_in(posts, root).contains(row.id));
    assert(posts[root].id == root);
    assert forall|id: u128| after.dom().contains(id) implies (#[trigger] after[id]).id == id by {
        if id != row.id {
            assert(posts[id].id == id);
        }
    }
    assert forall|id: u128| after.dom().contains(id) && is_thread_root(#[trigger] after[id]) implies after[id].reply_count
        == replies_in(after, id).len() by {
        assert(replies_in(after, id) == replies_in(mid, id));
        if id == row.id {
            assert(after[id] == bump.applied_to(stored_post(row, created_at)));
        } else {
            assert(after[id] == bump.applied_to(posts[id]));
            assert(posts[id].id == id);
            assert(is_thread_root(posts[id]));
            if id == root {
                assert(after[id].reply_count == posts[id].reply_count + 1);
            } else {
                assert(replies_in(mid, id) == replies_in(posts, id));
            }
        }
    }
}

/// A new thread keeps the threads well shaped: inserting, at any creation
/// time, a row with a fresh id that is its own root, has no parent and has a
/// bump time.
pub proof fn lemma_new_thread_keeps_threads(posts: Map<u128, PostRecord>, row: NewPost, created_at: Timestamp)
    requires
        well_threaded(posts),
        !posts.dom().contains(row.id),
        row.root_post_id == row.id,
        row.parent_post_id is None,
        row.last_bumped_at is Some,
    ensures
        well_threaded(with_inserted(posts, row, created_at)),
{
    let after = with_inserted(posts, row, created_at);
    assert(after.dom() =~= posts.dom().insert(row.id));
    assert forall|id: u128| after.dom().contains(id) implies #[trigger] well_placed(after, id) by {
        if id == row.id {
            assert(replies_in(after, id) =~= Set::<u128>::empty()) by {
                assert forall|x: u128| !replies_in(after, id).contains(x) by {
                    if posts.dom().contains(x) && x != row.id && posts[x].root_post_id == row.id {
                        assert(well_placed(posts, x));
                    }
                }
            }
        } else {
            assert(well_placed(posts, id));
            let p = posts[id];
            assert(well_placed(posts, p.root_post_id));
            if is_thread_root(p) {
                assert(replies_in(after, id) =~= replies_in(posts, id));
            } else {
                assert(well_placed(posts, p.parent_post_id->0));
            }
        }
    }
}

/// A reply keeps the threads well shaped: inserting, at any creation time, a
/// row with a fresh id on the parent's board, in the parent's thread, with
/// the parent as parent and no bump time, then bumping the root of that
/// thread. The root's reply count must have room for one more.
pub proof fn lemma_reply_keeps_threads(
    posts: Map<u128, PostRecord>,
    parent_id: u128,
    row: NewPost,
    created_at: Timestamp,
    bump: ThreadBump,
)
    requires
        well_threaded(posts),
        posts.dom().contains(parent_id),
        !posts.dom().contains(row.id),
        row.board_id == posts[parent_id].board_id,
        row.root_post_id == posts[parent_id].root_post_id,
        row.parent_post_id == Some(parent_id),
        row.last_bumped_at is None,
        bump.root_post_id == posts[parent_id].root_post_id,
        posts[bump.root_post_id].reply_count < i32::MAX,
    ensures
        well_threaded(bumped(with_inserted(posts, row, created_at), bump)),
{
    let mid = with_inserted(posts, row, created_at);
    let after = bumped(mid, bump);
    let root = bump.root_post_id;
    assert(well_placed(posts, parent_id));
    assert(well_placed(posts, root));
    assert(mid.dom() =~= posts.dom().insert(row.id));
    assert(after.dom() =~= mid.dom());
    assert forall|r: u128| replies_in(after, r) =~= replies_in(mid, r) by {}
    assert forall|r: u128| r != root implies replies_in(mid, r) =~= replies_in(posts, r) by {}
    assert(replies_in(mid, root) =~= replies_in(posts, root).insert(row.id));
    lemma_replies_finite(posts, root);
    assert(!replies_in(posts, root).contains(row.id));
    assert forall|id: u128| after.dom().contains(id) implies #[trigger] well_placed(after, id) by {
        if id == row.id {
            assert(after[id] == stored_post(row, created_at));
        } else {
            assert(well_placed(posts, id));
            let p = posts[id];
            assert(well_placed(posts, p.root_post_id));
            if !is_thread_root(p) {
                assert(well_placed(posts, p.parent_post_id->0));
            }
        }
    }
}

} // verus!
