use std::collections::HashMap;

use cardboard::posts::{NewPost, PostRecord, ThreadBump};
use cardboard::schema::{SLUG_COLUMN_CHARS, TRIPCODE_COLUMN_CHARS};
use cardboard::time::Timestamp;

fn at(secs: i64) -> Timestamp {
    Timestamp { secs, nanos: 0 }
}

fn store(row: &NewPost, created_at: Timestamp) -> PostRecord {
    PostRecord {
        id: row.id,
        board_id: row.board_id,
        root_post_id: row.root_post_id,
        parent_post_id: row.parent_post_id,
        author_tripcode: row.author_tripcode.clone(),
        content: row.content.clone(),
        reply_count: 0,
        created_at,
        last_bumped_at: row.last_bumped_at,
    }
}

fn apply(posts: &mut HashMap<u128, PostRecord>, bump: ThreadBump) {
    if let Some(root) = posts.get_mut(&bump.root_post_id) {
        root.reply_count += 1;
        root.last_bumped_at = Some(bump.bumped_at);
    }
}

fn well_threaded(posts: &HashMap<u128, PostRecord>) -> bool {
    posts.iter().all(|(&id, p)| {
        let Some(root) = posts.get(&p.root_post_id) else { return false };
        let root_ok = root.parent_post_id.is_none() && root.root_post_id == root.id && root.board_id == p.board_id;
        let replies = posts.values().filter(|q| q.root_post_id == id && q.id != id).count();
        let own_ok = if p.parent_post_id.is_none() && p.root_post_id == id {
            p.last_bumped_at.is_some() && p.reply_count as usize == replies
        } else {
            match p.parent_post_id {
                Some(parent) => posts.get(&parent).map(|q| q.root_post_id) == Some(p.root_post_id)
                    && p.last_bumped_at.is_none() && p.reply_count == 0,
                None => false,
            }
        };
        p.id == id && root_ok && own_ok
    })
}

#[test]
fn threads_stay_well_shaped() {
    let mut posts = HashMap::new();
    let opener = NewPost::thread(1, "t".to_string(), "opener".to_string(), at(10));
    posts.insert(opener.id, store(&opener, at(10)));
    let other = NewPost::thread(1, "t".to_string(), "other".to_string(), at(11));
    posts.insert(other.id, store(&other, at(11)));
    assert!(well_threaded(&posts));

    let parent = posts[&opener.id].clone_record();
    let reply = NewPost::reply(&parent, "u".to_string(), "first reply".to_string());
    posts.insert(reply.id, store(&reply, at(20)));
    apply(&mut posts, ThreadBump::for_reply_to(&parent, at(20)));
    assert!(well_threaded(&posts));

    let parent = posts[&reply.id].clone_record();
    let nested = NewPost::reply(&parent, "v".to_string(), "reply to a reply".to_string());
    posts.insert(nested.id, store(&nested, at(30)));
    apply(&mut posts, ThreadBump::for_reply_to(&parent, at(30)));
    assert!(well_threaded(&posts));

    let root = &posts[&opener.id];
    assert_eq!((root.reply_count, root.last_bumped_at), (2, Some(at(30))));
    assert_eq!(posts[&nested.id].root_post_id, opener.id);
    assert_eq!(posts[&other.id].reply_count, 0);
}

trait CloneRecord {
    fn clone_record(&self) -> PostRecord;
}

impl CloneRecord for PostRecord {
    fn clone_record(&self) -> PostRecord {
        PostRecord {
            author_tripcode: self.author_tripcode.clone(),
            content: self.content.clone(),
            ..*self
        }
    }
}

#[test]
fn column_sizes_cover_the_rules() {
    assert!(cardboard::boards::SLUG_MAX_BYTES <= SLUG_COLUMN_CHARS);
    assert_eq!(cardboard::tripcode::TRIPCODE_LEN, TRIPCODE_COLUMN_CHARS);
}

fn reply_counts_hold(posts: &HashMap<u128, PostRecord>) -> bool {
    posts.iter().all(|(&id, p)| {
        !(p.parent_post_id.is_none() && p.root_post_id == id)
            || p.reply_count as usize == posts.values().filter(|q| q.root_post_id == id && q.id != id).count()
    })
}

#[test]
fn reply_counts_hold_even_beside_misplaced_posts() {
    let mut posts = HashMap::new();
    let opener = NewPost::thread(1, "t".to_string(), "opener".to_string(), at(10));
    posts.insert(opener.id, store(&opener, at(10)));
    // a post whose parent was deleted and whose board differs from its root's
    let mut orphan = store(&NewPost::reply(&posts[&opener.id].clone_record(), "o".to_string(), "o".to_string()), at(12));
    orphan.parent_post_id = Some(12345);
    orphan.board_id = 2;
    posts.insert(orphan.id, orphan);
    posts.get_mut(&opener.id).unwrap().reply_count = 1;
    assert!(reply_counts_hold(&posts));
    assert!(!well_threaded(&posts));

    let parent = posts[&opener.id].clone_record();
    let reply = NewPost::reply(&parent, "u".to_string(), "reply".to_string());
    posts.insert(reply.id, store(&reply, at(20)));
    apply(&mut posts, ThreadBump::for_reply_to(&parent, at(20)));
    assert!(reply_counts_hold(&posts));
    assert_eq!(posts[&opener.id].reply_count, 2);
}
