use crate::post::{rows_view, Post, PostView};
use vstd::prelude::*;

verus! {

/// Mathematical view of the posts table together with the id counter: the
/// rows in insertion order, and the id the next inserted row will receive.
#[verifier::ext_equal]
pub ghost struct StoreView {
    pub posts: Seq<PostView>,
    pub next_id: int,
}

/// The first row carrying `id`, scanning from the front; `None` when no row
/// carries it. On a well-formed table ids are unique, so "first" is "the".
pub open spec fn find_in(rows: Seq<PostView>, id: int) -> Option<PostView>
    decreases rows.len(),
{
    if rows.len() == 0 {
        None
    } else if rows[0].id == id {
        Some(rows[0])
    } else {
        find_in(rows.drop_first(), id)
    }
}

/// The table after one insert: a row with the next free id, the given text
/// fields and `published` defaulted to false is appended, and the counter
/// moves on.
pub open spec fn spec_create(s: StoreView, title: Seq<char>, body: Seq<char>) -> StoreView {
    StoreView {
        posts: s.posts.push(
            PostView { id: s.next_id, title: title, body: body, published: false },
        ),
        next_id: s.next_id + 1,
    }
}

/// Well-formedness of the table: ids start at 1, every assigned id lies below
/// the counter, and no two rows share an id.
pub open spec fn store_wf(s: StoreView) -> bool {
    &&& 1 <= s.next_id
    &&& forall|i: int|
        0 <= i < s.posts.len() ==> 1 <= (#[trigger] s.posts[i]).id < s.next_id
    &&& forall|i: int, j: int|
        0 <= i < j < s.posts.len() ==> (#[trigger] s.posts[i]).id != (#[trigger] s.posts[j]).id
}

/// In-memory model of the posts table. It owns id assignment the way the
/// storage layer does: ids are issued monotonically by a private counter,
/// starting at 1, and rows are only ever appended.
pub struct PostStore {
    posts: Vec<Post>,
    next_id: i32,
}

impl View for PostStore {
    type V = StoreView;

    closed spec fn view(&self) -> StoreView {
        StoreView { posts: rows_view(self.posts@), next_id: self.next_id as int }
    }
}

impl PostStore {
    /// The table invariant, on the exec type.
    pub open spec fn wf(self) -> bool {
        store_wf(self@)
    }

    /// Another id can still be issued without leaving the id type's range.
    pub open spec fn can_insert(self) -> bool {
        self@.next_id < i32::MAX as int
    }

    /// An empty table; the first insert will be assigned id 1.
    pub fn new() -> (s: Self)
        ensures
            s.wf(),
            s@.posts.len() == 0,
            s@.next_id == 1,
    {
        PostStore { posts: Vec::new(), next_id: 1 }
    }

    /// Inserts one row, assigning it the next free id and defaulting
    /// `published` to false, and returns the inserted row.
    pub fn insert(&mut self, title: String, body: String) -> (p: Post)
        requires
            old(self).wf(),
            old(self).can_insert(),
        ensures
            final(self).wf(),
            final(self)@ == spec_create(old(self)@, title@, body@),
            p@ == (PostView { id: old(self)@.next_id, title: title@, body: body@, published: false }),
    {
        let id = self.next_id;
        let stored = Post { id, title: title.clone(), body: body.clone(), published: false };
        self.posts.push(stored);
        self.next_id = id + 1;
        let p = Post { id, title, body, published: false };
        proof {
            assert(self@.posts =~= old(self)@.posts.push(p@));
            assert(self@ =~= spec_create(old(self)@, p@.title, p@.body));
            lemma_create_preserves_wf(old(self)@, p@.title, p@.body);
        }
        p
    }

    /// The rows of the whole table, in insertion order.
    pub fn rows(&self) -> (r: &Vec<Post>)
        ensures
            rows_view(r@) == self@.posts,
    {
        &self.posts
    }

    /// The rows whose primary key equals `id`: a one-element collection when
    /// the id is present, the empty collection otherwise (the shape a filtered
    /// table query returns).
    pub fn query(&self, id: i32) -> (rows: Vec<Post>)
        ensures
            (match find_in(self@.posts, id as int) {
                Some(p) => rows@.len() == 1 && rows@[0]@ == p,
                None => rows@.len() == 0,
            }),
    {
        let mut rows: Vec<Post> = Vec::new();
        match self.find(id) {
            Some(row) => {
                rows.push(row.duplicate());
            },
            None => {},
        }
        rows
    }

    /// The first row carrying `id`, if any.
    pub fn find(&self, id: i32) -> (r: Option<&Post>)
        ensures
            (match r {
                Some(p) => find_in(self@.posts, id as int) == Some(p@),
                None => find_in(self@.posts, id as int) is None,
            }),
    {
        let mut i: usize = 0;
        while i < self.posts.len()
            invariant
                i <= self.posts.len(),
                forall|j: int| 0 <= j < i ==> (#[trigger] self@.posts[j]).id != id as int,
            decreases self.posts@.len() - i,
        {
            proof {
                assert(self@.posts[i as int] == self.posts@[i as int]@);
            }
            let row = &self.posts[i];
            proof {
                assert(row@ == self.posts@[i as int]@);
                assert(row@.id == row.id as int);
            }
            if row.id == id {
                proof {
                    lemma_find_in_skip(self@.posts, id as int, i as int);
                    assert(self@.posts.skip(i as int).len() > 0);
                    assert(self@.posts.skip(i as int)[0] == self@.posts[i as int]);
                    assert(self@.posts[i as int].id == id as int);
                }
                return Some(row);
            }
            i += 1;
        }
        proof {
            lemma_find_in_skip(self@.posts, id as int, i as int);
            assert(self@.posts.skip(i as int).len() == 0);
        }
        None
    }
}

/// `find_in` ignores a prefix in which no row carries the id.
proof fn lemma_find_in_skip(rows: Seq<PostView>, id: int, i: int)
    requires
        0 <= i <= rows.len(),
        forall|j: int| 0 <= j < i ==> (#[trigger] rows[j]).id != id,
    ensures
        find_in(rows, id) == find_in(rows.skip(i), id),
    decreases i,
{
    if i > 0 {
        assert(rows[0].id != id);
        assert forall|j: int| 0 <= j < i - 1 implies (#[trigger] rows.drop_first()[j]).id != id by {
            assert(rows.drop_first()[j] == rows[j + 1]);
        }
        lemma_find_in_skip(rows.drop_first(), id, i - 1);
        assert(rows.drop_first().skip(i - 1) =~= rows.skip(i));
    } else {
        assert(rows.skip(0) =~= rows);
    }
}

/// Appending a row whose id no existing row carries makes that row the one
/// `find_in` returns for its id.
proof fn lemma_find_in_push_fresh(rows: Seq<PostView>, p: PostView)
    requires
        forall|j: int| 0 <= j < rows.len() ==> (#[trigger] rows[j]).id != p.id,
    ensures
        find_in(rows.push(p), p.id) == Some(p),
    decreases rows.len(),
{
    if rows.len() == 0 {
        assert(rows.push(p)[0] == p);
    } else {
        assert(rows.push(p)[0] == rows[0]);
        assert(rows[0].id != p.id);
        assert(rows.push(p).drop_first() =~= rows.drop_first().push(p));
        assert forall|j: int| 0 <= j < rows.drop_first().len() implies (#[trigger] rows.drop_first()[j]).id
            != p.id by {
            assert(rows.drop_first()[j] == rows[j + 1]);
        }
        lemma_find_in_push_fresh(rows.drop_first(), p);
    }
}

/// `find_in` misses when no row carries the id.
proof fn lemma_find_in_none(rows: Seq<PostView>, id: int)
    requires
        forall|j: int| 0 <= j < rows.len() ==> (#[trigger] rows[j]).id != id,
    ensures
        find_in(rows, id) is None,
{
    lemma_find_in_skip(rows, id, rows.len() as int);
    assert(rows.skip(rows.len() as int).len() == 0);
}

/// Inserting preserves the table invariant: the fresh row's id is the counter
/// value, which is at least 1 and which no existing row carries, and the
/// counter strictly grows.
pub proof fn lemma_create_preserves_wf(s: StoreView, title: Seq<char>, body: Seq<char>)
    requires
        store_wf(s),
    ensures
        store_wf(spec_create(s, title, body)),
{
    let s2 = spec_create(s, title, body);
    assert forall|i: int, j: int| 0 <= i < j < s2.posts.len() implies (#[trigger] s2.posts[i]).id
        != (#[trigger] s2.posts[j]).id by {
        if j < s.posts.len() as int {
            assert(s2.posts[i] == s.posts[i]);
            assert(s2.posts[j] == s.posts[j]);
        } else {
            assert(s2.posts[j].id == s.next_id);
            assert(s2.posts[i] == s.posts[i]);
        }
    }
}

/// Round trip through storage: on a well-formed table, a created post is found
/// again under the id it was assigned, carrying the same title and body and
/// with `published` false.
pub proof fn lemma_create_then_find(s: StoreView, title: Seq<char>, body: Seq<char>)
    requires
        store_wf(s),
    ensures
        find_in(spec_create(s, title, body).posts, s.next_id) == Some(
            PostView { id: s.next_id, title: title, body: body, published: false },
        ),
{
    let p = PostView { id: s.next_id, title: title, body: body, published: false };
    assert forall|j: int| 0 <= j < s.posts.len() implies (#[trigger] s.posts[j]).id != p.id by {
        assert(s.posts[j].id < s.next_id);
    }
    lemma_find_in_push_fresh(s.posts, p);
}

/// Distinct server-assigned ids: an insert's id is carried by no earlier row,
/// two consecutive inserts are assigned different ids, and after them the
/// table still carries no duplicate id anywhere.
pub proof fn lemma_create_ids_distinct(
    s: StoreView,
    title1: Seq<char>,
    body1: Seq<char>,
    title2: Seq<char>,
    body2: Seq<char>,
)
    requires
        store_wf(s),
    ensures
        ({
            let s1 = spec_create(s, title1, body1);
            let s2 = spec_create(s1, title2, body2);
            &&& find_in(s.posts, s.next_id) is None
            &&& s.next_id != s1.next_id
            &&& store_wf(s2)
            &&& forall|i: int, j: int|
                0 <= i < j < s2.posts.len() ==> (#[trigger] s2.posts[i]).id != (
                #[trigger] s2.posts[j]).id
        }),
{
    let s1 = spec_create(s, title1, body1);
    assert forall|j: int| 0 <= j < s.posts.len() implies (#[trigger] s.posts[j]).id != s.next_id by {
        assert(s.posts[j].id < s.next_id);
    }
    lemma_find_in_none(s.posts, s.next_id);
    lemma_create_preserves_wf(s, title1, body1);
    lemma_create_preserves_wf(s1, title2, body2);
}

} // verus!
