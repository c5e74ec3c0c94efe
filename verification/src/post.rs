use vstd::prelude::*;

verus! {

/// One row of the posts table: the persisted entity. The `id` is assigned by
/// the storage layer on insert and never changed afterwards; `published`
/// defaults to false and is not settable through the creation endpoint.
#[derive(Debug)]
pub struct Post {
    pub id: i32,
    pub title: String,
    pub body: String,
    pub published: bool,
}

/// Mathematical view of a post: the id as an unbounded integer, the text
/// fields as character sequences.
#[verifier::ext_equal]
pub ghost struct PostView {
    pub id: int,
    pub title: Seq<char>,
    pub body: Seq<char>,
    pub published: bool,
}

impl View for Post {
    type V = PostView;

    open spec fn view(&self) -> PostView {
        PostView {
            id: self.id as int,
            title: self.title@,
            body: self.body@,
            published: self.published,
        }
    }
}

/// The outbound representation: mirrors `Post` field for field, so it shares
/// its view type. A response DTO `d` built from a row `p` satisfies `d@ == p@`.
#[derive(Debug)]
pub struct PostDTO {
    pub id: i32,
    pub title: String,
    pub body: String,
    pub published: bool,
}

impl View for PostDTO {
    type V = PostView;

    open spec fn view(&self) -> PostView {
        PostView {
            id: self.id as int,
            title: self.title@,
            body: self.body@,
            published: self.published,
        }
    }
}

impl Post {
    /// An identical copy of the row.
    pub fn duplicate(&self) -> (r: Post)
        ensures
            r@ == self@,
    {
        Post {
            id: self.id,
            title: self.title.clone(),
            body: self.body.clone(),
            published: self.published,
        }
    }
}

/// The views of a sequence of rows, in order.
pub open spec fn rows_view(rows: Seq<Post>) -> Seq<PostView> {
    rows.map_values(|p: Post| p@)
}

/// The views of a sequence of DTOs, in order.
pub open spec fn dtos_view(ds: Seq<PostDTO>) -> Seq<PostView> {
    ds.map_values(|d: PostDTO| d@)
}

/// The inbound creation payload: title and body only. There is no `id` field
/// (the storage layer assigns one) and no `published` field (it defaults to
/// false).
#[derive(Debug)]
pub struct PostRequest {
    pub title: String,
    pub body: String,
}

/// Mathematical view of a creation payload.
pub ghost struct PostRequestView {
    pub title: Seq<char>,
    pub body: Seq<char>,
}

impl View for PostRequest {
    type V = PostRequestView;

    open spec fn view(&self) -> PostRequestView {
        PostRequestView { title: self.title@, body: self.body@ }
    }
}

} // verus!
