use crate::post::{dtos_view, rows_view, Post, PostDTO, PostRequest, PostView};
use crate::store::{find_in, spec_create, PostStore};
use vstd::prelude::*;

verus! {

/// Health endpoint: always the fixed payload "ok". Its signature takes no
/// storage handle at all, so its result cannot depend on storage
/// availability.
pub fn health() -> (r: String)
    ensures
        r@ == "ok"@,
{
    String::from_str("ok")
}

/// Maps the description of a connection-acquisition failure to the structured
/// internal-server-error response: status 500 carrying the description.
pub fn internal_error(message: String) -> (r: (u16, String))
    ensures
        r.0 == 500,
        r.1@ == message@,
{
    (500, message)
}

/// Maps one storage row to its outbound representation, field for field.
pub fn post_to_dto(row: &Post) -> (d: PostDTO)
    ensures
        d@ == row@,
{
    PostDTO {
        id: row.id,
        title: row.title.clone(),
        body: row.body.clone(),
        published: row.published,
    }
}

/// Maps every row of a query result to its outbound representation, keeping
/// the order.
pub fn posts_to_dtos(rows: &Vec<Post>) -> (ds: Vec<PostDTO>)
    ensures
        dtos_view(ds@) == rows_view(rows@),
{
    let mut ds: Vec<PostDTO> = Vec::new();
    let mut i: usize = 0;
    while i < rows.len()
        invariant
            i <= rows.len(),
            ds@.len() == i,
            forall|j: int| 0 <= j < i ==> (#[trigger] ds@[j])@ == rows@[j]@,
        decreases rows@.len() - i,
    {
        let d = post_to_dto(&rows[i]);
        ds.push(d);
        i += 1;
    }
    proof {
        assert(dtos_view(ds@) =~= rows_view(rows@));
    }
    ds
}

/// Decision step of the point lookup, applied to the rows a storage query
/// returned for one id: the empty result is the not-found error, any other
/// result is mapped row for row. A success therefore never carries an empty
/// collection.
pub fn get_post_response(rows: &Vec<Post>) -> (r: Result<Vec<PostDTO>, (u16, String)>)
    ensures
        r is Ok <==> rows@.len() > 0,
        r is Ok ==> dtos_view(r->Ok_0@) == rows_view(rows@),
        r is Err ==> r->Err_0.0 == 404 && r->Err_0.1@ == "Post not found"@,
{
    if rows.len() == 0 {
        Err((404, String::from_str("Post not found")))
    } else {
        Ok(posts_to_dtos(rows))
    }
}

/// Point lookup: status 404 exactly when no row carries the requested id;
/// otherwise a one-element collection holding the matching row as a DTO (the
/// read path wraps its singular result in a collection).
pub fn get_post(store: &PostStore, path_id: i32) -> (r: Result<Vec<PostDTO>, (u16, String)>)
    ensures
        r is Ok <==> find_in(store@.posts, path_id as int) is Some,
        r is Ok ==> r->Ok_0@.len() == 1 && find_in(store@.posts, path_id as int) == Some(
            r->Ok_0@[0]@,
        ),
        r is Err ==> r->Err_0.0 == 404 && r->Err_0.1@ == "Post not found"@,
{
    let rows = store.query(path_id);
    let r = get_post_response(&rows);
    proof {
        match find_in(store@.posts, path_id as int) {
            Some(p) => {
                assert(rows@.len() == 1);
                let ds = r->Ok_0;
                assert(dtos_view(ds@) == rows_view(rows@));
                assert(ds@.len() == rows@.len());
                assert(dtos_view(ds@)[0] == ds@[0]@);
                assert(rows_view(rows@)[0] == rows@[0]@);
                assert(ds@[0]@ == p);
            },
            None => {},
        }
    }
    r
}

/// List endpoint: every row of the table as a DTO, in table order, always a
/// success; the empty table yields the empty collection, not an error.
pub fn get_posts(store: &PostStore) -> (r: Result<Vec<PostDTO>, (u16, String)>)
    ensures
        r is Ok,
        dtos_view(r->Ok_0@) == store@.posts,
{
    Ok(posts_to_dtos(store.rows()))
}

/// Create endpoint: inserts one row with a server-assigned id and `published`
/// defaulted to false, and returns the inserted row as a DTO.
pub fn create_post(store: &mut PostStore, request: PostRequest) -> (r: Result<
    PostDTO,
    (u16, String),
>)
    requires
        old(store).wf(),
        old(store).can_insert(),
    ensures
        final(store).wf(),
        final(store)@ == spec_create(old(store)@, request@.title, request@.body),
        r is Ok,
        r->Ok_0@ == (PostView {
            id: old(store)@.next_id,
            title: request@.title,
            body: request@.body,
            published: false,
        }),
{
    let PostRequest { title, body } = request;
    let row = store.insert(title, body);
    Ok(post_to_dto(&row))
}

} // verus!
