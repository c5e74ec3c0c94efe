use posts_api::handler::{
    create_post, get_post, get_post_response, get_posts, health, internal_error, post_to_dto,
    posts_to_dtos,
};
use posts_api::post::{Post, PostRequest};
use posts_api::store::PostStore;

fn request(title: &str, body: &str) -> PostRequest {
    PostRequest {
        title: title.to_string(),
        body: body.to_string(),
    }
}

#[test]
fn health_is_ok() {
    assert_eq!(health(), "ok");
}

#[test]
fn internal_error_is_500_with_message() {
    let r = internal_error("pool timed out".to_string());
    assert_eq!(r.0, 500);
    assert_eq!(r.1, "pool timed out");
}

#[test]
fn create_then_get_round_trip() {
    let mut store = PostStore::new();
    let created = create_post(&mut store, request("Hello", "World")).unwrap();
    let got = get_post(&store, created.id).unwrap();
    assert_eq!(got.len(), 1);
    assert_eq!(got[0].id, created.id);
    assert_eq!(got[0].title, "Hello");
    assert_eq!(got[0].body, "World");
    assert!(!got[0].published);
}

#[test]
fn get_post_missing_id_is_404() {
    let mut store = PostStore::new();
    create_post(&mut store, request("Hello", "World")).unwrap();
    let err = get_post(&store, 999).unwrap_err();
    assert_eq!(err.0, 404);
    assert_eq!(err.1, "Post not found");
}

#[test]
fn get_post_on_empty_store_is_404() {
    let store = PostStore::new();
    let err = get_post(&store, 1).unwrap_err();
    assert_eq!(err.0, 404);
    assert_eq!(err.1, "Post not found");
}

#[test]
fn get_posts_on_empty_table_is_ok_and_empty() {
    let store = PostStore::new();
    let dtos = get_posts(&store).unwrap();
    assert!(dtos.is_empty());
}

#[test]
fn get_posts_lists_every_row_in_insertion_order() {
    let mut store = PostStore::new();
    create_post(&mut store, request("a", "1")).unwrap();
    create_post(&mut store, request("b", "2")).unwrap();
    create_post(&mut store, request("c", "3")).unwrap();
    let dtos = get_posts(&store).unwrap();
    assert_eq!(dtos.len(), 3);
    assert_eq!(dtos[0].title, "a");
    assert_eq!(dtos[1].title, "b");
    assert_eq!(dtos[2].title, "c");
}

#[test]
fn creates_receive_distinct_monotone_ids() {
    let mut store = PostStore::new();
    let first = create_post(&mut store, request("one", "x")).unwrap();
    let second = create_post(&mut store, request("two", "y")).unwrap();
    let third = create_post(&mut store, request("two", "y")).unwrap();
    assert_ne!(first.id, second.id);
    assert_ne!(second.id, third.id);
    assert_ne!(first.id, third.id);
    assert_eq!(first.id, 1);
    assert_eq!(second.id, 2);
    assert_eq!(third.id, 3);
}

#[test]
fn scenario_create_then_lookup_then_miss() {
    let mut store = PostStore::new();
    let created = create_post(&mut store, request("Hello", "World")).unwrap();
    assert_eq!(created.id, 1);
    assert_eq!(created.title, "Hello");
    assert_eq!(created.body, "World");
    assert!(!created.published);

    let got = get_post(&store, 1).unwrap();
    assert_eq!(got.len(), 1);
    assert_eq!(got[0].id, 1);
    assert_eq!(got[0].title, "Hello");
    assert_eq!(got[0].body, "World");
    assert!(!got[0].published);

    let err = get_post(&store, 999).unwrap_err();
    assert_eq!(err.0, 404);
}

#[test]
fn get_post_response_maps_rows_and_rejects_empty() {
    let empty: Vec<Post> = Vec::new();
    let err = get_post_response(&empty).unwrap_err();
    assert_eq!(err.0, 404);
    assert_eq!(err.1, "Post not found");

    let rows = vec![Post {
        id: 7,
        title: "t".to_string(),
        body: "b".to_string(),
        published: true,
    }];
    let dtos = get_post_response(&rows).unwrap();
    assert_eq!(dtos.len(), 1);
    assert_eq!(dtos[0].id, 7);
    assert_eq!(dtos[0].title, "t");
    assert_eq!(dtos[0].body, "b");
    assert!(dtos[0].published);
}

#[test]
fn posts_to_dtos_keeps_fields_and_order() {
    let rows = vec![
        Post {
            id: 1,
            title: "first".to_string(),
            body: "b1".to_string(),
            published: false,
        },
        Post {
            id: 2,
            title: "second".to_string(),
            body: "b2".to_string(),
            published: true,
        },
    ];
    let dtos = posts_to_dtos(&rows);
    assert_eq!(dtos.len(), 2);
    assert_eq!(dtos[0].id, 1);
    assert_eq!(dtos[0].title, "first");
    assert_eq!(dtos[0].body, "b1");
    assert!(!dtos[0].published);
    assert_eq!(dtos[1].id, 2);
    assert_eq!(dtos[1].title, "second");
    assert_eq!(dtos[1].body, "b2");
    assert!(dtos[1].published);
}

#[test]
fn post_to_dto_mirrors_every_field() {
    let row = Post {
        id: 42,
        title: "a title".to_string(),
        body: "a body".to_string(),
        published: true,
    };
    let d = post_to_dto(&row);
    assert_eq!(d.id, 42);
    assert_eq!(d.title, "a title");
    assert_eq!(d.body, "a body");
    assert!(d.published);
}

#[test]
fn query_returns_the_matching_row_or_nothing() {
    let mut store = PostStore::new();
    create_post(&mut store, request("Hello", "World")).unwrap();
    let hit = store.query(1);
    assert_eq!(hit.len(), 1);
    assert_eq!(hit[0].id, 1);
    assert_eq!(hit[0].title, "Hello");
    let miss = store.query(2);
    assert!(miss.is_empty());
}

#[test]
fn duplicate_copies_a_row_unchanged() {
    let row = Post {
        id: 5,
        title: "t".to_string(),
        body: "b".to_string(),
        published: false,
    };
    let copy = row.duplicate();
    assert_eq!(copy.id, row.id);
    assert_eq!(copy.title, row.title);
    assert_eq!(copy.body, row.body);
    assert_eq!(copy.published, row.published);
}
