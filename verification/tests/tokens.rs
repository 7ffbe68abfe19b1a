use szurubooru_client::catalogs::PostNamedToken;
use szurubooru_client::catalogs::PostSortToken;
use szurubooru_client::catalogs::PostSpecialToken;
use szurubooru_client::catalogs::TagNamedToken;
use szurubooru_client::tokens::NamedToken;
use szurubooru_client::tokens::QueryToken;
use szurubooru_client::tokens::SortableToken;
use szurubooru_client::tokens::ToQueryString;

#[test]
fn test_query_token() {
    let qt = QueryToken::token(PostNamedToken::CommentCount.as_str(), "1");
    assert_eq!(qt.to_string(), "comment-count:1");

    let qt = qt.negate();
    assert_eq!(qt.to_string(), "-comment-count:1");

    let qt = QueryToken::sort(PostSortToken::Random.as_str());
    assert_eq!(qt.to_string(), "sort:random");

    let qt = QueryToken::token(TagNamedToken::Name.as_str(), "re:zero");
    assert_eq!(qt.to_string(), r#"name:re\:zero"#);

    let qt = QueryToken::special(PostSpecialToken::Liked);
    assert_eq!(qt.to_string(), "liked");

    let qt = QueryToken::anonymous("foo");
    assert_eq!(qt.to_string(), "foo");
}

#[test]
fn test_vec_query() {
    let query_vec = vec![
        QueryToken::token(PostNamedToken::CommentCount.as_str(), "1"),
        QueryToken::sort(PostSortToken::Random.as_str()),
    ];

    assert_eq!(query_vec.to_query_string(), "comment-count:1 sort:random");
}

#[test]
fn escaping_replaces_colons_then_hyphens() {
    let qt = QueryToken::token("x", "a:b-c");
    assert_eq!(qt.value, r#"a\:b\-c"#);
    assert_eq!(qt.key, "x");

    // The colon pass runs first, so an input backslash-colon is not
    // re-escaped into a double backslash: only the colon itself gains one.
    let qt = QueryToken::token("k", r#"\:"#);
    assert_eq!(qt.value, r#"\\:"#);

    let qt = QueryToken::token("k", "");
    assert_eq!(qt.value, "");
}

#[test]
fn negate_twice_restores_the_key() {
    let qt = QueryToken::token("tag", "cat");
    let back = qt.negate().negate();
    assert_eq!(back.key, "tag");
    assert_eq!(back.value, "cat");

    let qt = QueryToken::token("-excluded", "v");
    let back = qt.negate().negate();
    assert_eq!(back.key, "-excluded");
    assert_eq!(back.value, "v");
}

#[test]
fn rendering_single_tokens() {
    assert_eq!(QueryToken::token("score", "").to_string(), "score");
    assert_eq!(QueryToken::token("tag", "cat").to_string(), "tag:cat");
}

#[test]
fn rendering_empty_collection_is_empty() {
    let empty: Vec<QueryToken> = Vec::new();
    assert_eq!(empty.to_query_string(), "");
}

#[test]
fn rendering_joins_in_order_with_single_spaces() {
    let query_vec = vec![
        QueryToken::token("comment-count", "1"),
        QueryToken::sort("random"),
    ];
    assert_eq!(query_vec.to_query_string(), "comment-count:1 sort:random");

    let one = vec![QueryToken::anonymous("solo")];
    assert_eq!(one.to_query_string(), "solo");
}

#[test]
fn anonymous_escapes_the_key() {
    let qt = QueryToken::anonymous("re:zero");
    assert_eq!(qt.key, "re\\:zero");
    assert_eq!(qt.value, "");
}
