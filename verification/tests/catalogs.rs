use szurubooru_client::catalogs::CommentNamedToken;
use szurubooru_client::catalogs::CommentSortToken;
use szurubooru_client::catalogs::PoolNamedToken;
use szurubooru_client::catalogs::PoolSortToken;
use szurubooru_client::catalogs::PostNamedToken;
use szurubooru_client::catalogs::PostSortToken;
use szurubooru_client::catalogs::PostSpecialToken;
use szurubooru_client::catalogs::SnapshotNamedToken;
use szurubooru_client::catalogs::TagNamedToken;
use szurubooru_client::catalogs::TagSortToken;
use szurubooru_client::catalogs::UserNamedToken;
use szurubooru_client::catalogs::UserSortToken;
use szurubooru_client::tokens::NamedToken;
use szurubooru_client::tokens::SortableToken;
use szurubooru_client::tokens::SpecialToken;

#[test]
fn spellings_are_stable_across_calls() {
    assert_eq!(
        PostNamedToken::CommentCount.as_str(),
        PostNamedToken::CommentCount.as_str()
    );
    assert_eq!(TagSortToken::Random.as_str(), TagSortToken::Random.as_str());
    assert_eq!(
        PostSpecialToken::Tumbleweed.as_str(),
        PostSpecialToken::Tumbleweed.as_str()
    );
}

#[test]
fn named_spellings_are_lowercase_hyphenated() {
    assert_eq!(PostNamedToken::CommentCount.as_str(), "comment-count");
    assert_eq!(PostNamedToken::ContentChecksum.as_str(), "content-checksum");
    assert_eq!(PostNamedToken::Id.as_str(), "id");
    assert_eq!(TagNamedToken::SuggestionCount.as_str(), "suggestion-count");
    assert_eq!(PoolNamedToken::Category.as_str(), "category");
    assert_eq!(CommentNamedToken::Text.as_str(), "text");
    assert_eq!(UserNamedToken::LastLoginDate.as_str(), "last-login-date");
    assert_eq!(SnapshotNamedToken::Operation.as_str(), "operation");
}

#[test]
fn sort_and_special_spellings() {
    assert_eq!(PostSortToken::Random.as_str(), "random");
    assert_eq!(PostSortToken::FeatureDate.as_str(), "feature-date");
    assert_eq!(TagSortToken::ImplicationCount.as_str(), "implication-count");
    assert_eq!(PoolSortToken::PostCount.as_str(), "post-count");
    assert_eq!(CommentSortToken::CreationDate.as_str(), "creation-date");
    assert_eq!(UserSortToken::LastLoginDate.as_str(), "last-login-date");
    assert_eq!(PostSpecialToken::Liked.as_str(), "liked");
    assert_eq!(PostSpecialToken::Tumbleweed.as_str(), "tumbleweed");
}

#[test]
fn aliases_keep_their_own_spellings() {
    // Aliases share a remote meaning but never a spelling: no folding occurs.
    assert_eq!(TagNamedToken::LastEditDate.as_str(), "last-edit-date");
    assert_eq!(TagNamedToken::LastEditTime.as_str(), "last-edit-time");
    assert_eq!(TagNamedToken::EditDate.as_str(), "edit-date");
    assert_eq!(TagNamedToken::EditTime.as_str(), "edit-time");
    assert_eq!(PostNamedToken::ImageAspectRatio.as_str(), "image-aspect-ratio");
    assert_eq!(PostNamedToken::ImageAr.as_str(), "image-ar");
    assert_eq!(PostNamedToken::Ar.as_str(), "ar");
    assert_eq!(PostNamedToken::AspectRatio.as_str(), "aspect-ratio");
    assert_eq!(UserNamedToken::LoginTime.as_str(), "login-time");
}
