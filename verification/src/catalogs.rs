//! Per-resource catalogs of search identifiers: closed enumerations of the
//! named, sort and special tokens each resource accepts, every identifier
//! with one fixed lowercase hyphen-separated wire spelling. Aliases are kept
//! as identifiers of their own, each with its own spelling; nothing is
//! folded client-side.

use vstd::prelude::*;
use crate::tokens::NamedToken;
use crate::tokens::SortableToken;
use crate::tokens::SpecialToken;

verus! {

/// Named query tokens accepted when listing tags.
#[derive(Clone, Copy, Debug)]
pub enum TagNamedToken {
    /// Renders as `name`.
    Name,
    /// Renders as `category`.
    Category,
    /// Renders as `creation-date`.
    CreationDate,
    /// Renders as `last-edit-date`.
    LastEditDate,
    /// Renders as `last-edit-time`.
    LastEditTime,
    /// Renders as `edit-date`.
    EditDate,
    /// Renders as `edit-time`.
    EditTime,
    /// Renders as `usages`.
    Usages,
    /// Renders as `usage-count`.
    UsageCount,
    /// Renders as `post-count`.
    PostCount,
    /// Renders as `suggestion-count`.
    SuggestionCount,
    /// Renders as `implication-count`.
    ImplicationCount,
}

impl NamedToken for TagNamedToken {
    open spec fn spelling(&self) -> Seq<char> {
        match self {
            TagNamedToken::Name => "name"@,
            TagNamedToken::Category => "category"@,
            TagNamedToken::CreationDate => "creation-date"@,
            TagNamedToken::LastEditDate => "last-edit-date"@,
            TagNamedToken::LastEditTime => "last-edit-time"@,
            TagNamedToken::EditDate => "edit-date"@,
            TagNamedToken::EditTime => "edit-time"@,
            TagNamedToken::Usages => "usages"@,
            TagNamedToken::UsageCount => "usage-count"@,
            TagNamedToken::PostCount => "post-count"@,
            TagNamedToken::SuggestionCount => "suggestion-count"@,
            TagNamedToken::ImplicationCount => "implication-count"@,
        }
    }

    fn as_str(&self) -> (s: &'static str) {
        match self {
            TagNamedToken::Name => "name",
            TagNamedToken::Category => "category",
            TagNamedToken::CreationDate => "creation-date",
            TagNamedToken::LastEditDate => "last-edit-date",
            TagNamedToken::LastEditTime => "last-edit-time",
            TagNamedToken::EditDate => "edit-date",
            TagNamedToken::EditTime => "edit-time",
            TagNamedToken::Usages => "usages",
            TagNamedToken::UsageCount => "usage-count",
            TagNamedToken::PostCount => "post-count",
            TagNamedToken::SuggestionCount => "suggestion-count",
            TagNamedToken::ImplicationCount => "implication-count",
        }
    }
}

/// Sort query tokens accepted when listing tags.
#[derive(Clone, Copy, Debug)]
pub enum TagSortToken {
    /// Renders as `random`.
    Random,
    /// Renders as `name`.
    Name,
    /// Renders as `category`.
    Category,
    /// Renders as `creation-date`.
    CreationDate,
    /// Renders as `creation-time`.
    CreationTime,
    /// Renders as `last-edit-date`.
    LastEditDate,
    /// Renders as `last-edit-time`.
    LastEditTime,
    /// Renders as `edit-date`.
    EditDate,
    /// Renders as `edit-time`.
    EditTime,
    /// Renders as `usages`.
    Usages,
    /// Renders as `usage-count`.
    UsageCount,
    /// Renders as `post-count`.
    PostCount,
    /// Renders as `suggestion-count`.
    SuggestionCount,
    /// Renders as `implication-count`.
    ImplicationCount,
}

impl SortableToken for TagSortToken {
    open spec fn spelling(&self) -> Seq<char> {
        match self {
            TagSortToken::Random => "random"@,
            TagSortToken::Name => "name"@,
            TagSortToken::Category => "category"@,
            TagSortToken::CreationDate => "creation-date"@,
            TagSortToken::CreationTime => "creation-time"@,
            TagSortToken::LastEditDate => "last-edit-date"@,
            TagSortToken::LastEditTime => "last-edit-time"@,
            TagSortToken::EditDate => "edit-date"@,
            TagSortToken::EditTime => "edit-time"@,
            TagSortToken::Usages => "usages"@,
            TagSortToken::UsageCount => "usage-count"@,
            TagSortToken::PostCount => "post-count"@,
            TagSortToken::SuggestionCount => "suggestion-count"@,
            TagSortToken::ImplicationCount => "implication-count"@,
        }
    }

    fn as_str(&self) -> (s: &'static str) {
        match self {
            TagSortToken::Random => "random",
            TagSortToken::Name => "name",
            TagSortToken::Category => "category",
            TagSortToken::CreationDate => "creation-date",
            TagSortToken::CreationTime => "creation-time",
            TagSortToken::LastEditDate => "last-edit-date",
            TagSortToken::LastEditTime => "last-edit-time",
            TagSortToken::EditDate => "edit-date",
            TagSortToken::EditTime => "edit-time",
            TagSortToken::Usages => "usages",
            TagSortToken::UsageCount => "usage-count",
            TagSortToken::PostCount => "post-count",
            TagSortToken::SuggestionCount => "suggestion-count",
            TagSortToken::ImplicationCount => "implication-count",
        }
    }
}

/// Named query tokens accepted when listing posts.
#[derive(Clone, Copy, Debug)]
pub enum PostNamedToken {
    /// Renders as `id`.
    Id,
    /// Renders as `tag`.
    Tag,
    /// Renders as `score`.
    Score,
    /// Renders as `uploader`.
    Uploader,
    /// Renders as `upload`.
    Upload,
    /// Renders as `submit`.
    Submit,
    /// Renders as `comment`.
    Comment,
    /// Renders as `fav`.
    Fav,
    /// Renders as `pool`.
    Pool,
    /// Renders as `tag-count`.
    TagCount,
    /// Renders as `comment-count`.
    CommentCount,
    /// Renders as `fav-count`.
    FavCount,
    /// Renders as `note-count`.
    NoteCount,
    /// Renders as `note-text`.
    NoteText,
    /// Renders as `relation-count`.
    RelationCount,
    /// Renders as `feature-count`.
    FeatureCount,
    /// Renders as `type`.
    Type,
    /// Renders as `content-checksum`.
    ContentChecksum,
    /// Renders as `file-size`.
    FileSize,
    /// Renders as `image-width`.
    ImageWidth,
    /// Renders as `image-height`.
    ImageHeight,
    /// Renders as `image-area`.
    ImageArea,
    /// Renders as `image-aspect-ratio`.
    ImageAspectRatio,
    /// Renders as `image-ar`.
    ImageAr,
    /// Renders as `width`.
    Width,
    /// Renders as `height`.
    Height,
    /// Renders as `ar`.
    Ar,
    /// Renders as `aspect-ratio`.
    AspectRatio,
    /// Renders as `creation-date`.
    CreationDate,
    /// Renders as `creation-time`.
    CreationTime,
    /// Renders as `date`.
    Date,
    /// Renders as `time`.
    Time,
    /// Renders as `last-edit-date`.
    LastEditDate,
    /// Renders as `last-edit-time`.
    LastEditTime,
    /// Renders as `edit-date`.
    EditDate,
    /// Renders as `edit-time`.
    EditTime,
    /// Renders as `comment-date`.
    CommentDate,
    /// Renders as `comment-time`.
    CommentTime,
    /// Renders as `fav-date`.
    FavDate,
    /// Renders as `fav-time`.
    FavTime,
    /// Renders as `feature-date`.
    FeatureDate,
    /// Renders as `feature-time`.
    FeatureTime,
    /// Renders as `safety`.
    Safety,
    /// Renders as `rating`.
    Rating,
}

impl NamedToken for PostNamedToken {
    open spec fn spelling(&self) -> Seq<char> {
        match self {
            PostNamedToken::Id => "id"@,
            PostNamedToken::Tag => "tag"@,
            PostNamedToken::Score => "score"@,
            PostNamedToken::Uploader => "uploader"@,
            PostNamedToken::Upload => "upload"@,
            PostNamedToken::Submit => "submit"@,
            PostNamedToken::Comment => "comment"@,
            PostNamedToken::Fav => "fav"@,
            PostNamedToken::Pool => "pool"@,
            PostNamedToken::TagCount => "tag-count"@,
            PostNamedToken::CommentCount => "comment-count"@,
            PostNamedToken::FavCount => "fav-count"@,
            PostNamedToken::NoteCount => "note-count"@,
            PostNamedToken::NoteText => "note-text"@,
            PostNamedToken::RelationCount => "relation-count"@,
            PostNamedToken::FeatureCount => "feature-count"@,
            PostNamedToken::Type => "type"@,
            PostNamedToken::ContentChecksum => "content-checksum"@,
            PostNamedToken::FileSize => "file-size"@,
            PostNamedToken::ImageWidth => "image-width"@,
            PostNamedToken::ImageHeight => "image-height"@,
            PostNamedToken::ImageArea => "image-area"@,
            PostNamedToken::ImageAspectRatio => "image-aspect-ratio"@,
            PostNamedToken::ImageAr => "image-ar"@,
            PostNamedToken::Width => "width"@,
            PostNamedToken::Height => "height"@,
            PostNamedToken::Ar => "ar"@,
            PostNamedToken::AspectRatio => "aspect-ratio"@,
            PostNamedToken::CreationDate => "creation-date"@,
            PostNamedToken::CreationTime => "creation-time"@,
            PostNamedToken::Date => "date"@,
            PostNamedToken::Time => "time"@,
            PostNamedToken::LastEditDate => "last-edit-date"@,
            PostNamedToken::LastEditTime => "last-edit-time"@,
            PostNamedToken::EditDate => "edit-date"@,
            PostNamedToken::EditTime => "edit-time"@,
            PostNamedToken::CommentDate => "comment-date"@,
            PostNamedToken::CommentTime => "comment-time"@,
            PostNamedToken::FavDate => "fav-date"@,
            PostNamedToken::FavTime => "fav-time"@,
            PostNamedToken::FeatureDate => "feature-date"@,
            PostNamedToken::FeatureTime => "feature-time"@,
            PostNamedToken::Safety => "safety"@,
            PostNamedToken::Rating => "rating"@,
        }
    }

    fn as_str(&self) -> (s: &'static str) {
        match self {
            PostNamedToken::Id => "id",
            PostNamedToken::Tag => "tag",
            PostNamedToken::Score => "score",
            PostNamedToken::Uploader => "uploader",
            PostNamedToken::Upload => "upload",
            PostNamedToken::Submit => "submit",
            PostNamedToken::Comment => "comment",
            PostNamedToken::Fav => "fav",
            PostNamedToken::Pool => "pool",
            PostNamedToken::TagCount => "tag-count",
            PostNamedToken::CommentCount => "comment-count",
            PostNamedToken::FavCount => "fav-count",
            PostNamedToken::NoteCount => "note-count",
            PostNamedToken::NoteText => "note-text",
            PostNamedToken::RelationCount => "relation-count",
            PostNamedToken::FeatureCount => "feature-count",
            PostNamedToken::Type => "type",
            PostNamedToken::ContentChecksum => "content-checksum",
            PostNamedToken::FileSize => "file-size",
            PostNamedToken::ImageWidth => "image-width",
            PostNamedToken::ImageHeight => "image-height",
            PostNamedToken::ImageArea => "image-area",
            PostNamedToken::ImageAspectRatio => "image-aspect-ratio",
            PostNamedToken::ImageAr => "image-ar",
            PostNamedToken::Width => "width",
            PostNamedToken::Height => "height",
            PostNamedToken::Ar => "ar",
            PostNamedToken::AspectRatio => "aspect-ratio",
            PostNamedToken::CreationDate => "creation-date",
            PostNamedToken::CreationTime => "creation-time",
            PostNamedToken::Date => "date",
            PostNamedToken::Time => "time",
            PostNamedToken::LastEditDate => "last-edit-date",
            PostNamedToken::LastEditTime => "last-edit-time",
            PostNamedToken::EditDate => "edit-date",
            PostNamedToken::EditTime => "edit-time",
            PostNamedToken::CommentDate => "comment-date",
            PostNamedToken::CommentTime => "comment-time",
            PostNamedToken::FavDate => "fav-date",
            PostNamedToken::FavTime => "fav-time",
            PostNamedToken::FeatureDate => "feature-date",
            PostNamedToken::FeatureTime => "feature-time",
            PostNamedToken::Safety => "safety",
            PostNamedToken::Rating => "rating",
        }
    }
}

/// Sort query tokens accepted when listing posts.
#[derive(Clone, Copy, Debug)]
pub enum PostSortToken {
    /// Renders as `random`.
    Random,
    /// Renders as `id`.
    Id,
    /// Renders as `score`.
    Score,
    /// Renders as `tag-count`.
    TagCount,
    /// Renders as `comment-count`.
    CommentCount,
    /// Renders as `fav-count`.
    FavCount,
    /// Renders as `note-count`.
    NoteCount,
    /// Renders as `relation-count`.
    RelationCount,
    /// Renders as `feature-count`.
    FeatureCount,
    /// Renders as `file-size`.
    FileSize,
    /// Renders as `image-width`.
    ImageWidth,
    /// Renders as `image-height`.
    ImageHeight,
    /// Renders as `image-area`.
    ImageArea,
    /// Renders as `width`.
    Width,
    /// Renders as `height`.
    Height,
    /// Renders as `area`.
    Area,
    /// Renders as `creation-date`.
    CreationDate,
    /// Renders as `creation-time`.
    CreationTime,
    /// Renders as `date`.
    Date,
    /// Renders as `time`.
    Time,
    /// Renders as `last-edit-date`.
    LastEditDate,
    /// Renders as `last-edit-time`.
    LastEditTime,
    /// Renders as `edit-date`.
    EditDate,
    /// Renders as `edit-time`.
    EditTime,
    /// Renders as `comment-date`.
    CommentDate,
    /// Renders as `comment-time`.
    CommentTime,
    /// Renders as `fav-date`.
    FavDate,
    /// Renders as `fav-time`.
    FavTime,
    /// Renders as `feature-date`.
    FeatureDate,
    /// Renders as `feature-time`.
    FeatureTime,
}

impl SortableToken for PostSortToken {
    open spec fn spelling(&self) -> Seq<char> {
        match self {
            PostSortToken::Random => "random"@,
            PostSortToken::Id => "id"@,
            PostSortToken::Score => "score"@,
            PostSortToken::TagCount => "tag-count"@,
            PostSortToken::CommentCount => "comment-count"@,
            PostSortToken::FavCount => "fav-count"@,
            PostSortToken::NoteCount => "note-count"@,
            PostSortToken::RelationCount => "relation-count"@,
            PostSortToken::FeatureCount => "feature-count"@,
            PostSortToken::FileSize => "file-size"@,
            PostSortToken::ImageWidth => "image-width"@,
            PostSortToken::ImageHeight => "image-height"@,
            PostSortToken::ImageArea => "image-area"@,
            PostSortToken::Width => "width"@,
            PostSortToken::Height => "height"@,
            PostSortToken::Area => "area"@,
            PostSortToken::CreationDate => "creation-date"@,
            PostSortToken::CreationTime => "creation-time"@,
            PostSortToken::Date => "date"@,
            PostSortToken::Time => "time"@,
            PostSortToken::LastEditDate => "last-edit-date"@,
            PostSortToken::LastEditTime => "last-edit-time"@,
            PostSortToken::EditDate => "edit-date"@,
            PostSortToken::EditTime => "edit-time"@,
            PostSortToken::CommentDate => "comment-date"@,
            PostSortToken::CommentTime => "comment-time"@,
            PostSortToken::FavDate => "fav-date"@,
            PostSortToken::FavTime => "fav-time"@,
            PostSortToken::FeatureDate => "feature-date"@,
            PostSortToken::FeatureTime => "feature-time"@,
        }
    }

    fn as_str(&self) -> (s: &'static str) {
        match self {
            PostSortToken::Random => "random",
            PostSortToken::Id => "id",
            PostSortToken::Score => "score",
            PostSortToken::TagCount => "tag-count",
            PostSortToken::CommentCount => "comment-count",
            PostSortToken::FavCount => "fav-count",
            PostSortToken::NoteCount => "note-count",
            PostSortToken::RelationCount => "relation-count",
            PostSortToken::FeatureCount => "feature-count",
            PostSortToken::FileSize => "file-size",
            PostSortToken::ImageWidth => "image-width",
            PostSortToken::ImageHeight => "image-height",
            PostSortToken::ImageArea => "image-area",
            PostSortToken::Width => "width",
            PostSortToken::Height => "height",
            PostSortToken::Area => "area",
            PostSortToken::CreationDate => "creation-date",
            PostSortToken::CreationTime => "creation-time",
            PostSortToken::Date => "date",
            PostSortToken::Time => "time",
            PostSortToken::LastEditDate => "last-edit-date",
            PostSortToken::LastEditTime => "last-edit-time",
            PostSortToken::EditDate => "edit-date",
            PostSortToken::EditTime => "edit-time",
            PostSortToken::CommentDate => "comment-date",
            PostSortToken::CommentTime => "comment-time",
            PostSortToken::FavDate => "fav-date",
            PostSortToken::FavTime => "fav-time",
            PostSortToken::FeatureDate => "feature-date",
            PostSortToken::FeatureTime => "feature-time",
        }
    }
}

/// Special query tokens accepted when listing posts.
#[derive(Clone, Copy, Debug)]
pub enum PostSpecialToken {
    /// Renders as `liked`.
    Liked,
    /// Renders as `disliked`.
    Disliked,
    /// Renders as `fav`.
    Fav,
    /// Renders as `tumbleweed`.
    Tumbleweed,
}

impl SpecialToken for PostSpecialToken {
    open spec fn spelling(&self) -> Seq<char> {
        match self {
            PostSpecialToken::Liked => "liked"@,
            PostSpecialToken::Disliked => "disliked"@,
            PostSpecialToken::Fav => "fav"@,
            PostSpecialToken::Tumbleweed => "tumbleweed"@,
        }
    }

    fn as_str(&self) -> (s: &'static str) {
        match self {
            PostSpecialToken::Liked => "liked",
            PostSpecialToken::Disliked => "disliked",
            PostSpecialToken::Fav => "fav",
            PostSpecialToken::Tumbleweed => "tumbleweed",
        }
    }
}

/// Named query tokens accepted when listing pools.
#[derive(Clone, Copy, Debug)]
pub enum PoolNamedToken {
    /// Renders as `name`.
    Name,
    /// Renders as `category`.
    Category,
    /// Renders as `creation-date`.
    CreationDate,
    /// Renders as `creation-time`.
    CreationTime,
    /// Renders as `last-edit-date`.
    LastEditDate,
    /// Renders as `last-edit-time`.
    LastEditTime,
    /// Renders as `edit-date`.
    EditDate,
    /// Renders as `edit-time`.
    EditTime,
    /// Renders as `post-count`.
    PostCount,
}

impl NamedToken for PoolNamedToken {
    open spec fn spelling(&self) -> Seq<char> {
        match self {
            PoolNamedToken::Name => "name"@,
            PoolNamedToken::Category => "category"@,
            PoolNamedToken::CreationDate => "creation-date"@,
            PoolNamedToken::CreationTime => "creation-time"@,
            PoolNamedToken::LastEditDate => "last-edit-date"@,
            PoolNamedToken::LastEditTime => "last-edit-time"@,
            PoolNamedToken::EditDate => "edit-date"@,
            PoolNamedToken::EditTime => "edit-time"@,
            PoolNamedToken::PostCount => "post-count"@,
        }
    }

    fn as_str(&self) -> (s: &'static str) {
        match self {
            PoolNamedToken::Name => "name",
            PoolNamedToken::Category => "category",
            PoolNamedToken::CreationDate => "creation-date",
            PoolNamedToken::CreationTime => "creation-time",
            PoolNamedToken::LastEditDate => "last-edit-date",
            PoolNamedToken::LastEditTime => "last-edit-time",
            PoolNamedToken::EditDate => "edit-date",
            PoolNamedToken::EditTime => "edit-time",
            PoolNamedToken::PostCount => "post-count",
        }
    }
}

/// Sort query tokens accepted when listing pools.
#[derive(Clone, Copy, Debug)]
pub enum PoolSortToken {
    /// Renders as `random`.
    Random,
    /// Renders as `name`.
    Name,
    /// Renders as `category`.
    Category,
    /// Renders as `creation-date`.
    CreationDate,
    /// Renders as `creation-time`.
    CreationTime,
    /// Renders as `last-edit-date`.
    LastEditDate,
    /// Renders as `last-edit-time`.
    LastEditTime,
    /// Renders as `edit-date`.
    EditDate,
    /// Renders as `edit-time`.
    EditTime,
    /// Renders as `post-count`.
    PostCount,
}

impl SortableToken for PoolSortToken {
    open spec fn spelling(&self) -> Seq<char> {
        match self {
            PoolSortToken::Random => "random"@,
            PoolSortToken::Name => "name"@,
            PoolSortToken::Category => "category"@,
            PoolSortToken::CreationDate => "creation-date"@,
            PoolSortToken::CreationTime => "creation-time"@,
            PoolSortToken::LastEditDate => "last-edit-date"@,
            PoolSortToken::LastEditTime => "last-edit-time"@,
            PoolSortToken::EditDate => "edit-date"@,
            PoolSortToken::EditTime => "edit-time"@,
            PoolSortToken::PostCount => "post-count"@,
        }
    }

    fn as_str(&self) -> (s: &'static str) {
        match self {
            PoolSortToken::Random => "random",
            PoolSortToken::Name => "name",
            PoolSortToken::Category => "category",
            PoolSortToken::CreationDate => "creation-date",
            PoolSortToken::CreationTime => "creation-time",
            PoolSortToken::LastEditDate => "last-edit-date",
            PoolSortToken::LastEditTime => "last-edit-time",
            PoolSortToken::EditDate => "edit-date",
            PoolSortToken::EditTime => "edit-time",
            PoolSortToken::PostCount => "post-count",
        }
    }
}

/// Named query tokens accepted when listing comments.
#[derive(Clone, Copy, Debug)]
pub enum CommentNamedToken {
    /// Renders as `id`.
    Id,
    /// Renders as `post`.
    Post,
    /// Renders as `user`.
    User,
    /// Renders as `author`.
    Author,
    /// Renders as `text`.
    Text,
    /// Renders as `creation-date`.
    CreationDate,
    /// Renders as `creation-time`.
    CreationTime,
    /// Renders as `last-edit-date`.
    LastEditDate,
    /// Renders as `last-edit-time`.
    LastEditTime,
    /// Renders as `edit-date`.
    EditDate,
    /// Renders as `edit-time`.
    EditTime,
}

impl NamedToken for CommentNamedToken {
    open spec fn spelling(&self) -> Seq<char> {
        match self {
            CommentNamedToken::Id => "id"@,
            CommentNamedToken::Post => "post"@,
            CommentNamedToken::User => "user"@,
            CommentNamedToken::Author => "author"@,
            CommentNamedToken::Text => "text"@,
            CommentNamedToken::CreationDate => "creation-date"@,
            CommentNamedToken::CreationTime => "creation-time"@,
            CommentNamedToken::LastEditDate => "last-edit-date"@,
            CommentNamedToken::LastEditTime => "last-edit-time"@,
            CommentNamedToken::EditDate => "edit-date"@,
            CommentNamedToken::EditTime => "edit-time"@,
        }
    }

    fn as_str(&self) -> (s: &'static str) {
        match self {
            CommentNamedToken::Id => "id",
            CommentNamedToken::Post => "post",
            CommentNamedToken::User => "user",
            CommentNamedToken::Author => "author",
            CommentNamedToken::Text => "text",
            CommentNamedToken::CreationDate => "creation-date",
            CommentNamedToken::CreationTime => "creation-time",
            CommentNamedToken::LastEditDate => "last-edit-date",
            CommentNamedToken::LastEditTime => "last-edit-time",
            CommentNamedToken::EditDate => "edit-date",
            CommentNamedToken::EditTime => "edit-time",
        }
    }
}

/// Sort query tokens accepted when listing comments.
#[derive(Clone, Copy, Debug)]
pub enum CommentSortToken {
    /// Renders as `random`.
    Random,
    /// Renders as `user`.
    User,
    /// Renders as `author`.
    Author,
    /// Renders as `post`.
    Post,
    /// Renders as `creation-date`.
    CreationDate,
    /// Renders as `creation-time`.
    CreationTime,
    /// Renders as `last-edit-date`.
    LastEditDate,
    /// Renders as `last-edit-time`.
    LastEditTime,
    /// Renders as `edit-date`.
    EditDate,
    /// Renders as `edit-time`.
    EditTime,
}

impl SortableToken for CommentSortToken {
    open spec fn spelling(&self) -> Seq<char> {
        match self {
            CommentSortToken::Random => "random"@,
            CommentSortToken::User => "user"@,
            CommentSortToken::Author => "author"@,
            CommentSortToken::Post => "post"@,
            CommentSortToken::CreationDate => "creation-date"@,
            CommentSortToken::CreationTime => "creation-time"@,
            CommentSortToken::LastEditDate => "last-edit-date"@,
            CommentSortToken::LastEditTime => "last-edit-time"@,
            CommentSortToken::EditDate => "edit-date"@,
            CommentSortToken::EditTime => "edit-time"@,
        }
    }

    fn as_str(&self) -> (s: &'static str) {
        match self {
            CommentSortToken::Random => "random",
            CommentSortToken::User => "user",
            CommentSortToken::Author => "author",
            CommentSortToken::Post => "post",
            CommentSortToken::CreationDate => "creation-date",
            CommentSortToken::CreationTime => "creation-time",
            CommentSortToken::LastEditDate => "last-edit-date",
            CommentSortToken::LastEditTime => "last-edit-time",
            CommentSortToken::EditDate => "edit-date",
            CommentSortToken::EditTime => "edit-time",
        }
    }
}

/// Named query tokens accepted when listing users.
#[derive(Clone, Copy, Debug)]
pub enum UserNamedToken {
    /// Renders as `name`.
    Name,
    /// Renders as `creation-date`.
    CreationDate,
    /// Renders as `creation-time`.
    CreationTime,
    /// Renders as `last-login-date`.
    LastLoginDate,
    /// Renders as `last-login-time`.
    LastLoginTime,
    /// Renders as `login-date`.
    LoginDate,
    /// Renders as `login-time`.
    LoginTime,
}

impl NamedToken for UserNamedToken {
    open spec fn spelling(&self) -> Seq<char> {
        match self {
            UserNamedToken::Name => "name"@,
            UserNamedToken::CreationDate => "creation-date"@,
            UserNamedToken::CreationTime => "creation-time"@,
            UserNamedToken::LastLoginDate => "last-login-date"@,
            UserNamedToken::LastLoginTime => "last-login-time"@,
            UserNamedToken::LoginDate => "login-date"@,
            UserNamedToken::LoginTime => "login-time"@,
        }
    }

    fn as_str(&self) -> (s: &'static str) {
        match self {
            UserNamedToken::Name => "name",
            UserNamedToken::CreationDate => "creation-date",
            UserNamedToken::CreationTime => "creation-time",
            UserNamedToken::LastLoginDate => "last-login-date",
            UserNamedToken::LastLoginTime => "last-login-time",
            UserNamedToken::LoginDate => "login-date",
            UserNamedToken::LoginTime => "login-time",
        }
    }
}

/// Sort query tokens accepted when listing users.
#[derive(Clone, Copy, Debug)]
pub enum UserSortToken {
    /// Renders as `random`.
    Random,
    /// Renders as `name`.
    Name,
    /// Renders as `creation-date`.
    CreationDate,
    /// Renders as `creation-time`.
    CreationTime,
    /// Renders as `last-login-date`.
    LastLoginDate,
    /// Renders as `last-login-time`.
    LastLoginTime,
    /// Renders as `login-date`.
    LoginDate,
    /// Renders as `login-time`.
    LoginTime,
}

impl SortableToken for UserSortToken {
    open spec fn spelling(&self) -> Seq<char> {
        match self {
            UserSortToken::Random => "random"@,
            UserSortToken::Name => "name"@,
            UserSortToken::CreationDate => "creation-date"@,
            UserSortToken::CreationTime => "creation-time"@,
            UserSortToken::LastLoginDate => "last-login-date"@,
            UserSortToken::LastLoginTime => "last-login-time"@,
            UserSortToken::LoginDate => "login-date"@,
            UserSortToken::LoginTime => "login-time"@,
        }
    }

    fn as_str(&self) -> (s: &'static str) {
        match self {
            UserSortToken::Random => "random",
            UserSortToken::Name => "name",
            UserSortToken::CreationDate => "creation-date",
            UserSortToken::CreationTime => "creation-time",
            UserSortToken::LastLoginDate => "last-login-date",
            UserSortToken::LastLoginTime => "last-login-time",
            UserSortToken::LoginDate => "login-date",
            UserSortToken::LoginTime => "login-time",
        }
    }
}

/// Named query tokens accepted when listing snapshots.
#[derive(Clone, Copy, Debug)]
pub enum SnapshotNamedToken {
    /// Renders as `type`.
    Type,
    /// Renders as `id`.
    Id,
    /// Renders as `date`.
    Date,
    /// Renders as `time`.
    Time,
    /// Renders as `operation`.
    Operation,
    /// Renders as `user`.
    User,
}

impl NamedToken for SnapshotNamedToken {
    open spec fn spelling(&self) -> Seq<char> {
        match self {
            SnapshotNamedToken::Type => "type"@,
            SnapshotNamedToken::Id => "id"@,
            SnapshotNamedToken::Date => "date"@,
            SnapshotNamedToken::Time => "time"@,
            SnapshotNamedToken::Operation => "operation"@,
            SnapshotNamedToken::User => "user"@,
        }
    }

    fn as_str(&self) -> (s: &'static str) {
        match self {
            SnapshotNamedToken::Type => "type",
            SnapshotNamedToken::Id => "id",
            SnapshotNamedToken::Date => "date",
            SnapshotNamedToken::Time => "time",
            SnapshotNamedToken::Operation => "operation",
            SnapshotNamedToken::User => "user",
        }
    }
}

} // verus!
