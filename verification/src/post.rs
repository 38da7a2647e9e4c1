//! Posts and comments: what may be posted, the hashtags in a text, and the
//! answers to likes and lookups.
use crate::text::{
    byte_len, chars_of, holds_text, str_byte_len, str_starts_with, texts_of, without_repeats,
};
use vstd::prelude::*;

verus! {

/// The most bytes the heading of a post may have.
pub const POST_HEADING_MAX_LENGTH: usize = 1000;

/// The most bytes the text of a post may have.
pub const POST_TEXT_MAX_LENGTH: usize = 10000;

/// Sent when heading or text of a post is empty or too long.
pub const MSG_POST_BOUNDS: &'static str =
    "The posts text and body may not be empty and must not exceed the max length (1000 and 10000 characters)";

/// Sent when a comment names its post with the table in front.
pub const MSG_COMMENT_POST_PREFIX: &'static str = "The post id should omit the `Posts:` prefix";

/// Sent when a post is asked for with the table in front of its id.
pub const MSG_POST_ID_PREFIX: &'static str =
    "The post id should not start with `Posts:`. Only send the part after the colon.";

/// Sent when a comment is asked for with the table in front of its id.
pub const MSG_COMMENT_ID_PREFIX: &'static str =
    "The comment id should not start with `commented:`. Only send the part after the colon.";

/// Sent when no post has the id.
pub const MSG_NO_POST: &'static str = "No post with that id could be found";

/// Sent when no comment has the id.
pub const MSG_NO_COMMENT: &'static str = "No comment with that id could be found";

/// Sent when the like could not be written.
pub const MSG_LIKE_FAILED: &'static str = "Failed to register like";

/// Sent when a user likes the same thing again.
pub const MSG_LIKED_ALREADY: &'static str = "You can not like the same resource twice";

/// Sent when the database's answer to a like cannot be read.
pub const MSG_LIKE_UNREADABLE: &'static str = "I have no clue what went wrong";

/// The table of posts, as it stands in front of a post's record id.
pub const POSTS_PREFIX: &'static str = "Posts:";

/// The table of comments, as it stands in front of a comment's record id.
pub const COMMENTS_PREFIX: &'static str = "commented:";

/// What can go wrong when something is posted or liked.
#[non_exhaustive]
#[derive(Clone, Copy, Debug, PartialEq, Eq)]
pub enum PostError {
    /// The user has liked this before.
    LikedAlready(&'static str),
    /// The database failed.
    DatabaseError(&'static str),
    /// The input is not acceptable.
    InvalidInput(&'static str),
    /// An image of the post could not be moved to its place.
    ImageUploadFailed(&'static str),
}

impl PostError {
    /// The HTTP status that the error is answered with.
    pub open spec fn status_of(self) -> u16 {
        match self {
            PostError::LikedAlready(_) => 403,
            PostError::DatabaseError(_) => 500,
            PostError::InvalidInput(_) => 403,
            PostError::ImageUploadFailed(_) => 500,
        }
    }

    /// The HTTP status that the error is answered with.
    pub fn status(&self) -> (code: u16)
        ensures
            code == self.status_of(),
    {
        match self {
            PostError::LikedAlready(_) => 403,
            PostError::DatabaseError(_) => 500,
            PostError::InvalidInput(_) => 403,
            PostError::ImageUploadFailed(_) => 500,
        }
    }
}

/// What can go wrong when posts or comments are read.
#[derive(Clone, Copy, Debug, PartialEq, Eq)]
pub enum GetPostsError {
    InvalidInput(&'static str),
    DatabaseError(&'static str),
    NotFound(&'static str),
}

impl GetPostsError {
    /// The HTTP status that the error is answered with.
    pub open spec fn status_of(self) -> u16 {
        match self {
            GetPostsError::InvalidInput(_) => 400,
            GetPostsError::DatabaseError(_) => 500,
            GetPostsError::NotFound(_) => 404,
        }
    }

    /// The HTTP status that the error is answered with.
    pub fn status(&self) -> (code: u16)
        ensures
            code == self.status_of(),
    {
        match self {
            GetPostsError::InvalidInput(_) => 400,
            GetPostsError::DatabaseError(_) => 500,
            GetPostsError::NotFound(_) => 404,
        }
    }
}

/// A post as a user sends it in.
#[derive(Clone, Debug, PartialEq, Eq)]
pub struct CreatePost {
    /// The heading of the post.
    pub heading: String,
    /// The text body of the post.
    pub text: String,
    /// The ids of the uploaded images that belong to the post, if any.
    pub images: Option<Vec<String>>,
}

/// Whether a heading and a text make a post: neither is empty and neither
/// is longer than its limit.
pub open spec fn post_in_bounds(heading: Seq<char>, text: Seq<char>) -> bool {
    &&& 0 < heading.len()
    &&& byte_len(heading) <= POST_HEADING_MAX_LENGTH
    &&& 0 < text.len()
    &&& byte_len(text) <= POST_TEXT_MAX_LENGTH
}

impl CreatePost {
    /// Checks heading and text against their bounds.
    pub fn validate(&self) -> (r: Result<(), PostError>)
        ensures
            post_in_bounds(self.heading@, self.text@) ==> r == Ok::<(), PostError>(()),
            !post_in_bounds(self.heading@, self.text@) ==> r == Err::<(), PostError>(
                PostError::InvalidInput(MSG_POST_BOUNDS),
            ),
    {
        let heading = self.heading.as_str();
        let text = self.text.as_str();
        if heading.is_empty() || str_byte_len(heading) > POST_HEADING_MAX_LENGTH || text.is_empty()
            || str_byte_len(text) > POST_TEXT_MAX_LENGTH {
            Err(PostError::InvalidInput(MSG_POST_BOUNDS))
        } else {
            Ok(())
        }
    }

    /// Heading and text as one text, a blank between them: what the hashtags
    /// of a post are looked for in.
    pub fn full_text(&self) -> (full: String)
        ensures
            full@ == self.heading@ + " "@ + self.text@,
    {
        let mut full = self.heading.clone();
        full.append(" ");
        full.append(self.text.as_str());
        full
    }
}

/// A comment as a user sends it in.
#[derive(Clone, Debug, PartialEq, Eq)]
pub struct CreateComment {
    pub post: String,
    pub text: String,
}

impl CreateComment {
    /// Checks that the post is named by its bare id, without the table in
    /// front.
    pub fn validate(&self) -> (r: Result<(), PostError>)
        ensures
            POSTS_PREFIX@.is_prefix_of(self.post@) ==> r == Err::<(), PostError>(
                PostError::InvalidInput(MSG_COMMENT_POST_PREFIX),
            ),
            !POSTS_PREFIX@.is_prefix_of(self.post@) ==> r == Ok::<(), PostError>(()),
    {
        if str_starts_with(self.post.as_str(), POSTS_PREFIX) {
            Err(PostError::InvalidInput(MSG_COMMENT_POST_PREFIX))
        } else {
            Ok(())
        }
    }
}

/// The id of a new post.
#[derive(Clone, Debug, PartialEq, Eq)]
pub struct PostId {
    pub id: String,
}

/// The id of a new comment.
#[derive(Clone, Debug, PartialEq, Eq)]
pub struct CommentId {
    pub id: String,
}

/// The post or comment that a like is for, by record id.
#[derive(Clone, Debug, PartialEq, Eq)]
pub struct LikePostOrComment {
    pub subject: String,
}

/// What the database made of a like.
#[derive(Clone, Copy, Debug, PartialEq, Eq, Structural)]
pub enum LikeAnswer {
    /// The query failed.
    Failed,
    /// The query ran but does not say whether the user had liked before.
    Unreadable,
    /// The query ran; the user had, or had not, liked this before.
    LikedBefore(bool),
}

/// The answer to a like.
pub fn like_outcome(answer: LikeAnswer) -> (r: Result<(), PostError>)
    ensures
        r == match answer {
            LikeAnswer::Failed => Err::<(), PostError>(PostError::DatabaseError(MSG_LIKE_FAILED)),
            LikeAnswer::Unreadable => Err::<(), PostError>(
                PostError::DatabaseError(MSG_LIKE_UNREADABLE),
            ),
            LikeAnswer::LikedBefore(true) => Err::<(), PostError>(
                PostError::LikedAlready(MSG_LIKED_ALREADY),
            ),
            LikeAnswer::LikedBefore(false) => Ok::<(), PostError>(()),
        },
{
    match answer {
        LikeAnswer::Failed => Err(PostError::DatabaseError(MSG_LIKE_FAILED)),
        LikeAnswer::Unreadable => Err(PostError::DatabaseError(MSG_LIKE_UNREADABLE)),
        LikeAnswer::LikedBefore(true) => Err(PostError::LikedAlready(MSG_LIKED_ALREADY)),
        LikeAnswer::LikedBefore(false) => Ok(()),
    }
}

/// Checks that a post is asked for by its bare id.
pub fn check_post_id(post_id: &str) -> (r: Result<(), GetPostsError>)
    ensures
        POSTS_PREFIX@.is_prefix_of(post_id@) ==> r == Err::<(), GetPostsError>(
            GetPostsError::InvalidInput(MSG_POST_ID_PREFIX),
        ),
        !POSTS_PREFIX@.is_prefix_of(post_id@) ==> r == Ok::<(), GetPostsError>(()),
{
    if str_starts_with(post_id, POSTS_PREFIX) {
        Err(GetPostsError::InvalidInput(MSG_POST_ID_PREFIX))
    } else {
        Ok(())
    }
}

/// Checks that a comment is asked for by its bare id.
pub fn check_comment_id(comment_id: &str) -> (r: Result<(), GetPostsError>)
    ensures
        COMMENTS_PREFIX@.is_prefix_of(comment_id@) ==> r == Err::<(), GetPostsError>(
            GetPostsError::InvalidInput(MSG_COMMENT_ID_PREFIX),
        ),
        !COMMENTS_PREFIX@.is_prefix_of(comment_id@) ==> r == Ok::<(), GetPostsError>(()),
{
    if str_starts_with(comment_id, COMMENTS_PREFIX) {
        Err(GetPostsError::InvalidInput(MSG_COMMENT_ID_PREFIX))
    } else {
        Ok(())
    }
}

/// A post as it is shown.
#[derive(Clone, Debug, PartialEq, Eq)]
pub struct ViewPost {
    pub id: String,
    pub author: String,
    pub heading: String,
    pub images: Vec<String>,
    pub text: String,
    pub hashtags: Vec<String>,
    pub created_at: String,
    pub comments: Vec<String>,
    pub likes: i32,
}

/// A comment as it is shown.
#[derive(Clone, Debug, PartialEq, Eq)]
pub struct ViewComment {
    pub author: String,
    pub author_id: String,
    pub created_at: String,
    pub hashtags: Vec<String>,
    pub post: String,
    pub likes: usize,
    pub dislikes: usize,
    pub id: String,
    pub text: String,
}

/// The post that a lookup by id has found: the first of the rows, and an
/// error if there is none.
pub fn found_post(mut rows: Vec<ViewPost>) -> (r: Result<ViewPost, GetPostsError>)
    ensures
        rows@.len() == 0 ==> r == Err::<ViewPost, GetPostsError>(
            GetPostsError::NotFound(MSG_NO_POST),
        ),
        rows@.len() > 0 ==> r == Ok::<ViewPost, GetPostsError>(rows@[0]),
{
    if rows.len() == 0 {
        Err(GetPostsError::NotFound(MSG_NO_POST))
    } else {
        Ok(rows.swap_remove(0))
    }
}

/// The comment that a lookup by id has found: the first of the rows, and an
/// error if there is none.
pub fn found_comment(mut rows: Vec<ViewComment>) -> (r: Result<ViewComment, GetPostsError>)
    ensures
        rows@.len() == 0 ==> r == Err::<ViewComment, GetPostsError>(
            GetPostsError::NotFound(MSG_NO_COMMENT),
        ),
        rows@.len() > 0 ==> r == Ok::<ViewComment, GetPostsError>(rows@[0]),
{
    if rows.len() == 0 {
        Err(GetPostsError::NotFound(MSG_NO_COMMENT))
    } else {
        Ok(rows.swap_remove(0))
    }
}

/// The pattern of a hashtag in a text: at the start of the text or after a
/// blank character, a hash sign and one or more word characters.
pub const HASHTAG_PATTERN: &'static str = "(^|\\s)#\\w+";

/// The successive matches, none overlapping another, of a regular expression
/// in a text, from left to right; nothing if the pattern is no regular
/// expression.
pub uninterp spec fn regex_matches(pattern: Seq<char>, haystack: Seq<char>) -> Option<
    Seq<Seq<char>>,
>;

/// The lowercase form of a text.
pub uninterp spec fn lowercase_of(text: Seq<char>) -> Seq<char>;

/// Compiles `pattern` with `Regex::new` of lazy_regex, which is that of the
/// regex crate, and collects the matches that `Regex::find_iter` yields on
/// `haystack`, each as the text `Match::as_str` gives. Believed, not proved:
/// that the result is the matches of the pattern in the text, and nothing
/// where the pattern does not compile.
#[verifier::external_body]
fn find_all(pattern: &str, haystack: &str) -> (found: Option<Vec<String>>)
    ensures
        match found {
            Some(v) => regex_matches(pattern@, haystack@) == Some(texts_of(v@)),
            None => regex_matches(pattern@, haystack@) is None,
        },
{
    match lazy_regex::Regex::new(pattern) {
        Ok(re) => Some(re.find_iter(haystack).map(|m| m.as_str().to_string()).collect()),
        Err(_) => None,
    }
}

/// Calls `str::to_lowercase`. Believed, not proved: that the result is the
/// lowercase form of the text.
#[verifier::external_body]
fn lowercase(text: &str) -> (low: String)
    ensures
        low@ == lowercase_of(text@),
{
    text.to_lowercase()
}

/// A text without the blank or tab that it may begin with.
pub open spec fn without_leading_blank(text: Seq<char>) -> Seq<char> {
    if text.len() > 0 && (text[0] == ' ' || text[0] == '\t') {
        text.drop_first()
    } else {
        text
    }
}

/// The hashtag that a match of the pattern stands for: the match in lower
/// case, without the blank or tab that may stand in front of the hash sign.
pub open spec fn tag_of(found: Seq<char>) -> Seq<char> {
    without_leading_blank(lowercase_of(found))
}

/// The hashtags that the matches of the pattern stand for, each once, in the
/// order in which they first occur.
pub open spec fn tags_of(found: Seq<Seq<char>>) -> Seq<Seq<char>> {
    without_repeats(found.map_values(|m: Seq<char>| tag_of(m)))
}

/// Takes one blank or tab off the front of a text, if it begins with one.
pub fn trim_leading_blank(text: String) -> (trimmed: String)
    ensures
        trimmed@ == without_leading_blank(text@),
{
    let chars = chars_of(text.as_str());
    if chars.len() > 0 && (chars[0] == ' ' || chars[0] == '\t') {
        let rest = text.as_str().substring_char(1, chars.len());
        assert(rest@ =~= text@.drop_first());
        String::from_str(rest)
    } else {
        text
    }
}

/// The hashtag that a match of the pattern stands for.
pub fn hashtag_of_match(found: &str) -> (tag: String)
    ensures
        tag@ == tag_of(found@),
{
    trim_leading_blank(lowercase(found))
}

/// The texts with every later occurrence of a text taken out.
pub fn keep_first_occurrences(texts: Vec<String>) -> (kept: Vec<String>)
    ensures
        texts_of(kept@) == without_repeats(texts_of(texts@)),
{
    let ghost all = texts_of(texts@);
    let mut kept: Vec<String> = Vec::new();
    let mut i: usize = 0;
    assert(all.take(0) =~= Seq::<Seq<char>>::empty());
    assert(texts_of(kept@) =~= Seq::<Seq<char>>::empty());
    while i < texts.len()
        invariant
            i <= texts.len(),
            all == texts_of(texts@),
            texts_of(kept@) == without_repeats(all.take(i as int)),
        decreases texts.len() - i,
    {
        let ghost before = texts_of(kept@);
        proof {
            assert(all.take(i + 1).drop_last() =~= all.take(i as int));
            assert(all.take(i + 1).last() == texts@[i as int]@);
        }
        if !holds_text(&kept, &texts[i]) {
            let text = texts[i].clone();
            kept.push(text);
            assert(texts_of(kept@) =~= before.push(texts@[i as int]@));
        }
        i += 1;
    }
    assert(all.take(i as int) =~= all);
    kept
}

/// The hashtags that the matches of the pattern stand for, each once, in the
/// order in which they first occur.
pub fn hashtags_of_matches(found: &Vec<String>) -> (tags: Vec<String>)
    ensures
        texts_of(tags@) == tags_of(texts_of(found@)),
{
    let mut tags: Vec<String> = Vec::new();
    let mut i: usize = 0;
    while i < found.len()
        invariant
            i <= found.len(),
            tags@.len() == i,
            forall|k: int| 0 <= k < i ==> (#[trigger] tags@[k])@ == tag_of(found@[k]@),
        decreases found.len() - i,
    {
        tags.push(hashtag_of_match(found[i].as_str()));
        i += 1;
    }
    assert(texts_of(tags@) =~= texts_of(found@).map_values(|m: Seq<char>| tag_of(m)));
    keep_first_occurrences(tags)
}

/// The hashtags of a text, each once, in lower case, in the order in which
/// they first occur.
pub fn extract_hashtags(text: String) -> (tags: Vec<String>)
    ensures
        match regex_matches(HASHTAG_PATTERN@, text@) {
            Some(found) => texts_of(tags@) == tags_of(found),
            None => tags@.len() == 0,
        },
{
    match find_all(HASHTAG_PATTERN, text.as_str()) {
        Some(found) => hashtags_of_matches(&found),
        None => Vec::new(),
    }
}

} // verus!
