//! Which records a request is about: those that the client named, and no others.
use time::Date;
use vstd::prelude::*;

use crate::comment::{
    comment_titled, comments_of, CommentView, GetPostComment, GetPostCommentView, PostCommentLike,
    PostCommentLikeView, PostNewComment, PostNewCommentView,
};
use crate::conversation::conversation;
use crate::dialogue::{CommandView, FailureView, Handler, RecordView, ReplyView};
use crate::follow::{PostUserFollow, PostUserFollowView};
use crate::laws::delivery::announcement_reaches_followers;
use crate::laws::storage::{
    fresh, listing_gives_stored_comments, news_of_post, post_is_published, records_of,
    registered_user_is_found, stored_comment_is_listed,
};
use crate::mongo::{operation, text_field, FieldView, Fields};
use crate::post::{
    post_key, PostNewPost, PostNewPostView, PostPostLike, PostPostLikeView, PostView,
};
use crate::user::{GetUser, GetUserView, PostNewUser, PostNewUserView, UserView};
use crate::world::{
    kept_out, lemma_step, lemma_words_differ, matches_of, meets, no_match, only_match, served,
    text_of, updated_at, worlds_of, Setup, Stored, World,
};

verus! {

/// The filter of a command, if it has one.
pub open spec fn filter_of(command: CommandView) -> Fields {
    match command {
        CommandView::FindOne { filter, .. } => filter,
        CommandView::FindOneAndUpdate { filter, .. } => filter,
        CommandView::Find { filter, .. } => filter,
        _ => Seq::empty(),
    }
}

/// A record meets a filter on one text exactly if it has the text.
proof fn lemma_meets_one(record: RecordView, key: Seq<char>, text: Seq<char>)
    ensures
        meets(record, text_field(key, text)) <==> text_of(record, key) == Some(text),
{
    let filter = text_field(key, text);
    assert(filter[0] == (key, FieldView::Text(text)));
}

/// A record meets two filters put together exactly if it meets both.
proof fn lemma_meets_both(record: RecordView, one: Fields, other: Fields)
    ensures
        meets(record, one + other) <==> meets(record, one) && meets(record, other),
{
    let both = one + other;
    if meets(record, both) {
        assert forall|i: int| 0 <= i < one.len() implies ((#[trigger] one[i]).1
            matches FieldView::Text(text) && text_of(record, one[i].0) == Some(text)) by {
            assert(both[i] == one[i]);
        }
        assert forall|i: int| 0 <= i < other.len() implies ((#[trigger] other[i]).1
            matches FieldView::Text(text) && text_of(record, other[i].0) == Some(text)) by {
            assert(both[one.len() + i] == other[i]);
        }
    }
    if meets(record, one) && meets(record, other) {
        assert forall|i: int| 0 <= i < both.len() implies ((#[trigger] both[i]).1
            matches FieldView::Text(text) && text_of(record, both[i].0) == Some(text)) by {
            if i < one.len() {
                assert(both[i] == one[i]);
            } else {
                assert(both[i] == other[i - one.len()]);
            }
        }
    }
}

/// Which user a request is about: the one whose username the client named. A
/// like is about the liker, a publication about the author.
pub proof fn users_are_selected_by_username(
    user: UserView,
    username: Seq<char>,
    follower: Seq<char>,
    post: PostView,
    title: Seq<char>,
    liker: Seq<char>,
)
    ensures
        meets(
            RecordView::User(user),
            filter_of(GetUser::pending(GetUserView::Find { username })),
        ) <==> user.username == username,
        meets(
            RecordView::User(user),
            filter_of(
                PostUserFollow::pending(PostUserFollowView::UpdateUser { username, follower }),
            ),
        ) <==> user.username == username,
        meets(
            RecordView::User(user),
            filter_of(PostNewPost::pending(PostNewPostView::UpdateUser { post })),
        ) <==> user.username == post.author,
        meets(
            RecordView::User(user),
            filter_of(
                PostPostLike::pending(PostPostLikeView::UpdateUser { username, title, liker }),
            ),
        ) <==> user.username == liker,
{
    lemma_meets_one(RecordView::User(user), "username"@, username);
    lemma_meets_one(RecordView::User(user), "username"@, post.author);
    lemma_meets_one(RecordView::User(user), "username"@, liker);
}

/// Which post a request is about: the one whose author and title the client
/// named.
pub proof fn posts_are_selected_by_author_and_title(
    post: PostView,
    username: Seq<char>,
    title: Seq<char>,
    user: UserView,
    comment: CommentView,
)
    ensures
        meets(
            RecordView::Post(post),
            filter_of(
                GetPostComment::pending(
                    GetPostCommentView::FindPost { username, post_title: title },
                ),
            ),
        ) <==> post.author == username && post.title == title,
        meets(
            RecordView::Post(post),
            filter_of(
                PostPostLike::pending(PostPostLikeView::UpdatePost { username, title, user }),
            ),
        ) <==> post.author == username && post.title == title,
        meets(
            RecordView::Post(post),
            filter_of(PostNewComment::pending(PostNewCommentView::UpdatePost { comment })),
        ) <==> post.author == comment.post_author && post.title == comment.post_title,
{
    let record = RecordView::Post(post);
    lemma_words_differ();
    lemma_meets_one(record, "author"@, username);
    lemma_meets_one(record, "title"@, title);
    lemma_meets_both(record, text_field("author"@, username), text_field("title"@, title));
    lemma_meets_one(record, "author"@, comment.post_author);
    lemma_meets_one(record, "title"@, comment.post_title);
    lemma_meets_both(
        record,
        text_field("author"@, comment.post_author),
        text_field("title"@, comment.post_title),
    );
}

/// Which comments a listing is about: those on the post that the client named.
pub proof fn listed_comments_are_on_named_post(
    comment: CommentView,
    username: Seq<char>,
    post_title: Seq<char>,
)
    ensures
        meets(
            RecordView::Comment(comment),
            filter_of(
                GetPostComment::pending(
                    GetPostCommentView::FindComments { username, post_title },
                ),
            ),
        ) <==> comment.post_author == username && comment.post_title == post_title,
{
    let record = RecordView::Comment(comment);
    lemma_words_differ();
    lemma_meets_one(record, "post_author"@, username);
    lemma_meets_one(record, "post_title"@, post_title);
    lemma_meets_both(
        record,
        text_field("post_author"@, username),
        text_field("post_title"@, post_title),
    );
}

/// Which comment a like is about: the one on the post that the client named,
/// with the title that the client named.
pub proof fn liked_comment_is_selected_by_post_and_title(
    comment: CommentView,
    user_id: Seq<char>,
    post_title: Seq<char>,
    comment_title: Seq<char>,
    liker: Seq<char>,
)
    ensures
        meets(
            RecordView::Comment(comment),
            filter_of(
                PostCommentLike::pending(
                    PostCommentLikeView::UpdateComment {
                        user_id,
                        post_title,
                        comment_title,
                        liker,
                    },
                ),
            ),
        ) <==> comment.post_author == user_id && comment.post_title == post_title
            && comment.title == comment_title,
{
    let record = RecordView::Comment(comment);
    lemma_words_differ();
    lemma_meets_one(record, "post_title"@, post_title);
    lemma_meets_one(record, "post_author"@, user_id);
    lemma_meets_one(record, "title"@, comment_title);
    let on_post = text_field("post_title"@, post_title) + text_field("post_author"@, user_id);
    lemma_meets_both(
        record,
        text_field("post_title"@, post_title),
        text_field("post_author"@, user_id),
    );
    lemma_meets_both(record, on_post, text_field("title"@, comment_title));
}

/// A like of a comment that succeeds is answered with the comment that the
/// client named, and the client's liker is among its likers. A comment of
/// another title or on another post stays as it is.
pub proof fn liked_comment_is_the_named_one(
    setup: Setup,
    user_id: Seq<char>,
    post_title: Seq<char>,
    comment_title: Seq<char>,
    liker: Seq<char>,
    replies: Seq<ReplyView>,
    before: World,
    after: World,
    comment: CommentView,
    place: int,
)
    requires
        served::<PostCommentLike>(
            setup,
            PostCommentLikeView::UpdateComment { user_id, post_title, comment_title, liker },
            replies,
            before,
            after,
        ),
        conversation::<PostCommentLike>(
            PostCommentLikeView::UpdateComment { user_id, post_title, comment_title, liker },
            replies,
        ).outcome == Some(Ok::<CommentView, FailureView>(comment)),
    ensures
        comment.post_author == user_id,
        comment.post_title == post_title,
        comment.title == comment_title,
        comment.likers.contains(liker),
        0 <= place < before.documents("comment"@).len() ==> {
            let stored = before.documents("comment"@)[place];
            (stored.record matches RecordView::Comment(other) && (other.post_author != user_id
                || other.post_title != post_title || other.title != comment_title))
                ==> after.documents("comment"@)[place] == stored
        },
{
    let start = PostCommentLikeView::UpdateComment { user_id, post_title, comment_title, liker };
    let worlds = worlds_of::<PostCommentLike>(setup, start, replies, before, after);
    lemma_words_differ();
    lemma_step::<PostCommentLike>(setup, start, replies, worlds, 0);
    lemma_step::<PostCommentLike>(setup, start, replies, worlds, 1);
    lemma_step::<PostCommentLike>(setup, start, replies, worlds, 2);
    lemma_step::<PostCommentLike>(setup, start, replies, worlds, 3);
    lemma_step::<PostCommentLike>(setup, start, replies, worlds, 4);
    let comments = before.documents("comment"@);
    assert forall|i: int| 0 <= i < comments.len() implies ((#[trigger] comments[i]).record
        matches RecordView::Comment(other) ==> (meets(
        comments[i].record,
        filter_of(PostCommentLike::pending(start)),
    ) <==> other.post_author == user_id && other.post_title == post_title && other.title
        == comment_title)) by {
        if let RecordView::Comment(other) = comments[i].record {
            liked_comment_is_selected_by_post_and_title(
                other,
                user_id,
                post_title,
                comment_title,
                liker,
            );
        }
    }
    let liked = choose|i: int|
        #[trigger] updated_at(
            worlds[0],
            "comment"@,
            comment_titled(user_id, post_title, comment_title),
            operation("$addToSet"@, "likers"@, FieldView::Text(liker)),
            true,
            RecordView::Comment(comment),
            worlds[1],
            i,
        );
    assert(comments[liked].record is Comment);
    let found = comments[liked].record->Comment_0;
    assert(comment.likers.contains(liker)) by {
        if !found.likers.contains(liker) {
            assert(comment.likers == found.likers.push(liker));
            assert(comment.likers.last() == liker);
        }
    }
}

/// A listing that succeeds answers with comments on the post that the client
/// named, and with every stored comment on it.
pub proof fn listing_is_of_the_named_post(
    setup: Setup,
    author: Seq<char>,
    title: Seq<char>,
    replies: Seq<ReplyView>,
    before: World,
    after: World,
    comments: Seq<CommentView>,
)
    requires
        served::<GetPostComment>(
            setup,
            GetPostCommentView::CacheGet { username: author, post_title: title },
            replies,
            before,
            after,
        ),
        conversation::<GetPostComment>(
            GetPostCommentView::CacheGet { username: author, post_title: title },
            replies,
        ).outcome == Some(Ok::<Seq<CommentView>, FailureView>(comments)),
    ensures
        forall|i: int|
            #![trigger comments[i]]
            0 <= i < comments.len() ==> comments[i].post_author == author
                && comments[i].post_title == title,
        forall|i: int|
            #![trigger before.documents("comment"@)[i]]
            0 <= i < before.documents("comment"@).len() ==> (before.documents(
                "comment"@,
            )[i].record matches RecordView::Comment(comment) ==> (comment.post_author == author
                && comment.post_title == title ==> comments.contains(comment))),
{
    let start = GetPostCommentView::CacheGet { username: author, post_title: title };
    let worlds = worlds_of::<GetPostComment>(setup, start, replies, before, after);
    lemma_step::<GetPostComment>(setup, start, replies, worlds, 0);
    lemma_step::<GetPostComment>(setup, start, replies, worlds, 1);
    listing_gives_stored_comments(setup, author, title, replies, before, after);
    let filter = comments_of(author, title);
    let documents = before.documents("comment"@);
    let all = documents.map_values(|stored: Stored| stored.record);
    let wanted = |record: RecordView| meets(record, filter);
    let found = matches_of(documents, filter);
    let records = records_of(comments);
    found.to_multiset_ensures();
    records.to_multiset_ensures();
    assert forall|i: int| #![trigger comments[i]] 0 <= i < comments.len() implies {
        &&& comments[i].post_author == author
        &&& comments[i].post_title == title
    } by {
        assert(records[i] == RecordView::Comment(comments[i]));
        assert(records.contains(records[i]));
        assert(records.to_multiset().count(records[i]) > 0);
        assert(found.contains(records[i]));
        let at = choose|at: int| 0 <= at < found.len() && found[at] == records[i];
        all.lemma_filter_pred(wanted, at);
        listed_comments_are_on_named_post(comments[i], author, title);
    }
    assert forall|i: int|
        #![trigger before.documents("comment"@)[i]]
        0 <= i < documents.len() implies (before.documents("comment"@)[i].record
        matches RecordView::Comment(comment) ==> (comment.post_author == author
        && comment.post_title == title ==> comments.contains(comment))) by {
        if let RecordView::Comment(comment) = documents[i].record {
            if comment.post_author == author && comment.post_title == title {
                listed_comments_are_on_named_post(comment, author, title);
                assert(all[i] == RecordView::Comment(comment));
                all.lemma_filter_contains(wanted, i);
                assert(found.to_multiset().count(all[i]) > 0);
                assert(records.contains(all[i]));
                let at = choose|at: int| 0 <= at < records.len() && records[at] == all[i];
                assert(comments[at] == comment);
            }
        }
    }
}

/// A lookup that goes to the document store answers with a stored user of the
/// username that the client named.
pub proof fn found_user_has_the_named_username(
    setup: Setup,
    username: Seq<char>,
    replies: Seq<ReplyView>,
    before: World,
    after: World,
    user: UserView,
)
    requires
        !before.cache.contains_key(username),
        served::<GetUser>(
            setup,
            GetUserView::CacheGet { username },
            replies,
            before,
            after,
        ),
        conversation::<GetUser>(GetUserView::CacheGet { username }, replies).outcome == Some(
            Ok::<UserView, FailureView>(user),
        ),
    ensures
        user.username == username,
        exists|i: int|
            0 <= i < before.documents("user"@).len() && (#[trigger] before.documents(
                "user"@,
            )[i]).record == RecordView::User(user),
{
    let start = GetUserView::CacheGet { username };
    let worlds = worlds_of::<GetUser>(setup, start, replies, before, after);
    lemma_step::<GetUser>(setup, start, replies, worlds, 0);
    lemma_step::<GetUser>(setup, start, replies, worlds, 1);
    lemma_step::<GetUser>(setup, start, replies, worlds, 2);
    lemma_step::<GetUser>(setup, start, replies, worlds, 3);
    lemma_meets_one(RecordView::User(user), "username"@, username);
}

/// Whoever registers is found by the username of the registration, with the
/// name, the email and the password of the registration, where no other user
/// has the username and the cache does not have it.
pub proof fn registration_is_found_by_its_username(
    setup: Setup,
    name: Seq<char>,
    username: Seq<char>,
    email: Seq<char>,
    password: Seq<char>,
    date: Date,
    first: Seq<ReplyView>,
    second: Seq<ReplyView>,
    before: World,
    between: World,
    after: World,
)
    requires
        forall|i: int|
            0 <= i < before.documents("user"@).len() ==> !((#[trigger] before.documents(
                "user"@,
            )[i]).record matches RecordView::User(user) && user.username == username),
        forall|i: int|
            0 <= i < before.documents("user"@).len() ==> (#[trigger] before.documents(
                "user"@,
            )[i]).record is User,
        !before.cache.contains_key(username),
        served::<PostNewUser>(
            setup,
            PostNewUserView::Insert {
                user: UserView::registered(name, username, email, password, date),
            },
            first,
            before,
            between,
        ),
        conversation::<PostNewUser>(
            PostNewUserView::Insert {
                user: UserView::registered(name, username, email, password, date),
            },
            first,
        ).outcome matches Some(Ok(_)),
        served::<GetUser>(setup, GetUserView::CacheGet { username }, second, between, after),
    ensures
        conversation::<GetUser>(GetUserView::CacheGet { username }, second).outcome
            matches Some(Ok(user)) && {
            &&& user.name == name
            &&& user.username == username
            &&& user.email == email
            &&& user.password == password
            &&& user.date_of_creation == date
            &&& user.followers.len() == 0
            &&& user.posts.len() == 0
        },
{
    let user = UserView::registered(name, username, email, password, date);
    let users = before.documents("user"@);
    assert(no_match(users, text_field("username"@, username))) by {
        assert forall|i: int| 0 <= i < users.len() implies !meets(
            (#[trigger] users[i]).record,
            text_field("username"@, username),
        ) by {
            lemma_meets_one(users[i].record, "username"@, username);
        }
    }
    registered_user_is_found(setup, user, first, second, before, between, after);
}

/// What is published is what was written: the answer and the stored post have
/// its title, its content and its author, the author's posts end with its
/// title, and the cache has it under author, slash and title.
pub proof fn publication_is_stored_as_written(
    setup: Setup,
    title: Seq<char>,
    content: Seq<char>,
    username: Seq<char>,
    date: Date,
    replies: Seq<ReplyView>,
    before: World,
    after: World,
    place: int,
    author: UserView,
)
    requires
        !kept_out(
            setup,
            before,
            "post"@,
            RecordView::Post(PostView::published(title, content, username, date)),
        ),
        author.username == username,
        0 <= place < before.documents("user"@).len(),
        before.documents("user"@)[place].record == RecordView::User(author),
        forall|i: int|
            0 <= i < before.documents("user"@).len() ==> ((#[trigger] before.documents(
                "user"@,
            )[i]).record matches RecordView::User(user) && (user.username == username ==> i
                == place)),
        served::<PostNewPost>(
            setup,
            PostNewPostView::Insert { post: PostView::published(title, content, username, date) },
            replies,
            before,
            after,
        ),
    ensures
        conversation::<PostNewPost>(
            PostNewPostView::Insert { post: PostView::published(title, content, username, date) },
            replies,
        ).outcome matches Some(Ok(post)) && {
            &&& post.title == title
            &&& post.content == content
            &&& post.author == username
            &&& after.documents("post"@).len() == before.documents("post"@).len() + 1
            &&& after.documents("post"@).last().record == RecordView::Post(post)
            &&& after.documents("user"@)[place].record matches RecordView::User(user)
            &&& user.posts == author.posts.push(title)
            &&& after.cache.contains_key(username + "/"@ + title)
            &&& after.cache[username + "/"@ + title] == (setup.json)(RecordView::Post(post))
        },
{
    let post = PostView::published(title, content, username, date);
    let users = before.documents("user"@);
    assert(only_match(users, text_field("username"@, username), place)) by {
        assert forall|i: int| 0 <= i < users.len() implies (meets(
            (#[trigger] users[i]).record,
            text_field("username"@, username),
        ) <==> i == place) by {
            lemma_meets_one(users[i].record, "username"@, username);
        }
    }
    post_is_published(setup, post, replies, before, after, place, author);
    lemma_words_differ();
    let record = RecordView::User(UserView { posts: author.posts.push(title), ..author });
    let stored = before.with_documents(
        "post"@,
        before.documents("post"@).push(fresh(RecordView::Post(post))),
    ).with_documents("user"@, users.update(place, Stored { record, ..users[place] })).with_cached(
        post_key(username, title),
        (setup.json)(RecordView::Post(post)),
    ).with_cached(username, (setup.json)(record));
    announcement_reaches_followers(
        stored,
        author.followers,
        news_of_post(setup, post),
        username,
    );
    reveal_strlit("/");
    assert(post_key(username, title).len() > username.len());
}

/// What is commented is what was written: the comment that is answered and that
/// the next listing of its post has is by its writer, with its title and
/// content.
pub proof fn comment_is_listed_as_written(
    setup: Setup,
    post_author: Seq<char>,
    post_title: Seq<char>,
    title: Seq<char>,
    content: Seq<char>,
    author: Seq<char>,
    date: Date,
    first: Seq<ReplyView>,
    second: Seq<ReplyView>,
    before: World,
    between: World,
    after: World,
    answered: CommentView,
)
    requires
        served::<PostNewComment>(
            setup,
            PostNewCommentView::UpdatePost {
                comment: CommentView::written(
                    post_author,
                    post_title,
                    title,
                    content,
                    author,
                    date,
                ),
            },
            first,
            before,
            between,
        ),
        conversation::<PostNewComment>(
            PostNewCommentView::UpdatePost {
                comment: CommentView::written(
                    post_author,
                    post_title,
                    title,
                    content,
                    author,
                    date,
                ),
            },
            first,
        ).outcome == Some(Ok::<CommentView, FailureView>(answered)),
        served::<GetPostComment>(
            setup,
            GetPostCommentView::CacheGet { username: post_author, post_title },
            second,
            between,
            after,
        ),
    ensures
        answered.post_author == post_author,
        answered.post_title == post_title,
        answered.title == title,
        answered.content == content,
        answered.author == author,
        answered.likers.len() == 0,
        conversation::<GetPostComment>(
            GetPostCommentView::CacheGet { username: post_author, post_title },
            second,
        ).outcome matches Some(Ok(comments)) && comments.contains(answered),
{
    let comment = CommentView::written(post_author, post_title, title, content, author, date);
    let start = PostNewCommentView::UpdatePost { comment };
    let worlds = worlds_of::<PostNewComment>(setup, start, first, before, between);
    lemma_step::<PostNewComment>(setup, start, first, worlds, 0);
    lemma_step::<PostNewComment>(setup, start, first, worlds, 1);
    lemma_step::<PostNewComment>(setup, start, first, worlds, 2);
    lemma_step::<PostNewComment>(setup, start, first, worlds, 3);
    lemma_step::<PostNewComment>(setup, start, first, worlds, 4);
    lemma_step::<PostNewComment>(setup, start, first, worlds, 5);
    lemma_step::<PostNewComment>(setup, start, first, worlds, 6);
    stored_comment_is_listed(setup, comment, first, second, before, between, after);
}

} // verus!
