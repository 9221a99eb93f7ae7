//! What requests make of the document store and the cache, where these do what
//! they are asked and nobody else is at work.
use vstd::prelude::*;

use crate::comment::{
    comment_titled, comments_of, CommentView, GetPostComment, GetPostCommentView,
    PostCommentLike, PostCommentLikeView, PostNewComment, PostNewCommentView,
};
use crate::conversation::{
    answer_follows_last_reply, commands_are_pending, conversation, reached, reached_states_ask,
};
use crate::dialogue::{internal_error, CommandView, FailureView, RecordView, ReplyView};
use crate::follow::{PostUserFollow, PostUserFollowView};
use crate::laws::restraint::lemma_publication_reached;
use crate::laws::sharing::{
    comment_like_tells_comment_author, messages_for, post_like_tells_post_owner,
};
use crate::mongo::{needed_indexes, text_field, FieldView, Fields};
use crate::notification::NotificationView;
use crate::post::{
    post_key, PostNewPost, PostNewPostView, PostPostLike, PostPostLikeView, PostView,
};
use crate::user::{GetUser, GetUserView, PostNewUser, PostNewUserView, UserView};
use crate::world::{
    collide, history, kept_out, lemma_last_in_a_row, lemma_step, lemma_told_one_more,
    lemma_words_differ, matches_of, meets, no_match, only_match, served, served_in_a_row,
    text_of, with_text, worlds_of, Setup, Stored, World,
};

verus! {

/// A user who meets the filter for a username has it.
proof fn lemma_username_is_met(user: UserView, username: Seq<char>)
    requires
        meets(RecordView::User(user), text_field("username"@, username)),
    ensures
        user.username == username,
{
    let filter = text_field("username"@, username);
    assert(filter[0].1 == FieldView::Text(username));
}

/// A user with more followers.
pub open spec fn followed_by(user: UserView, followers: Seq<Seq<char>>) -> UserView {
    UserView { followers: user.followers + followers, ..user }
}

/// The message that tells of a follower.
pub open spec fn news_of_follower(setup: Setup, follower: Seq<char>) -> Seq<u8> {
    (setup.json)(
        RecordView::Notification(NotificationView::NewFollower { username: follower }),
    )
}

/// A follow adds the follower to the user's record, after those who were
/// there, and changes no other document. The cache gets the new record, and the
/// user is told.
pub proof fn follow_adds_follower(
    setup: Setup,
    username: Seq<char>,
    follower: Seq<char>,
    replies: Seq<ReplyView>,
    before: World,
    after: World,
    place: int,
    user: UserView,
)
    requires
        only_match(before.documents("user"@), text_field("username"@, username), place),
        before.documents("user"@)[place].record == RecordView::User(user),
        served::<PostUserFollow>(
            setup,
            PostUserFollowView::UpdateUser { username, follower },
            replies,
            before,
            after,
        ),
    ensures
        conversation::<PostUserFollow>(
            PostUserFollowView::UpdateUser { username, follower },
            replies,
        ).outcome == Some(Ok::<(), FailureView>(())),
        ({
            let users = before.documents("user"@);
            let record = RecordView::User(followed_by(user, seq![follower]));
            after == before.with_documents(
                "user"@,
                users.update(place, Stored { record, ..users[place] }),
            ).with_cached(username, (setup.json)(record)).told(
                username,
                news_of_follower(setup, follower),
            )
        }),
{
    let start = PostUserFollowView::UpdateUser { username, follower };
    let worlds = worlds_of::<PostUserFollow>(setup, start, replies, before, after);
    lemma_words_differ();
    lemma_step::<PostUserFollow>(setup, start, replies, worlds, 0);
    lemma_username_is_met(user, username);
    assert(user.followers.push(follower) =~= user.followers + seq![follower]);
    lemma_step::<PostUserFollow>(setup, start, replies, worlds, 1);
    lemma_step::<PostUserFollow>(setup, start, replies, worlds, 2);
    lemma_step::<PostUserFollow>(setup, start, replies, worlds, 3);
    lemma_step::<PostUserFollow>(setup, start, replies, worlds, 4);
    lemma_step::<PostUserFollow>(setup, start, replies, worlds, 5);
}

/// The messages that tell of followers.
pub open spec fn news_of_followers(setup: Setup, followers: Seq<Seq<char>>) -> Seq<Seq<u8>> {
    followers.map_values(|follower: Seq<char>| news_of_follower(setup, follower))
}

/// The starts of follows of one user.
pub open spec fn follow_starts(
    username: Seq<char>,
    followers: Seq<Seq<char>>,
) -> Seq<PostUserFollowView> {
    followers.map_values(
        |follower: Seq<char>| PostUserFollowView::UpdateUser { username, follower },
    )
}

/// Follows add the followers to the user's record, in order and each as often
/// as it comes, and change no other document. Once there was one, the cache
/// has the record as the document store has it, and no other entry has
/// changed. The user is told of each, in order.
pub proof fn follows_add_followers_in_order(
    setup: Setup,
    username: Seq<char>,
    followers: Seq<Seq<char>>,
    replies: Seq<Seq<ReplyView>>,
    worlds: Seq<World>,
    place: int,
    user: UserView,
)
    requires
        only_match(worlds[0].documents("user"@), text_field("username"@, username), place),
        worlds[0].documents("user"@)[place].record == RecordView::User(user),
        served_in_a_row::<PostUserFollow>(
            setup,
            follow_starts(username, followers),
            replies,
            worlds,
        ),
    ensures
        ({
            let users = worlds[0].documents("user"@);
            let record = RecordView::User(followed_by(user, followers));
            let stored = worlds[0].with_documents(
                "user"@,
                users.update(place, Stored { record, ..users[place] }),
            );
            let cached = if followers.len() == 0 {
                stored
            } else {
                stored.with_cached(username, (setup.json)(record))
            };
            worlds.last() == cached.told_all(username, news_of_followers(setup, followers))
        }),
    decreases followers.len(),
{
    let users = worlds[0].documents("user"@);
    if followers.len() == 0 {
        assert(followed_by(user, followers).followers =~= user.followers);
        assert(users.update(place, users[place]) =~= users);
        assert(worlds[0].store.insert("user"@, users) =~= worlds[0].store);
        let there = worlds[0].messages(username);
        assert(there + news_of_followers(setup, followers) =~= there);
        assert(worlds[0].told_all(username, news_of_followers(setup, followers)).queues
            =~= worlds[0].queues);
    } else {
        let earlier = followers.drop_last();
        let then = followed_by(user, earlier);
        let last = followers.len() - 1;
        let starts = follow_starts(username, followers);
        lemma_last_in_a_row::<PostUserFollow>(setup, starts, replies, worlds);
        assert(starts.drop_last() =~= follow_starts(username, earlier));
        follows_add_followers_in_order(
            setup,
            username,
            earlier,
            replies.drop_last(),
            worlds.drop_last(),
            place,
            user,
        );
        let before = worlds[last];
        assert(before == worlds.drop_last().last());
        let users_then = before.documents("user"@);
        assert(followers[last] == followers.last());
        lemma_match_is_kept(
            users,
            users_then,
            text_field("username"@, username),
            place,
            RecordView::User(user),
            RecordView::User(then),
        );
        follow_adds_follower(
            setup,
            username,
            followers[last],
            replies[last],
            before,
            worlds.last(),
            place,
            then,
        );
        assert(followed_by(then, seq![followers[last]]).followers =~= followed_by(
            user,
            followers,
        ).followers);
        let record = RecordView::User(followed_by(user, followers));
        let stored = Stored { record, ..users[place] };
        assert(users_then.update(place, stored) =~= users.update(place, stored));
        assert(worlds.last().store =~= worlds[0].store.insert(
            "user"@,
            users.update(place, stored),
        ));
        assert(worlds.last().cache =~= worlds[0].cache.insert(username, (setup.json)(record)));
        let news = news_of_followers(setup, earlier);
        assert(news.push(news_of_follower(setup, followers[last])) =~= news_of_followers(
            setup,
            followers,
        ));
        lemma_told_one_more(
            worlds[0],
            username,
            news,
            news_of_follower(setup, followers[last]),
        );
    }
}

/// Where the only match of a filter keeps the texts that the filter asks for,
/// it stays the only match.
proof fn lemma_match_is_kept(
    documents: Seq<Stored>,
    changed: Seq<Stored>,
    filter: Fields,
    place: int,
    record: RecordView,
    changed_record: RecordView,
)
    requires
        only_match(documents, filter, place),
        documents[place].record == record,
        changed == documents.update(
            place,
            Stored { record: changed_record, ..changed[place] },
        ),
        forall|key: Seq<char>| #[trigger] text_of(changed_record, key) == text_of(record, key),
    ensures
        only_match(changed, filter, place),
        changed[place].record == changed_record,
{
    assert forall|i: int| 0 <= i < changed.len() && meets((#[trigger] changed[i]).record, filter)
        implies i == place by {
        if i != place {
            assert(changed[i] == documents[i]);
        }
    }
}

/// The filter that asks for a post.
pub open spec fn post_titled(author: Seq<char>, title: Seq<char>) -> Fields {
    text_field("author"@, author) + text_field("title"@, title)
}

/// A post with more comments.
pub open spec fn commented_with(post: PostView, titles: Seq<Seq<char>>) -> PostView {
    PostView { comments: post.comments + titles, ..post }
}

/// The document that an insertion stores.
pub open spec fn fresh(record: RecordView) -> Stored {
    Stored { record, counters: Map::empty() }
}

/// The message that tells of a comment.
pub open spec fn news_of_comment(setup: Setup, comment: CommentView) -> Seq<u8> {
    (setup.json)(RecordView::Notification(NotificationView::NewComment(comment)))
}

/// The messages that tell of comments.
pub open spec fn news_of_comments(setup: Setup, comments: Seq<CommentView>) -> Seq<Seq<u8>> {
    comments.map_values(|comment: CommentView| news_of_comment(setup, comment))
}

/// A comment adds its title to the post, after those that were there, and is
/// stored after the other comments; no other document changes. The cache gets
/// the new record of the post, and its author is told of the comment. That the
/// comment was not kept out, or that the answer was a success, is enough.
pub proof fn comment_adds_title(
    setup: Setup,
    comment: CommentView,
    replies: Seq<ReplyView>,
    before: World,
    after: World,
    place: int,
    post: PostView,
)
    requires
        !kept_out(setup, before, "comment"@, RecordView::Comment(comment)) || (conversation::<
            PostNewComment,
        >(PostNewCommentView::UpdatePost { comment }, replies).outcome matches Some(Ok(_))),
        only_match(
            before.documents("post"@),
            post_titled(comment.post_author, comment.post_title),
            place,
        ),
        before.documents("post"@)[place].record == RecordView::Post(post),
        served::<PostNewComment>(
            setup,
            PostNewCommentView::UpdatePost { comment },
            replies,
            before,
            after,
        ),
    ensures
        conversation::<PostNewComment>(
            PostNewCommentView::UpdatePost { comment },
            replies,
        ).outcome == Some(Ok::<CommentView, FailureView>(comment)),
        ({
            let posts = before.documents("post"@);
            let record = RecordView::Post(commented_with(post, seq![comment.title]));
            after == before.with_documents(
                "post"@,
                posts.update(place, Stored { record, ..posts[place] }),
            ).with_documents(
                "comment"@,
                before.documents("comment"@).push(fresh(RecordView::Comment(comment))),
            ).with_cached(
                post_key(comment.post_author, comment.post_title),
                (setup.json)(record),
            ).told(comment.post_author, news_of_comment(setup, comment))
        }),
{
    let start = PostNewCommentView::UpdatePost { comment };
    let worlds = worlds_of::<PostNewComment>(setup, start, replies, before, after);
    lemma_words_differ();
    lemma_step::<PostNewComment>(setup, start, replies, worlds, 0);
    assert(post.comments.push(comment.title) =~= post.comments + seq![comment.title]);
    assert(worlds[1].documents("comment"@) == before.documents("comment"@));
    lemma_step::<PostNewComment>(setup, start, replies, worlds, 1);
    lemma_step::<PostNewComment>(setup, start, replies, worlds, 2);
    lemma_step::<PostNewComment>(setup, start, replies, worlds, 3);
    lemma_step::<PostNewComment>(setup, start, replies, worlds, 4);
    lemma_step::<PostNewComment>(setup, start, replies, worlds, 5);
    lemma_step::<PostNewComment>(setup, start, replies, worlds, 6);
}

/// The starts of comments.
pub open spec fn comment_starts(comments: Seq<CommentView>) -> Seq<PostNewCommentView> {
    comments.map_values(|comment: CommentView| PostNewCommentView::UpdatePost { comment })
}

/// Whether all comments are on one post.
pub open spec fn all_on(
    comments: Seq<CommentView>,
    author: Seq<char>,
    title: Seq<char>,
) -> bool {
    forall|i: int|
        #![trigger comments[i]]
        0 <= i < comments.len() ==> comments[i].post_author == author && comments[i].post_title
            == title
}

/// The titles of comments.
pub open spec fn titles_of(comments: Seq<CommentView>) -> Seq<Seq<char>> {
    comments.map_values(|comment: CommentView| comment.title)
}

/// The documents of comments.
pub open spec fn documents_of(comments: Seq<CommentView>) -> Seq<Stored> {
    comments.map_values(|comment: CommentView| fresh(RecordView::Comment(comment)))
}

/// Comments that succeed add their titles to the post, in order and each as
/// often as it comes, and nothing else of the post changes. The comments are
/// stored, in order. Once there was one, the cache has the post as the document
/// store has it, and no other entry has changed. The author of the post is told
/// of each, in order.
pub proof fn comments_add_titles_in_order(
    setup: Setup,
    author: Seq<char>,
    title: Seq<char>,
    comments: Seq<CommentView>,
    replies: Seq<Seq<ReplyView>>,
    worlds: Seq<World>,
    place: int,
    post: PostView,
)
    requires
        only_match(worlds[0].documents("post"@), post_titled(author, title), place),
        worlds[0].documents("post"@)[place].record == RecordView::Post(post),
        all_on(comments, author, title),
        served_in_a_row::<PostNewComment>(setup, comment_starts(comments), replies, worlds),
        forall|i: int|
            0 <= i < comments.len() ==> (conversation::<PostNewComment>(
                PostNewCommentView::UpdatePost { comment: #[trigger] comments[i] },
                replies[i],
            ).outcome matches Some(Ok(_))),
    ensures
        ({
            let posts = worlds[0].documents("post"@);
            let record = RecordView::Post(commented_with(post, titles_of(comments)));
            &&& worlds.last().documents("post"@) == posts.update(
                place,
                Stored { record, ..posts[place] },
            )
            &&& worlds.last().documents("comment"@) == worlds[0].documents("comment"@)
                + documents_of(comments)
            &&& worlds.last().documents("user"@) == worlds[0].documents("user"@)
            &&& worlds.last().cache == if comments.len() == 0 {
                worlds[0].cache
            } else {
                worlds[0].cache.insert(post_key(author, title), (setup.json)(record))
            }
            &&& worlds.last().queues == worlds[0].told_all(
                author,
                news_of_comments(setup, comments),
            ).queues
        }),
    decreases comments.len(),
{
    let posts = worlds[0].documents("post"@);
    let stored_comments = worlds[0].documents("comment"@);
    if comments.len() == 0 {
        assert(commented_with(post, titles_of(comments)).comments =~= post.comments);
        assert(posts.update(place, posts[place]) =~= posts);
        assert(stored_comments + documents_of(comments) =~= stored_comments);
        let there = worlds[0].messages(author);
        assert(there + news_of_comments(setup, comments) =~= there);
        assert(worlds[0].told_all(author, news_of_comments(setup, comments)).queues
            =~= worlds[0].queues);
    } else {
        let earlier = comments.drop_last();
        let then = commented_with(post, titles_of(earlier));
        let last = comments.len() - 1;
        let earlier_worlds = worlds.drop_last();
        let earlier_replies = replies.drop_last();
        let starts = comment_starts(comments);
        lemma_last_in_a_row::<PostNewComment>(setup, starts, replies, worlds);
        assert(starts.drop_last() =~= comment_starts(earlier));
        assert forall|i: int| #![trigger earlier[i]] 0 <= i < earlier.len() implies {
            &&& earlier[i].post_author == author
            &&& earlier[i].post_title == title
        } by {
            assert(earlier[i] == comments[i]);
        }
        assert forall|i: int| 0 <= i < earlier.len() implies (conversation::<PostNewComment>(
            PostNewCommentView::UpdatePost { comment: #[trigger] earlier[i] },
            earlier_replies[i],
        ).outcome matches Some(Ok(_))) by {
            assert(earlier[i] == comments[i]);
        }
        comments_add_titles_in_order(
            setup,
            author,
            title,
            earlier,
            earlier_replies,
            earlier_worlds,
            place,
            post,
        );
        let before = worlds[last];
        assert(before == earlier_worlds.last());
        let comment = comments[last];
        lemma_match_is_kept(
            posts,
            before.documents("post"@),
            post_titled(author, title),
            place,
            RecordView::Post(post),
            RecordView::Post(then),
        );
        comment_adds_title(setup, comment, replies[last], before, worlds.last(), place, then);
        lemma_words_differ();
        assert(commented_with(then, seq![comment.title]).comments =~= commented_with(
            post,
            titles_of(comments),
        ).comments);
        let record = RecordView::Post(commented_with(post, titles_of(comments)));
        let stored = Stored { record, ..posts[place] };
        assert(before.documents("post"@).update(place, stored) =~= posts.update(place, stored));
        assert(before.documents("comment"@).push(fresh(RecordView::Comment(comment)))
            =~= stored_comments + documents_of(comments));
        assert(worlds.last().cache =~= worlds[0].cache.insert(
            post_key(author, title),
            (setup.json)(record),
        ));
        let news = news_of_comments(setup, earlier);
        assert(news.push(news_of_comment(setup, comment)) =~= news_of_comments(setup, comments));
        lemma_told_one_more(worlds[0], author, news, news_of_comment(setup, comment));
    }
}

/// Comments as records.
pub open spec fn records_of(comments: Seq<CommentView>) -> Seq<RecordView> {
    comments.map_values(|comment: CommentView| RecordView::Comment(comment))
}

/// From the search on, everything that was found is collected.
proof fn lemma_found_is_collected(
    setup: Setup,
    start: GetPostCommentView,
    replies: Seq<ReplyView>,
    worlds: Seq<World>,
    number: nat,
    collected: Seq<CommentView>,
) -> (all: Seq<CommentView>)
    requires
        history(setup, conversation::<GetPostComment>(start, replies).asked, replies, worlds),
        number < worlds.len(),
        reached::<GetPostComment>(start, replies, number) == Some(
            GetPostCommentView::NextComment { comments: collected },
        ),
    ensures
        conversation::<GetPostComment>(start, replies).outcome == Some(
            Ok::<Seq<CommentView>, FailureView>(all),
        ),
        records_of(all) == records_of(collected) + worlds[number as int].found,
    decreases worlds[number as int].found.len(),
{
    lemma_step::<GetPostComment>(setup, start, replies, worlds, number);
    let found = worlds[number as int].found;
    if found.len() == 0 {
        assert(records_of(collected) + found =~= records_of(collected));
        collected
    } else {
        let comment = found[0]->Comment_0;
        let all = lemma_found_is_collected(
            setup,
            start,
            replies,
            worlds,
            number + 1,
            collected.push(comment),
        );
        assert(records_of(collected.push(comment)) + found.drop_first() =~= records_of(collected)
            + found);
        all
    }
}

/// Listing the comments on a post that exists gives the stored comments on
/// that post: all of them, each as often as it is stored, and no others.
pub proof fn listing_gives_stored_comments(
    setup: Setup,
    author: Seq<char>,
    title: Seq<char>,
    replies: Seq<ReplyView>,
    before: World,
    after: World,
)
    requires
        served::<GetPostComment>(
            setup,
            GetPostCommentView::CacheGet { username: author, post_title: title },
            replies,
            before,
            after,
        ),
        before.cache.contains_key(post_key(author, title)) || !no_match(
            before.documents("post"@),
            post_titled(author, title),
        ),
    ensures
        conversation::<GetPostComment>(
            GetPostCommentView::CacheGet { username: author, post_title: title },
            replies,
        ).outcome matches Some(Ok(comments)) && records_of(comments).to_multiset() == matches_of(
            before.documents("comment"@),
            comments_of(author, title),
        ).to_multiset(),
{
    let start = GetPostCommentView::CacheGet { username: author, post_title: title };
    let worlds = worlds_of::<GetPostComment>(setup, start, replies, before, after);
    lemma_step::<GetPostComment>(setup, start, replies, worlds, 0);
    lemma_step::<GetPostComment>(setup, start, replies, worlds, 1);
    lemma_step::<GetPostComment>(setup, start, replies, worlds, 2);
    let comments = lemma_found_is_collected(setup, start, replies, worlds, 3, Seq::empty());
    assert(records_of(comments) =~= worlds[3].found);
}

/// A comment that was answered with success is stored, and its post is in the
/// cache.
proof fn lemma_comment_is_stored(
    setup: Setup,
    comment: CommentView,
    replies: Seq<ReplyView>,
    before: World,
    after: World,
)
    requires
        served::<PostNewComment>(
            setup,
            PostNewCommentView::UpdatePost { comment },
            replies,
            before,
            after,
        ),
        conversation::<PostNewComment>(
            PostNewCommentView::UpdatePost { comment },
            replies,
        ).outcome matches Some(Ok(_)),
    ensures
        after.documents("comment"@) == before.documents("comment"@).push(
            fresh(RecordView::Comment(comment)),
        ),
        after.cache.contains_key(post_key(comment.post_author, comment.post_title)),
{
    let start = PostNewCommentView::UpdatePost { comment };
    let worlds = worlds_of::<PostNewComment>(setup, start, replies, before, after);
    lemma_words_differ();
    lemma_step::<PostNewComment>(setup, start, replies, worlds, 0);
    assert(worlds[1].documents("comment"@) == before.documents("comment"@));
    lemma_step::<PostNewComment>(setup, start, replies, worlds, 1);
    lemma_step::<PostNewComment>(setup, start, replies, worlds, 2);
    lemma_step::<PostNewComment>(setup, start, replies, worlds, 3);
    lemma_step::<PostNewComment>(setup, start, replies, worlds, 4);
    lemma_step::<PostNewComment>(setup, start, replies, worlds, 5);
    lemma_step::<PostNewComment>(setup, start, replies, worlds, 6);
}

/// A comment that was answered with success is among the comments that the
/// next request for the comments on its post gets.
pub proof fn stored_comment_is_listed(
    setup: Setup,
    comment: CommentView,
    first: Seq<ReplyView>,
    second: Seq<ReplyView>,
    before: World,
    between: World,
    after: World,
)
    requires
        served::<PostNewComment>(
            setup,
            PostNewCommentView::UpdatePost { comment },
            first,
            before,
            between,
        ),
        conversation::<PostNewComment>(
            PostNewCommentView::UpdatePost { comment },
            first,
        ).outcome matches Some(Ok(_)),
        served::<GetPostComment>(
            setup,
            GetPostCommentView::CacheGet {
                username: comment.post_author,
                post_title: comment.post_title,
            },
            second,
            between,
            after,
        ),
    ensures
        conversation::<GetPostComment>(
            GetPostCommentView::CacheGet {
                username: comment.post_author,
                post_title: comment.post_title,
            },
            second,
        ).outcome matches Some(Ok(comments)) && comments.contains(comment),
{
    let filter = comments_of(comment.post_author, comment.post_title);
    let start = GetPostCommentView::CacheGet {
        username: comment.post_author,
        post_title: comment.post_title,
    };
    lemma_comment_is_stored(setup, comment, first, before, between);
    listing_gives_stored_comments(
        setup,
        comment.post_author,
        comment.post_title,
        second,
        between,
        after,
    );
    let listed = conversation::<GetPostComment>(start, second).outcome->0->Ok_0;
    let documents = between.documents("comment"@);
    let records = documents.map_values(|stored: Stored| stored.record);
    let record = RecordView::Comment(comment);
    assert(meets(record, filter)) by {
        lemma_words_differ();
    }
    assert(records.last() == record);
    records.lemma_filter_contains(
        |record: RecordView| meets(record, filter),
        records.len() - 1,
    );
    matches_of(documents, filter).to_multiset_ensures();
    records_of(listed).to_multiset_ensures();
    assert(matches_of(documents, filter).to_multiset().count(record) > 0);
    assert(records_of(listed).contains(record));
    let place = choose|place: int|
        0 <= place < records_of(listed).len() && records_of(listed)[place] == record;
    assert(listed[place] == comment);
}

/// A comment that somebody likes.
pub open spec fn liked_by(comment: CommentView, liker: Seq<char>) -> CommentView {
    CommentView { likers: with_text(comment.likers, liker), ..comment }
}

/// A like of a comment adds the liker to the comment, after those who were
/// there, unless the liker is among them. Nothing else of it changes, no other
/// document changes, and the cache is left as it is. The answer is the comment
/// as it is then stored, and its author is told of it.
pub proof fn comment_like_adds_liker(
    setup: Setup,
    user_id: Seq<char>,
    post_title: Seq<char>,
    comment_title: Seq<char>,
    liker: Seq<char>,
    replies: Seq<ReplyView>,
    before: World,
    after: World,
    place: int,
    comment: CommentView,
)
    requires
        only_match(
            before.documents("comment"@),
            comment_titled(user_id, post_title, comment_title),
            place,
        ),
        before.documents("comment"@)[place].record == RecordView::Comment(comment),
        served::<PostCommentLike>(
            setup,
            PostCommentLikeView::UpdateComment { user_id, post_title, comment_title, liker },
            replies,
            before,
            after,
        ),
    ensures
        ({
            let talk = conversation::<PostCommentLike>(
                PostCommentLikeView::UpdateComment { user_id, post_title, comment_title, liker },
                replies,
            );
            let comments = before.documents("comment"@);
            let liked = liked_by(comment, liker);
            let news = RecordView::Notification(
                NotificationView::NewCommentLike { comment: liked, liker },
            );
            &&& talk.outcome == Some(Ok::<CommentView, FailureView>(liked))
            &&& after == before.with_documents(
                "comment"@,
                comments.update(
                    place,
                    Stored { record: RecordView::Comment(liked), ..comments[place] },
                ),
            ).told(comment.author, (setup.json)(news))
            &&& forall|queue: Seq<char>| #[trigger]
                messages_for(queue, talk.asked) == if queue == comment.author {
                    seq![(setup.json)(news)]
                } else {
                    Seq::empty()
                }
        }),
{
    let start = PostCommentLikeView::UpdateComment { user_id, post_title, comment_title, liker };
    let worlds = worlds_of::<PostCommentLike>(setup, start, replies, before, after);
    let liked = liked_by(comment, liker);
    let news = RecordView::Notification(NotificationView::NewCommentLike { comment: liked, liker });
    let payload = (setup.json)(news);
    let json = (setup.json)(RecordView::Comment(liked));
    lemma_words_differ();
    lemma_step::<PostCommentLike>(setup, start, replies, worlds, 0);
    assert(replies[0] == ReplyView::Found(Some(RecordView::Comment(liked))));
    lemma_step::<PostCommentLike>(setup, start, replies, worlds, 1);
    lemma_step::<PostCommentLike>(setup, start, replies, worlds, 2);
    lemma_step::<PostCommentLike>(setup, start, replies, worlds, 3);
    lemma_step::<PostCommentLike>(setup, start, replies, worlds, 4);
    let asked = conversation::<PostCommentLike>(start, replies).asked;
    assert forall|queue: Seq<char>| #[trigger] messages_for(queue, asked) == if queue
        == comment.author {
        seq![payload]
    } else {
        Seq::empty()
    } by {
        comment_like_tells_comment_author(
            user_id,
            post_title,
            comment_title,
            liker,
            liked,
            payload,
            json,
            replies,
            queue,
        );
    }
}

/// A like of a comment by somebody who likes it already changes no document and
/// no entry of the cache: the answer is the same comment. The author of the
/// comment is told once more, with the same message.
pub proof fn repeated_comment_like_changes_nothing(
    setup: Setup,
    user_id: Seq<char>,
    post_title: Seq<char>,
    comment_title: Seq<char>,
    liker: Seq<char>,
    first: Seq<ReplyView>,
    second: Seq<ReplyView>,
    before: World,
    between: World,
    after: World,
    place: int,
    comment: CommentView,
)
    requires
        only_match(
            before.documents("comment"@),
            comment_titled(user_id, post_title, comment_title),
            place,
        ),
        before.documents("comment"@)[place].record == RecordView::Comment(comment),
        served::<PostCommentLike>(
            setup,
            PostCommentLikeView::UpdateComment { user_id, post_title, comment_title, liker },
            first,
            before,
            between,
        ),
        served::<PostCommentLike>(
            setup,
            PostCommentLikeView::UpdateComment { user_id, post_title, comment_title, liker },
            second,
            between,
            after,
        ),
    ensures
        after == between.told(
            comment.author,
            (setup.json)(
                RecordView::Notification(
                    NotificationView::NewCommentLike { comment: liked_by(comment, liker), liker },
                ),
            ),
        ),
        ({
            let start = PostCommentLikeView::UpdateComment {
                user_id,
                post_title,
                comment_title,
                liker,
            };
            let one = conversation::<PostCommentLike>(start, first);
            let other = conversation::<PostCommentLike>(start, second);
            &&& one.outcome matches Some(Ok(_))
            &&& other.outcome == one.outcome
            &&& messages_for(comment.author, one.asked).len() == 1
            &&& forall|queue: Seq<char>| #[trigger]
                messages_for(queue, other.asked) == messages_for(queue, one.asked)
        }),
{
    let comments = before.documents("comment"@);
    let liked = liked_by(comment, liker);
    comment_like_adds_liker(
        setup,
        user_id,
        post_title,
        comment_title,
        liker,
        first,
        before,
        between,
        place,
        comment,
    );
    let liked_comments = between.documents("comment"@);
    lemma_match_is_kept(
        comments,
        liked_comments,
        comment_titled(user_id, post_title, comment_title),
        place,
        RecordView::Comment(comment),
        RecordView::Comment(liked),
    );
    comment_like_adds_liker(
        setup,
        user_id,
        post_title,
        comment_title,
        liker,
        second,
        between,
        after,
        place,
        liked,
    );
    assert(with_text(liked.likers, liker) == liked.likers) by {
        if !comment.likers.contains(liker) {
            assert(liked.likers.last() == liker);
        }
    }
    assert(liked_comments.update(place, liked_comments[place]) =~= liked_comments);
    assert(between.store.insert("comment"@, liked_comments) =~= between.store);
}

/// The names on a list, each once, in the order in which they first come.
pub open spec fn distinct(names: Seq<Seq<char>>) -> Seq<Seq<char>>
    decreases names.len(),
{
    if names.len() == 0 {
        Seq::empty()
    } else {
        with_text(distinct(names.drop_last()), names.last())
    }
}

/// The distinct names of a list are those on the list, none of them twice. A
/// name that stands before another came before it.
pub proof fn distinct_names_come_once_in_order(names: Seq<Seq<char>>)
    ensures
        distinct(names).no_duplicates(),
        forall|name: Seq<char>| #[trigger] distinct(names).contains(name) <==> names.contains(name),
        forall|i: int, j: int, k: int|
            #![trigger distinct(names)[i], distinct(names)[j], names[k]]
            0 <= i < j < distinct(names).len() && 0 <= k < names.len() && names[k] == distinct(
                names,
            )[j] ==> names.take(k).contains(distinct(names)[i]),
    decreases names.len(),
{
    if names.len() > 0 {
        let earlier = names.drop_last();
        let last = names.last();
        let before = distinct(earlier);
        let all = distinct(names);
        distinct_names_come_once_in_order(earlier);
        assert(names =~= earlier.push(last));
        assert forall|name: Seq<char>| #[trigger] all.contains(name) <==> names.contains(name) by {
            if all.contains(name) {
                let place = choose|place: int| 0 <= place < all.len() && all[place] == name;
                if place < before.len() {
                    assert(before[place] == name);
                    assert(before.contains(name));
                    let at = choose|at: int| 0 <= at < earlier.len() && earlier[at] == name;
                    assert(names[at] == name);
                } else {
                    assert(names[names.len() - 1] == name);
                }
            }
            if names.contains(name) {
                let at = choose|at: int| 0 <= at < names.len() && names[at] == name;
                if at < earlier.len() {
                    assert(earlier[at] == name);
                    assert(earlier.contains(name));
                    assert(before.contains(name));
                    let place = choose|place: int|
                        0 <= place < before.len() && before[place] == name;
                    assert(all[place] == name);
                } else if !before.contains(last) {
                    assert(all[before.len() as int] == name);
                }
            }
        }
        assert forall|i: int, j: int, k: int|
            #![trigger all[i], all[j], names[k]]
            0 <= i < j < all.len() && 0 <= k < names.len() && names[k] == all[j] implies names.take(
            k,
        ).contains(all[i]) by {
            if j < before.len() {
                assert(before[i] == all[i] && before[j] == all[j]);
                if k < earlier.len() {
                    assert(earlier[k] == names[k]);
                    assert(names.take(k) =~= earlier.take(k));
                } else {
                    assert(names.take(k) =~= earlier);
                    assert(before.contains(all[i]));
                }
            } else {
                assert(!before.contains(last));
                assert(all[j] == last);
                if k < earlier.len() {
                    assert(earlier[k] == last);
                    assert(earlier.contains(last));
                    assert(before.contains(last));
                }
                assert(names.take(k) =~= earlier);
                assert(before[i] == all[i]);
                assert(before.contains(all[i]));
            }
        }
    }
}

/// The starts of likes of one comment.
pub open spec fn comment_like_starts(
    user_id: Seq<char>,
    post_title: Seq<char>,
    comment_title: Seq<char>,
    likers: Seq<Seq<char>>,
) -> Seq<PostCommentLikeView> {
    likers.map_values(
        |liker: Seq<char>|
            PostCommentLikeView::UpdateComment { user_id, post_title, comment_title, liker },
    )
}

/// Likes of a comment that nobody likes yet make its likers the distinct ones
/// of those who like it, in the order of their first likes. Nothing else of
/// the comment changes, no other document changes, and the cache is left as it
/// is. The last like is answered with that comment.
pub proof fn comment_likers_are_distinct(
    setup: Setup,
    user_id: Seq<char>,
    post_title: Seq<char>,
    comment_title: Seq<char>,
    likers: Seq<Seq<char>>,
    replies: Seq<Seq<ReplyView>>,
    worlds: Seq<World>,
    place: int,
    comment: CommentView,
)
    requires
        only_match(
            worlds[0].documents("comment"@),
            comment_titled(user_id, post_title, comment_title),
            place,
        ),
        worlds[0].documents("comment"@)[place].record == RecordView::Comment(comment),
        comment.likers.len() == 0,
        served_in_a_row::<PostCommentLike>(
            setup,
            comment_like_starts(user_id, post_title, comment_title, likers),
            replies,
            worlds,
        ),
    ensures
        ({
            let comments = worlds[0].documents("comment"@);
            let liked = CommentView { likers: distinct(likers), ..comment };
            &&& worlds.last().store == worlds[0].store.insert(
                "comment"@,
                comments.update(
                    place,
                    Stored { record: RecordView::Comment(liked), ..comments[place] },
                ),
            )
            &&& worlds.last().cache == worlds[0].cache
            &&& likers.len() > 0 ==> conversation::<PostCommentLike>(
                PostCommentLikeView::UpdateComment {
                    user_id,
                    post_title,
                    comment_title,
                    liker: likers.last(),
                },
                replies.last(),
            ).outcome == Some(Ok::<CommentView, FailureView>(liked))
        }),
    decreases likers.len(),
{
    let comments = worlds[0].documents("comment"@);
    let liked = CommentView { likers: distinct(likers), ..comment };
    if likers.len() == 0 {
        assert(liked.likers =~= comment.likers);
        assert(comments.update(place, comments[place]) =~= comments);
        assert(worlds[0].store.insert("comment"@, comments) =~= worlds[0].store);
    } else {
        let earlier = likers.drop_last();
        let last = likers.len() - 1;
        let then = CommentView { likers: distinct(earlier), ..comment };
        let earlier_worlds = worlds.drop_last();
        let earlier_replies = replies.drop_last();
        let starts = comment_like_starts(user_id, post_title, comment_title, likers);
        lemma_last_in_a_row::<PostCommentLike>(setup, starts, replies, worlds);
        assert(starts.drop_last() =~= comment_like_starts(
            user_id,
            post_title,
            comment_title,
            earlier,
        ));
        comment_likers_are_distinct(
            setup,
            user_id,
            post_title,
            comment_title,
            earlier,
            earlier_replies,
            earlier_worlds,
            place,
            comment,
        );
        let before = worlds[last];
        assert(before == earlier_worlds.last());
        assert(likers[last] == likers.last());
        lemma_match_is_kept(
            comments,
            before.documents("comment"@),
            comment_titled(user_id, post_title, comment_title),
            place,
            RecordView::Comment(comment),
            RecordView::Comment(then),
        );
        comment_like_adds_liker(
            setup,
            user_id,
            post_title,
            comment_title,
            likers[last],
            replies[last],
            before,
            worlds.last(),
            place,
            then,
        );
        let stored = Stored { record: RecordView::Comment(liked), ..comments[place] };
        assert(before.documents("comment"@).update(place, stored) =~= comments.update(
            place,
            stored,
        ));
        assert(worlds.last().store =~= worlds[0].store.insert(
            "comment"@,
            comments.update(place, stored),
        ));
    }
}

/// A like of a post is recorded as given by the liker: the liker's record gets
/// author and title of the post, after those that were there, and no other
/// user's record changes. The user whose post it is is told who liked it, and
/// nobody else is told.
pub proof fn post_like_is_given_by_liker(
    setup: Setup,
    username: Seq<char>,
    title: Seq<char>,
    liker: Seq<char>,
    replies: Seq<ReplyView>,
    before: World,
    after: World,
    place: int,
    user: UserView,
)
    requires
        only_match(before.documents("user"@), text_field("username"@, liker), place),
        before.documents("user"@)[place].record == RecordView::User(user),
        served::<PostPostLike>(
            setup,
            PostPostLikeView::UpdateUser { username, title, liker },
            replies,
            before,
            after,
        ),
    ensures
        ({
            let talk = conversation::<PostPostLike>(
                PostPostLikeView::UpdateUser { username, title, liker },
                replies,
            );
            let users = before.documents("user"@);
            let likes_posts = user.likes_posts.push((username, title));
            let record = RecordView::User(UserView { likes_posts, ..user });
            let news = RecordView::Notification(NotificationView::NewPostLike { title, liker });
            &&& talk.outcome == Some(Ok::<(), FailureView>(()))
            &&& after.documents("user"@) == users.update(place, Stored { record, ..users[place] })
            &&& after.documents("comment"@) == before.documents("comment"@)
            &&& after.cache == before.cache
            &&& after.queues == before.told(username, (setup.json)(news)).queues
            &&& forall|queue: Seq<char>| #[trigger]
                messages_for(queue, talk.asked) == if queue == username {
                    seq![(setup.json)(news)]
                } else {
                    Seq::empty()
                }
        }),
{
    let start = PostPostLikeView::UpdateUser { username, title, liker };
    let worlds = worlds_of::<PostPostLike>(setup, start, replies, before, after);
    let users = before.documents("user"@);
    let likes_posts = user.likes_posts.push((username, title));
    let liking = UserView { likes_posts, ..user };
    let news = RecordView::Notification(NotificationView::NewPostLike { title, liker });
    let payload = (setup.json)(news);
    lemma_words_differ();
    lemma_step::<PostPostLike>(setup, start, replies, worlds, 0);
    lemma_username_is_met(user, liker);
    assert(replies[0] == ReplyView::Found(Some(RecordView::User(liking))));
    lemma_step::<PostPostLike>(setup, start, replies, worlds, 1);
    assert(worlds[2].documents("user"@) == worlds[1].documents("user"@));
    assert(worlds[2].documents("comment"@) == before.documents("comment"@));
    lemma_step::<PostPostLike>(setup, start, replies, worlds, 2);
    lemma_step::<PostPostLike>(setup, start, replies, worlds, 3);
    lemma_step::<PostPostLike>(setup, start, replies, worlds, 4);
    let counted = match replies[1] {
        ReplyView::Found(Some(RecordView::Post(post))) => Some(post),
        _ => None,
    };
    let asked = conversation::<PostPostLike>(start, replies).asked;
    assert forall|queue: Seq<char>| #[trigger] messages_for(queue, asked) == if queue == username {
        seq![payload]
    } else {
        Seq::empty()
    } by {
        post_like_tells_post_owner(
            username,
            title,
            liker,
            liking,
            counted,
            payload,
            replies,
            queue,
        );
    }
}

/// Whether two lists of documents are the same but for the number of likes of
/// the one at `place`, which is higher by `number`.
pub open spec fn liked_more(
    documents: Seq<Stored>,
    liked: Seq<Stored>,
    place: int,
    number: int,
) -> bool {
    &&& liked.len() == documents.len()
    &&& forall|i: int|
        0 <= i < documents.len() && i != place ==> #[trigger] liked[i] == documents[i]
    &&& liked[place].record == documents[place].record
    &&& liked[place].count("number_of_likes"@) == documents[place].count("number_of_likes"@)
        + number
    &&& forall|key: Seq<char>|
        key != "number_of_likes"@ ==> #[trigger] liked[place].count(key) == documents[place].count(
            key,
        )
}

/// A like of a post counts the post up by one, and changes nothing else of it
/// and no other post.
pub proof fn post_like_counts_once(
    setup: Setup,
    username: Seq<char>,
    title: Seq<char>,
    liker: Seq<char>,
    replies: Seq<ReplyView>,
    before: World,
    after: World,
    place: int,
)
    requires
        only_match(before.documents("post"@), post_titled(username, title), place),
        served::<PostPostLike>(
            setup,
            PostPostLikeView::UpdateUser { username, title, liker },
            replies,
            before,
            after,
        ),
        conversation::<PostPostLike>(
            PostPostLikeView::UpdateUser { username, title, liker },
            replies,
        ).outcome matches Some(Ok(_)),
    ensures
        liked_more(before.documents("post"@), after.documents("post"@), place, 1),
{
    let start = PostPostLikeView::UpdateUser { username, title, liker };
    let worlds = worlds_of::<PostPostLike>(setup, start, replies, before, after);
    lemma_words_differ();
    lemma_step::<PostPostLike>(setup, start, replies, worlds, 0);
    assert(worlds[1].documents("post"@) == before.documents("post"@));
    lemma_step::<PostPostLike>(setup, start, replies, worlds, 1);
    lemma_step::<PostPostLike>(setup, start, replies, worlds, 2);
    lemma_step::<PostPostLike>(setup, start, replies, worlds, 3);
    lemma_step::<PostPostLike>(setup, start, replies, worlds, 4);
}

/// The starts of likes of one post.
pub open spec fn post_like_starts(
    username: Seq<char>,
    title: Seq<char>,
    likers: Seq<Seq<char>>,
) -> Seq<PostPostLikeView> {
    likers.map_values(
        |liker: Seq<char>| PostPostLikeView::UpdateUser { username, title, liker },
    )
}

/// Likes of a post count it up by their number, whoever gives them and however
/// often, and change nothing else of it and no other post.
pub proof fn post_likes_are_all_counted(
    setup: Setup,
    username: Seq<char>,
    title: Seq<char>,
    likers: Seq<Seq<char>>,
    replies: Seq<Seq<ReplyView>>,
    worlds: Seq<World>,
    place: int,
)
    requires
        only_match(worlds[0].documents("post"@), post_titled(username, title), place),
        served_in_a_row::<PostPostLike>(
            setup,
            post_like_starts(username, title, likers),
            replies,
            worlds,
        ),
        forall|i: int|
            0 <= i < likers.len() ==> (conversation::<PostPostLike>(
                PostPostLikeView::UpdateUser { username, title, liker: #[trigger] likers[i] },
                replies[i],
            ).outcome matches Some(Ok(_))),
    ensures
        liked_more(
            worlds[0].documents("post"@),
            worlds.last().documents("post"@),
            place,
            likers.len() as int,
        ),
    decreases likers.len(),
{
    if likers.len() > 0 {
        let posts = worlds[0].documents("post"@);
        let earlier = likers.drop_last();
        let last = likers.len() - 1;
        let earlier_worlds = worlds.drop_last();
        let earlier_replies = replies.drop_last();
        let starts = post_like_starts(username, title, likers);
        lemma_last_in_a_row::<PostPostLike>(setup, starts, replies, worlds);
        assert(starts.drop_last() =~= post_like_starts(username, title, earlier));
        assert forall|i: int| 0 <= i < earlier.len() implies (conversation::<PostPostLike>(
            PostPostLikeView::UpdateUser { username, title, liker: #[trigger] earlier[i] },
            earlier_replies[i],
        ).outcome matches Some(Ok(_))) by {
            assert(earlier[i] == likers[i]);
        }
        post_likes_are_all_counted(
            setup,
            username,
            title,
            earlier,
            earlier_replies,
            earlier_worlds,
            place,
        );
        let before = worlds[last];
        assert(before == earlier_worlds.last());
        let liker = likers[last];
        let counted = before.documents("post"@);
        assert(only_match(counted, post_titled(username, title), place)) by {
            assert forall|i: int|
                0 <= i < counted.len() && meets(
                    (#[trigger] counted[i]).record,
                    post_titled(username, title),
                ) implies i == place by {
                if i != place {
                    assert(counted[i] == posts[i]);
                }
            }
        }
        post_like_counts_once(
            setup,
            username,
            title,
            liker,
            replies[last],
            before,
            worlds.last(),
            place,
        );
    }
}

/// A registered user is what the next lookup gives, where no other user has
/// the username and the cache does not have it.
pub proof fn registered_user_is_found(
    setup: Setup,
    user: UserView,
    first: Seq<ReplyView>,
    second: Seq<ReplyView>,
    before: World,
    between: World,
    after: World,
)
    requires
        no_match(before.documents("user"@), text_field("username"@, user.username)),
        !before.cache.contains_key(user.username),
        served::<PostNewUser>(setup, PostNewUserView::Insert { user }, first, before, between),
        conversation::<PostNewUser>(PostNewUserView::Insert { user }, first).outcome matches Some(
            Ok(_),
        ),
        served::<GetUser>(
            setup,
            GetUserView::CacheGet { username: user.username },
            second,
            between,
            after,
        ),
    ensures
        conversation::<GetUser>(
            GetUserView::CacheGet { username: user.username },
            second,
        ).outcome == Some(Ok::<UserView, FailureView>(user)),
        after == between.with_cached(user.username, (setup.json)(RecordView::User(user))),
{
    let start = PostNewUserView::Insert { user };
    let worlds = worlds_of::<PostNewUser>(setup, start, first, before, between);
    lemma_step::<PostNewUser>(setup, start, first, worlds, 0);
    let filter = text_field("username"@, user.username);
    let users = between.documents("user"@);
    let record = RecordView::User(user);
    assert(users == before.documents("user"@).push(fresh(record)));
    assert(meets(record, filter));
    assert(users[users.len() - 1].record == record);
    let lookup = GetUserView::CacheGet { username: user.username };
    let then = worlds_of::<GetUser>(setup, lookup, second, between, after);
    lemma_step::<GetUser>(setup, lookup, second, then, 0);
    lemma_step::<GetUser>(setup, lookup, second, then, 1);
    assert(second[1] == ReplyView::Found(Some(record))) by {
        assert forall|i: int|
            0 <= i < users.len() && meets((#[trigger] users[i]).record, filter) implies users[i]
            == fresh(record) by {
            if i < users.len() - 1 {
                assert(users[i] == before.documents("user"@)[i]);
            }
        }
    }
    lemma_step::<GetUser>(setup, lookup, second, then, 2);
    lemma_step::<GetUser>(setup, lookup, second, then, 3);
}

/// A second registration of one name is refused with an internal server error
/// and changes nothing.
pub proof fn second_registration_of_name_is_refused(
    setup: Setup,
    user: UserView,
    other: UserView,
    first: Seq<ReplyView>,
    second: Seq<ReplyView>,
    before: World,
    between: World,
    after: World,
)
    requires
        setup.indexes == needed_indexes(),
        other.name == user.name,
        served::<PostNewUser>(setup, PostNewUserView::Insert { user }, first, before, between),
        conversation::<PostNewUser>(PostNewUserView::Insert { user }, first).outcome matches Some(
            Ok(_),
        ),
        served::<PostNewUser>(
            setup,
            PostNewUserView::Insert { user: other },
            second,
            between,
            after,
        ),
    ensures
        after == between,
        ({
            let talk = conversation::<PostNewUser>(
                PostNewUserView::Insert { user: other },
                second,
            );
            &&& talk.asked == seq![
                CommandView::Insert { collection: "user"@, record: RecordView::User(other) },
            ]
            &&& second[0] matches ReplyView::Failed(err)
            &&& talk.outcome == Some(
                Err::<UserView, FailureView>(internal_error("failed to insert user: "@ + err)),
            )
        }),
{
    let start = PostNewUserView::Insert { user };
    let worlds = worlds_of::<PostNewUser>(setup, start, first, before, between);
    lemma_words_differ();
    lemma_step::<PostNewUser>(setup, start, first, worlds, 0);
    let users = between.documents("user"@);
    let record = RecordView::User(user);
    assert(users == before.documents("user"@).push(fresh(record)));
    assert(collide(setup.indexes[0], users[users.len() - 1].record, RecordView::User(other)));
    let again = PostNewUserView::Insert { user: other };
    let then = worlds_of::<PostNewUser>(setup, again, second, between, after);
    lemma_step::<PostNewUser>(setup, again, second, then, 0);
}

/// Once a post has been inserted, its publication changes no post.
proof fn lemma_publication_keeps_posts(
    setup: Setup,
    post: PostView,
    replies: Seq<ReplyView>,
    worlds: Seq<World>,
    number: nat,
)
    requires
        history(
            setup,
            conversation::<PostNewPost>(PostNewPostView::Insert { post }, replies).asked,
            replies,
            worlds,
        ),
        1 <= number < worlds.len(),
    ensures
        worlds[number as int].documents("post"@) == worlds[1].documents("post"@),
    decreases number,
{
    if number > 1 {
        let start = PostNewPostView::Insert { post };
        let before = (number - 1) as nat;
        lemma_words_differ();
        lemma_publication_keeps_posts(setup, post, replies, worlds, before);
        commands_are_pending::<PostNewPost>(start, replies, before);
        lemma_publication_reached(post, replies, before);
        lemma_step::<PostNewPost>(setup, start, replies, worlds, before);
    }
}

/// A second post of one title is refused with an internal server error,
/// whoever publishes it: no document and no entry of the cache changes, and
/// nobody is told. Posts have no `username`, so the index keeps them apart by
/// their titles alone.
pub proof fn second_post_of_title_is_refused(
    setup: Setup,
    post: PostView,
    other: PostView,
    first: Seq<ReplyView>,
    second: Seq<ReplyView>,
    before: World,
    between: World,
    after: World,
)
    requires
        setup.indexes == needed_indexes(),
        other.title == post.title,
        served::<PostNewPost>(setup, PostNewPostView::Insert { post }, first, before, between),
        conversation::<PostNewPost>(PostNewPostView::Insert { post }, first).outcome matches Some(
            Ok(_),
        ),
        served::<PostNewPost>(
            setup,
            PostNewPostView::Insert { post: other },
            second,
            between,
            after,
        ),
    ensures
        after == between,
        ({
            let talk = conversation::<PostNewPost>(
                PostNewPostView::Insert { post: other },
                second,
            );
            &&& talk.asked == seq![
                CommandView::Insert { collection: "post"@, record: RecordView::Post(other) },
            ]
            &&& second[0] matches ReplyView::Failed(err)
            &&& talk.outcome == Some(
                Err::<PostView, FailureView>(internal_error("failed to insert post: "@ + err)),
            )
        }),
{
    let start = PostNewPostView::Insert { post };
    let worlds = worlds_of::<PostNewPost>(setup, start, first, before, between);
    lemma_words_differ();
    lemma_step::<PostNewPost>(setup, start, first, worlds, 0);
    lemma_publication_keeps_posts(setup, post, first, worlds, (worlds.len() - 1) as nat);
    let posts = between.documents("post"@);
    let record = RecordView::Post(post);
    assert(posts == before.documents("post"@).push(fresh(record)));
    assert(collide(setup.indexes[1], posts[posts.len() - 1].record, RecordView::Post(other)));
    let again = PostNewPostView::Insert { post: other };
    let then = worlds_of::<PostNewPost>(setup, again, second, between, after);
    lemma_step::<PostNewPost>(setup, again, second, then, 0);
}

/// The message that tells of a post.
pub open spec fn news_of_post(setup: Setup, post: PostView) -> Seq<u8> {
    (setup.json)(RecordView::Notification(NotificationView::NewPost(post)))
}

/// The world once each of `followers` has been told, in order: the queue of
/// each is there, and has the message.
pub open spec fn announced(
    world: World,
    followers: Seq<Seq<char>>,
    message: Seq<u8>,
) -> World
    decreases followers.len(),
{
    if followers.len() == 0 {
        world
    } else {
        announced(world, followers.drop_last(), message).with_queue(followers.last()).told(
            followers.last(),
            message,
        )
    }
}

/// The world while followers are told, after a number of commands.
proof fn lemma_followers_are_told(
    setup: Setup,
    post: PostView,
    author: UserView,
    replies: Seq<ReplyView>,
    worlds: Seq<World>,
    number: nat,
)
    requires
        history(
            setup,
            conversation::<PostNewPost>(PostNewPostView::Insert { post }, replies).asked,
            replies,
            worlds,
        ),
        replies[1] == ReplyView::Found(Some(RecordView::User(author))),
        replies[7] == ReplyView::Encoded(news_of_post(setup, post)),
        8 <= number < worlds.len(),
    ensures
        ({
            let message = news_of_post(setup, post);
            let told = (number - 8) / 2;
            let so_far = announced(worlds[8], author.followers.take(told), message);
            &&& told <= author.followers.len()
            &&& number % 2 == 0 ==> worlds[number as int] == so_far
            &&& number % 2 == 1 ==> told < author.followers.len() && worlds[number as int]
                == so_far.with_queue(author.followers[told])
        }),
    decreases number,
{
    let message = news_of_post(setup, post);
    let followers = author.followers;
    if number == 8 {
        assert(announced(worlds[8], followers.take(0), message) == worlds[8]);
    } else {
        let start = PostNewPostView::Insert { post };
        let before = (number - 1) as nat;
        lemma_followers_are_told(setup, post, author, replies, worlds, before);
        commands_are_pending::<PostNewPost>(start, replies, before);
        lemma_publication_reached(post, replies, before);
        lemma_step::<PostNewPost>(setup, start, replies, worlds, before);
        match reached::<PostNewPost>(start, replies, before)->0 {
            PostNewPostView::DeclareQueue { follower, waiting, .. } => {
                assert((seq![follower] + waiting)[0] == follower);
            },
            PostNewPostView::Publish { follower, waiting, .. } => {
                let told = (number - 8) / 2;
                assert((seq![follower] + waiting)[0] == follower);
                assert(followers.take(told).drop_last() =~= followers.take(told - 1));
                assert(followers.take(told).last() == follower);
            },
            _ => {},
        }
    }
}

/// A publication stores the post after the other posts and adds its title to
/// the author's record, after those that were there; no other document
/// changes. The cache gets the post and the author's new record, and nothing
/// else. Then each follower of the author is told of the post. The answer is
/// the post. That the post was not kept out, or that the answer was a success,
/// is enough.
pub proof fn post_is_published(
    setup: Setup,
    post: PostView,
    replies: Seq<ReplyView>,
    before: World,
    after: World,
    place: int,
    author: UserView,
)
    requires
        !kept_out(setup, before, "post"@, RecordView::Post(post)) || (conversation::<PostNewPost>(
            PostNewPostView::Insert { post },
            replies,
        ).outcome matches Some(Ok(_))),
        only_match(before.documents("user"@), text_field("username"@, post.author), place),
        before.documents("user"@)[place].record == RecordView::User(author),
        served::<PostNewPost>(setup, PostNewPostView::Insert { post }, replies, before, after),
    ensures
        conversation::<PostNewPost>(PostNewPostView::Insert { post }, replies).outcome == Some(
            Ok::<PostView, FailureView>(post),
        ),
        ({
            let users = before.documents("user"@);
            let posts = author.posts.push(post.title);
            let record = RecordView::User(UserView { posts, ..author });
            after == announced(
                before.with_documents(
                    "post"@,
                    before.documents("post"@).push(fresh(RecordView::Post(post))),
                ).with_documents(
                    "user"@,
                    users.update(place, Stored { record, ..users[place] }),
                ).with_cached(
                    post_key(post.author, post.title),
                    (setup.json)(RecordView::Post(post)),
                ).with_cached(post.author, (setup.json)(record)),
                author.followers,
                news_of_post(setup, post),
            )
        }),
{
    let start = PostNewPostView::Insert { post };
    let worlds = worlds_of::<PostNewPost>(setup, start, replies, before, after);
    let posts = author.posts.push(post.title);
    let publishing = UserView { posts, ..author };
    let followers = author.followers;
    let message = news_of_post(setup, post);
    lemma_words_differ();
    lemma_username_is_met(author, post.author);
    lemma_step::<PostNewPost>(setup, start, replies, worlds, 0);
    assert(worlds[1].documents("user"@) == before.documents("user"@));
    lemma_step::<PostNewPost>(setup, start, replies, worlds, 1);
    assert(replies[1] == ReplyView::Found(Some(RecordView::User(publishing))));
    lemma_step::<PostNewPost>(setup, start, replies, worlds, 2);
    lemma_step::<PostNewPost>(setup, start, replies, worlds, 3);
    lemma_step::<PostNewPost>(setup, start, replies, worlds, 4);
    lemma_step::<PostNewPost>(setup, start, replies, worlds, 5);
    lemma_step::<PostNewPost>(setup, start, replies, worlds, 6);
    lemma_step::<PostNewPost>(setup, start, replies, worlds, 7);
    assert(replies[7] == ReplyView::Encoded(message));
    if followers.len() > 0 {
        let asked = conversation::<PostNewPost>(start, replies).asked;
        reached_states_ask::<PostNewPost>(start, replies, 8);
        answer_follows_last_reply::<PostNewPost>(start, replies);
        let last = (asked.len() - 1) as nat;
        lemma_publication_reached(post, replies, last);
        lemma_step::<PostNewPost>(setup, start, replies, worlds, last);
        lemma_followers_are_told(setup, post, publishing, replies, worlds, last + 1);
        match reached::<PostNewPost>(start, replies, last)->0 {
            PostNewPostView::Publish { follower, waiting, .. } => {
                let told = (last - 9) / 2;
                assert((seq![follower] + waiting).len() == followers.skip(told).len());
                assert(followers.take(told + 1) =~= followers);
            },
            _ => {},
        }
    }
}

} // verus!
