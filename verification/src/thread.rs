//! The page of a thread: its posts, page by page, with the comments on each.
use vstd::prelude::*;
use axum_extra::extract::cookie::CookieJar;
use crate::cookies::{csrf_ensured, ensure_csrf_token, jar_view, JarView};
use crate::dialogue::{
    ask, asked, current_visitor, ended, get_current_user, only_reads, paged, read_visitor, respond,
    run, session_question, visitor, visitor_name, ResponseOf, ResponseView, Step, StepView,
};
use crate::pages::{Page, PageView, PostComments, PostCommentsOf, ThreadPage, ThreadPageView};
use crate::paging::{
    capped_offset, offset_within, page_count, page_number, pages_of, requested_page, POSTS_PER_PAGE,
};
use crate::records::{
    count, counted, find, found, list, listed, optional, views, Comment, CommentOf, Post, PostOf,
    ReplyView, Thread, ThreadOf,
};
use crate::store::{CommandOf, CommandView, Reply};

verus! {

/// The comments on one post, as contracts speak of them.
pub type GroupView = PostCommentsOf<Seq<CommentOf<Seq<char>>>>;

/// Where among `groups` the comments on a post stand; their number where they do not.
pub open spec fn group_index(groups: Seq<GroupView>, post_id: i64) -> int
    decreases groups.len(),
{
    if groups.len() == 0 {
        0
    } else if groups[0].post_id == post_id {
        0
    } else {
        1 + group_index(groups.drop_first(), post_id)
    }
}

/// The comments, parted by the post they are on, in the order in which the posts occur.
pub open spec fn grouped(comments: Seq<CommentOf<Seq<char>>>) -> Seq<GroupView>
    decreases comments.len(),
{
    if comments.len() == 0 {
        Seq::empty()
    } else {
        let groups = grouped(comments.drop_last());
        let c = comments.last();
        let i = group_index(groups, c.post_id);
        if i < groups.len() {
            groups.update(
                i,
                PostCommentsOf { post_id: c.post_id, comments: groups[i].comments.push(c) },
            )
        } else {
            groups.push(PostCommentsOf { post_id: c.post_id, comments: seq![c] })
        }
    }
}

pub proof fn lemma_group_index(groups: Seq<GroupView>, post_id: i64)
    ensures
        0 <= group_index(groups, post_id) <= groups.len(),
        group_index(groups, post_id) < groups.len() ==> groups[group_index(groups, post_id)].post_id
            == post_id,
        forall|j: int|
            0 <= j < group_index(groups, post_id) ==> (#[trigger] groups[j]).post_id != post_id,
    decreases groups.len(),
{
    if groups.len() > 0 && groups[0].post_id != post_id {
        let rest = groups.drop_first();
        lemma_group_index(rest, post_id);
        assert forall|j: int| 0 <= j < group_index(groups, post_id) implies (
        #[trigger] groups[j]).post_id != post_id by {
            if j > 0 {
                assert(groups[j] == rest[j - 1]);
            }
        }
    }
}

/// The comments on one post, in their order.
pub open spec fn comments_on(
    comments: Seq<CommentOf<Seq<char>>>,
    post_id: i64,
) -> Seq<CommentOf<Seq<char>>> {
    comments.filter(|c: CommentOf<Seq<char>>| c.post_id == post_id)
}

/// Each post that has comments stands once among the groups, with all of its comments in
/// their order; no other post stands there.
pub proof fn law_grouped(comments: Seq<CommentOf<Seq<char>>>)
    ensures
        forall|i: int|
            0 <= i < grouped(comments).len() ==> (#[trigger] grouped(comments)[i]).comments
                == comments_on(comments, grouped(comments)[i].post_id) && grouped(
                comments,
            )[i].comments.len() > 0,
        forall|i: int, j: int|
            0 <= i < j < grouped(comments).len() ==> (#[trigger] grouped(comments)[i]).post_id != (
            #[trigger] grouped(comments)[j]).post_id,
        forall|k: int|
            0 <= k < comments.len() ==> exists|i: int|
                0 <= i < grouped(comments).len() && (#[trigger] grouped(comments)[i]).post_id == (
                #[trigger] comments[k]).post_id,
    decreases comments.len(),
{
    let all = grouped(comments);
    if comments.len() > 0 {
        let before = comments.drop_last();
        let c = comments.last();
        let groups = grouped(before);
        let at = group_index(groups, c.post_id);
        law_grouped(before);
        lemma_group_index(groups, c.post_id);
        assert(before.push(c) =~= comments);
        assert forall|id: i64| #[trigger]
            comments_on(comments, id) == if c.post_id == id {
                comments_on(before, id).push(c)
            } else {
                comments_on(before, id)
            } by {
            reveal_with_fuel(Seq::filter, 2);
            assert(comments.drop_last() =~= before);
        }
        assert(at == groups.len() ==> comments_on(before, c.post_id) =~= Seq::empty()) by {
            if at == groups.len() {
                let p = |x: CommentOf<Seq<char>>| x.post_id == c.post_id;
                assert forall|k: int| 0 <= k < before.len() implies !p(#[trigger] before[k]) by {
                    if before[k].post_id == c.post_id {
                        let i = choose|i: int|
                            0 <= i < groups.len() && (#[trigger] groups[i]).post_id
                                == before[k].post_id;
                        assert(groups[i].post_id != c.post_id);
                    }
                }
                lemma_filter_none(before, p);
            }
        }
        assert forall|i: int| 0 <= i < all.len() implies (#[trigger] all[i]).comments == comments_on(
            comments,
            all[i].post_id,
        ) && all[i].comments.len() > 0 by {
            if i < groups.len() {
                assert(groups[i].comments == comments_on(before, groups[i].post_id));
                if i != at {
                    if at < groups.len() {
                        assert(groups[i].post_id != groups[at].post_id);
                    }
                }
            }
        }
        assert forall|k: int| 0 <= k < comments.len() implies exists|i: int|
            0 <= i < all.len() && (#[trigger] all[i]).post_id == (
            #[trigger] comments[k]).post_id by {
            if k < before.len() {
                assert(before[k] == comments[k]);
                let i = choose|i: int|
                    0 <= i < groups.len() && (#[trigger] groups[i]).post_id == before[k].post_id;
                assert(all[i].post_id == comments[k].post_id);
            } else {
                assert(all[at].post_id == c.post_id);
            }
        }
    }
}

proof fn lemma_filter_none<A>(s: Seq<A>, p: spec_fn(A) -> bool)
    requires
        forall|k: int| 0 <= k < s.len() ==> !p(#[trigger] s[k]),
    ensures
        s.filter(p) =~= Seq::empty(),
    decreases s.len(),
{
    reveal(Seq::filter);
    if s.len() > 0 {
        let front = s.drop_last();
        assert forall|k: int| 0 <= k < front.len() implies !p(#[trigger] front[k]) by {
            assert(front[k] == s[k]);
        }
        lemma_filter_none(front, p);
        assert(!p(s[s.len() - 1]));
    }
}

/// Where among `groups` the comments on a post stand; their number where they do not.
fn find_group(groups: &Vec<PostComments>, post_id: i64) -> (i: usize)
    ensures
        i == group_index(views(groups@), post_id),
{
    let ghost all = views(groups@);
    let n = groups.len();
    let mut i: usize = 0;
    proof {
        assert(all.skip(0) =~= all);
    }
    while i < n
        invariant
            n == groups@.len(),
            all == views(groups@),
            i <= n,
            group_index(all, post_id) == i + group_index(all.skip(i as int), post_id),
        decreases n - i,
    {
        proof {
            assert(all.skip(i as int)[0] == groups@[i as int]@);
            assert(all.skip(i as int).drop_first() =~= all.skip(i + 1));
        }
        if groups[i].post_id == post_id {
            return i;
        }
        i = i + 1;
    }
    i
}

/// Parts comments by the post they are on.
pub fn group_comments(comments: Vec<Comment>) -> (r: Vec<PostComments>)
    ensures
        views(r@) == grouped(views(comments@)),
{
    let ghost all = views(comments@);
    let mut groups: Vec<PostComments> = Vec::new();
    proof {
        assert(all.take(0) =~= Seq::empty());
        assert(views(groups@) =~= Seq::empty());
    }
    for comment in it: comments.into_iter()
        invariant
            it.seq() == comments@,
            all == views(comments@),
            views(groups@) == grouped(all.take(it.index() as int)),
    {
        let ghost k = it.index() as int;
        let ghost before = groups@;
        proof {
            assert(all.take(k + 1).drop_last() =~= all.take(k));
            assert(all.take(k + 1).last() == comment@);
            lemma_group_index(views(groups@), comment.post_id);
        }
        let i = find_group(&groups, comment.post_id);
        if i < groups.len() {
            groups[i].comments.push(comment);
            proof {
                assert(views(groups@[i as int].comments@) =~= views(before[i as int].comments@).push(
                    comment@,
                ));
                assert(views(groups@) =~= grouped(all.take(k + 1)));
            }
        } else {
            let post_id = comment.post_id;
            let group = PostCommentsOf { post_id, comments: vec![comment] };
            proof {
                assert(group@.comments =~= seq![comment@]);
            }
            groups.push(group);
            proof {
                assert(views(groups@) =~= grouped(all.take(k + 1)));
            }
        }
    }
    proof {
        assert(all.take(all.len() as int) =~= all);
    }
    groups
}

/// A request for a thread. `T` is the type of text, `J` that of jars.
pub struct ThreadRequestOf<T, J> {
    pub jar: J,
    pub thread_id: i64,
    pub page: i64,
    pub offset: i64,
    pub csrf_token: T,
    pub current_user: Option<T>,
    pub is_admin: bool,
}

/// A request for a thread.
pub type ThreadRequest = ThreadRequestOf<String, CookieJar>;

/// A request for a thread as contracts speak of it.
pub type ThreadRequestView = ThreadRequestOf<Seq<char>, JarView>;

impl View for ThreadRequestOf<String, CookieJar> {
    type V = ThreadRequestView;

    open spec fn view(&self) -> ThreadRequestView {
        ThreadRequestOf {
            jar: jar_view(self.jar),
            thread_id: self.thread_id,
            page: self.page,
            offset: self.offset,
            csrf_token: self.csrf_token@,
            current_user: optional(self.current_user),
            is_admin: self.is_admin,
        }
    }
}

/// Which reply the page of a thread waits for. `R` is the type of requests, `J` that of jars,
/// `P` that of pages.
pub enum ThreadStateOf<R, J, P> {
    User(R),
    Thread(R),
    Count { jar: J, thread_id: i64, offset: i64, page: P },
    Posts { jar: J, page: P },
    Comments { jar: J, page: P },
}

/// Which reply the page of a thread waits for.
pub type ThreadState = ThreadStateOf<ThreadRequest, CookieJar, ThreadPage>;

/// Which reply the page of a thread waits for, as contracts speak of it.
pub type ThreadStateView = ThreadStateOf<ThreadRequestView, JarView, ThreadPageView>;

impl View for ThreadStateOf<ThreadRequest, CookieJar, ThreadPage> {
    type V = ThreadStateView;

    open spec fn view(&self) -> ThreadStateView {
        match self {
            ThreadStateOf::User(request) => ThreadStateOf::User(request@),
            ThreadStateOf::Thread(request) => ThreadStateOf::Thread(request@),
            ThreadStateOf::Count { jar, thread_id, offset, page } => ThreadStateOf::Count {
                jar: jar_view(*jar),
                thread_id: *thread_id,
                offset: *offset,
                page: page@,
            },
            ThreadStateOf::Posts { jar, page } => ThreadStateOf::Posts {
                jar: jar_view(*jar),
                page: page@,
            },
            ThreadStateOf::Comments { jar, page } => ThreadStateOf::Comments {
                jar: jar_view(*jar),
                page: page@,
            },
        }
    }
}

/// The answer where there is no such thread.
pub open spec fn not_found(jar: JarView) -> ResponseView {
    ResponseOf::Html { jar, body: "404 Not Found"@ }
}

/// How the page of a thread begins: with the question who the visitor is, or, of one without a
/// session, with the thread.
pub open spec fn thread_begun(
    jar: JarView,
    csrf_token: Seq<char>,
    thread_id: i64,
    page: Option<i64>,
    now: i64,
) -> StepView<ThreadStateView> {
    let request = ThreadRequestOf {
        jar,
        thread_id,
        page: page_number(page),
        offset: capped_offset(page, POSTS_PER_PAGE),
        csrf_token,
        current_user: None,
        is_admin: false,
    };
    match session_question(jar, now) {
        Some(question) => asked(question, ThreadStateOf::User(request)),
        None => asked(CommandOf::FindThread { thread_id }, ThreadStateOf::Thread(request)),
    }
}

/// The numbers of the posts.
pub open spec fn post_ids(posts: Seq<PostOf<Seq<char>>>) -> Seq<i64> {
    Seq::new(posts.len(), |i: int| posts[i].id)
}

/// How the page of a thread goes on after a reply.
pub open spec fn thread_next(state: ThreadStateView, reply: ReplyView) -> StepView<
    ThreadStateView,
> {
    match state {
        ThreadStateOf::User(request) => {
            let request = match visitor(reply) {
                Some(user) => ThreadRequestOf {
                    current_user: Some(user.name),
                    is_admin: user.is_admin,
                    ..request
                },
                None => request,
            };
            asked(
                CommandOf::FindThread { thread_id: request.thread_id },
                ThreadStateOf::Thread(request),
            )
        },
        ThreadStateOf::Thread(request) => match found::<Thread>(reply) {
            Some(thread) => asked(
                CommandOf::CountPosts { thread_id: request.thread_id },
                ThreadStateOf::Count {
                    jar: request.jar,
                    thread_id: request.thread_id,
                    offset: request.offset,
                    page: ThreadPageView {
                        current_user: request.current_user,
                        is_admin: request.is_admin,
                        thread,
                        posts: Seq::empty(),
                        comments_map: Seq::empty(),
                        page: request.page,
                        total_pages: 1,
                        csrf_token: request.csrf_token,
                    },
                },
            ),
            None => ended(Seq::empty(), not_found(request.jar)),
        },
        ThreadStateOf::Count { jar, thread_id, offset, page } => {
            let total_pages = page_count(counted(reply) as int, POSTS_PER_PAGE as int) as i64;
            asked(
                CommandOf::ListPosts { thread_id, limit: POSTS_PER_PAGE, offset },
                ThreadStateOf::Posts { jar, page: ThreadPageView { total_pages, ..page } },
            )
        },
        ThreadStateOf::Posts { jar, page } => {
            let posts = listed::<Post>(reply);
            let page = ThreadPageView { posts, ..page };
            if posts.len() == 0 {
                ended(Seq::empty(), paged(jar, PageView::Thread(page)))
            } else {
                asked(
                    CommandOf::ListComments { post_ids: post_ids(posts) },
                    ThreadStateOf::Comments { jar, page },
                )
            }
        },
        ThreadStateOf::Comments { jar, page } => {
            let comments_map = grouped(listed::<Comment>(reply));
            ended(
                Seq::empty(),
                paged(jar, PageView::Thread(ThreadPageView { comments_map, ..page })),
            )
        },
    }
}

/// Begins the page of a thread for a visitor whose forms `csrf_token` guards.
pub fn thread_view_with(
    jar: CookieJar,
    csrf_token: String,
    thread_id: i64,
    page: Option<i64>,
    now: i64,
) -> (r: Step<ThreadState>)
    ensures
        r@ == thread_begun(jar_view(jar), csrf_token@, thread_id, page, now),
{
    let question = get_current_user(&jar, now);
    let request = ThreadRequestOf {
        jar,
        thread_id,
        page: requested_page(page),
        offset: offset_within(page, POSTS_PER_PAGE),
        csrf_token,
        current_user: None,
        is_admin: false,
    };
    match question {
        Some(command) => ask(command, ThreadStateOf::User(request)),
        None => ask(CommandOf::FindThread { thread_id }, ThreadStateOf::Thread(request)),
    }
}

/// Begins the page of a thread.
pub fn thread_view(jar: CookieJar, thread_id: i64, page: Option<i64>, now: i64) -> (r: Step<
    ThreadState,
>)
    ensures
        exists|after: JarView, token: Seq<char>|
            #[trigger] csrf_ensured(jar_view(jar), after, token) && r@ == thread_begun(
                after,
                token,
                thread_id,
                page,
                now,
            ),
{
    let (after, token) = ensure_csrf_token(jar);
    thread_view_with(after, token, thread_id, page, now)
}

/// The numbers of the posts.
fn ids_of(posts: &Vec<Post>) -> (r: Vec<i64>)
    ensures
        r@ == post_ids(views(posts@)),
{
    let mut ids: Vec<i64> = Vec::new();
    for i in 0..posts.len()
        invariant
            ids@ == post_ids(views(posts@)).take(i as int),
    {
        ids.push(posts[i].id);
        proof {
            assert(ids@ =~= post_ids(views(posts@)).take(i + 1));
        }
    }
    proof {
        assert(post_ids(views(posts@)).take(posts@.len() as int) =~= post_ids(views(posts@)));
    }
    ids
}

impl ThreadStateOf<ThreadRequest, CookieJar, ThreadPage> {
    /// Goes on with the page of a thread after a reply.
    pub fn advance(self, reply: &Reply) -> (r: Step<ThreadState>)
        ensures
            r@ == thread_next(self@, reply@),
    {
        match self {
            ThreadStateOf::User(request) => {
                let mut request = request;
                match read_visitor(reply) {
                    Some(user) => {
                        request.current_user = Some(user.name);
                        request.is_admin = user.is_admin;
                    },
                    None => {},
                }
                let thread_id = request.thread_id;
                ask(CommandOf::FindThread { thread_id }, ThreadStateOf::Thread(request))
            },
            ThreadStateOf::Thread(request) => match find::<Thread>(reply) {
                Some(thread) => {
                    let thread_id = request.thread_id;
                    let page = ThreadPage {
                        current_user: request.current_user,
                        is_admin: request.is_admin,
                        thread,
                        posts: Vec::new(),
                        comments_map: Vec::new(),
                        page: request.page,
                        total_pages: 1,
                        csrf_token: request.csrf_token,
                    };
                    proof {
                        assert(page@.posts =~= Seq::empty());
                        assert(page@.comments_map =~= Seq::empty());
                    }
                    let state = ThreadStateOf::Count {
                        jar: request.jar,
                        thread_id,
                        offset: request.offset,
                        page,
                    };
                    ask(CommandOf::CountPosts { thread_id }, state)
                },
                None => respond(
                    ResponseOf::Html { jar: request.jar, body: "404 Not Found".to_owned() },
                ),
            },
            ThreadStateOf::Count { jar, thread_id, offset, page } => {
                let mut page = page;
                page.total_pages = pages_of(count(reply), POSTS_PER_PAGE);
                ask(
                    CommandOf::ListPosts { thread_id, limit: POSTS_PER_PAGE, offset },
                    ThreadStateOf::Posts { jar, page },
                )
            },
            ThreadStateOf::Posts { jar, page } => {
                let mut page = page;
                page.posts = list::<Post>(reply);
                if page.posts.len() == 0 {
                    respond(ResponseOf::Page { jar, page: Page::Thread(page) })
                } else {
                    let post_ids = ids_of(&page.posts);
                    ask(
                        CommandOf::ListComments { post_ids },
                        ThreadStateOf::Comments { jar, page },
                    )
                }
            },
            ThreadStateOf::Comments { jar, page } => {
                let mut page = page;
                page.comments_map = group_comments(list::<Comment>(reply));
                respond(ResponseOf::Page { jar, page: Page::Thread(page) })
            },
        }
    }
}

/// What the page of a thread shows, by what the database answers.
pub open spec fn thread_page(
    jar: JarView,
    csrf_token: Seq<char>,
    thread_id: i64,
    thread: ThreadOf<Seq<char>>,
    page: Option<i64>,
    now: i64,
    answers: spec_fn(CommandView) -> ReplyView,
) -> ThreadPageView {
    let user = current_visitor(jar, now, answers);
    let offset = capped_offset(page, POSTS_PER_PAGE);
    let total = counted(answers(CommandOf::CountPosts { thread_id }));
    let posts = listed::<Post>(
        answers(CommandOf::ListPosts { thread_id, limit: POSTS_PER_PAGE, offset }),
    );
    ThreadPageView {
        current_user: visitor_name(user),
        is_admin: user is Some && user->0.is_admin,
        thread,
        posts,
        comments_map: if posts.len() == 0 {
            Seq::empty()
        } else {
            grouped(
                listed::<Comment>(answers(CommandOf::ListComments { post_ids: post_ids(posts) })),
            )
        },
        page: page_number(page),
        total_pages: page_count(total as int, POSTS_PER_PAGE as int) as i64,
        csrf_token,
    }
}

/// The page of a thread always comes about, and shows what the database answers; where there
/// is no such thread, that is said instead. Nothing is written on the way.
pub proof fn law_thread_page(
    jar: JarView,
    csrf_token: Seq<char>,
    thread_id: i64,
    page: Option<i64>,
    now: i64,
    answers: spec_fn(CommandView) -> ReplyView,
)
    ensures
        run(
            thread_begun(jar, csrf_token, thread_id, page, now),
            |s: ThreadStateView, r: ReplyView| thread_next(s, r),
            answers,
            5,
        ) matches Some((commands, response)) && response == (match found::<Thread>(
            answers(CommandOf::FindThread { thread_id }),
        ) {
            Some(thread) => paged(
                jar,
                PageView::Thread(
                    thread_page(jar, csrf_token, thread_id, thread, page, now, answers),
                ),
            ),
            None => not_found(jar),
        }) && only_reads(commands),
{
    reveal_with_fuel(run, 6);
}

} // verus!
