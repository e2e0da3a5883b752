//! What visitors see: the pages, their cookies, and the pictures to solve.
use vstd::prelude::*;
use axum_extra::extract::cookie::CookieJar;
use crate::captcha::{captcha_ended, captcha_stored, is_uuid};
use crate::cookies::{
    csrf_ensured, forum_cookie, jar_changes, jar_values, jar_view, removal_of, CookieView, JarView,
    SameSite,
};
use crate::dialogue::{run, Next, ResponseView};
use crate::index::{index_begun, index_next, IndexStateView};
use crate::laws::premises::{
    carries_token, gives_no_text, gives_no_number, gives_number, gives_text, has_session,
    is_visited_by, tells_of_nobody, who,
};
use crate::pages::{template_of, PageView};
use crate::records::{
    found, listed, Category, CategoryOf, Comment, CommentOf, Member, Post, PostOf, RecentPost,
    ReplyView, Thread, ThreadOf, UserOf,
};
use crate::session::{login_page_begun, login_page_next, logout_ended, LoginPageStateView};
use crate::store::CommandView;
use crate::text::lowercase;
use crate::thread::{
    grouped, law_grouped, lemma_group_index, thread_begun, thread_next, ThreadStateView,
};
use crate::token::is_token;

verus! {

/// Whether a reply counts up to this number; where it tells none, that is 0.
pub open spec fn counts(reply: ReplyView, n: i64) -> bool {
    gives_number(reply, n) || (gives_no_number(reply) && n == 0)
}

/// Whether this is the page that a request asks for: the first where it asks for none, or for one
/// before it.
pub open spec fn is_asked_for(page: Option<i64>, n: i64) -> bool {
    match page {
        Some(asked) => (asked >= 1 ==> n == asked) && (asked < 1 ==> n == 1),
        None => n == 1,
    }
}

/// Whether so many pages of so many entries are just enough for a total, and at least one.
pub open spec fn is_enough(pages: int, per_page: int, total: int) -> bool {
    pages >= 1 && pages * per_page >= total && (pages > 1 ==> (pages - 1) * per_page < total)
}

/// What a request begins with: the question who the visitor is, of one who brings a session.
pub open spec fn opening_question(jar: JarView, now: i64) -> Seq<CommandView> {
    if has_session(jar) {
        seq![who(jar, now)]
    } else {
        Seq::<CommandView>::empty()
    }
}

/// Whether this is what a page says of the visitor: a name and whether they administer the forum,
/// or neither.
pub open spec fn is_greeting(
    jar: JarView,
    now: i64,
    answers: spec_fn(CommandView) -> ReplyView,
    user: UserOf<Seq<char>>,
    name: Option<Seq<char>>,
    is_admin: bool,
) -> bool {
    &&& is_visited_by(jar, now, answers, user) ==> name == Some(user.name) && is_admin
        == user.is_admin
    &&& !has_session(jar) || tells_of_nobody(answers(who(jar, now))) ==> name is None && !is_admin
}

/// The page to log in shows the form that was asked for, or the one to log in, with the CAPTCHA
/// and the token; it greets a member, and says whether one can register.
pub proof fn law_login_shown(
    jar: JarView,
    csrf_token: Seq<char>,
    mode: Option<Seq<char>>,
    now: i64,
    captcha_id: Seq<char>,
    answers: spec_fn(CommandView) -> ReplyView,
    user: UserOf<Seq<char>>,
    value: Seq<char>,
)
    requires
        gives_text(answers(CommandView::RegistrationSetting), value) || (gives_no_text(
            answers(CommandView::RegistrationSetting),
        ) && value == "1"@),
    ensures
        run(
            login_page_begun(jar, csrf_token, mode, now),
            |s: LoginPageStateView, r: ReplyView| login_page_next(s, r, captcha_id),
            answers,
            2,
        ) matches Some((commands, response)) && commands == opening_question(jar, now) + seq![
            CommandView::RegistrationSetting,
        ] && (response matches ResponseView::Page { jar: kept, page } && kept == jar && (
        page matches PageView::Login(shown) && {
            &&& is_visited_by(jar, now, answers, user) ==> shown.current_user == Some(user.name)
            &&& !has_session(jar) || tells_of_nobody(answers(who(jar, now)))
                ==> shown.current_user is None
            &&& mode matches Some(m) ==> shown.mode == m
            &&& mode is None ==> shown.mode == "login"@
            &&& shown.captcha_id == captcha_id
            &&& shown.csrf_token == csrf_token
            &&& shown.registration_disabled <==> value != "1"@
        })),
{
    reveal_with_fuel(run, 3);
    let c = who(jar, now);
    let d = CommandView::RegistrationSetting;
    assert(seq![c] + (seq![d] + Seq::<CommandView>::empty()) =~= seq![c] + seq![d]);
    assert(seq![d] + Seq::<CommandView>::empty() =~= Seq::<CommandView>::empty() + seq![d]);
}

/// Logging out without the token does nothing.
pub proof fn law_logout_refused(jar: JarView, csrf_token: Seq<char>)
    requires
        !carries_token(jar, csrf_token),
    ensures
        logout_ended(jar, csrf_token).commands == Seq::<CommandView>::empty(),
        logout_ended(jar, csrf_token).next == Next::<(), ResponseView>::Respond(
            ResponseView::Text { status: 403, body: "Invalid or missing CSRF token."@ },
        ),
{
}

/// Logging out deletes the session that the visitor brings, if there is one, and hands out a
/// cookie of the same name without a value or a time left; the other cookies stay.
pub proof fn law_logout_told(jar: JarView, csrf_token: Seq<char>)
    requires
        carries_token(jar, csrf_token),
    ensures
        has_session(jar) ==> logout_ended(jar, csrf_token).commands == seq![
            CommandView::DeleteSession { token: jar.values["session_id"@] },
        ],
        !has_session(jar) ==> logout_ended(jar, csrf_token).commands == Seq::<CommandView>::empty(),
        logout_ended(jar, csrf_token).next == Next::<(), ResponseView>::Respond(
            ResponseView::Redirect {
                jar: Some(
                    JarView {
                        values: jar.values.insert("session_id"@, Seq::empty()),
                        changes: jar.changes.insert(
                            "session_id"@,
                            CookieView {
                                name: "session_id"@,
                                value: Seq::empty(),
                                path: "/"@,
                                http_only: true,
                                same_site: SameSite::Strict,
                                max_age: 0,
                            },
                        ),
                    },
                ),
                to: "/"@,
            },
        ),
{
}

/// A cookie of the forum goes to every path, is hidden from scripts and from other sites, and
/// lasts for a week of 604800 seconds. Its removal differs in that it has no value and no time
/// left.
pub proof fn law_forum_cookie(name: Seq<char>, value: Seq<char>)
    ensures
        forum_cookie(name, value) == (CookieView {
            name,
            value,
            path: "/"@,
            http_only: true,
            same_site: SameSite::Strict,
            max_age: 604800,
        }),
        removal_of(forum_cookie(name, value)) == (CookieView {
            name,
            value: Seq::empty(),
            path: "/"@,
            http_only: true,
            same_site: SameSite::Strict,
            max_age: 0,
        }),
{
}

/// A jar is seen as the values that it holds and the cookies that it hands out.
pub proof fn law_jar_seen(jar: CookieJar)
    ensures
        jar_view(jar).values == jar_values(jar),
        jar_view(jar).changes == jar_changes(jar),
{
}

/// A jar gives back the value of the cookie that it was given last under a name, and keeps the
/// others.
pub proof fn law_jar(jar: JarView, cookie: CookieView, name: Seq<char>)
    ensures
        jar.with(cookie).get(cookie.name) == Some(cookie.value),
        jar.with(cookie).changes.contains_key(cookie.name),
        jar.with(cookie).changes[cookie.name] == cookie,
        name != cookie.name ==> jar.with(cookie).get(name) == jar.get(name),
        jar.get(name) is Some <==> jar.values.contains_key(name),
        jar.get(name) matches Some(value) ==> value == jar.values[name],
{
}

/// A visitor keeps the token that guards forms, and gets a fresh one, as a cookie that lasts for
/// a week, only where there is none.
pub proof fn law_token_ensured(before: JarView, after: JarView, token: Seq<char>)
    ensures
        before.values.contains_key("csrf_token"@) ==> (csrf_ensured(before, after, token) <==> token
            == before.values["csrf_token"@] && after == before),
        !before.values.contains_key("csrf_token"@) ==> (csrf_ensured(before, after, token)
            <==> is_token(token) && after == (JarView {
            values: before.values.insert("csrf_token"@, token),
            changes: before.changes.insert(
                "csrf_token"@,
                CookieView {
                    name: "csrf_token"@,
                    value: token,
                    path: "/"@,
                    http_only: true,
                    same_site: SameSite::Strict,
                    max_age: 604800,
                },
            ),
        })),
{
}

/// A CAPTCHA that is drawn is kept for 300 seconds under its number, with the characters that are
/// seen on it, in lowercase; those that have expired go. A number that is no UUID is turned down.
pub proof fn law_captcha_kept(id: Seq<char>, drawn: Seq<char>, now: i64)
    requires
        0 <= now <= i64::MAX - 300,
    ensures
        is_uuid(id) ==> captcha_ended(id, drawn, now).commands == seq![
            CommandView::StoreCaptcha {
                id,
                solution: lowercase(drawn),
                expires_at: (now + 300) as i64,
            },
            CommandView::PurgeCaptchas { now },
        ],
        is_uuid(id) ==> captcha_ended(id, drawn, now).next == Next::<(), ResponseView>::Respond(
            ResponseView::Image { content_type: "image/png"@ },
        ),
        !is_uuid(id) ==> captcha_ended(id, drawn, now).commands == Seq::<CommandView>::empty(),
        !is_uuid(id) ==> captcha_ended(id, drawn, now).next == Next::<(), ResponseView>::Respond(
            ResponseView::Text { status: 400, body: "Invalid CAPTCHA id."@ },
        ),
        captcha_stored(id, drawn, now).commands == seq![
            CommandView::StoreCaptcha { id, solution: drawn, expires_at: (now + 300) as i64 },
            CommandView::PurgeCaptchas { now },
        ],
        captcha_stored(id, drawn, now).next == Next::<(), ResponseView>::Respond(
            ResponseView::Image { content_type: "image/png"@ },
        ),
{
}

/// Each page is rendered from its own template.
pub proof fn law_templates(page: PageView)
    ensures
        page is Index ==> template_of(page) == "index.html"@,
        page is Thread ==> template_of(page) == "thread.html"@,
        page is Login ==> template_of(page) == "login.html"@,
        page is LoginError ==> template_of(page) == "login.html"@,
        page is Admin ==> template_of(page) == "admin.html"@,
{
}

/// What the front page comes to.
pub open spec fn index_run(
    jar: JarView,
    csrf_token: Seq<char>,
    cat: Option<Seq<char>>,
    page: Option<i64>,
    now: i64,
    answers: spec_fn(CommandView) -> ReplyView,
) -> Option<(Seq<CommandView>, ResponseView)> {
    run(
        index_begun(jar, csrf_token, cat, page, now),
        |s: IndexStateView, r: ReplyView| index_next(s, r),
        answers,
        7,
    )
}

/// Whether the category that a request names, if it names one, turns out to be this.
pub open spec fn is_chosen(
    cat: Option<Seq<char>>,
    answers: spec_fn(CommandView) -> ReplyView,
    category: Option<CategoryOf<Seq<char>>>,
) -> bool {
    match cat {
        Some(slug) => found::<Category>(answers(CommandView::FindCategory { slug })) == category,
        None => category is None,
    }
}

/// The front page shows 20 threads, those of the page and category that were asked for, and says
/// how many such pages there are. With them it shows the categories and what was written last;
/// and the members, to administrators alone. It asks for just these things.
pub proof fn law_index_shown(
    jar: JarView,
    csrf_token: Seq<char>,
    cat: Option<Seq<char>>,
    page: Option<i64>,
    now: i64,
    answers: spec_fn(CommandView) -> ReplyView,
    user: UserOf<Seq<char>>,
    category: Option<CategoryOf<Seq<char>>>,
    n: i64,
    offset: i64,
    total: i64,
)
    requires
        is_asked_for(page, n),
        offset == (n - 1) * 20,
        is_chosen(cat, answers, category),
        counts(
            answers(
                match category {
                    Some(c) => CommandView::CountThreadsIn { category_id: c.id },
                    None => CommandView::CountThreads,
                },
            ),
            total,
        ),
    ensures
        index_run(jar, csrf_token, cat, page, now, answers) matches Some((commands, response)) && (
        response matches ResponseView::Page { jar: kept, page: PageView::Index(shown) } && {
            let count = match category {
                Some(c) => CommandView::CountThreadsIn { category_id: c.id },
                None => CommandView::CountThreads,
            };
            let threads = match category {
                Some(c) => CommandView::ListThreadsIn { category_id: c.id, limit: 20, offset },
                None => CommandView::ListThreads { limit: 20, offset },
            };
            &&& kept == jar
            &&& is_greeting(jar, now, answers, user, shown.current_user, shown.is_admin)
            &&& shown.threads == listed::<Thread>(answers(threads))
            &&& shown.categories == listed::<Category>(answers(CommandView::ListCategories))
            &&& shown.cat == category
            &&& shown.recent_posts == listed::<RecentPost>(answers(CommandView::RecentPosts))
            &&& shown.is_admin ==> shown.all_users == listed::<Member>(
                answers(CommandView::ListMembers),
            )
            &&& !shown.is_admin ==> shown.all_users.len() == 0
            &&& shown.page == n
            &&& is_enough(shown.total_pages as int, 20, total as int)
            &&& shown.csrf_token == csrf_token
            &&& commands == opening_question(jar, now) + seq![CommandView::ListCategories] + (
            match cat {
                Some(slug) => seq![CommandView::FindCategory { slug }],
                None => Seq::<CommandView>::empty(),
            }) + seq![count, threads, CommandView::RecentPosts] + (if shown.is_admin {
                seq![CommandView::ListMembers]
            } else {
                Seq::<CommandView>::empty()
            })
        }),
{
    reveal_with_fuel(run, 8);
}

/// What the page of a thread comes to.
pub open spec fn thread_run(
    jar: JarView,
    csrf_token: Seq<char>,
    thread_id: i64,
    page: Option<i64>,
    now: i64,
    answers: spec_fn(CommandView) -> ReplyView,
) -> Option<(Seq<CommandView>, ResponseView)> {
    run(
        thread_begun(jar, csrf_token, thread_id, page, now),
        |s: ThreadStateView, r: ReplyView| thread_next(s, r),
        answers,
        5,
    )
}

/// A thread that is not found is answered by saying so, and nothing more is asked.
pub proof fn law_thread_missing(
    jar: JarView,
    csrf_token: Seq<char>,
    thread_id: i64,
    page: Option<i64>,
    now: i64,
    answers: spec_fn(CommandView) -> ReplyView,
)
    requires
        found::<Thread>(answers(CommandView::FindThread { thread_id })) is None,
    ensures
        thread_run(jar, csrf_token, thread_id, page, now, answers) == Some(
            (
                opening_question(jar, now) + seq![CommandView::FindThread { thread_id }],
                ResponseView::Html { jar, body: "404 Not Found"@ },
            ),
        ),
{
    reveal_with_fuel(run, 6);
    let c = who(jar, now);
    let d = CommandView::FindThread { thread_id };
    assert(seq![c] + (seq![d] + Seq::<CommandView>::empty()) =~= seq![c] + seq![d]);
    assert(seq![d] + Seq::<CommandView>::empty() =~= Seq::<CommandView>::empty() + seq![d]);
}

/// Whether these are the numbers of posts, in order.
pub open spec fn are_numbers_of(ids: Seq<i64>, posts: Seq<PostOf<Seq<char>>>) -> bool {
    &&& ids.len() == posts.len()
    &&& forall|i: int| 0 <= i < posts.len() ==> #[trigger] ids[i] == posts[i].id
}

/// The page of a thread shows the thread and 50 posts, those of the page that was asked for, with
/// the comments on just these; and it says how many such pages there are. It asks for just these
/// things.
pub proof fn law_thread_shown(
    jar: JarView,
    csrf_token: Seq<char>,
    thread_id: i64,
    page: Option<i64>,
    now: i64,
    answers: spec_fn(CommandView) -> ReplyView,
    user: UserOf<Seq<char>>,
    thread: ThreadOf<Seq<char>>,
    n: i64,
    offset: i64,
    total: i64,
    ids: Seq<i64>,
)
    requires
        found::<Thread>(answers(CommandView::FindThread { thread_id })) == Some(thread),
        is_asked_for(page, n),
        (n - 1) * 50 <= i64::MAX ==> offset == (n - 1) * 50,
        (n - 1) * 50 > i64::MAX ==> offset == i64::MAX,
        counts(answers(CommandView::CountPosts { thread_id }), total),
        are_numbers_of(
            ids,
            listed::<Post>(
                answers(CommandView::ListPosts { thread_id, limit: 50, offset }),
            ),
        ),
    ensures
        thread_run(jar, csrf_token, thread_id, page, now, answers) matches Some(
            (commands, response),
        ) && (response matches ResponseView::Page { jar: kept, page: PageView::Thread(shown) } && {
            let posts = CommandView::ListPosts { thread_id, limit: 50, offset };
            let comments = CommandView::ListComments { post_ids: ids };
            &&& kept == jar
            &&& is_greeting(jar, now, answers, user, shown.current_user, shown.is_admin)
            &&& shown.thread == thread
            &&& shown.posts == listed::<Post>(answers(posts))
            &&& shown.posts.len() > 0 ==> shown.comments_map == grouped(
                listed::<Comment>(answers(comments)),
            )
            &&& shown.posts.len() == 0 ==> shown.comments_map.len() == 0
            &&& shown.page == n
            &&& is_enough(shown.total_pages as int, 50, total as int)
            &&& shown.csrf_token == csrf_token
            &&& commands == opening_question(jar, now) + seq![
                CommandView::FindThread { thread_id },
                CommandView::CountPosts { thread_id },
                posts,
            ] + (if shown.posts.len() > 0 {
                seq![comments]
            } else {
                Seq::<CommandView>::empty()
            })
        }),
{
    reveal_with_fuel(run, 6);
    let listed_posts = listed::<Post>(
        answers(CommandView::ListPosts { thread_id, limit: 50, offset }),
    );
    assert(crate::thread::post_ids(listed_posts) =~= ids);
}

/// One more comment goes to the group of its post, behind the comments that are there; where the
/// post has no group yet, it gets one behind all others. The other groups stay as they are.
pub proof fn law_comment_grouped(comments: Seq<CommentOf<Seq<char>>>, c: CommentOf<Seq<char>>, i: int)
    requires
        0 <= i < grouped(comments.push(c)).len(),
    ensures
        ({
            let before = grouped(comments);
            let after = grouped(comments.push(c));
            &&& grouped(Seq::<CommentOf<Seq<char>>>::empty()).len() == 0
            &&& after.len() == before.len() || after.len() == before.len() + 1
            &&& i < before.len() ==> after[i].post_id == before[i].post_id
            &&& i < before.len() && before[i].post_id == c.post_id ==> after[i].comments
                == before[i].comments.push(c)
            &&& i < before.len() && before[i].post_id != c.post_id ==> after[i] == before[i]
            &&& i == before.len() ==> after[i].post_id == c.post_id && after[i].comments == seq![c]
            &&& i < before.len() && before[i].post_id == c.post_id ==> after.len() == before.len()
        }),
{
    assert(comments.push(c).drop_last() =~= comments);
    lemma_group_index(grouped(comments), c.post_id);
    law_grouped(comments);
}

} // verus!
