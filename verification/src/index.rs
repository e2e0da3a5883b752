//! The front page: threads, newest activity first, by category and page.
use vstd::prelude::*;
use axum_extra::extract::cookie::CookieJar;
use crate::cookies::{csrf_ensured, ensure_csrf_token, jar_view, JarView};
use crate::dialogue::{
    ask, asked, current_visitor, ended, get_current_user, only_reads, paged, read_visitor, respond,
    run, session_question, visitor, visitor_name, ResponseOf, Step, StepView,
};
use crate::pages::{IndexPage, IndexPageView, Page, PageView};
use crate::paging::{
    offset_of, page_count, page_fits, page_number, page_offset, pages_of, requested_page,
    THREADS_PER_PAGE,
};
use crate::records::{
    count, counted, find, found, list, listed, optional, Category, CategoryOf, Member, RecentPost,
    ReplyView, Thread,
};
use crate::store::{CommandOf, CommandView, Reply};

verus! {

/// Which reply the front page waits for.
#[derive(Debug, Clone, Copy, PartialEq, Eq, Structural)]
pub enum IndexStage {
    User,
    Categories,
    Category,
    Count,
    Threads,
    Recent,
    Members,
}

/// The front page while it is put together.
pub struct IndexState {
    pub jar: CookieJar,
    /// The category that was asked for.
    pub cat: Option<String>,
    pub offset: i64,
    pub page: IndexPage,
    pub stage: IndexStage,
}

/// The front page while it is put together, as contracts speak of it.
pub struct IndexStateView {
    pub jar: JarView,
    pub cat: Option<Seq<char>>,
    pub offset: i64,
    pub page: IndexPageView,
    pub stage: IndexStage,
}

impl View for IndexState {
    type V = IndexStateView;

    open spec fn view(&self) -> IndexStateView {
        IndexStateView {
            jar: jar_view(self.jar),
            cat: optional(self.cat),
            offset: self.offset,
            page: self.page@,
            stage: self.stage,
        }
    }
}

/// The front page before anything is known.
pub open spec fn index_blank(csrf_token: Seq<char>, page: Option<i64>) -> IndexPageView {
    IndexPageView {
        current_user: None,
        is_admin: false,
        all_users: Seq::empty(),
        threads: Seq::empty(),
        categories: Seq::empty(),
        cat: None,
        recent_posts: Seq::empty(),
        page: page_number(page),
        total_pages: 1,
        csrf_token,
    }
}

/// How the front page begins: with the question who the visitor is, or, of one without a
/// session, with the categories.
pub open spec fn index_begun(
    jar: JarView,
    csrf_token: Seq<char>,
    cat: Option<Seq<char>>,
    page: Option<i64>,
    now: i64,
) -> StepView<IndexStateView> {
    let state = IndexStateView {
        jar,
        cat,
        offset: page_offset(page, THREADS_PER_PAGE) as i64,
        page: index_blank(csrf_token, page),
        stage: IndexStage::User,
    };
    match session_question(jar, now) {
        Some(question) => asked(question, state),
        None => asked(
            CommandOf::ListCategories,
            IndexStateView { stage: IndexStage::Categories, ..state },
        ),
    }
}

/// The question how many threads there are, in a category or in all.
pub open spec fn count_question(cat: Option<CategoryOf<Seq<char>>>) -> CommandView {
    match cat {
        Some(c) => CommandOf::CountThreadsIn { category_id: c.id },
        None => CommandOf::CountThreads,
    }
}

/// The question which threads a page lists, in a category or in all.
pub open spec fn threads_question(
    cat: Option<CategoryOf<Seq<char>>>,
    offset: i64,
) -> CommandView {
    match cat {
        Some(c) => CommandOf::ListThreadsIn { category_id: c.id, limit: THREADS_PER_PAGE, offset },
        None => CommandOf::ListThreads { limit: THREADS_PER_PAGE, offset },
    }
}

/// How the front page goes on after a reply.
pub open spec fn index_next(state: IndexStateView, reply: ReplyView) -> StepView<IndexStateView> {
    let page = state.page;
    match state.stage {
        IndexStage::User => {
            let page = match visitor(reply) {
                Some(user) => IndexPageView {
                    current_user: Some(user.name),
                    is_admin: user.is_admin,
                    ..page
                },
                None => page,
            };
            asked(
                CommandOf::ListCategories,
                IndexStateView { page, stage: IndexStage::Categories, ..state },
            )
        },
        IndexStage::Categories => {
            let page = IndexPageView { categories: listed::<Category>(reply), ..page };
            match state.cat {
                Some(slug) => asked(
                    CommandOf::FindCategory { slug },
                    IndexStateView { page, stage: IndexStage::Category, ..state },
                ),
                None => asked(
                    count_question(None),
                    IndexStateView { page, stage: IndexStage::Count, ..state },
                ),
            }
        },
        IndexStage::Category => {
            let cat = found::<Category>(reply);
            asked(
                count_question(cat),
                IndexStateView {
                    page: IndexPageView { cat, ..page },
                    stage: IndexStage::Count,
                    ..state
                },
            )
        },
        IndexStage::Count => {
            let total_pages = page_count(counted(reply) as int, THREADS_PER_PAGE as int) as i64;
            asked(
                threads_question(page.cat, state.offset),
                IndexStateView {
                    page: IndexPageView { total_pages, ..page },
                    stage: IndexStage::Threads,
                    ..state
                },
            )
        },
        IndexStage::Threads => asked(
            CommandOf::RecentPosts,
            IndexStateView {
                page: IndexPageView { threads: listed::<Thread>(reply), ..page },
                stage: IndexStage::Recent,
                ..state
            },
        ),
        IndexStage::Recent => {
            let page = IndexPageView { recent_posts: listed::<RecentPost>(reply), ..page };
            if page.is_admin {
                asked(
                    CommandOf::ListMembers,
                    IndexStateView { page, stage: IndexStage::Members, ..state },
                )
            } else {
                ended(Seq::empty(), paged(state.jar, PageView::Index(page)))
            }
        },
        IndexStage::Members => {
            let page = IndexPageView { all_users: listed::<Member>(reply), ..page };
            ended(Seq::empty(), paged(state.jar, PageView::Index(page)))
        },
    }
}

/// Begins the front page for a visitor whose forms `csrf_token` guards.
pub fn index_with(
    jar: CookieJar,
    csrf_token: String,
    cat: Option<String>,
    page: Option<i64>,
    now: i64,
) -> (r: Step<IndexState>)
    requires
        page_fits(page, THREADS_PER_PAGE),
    ensures
        r@ == index_begun(jar_view(jar), csrf_token@, optional(cat), page, now),
{
    let question = get_current_user(&jar, now);
    let blank = IndexPage {
        current_user: None,
        is_admin: false,
        all_users: Vec::new(),
        threads: Vec::new(),
        categories: Vec::new(),
        cat: None,
        recent_posts: Vec::new(),
        page: requested_page(page),
        total_pages: 1,
        csrf_token,
    };
    let mut state = IndexState {
        jar,
        cat,
        offset: offset_of(page, THREADS_PER_PAGE),
        page: blank,
        stage: IndexStage::User,
    };
    proof {
        assert(blank@.all_users =~= Seq::empty());
        assert(blank@.threads =~= Seq::empty());
        assert(blank@.categories =~= Seq::empty());
        assert(blank@.recent_posts =~= Seq::empty());
    }
    match question {
        Some(command) => ask(command, state),
        None => {
            state.stage = IndexStage::Categories;
            ask(CommandOf::ListCategories, state)
        },
    }
}

/// Begins the front page.
pub fn index(jar: CookieJar, cat: Option<String>, page: Option<i64>, now: i64) -> (r: Step<
    IndexState,
>)
    requires
        page_fits(page, THREADS_PER_PAGE),
    ensures
        exists|after: JarView, token: Seq<char>|
            #[trigger] csrf_ensured(jar_view(jar), after, token) && r@ == index_begun(
                after,
                token,
                optional(cat),
                page,
                now,
            ),
{
    let (after, token) = ensure_csrf_token(jar);
    index_with(after, token, cat, page, now)
}

impl IndexState {
    /// Goes on with the front page after a reply.
    pub fn advance(self, reply: &Reply) -> (r: Step<IndexState>)
        ensures
            r@ == index_next(self@, reply@),
    {
        let mut state = self;
        match state.stage {
            IndexStage::User => {
                match read_visitor(reply) {
                    Some(user) => {
                        state.page.current_user = Some(user.name);
                        state.page.is_admin = user.is_admin;
                    },
                    None => {},
                }
                state.stage = IndexStage::Categories;
                ask(CommandOf::ListCategories, state)
            },
            IndexStage::Categories => {
                state.page.categories = list::<Category>(reply);
                match &state.cat {
                    Some(slug) => {
                        let command = CommandOf::FindCategory { slug: slug.clone() };
                        state.stage = IndexStage::Category;
                        ask(command, state)
                    },
                    None => {
                        state.stage = IndexStage::Count;
                        ask(CommandOf::CountThreads, state)
                    },
                }
            },
            IndexStage::Category => {
                state.page.cat = find::<Category>(reply);
                let command = match &state.page.cat {
                    Some(c) => CommandOf::CountThreadsIn { category_id: c.id },
                    None => CommandOf::CountThreads,
                };
                state.stage = IndexStage::Count;
                ask(command, state)
            },
            IndexStage::Count => {
                state.page.total_pages = pages_of(count(reply), THREADS_PER_PAGE);
                let offset = state.offset;
                let command = match &state.page.cat {
                    Some(c) => CommandOf::ListThreadsIn {
                        category_id: c.id,
                        limit: THREADS_PER_PAGE,
                        offset,
                    },
                    None => CommandOf::ListThreads { limit: THREADS_PER_PAGE, offset },
                };
                state.stage = IndexStage::Threads;
                ask(command, state)
            },
            IndexStage::Threads => {
                state.page.threads = list::<Thread>(reply);
                state.stage = IndexStage::Recent;
                ask(CommandOf::RecentPosts, state)
            },
            IndexStage::Recent => {
                state.page.recent_posts = list::<RecentPost>(reply);
                if state.page.is_admin {
                    state.stage = IndexStage::Members;
                    ask(CommandOf::ListMembers, state)
                } else {
                    respond(ResponseOf::Page { jar: state.jar, page: Page::Index(state.page) })
                }
            },
            IndexStage::Members => {
                state.page.all_users = list::<Member>(reply);
                respond(ResponseOf::Page { jar: state.jar, page: Page::Index(state.page) })
            },
        }
    }
}

/// What the front page shows, by what the database answers.
pub open spec fn index_page(
    jar: JarView,
    csrf_token: Seq<char>,
    cat: Option<Seq<char>>,
    page: Option<i64>,
    now: i64,
    answers: spec_fn(CommandView) -> ReplyView,
) -> IndexPageView {
    let user = current_visitor(jar, now, answers);
    let is_admin = user is Some && user->0.is_admin;
    let shown = match cat {
        Some(slug) => found::<Category>(answers(CommandOf::FindCategory { slug })),
        None => None,
    };
    let offset = page_offset(page, THREADS_PER_PAGE) as i64;
    let total = counted(answers(count_question(shown)));
    IndexPageView {
        current_user: visitor_name(user),
        is_admin,
        all_users: if is_admin {
            listed::<Member>(answers(CommandOf::ListMembers))
        } else {
            Seq::empty()
        },
        threads: listed::<Thread>(answers(threads_question(shown, offset))),
        categories: listed::<Category>(answers(CommandOf::ListCategories)),
        cat: shown,
        recent_posts: listed::<RecentPost>(answers(CommandOf::RecentPosts)),
        page: page_number(page),
        total_pages: page_count(total as int, THREADS_PER_PAGE as int) as i64,
        csrf_token,
    }
}

/// The front page always comes about, and shows what the database answers: the threads of
/// the category that was asked for, or of all where there is no such category; the members
/// only to an administrator. Nothing is written on the way.
pub proof fn law_index_page(
    jar: JarView,
    csrf_token: Seq<char>,
    cat: Option<Seq<char>>,
    page: Option<i64>,
    now: i64,
    answers: spec_fn(CommandView) -> ReplyView,
)
    ensures
        run(
            index_begun(jar, csrf_token, cat, page, now),
            |s: IndexStateView, r: ReplyView| index_next(s, r),
            answers,
            7,
        ) matches Some((commands, response)) && response == paged(
            jar,
            PageView::Index(index_page(jar, csrf_token, cat, page, now, answers)),
        ) && only_reads(commands),
{
    reveal_with_fuel(run, 8);
}

} // verus!
