//! What the pages of the forum show.
use vstd::prelude::*;
use crate::records::{
    optional, views, Category, CategoryOf, Comment, CommentOf, Member, MemberOf, Post, PostOf,
    RecentPost, RecentPostOf, Thread, ThreadOf,
};

verus! {

/// The front page.
pub struct IndexPage {
    pub current_user: Option<String>,
    pub is_admin: bool,
    pub all_users: Vec<Member>,
    pub threads: Vec<Thread>,
    pub categories: Vec<Category>,
    /// The category whose threads are shown, if not those of all.
    pub cat: Option<Category>,
    pub recent_posts: Vec<RecentPost>,
    pub page: i64,
    pub total_pages: i64,
    pub csrf_token: String,
}

/// The front page as contracts speak of it.
pub struct IndexPageView {
    pub current_user: Option<Seq<char>>,
    pub is_admin: bool,
    pub all_users: Seq<MemberOf<Seq<char>>>,
    pub threads: Seq<ThreadOf<Seq<char>>>,
    pub categories: Seq<CategoryOf<Seq<char>>>,
    pub cat: Option<CategoryOf<Seq<char>>>,
    pub recent_posts: Seq<RecentPostOf<Seq<char>>>,
    pub page: i64,
    pub total_pages: i64,
    pub csrf_token: Seq<char>,
}

/// A category that may be missing.
pub open spec fn optional_category(cat: Option<Category>) -> Option<CategoryOf<Seq<char>>> {
    match cat {
        Some(c) => Some(c@),
        None => None,
    }
}

impl View for IndexPage {
    type V = IndexPageView;

    open spec fn view(&self) -> IndexPageView {
        IndexPageView {
            current_user: optional(self.current_user),
            is_admin: self.is_admin,
            all_users: views(self.all_users@),
            threads: views(self.threads@),
            categories: views(self.categories@),
            cat: optional_category(self.cat),
            recent_posts: views(self.recent_posts@),
            page: self.page,
            total_pages: self.total_pages,
            csrf_token: self.csrf_token@,
        }
    }
}

/// The comments on one post. `C` is the type of lists of comments.
#[derive(Debug, PartialEq)]
pub struct PostCommentsOf<C> {
    pub post_id: i64,
    pub comments: C,
}

/// The comments on one post.
pub type PostComments = PostCommentsOf<Vec<Comment>>;

impl View for PostCommentsOf<Vec<Comment>> {
    type V = PostCommentsOf<Seq<CommentOf<Seq<char>>>>;

    open spec fn view(&self) -> PostCommentsOf<Seq<CommentOf<Seq<char>>>> {
        PostCommentsOf { post_id: self.post_id, comments: views(self.comments@) }
    }
}

/// The page of a thread.
pub struct ThreadPage {
    pub current_user: Option<String>,
    pub is_admin: bool,
    pub thread: Thread,
    pub posts: Vec<Post>,
    pub comments_map: Vec<PostComments>,
    pub page: i64,
    pub total_pages: i64,
    pub csrf_token: String,
}

/// The page of a thread as contracts speak of it.
pub struct ThreadPageView {
    pub current_user: Option<Seq<char>>,
    pub is_admin: bool,
    pub thread: ThreadOf<Seq<char>>,
    pub posts: Seq<PostOf<Seq<char>>>,
    pub comments_map: Seq<PostCommentsOf<Seq<CommentOf<Seq<char>>>>>,
    pub page: i64,
    pub total_pages: i64,
    pub csrf_token: Seq<char>,
}

impl View for ThreadPage {
    type V = ThreadPageView;

    open spec fn view(&self) -> ThreadPageView {
        ThreadPageView {
            current_user: optional(self.current_user),
            is_admin: self.is_admin,
            thread: self.thread@,
            posts: views(self.posts@),
            comments_map: views(self.comments_map@),
            page: self.page,
            total_pages: self.total_pages,
            csrf_token: self.csrf_token@,
        }
    }
}

/// The page with the forms to log in and to register. `T` is the type of text.
#[derive(Debug, PartialEq)]
pub struct LoginPageOf<T> {
    pub current_user: Option<T>,
    pub mode: T,
    pub captcha_id: T,
    pub csrf_token: T,
    pub registration_disabled: bool,
}

/// The page with the forms to log in and to register.
pub type LoginPage = LoginPageOf<String>;

impl View for LoginPageOf<String> {
    type V = LoginPageOf<Seq<char>>;

    open spec fn view(&self) -> LoginPageOf<Seq<char>> {
        LoginPageOf {
            current_user: optional(self.current_user),
            mode: self.mode@,
            captcha_id: self.captcha_id@,
            csrf_token: self.csrf_token@,
            registration_disabled: self.registration_disabled,
        }
    }
}

/// The same page after a form was turned down. `T` is the type of text.
#[derive(Debug, PartialEq)]
pub struct LoginErrorOf<T> {
    pub error: T,
    pub mode: T,
    /// The CAPTCHA to solve next; none where there is no form to fill in.
    pub captcha_id: Option<T>,
    pub csrf_token: T,
    pub registration_disabled: bool,
}

/// The page to log in and to register, after a form was turned down.
pub type LoginError = LoginErrorOf<String>;

impl View for LoginErrorOf<String> {
    type V = LoginErrorOf<Seq<char>>;

    open spec fn view(&self) -> LoginErrorOf<Seq<char>> {
        LoginErrorOf {
            error: self.error@,
            mode: self.mode@,
            captcha_id: optional(self.captcha_id),
            csrf_token: self.csrf_token@,
            registration_disabled: self.registration_disabled,
        }
    }
}

/// The page of the administrators.
pub struct AdminPage {
    pub current_user: Option<String>,
    pub is_admin: bool,
    pub categories: Vec<Category>,
    pub all_users: Vec<Member>,
    pub csrf_token: String,
    pub registration_enabled: bool,
}

/// The page of the administrators as contracts speak of it.
pub struct AdminPageView {
    pub current_user: Option<Seq<char>>,
    pub is_admin: bool,
    pub categories: Seq<CategoryOf<Seq<char>>>,
    pub all_users: Seq<MemberOf<Seq<char>>>,
    pub csrf_token: Seq<char>,
    pub registration_enabled: bool,
}

impl View for AdminPage {
    type V = AdminPageView;

    open spec fn view(&self) -> AdminPageView {
        AdminPageView {
            current_user: optional(self.current_user),
            is_admin: self.is_admin,
            categories: views(self.categories@),
            all_users: views(self.all_users@),
            csrf_token: self.csrf_token@,
            registration_enabled: self.registration_enabled,
        }
    }
}

/// A page.
pub enum Page {
    Index(IndexPage),
    Thread(ThreadPage),
    Login(LoginPage),
    LoginError(LoginError),
    Admin(AdminPage),
}

/// A page as contracts speak of it.
pub enum PageView {
    Index(IndexPageView),
    Thread(ThreadPageView),
    Login(LoginPageOf<Seq<char>>),
    LoginError(LoginErrorOf<Seq<char>>),
    Admin(AdminPageView),
}

impl View for Page {
    type V = PageView;

    open spec fn view(&self) -> PageView {
        match self {
            Page::Index(page) => PageView::Index(page@),
            Page::Thread(page) => PageView::Thread(page@),
            Page::Login(page) => PageView::Login(page@),
            Page::LoginError(page) => PageView::LoginError(page@),
            Page::Admin(page) => PageView::Admin(page@),
        }
    }
}

/// The template that shows a page.
pub open spec fn template_of(page: PageView) -> Seq<char> {
    match page {
        PageView::Index(_) => "index.html"@,
        PageView::Thread(_) => "thread.html"@,
        PageView::Login(_) | PageView::LoginError(_) => "login.html"@,
        PageView::Admin(_) => "admin.html"@,
    }
}

impl Page {
    /// The template that shows the page.
    pub fn template(&self) -> (r: &'static str)
        ensures
            r@ == template_of(self@),
    {
        match self {
            Page::Index(_) => "index.html",
            Page::Thread(_) => "thread.html",
            Page::Login(_) | Page::LoginError(_) => "login.html",
            Page::Admin(_) => "admin.html",
        }
    }
}

/// What is shown where a template fails.
pub fn template_failure(message: &str) -> (r: String)
    ensures
        r@ == "<pre>"@ + message@ + "</pre>"@,
{
    let mut html = "<pre>".to_owned();
    html.append(message);
    html.append("</pre>");
    html
}

} // verus!
