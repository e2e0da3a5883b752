//! New threads, replies and comments.
use vstd::prelude::*;
use axum_extra::extract::cookie::CookieJar;
use crate::cookies::{csrf_ok, jar_view, valid_csrf, JarView};
use crate::dialogue::{
    ask, asked, comes_to, commands_view, csrf_rejected, current_visitor, end, ended, forbidden,
    get_current_user, group_written, lemma_comes_to, read_visitor, redirect, redirected, respond,
    run, session_question, visitor, written, Next, ResponseView, Step, StepView,
};
use crate::markup::{clamp_text, clamped};
use crate::records::{find_int, found_int, ReplyView, UserOf};
use crate::store::{Command, CommandOf, CommandView, Reply, ReplyOf};
use crate::text::{decimal, to_decimal, trim, trimmed};

verus! {

/// How many bytes about a title may have.
pub const TITLE_BYTES: usize = 140;

/// How many bytes about the name of an author may have.
pub const AUTHOR_BYTES: usize = 32;

/// How many bytes about a post may have.
pub const POST_BYTES: usize = 5000;

/// How many bytes about a comment may have.
pub const COMMENT_BYTES: usize = 2000;

/// The category of a thread where there is none to be found.
pub const LAST_RESORT_CATEGORY: i64 = 1;

/// The address of a thread.
pub open spec fn thread_address(thread_id: i64) -> Seq<char> {
    "/thread/"@ + decimal(thread_id as int)
}

/// The address of a post in its thread.
pub open spec fn post_address(thread_id: i64, post_id: i64) -> Seq<char> {
    "/thread/"@ + decimal(thread_id as int) + "#p"@ + decimal(post_id as int)
}

fn address_of_thread(thread_id: i64) -> (r: String)
    ensures
        r@ == thread_address(thread_id),
{
    let mut s = "/thread/".to_owned();
    s.append(to_decimal(thread_id).as_str());
    s
}

fn address_of_post(thread_id: i64, post_id: i64) -> (r: String)
    ensures
        r@ == post_address(thread_id, post_id),
{
    let mut s = address_of_thread(thread_id);
    s.append("#p");
    s.append(to_decimal(post_id).as_str());
    s
}

/// A form for a new thread. `T` is the type of text.
#[derive(Debug, PartialEq)]
pub struct CreateThreadFormOf<T> {
    pub title: T,
    pub content: T,
    pub category_id: Option<i64>,
    pub csrf_token: T,
}

/// A form for a new thread.
pub type CreateThreadForm = CreateThreadFormOf<String>;

impl View for CreateThreadFormOf<String> {
    type V = CreateThreadFormOf<Seq<char>>;

    open spec fn view(&self) -> CreateThreadFormOf<Seq<char>> {
        CreateThreadFormOf {
            title: self.title@,
            content: self.content@,
            category_id: self.category_id,
            csrf_token: self.csrf_token@,
        }
    }
}

/// A thread that is about to be opened. `T` is the type of text.
#[derive(Debug, PartialEq)]
pub struct DraftOf<T> {
    pub title: T,
    pub author: T,
    pub content: T,
    pub user_id: i64,
}

/// A thread that is about to be opened.
pub type Draft = DraftOf<String>;

impl View for DraftOf<String> {
    type V = DraftOf<Seq<char>>;

    open spec fn view(&self) -> DraftOf<Seq<char>> {
        DraftOf {
            title: self.title@,
            author: self.author@,
            content: self.content@,
            user_id: self.user_id,
        }
    }
}

/// Which reply a new thread waits for. `F` is the type of forms, `D` that of drafts.
#[derive(Debug, PartialEq)]
pub enum CreateStateOf<F, D> {
    User(F),
    Category(D),
    Insert { draft: D, created_at: i64 },
}

/// Which reply a new thread waits for.
pub type CreateState = CreateStateOf<CreateThreadForm, Draft>;

/// Which reply a new thread waits for, as contracts speak of it.
pub type CreateStateView = CreateStateOf<CreateThreadFormOf<Seq<char>>, DraftOf<Seq<char>>>;

impl View for CreateStateOf<CreateThreadForm, Draft> {
    type V = CreateStateView;

    open spec fn view(&self) -> CreateStateView {
        match self {
            CreateStateOf::User(form) => CreateStateOf::User(form@),
            CreateStateOf::Category(draft) => CreateStateOf::Category(draft@),
            CreateStateOf::Insert { draft, created_at } => CreateStateOf::Insert {
                draft: draft@,
                created_at: *created_at,
            },
        }
    }
}

/// How a form begins that only members may send: it is turned down without the token that
/// guards it, and a visitor without a session is sent to log in.
pub open spec fn member_form_begun<S>(
    jar: JarView,
    csrf_token: Seq<char>,
    now: i64,
    state: S,
) -> StepView<S> {
    if !csrf_ok(jar, csrf_token) {
        ended(Seq::empty(), forbidden())
    } else {
        match session_question(jar, now) {
            Some(question) => asked(question, state),
            None => ended(Seq::empty(), redirected("/login"@)),
        }
    }
}

fn begin_member_form<S: View>(jar: &CookieJar, csrf_token: &str, now: i64, state: S) -> (r: Step<S>)
    ensures
        r@ == member_form_begun(jar_view(*jar), csrf_token@, now, state@),
{
    if !valid_csrf(jar, csrf_token) {
        return respond(csrf_rejected());
    }
    match get_current_user(jar, now) {
        Some(question) => ask(question, state),
        None => respond(redirect("/login")),
    }
}

/// The thread that a form asks for: trimmed, and each text cut down to its measure.
pub open spec fn draft_of(
    form: CreateThreadFormOf<Seq<char>>,
    user: UserOf<Seq<char>>,
) -> DraftOf<Seq<char>> {
    DraftOf {
        title: clamped(trimmed(form.title), TITLE_BYTES as int),
        author: clamped(user.name, AUTHOR_BYTES as int),
        content: clamped(trimmed(form.content), POST_BYTES as int),
        user_id: user.id,
    }
}

/// The command that opens a thread.
pub open spec fn thread_insertion(
    draft: DraftOf<Seq<char>>,
    category_id: i64,
    now: i64,
) -> CommandView {
    CommandOf::InsertThread {
        title: draft.title,
        created_at: now,
        category_id,
        user_id: draft.user_id,
    }
}

/// The commands that put the first post into a thread.
pub open spec fn first_post(
    draft: DraftOf<Seq<char>>,
    thread_id: i64,
    created_at: i64,
) -> Seq<CommandView> {
    post_insertion(thread_id, draft.author, draft.content, draft.user_id, created_at)
}

/// The commands that put a post into a thread and count it.
pub open spec fn post_insertion(
    thread_id: i64,
    author: Seq<char>,
    content: Seq<char>,
    user_id: i64,
    now: i64,
) -> Seq<CommandView> {
    seq![
        CommandOf::InsertPost { thread_id, author, content, created_at: now, user_id },
        CommandOf::CountNewPost { now, thread_id },
    ]
}

/// How a new thread goes on after a reply.
pub open spec fn create_next(state: CreateStateView, reply: ReplyView, now: i64) -> StepView<
    CreateStateView,
> {
    match state {
        CreateStateOf::User(form) => match visitor(reply) {
            None => ended(Seq::empty(), redirected("/login"@)),
            Some(user) => if trimmed(form.title).len() == 0 || trimmed(form.content).len() == 0 {
                ended(Seq::empty(), redirected("/"@))
            } else {
                let draft = draft_of(form, user);
                match form.category_id {
                    Some(category_id) => asked(
                        thread_insertion(draft, category_id, now),
                        CreateStateOf::Insert { draft, created_at: now },
                    ),
                    None => asked(CommandOf::FirstCategory, CreateStateOf::Category(draft)),
                }
            },
        },
        CreateStateOf::Category(draft) => {
            let category_id = match found_int(reply) {
                Some(id) => id,
                None => LAST_RESORT_CATEGORY,
            };
            asked(
                thread_insertion(draft, category_id, now),
                CreateStateOf::Insert { draft, created_at: now },
            )
        },
        CreateStateOf::Insert { draft, created_at } => match reply {
            ReplyOf::Done { rowid } => ended(
                first_post(draft, rowid, created_at),
                redirected(thread_address(rowid)),
            ),
            _ => ended(Seq::empty(), redirected("/"@)),
        },
    }
}

/// Begins a new thread.
pub fn create_thread(jar: &CookieJar, form: CreateThreadForm, now: i64) -> (r: Step<CreateState>)
    ensures
        r@ == member_form_begun(
            jar_view(*jar),
            form.csrf_token@,
            now,
            CreateStateView::User(form@),
        ),
{
    let csrf_token = form.csrf_token.clone();
    begin_member_form(jar, csrf_token.as_str(), now, CreateStateOf::User(form))
}

/// The step that opens a thread.
fn insert_thread(draft: Draft, category_id: i64, now: i64) -> (r: Step<CreateState>)
    ensures
        r@ == asked(
            thread_insertion(draft@, category_id, now),
            CreateStateView::Insert { draft: draft@, created_at: now },
        ),
{
    let command = CommandOf::InsertThread {
        title: draft.title.clone(),
        created_at: now,
        category_id,
        user_id: draft.user_id,
    };
    ask(command, CreateStateOf::Insert { draft, created_at: now })
}

/// The commands that put a post into a thread and count it.
fn insert_post(thread_id: i64, author: String, content: String, user_id: i64, now: i64) -> (r: Vec<
    Command,
>)
    ensures
        commands_view(r@) == post_insertion(
            thread_id,
            author@,
            content@,
            user_id,
            now,
        ),
{
    let commands: Vec<Command> = vec![
        CommandOf::InsertPost { thread_id, author, content, created_at: now, user_id },
        CommandOf::CountNewPost { now, thread_id },
    ];
    proof {
        assert(commands_view(commands@) =~= post_insertion(
            thread_id,
            author@,
            content@,
            user_id,
            now,
        ));
    }
    commands
}

impl CreateStateOf<CreateThreadForm, Draft> {
    /// Goes on with a new thread after a reply.
    pub fn advance(self, reply: &Reply, now: i64) -> (r: Step<CreateState>)
        ensures
            r@ == create_next(self@, reply@, now),
    {
        match self {
            CreateStateOf::User(form) => {
                let user = match read_visitor(reply) {
                    Some(user) => user,
                    None => {
                        return respond(redirect("/login"));
                    },
                };
                let title = trim(form.title.as_str());
                let content = trim(form.content.as_str());
                if title.as_str().is_empty() || content.as_str().is_empty() {
                    return respond(redirect("/"));
                }
                let draft = DraftOf {
                    title: clamp_text(title.as_str(), TITLE_BYTES),
                    author: clamp_text(user.name.as_str(), AUTHOR_BYTES),
                    content: clamp_text(content.as_str(), POST_BYTES),
                    user_id: user.id,
                };
                match form.category_id {
                    Some(category_id) => insert_thread(draft, category_id, now),
                    None => ask(CommandOf::FirstCategory, CreateStateOf::Category(draft)),
                }
            },
            CreateStateOf::Category(draft) => {
                let category_id = match find_int(reply) {
                    Some(id) => id,
                    None => LAST_RESORT_CATEGORY,
                };
                insert_thread(draft, category_id, now)
            },
            CreateStateOf::Insert { draft, created_at } => match reply {
                ReplyOf::Done { rowid } => {
                    let address = address_of_thread(*rowid);
                    end(
                        insert_post(*rowid, draft.author, draft.content, draft.user_id, created_at),
                        redirect(address.as_str()),
                    )
                },
                _ => respond(redirect("/")),
            },
        }
    }
}

/// A form for a reply or a comment. `T` is the type of text.
#[derive(Debug, PartialEq)]
pub struct ReplyFormOf<T> {
    pub content: T,
    pub csrf_token: T,
}

/// A form for a reply or a comment.
pub type ReplyForm = ReplyFormOf<String>;

/// Which reply an answer to a thread or post waits for. `T` is the type of text.
#[derive(Debug, PartialEq)]
pub enum AnswerStateOf<T> {
    /// Who writes under the thread or post of this number.
    User { target: i64, content: T },
    /// The thread that the answer goes to.
    Thread { target: i64, content: T, author: T, user_id: i64 },
}

/// Which reply an answer to a thread or post waits for.
pub type AnswerState = AnswerStateOf<String>;

/// Which reply an answer waits for, as contracts speak of it.
pub type AnswerStateView = AnswerStateOf<Seq<char>>;

impl View for AnswerStateOf<String> {
    type V = AnswerStateView;

    open spec fn view(&self) -> AnswerStateView {
        match self {
            AnswerStateOf::User { target, content } => AnswerStateOf::User {
                target: *target,
                content: content@,
            },
            AnswerStateOf::Thread { target, content, author, user_id } => AnswerStateOf::Thread {
                target: *target,
                content: content@,
                author: author@,
                user_id: *user_id,
            },
        }
    }
}

/// How a reply to a thread goes on after a reply of the database.
pub open spec fn reply_next(state: AnswerStateView, reply: ReplyView, now: i64) -> StepView<
    AnswerStateView,
> {
    match state {
        AnswerStateOf::User { target, content } => match visitor(reply) {
            None => ended(Seq::empty(), redirected("/login"@)),
            Some(user) => asked(
                CommandOf::ThreadExists { thread_id: target },
                AnswerStateOf::Thread { target, content, author: user.name, user_id: user.id },
            ),
        },
        AnswerStateOf::Thread { target, content, author, user_id } => if found_int(reply) is None {
            ended(Seq::empty(), redirected("/"@))
        } else if trimmed(content).len() == 0 {
            ended(Seq::empty(), redirected(thread_address(target)))
        } else {
            ended(
                post_insertion(
                    target,
                    clamped(author, AUTHOR_BYTES as int),
                    clamped(trimmed(content), POST_BYTES as int),
                    user_id,
                    now,
                ),
                redirected(thread_address(target)),
            )
        },
    }
}

/// Begins a reply to a thread.
pub fn reply(jar: &CookieJar, thread_id: i64, form: ReplyForm, now: i64) -> (r: Step<AnswerState>)
    ensures
        r@ == member_form_begun(
            jar_view(*jar),
            form.csrf_token@,
            now,
            AnswerStateOf::User { target: thread_id, content: form.content@ },
        ),
{
    begin_member_form(
        jar,
        form.csrf_token.as_str(),
        now,
        AnswerStateOf::User { target: thread_id, content: form.content },
    )
}

/// The commands that put a comment under a post and mark its thread as active.
pub open spec fn comment_insertion(
    post_id: i64,
    thread_id: i64,
    author: Seq<char>,
    content: Seq<char>,
    user_id: i64,
    now: i64,
) -> Seq<CommandView> {
    seq![
        CommandOf::InsertComment { post_id, author, content, created_at: now, user_id },
        CommandOf::TouchThread { now, thread_id },
    ]
}

/// How a comment on a post goes on after a reply of the database.
pub open spec fn comment_next(state: AnswerStateView, reply: ReplyView, now: i64) -> StepView<
    AnswerStateView,
> {
    match state {
        AnswerStateOf::User { target, content } => match visitor(reply) {
            None => ended(Seq::empty(), redirected("/login"@)),
            Some(user) => asked(
                CommandOf::ThreadOfPost { post_id: target },
                AnswerStateOf::Thread { target, content, author: user.name, user_id: user.id },
            ),
        },
        AnswerStateOf::Thread { target, content, author, user_id } => match found_int(reply) {
            None => ended(Seq::empty(), redirected("/"@)),
            Some(thread_id) => if trimmed(content).len() == 0 {
                ended(Seq::empty(), redirected(thread_address(thread_id)))
            } else {
                ended(
                    comment_insertion(
                        target,
                        thread_id,
                        clamped(author, AUTHOR_BYTES as int),
                        clamped(trimmed(content), COMMENT_BYTES as int),
                        user_id,
                        now,
                    ),
                    redirected(post_address(thread_id, target)),
                )
            },
        },
    }
}

/// Begins a comment on a post.
pub fn comment(jar: &CookieJar, post_id: i64, form: ReplyForm, now: i64) -> (r: Step<AnswerState>)
    ensures
        r@ == member_form_begun(
            jar_view(*jar),
            form.csrf_token@,
            now,
            AnswerStateOf::User { target: post_id, content: form.content@ },
        ),
{
    begin_member_form(
        jar,
        form.csrf_token.as_str(),
        now,
        AnswerStateOf::User { target: post_id, content: form.content },
    )
}

impl AnswerStateOf<String> {
    /// Goes on with a reply to a thread after a reply of the database.
    pub fn advance_reply(self, reply: &Reply, now: i64) -> (r: Step<AnswerState>)
        ensures
            r@ == reply_next(self@, reply@, now),
    {
        match self {
            AnswerStateOf::User { target, content } => match read_visitor(reply) {
                None => respond(redirect("/login")),
                Some(user) => ask(
                    CommandOf::ThreadExists { thread_id: target },
                    AnswerStateOf::Thread { target, content, author: user.name, user_id: user.id },
                ),
            },
            AnswerStateOf::Thread { target, content, author, user_id } => {
                if find_int(reply).is_none() {
                    return respond(redirect("/"));
                }
                let address = address_of_thread(target);
                let content = trim(content.as_str());
                if content.as_str().is_empty() {
                    return respond(redirect(address.as_str()));
                }
                let author = clamp_text(author.as_str(), AUTHOR_BYTES);
                let content = clamp_text(content.as_str(), POST_BYTES);
                end(insert_post(target, author, content, user_id, now), redirect(address.as_str()))
            },
        }
    }

    /// Goes on with a comment on a post after a reply of the database.
    pub fn advance_comment(self, reply: &Reply, now: i64) -> (r: Step<AnswerState>)
        ensures
            r@ == comment_next(self@, reply@, now),
    {
        match self {
            AnswerStateOf::User { target, content } => match read_visitor(reply) {
                None => respond(redirect("/login")),
                Some(user) => ask(
                    CommandOf::ThreadOfPost { post_id: target },
                    AnswerStateOf::Thread { target, content, author: user.name, user_id: user.id },
                ),
            },
            AnswerStateOf::Thread { target, content, author, user_id } => {
                let thread_id = match find_int(reply) {
                    None => {
                        return respond(redirect("/"));
                    },
                    Some(thread_id) => thread_id,
                };
                let content = trim(content.as_str());
                if content.as_str().is_empty() {
                    return respond(redirect(address_of_thread(thread_id).as_str()));
                }
                let author = clamp_text(author.as_str(), AUTHOR_BYTES);
                let content = clamp_text(content.as_str(), COMMENT_BYTES);
                let commands: Vec<Command> = vec![
                    CommandOf::InsertComment {
                        post_id: target,
                        author,
                        content,
                        created_at: now,
                        user_id,
                    },
                    CommandOf::TouchThread { now, thread_id },
                ];
                proof {
                    assert(commands_view(commands@) =~= comment_insertion(
                        target,
                        thread_id,
                        author@,
                        content@,
                        user_id,
                        now,
                    ));
                }
                end(commands, redirect(address_of_post(thread_id, target).as_str()))
            },
        }
    }
}

/// The category of a new thread: the one that was chosen, or else the first.
pub open spec fn category_of(
    form: CreateThreadFormOf<Seq<char>>,
    answers: spec_fn(CommandView) -> ReplyView,
) -> i64 {
    match form.category_id {
        Some(id) => id,
        None => match found_int(answers(CommandOf::FirstCategory)) {
            Some(id) => id,
            None => LAST_RESORT_CATEGORY,
        },
    }
}

/// What comes of opening a thread, by what the database answers: what is written, and the
/// response.
pub open spec fn opened_outcome(
    draft: DraftOf<Seq<char>>,
    category_id: i64,
    now: i64,
    answers: spec_fn(CommandView) -> ReplyView,
) -> (Seq<CommandView>, ResponseView) {
    let insertion = thread_insertion(draft, category_id, now);
    match answers(insertion) {
        ReplyOf::Done { rowid } => (
            seq![insertion] + first_post(draft, rowid, now),
            redirected(thread_address(rowid)),
        ),
        _ => (seq![insertion], redirected("/"@)),
    }
}

/// What comes of a form for a new thread, by what the database answers: what is written, and
/// the response.
pub open spec fn create_outcome(
    jar: JarView,
    form: CreateThreadFormOf<Seq<char>>,
    now: i64,
    later: i64,
    answers: spec_fn(CommandView) -> ReplyView,
) -> (Seq<CommandView>, ResponseView) {
    if !csrf_ok(jar, form.csrf_token) {
        (Seq::empty(), forbidden())
    } else {
        match current_visitor(jar, now, answers) {
            None => (Seq::empty(), redirected("/login"@)),
            Some(user) => if trimmed(form.title).len() == 0 || trimmed(form.content).len() == 0 {
                (Seq::empty(), redirected("/"@))
            } else {
                opened_outcome(draft_of(form, user), category_of(form, answers), later, answers)
            },
        }
    }
}

/// What comes of a new thread once its category is known.
proof fn lemma_inserted(
    draft: DraftOf<Seq<char>>,
    category_id: i64,
    now: i64,
    answers: spec_fn(CommandView) -> ReplyView,
    limit: nat,
)
    requires
        limit > 0,
    ensures
        comes_to(
            run(
                asked(
                    thread_insertion(draft, category_id, now),
                    CreateStateView::Insert { draft, created_at: now },
                ),
                |s: CreateStateView, r: ReplyView| create_next(s, r, now),
                answers,
                limit,
            ),
            opened_outcome(draft, category_id, now, answers),
        ),
{
    broadcast use group_written;

    let next = |s: CreateStateView, r: ReplyView| create_next(s, r, now);
    let insertion = thread_insertion(draft, category_id, now);
    let state = CreateStateView::Insert { draft, created_at: now };
    let step = asked(insertion, state);
    let rest = match answers(insertion) {
        ReplyOf::Done { rowid } => (
            first_post(draft, rowid, now),
            redirected(thread_address(rowid)),
        ),
        _ => (Seq::empty(), redirected("/"@)),
    };
    lemma_comes_to(step, state, next, answers, limit, rest);
    assert(written(step.commands) + rest.0 =~= opened_outcome(
        draft,
        category_id,
        now,
        answers,
    ).0);
}

/// A form for a new thread always comes to an end. It writes nothing unless it carries the
/// token that guards it and a member sent it, with a title and a text; it then opens a thread
/// in the name of that member, and puts the text into it as the first post.
pub proof fn law_create_thread(
    jar: JarView,
    form: CreateThreadFormOf<Seq<char>>,
    now: i64,
    later: i64,
    answers: spec_fn(CommandView) -> ReplyView,
)
    ensures
        comes_to(
            run(
                member_form_begun(jar, form.csrf_token, now, CreateStateView::User(form)),
                |s: CreateStateView, r: ReplyView| create_next(s, r, later),
                answers,
                3,
            ),
            create_outcome(jar, form, now, later, answers),
        ),
{
    broadcast use group_written;

    let next = |s: CreateStateView, r: ReplyView| create_next(s, r, later);
    let state = CreateStateView::User(form);
    let begun = member_form_begun(jar, form.csrf_token, now, state);
    let outcome = create_outcome(jar, form, now, later, answers);
    if begun.next is Await {
        let reply = answers(begun.commands.last());
        let step = create_next(state, reply, later);
        if step.next is Await {
            let draft = draft_of(form, visitor(reply)->0);
            let category_id = category_of(form, answers);
            if form.category_id is None {
                lemma_inserted(draft, category_id, later, answers, 1);
                let waiting = CreateStateView::Category(draft);
                lemma_comes_to(step, waiting, next, answers, 2, outcome);
                assert(written(step.commands) + outcome.0 =~= outcome.0);
            } else {
                lemma_inserted(draft, category_id, later, answers, 2);
            }
        }
        lemma_comes_to(begun, state, next, answers, 3, outcome);
        assert(written(begun.commands) + outcome.0 =~= outcome.0);
    }
}

/// What comes of a form for a reply, by what the database answers.
pub open spec fn reply_outcome(
    jar: JarView,
    thread_id: i64,
    form: ReplyFormOf<Seq<char>>,
    now: i64,
    later: i64,
    answers: spec_fn(CommandView) -> ReplyView,
) -> (Seq<CommandView>, ResponseView) {
    if !csrf_ok(jar, form.csrf_token) {
        (Seq::empty(), forbidden())
    } else {
        match current_visitor(jar, now, answers) {
            None => (Seq::empty(), redirected("/login"@)),
            Some(user) => if found_int(answers(CommandOf::ThreadExists { thread_id })) is None {
                (Seq::empty(), redirected("/"@))
            } else if trimmed(form.content).len() == 0 {
                (Seq::empty(), redirected(thread_address(thread_id)))
            } else {
                (
                    post_insertion(
                        thread_id,
                        clamped(user.name, AUTHOR_BYTES as int),
                        clamped(trimmed(form.content), POST_BYTES as int),
                        user.id,
                        later,
                    ),
                    redirected(thread_address(thread_id)),
                )
            },
        }
    }
}

/// A form for a reply always comes to an end. It writes nothing unless it carries the token
/// that guards it, a member sent it, the thread exists and there is a text; it then adds the
/// text to that thread in the name of that member.
pub proof fn law_reply(
    jar: JarView,
    thread_id: i64,
    form: ReplyFormOf<Seq<char>>,
    now: i64,
    later: i64,
    answers: spec_fn(CommandView) -> ReplyView,
)
    ensures
        comes_to(
            run(
                member_form_begun(
                    jar,
                    form.csrf_token,
                    now,
                    AnswerStateOf::User { target: thread_id, content: form.content },
                ),
                |s: AnswerStateView, r: ReplyView| reply_next(s, r, later),
                answers,
                2,
            ),
            reply_outcome(jar, thread_id, form, now, later, answers),
        ),
{
    broadcast use group_written;

    let next = |s: AnswerStateView, r: ReplyView| reply_next(s, r, later);
    let state = AnswerStateView::User { target: thread_id, content: form.content };
    let begun = member_form_begun(jar, form.csrf_token, now, state);
    let outcome = reply_outcome(jar, thread_id, form, now, later, answers);
    if begun.next is Await {
        let step = reply_next(state, answers(begun.commands.last()), later);
        if let Next::Await(waiting) = step.next {
            lemma_comes_to(step, waiting, next, answers, 1, outcome);
            assert(written(step.commands) + outcome.0 =~= outcome.0);
        }
        lemma_comes_to(begun, state, next, answers, 2, outcome);
        assert(written(begun.commands) + outcome.0 =~= outcome.0);
    }
}

/// What comes of a form for a comment, by what the database answers.
pub open spec fn comment_outcome(
    jar: JarView,
    post_id: i64,
    form: ReplyFormOf<Seq<char>>,
    now: i64,
    later: i64,
    answers: spec_fn(CommandView) -> ReplyView,
) -> (Seq<CommandView>, ResponseView) {
    if !csrf_ok(jar, form.csrf_token) {
        (Seq::empty(), forbidden())
    } else {
        match current_visitor(jar, now, answers) {
            None => (Seq::empty(), redirected("/login"@)),
            Some(user) => match found_int(answers(CommandOf::ThreadOfPost { post_id })) {
                None => (Seq::empty(), redirected("/"@)),
                Some(thread_id) => if trimmed(form.content).len() == 0 {
                    (Seq::empty(), redirected(thread_address(thread_id)))
                } else {
                    (
                        comment_insertion(
                            post_id,
                            thread_id,
                            clamped(user.name, AUTHOR_BYTES as int),
                            clamped(trimmed(form.content), COMMENT_BYTES as int),
                            user.id,
                            later,
                        ),
                        redirected(post_address(thread_id, post_id)),
                    )
                },
            },
        }
    }
}

/// A form for a comment always comes to an end. It writes nothing unless it carries the token
/// that guards it, a member sent it, the post exists and there is a text; it then adds the
/// text to that post in the name of that member.
pub proof fn law_comment(
    jar: JarView,
    post_id: i64,
    form: ReplyFormOf<Seq<char>>,
    now: i64,
    later: i64,
    answers: spec_fn(CommandView) -> ReplyView,
)
    ensures
        comes_to(
            run(
                member_form_begun(
                    jar,
                    form.csrf_token,
                    now,
                    AnswerStateOf::User { target: post_id, content: form.content },
                ),
                |s: AnswerStateView, r: ReplyView| comment_next(s, r, later),
                answers,
                2,
            ),
            comment_outcome(jar, post_id, form, now, later, answers),
        ),
{
    broadcast use group_written;

    let next = |s: AnswerStateView, r: ReplyView| comment_next(s, r, later);
    let state = AnswerStateView::User { target: post_id, content: form.content };
    let begun = member_form_begun(jar, form.csrf_token, now, state);
    let outcome = comment_outcome(jar, post_id, form, now, later, answers);
    if begun.next is Await {
        let step = comment_next(state, answers(begun.commands.last()), later);
        if let Next::Await(waiting) = step.next {
            lemma_comes_to(step, waiting, next, answers, 1, outcome);
            assert(written(step.commands) + outcome.0 =~= outcome.0);
        }
        lemma_comes_to(begun, state, next, answers, 2, outcome);
        assert(written(begun.commands) + outcome.0 =~= outcome.0);
    }
}

} // verus!
