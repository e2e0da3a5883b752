//! What only administrators may do.
use vstd::prelude::*;
use axum_extra::extract::cookie::CookieJar;
use crate::cookies::{csrf_ensured, csrf_ok, ensure_csrf_token, jar_view, valid_csrf, JarView};
use crate::dialogue::{
    ask, asked, comes_to, commands_view, csrf_rejected, current_visitor, end, ended, forbidden,
    get_current_user, group_written, is_admin_reply, is_registration_enabled, lemma_comes_to,
    only_reads, paged, read_visitor, redirect, redirected, registration_open, respond, run,
    session_question, visitor, written, ResponseOf, ResponseView, Step, StepView,
};
use crate::markup::{clamp_text, clamped, slug, slug_of};
use crate::pages::{AdminPage, AdminPageView, Page, PageView};
use crate::records::{
    count, counted, find_int, found_int, found_text, list, listed, Category, Member, ReplyView,
};
use crate::store::{Command, CommandOf, CommandView, Reply};
use crate::text::{same_text, trim, trimmed};

verus! {

/// How many bytes about the name of a category may have.
pub const CATEGORY_BYTES: usize = 32;

/// What an administrator asks for. `T` is the type of text.
#[derive(Debug, PartialEq)]
pub enum AdminTaskOf<T> {
    DeleteUser { user_id: i64 },
    DeleteThread { thread_id: i64 },
    CreateCategory { name: T },
    DeleteCategory { category_id: i64 },
    SetRegistration { enabled: T },
}

/// What an administrator asks for.
pub type AdminTask = AdminTaskOf<String>;

/// What an administrator asks for, as contracts speak of it.
pub type AdminTaskView = AdminTaskOf<Seq<char>>;

impl View for AdminTaskOf<String> {
    type V = AdminTaskView;

    open spec fn view(&self) -> AdminTaskView {
        match self {
            AdminTaskOf::DeleteUser { user_id } => AdminTaskOf::DeleteUser { user_id: *user_id },
            AdminTaskOf::DeleteThread { thread_id } => AdminTaskOf::DeleteThread {
                thread_id: *thread_id,
            },
            AdminTaskOf::CreateCategory { name } => AdminTaskOf::CreateCategory { name: name@ },
            AdminTaskOf::DeleteCategory { category_id } => AdminTaskOf::DeleteCategory {
                category_id: *category_id,
            },
            AdminTaskOf::SetRegistration { enabled } => AdminTaskOf::SetRegistration {
                enabled: enabled@,
            },
        }
    }
}

/// Which reply a task waits for. `K` is the type of tasks.
#[derive(Debug, PartialEq)]
pub enum AdminStateOf<K> {
    User(K),
    Count { category_id: i64 },
    Fallback { category_id: i64 },
}

/// Which reply a task waits for.
pub type AdminState = AdminStateOf<AdminTask>;

/// Which reply a task waits for, as contracts speak of it.
pub type AdminStateView = AdminStateOf<AdminTaskView>;

impl View for AdminStateOf<AdminTask> {
    type V = AdminStateView;

    open spec fn view(&self) -> AdminStateView {
        match self {
            AdminStateOf::User(task) => AdminStateOf::User(task@),
            AdminStateOf::Count { category_id } => AdminStateOf::Count { category_id: *category_id },
            AdminStateOf::Fallback { category_id } => AdminStateOf::Fallback {
                category_id: *category_id,
            },
        }
    }
}

/// Where a task leads to, whoever asked for it.
pub open spec fn task_address(task: AdminTaskView) -> Seq<char> {
    match task {
        AdminTaskOf::DeleteUser { .. } => "/"@,
        AdminTaskOf::DeleteThread { .. } => "/"@,
        AdminTaskOf::CreateCategory { .. } => "/"@,
        AdminTaskOf::DeleteCategory { .. } => "/admin"@,
        AdminTaskOf::SetRegistration { .. } => "/admin"@,
    }
}

/// Where a task leads to, whoever asked for it.
fn address_of_task(task: &AdminTask) -> (r: &'static str)
    ensures
        r@ == task_address(task@),
{
    match task {
        AdminTaskOf::DeleteUser { .. } => "/",
        AdminTaskOf::DeleteThread { .. } => "/",
        AdminTaskOf::CreateCategory { .. } => "/",
        AdminTaskOf::DeleteCategory { .. } => "/admin",
        AdminTaskOf::SetRegistration { .. } => "/admin",
    }
}

/// The commands that delete a member and all that the member wrote.
pub open spec fn user_deletion(user_id: i64) -> Seq<CommandView> {
    seq![
        CommandOf::DeleteUserThreads { user_id },
        CommandOf::DeleteUserPosts { user_id },
        CommandOf::DeleteUserComments { user_id },
        CommandOf::DeleteUser { user_id },
    ]
}

/// The commands that insert a category: none where nothing stands for it in addresses.
pub open spec fn category_insertion(name: Seq<char>, slug: Seq<char>) -> Seq<CommandView> {
    if slug.len() > 0 {
        seq![CommandOf::InsertCategory { slug, name }]
    } else {
        Seq::empty()
    }
}

/// The commands that create a category, under its trimmed name cut down to its measure: none
/// where there is no name.
pub open spec fn category_creation(name: Seq<char>) -> Seq<CommandView> {
    let short = clamped(trimmed(name), CATEGORY_BYTES as int);
    if trimmed(name).len() > 0 {
        category_insertion(short, slug_of(short))
    } else {
        Seq::empty()
    }
}

/// The commands that delete a category after its threads have moved to another.
pub open spec fn category_deletion(category_id: i64, fallback_id: i64) -> Seq<CommandView> {
    seq![
        CommandOf::MoveThreads { to: fallback_id, from: category_id },
        CommandOf::DeleteCategory { category_id },
    ]
}

/// What is kept of the choice whether one can register.
pub open spec fn registration_value(enabled: Seq<char>) -> Seq<char> {
    if enabled == "1"@ {
        "1"@
    } else {
        "0"@
    }
}

/// How a task begins.
pub open spec fn admin_begun(
    jar: JarView,
    csrf_token: Seq<char>,
    now: i64,
    task: AdminTaskView,
) -> StepView<AdminStateView> {
    if !csrf_ok(jar, csrf_token) {
        ended(Seq::empty(), forbidden())
    } else {
        match session_question(jar, now) {
            Some(question) => asked(question, AdminStateOf::User(task)),
            None => ended(Seq::empty(), redirected(task_address(task))),
        }
    }
}

/// How a task goes on after a reply.
pub open spec fn admin_next(state: AdminStateView, reply: ReplyView) -> StepView<AdminStateView> {
    match state {
        AdminStateOf::User(task) => {
            let response = redirected(task_address(task));
            if !is_admin_reply(reply) {
                ended(Seq::empty(), response)
            } else {
                match task {
                    AdminTaskOf::DeleteUser { user_id } => ended(user_deletion(user_id), response),
                    AdminTaskOf::DeleteThread { thread_id } => ended(
                        seq![CommandOf::DeleteThread { thread_id }],
                        response,
                    ),
                    AdminTaskOf::CreateCategory { name } => ended(
                        category_creation(name),
                        response,
                    ),
                    AdminTaskOf::DeleteCategory { category_id } => asked(
                        CommandOf::CountCategories,
                        AdminStateOf::Count { category_id },
                    ),
                    AdminTaskOf::SetRegistration { enabled } => ended(
                        seq![CommandOf::SetRegistration { value: registration_value(enabled) }],
                        response,
                    ),
                }
            }
        },
        AdminStateOf::Count { category_id } => if counted(reply) > 1 {
            asked(
                CommandOf::FallbackCategory { category_id },
                AdminStateOf::Fallback { category_id },
            )
        } else {
            ended(Seq::empty(), redirected("/admin"@))
        },
        AdminStateOf::Fallback { category_id } => match found_int(reply) {
            Some(fallback_id) => ended(
                category_deletion(category_id, fallback_id),
                redirected("/admin"@),
            ),
            None => ended(Seq::empty(), redirected("/admin"@)),
        },
    }
}

/// Begins a task.
fn begin_task(jar: &CookieJar, csrf_token: &str, now: i64, task: AdminTask) -> (r: Step<AdminState>)
    ensures
        r@ == admin_begun(jar_view(*jar), csrf_token@, now, task@),
{
    if !valid_csrf(jar, csrf_token) {
        return respond(csrf_rejected());
    }
    match get_current_user(jar, now) {
        Some(question) => ask(question, AdminStateOf::User(task)),
        None => respond(redirect(address_of_task(&task))),
    }
}

/// Begins to delete a member.
pub fn admin_delete_user(jar: &CookieJar, user_id: i64, csrf_token: &str, now: i64) -> (r: Step<
    AdminState,
>)
    ensures
        r@ == admin_begun(
            jar_view(*jar),
            csrf_token@,
            now,
            (AdminTaskOf::DeleteUser { user_id }),
        ),
{
    begin_task(jar, csrf_token, now, AdminTaskOf::DeleteUser { user_id })
}

/// Begins to delete a thread.
pub fn admin_delete_thread(jar: &CookieJar, thread_id: i64, csrf_token: &str, now: i64) -> (r: Step<
    AdminState,
>)
    ensures
        r@ == admin_begun(
            jar_view(*jar),
            csrf_token@,
            now,
            (AdminTaskOf::DeleteThread { thread_id }),
        ),
{
    begin_task(jar, csrf_token, now, AdminTaskOf::DeleteThread { thread_id })
}

/// Begins to create a category.
pub fn admin_create_category(jar: &CookieJar, name: String, csrf_token: &str, now: i64) -> (r: Step<
    AdminState,
>)
    ensures
        r@ == admin_begun(
            jar_view(*jar),
            csrf_token@,
            now,
            (AdminTaskOf::CreateCategory { name: name@ }),
        ),
{
    begin_task(jar, csrf_token, now, AdminTaskOf::CreateCategory { name })
}

/// Begins to delete a category.
pub fn admin_delete_category(jar: &CookieJar, category_id: i64, csrf_token: &str, now: i64) -> (r:
    Step<AdminState>)
    ensures
        r@ == admin_begun(
            jar_view(*jar),
            csrf_token@,
            now,
            (AdminTaskOf::DeleteCategory { category_id }),
        ),
{
    begin_task(jar, csrf_token, now, AdminTaskOf::DeleteCategory { category_id })
}

/// Begins to open the registration or to close it.
pub fn admin_set_registration(jar: &CookieJar, enabled: String, csrf_token: &str, now: i64) -> (r:
    Step<AdminState>)
    ensures
        r@ == admin_begun(
            jar_view(*jar),
            csrf_token@,
            now,
            (AdminTaskOf::SetRegistration { enabled: enabled@ }),
        ),
{
    begin_task(jar, csrf_token, now, AdminTaskOf::SetRegistration { enabled })
}

/// The commands that insert a category.
pub fn insert_category(name: String, slug: String) -> (r: Vec<Command>)
    ensures
        commands_view(r@) == category_insertion(name@, slug@),
{
    let mut commands: Vec<Command> = Vec::new();
    if !slug.as_str().is_empty() {
        commands.push(CommandOf::InsertCategory { slug, name });
    }
    proof {
        assert(commands_view(commands@) =~= category_insertion(name@, slug@));
    }
    commands
}

/// The commands that create a category.
fn create_category(name: &str) -> (r: Vec<Command>)
    ensures
        commands_view(r@) == category_creation(name@),
{
    let given = trim(name);
    if given.as_str().is_empty() {
        let commands: Vec<Command> = Vec::new();
        proof {
            assert(commands_view(commands@) =~= Seq::empty());
        }
        return commands;
    }
    let short = clamp_text(given.as_str(), CATEGORY_BYTES);
    let slug = slug(short.as_str());
    insert_category(short, slug)
}

/// The commands of a task that needs to ask nothing more.
fn perform(task: AdminTask) -> (r: Vec<Command>)
    requires
        !(task is DeleteCategory),
    ensures
        match task@ {
            AdminTaskOf::DeleteUser { user_id } => commands_view(r@) == user_deletion(user_id),
            AdminTaskOf::DeleteThread { thread_id } => commands_view(r@) == seq![
                CommandView::DeleteThread { thread_id },
            ],
            AdminTaskOf::CreateCategory { name } => commands_view(r@) == category_creation(name),
            AdminTaskOf::DeleteCategory { .. } => true,
            AdminTaskOf::SetRegistration { enabled } => commands_view(r@) == seq![
                CommandView::SetRegistration { value: registration_value(enabled) },
            ],
        },
{
    match task {
        AdminTaskOf::DeleteUser { user_id } => {
            let commands: Vec<Command> = vec![
                CommandOf::DeleteUserThreads { user_id },
                CommandOf::DeleteUserPosts { user_id },
                CommandOf::DeleteUserComments { user_id },
                CommandOf::DeleteUser { user_id },
            ];
            proof {
                assert(commands_view(commands@) =~= user_deletion(user_id));
            }
            commands
        },
        AdminTaskOf::DeleteThread { thread_id } => vec![CommandOf::DeleteThread { thread_id }],
        AdminTaskOf::CreateCategory { name } => create_category(name.as_str()),
        AdminTaskOf::DeleteCategory { .. } => Vec::new(),
        AdminTaskOf::SetRegistration { enabled } => {
            let value = if same_text(enabled.as_str(), "1") {
                "1".to_owned()
            } else {
                "0".to_owned()
            };
            vec![CommandOf::SetRegistration { value }]
        },
    }
}

impl AdminStateOf<AdminTask> {
    /// Goes on with a task after a reply.
    pub fn advance(self, reply: &Reply) -> (r: Step<AdminState>)
        ensures
            r@ == admin_next(self@, reply@),
    {
        match self {
            AdminStateOf::User(task) => {
                let address = address_of_task(&task);
                let is_admin = match read_visitor(reply) {
                    Some(user) => user.is_admin,
                    None => false,
                };
                if !is_admin {
                    return respond(redirect(address));
                }
                match task {
                    AdminTaskOf::DeleteCategory { category_id } => ask(
                        CommandOf::CountCategories,
                        AdminStateOf::Count { category_id },
                    ),
                    _ => end(perform(task), redirect(address)),
                }
            },
            AdminStateOf::Count { category_id } => if count(reply) > 1 {
                ask(
                    CommandOf::FallbackCategory { category_id },
                    AdminStateOf::Fallback { category_id },
                )
            } else {
                respond(redirect("/admin"))
            },
            AdminStateOf::Fallback { category_id } => match find_int(reply) {
                Some(fallback_id) => {
                    let commands: Vec<Command> = vec![
                        CommandOf::MoveThreads { to: fallback_id, from: category_id },
                        CommandOf::DeleteCategory { category_id },
                    ];
                    proof {
                        assert(commands_view(commands@) =~= category_deletion(
                            category_id,
                            fallback_id,
                        ));
                    }
                    end(commands, redirect("/admin"))
                },
                None => respond(redirect("/admin")),
            },
        }
    }
}

/// What a task writes for an administrator, by what the database answers.
pub open spec fn task_commands(
    task: AdminTaskView,
    answers: spec_fn(CommandView) -> ReplyView,
) -> Seq<CommandView> {
    match task {
        AdminTaskOf::DeleteUser { user_id } => user_deletion(user_id),
        AdminTaskOf::DeleteThread { thread_id } => seq![CommandOf::DeleteThread { thread_id }],
        AdminTaskOf::CreateCategory { name } => category_creation(name),
        AdminTaskOf::DeleteCategory { category_id } => if counted(
            answers(CommandOf::CountCategories),
        ) > 1 {
            match found_int(answers(CommandOf::FallbackCategory { category_id })) {
                Some(fallback_id) => category_deletion(category_id, fallback_id),
                None => Seq::empty(),
            }
        } else {
            Seq::empty()
        },
        AdminTaskOf::SetRegistration { enabled } => seq![
            CommandOf::SetRegistration { value: registration_value(enabled) },
        ],
    }
}

/// Whether the visitor turns out to be an administrator.
pub open spec fn is_admin_visitor(
    jar: JarView,
    now: i64,
    answers: spec_fn(CommandView) -> ReplyView,
) -> bool {
    match current_visitor(jar, now, answers) {
        Some(user) => user.is_admin,
        None => false,
    }
}

/// What comes of a task, by what the database answers: what is written, and the response.
pub open spec fn admin_outcome(
    jar: JarView,
    csrf_token: Seq<char>,
    now: i64,
    task: AdminTaskView,
    answers: spec_fn(CommandView) -> ReplyView,
) -> (Seq<CommandView>, ResponseView) {
    if !csrf_ok(jar, csrf_token) {
        (Seq::empty(), forbidden())
    } else if !is_admin_visitor(jar, now, answers) {
        (Seq::empty(), redirected(task_address(task)))
    } else {
        (task_commands(task, answers), redirected(task_address(task)))
    }
}

/// A task, from its first step to its response.
pub open spec fn admin_run(
    jar: JarView,
    csrf_token: Seq<char>,
    now: i64,
    task: AdminTaskView,
    answers: spec_fn(CommandView) -> ReplyView,
) -> Option<(Seq<CommandView>, ResponseView)> {
    run(
        admin_begun(jar, csrf_token, now, task),
        |s: AdminStateView, r: ReplyView| admin_next(s, r),
        answers,
        3,
    )
}

proof fn lemma_delete_category(category_id: i64, answers: spec_fn(CommandView) -> ReplyView)
    ensures
        comes_to(
            run(
                admin_next(
                    AdminStateOf::Count { category_id },
                    answers(CommandOf::CountCategories),
                ),
                |s: AdminStateView, r: ReplyView| admin_next(s, r),
                answers,
                1,
            ),
            (
                task_commands(AdminTaskOf::DeleteCategory { category_id }, answers),
                redirected("/admin"@),
            ),
        ),
{
    broadcast use group_written;

    let next = |s: AdminStateView, r: ReplyView| admin_next(s, r);
    let total = answers(CommandOf::CountCategories);
    let step = admin_next(AdminStateOf::Count { category_id }, total);
    if counted(total) > 1 {
        let work = task_commands(AdminTaskOf::DeleteCategory { category_id }, answers);
        let outcome = (work, redirected("/admin"@));
        let fallback = answers(CommandOf::FallbackCategory { category_id });
        let last = admin_next(AdminStateOf::Fallback { category_id }, fallback);
        assert(written(last.commands) =~= work);
        lemma_comes_to(step, AdminStateOf::Fallback { category_id }, next, answers, 1, outcome);
        assert(written(step.commands) + work =~= work);
    }
}

/// A task always comes to an end. It writes nothing unless the form carries the token that
/// guards it and an administrator sent it; it then does what was asked for.
pub proof fn law_admin(
    jar: JarView,
    csrf_token: Seq<char>,
    now: i64,
    task: AdminTaskView,
    answers: spec_fn(CommandView) -> ReplyView,
)
    ensures
        comes_to(
            admin_run(jar, csrf_token, now, task, answers),
            admin_outcome(jar, csrf_token, now, task, answers),
        ),
{
    broadcast use group_written;

    let next = |s: AdminStateView, r: ReplyView| admin_next(s, r);
    let begun = admin_begun(jar, csrf_token, now, task);
    let outcome = admin_outcome(jar, csrf_token, now, task, answers);
    if csrf_ok(jar, csrf_token) {
        if let Some(question) = session_question(jar, now) {
            let step = admin_next(AdminStateOf::User(task), answers(question));
            if is_admin_visitor(jar, now, answers) {
                if let AdminTaskOf::DeleteCategory { category_id } = task {
                    lemma_delete_category(category_id, answers);
                    lemma_comes_to(
                        step,
                        AdminStateOf::Count { category_id },
                        next,
                        answers,
                        2,
                        outcome,
                    );
                    assert(written(step.commands) + outcome.0 =~= outcome.0);
                } else {
                    assert(written(step.commands) =~= outcome.0);
                }
            }
            lemma_comes_to(begun, AdminStateOf::User(task), next, answers, 3, outcome);
            assert(written(begun.commands) + outcome.0 =~= outcome.0);
        }
    }
}

/// Only administrators change anything this way, and only by forms that carry the token which
/// guards them.
pub proof fn law_only_administrators(
    jar: JarView,
    csrf_token: Seq<char>,
    now: i64,
    task: AdminTaskView,
    answers: spec_fn(CommandView) -> ReplyView,
)
    requires
        !csrf_ok(jar, csrf_token) || !is_admin_visitor(jar, now, answers),
    ensures
        admin_run(jar, csrf_token, now, task, answers) matches Some((commands, response))
            && written(commands) == Seq::<CommandView>::empty(),
{
    law_admin(jar, csrf_token, now, task, answers);
}

/// The last category is never deleted; and where one is deleted, its threads have moved to
/// another before.
pub proof fn law_last_category(
    jar: JarView,
    csrf_token: Seq<char>,
    now: i64,
    category_id: i64,
    answers: spec_fn(CommandView) -> ReplyView,
)
    ensures
        admin_run(
            jar,
            csrf_token,
            now,
            AdminTaskOf::DeleteCategory { category_id },
            answers,
        ) matches Some((commands, response)) && {
            ||| written(commands) == Seq::<CommandView>::empty()
            ||| {
                &&& counted(answers(CommandOf::CountCategories)) > 1
                &&& found_int(
                    answers(CommandOf::FallbackCategory { category_id }),
                ) matches Some(fallback_id) && written(commands) == category_deletion(
                    category_id,
                    fallback_id,
                )
            }
        },
{
    law_admin(jar, csrf_token, now, AdminTaskOf::DeleteCategory { category_id }, answers);
}

/// What an administrator sets is what is read: the registration is open after it was opened,
/// and closed after it was closed.
pub proof fn law_registration_setting(enabled: Seq<char>, reply: ReplyView)
    requires
        found_text(reply) == Some(registration_value(enabled)),
    ensures
        registration_open(reply) == (enabled == "1"@),
{
    reveal_strlit("0");
    reveal_strlit("1");
    assert("0"@[0] == '0');
    assert("1"@[0] == '1');
}

/// Which reply the page of the administrators waits for.
#[derive(Debug, Clone, Copy, PartialEq, Eq, Structural)]
pub enum AdminStage {
    User,
    Setting,
    Categories,
    Members,
}

/// The page of the administrators while it is put together.
pub struct AdminPageState {
    pub jar: CookieJar,
    pub page: AdminPage,
    pub stage: AdminStage,
}

/// The page of the administrators while it is put together, as contracts speak of it.
pub struct AdminPageStateView {
    pub jar: JarView,
    pub page: AdminPageView,
    pub stage: AdminStage,
}

impl View for AdminPageState {
    type V = AdminPageStateView;

    open spec fn view(&self) -> AdminPageStateView {
        AdminPageStateView { jar: jar_view(self.jar), page: self.page@, stage: self.stage }
    }
}

/// How the page of the administrators begins.
pub open spec fn admin_page_begun(jar: JarView, csrf_token: Seq<char>, now: i64) -> StepView<
    AdminPageStateView,
> {
    match session_question(jar, now) {
        Some(question) => asked(
            question,
            AdminPageStateView {
                jar,
                page: AdminPageView {
                    current_user: None,
                    is_admin: false,
                    categories: Seq::empty(),
                    all_users: Seq::empty(),
                    csrf_token,
                    registration_enabled: false,
                },
                stage: AdminStage::User,
            },
        ),
        None => ended(Seq::empty(), redirected("/"@)),
    }
}

/// How the page of the administrators goes on after a reply.
pub open spec fn admin_page_next(state: AdminPageStateView, reply: ReplyView) -> StepView<
    AdminPageStateView,
> {
    let page = state.page;
    match state.stage {
        AdminStage::User => match visitor(reply) {
            Some(user) => if user.is_admin {
                asked(
                    CommandOf::RegistrationSetting,
                    AdminPageStateView {
                        page: AdminPageView {
                            current_user: Some(user.name),
                            is_admin: true,
                            ..page
                        },
                        stage: AdminStage::Setting,
                        ..state
                    },
                )
            } else {
                ended(Seq::empty(), redirected("/"@))
            },
            None => ended(Seq::empty(), redirected("/"@)),
        },
        AdminStage::Setting => asked(
            CommandOf::ListCategories,
            AdminPageStateView {
                page: AdminPageView { registration_enabled: registration_open(reply), ..page },
                stage: AdminStage::Categories,
                ..state
            },
        ),
        AdminStage::Categories => asked(
            CommandOf::ListMembers,
            AdminPageStateView {
                page: AdminPageView { categories: listed::<Category>(reply), ..page },
                stage: AdminStage::Members,
                ..state
            },
        ),
        AdminStage::Members => ended(
            Seq::empty(),
            paged(
                state.jar,
                PageView::Admin(AdminPageView { all_users: listed::<Member>(reply), ..page }),
            ),
        ),
    }
}

/// Begins with the page of the administrators, for a visitor whose forms `csrf_token` guards.
pub fn admin_page_with(jar: CookieJar, csrf_token: String, now: i64) -> (r: Step<AdminPageState>)
    ensures
        r@ == admin_page_begun(jar_view(jar), csrf_token@, now),
{
    match get_current_user(&jar, now) {
        Some(question) => {
            let page = AdminPage {
                current_user: None,
                is_admin: false,
                categories: Vec::new(),
                all_users: Vec::new(),
                csrf_token,
                registration_enabled: false,
            };
            proof {
                assert(page@.categories =~= Seq::empty());
                assert(page@.all_users =~= Seq::empty());
            }
            ask(question, AdminPageState { jar, page, stage: AdminStage::User })
        },
        None => respond(redirect("/")),
    }
}

/// Begins with the page of the administrators.
pub fn admin_page(jar: CookieJar, now: i64) -> (r: Step<AdminPageState>)
    ensures
        exists|after: JarView, token: Seq<char>| #[trigger]
            csrf_ensured(jar_view(jar), after, token) && r@ == admin_page_begun(after, token, now),
{
    let (after, token) = ensure_csrf_token(jar);
    admin_page_with(after, token, now)
}

impl AdminPageState {
    /// Goes on with the page of the administrators after a reply.
    pub fn advance(self, reply: &Reply) -> (r: Step<AdminPageState>)
        ensures
            r@ == admin_page_next(self@, reply@),
    {
        let mut state = self;
        match state.stage {
            AdminStage::User => match read_visitor(reply) {
                Some(user) => {
                    if !user.is_admin {
                        return respond(redirect("/"));
                    }
                    state.page.current_user = Some(user.name);
                    state.page.is_admin = true;
                    state.stage = AdminStage::Setting;
                    ask(CommandOf::RegistrationSetting, state)
                },
                None => respond(redirect("/")),
            },
            AdminStage::Setting => {
                state.page.registration_enabled = is_registration_enabled(reply);
                state.stage = AdminStage::Categories;
                ask(CommandOf::ListCategories, state)
            },
            AdminStage::Categories => {
                state.page.categories = list::<Category>(reply);
                state.stage = AdminStage::Members;
                ask(CommandOf::ListMembers, state)
            },
            AdminStage::Members => {
                state.page.all_users = list::<Member>(reply);
                respond(ResponseOf::Page { jar: state.jar, page: Page::Admin(state.page) })
            },
        }
    }
}

/// The page of the administrators is shown to them and to nobody else, and nothing is written
/// for it. It lists the categories and the members, and says whether one can register.
pub proof fn law_admin_page(
    jar: JarView,
    csrf_token: Seq<char>,
    now: i64,
    answers: spec_fn(CommandView) -> ReplyView,
)
    ensures
        run(
            admin_page_begun(jar, csrf_token, now),
            |s: AdminPageStateView, r: ReplyView| admin_page_next(s, r),
            answers,
            4,
        ) matches Some((commands, response)) && only_reads(commands) && response == (
        match current_visitor(jar, now, answers) {
            Some(user) => if user.is_admin {
                paged(
                    jar,
                    PageView::Admin(
                        AdminPageView {
                            current_user: Some(user.name),
                            is_admin: true,
                            categories: listed::<Category>(answers(CommandOf::ListCategories)),
                            all_users: listed::<Member>(answers(CommandOf::ListMembers)),
                            csrf_token,
                            registration_enabled: registration_open(
                                answers(CommandOf::RegistrationSetting),
                            ),
                        },
                    ),
                )
            } else {
                redirected("/"@)
            },
            None => redirected("/"@),
        }),
{
    reveal_with_fuel(run, 5);
}

} // verus!
