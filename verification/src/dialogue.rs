//! How a request is answered: step by step, each step a few commands to the database and
//! then either the wait for the reply to the last of them, or the response.
use vstd::prelude::*;
use axum_extra::extract::cookie::CookieJar;
use crate::cookies::{cookie_value, jar_view, JarView, SESSION_COOKIE};
use crate::pages::{Page, PageView};
use crate::records::{find, find_text, found, found_text, ReplyView, User, UserOf};
use crate::sql::shape_of;
use crate::store::{Command, CommandOf, CommandView, Reply, Shape};
use crate::text::same_text;

verus! {

/// A response. `T` is the type of text, `J` that of jars, `P` that of pages.
#[allow(inconsistent_fields)]
pub enum ResponseOf<T, J, P> {
    /// A plain text with a status.
    Text { status: u16, body: T },
    /// A redirection, with the cookies of a jar if there is one.
    Redirect { jar: Option<J>, to: T },
    /// A short piece of HTML.
    Html { jar: J, body: T },
    /// A page, rendered from its template.
    Page { jar: J, page: P },
    /// The image that was drawn for the request.
    Image { content_type: T },
}

/// A response.
pub type Response = ResponseOf<String, CookieJar, Page>;

/// A response as contracts speak of it.
pub type ResponseView = ResponseOf<Seq<char>, JarView, PageView>;

/// A jar that may be missing.
pub open spec fn optional_jar(jar: Option<CookieJar>) -> Option<JarView> {
    match jar {
        Some(j) => Some(jar_view(j)),
        None => None,
    }
}

impl View for ResponseOf<String, CookieJar, Page> {
    type V = ResponseView;

    open spec fn view(&self) -> ResponseView {
        match self {
            ResponseOf::Text { status, body } => ResponseOf::Text { status: *status, body: body@ },
            ResponseOf::Redirect { jar, to } => ResponseOf::Redirect {
                jar: optional_jar(*jar),
                to: to@,
            },
            ResponseOf::Html { jar, body } => ResponseOf::Html { jar: jar_view(*jar), body: body@ },
            ResponseOf::Page { jar, page } => ResponseOf::Page { jar: jar_view(*jar), page: page@ },
            ResponseOf::Image { content_type } => ResponseOf::Image { content_type: content_type@ },
        }
    }
}

/// What follows the commands of a step.
pub enum Next<S, R> {
    /// The reply to the last command takes the dialogue on from this state.
    Await(S),
    /// The dialogue ends with this response.
    Respond(R),
}

/// A step of a dialogue. `C` is the type of lists of commands.
pub struct StepOf<C, S, R> {
    /// To be carried out in this order, whether or not one fails.
    pub commands: C,
    pub next: Next<S, R>,
}

/// A step of a dialogue with states `S`.
pub type Step<S> = StepOf<Vec<Command>, S, Response>;

/// A step as contracts speak of it.
pub type StepView<S> = StepOf<Seq<CommandView>, S, ResponseView>;

/// Some commands as contracts speak of them.
pub open spec fn commands_view(commands: Seq<Command>) -> Seq<CommandView> {
    Seq::new(commands.len(), |i: int| commands[i]@)
}

impl<S: View, R: View> View for StepOf<Vec<Command>, S, R> {
    type V = StepOf<Seq<CommandView>, S::V, R::V>;

    open spec fn view(&self) -> StepOf<Seq<CommandView>, S::V, R::V> {
        StepOf {
            commands: commands_view(self.commands@),
            next: match self.next {
                Next::Await(state) => Next::Await(state@),
                Next::Respond(response) => Next::Respond(response@),
            },
        }
    }
}

/// The step that asks one thing.
pub open spec fn asked<S>(command: CommandView, state: S) -> StepView<S> {
    StepOf { commands: seq![command], next: Next::Await(state) }
}

/// The step that ends the dialogue, after some last commands.
pub open spec fn ended<S>(commands: Seq<CommandView>, response: ResponseView) -> StepView<S> {
    StepOf { commands, next: Next::Respond(response) }
}

/// The step that asks one thing.
pub(crate) fn ask<S: View>(command: Command, state: S) -> (r: Step<S>)
    ensures
        r@ == asked(command@, state@),
{
    let step = StepOf { commands: vec![command], next: Next::Await(state) };
    proof {
        assert(step@.commands =~= seq![command@]);
    }
    step
}

/// The step that ends the dialogue, after some last commands.
pub(crate) fn end<S: View>(commands: Vec<Command>, response: Response) -> (r: Step<S>)
    ensures
        r@ == ended::<S::V>(commands_view(commands@), response@),
{
    StepOf { commands, next: Next::Respond(response) }
}

/// The step that ends the dialogue at once.
pub(crate) fn respond<S: View>(response: Response) -> (r: Step<S>)
    ensures
        r@ == ended::<S::V>(Seq::empty(), response@),
{
    let commands: Vec<Command> = Vec::new();
    proof {
        assert(commands_view(commands@) =~= Seq::<CommandView>::empty());
    }
    end(commands, response)
}

/// A page.
pub open spec fn paged(jar: JarView, page: PageView) -> ResponseView {
    ResponseOf::Page { jar, page }
}

/// A redirection that hands out no cookie.
pub open spec fn redirected(to: Seq<char>) -> ResponseView {
    ResponseOf::Redirect { jar: None, to }
}

/// A redirection that hands out no cookie.
pub(crate) fn redirect(to: &str) -> (r: Response)
    ensures
        r@ == redirected(to@),
{
    ResponseOf::Redirect { jar: None, to: to.to_owned() }
}

/// The answer to a form that lacks the token which guards it.
pub open spec fn forbidden() -> ResponseView {
    ResponseOf::Text { status: 403, body: "Invalid or missing CSRF token."@ }
}

/// The answer to a form that lacks the token which guards it.
pub fn csrf_rejected() -> (r: Response)
    ensures
        r@ == forbidden(),
{
    ResponseOf::Text { status: 403, body: "Invalid or missing CSRF token.".to_owned() }
}

/// The question who the visitor is, where the jar holds a session.
pub open spec fn session_question(jar: JarView, now: i64) -> Option<CommandView> {
    match jar.get(SESSION_COOKIE@) {
        Some(token) => Some(CommandOf::FindSessionUser { token, now }),
        None => None,
    }
}

/// The question who the visitor is, where the jar holds a session. A session counts until the
/// moment it expires.
pub fn get_current_user(jar: &CookieJar, now: i64) -> (r: Option<Command>)
    ensures
        match r {
            Some(command) => session_question(jar_view(*jar), now) == Some(command@),
            None => session_question(jar_view(*jar), now) is None,
        },
{
    match cookie_value(jar, SESSION_COOKIE) {
        Some(token) => Some(CommandOf::FindSessionUser { token, now }),
        None => None,
    }
}

/// The member that the reply to the question who the visitor is tells of.
pub open spec fn visitor(reply: ReplyView) -> Option<UserOf<Seq<char>>> {
    found::<User>(reply)
}

/// The member that the reply to the question who the visitor is tells of.
pub(crate) fn read_visitor(reply: &Reply) -> (r: Option<User>)
    ensures
        match r {
            Some(user) => visitor(reply@) == Some(user@),
            None => visitor(reply@) is None,
        },
{
    find::<User>(reply)
}

/// Whether the reply tells of an administrator.
pub open spec fn is_admin_reply(reply: ReplyView) -> bool {
    match visitor(reply) {
        Some(user) => user.is_admin,
        None => false,
    }
}

/// Whether a setting of the registration leaves it open: it is open unless the setting is
/// something other than `1`.
pub open spec fn registration_open(reply: ReplyView) -> bool {
    match found_text(reply) {
        Some(value) => value == "1"@,
        None => true,
    }
}

/// Whether a setting of the registration leaves it open.
pub fn is_registration_enabled(reply: &Reply) -> (r: bool)
    ensures
        r == registration_open(reply@),
{
    match find_text(reply) {
        Some(value) => same_text(value.as_str(), "1"),
        None => true,
    }
}

/// What a dialogue comes to that begins with `step`, goes on by `next` and hears `answers`
/// from the database: the commands it carries out in all, and its response. `None` where it
/// has not ended after `limit` replies.
pub open spec fn run<S, R>(
    step: StepOf<Seq<CommandView>, S, R>,
    next: spec_fn(S, ReplyView) -> StepOf<Seq<CommandView>, S, R>,
    answers: spec_fn(CommandView) -> ReplyView,
    limit: nat,
) -> Option<(Seq<CommandView>, R)>
    decreases limit,
{
    match step.next {
        Next::Respond(response) => Some((step.commands, response)),
        Next::Await(state) => if limit == 0 {
            None
        } else {
            match run(
                next(state, answers(step.commands.last())),
                next,
                answers,
                (limit - 1) as nat,
            ) {
                Some((commands, response)) => Some((step.commands + commands, response)),
                None => None,
            }
        },
    }
}

/// The member that the visitor turns out to be.
pub open spec fn current_visitor(
    jar: JarView,
    now: i64,
    answers: spec_fn(CommandView) -> ReplyView,
) -> Option<UserOf<Seq<char>>> {
    match session_question(jar, now) {
        Some(question) => visitor(answers(question)),
        None => None,
    }
}

/// The name of a visitor who is a member.
pub open spec fn visitor_name(user: Option<UserOf<Seq<char>>>) -> Option<Seq<char>> {
    match user {
        Some(u) => Some(u.name),
        None => None,
    }
}

/// Whether a command reads and does not write.
pub open spec fn is_read(command: CommandView) -> bool {
    shape_of(command) == Shape::First || shape_of(command) == Shape::All
}

/// Whether none of the commands writes.
pub open spec fn only_reads(commands: Seq<CommandView>) -> bool {
    forall|i: int| 0 <= i < commands.len() ==> is_read(#[trigger] commands[i])
}

/// The commands that write, in order.
pub open spec fn written(commands: Seq<CommandView>) -> Seq<CommandView>
    decreases commands.len(),
{
    if commands.len() == 0 {
        Seq::empty()
    } else {
        let before = written(commands.drop_last());
        if is_read(commands.last()) {
            before
        } else {
            before.push(commands.last())
        }
    }
}

pub broadcast proof fn lemma_written_concat(a: Seq<CommandView>, b: Seq<CommandView>)
    ensures
        #[trigger] written(a + b) == written(a) + written(b),
    decreases b.len(),
{
    if b.len() == 0 {
        assert(a + b =~= a);
        assert(written(a) + written(b) =~= written(a));
    } else {
        lemma_written_concat(a, b.drop_last());
        assert((a + b).drop_last() =~= a + b.drop_last());
        assert((written(a) + written(b.drop_last())).push(b.last()) =~= written(a) + written(
            b.drop_last(),
        ).push(b.last()));
    }
}

pub broadcast proof fn lemma_written_reads(commands: Seq<CommandView>)
    requires
        only_reads(commands),
    ensures
        #[trigger] written(commands) == Seq::<CommandView>::empty(),
    decreases commands.len(),
{
    if commands.len() > 0 {
        assert(is_read(commands[commands.len() - 1]));
        assert forall|i: int| 0 <= i < commands.len() - 1 implies is_read(
            #[trigger] commands.drop_last()[i],
        ) by {
            assert(commands.drop_last()[i] == commands[i]);
        }
        lemma_written_reads(commands.drop_last());
    }
}

/// Whether each of the commands writes.
pub open spec fn only_writes(commands: Seq<CommandView>) -> bool {
    forall|i: int| 0 <= i < commands.len() ==> !is_read(#[trigger] commands[i])
}

pub broadcast proof fn lemma_written_writes(commands: Seq<CommandView>)
    requires
        only_writes(commands),
    ensures
        #[trigger] written(commands) == commands,
    decreases commands.len(),
{
    if commands.len() > 0 {
        assert(!is_read(commands[commands.len() - 1]));
        assert forall|i: int| 0 <= i < commands.len() - 1 implies !is_read(
            #[trigger] commands.drop_last()[i],
        ) by {
            assert(commands.drop_last()[i] == commands[i]);
        }
        lemma_written_writes(commands.drop_last());
        assert(commands.drop_last().push(commands.last()) =~= commands);
    } else {
        assert(commands =~= Seq::empty());
    }
}

/// Whether a dialogue ends, having written the commands of `outcome` and with its response.
pub open spec fn comes_to<R>(
    ran: Option<(Seq<CommandView>, R)>,
    outcome: (Seq<CommandView>, R),
) -> bool {
    ran matches Some((commands, response)) && (written(commands), response) == outcome
}

/// A dialogue that waits comes to what it comes to after the reply, and has written before
/// what its step writes.
pub proof fn lemma_comes_to<S, R>(
    step: StepOf<Seq<CommandView>, S, R>,
    state: S,
    next: spec_fn(S, ReplyView) -> StepOf<Seq<CommandView>, S, R>,
    answers: spec_fn(CommandView) -> ReplyView,
    limit: nat,
    outcome: (Seq<CommandView>, R),
)
    requires
        step.next == Next::<S, R>::Await(state),
        limit > 0,
        comes_to(
            run(next(state, answers(step.commands.last())), next, answers, (limit - 1) as nat),
            outcome,
        ),
    ensures
        comes_to(
            run(step, next, answers, limit),
            (written(step.commands) + outcome.0, outcome.1),
        ),
{
    let (commands, response) = run(
        next(state, answers(step.commands.last())),
        next,
        answers,
        (limit - 1) as nat,
    )->0;
    lemma_written_concat(step.commands, commands);
}

/// What one command or two write.
pub proof fn lemma_written_few(a: CommandView, b: CommandView)
    ensures
        written(seq![a]) == if is_read(a) {
            Seq::<CommandView>::empty()
        } else {
            seq![a]
        },
        written(seq![a, b]) == written(seq![a]) + written(seq![b]),
{
    reveal_with_fuel(written, 3);
    assert(seq![a].drop_last() =~= Seq::<CommandView>::empty());
    assert(seq![a, b].drop_last() =~= seq![a]);
    assert(seq![b].drop_last() =~= Seq::<CommandView>::empty());
}

/// What a list of commands writes, worked out part by part.
pub broadcast group group_written {
    lemma_written_concat,
    lemma_written_reads,
    lemma_written_writes,
}

} // verus!
