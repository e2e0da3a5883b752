//! How the database is made ready.
use vstd::prelude::*;
use crate::dialogue::{
    comes_to, commands_view, group_written, lemma_comes_to, run, written, Next, StepOf,
};
use crate::records::{find_int, found_int, ReplyView};
use crate::store::{Command, CommandOf, CommandView, Reply, ReplyOf};

verus! {

/// Which reply the database waits for while it is made ready.
#[derive(Debug, Clone, Copy, PartialEq, Eq, Structural)]
pub enum InitState {
    Tables,
    Expiry,
    Column,
    Purge,
    Categories,
    /// So many of the first categories were asked for.
    Default { asked: usize },
    First,
    Adoption,
}

impl View for InitState {
    type V = InitState;

    open spec fn view(&self) -> InitState {
        *self
    }
}

/// What became of the database.
#[derive(Debug, Clone, Copy, PartialEq, Eq, Structural)]
pub enum InitOutcome {
    Ready,
    /// Something that had to succeed did not.
    Broken,
}

impl View for InitOutcome {
    type V = InitOutcome;

    open spec fn view(&self) -> InitOutcome {
        *self
    }
}

/// A step towards the database that is ready.
pub type InitStep = StepOf<Vec<Command>, InitState, InitOutcome>;

/// A step towards the database that is ready, as contracts speak of it.
pub type InitStepView = StepOf<Seq<CommandView>, InitState, InitOutcome>;

/// The commands that add columns which an older database lacks. Where the columns are there,
/// they fail, which does no harm.
pub open spec fn upgrades() -> Seq<CommandView> {
    seq![
        CommandOf::AddUserIsAdmin,
        CommandOf::AddThreadUser,
        CommandOf::AddPostUser,
        CommandOf::AddCommentUser,
    ]
}

/// The commands that insert the first categories.
pub open spec fn default_categories() -> Seq<CommandView> {
    seq![
        CommandOf::InsertDefaultCategory { slug: "technology"@, name: "Technology"@ },
        CommandOf::InsertDefaultCategory { slug: "learning"@, name: "Learning"@ },
        CommandOf::InsertDefaultCategory { slug: "politics"@, name: "Politics"@ },
        CommandOf::InsertDefaultCategory { slug: "secret"@, name: "Secret"@ },
    ]
}

/// How many first categories there are.
pub const DEFAULT_CATEGORIES: usize = 4;

/// The step that carries out one command and waits.
pub open spec fn init_asked(command: CommandView, state: InitState) -> InitStepView {
    StepOf { commands: seq![command], next: Next::Await(state) }
}

/// The end.
pub open spec fn init_ended(outcome: InitOutcome) -> InitStepView {
    StepOf { commands: Seq::empty(), next: Next::Respond(outcome) }
}

/// How the database begins to be made ready.
pub open spec fn init_begun() -> InitStepView {
    init_asked(CommandOf::CreateTables, InitState::Tables)
}

/// How the database goes on to be made ready after a reply.
pub open spec fn init_next(state: InitState, reply: ReplyView, now: i64) -> InitStepView {
    match state {
        InitState::Tables => if reply is Failed {
            init_ended(InitOutcome::Broken)
        } else {
            StepOf {
                commands: upgrades().push(CommandOf::CountSessionExpiry),
                next: Next::Await(InitState::Expiry),
            }
        },
        InitState::Expiry => match found_int(reply) {
            None => init_ended(InitOutcome::Broken),
            Some(columns) => if columns == 0 {
                init_asked(CommandOf::AddSessionExpiry, InitState::Column)
            } else {
                init_asked(CommandOf::PurgeSessions { now }, InitState::Purge)
            },
        },
        InitState::Column => if reply is Failed {
            init_ended(InitOutcome::Broken)
        } else {
            init_asked(CommandOf::PurgeSessions { now }, InitState::Purge)
        },
        InitState::Purge => if reply is Failed {
            init_ended(InitOutcome::Broken)
        } else {
            init_asked(CommandOf::CountCategories, InitState::Categories)
        },
        InitState::Categories => match found_int(reply) {
            None => init_ended(InitOutcome::Broken),
            Some(categories) => if categories == 0 {
                init_asked(default_categories()[0], InitState::Default { asked: 1 })
            } else {
                init_asked(CommandOf::FirstCategory, InitState::First)
            },
        },
        InitState::Default { asked } => if reply is Failed {
            init_ended(InitOutcome::Broken)
        } else if asked < DEFAULT_CATEGORIES {
            init_asked(
                default_categories()[asked as int],
                InitState::Default { asked: (asked + 1) as usize },
            )
        } else {
            init_asked(CommandOf::FirstCategory, InitState::First)
        },
        InitState::First => match found_int(reply) {
            None => init_ended(InitOutcome::Ready),
            Some(category_id) => init_asked(
                CommandOf::AdoptThreads { category_id },
                InitState::Adoption,
            ),
        },
        InitState::Adoption => if reply is Failed {
            init_ended(InitOutcome::Broken)
        } else {
            init_ended(InitOutcome::Ready)
        },
    }
}

/// The step that carries out one command and waits.
fn ask_for(command: Command, state: InitState) -> (r: InitStep)
    ensures
        r@ == init_asked(command@, state),
{
    let step = StepOf { commands: vec![command], next: Next::Await(state) };
    proof {
        assert(step@.commands =~= seq![command@]);
    }
    step
}

/// The end.
fn finish(outcome: InitOutcome) -> (r: InitStep)
    ensures
        r@ == init_ended(outcome),
{
    let step = StepOf { commands: Vec::new(), next: Next::Respond(outcome) };
    proof {
        assert(step@.commands =~= Seq::empty());
    }
    step
}

/// The command that inserts one of the first categories.
fn default_category(i: usize) -> (r: Command)
    requires
        i < DEFAULT_CATEGORIES,
    ensures
        r@ == default_categories()[i as int],
{
    let (slug, name) = if i == 0 {
        ("technology", "Technology")
    } else if i == 1 {
        ("learning", "Learning")
    } else if i == 2 {
        ("politics", "Politics")
    } else {
        ("secret", "Secret")
    };
    CommandOf::InsertDefaultCategory { slug: slug.to_owned(), name: name.to_owned() }
}

/// Begins to make the database ready.
pub fn init_db() -> (r: InitStep)
    ensures
        r@ == init_begun(),
{
    ask_for(CommandOf::CreateTables, InitState::Tables)
}

/// Whether a command was carried out.
fn is_done(reply: &Reply) -> (r: bool)
    ensures
        r == !(reply@ is Failed),
{
    match reply {
        ReplyOf::Failed => false,
        _ => true,
    }
}

impl InitState {
    /// Goes on to make the database ready after a reply.
    pub fn advance(self, reply: &Reply, now: i64) -> (r: InitStep)
        ensures
            r@ == init_next(self, reply@, now),
    {
        match self {
            InitState::Tables => {
                if !is_done(reply) {
                    return finish(InitOutcome::Broken);
                }
                let commands: Vec<Command> = vec![
                    CommandOf::AddUserIsAdmin,
                    CommandOf::AddThreadUser,
                    CommandOf::AddPostUser,
                    CommandOf::AddCommentUser,
                    CommandOf::CountSessionExpiry,
                ];
                proof {
                    assert(commands_view(commands@) =~= upgrades().push(
                        CommandOf::CountSessionExpiry,
                    ));
                }
                StepOf { commands, next: Next::Await(InitState::Expiry) }
            },
            InitState::Expiry => match find_int(reply) {
                None => finish(InitOutcome::Broken),
                Some(columns) => if columns == 0 {
                    ask_for(CommandOf::AddSessionExpiry, InitState::Column)
                } else {
                    ask_for(CommandOf::PurgeSessions { now }, InitState::Purge)
                },
            },
            InitState::Column => if is_done(reply) {
                ask_for(CommandOf::PurgeSessions { now }, InitState::Purge)
            } else {
                finish(InitOutcome::Broken)
            },
            InitState::Purge => if is_done(reply) {
                ask_for(CommandOf::CountCategories, InitState::Categories)
            } else {
                finish(InitOutcome::Broken)
            },
            InitState::Categories => match find_int(reply) {
                None => finish(InitOutcome::Broken),
                Some(categories) => if categories == 0 {
                    ask_for(default_category(0), InitState::Default { asked: 1 })
                } else {
                    ask_for(CommandOf::FirstCategory, InitState::First)
                },
            },
            InitState::Default { asked } => if !is_done(reply) {
                finish(InitOutcome::Broken)
            } else if asked < DEFAULT_CATEGORIES {
                ask_for(default_category(asked), InitState::Default { asked: asked + 1 })
            } else {
                ask_for(CommandOf::FirstCategory, InitState::First)
            },
            InitState::First => match find_int(reply) {
                None => finish(InitOutcome::Ready),
                Some(category_id) => ask_for(
                    CommandOf::AdoptThreads { category_id },
                    InitState::Adoption,
                ),
            },
            InitState::Adoption => if is_done(reply) {
                finish(InitOutcome::Ready)
            } else {
                finish(InitOutcome::Broken)
            },
        }
    }
}

/// What comes of commands that must all succeed, with `rest` to follow: they are carried out
/// in order up to the first that fails.
pub open spec fn attempted(
    commands: Seq<CommandView>,
    answers: spec_fn(CommandView) -> ReplyView,
    rest: (Seq<CommandView>, InitOutcome),
) -> (Seq<CommandView>, InitOutcome)
    decreases commands.len(),
{
    if commands.len() == 0 {
        rest
    } else if answers(commands[0]) is Failed {
        (seq![commands[0]], InitOutcome::Broken)
    } else {
        let (following, outcome) = attempted(commands.skip(1), answers, rest);
        (seq![commands[0]] + following, outcome)
    }
}

/// What comes of it once there are categories: threads without one get the first.
pub open spec fn adopted_outcome(answers: spec_fn(CommandView) -> ReplyView) -> (
    Seq<CommandView>,
    InitOutcome,
) {
    let ready = (Seq::empty(), InitOutcome::Ready);
    match found_int(answers(CommandOf::FirstCategory)) {
        None => ready,
        Some(category_id) => attempted(
            seq![CommandOf::AdoptThreads { category_id }],
            answers,
            ready,
        ),
    }
}

/// What comes of it once the tables are up to date: where there is no category, the first ones
/// are inserted.
pub open spec fn filled_outcome(answers: spec_fn(CommandView) -> ReplyView) -> (
    Seq<CommandView>,
    InitOutcome,
) {
    match found_int(answers(CommandOf::CountCategories)) {
        None => (Seq::empty(), InitOutcome::Broken),
        Some(categories) => if categories == 0 {
            attempted(default_categories(), answers, adopted_outcome(answers))
        } else {
            adopted_outcome(answers)
        },
    }
}

/// What comes of it once the tables are there: sessions get the column for their end where it
/// lacks, and those that have ended go.
pub open spec fn purged_outcome(now: i64, answers: spec_fn(CommandView) -> ReplyView) -> (
    Seq<CommandView>,
    InitOutcome,
) {
    match found_int(answers(CommandOf::CountSessionExpiry)) {
        None => (Seq::empty(), InitOutcome::Broken),
        Some(columns) => attempted(
            if columns == 0 {
                seq![CommandOf::AddSessionExpiry, CommandOf::PurgeSessions { now }]
            } else {
                seq![CommandOf::PurgeSessions { now }]
            },
            answers,
            filled_outcome(answers),
        ),
    }
}

/// What comes of making the database ready, by what it answers: what is written, and whether it
/// is ready.
pub open spec fn init_outcome(now: i64, answers: spec_fn(CommandView) -> ReplyView) -> (
    Seq<CommandView>,
    InitOutcome,
) {
    let (commands, outcome) = purged_outcome(now, answers);
    attempted(seq![CommandOf::CreateTables], answers, (upgrades() + commands, outcome))
}

/// How the database is made ready at one time.
pub open spec fn init_at(now: i64) -> spec_fn(InitState, ReplyView) -> InitStepView {
    |s: InitState, r: ReplyView| init_next(s, r, now)
}

/// What a single command that must succeed comes to.
proof fn lemma_attempt(
    command: CommandView,
    state: InitState,
    now: i64,
    answers: spec_fn(CommandView) -> ReplyView,
    limit: nat,
    rest: (Seq<CommandView>, InitOutcome),
)
    requires
        limit > 0,
        !crate::dialogue::is_read(command),
        answers(command) is Failed ==> init_next(state, answers(command), now) == init_ended(
            InitOutcome::Broken,
        ),
        !(answers(command) is Failed) ==> comes_to(
            run(init_next(state, answers(command), now), init_at(now), answers, (limit - 1) as nat),
            rest,
        ),
    ensures
        comes_to(
            run(init_asked(command, state), init_at(now), answers, limit),
            attempted(seq![command], answers, rest),
        ),
{
    broadcast use group_written;

    reveal_with_fuel(attempted, 2);
    let step = init_asked(command, state);
    assert(seq![command].skip(1) =~= Seq::<CommandView>::empty());
    if answers(command) is Failed {
        let broken = (Seq::<CommandView>::empty(), InitOutcome::Broken);
        lemma_comes_to(step, state, init_at(now), answers, limit, broken);
        assert(written(step.commands) + broken.0 =~= seq![command]);
    } else {
        lemma_comes_to(step, state, init_at(now), answers, limit, rest);
        assert(written(step.commands) =~= seq![command]);
    }
}

/// What a command that only asks comes to.
proof fn lemma_question(
    command: CommandView,
    state: InitState,
    now: i64,
    answers: spec_fn(CommandView) -> ReplyView,
    limit: nat,
    rest: (Seq<CommandView>, InitOutcome),
)
    requires
        limit > 0,
        crate::dialogue::is_read(command),
        comes_to(
            run(init_next(state, answers(command), now), init_at(now), answers, (limit - 1) as nat),
            rest,
        ),
    ensures
        comes_to(run(init_asked(command, state), init_at(now), answers, limit), rest),
{
    broadcast use group_written;

    let step = init_asked(command, state);
    lemma_comes_to(step, state, init_at(now), answers, limit, rest);
    assert(written(step.commands) + rest.0 =~= rest.0);
}

proof fn lemma_adopted(now: i64, answers: spec_fn(CommandView) -> ReplyView, limit: nat)
    requires
        limit >= 2,
    ensures
        comes_to(
            run(
                init_asked(CommandOf::FirstCategory, InitState::First),
                init_at(now),
                answers,
                limit,
            ),
            adopted_outcome(answers),
        ),
{
    let ready = (Seq::<CommandView>::empty(), InitOutcome::Ready);
    if let Some(category_id) = found_int(answers(CommandOf::FirstCategory)) {
        lemma_attempt(
            CommandOf::AdoptThreads { category_id },
            InitState::Adoption,
            now,
            answers,
            (limit - 1) as nat,
            ready,
        );
    }
    lemma_question(
        CommandOf::FirstCategory,
        InitState::First,
        now,
        answers,
        limit,
        adopted_outcome(answers),
    );
}

/// Carrying out some commands and then others is carrying out them all.
proof fn lemma_attempted_first(
    commands: Seq<CommandView>,
    answers: spec_fn(CommandView) -> ReplyView,
    rest: (Seq<CommandView>, InitOutcome),
)
    requires
        commands.len() > 0,
    ensures
        attempted(commands, answers, rest) == attempted(
            seq![commands[0]],
            answers,
            attempted(commands.skip(1), answers, rest),
        ),
{
    reveal_with_fuel(attempted, 2);
    assert(seq![commands[0]].skip(1) =~= Seq::<CommandView>::empty());
}

proof fn lemma_defaults(
    asked: usize,
    now: i64,
    answers: spec_fn(CommandView) -> ReplyView,
    limit: nat,
)
    requires
        asked < DEFAULT_CATEGORIES,
        limit >= DEFAULT_CATEGORIES - asked + 2,
    ensures
        comes_to(
            run(
                init_asked(
                    default_categories()[asked as int],
                    InitState::Default { asked: (asked + 1) as usize },
                ),
                init_at(now),
                answers,
                limit,
            ),
            attempted(
                default_categories().skip(asked as int),
                answers,
                adopted_outcome(answers),
            ),
        ),
    decreases DEFAULT_CATEGORIES - asked,
{
    let left = default_categories().skip(asked as int);
    let state = InitState::Default { asked: (asked + 1) as usize };
    let rest = attempted(left.skip(1), answers, adopted_outcome(answers));
    assert(left.skip(1) =~= default_categories().skip(asked + 1));
    if asked + 1 < DEFAULT_CATEGORIES {
        lemma_defaults((asked + 1) as usize, now, answers, (limit - 1) as nat);
    } else {
        lemma_adopted(now, answers, (limit - 1) as nat);
    }
    lemma_attempt(left[0], state, now, answers, limit, rest);
    lemma_attempted_first(left, answers, adopted_outcome(answers));
}

proof fn lemma_filled(now: i64, answers: spec_fn(CommandView) -> ReplyView, limit: nat)
    requires
        limit >= 7,
    ensures
        comes_to(
            run(
                init_asked(CommandOf::CountCategories, InitState::Categories),
                init_at(now),
                answers,
                limit,
            ),
            filled_outcome(answers),
        ),
{
    lemma_defaults(0, now, answers, (limit - 1) as nat);
    lemma_adopted(now, answers, (limit - 1) as nat);
    assert(default_categories().skip(0) =~= default_categories());
    lemma_question(
        CommandOf::CountCategories,
        InitState::Categories,
        now,
        answers,
        limit,
        filled_outcome(answers),
    );
}

proof fn lemma_purged(now: i64, answers: spec_fn(CommandView) -> ReplyView)
    ensures
        comes_to(
            run(
                init_next(InitState::Expiry, answers(CommandOf::CountSessionExpiry), now),
                init_at(now),
                answers,
                9,
            ),
            purged_outcome(now, answers),
        ),
{
    let purge = CommandOf::PurgeSessions { now };
    let filled = filled_outcome(answers);
    lemma_filled(now, answers, 7);
    lemma_filled(now, answers, 8);
    lemma_attempt(purge, InitState::Purge, now, answers, 8, filled);
    lemma_attempt(purge, InitState::Purge, now, answers, 9, filled);
    let both = seq![CommandOf::AddSessionExpiry, purge];
    assert(both.skip(1) =~= seq![purge]);
    lemma_attempted_first(both, answers, filled);
    lemma_attempt(
        CommandOf::AddSessionExpiry,
        InitState::Column,
        now,
        answers,
        9,
        attempted(seq![purge], answers, filled),
    );
}

/// Making the database ready always comes to an end. It is ready if and only if all that must
/// succeed did; the first failure of that kind is the last thing done. Missing columns are
/// added, sessions that have ended go, a forum without categories gets its first ones, and
/// threads without a category get one.
pub proof fn law_init_db(now: i64, answers: spec_fn(CommandView) -> ReplyView)
    ensures
        comes_to(
            run(init_begun(), init_at(now), answers, 11),
            init_outcome(now, answers),
        ),
{
    broadcast use group_written;

    let purged = purged_outcome(now, answers);
    let step = init_next(InitState::Tables, answers(CommandOf::CreateTables), now);
    if !(answers(CommandOf::CreateTables) is Failed) {
        lemma_purged(now, answers);
        lemma_comes_to(step, InitState::Expiry, init_at(now), answers, 10, purged);
        assert(step.commands =~= upgrades() + seq![CommandOf::CountSessionExpiry]);
        assert(written(step.commands) =~= upgrades());
    }
    lemma_attempt(
        CommandOf::CreateTables,
        InitState::Tables,
        now,
        answers,
        11,
        (upgrades() + purged.0, purged.1),
    );
}

/// Whether a command adds a column that may be there already, so that it may fail.
pub open spec fn is_upgrade(command: CommandView) -> bool {
    command is AddUserIsAdmin || command is AddThreadUser || command is AddPostUser
        || command is AddCommentUser
}

/// Where the database carries out every command but those upgrades and can be counted, it is
/// ready in the end.
pub proof fn law_init_ready(now: i64, answers: spec_fn(CommandView) -> ReplyView)
    requires
        forall|command: CommandView|
            !is_upgrade(command) ==> !(#[trigger] answers(command) is Failed),
        found_int(answers(CommandOf::CountSessionExpiry)) is Some,
        found_int(answers(CommandOf::CountCategories)) is Some,
    ensures
        run(init_begun(), init_at(now), answers, 11) matches Some((commands, outcome)) && outcome
            == InitOutcome::Ready,
{
    law_init_db(now, answers);
    reveal_with_fuel(attempted, 5);
}

/// The command that gives threads without a category the first, where there is one.
pub open spec fn adoption(answers: spec_fn(CommandView) -> ReplyView) -> Seq<CommandView> {
    match found_int(answers(CommandOf::FirstCategory)) {
        Some(category_id) => seq![CommandOf::AdoptThreads { category_id }],
        None => Seq::empty(),
    }
}

/// Making a database ready that was ready before works again, and keeps what it holds: the
/// tables are asked for, the columns are tried, sessions that have ended go, and threads
/// without a category get the first. Nothing else is written.
pub proof fn law_init_again(now: i64, answers: spec_fn(CommandView) -> ReplyView)
    requires
        forall|command: CommandView|
            !is_upgrade(command) ==> !(#[trigger] answers(command) is Failed),
        found_int(answers(CommandOf::CountSessionExpiry)) matches Some(columns) && columns != 0,
        found_int(answers(CommandOf::CountCategories)) matches Some(categories) && categories != 0,
    ensures
        comes_to(
            run(init_begun(), init_at(now), answers, 11),
            (
                seq![CommandView::CreateTables] + upgrades() + seq![
                    CommandView::PurgeSessions { now },
                ] + adoption(answers),
                InitOutcome::Ready,
            ),
        ),
{
    law_init_db(now, answers);
    reveal_with_fuel(attempted, 2);
    let purge: Seq<CommandView> = seq![CommandOf::PurgeSessions { now }];
    assert(purge.skip(1) =~= Seq::empty());
    let create: Seq<CommandView> = seq![CommandOf::CreateTables];
    assert(create.skip(1) =~= Seq::empty());
    if let Some(category_id) = found_int(answers(CommandOf::FirstCategory)) {
        let adopt: Seq<CommandView> = seq![CommandOf::AdoptThreads { category_id }];
        assert(adopt.skip(1) =~= Seq::empty());
        assert(adopted_outcome(answers).0 =~= adopt);
    }
    assert(adopted_outcome(answers).0 =~= adoption(answers));
    assert(purged_outcome(now, answers).0 =~= purge + adoption(answers));
    assert(init_outcome(now, answers).0 =~= create + upgrades() + purge + adoption(answers));
}

/// Whether the database still has what it had, or was given, when it was made ready before: the
/// column for the end of sessions, and a category.
pub open spec fn remembers_start(
    commands: Seq<CommandView>,
    before: spec_fn(CommandView) -> ReplyView,
    answers: spec_fn(CommandView) -> ReplyView,
) -> bool {
    &&& found_int(answers(CommandOf::CountSessionExpiry)) matches Some(columns) && (found_int(
        before(CommandOf::CountSessionExpiry),
    ) != Some(0i64) || commands.contains(CommandOf::AddSessionExpiry) ==> columns != 0)
    &&& found_int(answers(CommandOf::CountCategories)) matches Some(categories) && (found_int(
        before(CommandOf::CountCategories),
    ) != Some(0i64) || commands.contains(default_categories()[0]) ==> categories != 0)
}

/// Making the database ready a second time works and keeps what it holds, whatever the first
/// time found: neither the column nor the first categories are asked for again.
pub proof fn law_init_twice(
    first_now: i64,
    before: spec_fn(CommandView) -> ReplyView,
    now: i64,
    answers: spec_fn(CommandView) -> ReplyView,
)
    requires
        run(init_begun(), init_at(first_now), before, 11) matches Some((commands, outcome))
            && outcome == InitOutcome::Ready && remembers_start(written(commands), before, answers),
        forall|command: CommandView|
            !is_upgrade(command) ==> !(#[trigger] answers(command) is Failed),
    ensures
        comes_to(
            run(init_begun(), init_at(now), answers, 11),
            (
                seq![CommandView::CreateTables] + upgrades() + seq![
                    CommandView::PurgeSessions { now },
                ] + adoption(answers),
                InitOutcome::Ready,
            ),
        ),
{
    law_init_db(first_now, before);
    let (commands, outcome) = run(init_begun(), init_at(first_now), before, 11)->0;
    let done = written(commands);
    reveal_with_fuel(attempted, 3);
    assert(done == init_outcome(first_now, before).0);
    let purged = purged_outcome(first_now, before).0;
    let create: Seq<CommandView> = seq![CommandOf::CreateTables];
    assert(create.skip(1) =~= Seq::empty());
    assert(done =~= create + upgrades() + purged);
    let lacked = found_int(before(CommandOf::CountSessionExpiry)) == Some(0i64);
    let purge: Seq<CommandView> = seq![CommandOf::PurgeSessions { now: first_now }];
    let both: Seq<CommandView> = seq![
        CommandOf::AddSessionExpiry,
        CommandOf::PurgeSessions { now: first_now },
    ];
    assert(purge.skip(1) =~= Seq::empty());
    assert(both.skip(1) =~= purge);
    let filled = filled_outcome(before).0;
    if lacked {
        assert(purged =~= both + filled);
        assert(done[5] == CommandView::AddSessionExpiry);
        assert(done.contains(CommandOf::AddSessionExpiry));
    } else {
        assert(purged =~= purge + filled);
    }
    if found_int(before(CommandOf::CountCategories)) == Some(0i64) {
        assert(filled[0] == default_categories()[0]);
        let at: int = if lacked {
            7
        } else {
            6
        };
        assert(done[at] == filled[0]);
        assert(done.contains(default_categories()[0]));
    }
    law_init_again(now, answers);
}

/// Whether a command is one of those that make the database ready, and there is cause for it:
/// the column for the end of sessions is added only where it lacks, and categories are inserted
/// only where there are none.
pub open spec fn is_called_for(
    command: CommandView,
    now: i64,
    answers: spec_fn(CommandView) -> ReplyView,
) -> bool {
    ||| command is CreateTables
    ||| is_upgrade(command)
    ||| command == (CommandView::PurgeSessions { now })
    ||| command is AdoptThreads
    ||| command is AddSessionExpiry && found_int(answers(CommandOf::CountSessionExpiry)) == Some(
        0i64,
    )
    ||| command is InsertDefaultCategory && found_int(answers(CommandOf::CountCategories)) == Some(
        0i64,
    )
}

/// Whether there is cause for each of the commands.
pub open spec fn are_called_for(
    commands: Seq<CommandView>,
    now: i64,
    answers: spec_fn(CommandView) -> ReplyView,
) -> bool {
    forall|i: int|
        0 <= i < commands.len() ==> is_called_for(#[trigger] commands[i], now, answers)
}

proof fn lemma_attempted_called_for(
    commands: Seq<CommandView>,
    now: i64,
    answers: spec_fn(CommandView) -> ReplyView,
    rest: (Seq<CommandView>, InitOutcome),
)
    requires
        are_called_for(commands, now, answers),
        are_called_for(rest.0, now, answers),
    ensures
        are_called_for(attempted(commands, answers, rest).0, now, answers),
    decreases commands.len(),
{
    if commands.len() > 0 {
        let left = commands.skip(1);
        assert(is_called_for(commands[0], now, answers));
        assert forall|i: int| 0 <= i < left.len() implies is_called_for(
            #[trigger] left[i],
            now,
            answers,
        ) by {
            assert(left[i] == commands[i + 1]);
        }
        lemma_attempted_called_for(left, now, answers, rest);
        let following = attempted(left, answers, rest).0;
        let all = attempted(commands, answers, rest).0;
        assert forall|i: int| 0 <= i < all.len() implies is_called_for(
            #[trigger] all[i],
            now,
            answers,
        ) by {
            if i > 0 {
                assert(all[i] == following[i - 1]);
            }
        }
    }
}

/// Whatever the database answers, making it ready deletes nothing but sessions that have ended,
/// inserts no category where there is one, and touches no member, post, comment, CAPTCHA or
/// failed attempt: no command but those of the start is ever written.
pub proof fn law_init_keeps(now: i64, answers: spec_fn(CommandView) -> ReplyView)
    ensures
        run(init_begun(), init_at(now), answers, 11) matches Some((commands, outcome))
            && are_called_for(written(commands), now, answers),
{
    law_init_db(now, answers);
    let ready = (Seq::<CommandView>::empty(), InitOutcome::Ready);
    if let Some(category_id) = found_int(answers(CommandOf::FirstCategory)) {
        let adopt: Seq<CommandView> = seq![CommandOf::AdoptThreads { category_id }];
        lemma_attempted_called_for(adopt, now, answers, ready);
    }
    let adopted = adopted_outcome(answers);
    assert(are_called_for(adopted.0, now, answers));
    if found_int(answers(CommandOf::CountCategories)) == Some(0i64) {
        lemma_attempted_called_for(default_categories(), now, answers, adopted);
    }
    let filled = filled_outcome(answers);
    assert(are_called_for(filled.0, now, answers));
    let purge: Seq<CommandView> = seq![CommandOf::PurgeSessions { now }];
    let both: Seq<CommandView> = seq![
        CommandOf::AddSessionExpiry,
        CommandOf::PurgeSessions { now },
    ];
    lemma_attempted_called_for(purge, now, answers, filled);
    if found_int(answers(CommandOf::CountSessionExpiry)) == Some(0i64) {
        lemma_attempted_called_for(both, now, answers, filled);
    }
    let purged = purged_outcome(now, answers);
    assert(are_called_for(purged.0, now, answers));
    let rest = upgrades() + purged.0;
    assert forall|i: int| 0 <= i < rest.len() implies is_called_for(
        #[trigger] rest[i],
        now,
        answers,
    ) by {
        if i >= upgrades().len() {
            assert(rest[i] == purged.0[i - upgrades().len()]);
        }
    }
    let create: Seq<CommandView> = seq![CommandOf::CreateTables];
    lemma_attempted_called_for(create, now, answers, (rest, purged.1));
}

} // verus!
