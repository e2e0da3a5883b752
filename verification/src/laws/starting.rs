//! What making the database ready comes to, told command by command.
use vstd::prelude::*;
use crate::dialogue::run;
use crate::laws::premises::{gives_no_number, gives_number};
use crate::records::{found_int, ReplyView};
use crate::schema::{
    default_categories, init_asked, init_begun, init_next, InitOutcome, InitState,
};
use crate::store::CommandView;

verus! {

/// What making the database ready comes to.
pub open spec fn start_run(now: i64, answers: spec_fn(CommandView) -> ReplyView) -> Option<
    (Seq<CommandView>, InitOutcome),
> {
    run(
        init_begun(),
        |s: InitState, r: ReplyView| init_next(s, r, now),
        answers,
        11,
    )
}

/// The first things asked for: the tables, columns that an older database lacks, and whether
/// sessions have a column for their end.
pub open spec fn first_questions() -> Seq<CommandView> {
    seq![
        CommandView::CreateTables,
        CommandView::AddUserIsAdmin,
        CommandView::AddThreadUser,
        CommandView::AddPostUser,
        CommandView::AddCommentUser,
        CommandView::CountSessionExpiry,
    ]
}

/// The command that inserts one of the first categories.
pub open spec fn first_category(i: int) -> CommandView {
    if i == 0 {
        CommandView::InsertDefaultCategory { slug: "technology"@, name: "Technology"@ }
    } else if i == 1 {
        CommandView::InsertDefaultCategory { slug: "learning"@, name: "Learning"@ }
    } else if i == 2 {
        CommandView::InsertDefaultCategory { slug: "politics"@, name: "Politics"@ }
    } else {
        CommandView::InsertDefaultCategory { slug: "secret"@, name: "Secret"@ }
    }
}

/// The commands up to the removal of sessions that have ended: the column for that end is added
/// where it lacks.
pub open spec fn sessions_put_right(columns: i64, now: i64) -> Seq<CommandView> {
    if columns == 0 {
        first_questions() + seq![
            CommandView::AddSessionExpiry,
            CommandView::PurgeSessions { now },
        ]
    } else {
        first_questions() + seq![CommandView::PurgeSessions { now }]
    }
}

/// The commands that insert the first categories, where there is none.
pub open spec fn categories_put_in(categories: i64) -> Seq<CommandView> {
    if categories == 0 {
        seq![first_category(0), first_category(1), first_category(2), first_category(3)]
    } else {
        Seq::<CommandView>::empty()
    }
}

/// Whether the tables and the columns of sessions could be made right.
pub open spec fn has_tables(
    now: i64,
    answers: spec_fn(CommandView) -> ReplyView,
    columns: i64,
) -> bool {
    &&& !(answers(CommandView::CreateTables) is Failed)
    &&& gives_number(answers(CommandView::CountSessionExpiry), columns)
    &&& columns == 0 ==> !(answers(CommandView::AddSessionExpiry) is Failed)
    &&& !(answers(CommandView::PurgeSessions { now }) is Failed)
}

/// Whether there are categories too, or the first ones could be inserted.
pub open spec fn has_categories(
    now: i64,
    answers: spec_fn(CommandView) -> ReplyView,
    columns: i64,
    categories: i64,
) -> bool {
    &&& has_tables(now, answers, columns)
    &&& gives_number(answers(CommandView::CountCategories), categories)
    &&& categories == 0 ==> !(answers(first_category(0)) is Failed) && !(answers(
        first_category(1),
    ) is Failed) && !(answers(first_category(2)) is Failed) && !(answers(
        first_category(3),
    ) is Failed)
}

/// What follows the question for the first category, with that question.
spec fn after_first(answers: spec_fn(CommandView) -> ReplyView) -> (Seq<CommandView>, InitOutcome) {
    match found_int(answers(CommandView::FirstCategory)) {
        None => (seq![CommandView::FirstCategory], InitOutcome::Ready),
        Some(category_id) => (
            seq![CommandView::FirstCategory, CommandView::AdoptThreads { category_id }],
            if answers(CommandView::AdoptThreads { category_id }) is Failed {
                InitOutcome::Broken
            } else {
                InitOutcome::Ready
            },
        ),
    }
}

/// What follows one of the first categories, with the command that inserts it.
spec fn after_defaults(i: int, answers: spec_fn(CommandView) -> ReplyView) -> (
    Seq<CommandView>,
    InitOutcome,
)
    decreases 4 - i,
{
    let rest = if i >= 3 {
        after_first(answers)
    } else {
        after_defaults(i + 1, answers)
    };
    if answers(first_category(i)) is Failed {
        (seq![first_category(i)], InitOutcome::Broken)
    } else {
        (seq![first_category(i)] + rest.0, rest.1)
    }
}

/// What follows the question how many categories there are, with that question.
spec fn after_count(answers: spec_fn(CommandView) -> ReplyView) -> (Seq<CommandView>, InitOutcome) {
    match found_int(answers(CommandView::CountCategories)) {
        None => (seq![CommandView::CountCategories], InitOutcome::Broken),
        Some(n) => {
            let rest = if n == 0 {
                after_defaults(0, answers)
            } else {
                after_first(answers)
            };
            (seq![CommandView::CountCategories] + rest.0, rest.1)
        },
    }
}

proof fn lemma_after_first(now: i64, answers: spec_fn(CommandView) -> ReplyView, limit: nat)
    requires
        limit >= 2,
    ensures
        run(
            init_asked(CommandView::FirstCategory, InitState::First),
            |s: InitState, r: ReplyView| init_next(s, r, now),
            answers,
            limit,
        ) == Some(after_first(answers)),
{
    reveal_with_fuel(run, 3);
    let first = CommandView::FirstCategory;
    assert(seq![first] + Seq::<CommandView>::empty() =~= seq![first]);
    if let Some(category_id) = found_int(answers(first)) {
        let adopt = CommandView::AdoptThreads { category_id };
        assert(seq![first] + (seq![adopt] + Seq::<CommandView>::empty()) =~= seq![first, adopt]);
    }
}

proof fn lemma_after_defaults(
    i: int,
    now: i64,
    answers: spec_fn(CommandView) -> ReplyView,
    limit: nat,
)
    requires
        0 <= i < 4,
        limit >= 6 - i,
    ensures
        run(
            init_asked(first_category(i), InitState::Default { asked: (i + 1) as usize }),
            |s: InitState, r: ReplyView| init_next(s, r, now),
            answers,
            limit,
        ) == Some(after_defaults(i, answers)),
    decreases 4 - i,
{
    reveal_with_fuel(run, 2);
    if i < 3 {
        lemma_after_defaults(i + 1, now, answers, (limit - 1) as nat);
        assert(default_categories()[i + 1] == first_category(i + 1));
    } else {
        lemma_after_first(now, answers, (limit - 1) as nat);
    }
    assert(seq![first_category(i)] + Seq::<CommandView>::empty() =~= seq![first_category(i)]);
}

proof fn lemma_after_count(now: i64, answers: spec_fn(CommandView) -> ReplyView, limit: nat)
    requires
        limit >= 7,
    ensures
        run(
            init_asked(CommandView::CountCategories, InitState::Categories),
            |s: InitState, r: ReplyView| init_next(s, r, now),
            answers,
            limit,
        ) == Some(after_count(answers)),
{
    reveal_with_fuel(run, 2);
    lemma_after_defaults(0, now, answers, (limit - 1) as nat);
    lemma_after_first(now, answers, (limit - 1) as nat);
    assert(default_categories()[0] == first_category(0));
    let count = CommandView::CountCategories;
    assert(seq![count] + Seq::<CommandView>::empty() =~= seq![count]);
}

proof fn lemma_started(now: i64, answers: spec_fn(CommandView) -> ReplyView, columns: i64)
    requires
        has_tables(now, answers, columns),
    ensures
        start_run(now, answers) == Some(
            (sessions_put_right(columns, now) + after_count(answers).0, after_count(answers).1),
        ),
{
    reveal_with_fuel(run, 5);
    lemma_after_count(now, answers, 7);
    lemma_after_count(now, answers, 8);
}

/// Without the tables, nothing more is done.
pub proof fn law_start_without_tables(
    now: i64,
    answers: spec_fn(CommandView) -> ReplyView,
)
    requires
        answers(CommandView::CreateTables) is Failed,
    ensures
        start_run(now, answers) == Some(
            (
                seq![CommandView::CreateTables],
                InitOutcome::Broken,
            ),
        ),
{
    reveal_with_fuel(run, 5);
    assert(seq![CommandView::CreateTables] + Seq::<CommandView>::empty() =~= seq![
        CommandView::CreateTables,
    ]);
}

/// Where nothing tells whether sessions have the column, nothing more is done.
pub proof fn law_start_uncounted(
    now: i64,
    answers: spec_fn(CommandView) -> ReplyView,
)
    requires
        !(answers(CommandView::CreateTables) is Failed),
        gives_no_number(answers(CommandView::CountSessionExpiry)),
    ensures
        start_run(now, answers) == Some(
            (
                first_questions(),
                InitOutcome::Broken,
            ),
        ),
{
    reveal_with_fuel(run, 5);
}

/// Where the column cannot be added, nothing more is done.
pub proof fn law_start_without_column(
    now: i64,
    answers: spec_fn(CommandView) -> ReplyView,
)
    requires
        !(answers(CommandView::CreateTables) is Failed),
        gives_number(answers(CommandView::CountSessionExpiry), 0),
        answers(CommandView::AddSessionExpiry) is Failed,
    ensures
        start_run(now, answers) == Some(
            (
                first_questions() + seq![CommandView::AddSessionExpiry],
                InitOutcome::Broken,
            ),
        ),
{
    reveal_with_fuel(run, 5);
}

/// Where sessions that have ended cannot be removed, nothing more is done.
pub proof fn law_start_unpurged(
    now: i64,
    answers: spec_fn(CommandView) -> ReplyView,
    columns: i64,
)
    requires
        !(answers(CommandView::CreateTables) is Failed),
        gives_number(answers(CommandView::CountSessionExpiry), columns),
        columns == 0 ==> !(answers(CommandView::AddSessionExpiry) is Failed),
        answers(CommandView::PurgeSessions { now }) is Failed,
    ensures
        start_run(now, answers) == Some(
            (
                sessions_put_right(columns, now),
                InitOutcome::Broken,
            ),
        ),
{
    reveal_with_fuel(run, 5);
}

/// Where nothing tells how many categories there are, nothing more is done.
pub proof fn law_start_unlisted(
    now: i64,
    answers: spec_fn(CommandView) -> ReplyView,
    columns: i64,
)
    requires
        has_tables(now, answers, columns),
        gives_no_number(answers(CommandView::CountCategories)),
    ensures
        start_run(now, answers) == Some(
            (
                sessions_put_right(columns, now) + seq![CommandView::CountCategories],
                InitOutcome::Broken,
            ),
        ),
{
    lemma_started(now, answers, columns);
    reveal_with_fuel(after_defaults, 5);
}

/// Where the first of the first categories cannot be inserted, nothing more is done.
pub proof fn law_start_without_first(
    now: i64,
    answers: spec_fn(CommandView) -> ReplyView,
    columns: i64,
)
    requires
        has_tables(now, answers, columns),
        gives_number(answers(CommandView::CountCategories), 0),
        answers(first_category(0)) is Failed,
    ensures
        start_run(now, answers) == Some(
            (
                sessions_put_right(columns, now) + seq![
                    CommandView::CountCategories,
                ] + seq![first_category(0)],
                InitOutcome::Broken,
            ),
        ),
{
    lemma_started(now, answers, columns);
    reveal_with_fuel(after_defaults, 5);
}

/// Where the second of the first categories cannot be inserted, nothing more is done.
pub proof fn law_start_without_second(
    now: i64,
    answers: spec_fn(CommandView) -> ReplyView,
    columns: i64,
)
    requires
        has_tables(now, answers, columns),
        gives_number(answers(CommandView::CountCategories), 0),
        !(answers(first_category(0)) is Failed),
        answers(first_category(1)) is Failed,
    ensures
        start_run(now, answers) == Some(
            (
                sessions_put_right(columns, now) + seq![CommandView::CountCategories] + seq![
                    first_category(0),
                    first_category(1),
                ],
                InitOutcome::Broken,
            ),
        ),
{
    lemma_started(now, answers, columns);
    reveal_with_fuel(after_defaults, 5);
}

/// Where the third of the first categories cannot be inserted, nothing more is done.
pub proof fn law_start_without_third(
    now: i64,
    answers: spec_fn(CommandView) -> ReplyView,
    columns: i64,
)
    requires
        has_tables(now, answers, columns),
        gives_number(answers(CommandView::CountCategories), 0),
        !(answers(first_category(0)) is Failed),
        !(answers(first_category(1)) is Failed),
        answers(first_category(2)) is Failed,
    ensures
        start_run(now, answers) == Some(
            (
                sessions_put_right(columns, now) + seq![CommandView::CountCategories] + seq![
                    first_category(0),
                    first_category(1),
                    first_category(2),
                ],
                InitOutcome::Broken,
            ),
        ),
{
    lemma_started(now, answers, columns);
    reveal_with_fuel(after_defaults, 5);
}

/// Where the fourth of the first categories cannot be inserted, nothing more is done.
pub proof fn law_start_without_fourth(
    now: i64,
    answers: spec_fn(CommandView) -> ReplyView,
    columns: i64,
)
    requires
        has_tables(now, answers, columns),
        gives_number(answers(CommandView::CountCategories), 0),
        !(answers(first_category(0)) is Failed),
        !(answers(first_category(1)) is Failed),
        !(answers(first_category(2)) is Failed),
        answers(first_category(3)) is Failed,
    ensures
        start_run(now, answers) == Some(
            (
                sessions_put_right(columns, now) + seq![CommandView::CountCategories] + seq![
                    first_category(0),
                    first_category(1),
                    first_category(2),
                    first_category(3),
                ],
                InitOutcome::Broken,
            ),
        ),
{
    lemma_started(now, answers, columns);
    reveal_with_fuel(after_defaults, 5);
}

/// Where all goes well, the database is ready. Threads without a category have then got the
/// first.
pub proof fn law_start_ready(
    now: i64,
    answers: spec_fn(CommandView) -> ReplyView,
    columns: i64,
    categories: i64,
    category_id: i64,
)
    requires
        has_categories(now, answers, columns, categories),
        gives_number(answers(CommandView::FirstCategory), category_id),
        !(answers(CommandView::AdoptThreads { category_id }) is Failed),
    ensures
        start_run(now, answers) == Some(
            (
                sessions_put_right(columns, now) + seq![CommandView::CountCategories]
                    + categories_put_in(categories) + seq![
                    CommandView::FirstCategory,
                    CommandView::AdoptThreads { category_id },
                ],
                InitOutcome::Ready,
            ),
        ),
{
    lemma_started(now, answers, columns);
    reveal_with_fuel(after_defaults, 5);
}

/// Where the threads without a category cannot be given one, the database is not ready.
pub proof fn law_start_unadopted(
    now: i64,
    answers: spec_fn(CommandView) -> ReplyView,
    columns: i64,
    categories: i64,
    category_id: i64,
)
    requires
        has_categories(now, answers, columns, categories),
        gives_number(answers(CommandView::FirstCategory), category_id),
        answers(CommandView::AdoptThreads { category_id }) is Failed,
    ensures
        start_run(now, answers) == Some(
            (
                sessions_put_right(columns, now) + seq![CommandView::CountCategories]
                    + categories_put_in(categories) + seq![
                    CommandView::FirstCategory,
                    CommandView::AdoptThreads { category_id },
                ],
                InitOutcome::Broken,
            ),
        ),
{
    lemma_started(now, answers, columns);
    reveal_with_fuel(after_defaults, 5);
}

/// Where no category is found, no thread is given one, and the database is ready.
pub proof fn law_start_none_first(
    now: i64,
    answers: spec_fn(CommandView) -> ReplyView,
    columns: i64,
    categories: i64,
)
    requires
        has_categories(now, answers, columns, categories),
        gives_no_number(answers(CommandView::FirstCategory)),
    ensures
        start_run(now, answers) == Some(
            (
                sessions_put_right(columns, now) + seq![CommandView::CountCategories]
                    + categories_put_in(categories) + seq![CommandView::FirstCategory],
                InitOutcome::Ready,
            ),
        ),
{
    lemma_started(now, answers, columns);
    reveal_with_fuel(after_defaults, 5);
}

} // verus!
