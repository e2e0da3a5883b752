//! What administrators do and see, told command by command.
use vstd::prelude::*;
use vstd::utf8::encode_utf8;
use crate::admin::{
    admin_page_begun, admin_page_next, admin_run, AdminPageStateView, AdminTaskView,
};
use crate::cookies::JarView;
use crate::dialogue::{run, ResponseView};
use crate::laws::premises::{
    carries_token, gives_no_number, gives_no_text, gives_number, gives_text, has_session,
    is_visited_by, tells_of_nobody, who,
};
use crate::markup::{clamped, slug_of};
use crate::pages::{AdminPageView, PageView};
use crate::records::{listed, Category, Member, ReplyView, UserOf};
use crate::store::CommandView;
use crate::text::trimmed;

verus! {

/// Whether a task was sent by an administrator, with the token.
pub open spec fn is_ordered_by(
    jar: JarView,
    csrf_token: Seq<char>,
    now: i64,
    answers: spec_fn(CommandView) -> ReplyView,
    user: UserOf<Seq<char>>,
) -> bool {
    &&& carries_token(jar, csrf_token)
    &&& is_visited_by(jar, now, answers, user)
    &&& user.is_admin
}

/// The way to an address.
pub open spec fn way_to(address: Seq<char>) -> ResponseView {
    ResponseView::Redirect { jar: None, to: address }
}

/// An administrator deletes a member together with the threads, posts and comments that the
/// member wrote, and those of nobody else.
pub proof fn law_member_deleted(
    jar: JarView,
    csrf_token: Seq<char>,
    now: i64,
    answers: spec_fn(CommandView) -> ReplyView,
    user: UserOf<Seq<char>>,
    user_id: i64,
)
    requires
        is_ordered_by(jar, csrf_token, now, answers, user),
    ensures
        admin_run(jar, csrf_token, now, AdminTaskView::DeleteUser { user_id }, answers) == Some(
            (
                seq![
                    who(jar, now),
                    CommandView::DeleteUserThreads { user_id },
                    CommandView::DeleteUserPosts { user_id },
                    CommandView::DeleteUserComments { user_id },
                    CommandView::DeleteUser { user_id },
                ],
                way_to("/"@),
            ),
        ),
{
    reveal_with_fuel(run, 4);
}

/// An administrator deletes a thread, and no other.
pub proof fn law_thread_deleted(
    jar: JarView,
    csrf_token: Seq<char>,
    now: i64,
    answers: spec_fn(CommandView) -> ReplyView,
    user: UserOf<Seq<char>>,
    thread_id: i64,
)
    requires
        is_ordered_by(jar, csrf_token, now, answers, user),
    ensures
        admin_run(jar, csrf_token, now, AdminTaskView::DeleteThread { thread_id }, answers) == Some(
            (seq![who(jar, now), CommandView::DeleteThread { thread_id }], way_to("/"@)),
        ),
{
    reveal_with_fuel(run, 4);
}

/// An administrator creates a category under its trimmed name, which stays whole up to 32 bytes,
/// and under what stands for that name in addresses. Where nothing does, there is none.
pub proof fn law_category_created(
    jar: JarView,
    csrf_token: Seq<char>,
    now: i64,
    answers: spec_fn(CommandView) -> ReplyView,
    user: UserOf<Seq<char>>,
    name: Seq<char>,
)
    requires
        is_ordered_by(jar, csrf_token, now, answers, user),
    ensures
        ({
            let ran = admin_run(
                jar,
                csrf_token,
                now,
                AdminTaskView::CreateCategory { name },
                answers,
            );
            let short = clamped(trimmed(name), 32);
            &&& trimmed(name).len() > 0 && slug_of(short).len() > 0 ==> ran == Some(
                (
                    seq![
                        who(jar, now),
                        CommandView::InsertCategory { slug: slug_of(short), name: short },
                    ],
                    way_to("/"@),
                ),
            )
            &&& trimmed(name).len() == 0 || slug_of(short).len() == 0 ==> ran == Some(
                (seq![who(jar, now)], way_to("/"@)),
            )
            &&& encode_utf8(trimmed(name)).len() <= 32 ==> short == trimmed(name)
        }),
{
    reveal_with_fuel(run, 4);
    let c = who(jar, now);
    assert(seq![c] + Seq::<CommandView>::empty() =~= seq![c]);
    let short = clamped(trimmed(name), 32);
    let d = CommandView::InsertCategory { slug: slug_of(short), name: short };
    assert(seq![c] + seq![d] =~= seq![c, d]);
}

/// An administrator opens the registration by asking for `1`, and closes it by asking for
/// anything else.
pub proof fn law_registration_set(
    jar: JarView,
    csrf_token: Seq<char>,
    now: i64,
    answers: spec_fn(CommandView) -> ReplyView,
    user: UserOf<Seq<char>>,
    enabled: Seq<char>,
)
    requires
        is_ordered_by(jar, csrf_token, now, answers, user),
    ensures
        ({
            let ran = admin_run(
                jar,
                csrf_token,
                now,
                AdminTaskView::SetRegistration { enabled },
                answers,
            );
            &&& enabled == "1"@ ==> ran == Some(
                (
                    seq![who(jar, now), CommandView::SetRegistration { value: "1"@ }],
                    way_to("/admin"@),
                ),
            )
            &&& enabled != "1"@ ==> ran == Some(
                (
                    seq![who(jar, now), CommandView::SetRegistration { value: "0"@ }],
                    way_to("/admin"@),
                ),
            )
        }),
{
    reveal_with_fuel(run, 4);
    let c = who(jar, now);
    let open = CommandView::SetRegistration { value: "1"@ };
    let shut = CommandView::SetRegistration { value: "0"@ };
    assert(seq![c] + seq![open] =~= seq![c, open]);
    assert(seq![c] + seq![shut] =~= seq![c, shut]);
}

/// An administrator deletes a category, where there is another: its threads move to the one that
/// was found for them first, and nothing else moves. The last category stays.
pub proof fn law_category_deleted(
    jar: JarView,
    csrf_token: Seq<char>,
    now: i64,
    answers: spec_fn(CommandView) -> ReplyView,
    user: UserOf<Seq<char>>,
    category_id: i64,
    total: i64,
    other: i64,
)
    requires
        is_ordered_by(jar, csrf_token, now, answers, user),
        gives_number(answers(CommandView::CountCategories), total) || (gives_no_number(
            answers(CommandView::CountCategories),
        ) && total == 0),
    ensures
        ({
            let ran = admin_run(
                jar,
                csrf_token,
                now,
                AdminTaskView::DeleteCategory { category_id },
                answers,
            );
            let found = answers(CommandView::FallbackCategory { category_id });
            &&& total > 1 && gives_number(found, other) ==> ran == Some(
                (
                    seq![
                        who(jar, now),
                        CommandView::CountCategories,
                        CommandView::FallbackCategory { category_id },
                        CommandView::MoveThreads { to: other, from: category_id },
                        CommandView::DeleteCategory { category_id },
                    ],
                    way_to("/admin"@),
                ),
            )
            &&& total > 1 && gives_no_number(found) ==> ran == Some(
                (
                    seq![
                        who(jar, now),
                        CommandView::CountCategories,
                        CommandView::FallbackCategory { category_id },
                    ],
                    way_to("/admin"@),
                ),
            )
            &&& total <= 1 ==> ran == Some(
                (seq![who(jar, now), CommandView::CountCategories], way_to("/admin"@)),
            )
        }),
{
    reveal_with_fuel(run, 4);
    let c = who(jar, now);
    let d = CommandView::CountCategories;
    let e = CommandView::FallbackCategory { category_id };
    let f = CommandView::MoveThreads { to: other, from: category_id };
    let g = CommandView::DeleteCategory { category_id };
    assert(seq![c] + (seq![d] + Seq::<CommandView>::empty()) =~= seq![c, d]);
    assert(seq![c] + (seq![d] + (seq![e] + Seq::<CommandView>::empty())) =~= seq![c, d, e]);
    assert(seq![c] + (seq![d] + (seq![e] + seq![f, g])) =~= seq![c, d, e, f, g]);
}

/// Where each task leads to.
pub open spec fn task_leads_to(task: AdminTaskView) -> Seq<char> {
    if task is DeleteCategory || task is SetRegistration {
        "/admin"@
    } else {
        "/"@
    }
}

/// A task is not carried out without the token, nor for anybody but an administrator; it then
/// leads to where it leads anyway.
pub proof fn law_task_refused(
    jar: JarView,
    csrf_token: Seq<char>,
    now: i64,
    answers: spec_fn(CommandView) -> ReplyView,
    user: UserOf<Seq<char>>,
    task: AdminTaskView,
)
    ensures
        ({
            let ran = admin_run(jar, csrf_token, now, task, answers);
            &&& !carries_token(jar, csrf_token) ==> ran == Some(
                (
                    Seq::<CommandView>::empty(),
                    ResponseView::Text { status: 403, body: "Invalid or missing CSRF token."@ },
                ),
            )
            &&& carries_token(jar, csrf_token) && !has_session(jar) ==> ran == Some(
                (Seq::<CommandView>::empty(), way_to(task_leads_to(task))),
            )
            &&& carries_token(jar, csrf_token) && has_session(jar) && tells_of_nobody(
                answers(who(jar, now)),
            ) ==> ran == Some((seq![who(jar, now)], way_to(task_leads_to(task))))
            &&& carries_token(jar, csrf_token) && is_visited_by(jar, now, answers, user)
                && !user.is_admin ==> ran == Some(
                (seq![who(jar, now)], way_to(task_leads_to(task))),
            )
        }),
{
    reveal_with_fuel(run, 4);
    let c = who(jar, now);
    assert(seq![c] + Seq::<CommandView>::empty() =~= seq![c]);
}

/// The page for administrators shows whose it is, the categories, the members, and whether one
/// can register, each as the database answers.
pub proof fn law_admin_shown(
    jar: JarView,
    csrf_token: Seq<char>,
    now: i64,
    answers: spec_fn(CommandView) -> ReplyView,
    user: UserOf<Seq<char>>,
    value: Seq<char>,
)
    requires
        is_visited_by(jar, now, answers, user),
        user.is_admin,
        gives_text(answers(CommandView::RegistrationSetting), value) || (gives_no_text(
            answers(CommandView::RegistrationSetting),
        ) && value == "1"@),
    ensures
        run(
            admin_page_begun(jar, csrf_token, now),
            |s: AdminPageStateView, r: ReplyView| admin_page_next(s, r),
            answers,
            4,
        ) == Some(
            (
                seq![
                    who(jar, now),
                    CommandView::RegistrationSetting,
                    CommandView::ListCategories,
                    CommandView::ListMembers,
                ],
                ResponseView::Page {
                    jar,
                    page: PageView::Admin(
                        AdminPageView {
                            current_user: Some(user.name),
                            is_admin: true,
                            categories: listed::<Category>(answers(CommandView::ListCategories)),
                            all_users: listed::<Member>(answers(CommandView::ListMembers)),
                            csrf_token,
                            registration_enabled: value == "1"@,
                        },
                    ),
                },
            ),
        ),
{
    reveal_with_fuel(run, 5);
    let c = who(jar, now);
    let d = CommandView::RegistrationSetting;
    let e = CommandView::ListCategories;
    let f = CommandView::ListMembers;
    assert(seq![c] + (seq![d] + (seq![e] + (seq![f] + Seq::<CommandView>::empty()))) =~= seq![
        c,
        d,
        e,
        f,
    ]);
}

/// The page for administrators is not shown to anybody else, who is led to the front page.
pub proof fn law_admin_hidden(
    jar: JarView,
    csrf_token: Seq<char>,
    now: i64,
    answers: spec_fn(CommandView) -> ReplyView,
    user: UserOf<Seq<char>>,
)
    requires
        !has_session(jar) || tells_of_nobody(answers(who(jar, now))) || (is_visited_by(
            jar,
            now,
            answers,
            user,
        ) && !user.is_admin),
    ensures
        run(
            admin_page_begun(jar, csrf_token, now),
            |s: AdminPageStateView, r: ReplyView| admin_page_next(s, r),
            answers,
            4,
        ) == Some(
            (
                if has_session(jar) {
                    seq![who(jar, now)]
                } else {
                    Seq::<CommandView>::empty()
                },
                way_to("/"@),
            ),
        ),
{
    reveal_with_fuel(run, 5);
    let c = who(jar, now);
    assert(seq![c] + Seq::<CommandView>::empty() =~= seq![c]);
}

} // verus!
