use onion_forum::records::{count, find, find_int, find_text, list, Category, Credentials, User};
use onion_forum::store::{Cell, Command, Reply, Shape};
use onion_forum::thread::group_comments;
use onion_forum::records::Comment;

fn t(s: &str) -> String {
    s.to_string()
}

fn all_commands() -> Vec<Command> {
    vec![
        Command::CreateTables,
        Command::AddUserIsAdmin,
        Command::AddThreadUser,
        Command::AddPostUser,
        Command::AddCommentUser,
        Command::CountSessionExpiry,
        Command::AddSessionExpiry,
        Command::PurgeSessions { now: 1 },
        Command::CountCategories,
        Command::InsertDefaultCategory { slug: t("s"), name: t("n") },
        Command::FirstCategory,
        Command::AdoptThreads { category_id: 1 },
        Command::FindSessionUser { token: t("t"), now: 1 },
        Command::RegistrationSetting,
        Command::ListCategories,
        Command::FindCategory { slug: t("s") },
        Command::CountThreadsIn { category_id: 1 },
        Command::CountThreads,
        Command::ListThreadsIn { category_id: 1, limit: 2, offset: 3 },
        Command::ListThreads { limit: 2, offset: 3 },
        Command::RecentPosts,
        Command::ListMembers,
        Command::FindThread { thread_id: 1 },
        Command::CountPosts { thread_id: 1 },
        Command::ListPosts { thread_id: 1, limit: 2, offset: 3 },
        Command::ListComments { post_ids: vec![4, 5, 6] },
        Command::InsertThread { title: t("t"), created_at: 1, category_id: 2, user_id: 3 },
        Command::InsertPost { thread_id: 1, author: t("a"), content: t("c"), created_at: 2, user_id: 3 },
        Command::CountNewPost { now: 1, thread_id: 2 },
        Command::ThreadExists { thread_id: 1 },
        Command::ThreadOfPost { post_id: 1 },
        Command::InsertComment { post_id: 1, author: t("a"), content: t("c"), created_at: 2, user_id: 3 },
        Command::TouchThread { now: 1, thread_id: 2 },
        Command::CountAttempts { username: t("u"), since: 1 },
        Command::FindCaptcha { id: t("i"), now: 1 },
        Command::DeleteCaptcha { id: t("i") },
        Command::InsertAttempt { username: t("u"), now: 1 },
        Command::CountUsers,
        Command::InsertUser { username: t("u"), password_hash: t("h"), created_at: 1, is_admin: 0 },
        Command::InsertSession { token: t("t"), user_id: 1, created_at: 2, expires_at: 3 },
        Command::ClearAttempts { username: t("u") },
        Command::FindCredentials { username: t("u") },
        Command::DeleteSession { token: t("t") },
        Command::DeleteUserThreads { user_id: 1 },
        Command::DeleteUserPosts { user_id: 1 },
        Command::DeleteUserComments { user_id: 1 },
        Command::DeleteUser { user_id: 1 },
        Command::DeleteThread { thread_id: 1 },
        Command::InsertCategory { slug: t("s"), name: t("n") },
        Command::FallbackCategory { category_id: 1 },
        Command::MoveThreads { to: 1, from: 2 },
        Command::DeleteCategory { category_id: 1 },
        Command::SetRegistration { value: t("1") },
        Command::StoreCaptcha { id: t("i"), solution: t("s"), expires_at: 1 },
        Command::PurgeCaptchas { now: 1 },
    ]
}

#[test]
fn every_mark_gets_a_value() {
    for command in all_commands() {
        let marks = command.sql().matches('?').count();
        assert_eq!(marks, command.params().len(), "{:?}", command);
    }
}

#[test]
fn queries_are_told_from_statements() {
    for command in all_commands() {
        let is_query = command.sql().trim_start().starts_with("SELECT");
        let shape = command.shape();
        assert_eq!(is_query, shape == Shape::First || shape == Shape::All, "{:?}", command);
    }
}

#[test]
fn statements_can_be_prepared() {
    let db = rusqlite::Connection::open_in_memory().unwrap();
    db.execute_batch(&Command::CreateTables.sql()).unwrap();
    for command in all_commands() {
        let adds_column = command.sql().starts_with("ALTER");
        if command.shape() != Shape::Batch && !adds_column {
            db.prepare(&command.sql()).unwrap();
        }
    }
}

#[test]
fn values_are_bound_in_order() {
    assert_eq!(
        Command::InsertThread { title: t("t"), created_at: 1, category_id: 2, user_id: 3 }.params(),
        vec![Cell::Text(t("t")), Cell::Int(1), Cell::Int(1), Cell::Int(2), Cell::Int(3)]
    );
    assert_eq!(
        Command::MoveThreads { to: 1, from: 2 }.params(),
        vec![Cell::Int(1), Cell::Int(2)]
    );
    assert_eq!(
        Command::ListThreadsIn { category_id: 1, limit: 2, offset: 3 }.params(),
        vec![Cell::Int(1), Cell::Int(2), Cell::Int(3)]
    );
}

#[test]
fn comments_are_asked_for_by_post() {
    let command = Command::ListComments { post_ids: vec![4, 5, 6] };
    assert!(command.sql().contains("IN (?,?,?) ORDER"));
    assert_eq!(command.params(), vec![Cell::Int(4), Cell::Int(5), Cell::Int(6)]);
}

#[test]
fn rows_that_do_not_fit_are_left_out() {
    let reply = Reply::Rows(vec![
        vec![Cell::Int(1), Cell::Text(t("a")), Cell::Text(t("A"))],
        vec![Cell::Int(2), Cell::Null, Cell::Text(t("B"))],
        vec![Cell::Text(t("3")), Cell::Text(t("c")), Cell::Text(t("C"))],
        vec![Cell::Int(4), Cell::Text(t("d"))],
        vec![Cell::Int(5), Cell::Text(t("e")), Cell::Text(t("E"))],
    ]);
    let categories = list::<Category>(&reply);
    assert_eq!(categories.len(), 2);
    assert_eq!((categories[0].id, categories[1].id), (1, 5));
    assert_eq!(categories[1].slug, "e");
}

#[test]
fn only_a_one_makes_an_administrator() {
    for (flag, is_admin) in [(0, false), (1, true), (2, false)] {
        let row = vec![Cell::Int(7), Cell::Text(t("alice")), Cell::Int(flag)];
        let user = find::<User>(&Reply::Rows(vec![row])).unwrap();
        assert_eq!(user.is_admin, is_admin);
        assert_eq!(user.id, 7);
    }
}

#[test]
fn the_first_row_counts() {
    let reply = Reply::Rows(vec![vec![Cell::Int(3)], vec![Cell::Int(4)]]);
    assert_eq!(find_int(&reply), Some(3));
    assert_eq!(count(&reply), 3);
    assert_eq!(find_text(&reply), None);
    assert_eq!(find_text(&Reply::Rows(vec![vec![Cell::Text(t("x"))]])), Some(t("x")));
    for reply in [Reply::Failed, Reply::Done { rowid: 5 }, Reply::Rows(vec![])] {
        assert_eq!(find_int(&reply), None);
        assert_eq!(count(&reply), 0);
        assert_eq!(find_text(&reply), None);
        assert!(find::<Credentials>(&reply).is_none());
        assert!(list::<Category>(&reply).is_empty());
    }
}

#[test]
fn comments_are_parted_by_post() {
    let comment = |id: i64, post_id: i64| Comment {
        id,
        post_id,
        author: None,
        content: t("x"),
        created_at: 0,
    };
    let groups = group_comments(vec![comment(1, 9), comment(2, 8), comment(3, 9)]);
    assert_eq!(groups.len(), 2);
    assert_eq!(groups[0].post_id, 9);
    assert_eq!(groups[0].comments.iter().map(|c| c.id).collect::<Vec<i64>>(), vec![1, 3]);
    assert_eq!(groups[1].post_id, 8);
    assert!(group_comments(vec![]).is_empty());
}
