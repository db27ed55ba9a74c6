use nuuslees::db::{Database, DbError, Feed, FeedItem, Group};
use nuuslees::tables::Timestamp;

const T0: Timestamp = Timestamp { secs: 5, nanos: 7 };

fn g(id: i32, name: &str) -> Group {
    Group { id, name: name.into(), desc: String::new() }
}

fn f(id: i32, group_id: i32, url: &str) -> Feed {
    Feed { id, group_id, name: url.into(), desc: String::new(), url: url.into(), updated_at: T0 }
}

fn i(id: i32, feed_id: i32, url: &str) -> FeedItem {
    FeedItem {
        id,
        feed_id,
        title: url.into(),
        url: url.into(),
        desc: String::new(),
        content: "kept".into(),
        read: true,
        pub_date: T0,
    }
}

fn refused(r: Result<Database, DbError>) -> bool {
    matches!(r, Err(DbError::Custom(_)))
}

#[test]
fn rows_that_obey_the_rules_make_a_store() {
    let db = Database::from_rows(
        vec![g(2, "a"), g(5, "b")],
        vec![f(1, 5, "u"), f(3, 2, "v")],
        vec![i(4, 3, "x"), i(9, 1, "y")],
    )
    .ok()
    .unwrap();
    let groups = db.get_groups().unwrap();
    assert_eq!(groups.iter().map(|g| g.id).collect::<Vec<_>>(), vec![-1, 2, 5]);
    assert_eq!(db.get_feeds().unwrap(), vec![f(1, 5, "u"), f(3, 2, "v")]);
    assert_eq!(db.get_feed_items_from_group(2).unwrap().len(), 1);
    assert_eq!(db.get_feed_items().unwrap()[0].content, "");
    assert!(Database::from_rows(vec![], vec![], vec![]).is_ok());
}

#[test]
fn new_rows_take_the_id_after_the_last() {
    let mut db = Database::from_rows(vec![g(2, "a"), g(5, "b")], vec![], vec![]).ok().unwrap();
    assert_eq!(db.upsert_group(g(0, "c")), Ok(6));
    assert_eq!(db.upsert_group(g(0, "a")), Ok(2));
}

#[test]
fn ids_that_are_used_up_refuse_new_rows_only() {
    let mut db = Database::from_rows(vec![g(1, "a"), g(i32::MAX, "b")], vec![], vec![]).ok().unwrap();
    assert_eq!(db.upsert_group(g(0, "c")), Err(DbError::IdsExhausted));
    assert_eq!(db.upsert_group(Group { id: 0, name: "b".into(), desc: "still".into() }), Ok(i32::MAX));
    assert_eq!(db.get_groups().unwrap().len(), 3);
    assert_eq!(db.get_groups().unwrap()[2].desc, "still");

    let mut db = Database::from_rows(vec![g(1, "a")], vec![f(i32::MAX, 1, "u")], vec![]).ok().unwrap();
    assert_eq!(db.upsert_feed(f(0, 1, "v")), Err(DbError::IdsExhausted));
    assert_eq!(db.upsert_feed(f(0, 7, "v")), Err(DbError::ForeignKey));
    assert_eq!(db.upsert_feed(f(0, 7, "u")), Ok(i32::MAX));

    let mut db =
        Database::from_rows(vec![g(1, "a")], vec![f(1, 1, "u")], vec![i(i32::MAX, 1, "x")]).ok().unwrap();
    assert_eq!(db.upsert_feed_item(i(0, 1, "y")), Err(DbError::IdsExhausted));
    assert_eq!(db.upsert_feed_item(i(0, 3, "y")), Err(DbError::ForeignKey));
    assert_eq!(db.upsert_feed_item(i(0, 3, "x")), Ok(i32::MAX));
}

#[test]
fn rows_that_break_a_rule_are_refused() {
    assert!(refused(Database::from_rows(vec![g(0, "a")], vec![], vec![])));
    assert!(refused(Database::from_rows(vec![g(-1, "a")], vec![], vec![])));
    assert!(refused(Database::from_rows(vec![g(2, "a"), g(2, "b")], vec![], vec![])));
    assert!(refused(Database::from_rows(vec![g(3, "a"), g(2, "b")], vec![], vec![])));
    assert!(refused(Database::from_rows(vec![g(1, "a"), g(2, "b"), g(3, "a")], vec![], vec![])));
    assert!(refused(Database::from_rows(vec![g(1, "a")], vec![f(1, 2, "u")], vec![])));
    assert!(refused(Database::from_rows(vec![g(1, "a")], vec![f(1, 1, "u"), f(2, 1, "u")], vec![])));
    assert!(refused(Database::from_rows(vec![g(1, "a")], vec![f(2, 1, "u"), f(1, 1, "v")], vec![])));
    assert!(refused(Database::from_rows(vec![g(1, "a")], vec![f(0, 1, "u")], vec![])));
    assert!(refused(Database::from_rows(vec![g(1, "a")], vec![f(1, 1, "u")], vec![i(1, 2, "x")])));
    assert!(refused(Database::from_rows(vec![g(1, "a")], vec![f(1, 1, "u")], vec![i(1, 1, "x"), i(2, 1, "x")])));
    assert!(refused(Database::from_rows(vec![g(1, "a")], vec![f(1, 1, "u")], vec![i(2, 1, "x"), i(2, 1, "y")])));
    assert!(refused(Database::from_rows(vec![], vec![], vec![i(1, 1, "x")])));
}
