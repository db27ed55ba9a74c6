use nuuslees::action::{Action, ActionQueue};
use nuuslees::app::{App, Control, Effect, RunState};
use nuuslees::components::tab_viewer::Tab;
use nuuslees::config::{AppConfig, Config, FeedConfig, GroupConfig};
use nuuslees::db::{Database, Feed, FeedItem, Group};
use nuuslees::mode::Mode;
use nuuslees::tables::Timestamp;
use nuuslees::tui::{Event, KeyCode, KeyEvent, Rect};

const T0: Timestamp = Timestamp { secs: 1_700_000_000, nanos: 0 };
const T1: Timestamp = Timestamp { secs: 1_700_000_500, nanos: 0 };
const AREA: Rect = Rect { x: 0, y: 0, width: 80, height: 24 };

fn key(c: char) -> Event {
    Event::Key(KeyEvent { code: KeyCode::Char(c), shift: false })
}

fn config(confirm_quit: bool) -> Config {
    Config {
        config: AppConfig { _data_dir: "/data".into(), _config_dir: "/config".into() },
        confirm_quit,
        groups: vec![GroupConfig {
            name: "Tech".into(),
            desc: "technology".into(),
            feeds: vec![FeedConfig { name: Some("Blog".into()), desc: None, link: "http://blog/rss".into() }],
        }],
    }
}

fn stored() -> Database {
    let mut db = Database::new();
    let g = db.upsert_group(Group { id: 0, name: "Tech".into(), desc: "technology".into() }).unwrap();
    let f = db
        .upsert_feed(Feed { id: 0, group_id: g, name: "Blog".into(), desc: "b".into(), url: "http://blog/rss".into(), updated_at: T0 })
        .unwrap();
    for t in ["one", "two"] {
        db.upsert_feed_item(FeedItem {
            id: 0,
            feed_id: f,
            title: t.into(),
            url: format!("http://blog/{t}"),
            desc: String::new(),
            content: String::new(),
            read: false,
            pub_date: T0,
        })
        .unwrap();
    }
    db
}

fn started(confirm_quit: bool) -> App {
    let mut app = App::new(config(confirm_quit), stored());
    app.start(AREA);
    app
}

fn waiting(app: &mut App) -> Vec<Action> {
    let mut out = Vec::new();
    while let Some(a) = app.queue.try_recv() {
        out.push(a);
    }
    for a in &out {
        app.queue.send(a.clone());
    }
    out
}

fn drain(app: &mut App) -> Vec<Effect> {
    let mut effects = Vec::new();
    let mut steps = 0;
    while let Some(effect) = app.step(T1) {
        effects.push(effect);
        steps += 1;
        assert!(steps < 1000, "the drain does not end");
    }
    effects
}

#[test]
fn queue_is_first_in_first_out() {
    let mut q = ActionQueue::new();
    assert!(q.is_empty());
    assert_eq!(q.try_recv(), None);
    q.send(Action::Tick);
    q.send(Action::Render);
    q.send(Action::ChangeTab(3));
    assert_eq!(q.len(), 3);
    assert_eq!(q.try_recv(), Some(Action::Tick));
    q.send(Action::Quit);
    assert_eq!(q.try_recv(), Some(Action::Render));
    assert_eq!(q.try_recv(), Some(Action::ChangeTab(3)));
    assert_eq!(q.try_recv(), Some(Action::Quit));
    assert_eq!(q.try_recv(), None);
    assert_eq!(q.len(), 0);
}

#[test]
fn a_new_application_runs_with_nothing_waiting() {
    let mut app = App::new(config(true), stored());
    assert_eq!(app.run_state(), RunState::Running);
    assert!(app.queue.is_empty());
    assert_eq!(app.mode, Mode::Main);
    assert_eq!(app.step(T1), None);
    assert_eq!(app.after_drain(), Control::Continue);
    assert!(app.config.confirm_quit);
    assert_eq!(app.tab_viewer.tabs.len(), 1);
}

#[test]
fn start_wires_the_components_and_sends_the_groups() {
    let mut app = started(true);
    assert!(app.tab_viewer.command_tx);
    assert!(app.quit_popup.command_tx);
    assert!(app.quit_popup.config.confirm_quit);
    assert!(app.tab_viewer.config.confirm_quit);
    let groups = app.db.get_groups().unwrap();
    assert_eq!(groups.len(), 2);
    assert_eq!(waiting(&mut app), vec![Action::Refresh(groups.clone())]);
    assert_eq!(drain(&mut app), vec![Effect::Nothing]);
    match &app.tab_viewer.tabs[0] {
        Tab::Groups(g) => {
            assert_eq!(g.groups, groups);
            assert!(g.command_tx);
        }
        _ => panic!("the first tab lists the groups"),
    }
}

#[test]
fn terminal_events_become_root_actions() {
    let mut app = started(true);
    drain(&mut app);
    app.handle_event(Event::Tick);
    app.handle_event(Event::Render);
    app.handle_event(Event::Resize(100, 40));
    app.handle_event(Event::Other);
    app.handle_event(key('z'));
    assert_eq!(waiting(&mut app), vec![Action::Tick, Action::Render, Action::Resize(100, 40)]);
    assert_eq!(drain(&mut app), vec![Effect::Nothing, Effect::Draw, Effect::ResizeAndDraw(100, 40)]);
    assert_eq!(app.run_state(), RunState::Running);
}

#[test]
fn follow_ups_wait_behind_what_waited_before() {
    let mut app = started(true);
    drain(&mut app);
    app.queue.send(Action::NewTabArticleViewAll);
    app.queue.send(Action::Tick);
    assert_eq!(app.step(T1), Some(Effect::Nothing));
    assert_eq!(
        waiting(&mut app),
        vec![Action::Tick, Action::ChangeTab(1), Action::RequestUpdateArticleViewAll(1)]
    );
    assert_eq!(app.step(T1), Some(Effect::Nothing));
    assert_eq!(app.step(T1), Some(Effect::Nothing));
    assert_eq!(app.step(T1), Some(Effect::Nothing));
    let items = app.db.get_feed_items().unwrap();
    assert_eq!(waiting(&mut app), vec![Action::UpdateArticleView(1, items.clone())]);
    assert_eq!(app.step(T1), Some(Effect::Nothing));
    assert_eq!(app.step(T1), None);
    match &app.tab_viewer.tabs[1] {
        Tab::Articles(a) => {
            assert_eq!(a.article_list.feed_items, Some(items));
            assert_eq!(a.selected_idx, 1);
        }
        _ => panic!("an article tab was opened"),
    }
}

#[test]
fn opening_a_group_lists_its_feeds_with_the_synthetic_feed_first() {
    let mut app = started(true);
    drain(&mut app);
    app.handle_event(key('j'));
    app.handle_event(key('l'));
    assert_eq!(
        waiting(&mut app),
        vec![Action::NewTabFeedView(Group { id: 1, name: "Tech".into(), desc: "technology".into() })]
    );
    drain(&mut app);
    assert_eq!(app.tab_viewer.selected_tab, 1);
    match &app.tab_viewer.tabs[1] {
        Tab::Feeds(f) => {
            assert_eq!(f.feeds.len(), 2);
            assert_eq!(f.feeds[0].id, -1);
            assert_eq!(f.feeds[0].updated_at, T1);
            assert_eq!(f.feeds[1].name, "Blog");
            assert_eq!(f.selected_idx, 1);
        }
        _ => panic!("a feed tab was opened"),
    }
    app.handle_event(key('l'));
    drain(&mut app);
    assert_eq!(app.tab_viewer.selected_tab, 2);
    match &app.tab_viewer.tabs[2] {
        Tab::Articles(a) => assert_eq!(a.article_list.feed_items.as_ref().map(|i| i.len()), Some(2)),
        _ => panic!("an article tab was opened"),
    }
    app.handle_event(Event::Key(KeyEvent { code: KeyCode::Char('H'), shift: true }));
    drain(&mut app);
    app.handle_event(key('j'));
    app.handle_event(key('l'));
    drain(&mut app);
    assert_eq!(app.tab_viewer.selected_tab, 3);
    match &app.tab_viewer.tabs[3] {
        Tab::Articles(a) => {
            let titles: Vec<&str> = a.article_list.feed_items.as_ref().unwrap().iter().map(|i| i.title.as_str()).collect();
            assert_eq!(titles, vec!["one", "two"]);
        }
        _ => panic!("an article tab was opened"),
    }
}

fn app_reading() -> App {
    let mut app = started(true);
    drain(&mut app);
    app.handle_event(key('l'));
    drain(&mut app);
    assert_eq!(app.tab_viewer.selected_tab, 1);
    app
}

#[test]
fn asking_for_an_article_asks_the_caller_to_extract_it() {
    let mut app = app_reading();
    app.handle_event(key('j'));
    app.handle_event(key('l'));
    let effects = drain(&mut app);
    assert_eq!(
        effects,
        vec![Effect::Extract { idx: 1, url: "http://blog/two".into() }, Effect::Nothing]
    );
    app.extracted(1, Some("<p>Body of two</p>".into()));
    assert_eq!(waiting(&mut app), vec![Action::UpdateReader(1, "<p>Body of two</p>".into())]);
    drain(&mut app);
    match &app.tab_viewer.tabs[1] {
        Tab::Articles(a) => {
            assert_eq!(a.article_reader.content.as_deref(), Some("<p>Body of two</p>"));
            assert_eq!(a.article_reader.text.as_ref().map(|t| t.len()), Some(2));
            assert!(a.article_reader.active);
            assert!(!a.article_list.active);
        }
        _ => panic!("an article tab was opened"),
    }
}

#[test]
fn a_failed_extraction_leaves_the_reader_and_the_mode_as_they_were() {
    let mut app = app_reading();
    app.handle_event(key('l'));
    drain(&mut app);
    app.extracted(1, Some("<p>first</p>".into()));
    drain(&mut app);
    app.handle_event(key('h'));
    drain(&mut app);
    app.handle_event(key('j'));
    app.handle_event(key('l'));
    assert_eq!(
        drain(&mut app),
        vec![Effect::Extract { idx: 1, url: "http://blog/two".into() }, Effect::Nothing]
    );
    let before = match &app.tab_viewer.tabs[1] {
        Tab::Articles(a) => (a.article_reader.content.clone(), a.article_reader.text.clone(), a.article_reader.scroll_position),
        _ => panic!("an article tab was opened"),
    };
    app.extracted(1, None);
    assert_eq!(waiting(&mut app), vec![Action::Error("Failed to display post.".into())]);
    assert_eq!(drain(&mut app), vec![Effect::Nothing]);
    let after = match &app.tab_viewer.tabs[1] {
        Tab::Articles(a) => (a.article_reader.content.clone(), a.article_reader.text.clone(), a.article_reader.scroll_position),
        _ => panic!("an article tab was opened"),
    };
    assert_eq!(before, after);
    assert_eq!(after.0.as_deref(), Some("<p>first</p>"));
    assert_eq!(app.mode, Mode::Main);
    assert_eq!(app.run_state(), RunState::Running);
}

#[test]
fn a_failed_draw_is_sent_as_an_error() {
    let mut app = started(true);
    drain(&mut app);
    app.draw_failed("no room".into());
    assert_eq!(waiting(&mut app), vec![Action::Error("Failed to draw: no room".into())]);
    assert_eq!(drain(&mut app), vec![Effect::Nothing]);
}

#[test]
fn q_asks_before_quitting() {
    let mut app = started(true);
    drain(&mut app);
    app.handle_event(key('q'));
    assert_eq!(waiting(&mut app), vec![Action::ConfirmQuit]);
    drain(&mut app);
    assert!(app.quit_popup.show);
    assert_eq!(app.after_drain(), Control::Continue);
    app.handle_event(key('n'));
    drain(&mut app);
    assert!(!app.quit_popup.show);
    app.handle_event(key('q'));
    drain(&mut app);
    app.handle_event(key('y'));
    assert_eq!(waiting(&mut app), vec![Action::Quit]);
    drain(&mut app);
    assert_eq!(app.run_state(), RunState::Quitting);
    assert_eq!(app.after_drain(), Control::Quit);
}

#[test]
fn q_quits_at_once_where_no_confirmation_is_asked() {
    let mut app = started(false);
    drain(&mut app);
    app.handle_event(Event::Tick);
    drain(&mut app);
    assert_eq!(app.run_state(), RunState::Running);
    app.handle_event(key('q'));
    drain(&mut app);
    assert!(!app.quit_popup.show);
    assert!(app.should_quit);
    assert_eq!(app.after_drain(), Control::Quit);
}

#[test]
fn a_quit_event_quits_whoever_has_the_input() {
    let mut app = started(true);
    drain(&mut app);
    app.handle_event(Event::Quit);
    drain(&mut app);
    assert_eq!(app.after_drain(), Control::Quit);
    app.queue.send(Action::Tick);
    app.queue.send(Action::Resume);
    drain(&mut app);
    assert_eq!(app.run_state(), RunState::Quitting);
}

#[test]
fn suspending_resumes_after_the_terminal_is_taken_again() {
    let mut app = started(true);
    drain(&mut app);
    app.queue.send(Action::Suspend);
    drain(&mut app);
    assert_eq!(app.run_state(), RunState::Suspended);
    assert_eq!(app.after_drain(), Control::Suspend);
    assert_eq!(waiting(&mut app), vec![Action::Resume]);
    drain(&mut app);
    assert_eq!(app.run_state(), RunState::Running);
    assert_eq!(app.after_drain(), Control::Continue);
    assert!(app.queue.is_empty());
}

#[test]
fn the_root_follows_the_mode() {
    let mut app = started(true);
    drain(&mut app);
    app.queue.send(Action::ModeChange(Mode::Refreshing));
    drain(&mut app);
    assert_eq!(app.mode, Mode::Refreshing);
    assert_eq!(app.tab_viewer.mode, Mode::Refreshing);
}

#[test]
fn removing_the_selected_tab_shows_the_one_before() {
    let mut app = started(true);
    drain(&mut app);
    app.handle_event(key('j'));
    app.handle_event(key('l'));
    drain(&mut app);
    app.handle_event(key('l'));
    drain(&mut app);
    assert_eq!(app.tab_viewer.tabs.len(), 3);
    assert_eq!(app.tab_viewer.selected_tab, 2);
    app.handle_event(key('x'));
    assert_eq!(waiting(&mut app), vec![Action::ChangeTab(1), Action::RemoveTab(2)]);
    drain(&mut app);
    assert_eq!(app.tab_viewer.tabs.len(), 2);
    assert_eq!(app.tab_viewer.selected_tab, 1);
    assert!(matches!(app.tab_viewer.visible_tab(), Some(Tab::Feeds(_))));
    match &app.tab_viewer.tabs[1] {
        Tab::Feeds(f) => assert_eq!((f.idx, f.selected_idx), (1, 1)),
        _ => panic!("the feed tab stayed"),
    }
}

#[test]
fn a_drain_empties_the_queue_and_answers_what_is_left_to_do() {
    let mut app = started(true);
    assert_eq!(app.drain(T1), Vec::<Effect>::new());
    assert!(app.queue.is_empty());
    assert_eq!(app.drain(T1), Vec::<Effect>::new());

    app.handle_event(Event::Render);
    app.handle_event(key('l'));
    app.handle_event(Event::Resize(10, 20));
    app.handle_event(Event::Tick);
    assert_eq!(app.drain(T1), vec![Effect::Draw, Effect::ResizeAndDraw(10, 20)]);
    assert!(app.queue.is_empty());
    assert_eq!(app.tab_viewer.tabs.len(), 2);
    assert_eq!(app.tab_viewer.selected_tab, 1);
    match &app.tab_viewer.tabs[1] {
        Tab::Articles(a) => {
            assert_eq!(a.article_list.feed_items.as_ref().map(|i| i.len()), Some(2));
            assert_eq!(a.selected_idx, 1);
        }
        _ => panic!("an article tab was opened"),
    }

    app.handle_event(Event::Render);
    app.handle_event(key('l'));
    assert_eq!(
        app.drain(T1),
        vec![Effect::Draw, Effect::Extract { idx: 1, url: "http://blog/one".into() }]
    );
}

#[test]
fn a_drain_takes_the_steps_one_by_one() {
    let mut by_steps = started(true);
    let mut at_once = started(true);
    drain(&mut by_steps);
    at_once.drain(T1);
    for app in [&mut by_steps, &mut at_once] {
        app.handle_event(key('j'));
        app.handle_event(key('l'));
        app.handle_event(key('q'));
        app.queue.send(Action::NewTabArticleViewAll);
    }
    drain(&mut by_steps);
    at_once.drain(T1);
    assert!(by_steps.queue.is_empty());
    assert_eq!(by_steps.tab_viewer.tabs.len(), 3);
    assert_eq!(at_once.tab_viewer.tabs.len(), 3);
    assert_eq!(by_steps.tab_viewer.selected_tab, at_once.tab_viewer.selected_tab);
    assert_eq!(by_steps.quit_popup.show, at_once.quit_popup.show);
    assert!(at_once.quit_popup.show);
    for (a, b) in by_steps.tab_viewer.tabs.iter().zip(at_once.tab_viewer.tabs.iter()) {
        match (a, b) {
            (Tab::Groups(a), Tab::Groups(b)) => assert_eq!((a.selected, a.selected_idx), (b.selected, b.selected_idx)),
            (Tab::Feeds(a), Tab::Feeds(b)) => assert_eq!((&a.feeds, a.selected_idx), (&b.feeds, b.selected_idx)),
            (Tab::Articles(a), Tab::Articles(b)) => {
                assert_eq!(a.article_list.feed_items, b.article_list.feed_items)
            }
            _ => panic!("the tabs differ in kind"),
        }
    }
}
