use nuuslees::action::{Action, ActionQueue};
use nuuslees::components::article_list::ArticleList;
use nuuslees::components::article_reader::ArticleReader;
use nuuslees::components::article_view::ArticleView;
use nuuslees::components::feed_view::FeedView;
use nuuslees::components::group_view::GroupView;
use nuuslees::components::popup_quit::QuitPopup;
use nuuslees::components::reader::Reader;
use nuuslees::components::{select_next, select_prev, Component, Row};
use nuuslees::config::Config;
use nuuslees::db::{Feed, FeedItem, Group};
use nuuslees::html::{Line, Span, Style};
use nuuslees::mode::Mode;
use nuuslees::tables::Timestamp;
use nuuslees::tui::{Event, KeyCode, KeyEvent, MouseEvent, MouseEventKind};

const T0: Timestamp = Timestamp { secs: 10, nanos: 0 };

fn key(c: char) -> KeyEvent {
    KeyEvent { code: KeyCode::Char(c), shift: false }
}

fn code(code: KeyCode) -> KeyEvent {
    KeyEvent { code, shift: false }
}

fn scroll(kind: MouseEventKind) -> MouseEvent {
    MouseEvent { kind }
}

fn drain(q: &mut ActionQueue) -> Vec<Action> {
    let mut out = Vec::new();
    while let Some(a) = q.try_recv() {
        out.push(a);
    }
    out
}

fn groups() -> Vec<Group> {
    vec![
        Group { id: -1, name: "All Feeds".into(), desc: "all".into() },
        Group { id: 1, name: "Tech".into(), desc: "t".into() },
        Group { id: 2, name: "News".into(), desc: "n".into() },
    ]
}

fn feeds() -> Vec<Feed> {
    vec![
        Feed { id: -1, group_id: 1, name: "All Feeds".into(), desc: String::new(), url: String::new(), updated_at: T0 },
        Feed { id: 4, group_id: 1, name: "Blog".into(), desc: "b".into(), url: "http://blog".into(), updated_at: T0 },
    ]
}

fn items() -> Vec<FeedItem> {
    ["a", "b", "c"]
        .iter()
        .enumerate()
        .map(|(i, t)| FeedItem {
            id: i as i32 + 1,
            feed_id: 4,
            title: t.to_string(),
            url: format!("http://blog/{t}"),
            desc: String::new(),
            content: String::new(),
            read: false,
            pub_date: T0,
        })
        .collect()
}

#[test]
fn selection_steps_wrap_at_both_ends() {
    assert_eq!(select_next(Some(0), 3), Some(1));
    assert_eq!(select_next(Some(1), 3), Some(2));
    assert_eq!(select_next(Some(2), 3), Some(0));
    assert_eq!(select_prev(Some(0), 3), Some(2));
    assert_eq!(select_prev(Some(2), 3), Some(1));
    assert_eq!(select_next(None, 3), Some(1));
    assert_eq!(select_prev(None, 3), Some(2));
    assert_eq!(select_next(Some(0), 1), Some(0));
    assert_eq!(select_prev(Some(0), 1), Some(0));
}

#[test]
fn selection_steps_leave_an_empty_list_alone() {
    assert_eq!(select_next(Some(0), 0), Some(0));
    assert_eq!(select_prev(Some(0), 0), Some(0));
    assert_eq!(select_next(None, 0), None);
    assert_eq!(select_prev(Some(7), 0), Some(7));
}

#[test]
fn selection_beyond_the_list_counts_as_the_last_place() {
    assert_eq!(select_next(Some(9), 3), Some(0));
    assert_eq!(select_prev(Some(9), 3), Some(1));
    assert_eq!(select_next(Some(usize::MAX), 2), Some(0));
}

#[test]
fn group_view_starts_in_the_selected_first_tab() {
    let g = GroupView::new();
    assert_eq!(g.idx, 0);
    assert_eq!(g.selected_idx, 0);
    assert_eq!(g.selected, Some(0));
    assert!(g.groups.is_empty());
    assert!(!g.command_tx);
    assert_eq!(g.mode, Mode::Main);
}

#[test]
fn group_view_keys_on_an_empty_list_do_nothing() {
    let mut g = GroupView::new();
    let mut q = ActionQueue::new();
    g.register_action_handler();
    for k in [key('j'), key('k'), key('l'), code(KeyCode::Enter), code(KeyCode::Up)] {
        assert_eq!(g.handle_key_events(k, &mut q), None);
    }
    assert_eq!(g.selected, Some(0));
    assert!(q.is_empty());
}

#[test]
fn group_view_moves_and_opens() {
    let mut g = GroupView::new();
    let mut q = ActionQueue::new();
    g.register_action_handler();
    assert_eq!(g.update(&Action::Refresh(groups()), &mut q), None);
    assert_eq!(g.groups, groups());

    g.handle_key_events(key('l'), &mut q);
    assert_eq!(drain(&mut q), vec![Action::NewTabArticleViewAll]);

    g.handle_key_events(key('j'), &mut q);
    assert_eq!(g.selected, Some(1));
    g.handle_key_events(code(KeyCode::Enter), &mut q);
    assert_eq!(drain(&mut q), vec![Action::NewTabFeedView(groups()[1].clone())]);

    g.handle_key_events(code(KeyCode::Down), &mut q);
    g.handle_key_events(key('j'), &mut q);
    assert_eq!(g.selected, Some(0));
    g.handle_key_events(key('k'), &mut q);
    assert_eq!(g.selected, Some(2));
    g.handle_key_events(code(KeyCode::Up), &mut q);
    assert_eq!(g.selected, Some(1));
    assert!(q.is_empty());
}

#[test]
fn group_view_sends_nothing_before_it_is_connected() {
    let mut g = GroupView::new();
    let mut q = ActionQueue::new();
    g.update(&Action::Refresh(groups()), &mut q);
    g.handle_key_events(key('l'), &mut q);
    assert!(q.is_empty());
}

#[test]
fn group_view_ignores_keys_while_another_tab_is_selected() {
    let mut g = GroupView::new();
    let mut q = ActionQueue::new();
    g.register_action_handler();
    g.update(&Action::Refresh(groups()), &mut q);
    g.update(&Action::ChangeTab(2), &mut q);
    assert_eq!(g.selected_idx, 2);
    g.handle_events(Event::Key(key('j')), &mut q);
    g.handle_events(Event::Key(key('l')), &mut q);
    assert_eq!(g.selected, Some(0));
    assert!(q.is_empty());
    g.update(&Action::ChangeTab(0), &mut q);
    g.handle_events(Event::Key(key('j')), &mut q);
    assert_eq!(g.selected, Some(1));
}

#[test]
fn group_view_scrolls_with_the_mouse() {
    let mut g = GroupView::new();
    let mut q = ActionQueue::new();
    g.update(&Action::Refresh(groups()), &mut q);
    g.handle_events(Event::Mouse(scroll(MouseEventKind::ScrollUp)), &mut q);
    assert_eq!(g.selected, Some(1));
    g.handle_mouse_events(scroll(MouseEventKind::ScrollDown), &mut q);
    g.handle_mouse_events(scroll(MouseEventKind::ScrollDown), &mut q);
    assert_eq!(g.selected, Some(2));
    g.handle_mouse_events(scroll(MouseEventKind::Other), &mut q);
    assert_eq!(g.selected, Some(2));
}

#[test]
fn group_view_takes_the_mode_and_the_configuration() {
    let mut g = GroupView::new();
    let mut q = ActionQueue::new();
    g.update(&Action::ModeChange(Mode::FeedList), &mut q);
    assert_eq!(g.mode, Mode::FeedList);
    let mut config = Config::default();
    config.confirm_quit = true;
    g.register_config_handler(config);
    assert!(g.config.confirm_quit);
    for a in [Action::Tick, Action::Quit, Action::RemoveTab(0), Action::Error("x".into())] {
        assert_eq!(g.update(&a, &mut q), None);
    }
    assert_eq!(g.idx, 0);
    assert!(q.is_empty());
}

#[test]
fn feed_view_takes_only_feeds_addressed_to_its_tab() {
    let mut f = FeedView::new(2, groups()[1].clone());
    let mut q = ActionQueue::new();
    assert_eq!(f.idx, 2);
    assert_eq!(f.selected_idx, 2);
    assert_eq!(f.group, groups()[1]);
    f.update(&Action::UpdateFeedView(1, feeds()), &mut q);
    assert!(f.feeds.is_empty());
    f.update(&Action::UpdateFeedView(2, feeds()), &mut q);
    assert_eq!(f.feeds, feeds());
}

#[test]
fn feed_view_opens_the_group_or_the_feed() {
    let mut f = FeedView::new(1, groups()[1].clone());
    let mut q = ActionQueue::new();
    f.register_action_handler();
    f.handle_key_events(key('l'), &mut q);
    assert!(q.is_empty());
    f.update(&Action::UpdateFeedView(1, feeds()), &mut q);
    f.handle_key_events(key('l'), &mut q);
    assert_eq!(drain(&mut q), vec![Action::NewTabArticleViewGroup(groups()[1].clone())]);
    f.handle_key_events(key('j'), &mut q);
    f.handle_key_events(code(KeyCode::Enter), &mut q);
    assert_eq!(drain(&mut q), vec![Action::NewTabArticleViewFeed(feeds()[1].clone())]);
    f.handle_key_events(key('j'), &mut q);
    assert_eq!(f.selected, Some(0));
    f.handle_key_events(key('k'), &mut q);
    assert_eq!(f.selected, Some(1));
}

#[test]
fn feed_view_keeps_its_place_on_a_removal_notice() {
    let mut f = FeedView::new(3, groups()[1].clone());
    let mut q = ActionQueue::new();
    f.update(&Action::RemoveTab(1), &mut q);
    assert_eq!(f.idx, 3);
    f.update(&Action::ChangeTab(1), &mut q);
    assert_eq!(f.selected_idx, 1);
    f.handle_events(Event::Key(key('j')), &mut q);
    assert_eq!(f.selected, Some(0));
}

#[test]
fn article_list_asks_for_the_selected_article_and_hands_the_input_over() {
    let mut l = ArticleList::new(3);
    let mut q = ActionQueue::new();
    l.register_action_handler();
    l.handle_key_events(key('l'), &mut q);
    assert!(q.is_empty());
    l.set_feed_items(items());
    l.handle_key_events(key('j'), &mut q);
    l.handle_key_events(key('l'), &mut q);
    assert_eq!(
        drain(&mut q),
        vec![Action::RequestUpdateReader(3, items()[1].clone()), Action::ActivateReader]
    );
    l.update(&Action::ActivateReader, &mut q);
    assert!(!l.active);
    assert_eq!(l.selected, None);
    l.handle_key_events(key('j'), &mut q);
    l.handle_key_events(key('l'), &mut q);
    assert_eq!(l.selected, None);
    assert!(q.is_empty());
    l.update(&Action::ActivateFeedList, &mut q);
    assert!(l.active);
    assert_eq!(l.selected, Some(0));
}

#[test]
fn article_list_with_no_articles_does_not_send() {
    let mut l = ArticleList::new(1);
    let mut q = ActionQueue::new();
    l.register_action_handler();
    l.set_feed_items(Vec::new());
    for k in [key('j'), key('k'), key('l')] {
        l.handle_key_events(k, &mut q);
    }
    assert_eq!(l.selected, Some(0));
    assert!(q.is_empty());
}

#[test]
fn article_list_takes_articles_from_a_mode_change() {
    let mut l = ArticleList::new(1);
    let mut q = ActionQueue::new();
    l.update(&Action::ModeChange(Mode::FeedList), &mut q);
    assert_eq!(l.feed_items, None);
    l.update(&Action::ModeChange(Mode::ViewArticles(items())), &mut q);
    assert_eq!(l.feed_items, Some(items()));
    assert_eq!(l.mode, Mode::Main);
    l.handle_mouse_events(scroll(MouseEventKind::ScrollUp), &mut q);
    assert_eq!(l.selected, Some(0));
    l.mode = Mode::ViewArticles(Vec::new());
    l.handle_mouse_events(scroll(MouseEventKind::ScrollUp), &mut q);
    assert_eq!(l.selected, Some(1));
    l.handle_mouse_events(scroll(MouseEventKind::ScrollDown), &mut q);
    l.handle_mouse_events(scroll(MouseEventKind::ScrollDown), &mut q);
    assert_eq!(l.selected, Some(2));
}

#[test]
fn article_reader_scrolls_only_while_it_has_the_input() {
    let mut r = ArticleReader::new(1);
    let mut q = ActionQueue::new();
    r.handle_key_events(key('j'), &mut q);
    assert_eq!(r.scroll_position, (0, 0));
    r.update(&Action::ActivateReader, &mut q);
    assert!(r.active);
    r.handle_key_events(key('k'), &mut q);
    assert_eq!(r.scroll_position, (0, 0));
    r.handle_key_events(key('j'), &mut q);
    r.handle_key_events(key('j'), &mut q);
    r.handle_mouse_events(scroll(MouseEventKind::ScrollDown), &mut q);
    assert_eq!(r.scroll_position, (3, 0));
    r.handle_mouse_events(scroll(MouseEventKind::ScrollUp), &mut q);
    r.handle_key_events(key('k'), &mut q);
    assert_eq!(r.scroll_position, (1, 0));
    r.scroll_position = (u16::MAX, 0);
    r.handle_key_events(key('j'), &mut q);
    assert_eq!(r.scroll_position, (u16::MAX, 0));
    assert!(q.is_empty());
}

#[test]
fn article_reader_hands_the_input_back_on_h() {
    let mut r = ArticleReader::new(1);
    let mut q = ActionQueue::new();
    r.update(&Action::ActivateReader, &mut q);
    r.handle_key_events(key('h'), &mut q);
    assert!(r.active);
    assert!(q.is_empty());
    r.register_action_handler();
    r.handle_events(Event::Key(key('h')), &mut q);
    assert!(!r.active);
    assert_eq!(drain(&mut q), vec![Action::ActivateFeedList]);
    r.handle_key_events(key('h'), &mut q);
    assert!(q.is_empty());
}

#[test]
fn article_reader_shows_only_articles_addressed_to_its_tab() {
    let mut r = ArticleReader::new(2);
    let mut q = ActionQueue::new();
    r.update(&Action::ActivateReader, &mut q);
    r.handle_key_events(key('j'), &mut q);
    r.update(&Action::UpdateReader(1, "<p>other</p>".into()), &mut q);
    assert_eq!(r.content, None);
    assert_eq!(r.text, None);
    assert_eq!(r.scroll_position, (1, 0));
    r.update(&Action::UpdateReader(2, "<p>mine</p>".into()), &mut q);
    assert_eq!(r.content.as_deref(), Some("<p>mine</p>"));
    assert_eq!(r.scroll_position, (0, 0));
    assert_eq!(
        r.text,
        Some(vec![
            Line { spans: vec![Span { content: "mine".into(), style: Style::Plain }] },
            Line { spans: vec![] },
        ])
    );
}

#[test]
fn article_reader_builds_text_only_from_a_body() {
    let mut r = ArticleReader::new(0);
    r.build_text();
    assert_eq!(r.text, None);
    r.set_content("<p>x</p>".into());
    assert_eq!(r.text, None);
    r.build_text();
    assert_eq!(r.text.map(|t| t.len()), Some(2));
}

#[test]
fn reader_shows_whatever_arrives() {
    let mut r = Reader::new();
    let mut q = ActionQueue::new();
    r.handle_key_events(key('j'), &mut q);
    r.handle_key_events(key('j'), &mut q);
    r.handle_mouse_events(scroll(MouseEventKind::ScrollUp), &mut q);
    assert_eq!(r.scroll_position, (0, 1));
    r.update(&Action::UpdateReader(9, "<p>a</p><p>b</p>".into()), &mut q);
    assert_eq!(r.content.as_deref(), Some("<p>a</p><p>b</p>"));
    assert_eq!(r.text.as_ref().map(|t| t.len()), Some(4));
    assert_eq!(r.scroll_position, (0, 1));
    r.set_content("<p>c</p>".into());
    r.build_text();
    assert_eq!(r.text.map(|t| t.len()), Some(2));
}

#[test]
fn article_view_passes_events_on_only_in_the_selected_tab() {
    let mut v = ArticleView::new(2);
    let mut q = ActionQueue::new();
    v.register_action_handler();
    v.update(&Action::UpdateArticleView(1, items()), &mut q);
    assert_eq!(v.article_list.feed_items, None);
    v.update(&Action::UpdateArticleView(2, items()), &mut q);
    assert_eq!(v.article_list.feed_items, Some(items()));

    v.handle_events(Event::Key(key('j')), &mut q);
    assert_eq!(v.article_list.selected, Some(1));
    v.update(&Action::ChangeTab(0), &mut q);
    v.handle_events(Event::Key(key('j')), &mut q);
    v.handle_events(Event::Key(key('l')), &mut q);
    assert_eq!(v.article_list.selected, Some(1));
    assert!(q.is_empty());

    v.update(&Action::ChangeTab(2), &mut q);
    v.handle_events(Event::Key(key('l')), &mut q);
    let sent = drain(&mut q);
    assert_eq!(sent, vec![Action::RequestUpdateReader(2, items()[1].clone()), Action::ActivateReader]);
    for a in &sent {
        v.update(a, &mut q);
    }
    assert!(v.article_reader.active);
    assert!(!v.article_list.active);
    v.handle_events(Event::Key(key('h')), &mut q);
    assert_eq!(drain(&mut q), vec![Action::ActivateFeedList]);
}

#[test]
fn article_view_moves_with_list_and_reader() {
    let mut v = ArticleView::new(3);
    let mut q = ActionQueue::new();
    v.set_index(1);
    assert_eq!((v.idx, v.article_list.idx, v.article_reader.idx), (1, 1, 1));
    v.update(&Action::UpdateReader(3, "<p>late</p>".into()), &mut q);
    assert_eq!(v.article_reader.content, None);
    v.update(&Action::UpdateReader(1, "<p>now</p>".into()), &mut q);
    assert_eq!(v.article_reader.content.as_deref(), Some("<p>now</p>"));
}

#[test]
fn quit_popup_asks_where_the_configuration_says_so() {
    let mut p = QuitPopup::new();
    let mut q = ActionQueue::new();
    p.register_action_handler();
    let mut config = Config::default();
    config.confirm_quit = true;
    p.register_config_handler(config);
    p.handle_key_events(key('y'), &mut q);
    assert!(q.is_empty());
    p.update(&Action::Tick, &mut q);
    assert!(!p.show);
    p.update(&Action::ConfirmQuit, &mut q);
    assert!(p.show);
    assert!(q.is_empty());
    p.handle_events(Event::Key(key('n')), &mut q);
    assert!(!p.show);
    p.update(&Action::ConfirmQuit, &mut q);
    p.handle_events(Event::Key(key('y')), &mut q);
    assert_eq!(drain(&mut q), vec![Action::Quit]);
}

#[test]
fn quit_popup_quits_at_once_without_confirmation() {
    let mut p = QuitPopup::new();
    let mut q = ActionQueue::new();
    p.register_action_handler();
    assert!(!p.config.confirm_quit);
    p.update(&Action::Tick, &mut q);
    p.update(&Action::Render, &mut q);
    assert!(q.is_empty());
    p.update(&Action::ConfirmQuit, &mut q);
    assert!(!p.show);
    assert_eq!(drain(&mut q), vec![Action::Quit]);
}

#[test]
fn quit_popup_unconnected_sends_nothing() {
    let mut p = QuitPopup::new();
    let mut q = ActionQueue::new();
    p.update(&Action::ConfirmQuit, &mut q);
    assert!(q.is_empty());
}

fn row(name: &str, desc: &str, highlighted: bool) -> Row {
    Row { name: name.into(), desc: desc.into(), highlighted }
}

#[test]
fn drawn_rows_mark_the_selected_entry() {
    let mut g = GroupView::new();
    let mut q = ActionQueue::new();
    assert_eq!(g.rows(), Vec::<Row>::new());
    g.update(&Action::Refresh(groups()), &mut q);
    assert_eq!(
        g.rows(),
        vec![row("All Feeds", "all", true), row("Tech", "t", false), row("News", "n", false)]
    );
    g.handle_key_events(key('k'), &mut q);
    assert_eq!(
        g.rows(),
        vec![row("All Feeds", "all", false), row("Tech", "t", false), row("News", "n", true)]
    );

    let mut f = FeedView::new(1, groups()[1].clone());
    f.update(&Action::UpdateFeedView(1, feeds()), &mut q);
    f.handle_key_events(key('j'), &mut q);
    assert_eq!(f.rows(), vec![row("All Feeds", "", false), row("Blog", "b", true)]);
    f.selected = Some(5);
    assert_eq!(f.rows(), vec![row("All Feeds", "", false), row("Blog", "b", false)]);
}

#[test]
fn drawn_rows_of_articles_are_missing_until_articles_are_held() {
    let mut l = ArticleList::new(1);
    let mut q = ActionQueue::new();
    assert_eq!(l.rows(), None);
    l.set_feed_items(items());
    assert_eq!(l.rows(), Some(vec![row("a", "", true), row("b", "", false), row("c", "", false)]));
    l.update(&Action::ActivateReader, &mut q);
    assert_eq!(l.rows(), Some(vec![row("a", "", false), row("b", "", false), row("c", "", false)]));
    l.set_feed_items(Vec::new());
    assert_eq!(l.rows(), Some(Vec::new()));
}
