use dioscuri::app::poll_timeout;
use dioscuri::app::tick_due;
use dioscuri::app::App;
use dioscuri::app::Event;
use dioscuri::app::Key;
use dioscuri::app::Status;
use dioscuri::app::UPDATE_TICK_RATE;
use dioscuri::client::ClientAction;
use dioscuri::client::ClientEvent;
use dioscuri::client::GeminiClient;
use dioscuri::error::GeminiClientError;
use dioscuri::input::InputMode;

fn press(app: &mut App, key: Key) -> Status {
    app.handle_event(Event::Key(key))
}

fn clear_address(app: &mut App) {
    while app.input().len() > 0 {
        press(app, Key::Backspace);
    }
}

fn type_text(app: &mut App, text: &str) {
    for c in text.chars() {
        assert!(matches!(press(app, Key::Char(c)), Status::Running(true)));
    }
}

fn editing(text: &str) -> App {
    let mut app = App::new(GeminiClient::new());
    clear_address(&mut app);
    type_text(&mut app, text);
    app
}

fn load(app: &mut App, body: &str) {
    assert!(matches!(press(app, Key::Enter), Status::Transport(ClientAction::Connect(_))));
    let sent = app.handle_transport(ClientEvent::Connected);
    assert!(matches!(sent, Status::Transport(ClientAction::Send(_))));
    let header = app.handle_transport(ClientEvent::Header(b"20 text/gemini\r\n".to_vec()));
    assert!(matches!(header, Status::Transport(ClientAction::ReadBody)));
    let done = app.handle_transport(ClientEvent::Body(body.as_bytes().to_vec()));
    assert!(matches!(done, Status::Running(true)));
}

#[test]
fn browser_starts_editing_the_default_address() {
    let app = App::new(GeminiClient::new());
    assert_eq!(app.input().value(), "gemini://geminiprotocol.net/");
    assert_eq!(app.input().index(), 28);
    assert_eq!(app.input().mode(), InputMode::Editing);
    assert_eq!(app.body(), "");
    assert_eq!(app.scroll().value(), 0);
    assert_eq!(app.scroll().max(), 0);
    assert!(!app.loaded());
    assert!(app.error().is_none());
    assert_eq!(app.cursor(), Some(28));
    assert!(!app.client().is_busy());
}

#[test]
fn backspace_then_d_turns_abc_into_abd() {
    let mut app = editing("abc");
    assert_eq!(app.input().value(), "abc");
    assert_eq!(app.input().index(), 3);
    assert!(matches!(press(&mut app, Key::Backspace), Status::Running(true)));
    assert!(matches!(press(&mut app, Key::Char('d')), Status::Running(true)));
    assert_eq!(app.input().value(), "abd");
    assert_eq!(app.input().index(), 3);
    assert_eq!(app.input().mode(), InputMode::Editing);
}

#[test]
fn arrows_move_the_cursor_while_editing() {
    let mut app = editing("abc");
    assert!(matches!(press(&mut app, Key::Left), Status::Running(true)));
    assert_eq!(app.cursor(), Some(2));
    assert!(matches!(press(&mut app, Key::Right), Status::Running(true)));
    assert!(matches!(press(&mut app, Key::Right), Status::Running(true)));
    assert_eq!(app.cursor(), Some(3));
    assert!(matches!(press(&mut app, Key::Up), Status::Running(false)));
    assert!(matches!(press(&mut app, Key::Down), Status::Running(false)));
    assert!(matches!(press(&mut app, Key::Other), Status::Running(false)));
    assert_eq!(app.input().value(), "abc");
}

#[test]
fn slash_is_a_character_while_editing() {
    let mut app = editing("a");
    press(&mut app, Key::Char('/'));
    assert_eq!(app.input().value(), "a/");
    assert_eq!(app.input().mode(), InputMode::Editing);
}

#[test]
fn escape_leaves_when_no_page_was_loaded() {
    let mut app = App::new(GeminiClient::new());
    assert!(matches!(press(&mut app, Key::Esc), Status::Exit));
    assert_eq!(app.input().mode(), InputMode::Editing);
}

#[test]
fn resize_draws_and_other_events_do_not() {
    let mut app = App::new(GeminiClient::new());
    assert!(matches!(app.handle_event(Event::Resize), Status::Running(true)));
    assert!(matches!(app.handle_event(Event::Other), Status::Running(false)));
    assert_eq!(app.input().value(), "gemini://geminiprotocol.net/");
}

#[test]
fn enter_requests_the_address_and_the_body_takes_the_screen() {
    let mut app = editing("gemini://example.org/");
    press(&mut app, Key::Left);
    match press(&mut app, Key::Enter) {
        Status::Transport(ClientAction::Connect(target)) => {
            assert_eq!(target.socket_address, "example.org:1965")
        },
        _ => panic!("enter asks for a connection"),
    }
    match app.handle_transport(ClientEvent::Connected) {
        Status::Transport(ClientAction::Send(line)) => {
            assert_eq!(line, "gemini://example.org/\r\n")
        },
        _ => panic!("a connection that stands sends the request"),
    }
    let header = app.handle_transport(ClientEvent::Header(b"20 text/gemini\r\n".to_vec()));
    assert!(matches!(header, Status::Transport(ClientAction::ReadBody)));
    assert_eq!(app.input().mode(), InputMode::Editing);
    let done = app.handle_transport(ClientEvent::Body(b"# Hi\n".to_vec()));
    assert!(matches!(done, Status::Running(true)));
    assert_eq!(app.body(), "# Hi\n");
    assert_eq!(app.input().mode(), InputMode::Normal);
    assert_eq!(app.input().value(), "gemini://example.org/");
    assert_eq!(app.input().index(), 21);
    assert_eq!(app.scroll().value(), 0);
    assert!(app.loaded());
    assert!(app.error().is_none());
    assert_eq!(app.cursor(), None);
}

#[test]
fn failed_request_keeps_the_address_and_the_body() {
    let mut app = editing("gemini://example.org/");
    load(&mut app, "first page");
    press(&mut app, Key::Char('/'));
    type_text(&mut app, "missing");
    assert!(matches!(press(&mut app, Key::Enter), Status::Transport(_)));
    app.handle_transport(ClientEvent::Connected);
    let done = app.handle_transport(ClientEvent::Header(b"51 not found\r\n".to_vec()));
    assert!(matches!(done, Status::Running(true)));
    assert_eq!(app.input().mode(), InputMode::Editing);
    assert_eq!(app.input().value(), "gemini://example.org/missing");
    assert_eq!(app.body(), "first page");
    assert!(app.loaded());
    match app.error() {
        Some(GeminiClientError::RequestError(message)) => assert_eq!(message, "not found"),
        other => panic!("{:?}", other),
    }
    assert_eq!(app.error().unwrap().message(), "An error happened while performing the request: not found");
}

#[test]
fn bad_address_fails_without_the_transport() {
    let mut app = editing("example.org");
    assert!(matches!(press(&mut app, Key::Enter), Status::Running(true)));
    assert!(matches!(app.error(), Some(GeminiClientError::UrlParseError(_))));
    assert_eq!(app.input().mode(), InputMode::Editing);
    assert_eq!(app.input().value(), "example.org");
    assert!(!app.loaded());
    assert!(matches!(press(&mut app, Key::Esc), Status::Exit));
}

#[test]
fn failure_of_the_transport_is_kept_to_be_shown() {
    let mut app = editing("gemini://example.org/");
    assert!(matches!(press(&mut app, Key::Enter), Status::Transport(_)));
    let refused = std::io::Error::new(std::io::ErrorKind::ConnectionRefused, "refused");
    let done = app.handle_transport(ClientEvent::Failed(GeminiClientError::IoError(refused)));
    assert!(matches!(done, Status::Running(true)));
    assert!(matches!(app.error(), Some(GeminiClientError::IoError(_))));
    assert_eq!(app.input().mode(), InputMode::Editing);
    assert_eq!(app.input().value(), "gemini://example.org/");
}

#[test]
fn success_clears_the_error_of_the_request_before() {
    let mut app = editing("nonsense");
    press(&mut app, Key::Enter);
    assert!(app.error().is_some());
    clear_address(&mut app);
    type_text(&mut app, "gemini://example.org/");
    load(&mut app, "page");
    assert!(app.error().is_none());
}

#[test]
fn keys_scroll_the_body_in_normal_mode() {
    let mut app = editing("gemini://example.org/");
    load(&mut app, "1\n2\n3\n4\n5\n6\n7\n8\n9\n10");
    app.update_viewport(40, 7);
    assert_eq!(app.scroll().max(), 7);
    assert!(matches!(press(&mut app, Key::Down), Status::Running(true)));
    assert!(matches!(press(&mut app, Key::Down), Status::Running(true)));
    assert_eq!(app.scroll().value(), 2);
    assert!(matches!(press(&mut app, Key::Up), Status::Running(true)));
    assert_eq!(app.scroll().value(), 1);
    for _ in 0..20 {
        press(&mut app, Key::Down);
    }
    assert_eq!(app.scroll().value(), 7);
    for key in [Key::Left, Key::Right, Key::Enter, Key::Backspace, Key::Char('x'), Key::Other] {
        assert!(matches!(press(&mut app, key), Status::Running(false)));
    }
    assert_eq!(app.input().value(), "gemini://example.org/");
    assert_eq!(app.scroll().value(), 7);
}

#[test]
fn new_page_starts_at_its_top() {
    let mut app = editing("gemini://example.org/");
    load(&mut app, "1\n2\n3\n4\n5\n6\n7\n8\n9\n10");
    app.update_viewport(40, 7);
    press(&mut app, Key::Down);
    press(&mut app, Key::Down);
    assert_eq!(app.scroll().value(), 2);
    press(&mut app, Key::Char('/'));
    load(&mut app, "short");
    assert_eq!(app.scroll().value(), 0);
    app.update_viewport(40, 7);
    assert_eq!(app.scroll().max(), 0);
}

#[test]
fn smaller_pane_pulls_the_offset_back() {
    let mut app = editing("gemini://example.org/");
    load(&mut app, "1\n2\n3\n4\n5\n6\n7\n8\n9\n10");
    app.update_viewport(40, 3);
    assert_eq!(app.scroll().max(), 11);
    for _ in 0..11 {
        press(&mut app, Key::Down);
    }
    assert_eq!(app.scroll().value(), 11);
    app.update_viewport(40, 12);
    assert_eq!(app.scroll().max(), 2);
    assert_eq!(app.scroll().value(), 2);
}

#[test]
fn slash_and_escape_switch_between_the_modes() {
    let mut app = editing("gemini://example.org/");
    load(&mut app, "page");
    assert_eq!(app.input().mode(), InputMode::Normal);
    assert!(matches!(press(&mut app, Key::Char('/')), Status::Running(true)));
    assert_eq!(app.input().mode(), InputMode::Editing);
    assert_eq!(app.cursor(), Some(21));
    press(&mut app, Key::Left);
    assert!(matches!(press(&mut app, Key::Esc), Status::Running(true)));
    assert_eq!(app.input().mode(), InputMode::Normal);
    assert!(matches!(press(&mut app, Key::Char('/')), Status::Running(true)));
    assert_eq!(app.cursor(), Some(21));
    press(&mut app, Key::Esc);
    assert!(matches!(press(&mut app, Key::Esc), Status::Exit));
}

#[test]
fn empty_page_counts_as_loaded() {
    let mut app = editing("gemini://example.org/");
    load(&mut app, "");
    assert!(app.loaded());
    press(&mut app, Key::Char('/'));
    assert!(matches!(press(&mut app, Key::Esc), Status::Running(true)));
    assert_eq!(app.input().mode(), InputMode::Normal);
}

#[test]
fn wait_for_an_event_is_what_is_left_of_the_tick() {
    assert_eq!(UPDATE_TICK_RATE, 300);
    assert_eq!(poll_timeout(0), 300);
    assert_eq!(poll_timeout(120), 180);
    assert_eq!(poll_timeout(300), 0);
    assert_eq!(poll_timeout(u64::MAX), 0);
    assert!(!tick_due(299));
    assert!(tick_due(300));
    assert!(tick_due(1000));
}

#[test]
fn widest_pane_is_laid_out() {
    let mut app = editing("gemini://example.org/");
    load(&mut app, &"a".repeat(20000));
    app.update_viewport(8194, 3);
    assert_eq!(app.scroll().max(), 4);
}
