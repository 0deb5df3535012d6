//! The browser as a state machine: what each key does in each mode, when a
//! request goes out, and what its outcome changes.
//!
//! The machine neither reads the terminal nor touches a socket. The program
//! around it hands it one event at a time and does what a [`Status`] asks.

use crate::client::requested;
use crate::client::resumed;
use crate::client::ActionView;
use crate::client::ClientAction;
use crate::client::ClientEvent;
use crate::client::ClientView;
use crate::client::EventView;
use crate::client::GeminiClient;
use crate::error::ErrorView;
use crate::error::GeminiClientError;
use crate::input::default_url;
use crate::input::Input;
use crate::input::InputMode;
use crate::input::InputView;
use crate::render::body_lines;
use crate::render::expand_tabs;
use crate::render::paragraph_lines;
use crate::render::MAX_WRAP_WIDTH;
use crate::scroll::Scroll;
use crate::scroll::ScrollView;
use vstd::prelude::*;

verus! {

/// A key, as far as the browser tells keys apart.
#[derive(Clone, Copy, Debug, PartialEq, Eq, Structural)]
pub enum Key {
    Up,
    Down,
    Left,
    Right,
    Enter,
    Backspace,
    Esc,
    Char(char),
    /// Any key that the browser has no use for.
    Other,
}

/// What the terminal reports.
#[derive(Clone, Copy, Debug, PartialEq, Eq, Structural)]
pub enum Event {
    /// A key was pressed.
    Key(Key),
    /// The terminal has a new size.
    Resize,
    /// Anything else: the mouse, a key that was released.
    Other,
}

/// What the program is to do after an event.
pub enum Status {
    /// Go on; draw the screen anew if the flag is set.
    Running(bool),
    /// Leave.
    Exit,
    /// Do this for the request under way, and hand what comes of it to
    /// [`App::handle_transport`].
    Transport(ClientAction),
}

/// A [`Status`] as contracts speak of it.
pub enum StatusView {
    Running(bool),
    Exit,
    Transport(ActionView),
}

impl View for Status {
    type V = StatusView;

    open spec fn view(&self) -> StatusView {
        match self {
            Status::Running(draw) => StatusView::Running(*draw),
            Status::Exit => StatusView::Exit,
            Status::Transport(action) => StatusView::Transport(action@),
        }
    }
}

/// The mathematical state of an [`App`].
pub struct AppView {
    pub client: ClientView,
    /// The text of the page last loaded.
    pub body: Seq<char>,
    pub scroll: ScrollView,
    pub input: InputView,
    /// Whether a page has been loaded since the program started.
    pub loaded: bool,
    /// Why the last request failed, if it did.
    pub error: Option<ErrorView>,
}

impl AppView {
    /// The offset is within its bound and the cursor within the address.
    pub open spec fn wf(self) -> bool {
        self.scroll.wf() && self.input.wf()
    }

    /// The same state with another address line.
    pub open spec fn with_input(self, input: InputView) -> AppView {
        AppView {
            client: self.client,
            body: self.body,
            scroll: self.scroll,
            input,
            loaded: self.loaded,
            error: self.error,
        }
    }

    /// The same state with another scroll position.
    pub open spec fn with_scroll(self, scroll: ScrollView) -> AppView {
        AppView {
            client: self.client,
            body: self.body,
            scroll,
            input: self.input,
            loaded: self.loaded,
            error: self.error,
        }
    }

    /// The same state with the client in another state.
    pub open spec fn with_client(self, client: ClientView) -> AppView {
        AppView {
            client,
            body: self.body,
            scroll: self.scroll,
            input: self.input,
            loaded: self.loaded,
            error: self.error,
        }
    }

    /// The state after a request has ended.
    ///
    /// A body takes the place of the one shown, at its top, and the keys go
    /// to it, with the cursor at the end of the address. An error is kept
    /// to be shown; the address and the body stay, and the keys stay with,
    /// or go back to, the address.
    pub open spec fn completed(self, outcome: Result<Seq<char>, ErrorView>) -> AppView {
        match outcome {
            Ok(body) => AppView {
                client: self.client,
                body,
                scroll: self.scroll.reset(),
                input: self.input.reset_cursor().with_mode(InputMode::Normal),
                loaded: true,
                error: None,
            },
            Err(e) => AppView {
                client: self.client,
                body: self.body,
                scroll: self.scroll,
                input: self.input.with_mode(InputMode::Editing),
                loaded: self.loaded,
                error: Some(e),
            },
        }
    }

    /// The state and the status once the client has moved to `next.0` and
    /// asked for `next.1`: the end of the request is taken in and the
    /// screen drawn anew, and anything else is passed to the transport.
    pub open spec fn advanced(self, next: (ClientView, ActionView)) -> (AppView, StatusView) {
        match next.1 {
            ActionView::Finish(outcome) => (
                self.with_client(next.0).completed(outcome),
                StatusView::Running(true),
            ),
            action => (self.with_client(next.0), StatusView::Transport(action)),
        }
    }

    /// The state and the status after a pressed key.
    ///
    /// With the keys on the body, the arrows scroll, `/` goes to the
    /// address and `Esc` leaves. With the keys on the address, a character
    /// is typed, `Backspace` deletes, the arrows move the cursor, `Enter`
    /// asks for the address, and `Esc` goes to the body if a page has been
    /// loaded and leaves if none has. Other keys change nothing and draw
    /// nothing.
    pub open spec fn handle_key(self, key: Key) -> (AppView, StatusView) {
        match self.input.mode {
            InputMode::Normal => match key {
                Key::Up => (self.with_scroll(self.scroll.scroll_up()), StatusView::Running(true)),
                Key::Down => (
                    self.with_scroll(self.scroll.scroll_down()),
                    StatusView::Running(true),
                ),
                Key::Char(c) => if c == '/' {
                    (
                        self.with_input(self.input.with_mode(InputMode::Editing).reset_cursor()),
                        StatusView::Running(true),
                    )
                } else {
                    (self, StatusView::Running(false))
                },
                Key::Esc => (self, StatusView::Exit),
                _ => (self, StatusView::Running(false)),
            },
            InputMode::Editing => match key {
                Key::Enter => self.advanced(requested(self.input.text)),
                Key::Char(c) => (
                    self.with_input(self.input.enter_char(c)),
                    StatusView::Running(true),
                ),
                Key::Backspace => (
                    self.with_input(self.input.delete_char()),
                    StatusView::Running(true),
                ),
                Key::Left => (
                    self.with_input(self.input.move_cursor_left()),
                    StatusView::Running(true),
                ),
                Key::Right => (
                    self.with_input(self.input.move_cursor_right()),
                    StatusView::Running(true),
                ),
                Key::Esc => if self.loaded {
                    (
                        self.with_input(self.input.with_mode(InputMode::Normal)),
                        StatusView::Running(true),
                    )
                } else {
                    (self, StatusView::Exit)
                },
                _ => (self, StatusView::Running(false)),
            },
        }
    }

    /// The state and the status after an event of the terminal: a key is
    /// handled by the mode, a new size draws the screen anew, and nothing
    /// else has an effect.
    pub open spec fn handle_event(self, event: Event) -> (AppView, StatusView) {
        match event {
            Event::Key(key) => self.handle_key(key),
            Event::Resize => (self, StatusView::Running(true)),
            Event::Other => (self, StatusView::Running(false)),
        }
    }

    /// The state and the status after a report of the transport.
    pub open spec fn handle_transport(self, event: EventView) -> (AppView, StatusView) {
        self.advanced(resumed(self.client, event))
    }

    /// The state after the bound of the scroll position has been taken
    /// anew for a body pane of `width` columns and `height` rows, borders
    /// included.
    pub open spec fn update_viewport(self, width: u16, height: u16) -> AppView {
        self.with_scroll(
            self.scroll.recompute_bounds(
                paragraph_lines(expand_tabs(self.body), (width - 2) as u16) as nat,
                (height - 2) as nat,
            ),
        )
    }
}

/// No event breaks the state: the offset stays within its bound and the
/// cursor within the address.
pub proof fn lemma_events_keep_state_well_formed(s: AppView, event: Event)
    requires
        s.wf(),
    ensures
        s.handle_event(event).0.wf(),
{
}

/// Neither does a report of the transport.
pub proof fn lemma_transport_keeps_state_well_formed(s: AppView, event: EventView)
    requires
        s.wf(),
    ensures
        s.handle_transport(event).0.wf(),
{
}

/// A request that fails loses nothing: the address, the body and the
/// scroll position are as before, the keys are on the address, and the
/// program goes on.
pub proof fn lemma_failure_keeps_address_and_body(s: AppView, e: ErrorView)
    ensures
        s.completed(Err(e)).input.text == s.input.text,
        s.completed(Err(e)).input.cursor == s.input.cursor,
        s.completed(Err(e)).input.mode == InputMode::Editing,
        s.completed(Err(e)).body == s.body,
        s.completed(Err(e)).scroll == s.scroll,
        s.completed(Err(e)).error == Some(e),
        forall|next: ClientView|
            #[trigger] s.advanced((next, ActionView::Finish(Err(e)))).1 == StatusView::Running(
                true,
            ),
{
}

/// The tick of the event loop, in milliseconds: no wait for an event is
/// longer.
pub const UPDATE_TICK_RATE: u64 = 300;

/// How long to wait for the next event when `elapsed` milliseconds of the
/// tick have passed: what is left of the tick.
pub fn poll_timeout(elapsed: u64) -> (timeout: u64)
    ensures
        timeout == if elapsed >= UPDATE_TICK_RATE {
            0
        } else {
            UPDATE_TICK_RATE - elapsed
        },
{
    if elapsed >= UPDATE_TICK_RATE {
        0
    } else {
        UPDATE_TICK_RATE - elapsed
    }
}

/// Whether a new tick begins when `elapsed` milliseconds of this one have
/// passed.
pub fn tick_due(elapsed: u64) -> (due: bool)
    ensures
        due == (elapsed >= UPDATE_TICK_RATE),
{
    elapsed >= UPDATE_TICK_RATE
}

/// The browser: the client, the page it shows and where, and the address
/// line.
pub struct App {
    client: GeminiClient,
    body: String,
    scroll: Scroll,
    input: Input,
    loaded: bool,
    error: Option<GeminiClientError>,
}

impl View for App {
    type V = AppView;

    closed spec fn view(&self) -> AppView {
        AppView {
            client: self.client@,
            body: self.body@,
            scroll: self.scroll@,
            input: self.input@,
            loaded: self.loaded,
            error: match self.error {
                Some(e) => Some(e@),
                None => None,
            },
        }
    }
}

impl App {
    /// The browser as it starts: no page, the default address ready to be
    /// edited or asked for.
    pub fn new(client: GeminiClient) -> (app: App)
        ensures
            app@ == (AppView {
                client: client@,
                body: Seq::empty(),
                scroll: ScrollView { offset: 0, max: 0 },
                input: InputView {
                    text: default_url(),
                    cursor: default_url().len(),
                    mode: InputMode::Editing,
                },
                loaded: false,
                error: None,
            }),
            app@.wf(),
    {
        App {
            client,
            body: String::new(),
            scroll: Scroll::default(),
            input: Input::default(),
            loaded: false,
            error: None,
        }
    }

    /// The text of the page last loaded.
    pub fn body(&self) -> (body: &String)
        ensures
            body@ == self@.body,
    {
        &self.body
    }

    /// The scroll position of the body pane.
    pub fn scroll(&self) -> (scroll: &Scroll)
        ensures
            scroll@ == self@.scroll,
    {
        &self.scroll
    }

    /// The address line.
    pub fn input(&self) -> (input: &Input)
        ensures
            input@ == self@.input,
    {
        &self.input
    }

    /// The client.
    pub fn client(&self) -> (client: &GeminiClient)
        ensures
            client@ == self@.client,
    {
        &self.client
    }

    /// Whether a page has been loaded since the program started.
    pub fn loaded(&self) -> (loaded: bool)
        ensures
            loaded == self@.loaded,
    {
        self.loaded
    }

    /// Why the last request failed, if it did.
    pub fn error(&self) -> (error: Option<&GeminiClientError>)
        ensures
            match error {
                Some(e) => self@.error == Some(e@),
                None => self@.error is None,
            },
    {
        self.error.as_ref()
    }

    /// Where the cursor is to be shown in the address line: nowhere unless
    /// the keys are on it.
    pub fn cursor(&self) -> (cursor: Option<usize>)
        ensures
            cursor == if self@.input.mode == InputMode::Editing {
                Some(self@.input.cursor as usize)
            } else {
                None
            },
    {
        match self.input.mode() {
            InputMode::Editing => Some(self.input.index()),
            InputMode::Normal => None,
        }
    }

    /// Takes in the end of a request.
    fn complete(&mut self, outcome: Result<String, GeminiClientError>)
        ensures
            final(self)@ == old(self)@.completed(
                match outcome {
                    Ok(body) => Ok(body@),
                    Err(e) => Err(e@),
                },
            ),
    {
        match outcome {
            Ok(body) => {
                self.body = body;
                self.scroll.reset();
                self.input.reset_cursor();
                self.input.set_mode(InputMode::Normal);
                self.loaded = true;
                self.error = None;
            },
            Err(e) => {
                self.input.set_mode(InputMode::Editing);
                self.error = Some(e);
            },
        }
    }

    /// Takes what the client asked for: the end of the request is taken in,
    /// anything else is passed to the transport.
    fn advance(&mut self, action: ClientAction) -> (status: Status)
        ensures
            (final(self)@, status@) == old(self)@.advanced((old(self)@.client, action@)),
    {
        match action {
            ClientAction::Finish(outcome) => {
                self.complete(outcome);
                Status::Running(true)
            },
            ClientAction::Connect(target) => Status::Transport(ClientAction::Connect(target)),
            ClientAction::Send(line) => Status::Transport(ClientAction::Send(line)),
            ClientAction::ReadBody => Status::Transport(ClientAction::ReadBody),
        }
    }

    /// Handles one event of the terminal.
    pub fn handle_event(&mut self, event: Event) -> (status: Status)
        ensures
            (final(self)@, status@) == old(self)@.handle_event(event),
    {
        let key = match event {
            Event::Key(key) => key,
            Event::Resize => {
                return Status::Running(true);
            },
            Event::Other => {
                return Status::Running(false);
            },
        };
        match self.input.mode() {
            InputMode::Normal => match key {
                Key::Up => {
                    self.scroll.scroll_up();
                    Status::Running(true)
                },
                Key::Down => {
                    self.scroll.scroll_down();
                    Status::Running(true)
                },
                Key::Char(c) => {
                    if c == '/' {
                        self.enter_editing_mode();
                        Status::Running(true)
                    } else {
                        Status::Running(false)
                    }
                },
                Key::Esc => Status::Exit,
                _ => Status::Running(false),
            },
            InputMode::Editing => match key {
                Key::Enter => self.request_url(),
                Key::Char(c) => {
                    self.input.enter_char(c);
                    Status::Running(true)
                },
                Key::Backspace => {
                    self.input.delete_char();
                    Status::Running(true)
                },
                Key::Left => {
                    self.input.move_cursor_left();
                    Status::Running(true)
                },
                Key::Right => {
                    self.input.move_cursor_right();
                    Status::Running(true)
                },
                Key::Esc => {
                    if self.loaded {
                        self.input.set_mode(InputMode::Normal);
                        Status::Running(true)
                    } else {
                        Status::Exit
                    }
                },
                _ => Status::Running(false),
            },
        }
    }

    /// Handles one report of the transport.
    pub fn handle_transport(&mut self, event: ClientEvent) -> (status: Status)
        ensures
            (final(self)@, status@) == old(self)@.handle_transport(event@),
    {
        let action = self.client.resume(event);
        self.advance(action)
    }

    /// Gives the keys to the address line, with the cursor at its end.
    fn enter_editing_mode(&mut self)
        ensures
            final(self)@ == old(self)@.with_input(
                old(self)@.input.with_mode(InputMode::Editing).reset_cursor(),
            ),
    {
        self.input.set_mode(InputMode::Editing);
        self.input.reset_cursor();
    }

    /// Asks the client for the address in the address line.
    fn request_url(&mut self) -> (status: Status)
        ensures
            (final(self)@, status@) == old(self)@.advanced(requested(old(self)@.input.text)),
    {
        let url = self.input.value();
        let action = self.client.request(url.as_str());
        self.advance(action)
    }

    /// Takes the bound of the scroll position anew, for the body as it is
    /// and a body pane of `width` columns and `height` rows, borders
    /// included. The pane must have room for a border on each side and for
    /// one row of text, and what is left between the borders must be no
    /// wider than `MAX_WRAP_WIDTH`.
    pub fn update_viewport(&mut self, width: u16, height: u16)
        requires
            2 <= width <= MAX_WRAP_WIDTH + 2,
            height >= 3,
        ensures
            final(self)@ == old(self)@.update_viewport(width, height),
    {
        let lines: usize = body_lines(self.body.as_str(), width - 2);
        let rows: u16 = height - 2;
        self.scroll.recompute_bounds(lines, rows as usize);
    }
}

} // verus!
