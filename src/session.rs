//! The bookkeeping of an input-event session: which event becomes which table
//! row, when a row is rewritten in place because its key repeats, and when the
//! current table is closed and a new one begins.
use vstd::prelude::*;

use crate::keyed::TextMap;
use crate::keys::{format_modifiers, modifiers_text, repeat_label, repeat_text, state_label, state_text, Modifiers};
use crate::text::{debug_str_of, debug_text, decimal, nice, nice_text, numeral, push_numeral, push_repeated, push_text, spaces};

verus! {

pub const NUMBER: &'static str = "Number";
pub const KIND: &'static str = "Kind";
pub const SYNTH: &'static str = "Synth";
pub const STATE: &'static str = "State";
pub const KEY_CODE: &'static str = "KeyCode";
pub const KEY: &'static str = "Key";
pub const LOCATION: &'static str = "Location";
pub const TEXT: &'static str = "Text";
pub const MODIFIERS: &'static str = "Modifiers";
pub const KEY_NO_MOD: &'static str = "Key (no modifiers)";
pub const TEXT_ALL_MODS: &'static str = "Text (all modifiers)";
pub const SCAN_CODE: &'static str = "Scancode";

/// How long a table stays open after the last change once every key is
/// released, in milliseconds.
pub const TABLE_TIMEOUT_MS: u64 = 5000;

/// A key event as delivered to a window, its parts already turned into text.
pub struct KeyboardInput {
    /// The label of the physical key; it also tells keys apart.
    pub key_code: String,
    /// The label of the logical key.
    pub key: String,
    pub location: String,
    /// The text the key produced, if any.
    pub text: Option<String>,
    /// The label of the logical key as it would be without modifiers.
    pub key_without_modifiers: String,
    /// The text the key would produce with all modifiers applied, if any.
    pub text_with_all_modifiers: Option<String>,
    pub pressed: bool,
    pub repeat: bool,
    pub synthetic: bool,
}

/// An input-method event.
pub enum Ime {
    Enabled,
    Preedit(String),
    Commit(String),
    Disabled,
}

/// An event that the session reacts to.
pub enum InputEvent {
    /// The window gained (true) or lost (false) the focus.
    Focused(bool),
    Keyboard(KeyboardInput),
    /// A raw key event from a device, by physical key label.
    DeviceKey { key_code: String, pressed: bool },
    ModifiersChanged(Modifiers),
    Ime(Ime),
    /// The middle mouse button was pressed.
    MiddleClick,
    /// The right mouse button was pressed.
    RightClick,
    CloseRequested,
    /// Any other event; time passes.
    Other,
}

/// What the caller is to do, in order.
pub enum Action {
    /// Print a new row with these (column, value) cells.
    PrintRow(Vec<(String, String)>),
    /// Rewrite the current row with these (column, value) cells.
    UpdateRow(Vec<(String, String)>),
    BeginNewTable,
    /// Show in the window title whether manual mode is on.
    SetManualTitle(bool),
    /// Forget pending dead keys.
    ResetDeadKeys,
    /// Write this text to the terminal as it is.
    Write(String),
}

/// How the event loop goes on.
#[derive(Clone, Copy, Debug, PartialEq, Eq, Structural)]
pub enum Flow {
    Poll,
    Wait,
    Exit,
}

/// The answer to one event.
pub struct Reaction {
    pub actions: Vec<Action>,
    pub flow: Flow,
}

/// The cells of a row, as text.
pub open spec fn cells_view(cells: Seq<(String, String)>) -> Seq<(Seq<char>, Seq<char>)> {
    cells.map_values(|c: (String, String)| (c.0@, c.1@))
}

/// An action, its texts as sequences of characters.
pub enum ActionView {
    PrintRow(Seq<(Seq<char>, Seq<char>)>),
    UpdateRow(Seq<(Seq<char>, Seq<char>)>),
    BeginNewTable,
    SetManualTitle(bool),
    ResetDeadKeys,
    Write(Seq<char>),
}

impl View for Action {
    type V = ActionView;

    open spec fn view(&self) -> ActionView {
        match self {
            Action::PrintRow(c) => ActionView::PrintRow(cells_view(c@)),
            Action::UpdateRow(c) => ActionView::UpdateRow(cells_view(c@)),
            Action::BeginNewTable => ActionView::BeginNewTable,
            Action::SetManualTitle(m) => ActionView::SetManualTitle(*m),
            Action::ResetDeadKeys => ActionView::ResetDeadKeys,
            Action::Write(t) => ActionView::Write(t@),
        }
    }
}

/// The actions, each as its view.
pub open spec fn actions_view(actions: Seq<Action>) -> Seq<ActionView> {
    actions.map_values(|a: Action| a@)
}

/// The state of a session, as plain values.
pub struct SessionView {
    pub focused: bool,
    pub event_number: u16,
    pub pressed_count: i32,
    pub modifiers: Modifiers,
    pub manual_mode: bool,
    /// Physical keys that devices report as held.
    pub raw_keys_pressed: Set<Seq<char>>,
    /// For each key that repeats, the count that its next repeat shows.
    pub repeated_keys: Map<Seq<char>, u64>,
    /// When the last change happened, in milliseconds.
    pub last_change: u64,
    /// Whether the table is to close at once, without waiting for the timeout.
    pub skip_timeout: bool,
}

/// The state of a session: what has been seen of the current table.
pub struct Session {
    pub focused: bool,
    pub event_number: u16,
    pub pressed_count: i32,
    pub modifiers: Modifiers,
    pub manual_mode: bool,
    raw_keys_pressed: TextMap<()>,
    repeated_keys: TextMap<u64>,
    pub last_change: u64,
    pub skip_timeout: bool,
}

impl View for Session {
    type V = SessionView;

    closed spec fn view(&self) -> SessionView {
        SessionView {
            focused: self.focused,
            event_number: self.event_number,
            pressed_count: self.pressed_count,
            modifiers: self.modifiers,
            manual_mode: self.manual_mode,
            raw_keys_pressed: self.raw_keys_pressed@.dom(),
            repeated_keys: self.repeated_keys@,
            last_change: self.last_change,
            skip_timeout: self.skip_timeout,
        }
    }
}

/// The number cell of the next row.
pub open spec fn number_cell(s: SessionView) -> (Seq<char>, Seq<char>) {
    (NUMBER@, numeral(s.event_number as nat, 10))
}

/// `true` or `false`.
pub open spec fn bool_text(b: bool) -> Seq<char> {
    if b {
        "true"@
    } else {
        "false"@
    }
}

/// Optional text as shown in a cell: empty where there is none.
pub open spec fn option_text(t: Option<String>) -> Seq<char> {
    match t {
        Some(t) => nice(t@),
        None => Seq::empty(),
    }
}

/// The cells of a window key event, but for its state.
pub open spec fn keyboard_cells(s: SessionView, ev: KeyboardInput) -> Seq<(Seq<char>, Seq<char>)> {
    seq![
        number_cell(s),
        (KIND@, "Window"@),
        (SYNTH@, bool_text(ev.synthetic)),
        (KEY_CODE@, ev.key_code@),
        (KEY@, ev.key@),
        (LOCATION@, ev.location@),
        (TEXT@, option_text(ev.text)),
        (KEY_NO_MOD@, ev.key_without_modifiers@),
        (TEXT_ALL_MODS@, option_text(ev.text_with_all_modifiers)),
    ]
}

/// The label of an input-method event.
pub open spec fn ime_label(ime: Ime) -> Seq<char> {
    match ime {
        Ime::Enabled => "Enabled"@,
        Ime::Preedit(_) => "Preedit"@,
        Ime::Commit(_) => "Commit"@,
        Ime::Disabled => "Disabled"@,
    }
}

/// The cells of an input-method event.
pub open spec fn ime_cells(s: SessionView, ime: Ime) -> Seq<(Seq<char>, Seq<char>)> {
    let head = seq![number_cell(s), (KIND@, "IME"@), (STATE@, ime_label(ime))];
    match ime {
        Ime::Preedit(t) => head.push((TEXT@, debug_str_of(t@))),
        Ime::Commit(t) => head.push((TEXT@, debug_str_of(t@))),
        _ => head,
    }
}

/// The count shown by the next repeat of a key.
pub open spec fn repeat_count(s: SessionView, key: Seq<char>) -> u64 {
    if s.repeated_keys.contains_key(key) {
        s.repeated_keys[key]
    } else {
        1
    }
}

/// One more, stopping at the largest value.
pub open spec fn bumped(n: u64) -> u64 {
    if n < u64::MAX {
        (n + 1) as u64
    } else {
        n
    }
}

/// The state, actions and flow right after an event, before the check for a
/// finished table.
pub open spec fn react(s: SessionView, e: InputEvent, now: u64) -> (SessionView, Seq<ActionView>, Flow) {
    let n = s.event_number;
    let next = n.wrapping_add(1);
    match e {
        InputEvent::Focused(focus) => {
            if n > 0 {
                (
                    SessionView { focused: focus, event_number: next, last_change: now, ..s },
                    seq![ActionView::PrintRow(seq![
                        number_cell(s),
                        (KIND@, "Focus"@),
                        (STATE@, if focus { "Received"@ } else { "Lost"@ }),
                    ])],
                    Flow::Poll,
                )
            } else {
                (SessionView { focused: focus, last_change: now, ..s }, seq![], Flow::Poll)
            }
        },
        InputEvent::Keyboard(ev) => {
            let key = ev.key_code@;
            if !ev.repeat {
                (
                    SessionView {
                        event_number: next,
                        pressed_count: if ev.pressed {
                            s.pressed_count.wrapping_add(1)
                        } else {
                            s.pressed_count.wrapping_sub(1)
                        },
                        repeated_keys: if ev.pressed {
                            s.repeated_keys
                        } else {
                            s.repeated_keys.remove(key)
                        },
                        last_change: now,
                        ..s
                    },
                    seq![ActionView::PrintRow(keyboard_cells(s, ev).push((STATE@, state_text(ev.pressed))))],
                    Flow::Poll,
                )
            } else {
                let count = repeat_count(s, key);
                (
                    SessionView {
                        event_number: if count == 1 { next } else { n },
                        repeated_keys: s.repeated_keys.insert(key, bumped(count)),
                        last_change: now,
                        ..s
                    },
                    seq![ActionView::UpdateRow(keyboard_cells(s, ev).push((STATE@, repeat_text(count as nat))))],
                    Flow::Poll,
                )
            }
        },
        InputEvent::DeviceKey { key_code, pressed } => {
            let key = key_code@;
            if s.focused || s.pressed_count > 0 {
                let held = s.raw_keys_pressed.contains(key);
                (
                    SessionView {
                        event_number: next,
                        pressed_count: if pressed && !held {
                            s.pressed_count.wrapping_add(1)
                        } else if !pressed && held {
                            s.pressed_count.wrapping_sub(1)
                        } else {
                            s.pressed_count
                        },
                        raw_keys_pressed: if pressed {
                            s.raw_keys_pressed.insert(key)
                        } else {
                            s.raw_keys_pressed.remove(key)
                        },
                        last_change: now,
                        ..s
                    },
                    seq![ActionView::PrintRow(seq![
                        number_cell(s),
                        (KIND@, "Device"@),
                        (KEY_CODE@, key),
                        (STATE@, state_text(pressed)),
                    ])],
                    Flow::Poll,
                )
            } else {
                (SessionView { last_change: now, ..s }, seq![], Flow::Poll)
            }
        },
        InputEvent::ModifiersChanged(m) => {
            if !m.is_none() || n != 0 {
                (
                    SessionView { modifiers: m, event_number: next, last_change: now, ..s },
                    seq![ActionView::PrintRow(seq![
                        number_cell(s),
                        (KIND@, "ModC"@),
                        (MODIFIERS@, modifiers_text(m)),
                    ])],
                    Flow::Poll,
                )
            } else {
                (SessionView { modifiers: m, last_change: now, ..s }, seq![], Flow::Poll)
            }
        },
        InputEvent::Ime(ime) => (
            SessionView { event_number: next, last_change: now, ..s },
            seq![ActionView::PrintRow(ime_cells(s, ime))],
            Flow::Poll,
        ),
        InputEvent::MiddleClick => {
            if s.manual_mode && n == 0 {
                (
                    SessionView { manual_mode: false, last_change: now, ..s },
                    seq![ActionView::SetManualTitle(false)],
                    Flow::Poll,
                )
            } else if s.manual_mode {
                (
                    SessionView {
                        event_number: 0,
                        pressed_count: 0,
                        raw_keys_pressed: Set::empty(),
                        repeated_keys: Map::empty(),
                        modifiers: Modifiers { alt: false, control: false, shift: false, logo: false },
                        last_change: now,
                        ..s
                    },
                    seq![ActionView::BeginNewTable],
                    Flow::Poll,
                )
            } else if n == 0 {
                (
                    SessionView { manual_mode: true, last_change: now, ..s },
                    seq![ActionView::SetManualTitle(true)],
                    Flow::Poll,
                )
            } else {
                (
                    SessionView {
                        pressed_count: 0,
                        skip_timeout: true,
                        modifiers: Modifiers { alt: false, control: false, shift: false, logo: false },
                        last_change: now,
                        ..s
                    },
                    seq![],
                    Flow::Poll,
                )
            }
        },
        InputEvent::RightClick => (
            SessionView { event_number: next, last_change: now, ..s },
            seq![
                ActionView::ResetDeadKeys,
                ActionView::PrintRow(seq![number_cell(s), (KIND@, "DeadRST"@)]),
            ],
            Flow::Poll,
        ),
        InputEvent::CloseRequested => (
            s,
            seq![],
            if s.manual_mode { Flow::Poll } else { Flow::Exit },
        ),
        InputEvent::Other => (s, seq![], Flow::Poll),
    }
}

/// Whole seconds left before the table closes, while it is still open.
pub open spec fn seconds_left(last_change: u64, now: u64) -> nat {
    let elapsed: int = if now >= last_change { now - last_change } else { 0 };
    ((TABLE_TIMEOUT_MS - elapsed) / 1000) as nat
}

/// Whether an open table is due to close: every key is released, no
/// modifier is held, outside manual mode.
pub open spec fn table_settled(s: SessionView) -> bool {
    !s.manual_mode && s.pressed_count == 0 && s.modifiers.is_none() && s.event_number != 0
}

/// After an event: a settled table closes once the timeout has passed since
/// the last change (or at once, if asked to); until then the time left is
/// shown.
pub open spec fn settle(s: SessionView, actions: Seq<ActionView>, flow: Flow, now: u64) -> (
    SessionView,
    Seq<ActionView>,
    Flow,
) {
    if table_settled(s) {
        if s.last_change + TABLE_TIMEOUT_MS <= now || s.skip_timeout {
            (
                SessionView { event_number: 0, skip_timeout: false, ..s },
                actions + seq![ActionView::Write(seq!['\r'] + spaces(30)), ActionView::BeginNewTable],
                Flow::Wait,
            )
        } else {
            (
                s,
                actions + seq![
                    ActionView::Write(
                        "\rTable finishes in "@ + numeral(seconds_left(s.last_change, now), 10) + seq!['s'],
                    ),
                ],
                flow,
            )
        }
    } else {
        (s, actions, flow)
    }
}

/// The whole answer to an event.
pub open spec fn step(s: SessionView, e: InputEvent, now: u64) -> (SessionView, Seq<ActionView>, Flow) {
    let (s1, actions, flow) = react(s, e, now);
    settle(s1, actions, flow, now)
}

fn literal(s: &str) -> (r: String)
    ensures
        r@ == s@,
{
    s.to_owned()
}

fn cell(name: &str, value: String) -> (r: (String, String))
    ensures
        r.0@ == name@,
        r.1@ == value@,
{
    (name.to_owned(), value)
}

fn bool_label(b: bool) -> (r: String)
    ensures
        r@ == bool_text(b),
{
    if b {
        literal("true")
    } else {
        literal("false")
    }
}

fn option_label(t: &Option<String>) -> (r: String)
    ensures
        r@ == option_text(*t),
{
    match t {
        Some(t) => nice_text(t.as_str()),
        None => String::new(),
    }
}

fn ime_state_label(ime: &Ime) -> (r: String)
    ensures
        r@ == ime_label(*ime),
{
    match ime {
        Ime::Enabled => literal("Enabled"),
        Ime::Preedit(_) => literal("Preedit"),
        Ime::Commit(_) => literal("Commit"),
        Ime::Disabled => literal("Disabled"),
    }
}

impl Session {
    /// Both key collections are well formed.
    pub closed spec fn wf(&self) -> bool {
        self.raw_keys_pressed.wf() && self.repeated_keys.wf()
    }

    /// A session with the window focused and an empty table, started at `now`.
    pub fn new(now: u64) -> (r: Session)
        ensures
            r.wf(),
            r@ == (SessionView {
                focused: true,
                event_number: 0,
                pressed_count: 0,
                modifiers: Modifiers { alt: false, control: false, shift: false, logo: false },
                manual_mode: false,
                raw_keys_pressed: Set::empty(),
                repeated_keys: Map::empty(),
                last_change: now,
                skip_timeout: false,
            }),
    {
        let r = Session {
            focused: true,
            event_number: 0,
            pressed_count: 0,
            modifiers: Modifiers::empty(),
            manual_mode: false,
            raw_keys_pressed: TextMap::new(),
            repeated_keys: TextMap::new(),
            last_change: now,
            skip_timeout: false,
        };
        assert(r@.raw_keys_pressed =~= Set::<Seq<char>>::empty());
        r
    }

    fn number_cell(&self) -> (r: (String, String))
        ensures
            r.0@ == NUMBER@,
            r.1@ == numeral(self.event_number as nat, 10),
    {
        cell(NUMBER, decimal(self.event_number as u64))
    }

    fn on_focus(&mut self, focus: bool, now: u64) -> (r: Vec<Action>)
        requires
            old(self).wf(),
        ensures
            final(self).wf(),
            final(self)@ == react(old(self)@, InputEvent::Focused(focus), now).0,
            actions_view(r@) == react(old(self)@, InputEvent::Focused(focus), now).1,
    {
        let ghost s = self@;
        let mut actions: Vec<Action> = Vec::new();
        if self.event_number > 0 {
            let mut cells: Vec<(String, String)> = Vec::new();
            cells.push(self.number_cell());
            cells.push(cell(KIND, literal("Focus")));
            cells.push(cell(STATE, if focus { literal("Received") } else { literal("Lost") }));
            actions.push(Action::PrintRow(cells));
            self.event_number = self.event_number.wrapping_add(1);
            assert(cells_view(cells@) =~= seq![
                number_cell(s),
                (KIND@, "Focus"@),
                (STATE@, if focus { "Received"@ } else { "Lost"@ }),
            ]);
        }
        self.focused = focus;
        self.last_change = now;
        assert(actions_view(actions@) =~= react(s, InputEvent::Focused(focus), now).1);
        actions
    }

    fn keyboard_row(&self, ev: &KeyboardInput) -> (r: Vec<(String, String)>)
        ensures
            cells_view(r@) == keyboard_cells(self@, *ev),
    {
        let mut cells: Vec<(String, String)> = Vec::new();
        cells.push(self.number_cell());
        cells.push(cell(KIND, literal("Window")));
        cells.push(cell(SYNTH, bool_label(ev.synthetic)));
        cells.push(cell(KEY_CODE, ev.key_code.clone()));
        cells.push(cell(KEY, ev.key.clone()));
        cells.push(cell(LOCATION, ev.location.clone()));
        cells.push(cell(TEXT, option_label(&ev.text)));
        cells.push(cell(KEY_NO_MOD, ev.key_without_modifiers.clone()));
        cells.push(cell(TEXT_ALL_MODS, option_label(&ev.text_with_all_modifiers)));
        assert(cells_view(cells@) =~= keyboard_cells(self@, *ev));
        cells
    }

    fn on_keyboard(&mut self, ev: KeyboardInput, now: u64) -> (r: Vec<Action>)
        requires
            old(self).wf(),
        ensures
            final(self).wf(),
            final(self)@ == react(old(self)@, InputEvent::Keyboard(ev), now).0,
            actions_view(r@) == react(old(self)@, InputEvent::Keyboard(ev), now).1,
    {
        let ghost s = self@;
        let ghost e = InputEvent::Keyboard(ev);
        let mut cells = self.keyboard_row(&ev);
        let ghost base = cells_view(cells@);
        let mut actions: Vec<Action> = Vec::new();
        if !ev.repeat {
            cells.push(cell(STATE, state_label(ev.pressed)));
            assert(cells_view(cells@) =~= base.push((STATE@, state_text(ev.pressed))));
            actions.push(Action::PrintRow(cells));
            self.event_number = self.event_number.wrapping_add(1);
            if ev.pressed {
                self.pressed_count = self.pressed_count.wrapping_add(1);
            } else {
                self.repeated_keys.remove(ev.key_code.as_str());
                self.pressed_count = self.pressed_count.wrapping_sub(1);
            }
        } else {
            let count: u64 = match self.repeated_keys.get(ev.key_code.as_str()) {
                Some(c) => *c,
                None => 1,
            };
            if count == 1 {
                self.event_number = self.event_number.wrapping_add(1);
            }
            cells.push(cell(STATE, repeat_label(count)));
            assert(cells_view(cells@) =~= base.push((STATE@, repeat_text(count as nat))));
            actions.push(Action::UpdateRow(cells));
            let next: u64 = if count < u64::MAX { count + 1 } else { count };
            self.repeated_keys.insert(ev.key_code.as_str(), next);
        }
        self.last_change = now;
        assert(actions_view(actions@) =~= react(s, e, now).1);
        actions
    }

    fn on_device_key(&mut self, key_code: String, pressed: bool, now: u64) -> (r: Vec<Action>)
        requires
            old(self).wf(),
        ensures
            final(self).wf(),
            final(self)@ == react(
                old(self)@,
                InputEvent::DeviceKey { key_code: key_code, pressed: pressed },
                now,
            ).0,
            actions_view(r@) == react(
                old(self)@,
                InputEvent::DeviceKey { key_code: key_code, pressed: pressed },
                now,
            ).1,
    {
        let ghost s = self@;
        let ghost e = InputEvent::DeviceKey { key_code: key_code, pressed: pressed };
        let mut actions: Vec<Action> = Vec::new();
        if self.focused || self.pressed_count > 0 {
            let key = key_code.as_str();
            if pressed {
                if self.raw_keys_pressed.get(key).is_none() {
                    self.pressed_count = self.pressed_count.wrapping_add(1);
                }
                self.raw_keys_pressed.insert(key, ());
                assert(self.raw_keys_pressed@.dom() =~= s.raw_keys_pressed.insert(key@));
            } else {
                if self.raw_keys_pressed.remove(key).is_some() {
                    self.pressed_count = self.pressed_count.wrapping_sub(1);
                }
                assert(self.raw_keys_pressed@.dom() =~= s.raw_keys_pressed.remove(key@));
            }
            let mut cells: Vec<(String, String)> = Vec::new();
            cells.push(self.number_cell());
            cells.push(cell(KIND, literal("Device")));
            cells.push(cell(KEY_CODE, key_code.clone()));
            cells.push(cell(STATE, state_label(pressed)));
            assert(cells_view(cells@) =~= seq![
                number_cell(s),
                (KIND@, "Device"@),
                (KEY_CODE@, key_code@),
                (STATE@, state_text(pressed)),
            ]);
            actions.push(Action::PrintRow(cells));
            self.event_number = self.event_number.wrapping_add(1);
        }
        self.last_change = now;
        assert(actions_view(actions@) =~= react(s, e, now).1);
        actions
    }

    fn on_modifiers(&mut self, m: Modifiers, now: u64) -> (r: Vec<Action>)
        requires
            old(self).wf(),
        ensures
            final(self).wf(),
            final(self)@ == react(old(self)@, InputEvent::ModifiersChanged(m), now).0,
            actions_view(r@) == react(old(self)@, InputEvent::ModifiersChanged(m), now).1,
    {
        let ghost s = self@;
        let mut actions: Vec<Action> = Vec::new();
        self.modifiers = m;
        if !m.is_empty() || self.event_number != 0 {
            let mut cells: Vec<(String, String)> = Vec::new();
            cells.push(self.number_cell());
            cells.push(cell(KIND, literal("ModC")));
            cells.push(cell(MODIFIERS, format_modifiers(m)));
            assert(cells_view(cells@) =~= seq![
                number_cell(s),
                (KIND@, "ModC"@),
                (MODIFIERS@, modifiers_text(m)),
            ]);
            actions.push(Action::PrintRow(cells));
            self.event_number = self.event_number.wrapping_add(1);
        }
        self.last_change = now;
        assert(actions_view(actions@) =~= react(s, InputEvent::ModifiersChanged(m), now).1);
        actions
    }

    fn on_ime(&mut self, ime: Ime, now: u64) -> (r: Vec<Action>)
        requires
            old(self).wf(),
        ensures
            final(self).wf(),
            final(self)@ == react(old(self)@, InputEvent::Ime(ime), now).0,
            actions_view(r@) == react(old(self)@, InputEvent::Ime(ime), now).1,
    {
        let ghost s = self@;
        let mut cells: Vec<(String, String)> = Vec::new();
        cells.push(self.number_cell());
        cells.push(cell(KIND, literal("IME")));
        cells.push(cell(STATE, ime_state_label(&ime)));
        match &ime {
            Ime::Preedit(text) => {
                cells.push(cell(TEXT, debug_text(text.as_str())));
            },
            Ime::Commit(text) => {
                cells.push(cell(TEXT, debug_text(text.as_str())));
            },
            _ => {},
        }
        assert(cells_view(cells@) =~= ime_cells(s, ime));
        let mut actions: Vec<Action> = Vec::new();
        actions.push(Action::PrintRow(cells));
        self.event_number = self.event_number.wrapping_add(1);
        self.last_change = now;
        assert(actions_view(actions@) =~= react(s, InputEvent::Ime(ime), now).1);
        actions
    }

    fn on_middle_click(&mut self, now: u64) -> (r: Vec<Action>)
        requires
            old(self).wf(),
        ensures
            final(self).wf(),
            final(self)@ == react(old(self)@, InputEvent::MiddleClick, now).0,
            actions_view(r@) == react(old(self)@, InputEvent::MiddleClick, now).1,
    {
        let ghost s = self@;
        let mut actions: Vec<Action> = Vec::new();
        if self.manual_mode {
            if self.event_number == 0 {
                self.manual_mode = false;
                actions.push(Action::SetManualTitle(false));
            } else {
                actions.push(Action::BeginNewTable);
                self.event_number = 0;
                self.pressed_count = 0;
                self.raw_keys_pressed.clear();
                self.repeated_keys.clear();
                self.modifiers = Modifiers::empty();
                assert(self.raw_keys_pressed@.dom() =~= Set::<Seq<char>>::empty());
            }
        } else {
            if self.event_number == 0 {
                self.manual_mode = true;
                actions.push(Action::SetManualTitle(true));
            } else {
                self.pressed_count = 0;
                self.skip_timeout = true;
                self.modifiers = Modifiers::empty();
            }
        }
        self.last_change = now;
        assert(actions_view(actions@) =~= react(s, InputEvent::MiddleClick, now).1);
        actions
    }

    fn on_right_click(&mut self, now: u64) -> (r: Vec<Action>)
        requires
            old(self).wf(),
        ensures
            final(self).wf(),
            final(self)@ == react(old(self)@, InputEvent::RightClick, now).0,
            actions_view(r@) == react(old(self)@, InputEvent::RightClick, now).1,
    {
        let ghost s = self@;
        let mut actions: Vec<Action> = Vec::new();
        actions.push(Action::ResetDeadKeys);
        let mut cells: Vec<(String, String)> = Vec::new();
        cells.push(self.number_cell());
        cells.push(cell(KIND, literal("DeadRST")));
        assert(cells_view(cells@) =~= seq![number_cell(s), (KIND@, "DeadRST"@)]);
        actions.push(Action::PrintRow(cells));
        self.event_number = self.event_number.wrapping_add(1);
        self.last_change = now;
        assert(actions_view(actions@) =~= react(s, InputEvent::RightClick, now).1);
        actions
    }

    fn react(&mut self, event: InputEvent, now: u64) -> (r: (Vec<Action>, Flow))
        requires
            old(self).wf(),
        ensures
            final(self).wf(),
            final(self)@ == react(old(self)@, event, now).0,
            actions_view(r.0@) == react(old(self)@, event, now).1,
            r.1 == react(old(self)@, event, now).2,
    {
        match event {
            InputEvent::Focused(focus) => (self.on_focus(focus, now), Flow::Poll),
            InputEvent::Keyboard(ev) => (self.on_keyboard(ev, now), Flow::Poll),
            InputEvent::DeviceKey { key_code, pressed } => (
                self.on_device_key(key_code, pressed, now),
                Flow::Poll,
            ),
            InputEvent::ModifiersChanged(m) => (self.on_modifiers(m, now), Flow::Poll),
            InputEvent::Ime(ime) => (self.on_ime(ime, now), Flow::Poll),
            InputEvent::MiddleClick => (self.on_middle_click(now), Flow::Poll),
            InputEvent::RightClick => (self.on_right_click(now), Flow::Poll),
            InputEvent::CloseRequested => {
                let actions: Vec<Action> = Vec::new();
                assert(actions_view(actions@) =~= Seq::<ActionView>::empty());
                (actions, if self.manual_mode { Flow::Poll } else { Flow::Exit })
            },
            InputEvent::Other => {
                let actions: Vec<Action> = Vec::new();
                assert(actions_view(actions@) =~= Seq::<ActionView>::empty());
                (actions, Flow::Poll)
            },
        }
    }

    fn settle(&mut self, actions: Vec<Action>, flow: Flow, now: u64) -> (r: Reaction)
        requires
            old(self).wf(),
        ensures
            final(self).wf(),
            final(self)@ == settle(old(self)@, actions_view(actions@), flow, now).0,
            actions_view(r.actions@) == settle(old(self)@, actions_view(actions@), flow, now).1,
            r.flow == settle(old(self)@, actions_view(actions@), flow, now).2,
    {
        let ghost s = self@;
        let ghost before = actions_view(actions@);
        let mut actions = actions;
        let mut flow = flow;
        if !self.manual_mode && self.pressed_count == 0 && self.modifiers.is_empty()
            && self.event_number != 0 {
            let due = now >= TABLE_TIMEOUT_MS && now - TABLE_TIMEOUT_MS >= self.last_change;
            if due || self.skip_timeout {
                let mut clear = String::new();
                push_text(&mut clear, "\r");
                push_repeated(&mut clear, ' ', 30);
                proof {
                    reveal_strlit("\r");
                }
                assert(clear@ =~= seq!['\r'] + spaces(30));
                actions.push(Action::Write(clear));
                actions.push(Action::BeginNewTable);
                self.event_number = 0;
                self.skip_timeout = false;
                flow = Flow::Wait;
            } else {
                let elapsed: u64 = if now >= self.last_change { now - self.last_change } else { 0 };
                let left: u64 = (TABLE_TIMEOUT_MS - elapsed) / 1000;
                let mut line = String::new();
                push_text(&mut line, "\rTable finishes in ");
                push_numeral(&mut line, left, 10);
                push_text(&mut line, "s");
                proof {
                    reveal_strlit("s");
                }
                assert(line@ =~= "\rTable finishes in "@ + numeral(
                    seconds_left(s.last_change, now),
                    10,
                ) + seq!['s']);
                actions.push(Action::Write(line));
            }
        }
        assert(actions_view(actions@) =~= settle(s, before, flow, now).1);
        Reaction { actions, flow }
    }

    /// Reacts to `event`, which happened at `now` (in milliseconds): updates
    /// the session and says what to print and how the event loop goes on.
    pub fn handle(&mut self, event: InputEvent, now: u64) -> (r: Reaction)
        requires
            old(self).wf(),
        ensures
            final(self).wf(),
            final(self)@ == step(old(self)@, event, now).0,
            actions_view(r.actions@) == step(old(self)@, event, now).1,
            r.flow == step(old(self)@, event, now).2,
    {
        let (actions, flow) = self.react(event, now);
        self.settle(actions, flow, now)
    }
}

} // verus!
