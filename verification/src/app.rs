//! Raw events, bus messages, the per-tick action, and the pure resolvers that
//! turn keys and signals into actions.

use vstd::prelude::*;

use crate::component::Focus;
use crate::layout::{
    bottom, intersection, made_rect, make_rect, overlap, right, split, Constraint, Direction,
    Rect,
};

verus! {

/// A text style of `ratatui`, carried through as it is.
#[verifier::external_type_specification]
#[verifier::external_body]
pub struct ExStyle(ratatui::style::Style);

/// The numbers that the platform gives the four signals the event source
/// listens for.
#[derive(Debug, Clone, Copy, PartialEq, Eq)]
pub struct SignalNumbers {
    /// Window resize.
    pub winch: i32,
    /// Interrupt.
    pub int: i32,
    /// Terminate.
    pub term: i32,
    /// Continue.
    pub cont: i32,
}

/// A mouse button, or a turn of the wheel.
#[derive(Debug, Clone, Copy, PartialEq, Eq)]
pub enum MouseButton {
    Left,
    Right,
    Middle,
    WheelUp,
    WheelDown,
    WheelLeft,
    WheelRight,
}

/// A mouse event at one-based terminal coordinates.
#[derive(Debug, Clone, Copy, PartialEq, Eq)]
pub enum MouseEvent {
    Press(MouseButton, u16, u16),
    Release(u16, u16),
    Hold(u16, u16),
}

/// A decoded key press.
#[derive(Debug, Clone, Copy, PartialEq, Eq)]
pub enum Key {
    Backspace,
    Left,
    ShiftLeft,
    AltLeft,
    CtrlLeft,
    Right,
    ShiftRight,
    AltRight,
    CtrlRight,
    Up,
    ShiftUp,
    AltUp,
    CtrlUp,
    Down,
    ShiftDown,
    AltDown,
    CtrlDown,
    Home,
    CtrlHome,
    End,
    CtrlEnd,
    PageUp,
    PageDown,
    BackTab,
    Delete,
    Insert,
    F(u8),
    Char(char),
    Alt(char),
    Ctrl(char),
    Null,
    Esc,
    /// A key that the terminal layer decoded and has no name for.
    Unknown,
}

/// One decoded unit of terminal input.
#[derive(Debug, Clone, PartialEq, Eq)]
pub enum Event {
    Key(Key),
    Mouse(MouseEvent),
    Unsupported(Vec<u8>),
}

/// A raw event as the background producers deliver it.
#[derive(Debug, Clone)]
pub enum Events {
    Input(Event),
    Signal(i32),
}

/// What a goto request addresses.
#[derive(Debug, Clone, Copy, PartialEq, Eq)]
pub enum GotoType {
    LineNumber,
    HexOffset,
}

/// A text search request.
#[derive(Debug, Clone, PartialEq, Eq)]
pub struct TextSearch {
    pub search_string: String,
    pub case_sensitive: bool,
    pub regexp: bool,
    pub whole_words: bool,
    pub backwards: bool,
}

/// A search request over raw bytes.
#[derive(Debug, Clone, PartialEq, Eq)]
pub struct HexSearch {
    pub search_string: String,
    pub hexadecimal: bool,
    pub backwards: bool,
}

/// The closed set of messages carried by the bus.
#[derive(Debug, Clone)]
pub enum PubSub {
    // App-wide events
    Error(String),
    Warning(String, String),
    Info(String, String),
    CloseDialog,
    // File viewer events
    FileInfo(String, String, String),
    ToggleHex,
    // Text viewer events
    Highlight(Vec<Vec<(ratatui::style::Style, String)>>),
    // Hex viewer events
    FromHexOffset(u64),
    ToHexOffset(u64),
    HVStartSearch,
    HVSearchNext,
    HVSearchPrev,
    // Dialog goto events
    DlgGoto(GotoType),
    Goto(GotoType, String),
    // Dialog text search events
    DlgTextSearch(TextSearch),
    TextSearch(TextSearch),
    // Dialog hex search events
    DlgHexSearch(HexSearch),
    HexSearch(HexSearch),
}

/// The single decision a tick hands back to the run loop.
#[derive(Debug, Clone, Copy, PartialEq, Eq)]
pub enum Action {
    Continue,
    Redraw,
    Quit,
    CtrlC,
    SigTerm,
    CtrlZ,
    SigCont,
}

/// The severity a notice dialog is styled with.
#[derive(Debug, Clone, Copy, PartialEq, Eq)]
pub enum DialogType {
    Error,
    Warning,
    Info,
}

/// What a bus message does to the dialog slot once every component has seen it.
#[derive(Debug, Clone, PartialEq, Eq)]
pub enum Reaction {
    /// The slot stays as it is.
    Keep,
    /// The slot is emptied.
    Close,
    /// A notice takes the slot, whatever was in it.
    Open { kind: DialogType, title: String, text: String },
}

/// What woke the orchestrator: a raw event or a bus message.
#[derive(Debug, Clone)]
pub enum Ready {
    Event(Events),
    Message(PubSub),
}

/// A component of the orchestrator.
#[derive(Debug, Clone, Copy, PartialEq, Eq)]
pub enum Target {
    /// The panel at this index: 0 is the left one, 1 the right one.
    Panel(usize),
    ButtonBar,
    Dialog,
}

/// One step of drawing the screen: which component, where, and in which
/// focus styling.
#[derive(Debug, Clone, Copy, PartialEq, Eq)]
pub struct Draw {
    pub target: Target,
    pub area: Rect,
    pub focus: Focus,
}

/// An application that a run loop drives, one tick at a time.
pub trait App {
    /// One step of drawing the screen.
    type Step;

    /// Whether the application's state is well formed.
    spec fn valid(&self) -> bool;

    /// Whether `code` is a signal that the application's event source
    /// listens for.
    spec fn registers(&self, code: i32) -> bool;

    /// Runs one tick on the item that became ready.
    fn handle_events(&mut self, ready: &Ready) -> (r: Result<Action, anyhow::Error>)
        requires
            old(self).valid(),
            *ready matches Ready::Event(Events::Signal(code)) ==> old(self).registers(code),
        ensures
            final(self).valid(),
    ;

    /// Lists what is to be drawn on `screen`, in drawing order, without
    /// changing anything.
    fn render(&self, screen: Rect) -> (steps: Vec<Self::Step>)
        requires
            self.valid(),
    ;
}

impl SignalNumbers {
    /// No two of the four signals have the same number.
    pub open spec fn distinct(self) -> bool {
        &&& self.winch != self.int
        &&& self.winch != self.term
        &&& self.winch != self.cont
        &&& self.int != self.term
        &&& self.int != self.cont
        &&& self.term != self.cont
    }

    /// The four numbers in registration order.
    pub open spec fn in_order(self) -> Seq<i32> {
        seq![self.winch, self.int, self.term, self.cont]
    }

    /// Whether `code` is one of the four.
    pub open spec fn registers(self, code: i32) -> bool {
        code == self.winch || code == self.int || code == self.term || code == self.cont
    }

    /// The action a registered signal stands for.
    pub open spec fn action_of(self, code: i32) -> Action {
        if code == self.winch {
            Action::Redraw
        } else if code == self.int {
            Action::CtrlC
        } else if code == self.term {
            Action::SigTerm
        } else {
            Action::SigCont
        }
    }
}

/// Reads the four numbers from `signal_hook::consts::signal`: `SIGWINCH`,
/// `SIGINT`, `SIGTERM` and `SIGCONT`. Which numbers they are depends on the
/// platform and is not stated; on every platform the four differ from each
/// other.
#[verifier::external_body]
pub(crate) fn platform_numbers() -> (n: SignalNumbers)
    ensures
        n.distinct(),
{
    SignalNumbers {
        winch: signal_hook::consts::signal::SIGWINCH,
        int: signal_hook::consts::signal::SIGINT,
        term: signal_hook::consts::signal::SIGTERM,
        cont: signal_hook::consts::signal::SIGCONT,
    }
}

/// The entry of the global keymap for `key`; `Continue` where it has none.
pub open spec fn global_key_action(key: Key) -> Action {
    match key {
        Key::Char(c) => if c == 'q' || c == 'Q' { Action::Quit } else { Action::Continue },
        Key::F(n) => if n == 10 { Action::Quit } else { Action::Continue },
        Key::Ctrl(c) => if c == 'c' {
            Action::CtrlC
        } else if c == 'l' {
            Action::Redraw
        } else if c == 'z' {
            Action::CtrlZ
        } else {
            Action::Continue
        },
        _ => Action::Continue,
    }
}

/// The action of a key press once its routing target has answered: a handled
/// key never reaches the global keymap.
pub open spec fn key_action_spec(handled: bool, key: Key) -> Action {
    if handled { Action::Continue } else { global_key_action(key) }
}

/// Severity, title and text of the notice that `msg` asks for, if it asks for
/// one. An error's notice is titled "Error".
pub open spec fn notice_of(msg: PubSub) -> Option<(DialogType, Seq<char>, Seq<char>)> {
    match msg {
        PubSub::Error(text) => Some((DialogType::Error, "Error"@, text@)),
        PubSub::Warning(title, text) => Some((DialogType::Warning, title@, text@)),
        PubSub::Info(title, text) => Some((DialogType::Info, title@, text@)),
        _ => None,
    }
}

/// Whether `r` is the dialog-slot reaction to `msg`: a notice opens, the
/// close message closes, every other message keeps the slot.
pub open spec fn reaction_matches(msg: PubSub, r: Reaction) -> bool {
    match notice_of(msg) {
        Some((wanted, heading, body)) => {
            &&& r matches Reaction::Open { kind, title, text }
            &&& kind == wanted && title@ == heading && text@ == body
        },
        None => if msg is CloseDialog {
            r == Reaction::Close
        } else {
            r == Reaction::Keep
        },
    }
}

/// The signals to register with the operating system, in registration
/// order: window resize, interrupt, terminate and continue, by the given
/// numbers.
pub fn registered_signals(numbers: &SignalNumbers) -> (r: Vec<i32>)
    ensures
        r@ == numbers.in_order(),
        forall|code: i32| numbers.registers(code) <==> r@.contains(code),
{
    let r = vec![numbers.winch, numbers.int, numbers.term, numbers.cont];
    assert(r@ =~= numbers.in_order());
    assert(r@[0] == numbers.winch && r@[1] == numbers.int && r@[2] == numbers.term && r@[3]
        == numbers.cont);
    r
}

/// Maps a registered signal to its action.
pub fn signal_action(numbers: &SignalNumbers, code: i32) -> (a: Action)
    requires
        numbers.registers(code),
    ensures
        a == numbers.action_of(code),
{
    if code == numbers.winch {
        Action::Redraw
    } else if code == numbers.int {
        Action::CtrlC
    } else if code == numbers.term {
        Action::SigTerm
    } else {
        Action::SigCont
    }
}

/// Maps a signal to its action, or to `None` where it is not registered.
pub fn try_signal_action(numbers: &SignalNumbers, code: i32) -> (a: Option<Action>)
    ensures
        a == (if numbers.registers(code) {
            Some(numbers.action_of(code))
        } else {
            None
        }),
{
    if code == numbers.winch || code == numbers.int || code == numbers.term || code
        == numbers.cont {
        Some(signal_action(numbers, code))
    } else {
        None
    }
}

/// Resolves a key press, given whether the routing target handled it.
pub fn key_action(handled: bool, key: &Key) -> (a: Action)
    ensures
        a == key_action_spec(handled, *key),
        handled ==> a == Action::Continue,
{
    if handled {
        return Action::Continue;
    }
    match *key {
        Key::Char(c) => if c == 'q' || c == 'Q' { Action::Quit } else { Action::Continue },
        Key::F(n) => if n == 10 { Action::Quit } else { Action::Continue },
        Key::Ctrl(c) => if c == 'c' {
            Action::CtrlC
        } else if c == 'l' {
            Action::Redraw
        } else if c == 'z' {
            Action::CtrlZ
        } else {
            Action::Continue
        },
        _ => Action::Continue,
    }
}

/// The key to note after a key press: the key itself where no component
/// consumed it and the global keymap has no entry for it, else none.
pub open spec fn unmapped_spec(handled: bool, key: Key) -> Option<Key> {
    if !handled && global_key_action(key) == Action::Continue {
        Some(key)
    } else {
        None
    }
}

/// Says which key to note after a key press, given whether the routing target
/// handled it.
pub fn unmapped_key(handled: bool, key: &Key) -> (noted: Option<Key>)
    ensures
        noted == unmapped_spec(handled, *key),
{
    match key_action(handled, key) {
        Action::Continue => if handled {
            None
        } else {
            Some(*key)
        },
        _ => None,
    }
}

/// Says what a bus message does to the dialog slot.
pub fn dialog_reaction(msg: &PubSub) -> (r: Reaction)
    ensures
        reaction_matches(*msg, r),
{
    match msg {
        PubSub::Error(text) => Reaction::Open {
            kind: DialogType::Error,
            title: "Error".to_string(),
            text: text.clone(),
        },
        PubSub::Warning(title, text) => Reaction::Open {
            kind: DialogType::Warning,
            title: title.clone(),
            text: text.clone(),
        },
        PubSub::Info(title, text) => Reaction::Open {
            kind: DialogType::Info,
            title: title.clone(),
            text: text.clone(),
        },
        PubSub::CloseDialog => Reaction::Close,
        _ => Reaction::Keep,
    }
}

/// Half of what `outer` has beyond `inner`, rounded up; 0 where it has
/// nothing beyond it.
pub open spec fn padding(outer: u16, inner: u16) -> u16 {
    if outer > inner {
        (((outer - inner) + 1) / 2) as u16
    } else {
        0
    }
}

/// The constraints that centre `inner` cells in `outer`: the padding, the
/// cells themselves, and whatever is left.
pub open spec fn centering_spec(outer: u16, inner: u16) -> Seq<Constraint> {
    seq![Constraint::Length(padding(outer, inner)), Constraint::Length(inner), Constraint::Min(0)]
}

/// Gives the constraints that centre `inner` cells in `outer`.
pub fn centering(outer: u16, inner: u16) -> (c: Vec<Constraint>)
    requires
        outer - inner < u16::MAX,
    ensures
        c@ == centering_spec(outer, inner),
{
    let pad: u16 = (outer.saturating_sub(inner) + 1) / 2;
    let c = vec![Constraint::Length(pad), Constraint::Length(inner), Constraint::Min(0)];
    assert(c@ =~= centering_spec(outer, inner));
    c
}

/// A rectangle of `width` by `height` centred in `r`: `r` is cut top to bottom
/// into padding, `height` rows and the rest, and the middle band left to right
/// into padding, `width` columns and the rest. The layout solver places the
/// cuts, so the result lies inside `r`.
pub fn centered_rect(width: u16, height: u16, r: &Rect) -> (c: Rect)
    requires
        r.height - height < u16::MAX,
        r.width - width < u16::MAX,
    ensures
        r.x <= c.x,
        c.x + c.width <= right(*r),
        r.y <= c.y,
        c.y + c.height <= bottom(*r),
{
    let popup_layout = split(Direction::Vertical, &centering(r.height, height), *r);
    let band = popup_layout[1];
    split(Direction::Horizontal, &centering(r.width, width), band)[1]
}

/// The two strips of the shadow that `r` casts: one row below it, shifted
/// two columns to the right, and two columns to its right, shifted one row
/// down; each cut to what lies on `screen`.
pub open spec fn shadow_spec(r: Rect, screen: Rect) -> (Rect, Rect) {
    let below = made_rect((r.x + 2) as u16, (r.y + r.height) as u16, r.width, 1);
    let beside = made_rect(
        (r.x + r.width) as u16,
        (r.y + 1) as u16,
        2,
        if r.height > 0 { (r.height - 1) as u16 } else { 0 },
    );
    (overlap(below, screen), overlap(beside, screen))
}

/// Places the shadow of `r` on `screen`: the strip below it and the strip to
/// its right.
pub fn render_shadow(r: &Rect, screen: Rect) -> (strips: (Rect, Rect))
    requires
        r.x + 2 <= u16::MAX,
        r.x + r.width <= u16::MAX,
        r.y + 1 <= u16::MAX,
        r.y + r.height <= u16::MAX,
    ensures
        strips == shadow_spec(*r, screen),
{
    let below = make_rect(r.x + 2, r.y + r.height, r.width, 1);
    let beside = make_rect(r.x + r.width, r.y + 1, 2, r.height.saturating_sub(1));
    (intersection(below, screen), intersection(beside, screen))
}

} // verus!
