//! The orchestrator: two panels, a button bar and at most one dialog.

use vstd::prelude::*;

use crate::app::{
    dialog_reaction, global_key_action, key_action, key_action_spec, notice_of,
    platform_numbers, signal_action, unmapped_key, unmapped_spec, Action, Draw, Event, Events, Key, MouseEvent, PubSub,
    Reaction, Ready, SignalNumbers, Target,
};
use crate::component::{Component, DialogFactory, Focus};
use crate::config::Config;
use crate::layout::{bottom, right, split, Constraint, Direction, Rect};

verus! {

/// The orchestrator of the file manager. It owns exactly two panels, one
/// button bar and a slot for at most one dialog; the focus index names the
/// panel that keys go to while the slot is empty. It also notes the key of
/// the last key press if nothing acted on it, for the caller to log. `P`, `B` and `D` are the
/// components' types, `F` builds the notices that fill the slot.
pub struct App<P: Component, B: Component, D: Component, F: DialogFactory<D>> {
    config: Config,
    factory: F,
    panels: Vec<P>,
    button_bar: B,
    dialog: Option<D>,
    panel_focus_position: usize,
    signals: SignalNumbers,
    unmapped: Option<Key>,
}

/// The styling of the panel at `index` while the focus is at `focus`.
pub open spec fn panel_styling(focus: int, index: int) -> Focus {
    if focus == index {
        Focus::Focused
    } else {
        Focus::Normal
    }
}

/// The drawing steps in order: left panel, right panel, button bar, and the
/// dialog over the panel region if one is open. Only a panel is ever drawn
/// focused.
pub open spec fn draw_list_spec(
    panel_region: Rect,
    left: Rect,
    right: Rect,
    bar_line: Rect,
    focus: int,
    dialog: bool,
) -> Seq<Draw> {
    let base = seq![
        Draw { target: Target::Panel(0), area: left, focus: panel_styling(focus, 0) },
        Draw { target: Target::Panel(1), area: right, focus: panel_styling(focus, 1) },
        Draw { target: Target::ButtonBar, area: bar_line, focus: Focus::Normal },
    ];
    if dialog {
        base.push(Draw { target: Target::Dialog, area: panel_region, focus: Focus::Normal })
    } else {
        base
    }
}

/// Lists the drawing steps for regions that are already cut.
pub fn draw_list(
    panel_region: Rect,
    left: Rect,
    right: Rect,
    bar_line: Rect,
    focus: usize,
    dialog: bool,
) -> (steps: Vec<Draw>)
    ensures
        steps@ == draw_list_spec(panel_region, left, right, bar_line, focus as int, dialog),
{
    let mut steps = Vec::new();
    steps.push(
        Draw {
            target: Target::Panel(0),
            area: left,
            focus: if focus == 0 { Focus::Focused } else { Focus::Normal },
        },
    );
    steps.push(
        Draw {
            target: Target::Panel(1),
            area: right,
            focus: if focus == 1 { Focus::Focused } else { Focus::Normal },
        },
    );
    steps.push(Draw { target: Target::ButtonBar, area: bar_line, focus: Focus::Normal });
    if dialog {
        steps.push(Draw { target: Target::Dialog, area: panel_region, focus: Focus::Normal });
    }
    proof {
        assert(steps@ =~= draw_list_spec(panel_region, left, right, bar_line, focus as int, dialog));
    }
    steps
}

/// The component `pre` was offered `key` once and became `post`; `r` is its
/// failure, or the action that its answer resolves to, and `noted` is the key
/// if the component declined it and the keymap has no entry for it.
pub open spec fn routed_key<C: Component>(
    pre: C,
    key: Key,
    post: C,
    r: Result<Action, anyhow::Error>,
    noted: Option<Key>,
) -> bool {
    match r {
        Ok(a) => {
            ||| {
                &&& C::key_step(pre, key, post, Ok(true))
                &&& a == key_action_spec(true, key)
                &&& noted == unmapped_spec(true, key)
            }
            ||| {
                &&& C::key_step(pre, key, post, Ok(false))
                &&& a == key_action_spec(false, key)
                &&& noted == unmapped_spec(false, key)
            }
        },
        Err(e) => C::key_step(pre, key, post, Err(e)) && noted is None,
    }
}

/// The dialog in `pre`, if there is one, took `msg` without failing and is
/// now `post`.
pub open spec fn dialog_heard<D: Component>(pre: Option<D>, msg: PubSub, post: Option<D>) -> bool {
    match pre {
        Some(d) => {
            &&& post matches Some(d2)
            &&& D::pubsub_step(d, msg, d2, None)
        },
        None => post is None,
    }
}

impl<P: Component, B: Component, D: Component, F: DialogFactory<D>> App<P, B, D, F> {
    /// The two panels, left first.
    pub closed spec fn panels(self) -> Seq<P> {
        self.panels@
    }

    /// The button bar.
    pub closed spec fn bar(self) -> B {
        self.button_bar
    }

    /// The dialog slot.
    pub closed spec fn slot(self) -> Option<D> {
        self.dialog
    }

    /// The index of the panel that owns the keyboard while no dialog is open.
    pub closed spec fn focus(self) -> int {
        self.panel_focus_position as int
    }

    /// The configuration.
    pub closed spec fn settings(self) -> Config {
        self.config
    }

    /// The dialog factory.
    pub closed spec fn maker(self) -> F {
        self.factory
    }

    /// The numbers of the signals that the event source listens for.
    pub closed spec fn signals(self) -> SignalNumbers {
        self.signals
    }

    /// The key of the last key press, if no component consumed it and the
    /// global keymap has no entry for it.
    pub closed spec fn unmapped(self) -> Option<Key> {
        self.unmapped
    }

    /// There are exactly two panels, one of them has the focus, and the four
    /// signals have four numbers.
    pub open spec fn wf(self) -> bool {
        self.panels().len() == 2 && 0 <= self.focus() < 2 && self.signals().distinct()
    }

    /// Configuration, factory, signal numbers and focus are the same in both.
    pub open spec fn same_setup(self, other: Self) -> bool {
        &&& other.settings() == self.settings()
        &&& other.maker() == self.maker()
        &&& other.signals() == self.signals()
        &&& other.focus() == self.focus()
    }

    /// What a key press does: the dialog is asked if there is one, else the
    /// focused panel, and nothing else changes.
    pub open spec fn key_outcome(pre: Self, key: Key, post: Self, r: Result<Action, anyhow::Error>) -> bool {
        &&& pre.same_setup(post)
        &&& post.bar() == pre.bar()
        &&& post.panels().len() == 2
        &&& match pre.slot() {
            Some(d) => {
                &&& post.panels() == pre.panels()
                &&& post.slot() matches Some(d2)
                &&& routed_key(d, key, d2, r, post.unmapped())
            },
            None => {
                &&& post.slot() is None
                &&& post.panels()[1 - pre.focus()] == pre.panels()[1 - pre.focus()]
                &&& routed_key(
                    pre.panels()[pre.focus()],
                    key,
                    post.panels()[pre.focus()],
                    r,
                    post.unmapped(),
                )
            },
        }
    }

    /// The button bar was offered `mouse` once, and `r` is the tick's result
    /// that its answer gives.
    pub open spec fn bar_heard(pre: Self, mouse: MouseEvent, post: Self, r: Result<Action, anyhow::Error>) -> bool {
        match r {
            Ok(a) => a == Action::Continue && B::mouse_step(pre.bar(), mouse, post.bar(), None),
            Err(e) => B::mouse_step(pre.bar(), mouse, post.bar(), Some(e)),
        }
    }

    /// What a mouse event does: the dialog is asked if there is one, then the
    /// button bar, unless the dialog failed. Panels are never asked.
    pub open spec fn mouse_outcome(pre: Self, mouse: MouseEvent, post: Self, r: Result<Action, anyhow::Error>) -> bool {
        &&& pre.same_setup(post)
        &&& post.unmapped() == pre.unmapped()
        &&& post.panels() == pre.panels()
        &&& match pre.slot() {
            Some(d) => {
                &&& post.slot() matches Some(d2)
                &&& {
                    ||| {
                        &&& D::mouse_step(d, mouse, d2, None)
                        &&& Self::bar_heard(pre, mouse, post, r)
                    }
                    ||| {
                        &&& r matches Err(e)
                        &&& D::mouse_step(d, mouse, d2, Some(e))
                        &&& post.bar() == pre.bar()
                    }
                }
            },
            None => post.slot() is None && Self::bar_heard(pre, mouse, post, r),
        }
    }

    /// What one raw event does.
    pub open spec fn event_outcome(pre: Self, event: Events, post: Self, r: Result<Action, anyhow::Error>) -> bool {
        match event {
            Events::Input(Event::Key(key)) => Self::key_outcome(pre, key, post, r),
            Events::Input(Event::Mouse(mouse)) => Self::mouse_outcome(pre, mouse, post, r),
            Events::Input(Event::Unsupported(_)) => post == pre && r == Ok::<Action, anyhow::Error>(
                Action::Continue,
            ),
            Events::Signal(code) => post == pre && r == Ok::<Action, anyhow::Error>(
                pre.signals().action_of(code),
            ),
        }
    }

    /// Both panels and the button bar took `msg`, each once and without
    /// failing.
    pub open spec fn broadcast_ok(pre: Self, msg: PubSub, post: Self) -> bool {
        &&& post.panels().len() == 2
        &&& P::pubsub_step(pre.panels()[0], msg, post.panels()[0], None)
        &&& P::pubsub_step(pre.panels()[1], msg, post.panels()[1], None)
        &&& B::pubsub_step(pre.bar(), msg, post.bar(), None)
    }

    /// The broadcast of `msg` stopped at the first component that failed, with
    /// its error `e`: the components before it took the message, those after
    /// it are untouched. The order is left panel, right panel, button bar,
    /// dialog.
    pub open spec fn broadcast_failed(pre: Self, msg: PubSub, post: Self, e: anyhow::Error) -> bool {
        let p = pre.panels();
        let q = post.panels();
        &&& q.len() == 2
        &&& {
            ||| {
                &&& P::pubsub_step(p[0], msg, q[0], Some(e))
                &&& q[1] == p[1]
                &&& post.bar() == pre.bar()
                &&& post.slot() == pre.slot()
            }
            ||| {
                &&& P::pubsub_step(p[0], msg, q[0], None)
                &&& P::pubsub_step(p[1], msg, q[1], Some(e))
                &&& post.bar() == pre.bar()
                &&& post.slot() == pre.slot()
            }
            ||| {
                &&& P::pubsub_step(p[0], msg, q[0], None)
                &&& P::pubsub_step(p[1], msg, q[1], None)
                &&& B::pubsub_step(pre.bar(), msg, post.bar(), Some(e))
                &&& post.slot() == pre.slot()
            }
            ||| {
                &&& Self::broadcast_ok(pre, msg, post)
                &&& pre.slot() matches Some(d)
                &&& post.slot() matches Some(d2)
                &&& D::pubsub_step(d, msg, d2, Some(e))
            }
        }
    }

    /// The slot after the orchestrator's own reaction to `msg`, where `heard`
    /// is the slot as the broadcast left it.
    pub open spec fn slot_after(maker: F, msg: PubSub, heard: Option<D>, slot: Option<D>) -> bool {
        match notice_of(msg) {
            Some((kind, title, text)) => {
                &&& slot matches Some(n)
                &&& maker.makes(kind, title, text, Ok(n))
            },
            None => if msg is CloseDialog {
                slot is None
            } else {
                slot == heard
            },
        }
    }

    /// What one bus message does: it is broadcast, and if nobody failed the
    /// orchestrator reacts to it. A tick that only publishes gives `Continue`.
    pub open spec fn pubsub_outcome(pre: Self, msg: PubSub, post: Self, r: Result<Action, anyhow::Error>) -> bool {
        &&& pre.same_setup(post)
        &&& post.unmapped() == pre.unmapped()
        &&& match r {
            Ok(a) => {
                &&& a == Action::Continue
                &&& Self::broadcast_ok(pre, msg, post)
                &&& exists|heard: Option<D>| #[trigger]
                    dialog_heard(pre.slot(), msg, heard) && Self::slot_after(
                        pre.maker(),
                        msg,
                        heard,
                        post.slot(),
                    )
            },
            Err(e) => {
                ||| Self::broadcast_failed(pre, msg, post, e)
                ||| {
                    &&& Self::broadcast_ok(pre, msg, post)
                    &&& dialog_heard(pre.slot(), msg, post.slot())
                    &&& notice_of(msg) matches Some((kind, title, text))
                    &&& pre.maker().makes(kind, title, text, Err(e))
                }
            },
        }
    }

    /// Puts the orchestrator together: no dialog, focus on the left panel,
    /// the signal numbers those of the platform.
    pub fn new(config: Config, factory: F, left: P, right: P, button_bar: B) -> (app: Self)
        ensures
            app.wf(),
            app.settings() == config,
            app.maker() == factory,
            app.panels() == seq![left, right],
            app.bar() == button_bar,
            app.slot() is None,
            app.focus() == 0,
            app.unmapped() is None,
    {
        let mut panels = Vec::new();
        panels.push(left);
        panels.push(right);
        proof {
            assert(panels@ =~= seq![left, right]);
        }
        App {
            config,
            factory,
            panels,
            button_bar,
            dialog: None,
            panel_focus_position: 0,
            signals: platform_numbers(),
            unmapped: None,
        }
    }

    /// Resolves one raw event into the tick's action. A key goes to the
    /// dialog if there is one, else to the focused panel, and to the global
    /// keymap only if that component declines it. A mouse event goes to the
    /// dialog if there is one, and then to the button bar. A signal maps to
    /// its action, and unsupported input does nothing.
    pub fn handle_event(&mut self, event: &Events) -> (r: Result<Action, anyhow::Error>)
        requires
            old(self).wf(),
            *event matches Events::Signal(code) ==> old(self).signals().registers(code),
        ensures
            final(self).wf(),
            Self::event_outcome(*old(self), *event, *final(self), r),
    {
        match event {
            Events::Input(input) => match input {
                Event::Key(key) => {
                    let key_handled = match &mut self.dialog {
                        Some(dlg) => dlg.handle_key(key),
                        None => self.panels[self.panel_focus_position].handle_key(key),
                    };
                    match key_handled {
                        Ok(handled) => {
                            self.unmapped = unmapped_key(handled, key);
                            Ok(key_action(handled, key))
                        },
                        Err(e) => {
                            self.unmapped = None;
                            Err(e)
                        },
                    }
                },
                Event::Mouse(mouse) => {
                    let heard = match &mut self.dialog {
                        Some(dlg) => dlg.handle_mouse(mouse),
                        None => Ok(()),
                    };
                    if let Err(e) = heard {
                        return Err(e);
                    }
                    match self.button_bar.handle_mouse(mouse) {
                        Ok(_) => Ok(Action::Continue),
                        Err(e) => Err(e),
                    }
                },
                Event::Unsupported(_) => Ok(Action::Continue),
            },
            Events::Signal(signal) => Ok(signal_action(&self.signals, *signal)),
        }
    }

    /// Handles one bus message. It is delivered to the left panel, the right
    /// panel, the button bar and the dialog, in that order, and the first that
    /// fails ends the tick. Then the dialog slot is filled with a notice,
    /// emptied or left alone, as the message asks.
    pub fn handle_pubsub(&mut self, pubsub: &PubSub) -> (r: Result<Action, anyhow::Error>)
        requires
            old(self).wf(),
        ensures
            final(self).wf(),
            Self::pubsub_outcome(*old(self), *pubsub, *final(self), r),
    {
        let left = self.panels[0].handle_pubsub(pubsub);
        if let Err(e) = left {
            return Err(e);
        }
        let right = self.panels[1].handle_pubsub(pubsub);
        if let Err(e) = right {
            return Err(e);
        }
        if let Err(e) = self.button_bar.handle_pubsub(pubsub) {
            return Err(e);
        }
        let heard = match &mut self.dialog {
            Some(dlg) => dlg.handle_pubsub(pubsub),
            None => Ok(()),
        };
        if let Err(e) = heard {
            return Err(e);
        }
        assert(dialog_heard(old(self).slot(), *pubsub, self.dialog));

        match dialog_reaction(pubsub) {
            Reaction::Open { kind, title, text } => {
                match self.factory.notice(&self.config, kind, title.as_str(), text.as_str()) {
                    Ok(dlg) => {
                        self.dialog = Some(dlg);
                    },
                    Err(e) => {
                        return Err(e);
                    },
                }
            },
            Reaction::Close => {
                self.dialog = None;
            },
            Reaction::Keep => {},
        }

        Ok(Action::Continue)
    }

    /// Whether a dialog is open.
    pub fn has_dialog(&self) -> (b: bool)
        ensures
            b == self.slot() is Some,
    {
        self.dialog.is_some()
    }

    /// The open dialog, if there is one.
    pub fn dialog(&self) -> (d: Option<&D>)
        ensures
            match d {
                Some(dlg) => self.slot() == Some(*dlg),
                None => self.slot() is None,
            },
    {
        self.dialog.as_ref()
    }

    /// The panel at `index`: 0 is the left one, 1 the right one.
    pub fn panel(&self, index: usize) -> (p: &P)
        requires
            self.wf(),
            index < 2,
        ensures
            *p == self.panels()[index as int],
    {
        &self.panels[index]
    }

    /// The button bar.
    pub fn button_bar(&self) -> (b: &B)
        ensures
            *b == self.bar(),
    {
        &self.button_bar
    }

    /// The configuration the orchestrator was built with.
    pub fn config(&self) -> (c: &Config)
        ensures
            *c == self.settings(),
    {
        &self.config
    }

    /// The numbers of the signals that the event source listens for.
    pub fn signal_numbers(&self) -> (n: SignalNumbers)
        ensures
            n == self.signals(),
    {
        self.signals
    }

    /// The key of the last key press, if nothing acted on it.
    pub fn unmapped_key(&self) -> (k: Option<Key>)
        ensures
            k == self.unmapped(),
    {
        self.unmapped
    }

    /// The index of the focused panel.
    pub fn panel_focus_position(&self) -> (i: usize)
        ensures
            i == self.focus(),
    {
        self.panel_focus_position
    }

    /// Moves the focus to the panel at `index`. An index that names no panel
    /// changes nothing and gives `false`.
    pub fn set_focus(&mut self, index: usize) -> (moved: bool)
        requires
            old(self).wf(),
        ensures
            final(self).wf(),
            moved == (index < 2),
            final(self).focus() == (if index < 2 { index as int } else { old(self).focus() }),
            final(self).panels() == old(self).panels(),
            final(self).bar() == old(self).bar(),
            final(self).slot() == old(self).slot(),
            final(self).settings() == old(self).settings(),
            final(self).maker() == old(self).maker(),
            final(self).signals() == old(self).signals(),
            final(self).unmapped() == old(self).unmapped(),
    {
        if index < 2 {
            self.panel_focus_position = index;
            true
        } else {
            false
        }
    }

    /// Whether `steps` draws `screen` as the orchestrator composes it. The
    /// panel region and the button bar's line run across the screen, the
    /// region above the line, with room for the status line between them, and
    /// neither leaves the screen. The two panels stand in the rows of the
    /// panel region, side by side, the left one first, and neither leaves the
    /// region. The steps are those of `draw_list_spec` on these regions. How
    /// many rows and columns each gets is the layout solver's answer.
    pub open spec fn composes(self, screen: Rect, steps: Seq<Draw>) -> bool {
        exists|region: Rect, left: Rect, right_half: Rect, bar_line: Rect|
            {
                &&& steps == #[trigger] draw_list_spec(
                    region,
                    left,
                    right_half,
                    bar_line,
                    self.focus(),
                    self.slot() is Some,
                )
                &&& region.x == screen.x && region.width == screen.width
                &&& bar_line.x == screen.x && bar_line.width == screen.width
                &&& screen.y <= region.y
                &&& region.y + region.height <= bar_line.y
                &&& bar_line.y + bar_line.height <= bottom(screen)
                &&& left.y == region.y && left.height == region.height
                &&& right_half.y == region.y && right_half.height == region.height
                &&& region.x <= left.x
                &&& left.x + left.width <= right_half.x
                &&& right_half.x + right_half.width <= right(region)
            }
    }

    /// What one tick does: exactly one of resolving a raw event and
    /// handling a bus message.
    pub open spec fn tick_outcome(pre: Self, ready: Ready, post: Self, r: Result<Action, anyhow::Error>) -> bool {
        match ready {
            Ready::Event(event) => Self::event_outcome(pre, event, post, r),
            Ready::Message(msg) => Self::pubsub_outcome(pre, msg, post, r),
        }
    }

    /// While a dialog is open that consumes `key`, the tick gives `Continue`:
    /// no entry of the global keymap fires, and no panel is asked.
    pub proof fn lemma_dialog_shields_keymap(pre: Self, key: Key, post: Self, r: Result<Action, anyhow::Error>)
        requires
            Self::key_outcome(pre, key, post, r),
            pre.slot() is Some,
            forall|d2: D, answer: Result<bool, anyhow::Error>| #[trigger]
                D::key_step(pre.slot().unwrap(), key, d2, answer) ==> answer == Ok::<
                    bool,
                    anyhow::Error,
                >(true),
        ensures
            r == Ok::<Action, anyhow::Error>(Action::Continue),
            post.panels() == pre.panels(),
    {
    }

    /// While no dialog is open, the focused panel has the priority a dialog
    /// would have: a key that it consumes gives `Continue`, and the other
    /// panel is not asked.
    pub proof fn lemma_focused_panel_shields_keymap(pre: Self, key: Key, post: Self, r: Result<Action, anyhow::Error>)
        requires
            pre.wf(),
            Self::key_outcome(pre, key, post, r),
            pre.slot() is None,
            forall|p2: P, answer: Result<bool, anyhow::Error>| #[trigger]
                P::key_step(pre.panels()[pre.focus()], key, p2, answer) ==> answer == Ok::<
                    bool,
                    anyhow::Error,
                >(true),
        ensures
            r == Ok::<Action, anyhow::Error>(Action::Continue),
            post.slot() is None,
            post.panels()[1 - pre.focus()] == pre.panels()[1 - pre.focus()],
    {
    }

    /// A key that the routing target declines is resolved by the global
    /// keymap, whichever component the target is.
    pub proof fn lemma_declined_key_reaches_keymap(pre: Self, key: Key, post: Self, r: Result<Action, anyhow::Error>)
        requires
            pre.wf(),
            Self::key_outcome(pre, key, post, r),
            forall|d2: D, answer: Result<bool, anyhow::Error>|
                pre.slot() is Some && #[trigger] D::key_step(pre.slot().unwrap(), key, d2, answer)
                    ==> answer == Ok::<bool, anyhow::Error>(false),
            forall|p2: P, answer: Result<bool, anyhow::Error>|
                pre.slot() is None && #[trigger] P::key_step(
                    pre.panels()[pre.focus()],
                    key,
                    p2,
                    answer,
                ) ==> answer == Ok::<bool, anyhow::Error>(false),
        ensures
            r == Ok::<Action, anyhow::Error>(global_key_action(key)),
            post.unmapped() == unmapped_spec(false, key),
    {
    }

    /// A message that asks for a notice leaves a dialog in the slot, built
    /// from the message, whether or not one was open before, on every tick
    /// that does not fail.
    pub proof fn lemma_notice_fills_slot(pre: Self, msg: PubSub, post: Self, r: Result<Action, anyhow::Error>)
        requires
            Self::pubsub_outcome(pre, msg, post, r),
            notice_of(msg) is Some,
            r is Ok,
        ensures
            post.slot() is Some,
            pre.maker().makes(
                notice_of(msg).unwrap().0,
                notice_of(msg).unwrap().1,
                notice_of(msg).unwrap().2,
                Ok(post.slot().unwrap()),
            ),
    {
    }

    /// Closing while no dialog is open leaves the slot empty, and the
    /// orchestrator adds no failure of its own: the tick fails only where a
    /// panel or the button bar failed on the message.
    pub proof fn lemma_close_without_dialog(pre: Self, post: Self, r: Result<Action, anyhow::Error>)
        requires
            Self::pubsub_outcome(pre, PubSub::CloseDialog, post, r),
            pre.slot() is None,
        ensures
            post.slot() is None,
            r is Ok ==> r == Ok::<Action, anyhow::Error>(Action::Continue),
            r is Err ==> Self::broadcast_failed(pre, PubSub::CloseDialog, post, r->Err_0),
    {
    }

    /// Closing empties the slot on every tick that does not fail.
    pub proof fn lemma_close_empties_slot(pre: Self, post: Self, r: Result<Action, anyhow::Error>)
        requires
            Self::pubsub_outcome(pre, PubSub::CloseDialog, post, r),
            r is Ok,
        ensures
            post.slot() is None,
    {
    }

    /// A signal changes nothing in the orchestrator, and its action depends
    /// on the signal alone: window resize redraws, interrupt, terminate and
    /// continue give the action of their name.
    pub proof fn lemma_signal_leaves_state(pre: Self, code: i32, post: Self, r: Result<Action, anyhow::Error>)
        requires
            pre.wf(),
            Self::event_outcome(pre, Events::Signal(code), post, r),
            pre.signals().registers(code),
        ensures
            post == pre,
            code == pre.signals().winch ==> r == Ok::<Action, anyhow::Error>(Action::Redraw),
            code == pre.signals().int ==> r == Ok::<Action, anyhow::Error>(Action::CtrlC),
            code == pre.signals().term ==> r == Ok::<Action, anyhow::Error>(Action::SigTerm),
            code == pre.signals().cont ==> r == Ok::<Action, anyhow::Error>(Action::SigCont),
    {
    }

    /// The button bar is offered every mouse event once, with or without a
    /// dialog, unless the dialog failed on it first. Panels never see it.
    pub proof fn lemma_mouse_reaches_button_bar(pre: Self, mouse: MouseEvent, post: Self, r: Result<Action, anyhow::Error>)
        requires
            Self::mouse_outcome(pre, mouse, post, r),
            pre.slot() is Some ==> r is Ok || forall|d2: D, e: anyhow::Error|
                !#[trigger] D::mouse_step(pre.slot().unwrap(), mouse, d2, Some(e)),
        ensures
            Self::bar_heard(pre, mouse, post, r),
            post.panels() == pre.panels(),
    {
    }

    /// A bus message that no component fails on has reached both panels and
    /// the button bar once each, and the dialog that was open once.
    pub proof fn lemma_broadcast_reaches_all(pre: Self, msg: PubSub, post: Self, r: Result<Action, anyhow::Error>)
        requires
            Self::pubsub_outcome(pre, msg, post, r),
            r is Ok,
        ensures
            P::pubsub_step(pre.panels()[0], msg, post.panels()[0], None),
            P::pubsub_step(pre.panels()[1], msg, post.panels()[1], None),
            B::pubsub_step(pre.bar(), msg, post.bar(), None),
            pre.slot() is Some ==> exists|d2: D| #[trigger]
                D::pubsub_step(pre.slot().unwrap(), msg, d2, None),
    {
    }
}

impl<P: Component, B: Component, D: Component, F: DialogFactory<D>> crate::app::App for App<
    P,
    B,
    D,
    F,
> {
    type Step = Draw;

    open spec fn valid(&self) -> bool {
        self.wf()
    }

    open spec fn registers(&self, code: i32) -> bool {
        self.signals().registers(code)
    }

    /// Runs one tick on the item that became ready: resolves the raw event,
    /// or handles the bus message.
    fn handle_events(&mut self, ready: &Ready) -> (r: Result<Action, anyhow::Error>)
        ensures
            Self::tick_outcome(*old(self), *ready, *final(self), r),
    {
        match ready {
            Ready::Event(event) => self.handle_event(event),
            Ready::Message(msg) => self.handle_pubsub(msg),
        }
    }

    /// Composes the screen: cuts it into the panel region, the status line
    /// and the button bar's line, cuts the panel region in two, and lists
    /// what is drawn where.
    fn render(&self, screen: Rect) -> (steps: Vec<Draw>)
        ensures
            self.composes(screen, steps@),
    {
        let rows = vec![Constraint::Min(1), Constraint::Length(1), Constraint::Length(1)];
        let columns = vec![Constraint::Percentage(50), Constraint::Min(1)];
        let chunks = split(Direction::Vertical, &rows, screen);
        let halves = split(Direction::Horizontal, &columns, chunks[0]);
        let steps = draw_list(
            chunks[0],
            halves[0],
            halves[1],
            chunks[2],
            self.panel_focus_position,
            self.dialog.is_some(),
        );
        assert(steps@ == draw_list_spec(
            chunks@[0],
            halves@[0],
            halves@[1],
            chunks@[2],
            self.focus(),
            self.slot() is Some,
        ));
        steps
    }
}

} // verus!
