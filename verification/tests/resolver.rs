use fmcore::app::{
    centered_rect, centering, dialog_reaction, key_action, registered_signals, render_shadow, signal_action,
    try_signal_action, unmapped_key, Action, DialogType, Draw, GotoType, HexSearch, Key, PubSub, Reaction,
    SignalNumbers, Target, TextSearch,
};
use signal_hook::consts::signal::{SIGCONT, SIGINT, SIGTERM, SIGWINCH};
use fmcore::fm::app::draw_list;
use fmcore::component::Focus;
use fmcore::layout::{intersection, Constraint, Rect};

fn rect(x: u16, y: u16, width: u16, height: u16) -> Rect {
    Rect { x, y, width, height }
}

fn platform() -> SignalNumbers {
    SignalNumbers { winch: SIGWINCH, int: SIGINT, term: SIGTERM, cont: SIGCONT }
}

#[test]
fn registration_set_is_the_four_numbers_in_order() {
    assert_eq!(registered_signals(&platform()), vec![SIGWINCH, SIGINT, SIGTERM, SIGCONT]);
    let n = SignalNumbers { winch: 7, int: 5, term: 3, cont: 1 };
    assert_eq!(registered_signals(&n), vec![7, 5, 3, 1]);
}

#[test]
fn each_registered_signal_has_its_action() {
    let n = platform();
    assert_eq!(signal_action(&n, SIGWINCH), Action::Redraw);
    assert_eq!(signal_action(&n, SIGINT), Action::CtrlC);
    assert_eq!(signal_action(&n, SIGTERM), Action::SigTerm);
    assert_eq!(signal_action(&n, SIGCONT), Action::SigCont);
}

#[test]
fn actions_follow_the_numbers_given() {
    let n = SignalNumbers { winch: 1, int: 2, term: 3, cont: 4 };
    assert_eq!(signal_action(&n, 1), Action::Redraw);
    assert_eq!(signal_action(&n, 2), Action::CtrlC);
    assert_eq!(signal_action(&n, 3), Action::SigTerm);
    assert_eq!(signal_action(&n, 4), Action::SigCont);
    assert_eq!(try_signal_action(&n, 5), None);
    assert_eq!(try_signal_action(&n, 3), Some(Action::SigTerm));
}

#[test]
fn every_registered_signal_resolves() {
    let n = platform();
    for code in registered_signals(&n) {
        assert_eq!(try_signal_action(&n, code), Some(signal_action(&n, code)));
    }
}

#[test]
fn unregistered_signal_has_no_action() {
    let n = platform();
    assert_eq!(try_signal_action(&n, signal_hook::consts::signal::SIGHUP), None);
    assert_eq!(try_signal_action(&n, signal_hook::consts::signal::SIGUSR1), None);
    assert_eq!(try_signal_action(&n, 0), None);
    assert_eq!(try_signal_action(&n, -1), None);
}

#[test]
fn global_keymap_entries() {
    assert_eq!(key_action(false, &Key::Char('q')), Action::Quit);
    assert_eq!(key_action(false, &Key::Char('Q')), Action::Quit);
    assert_eq!(key_action(false, &Key::F(10)), Action::Quit);
    assert_eq!(key_action(false, &Key::Ctrl('c')), Action::CtrlC);
    assert_eq!(key_action(false, &Key::Ctrl('l')), Action::Redraw);
    assert_eq!(key_action(false, &Key::Ctrl('z')), Action::CtrlZ);
}

#[test]
fn keys_outside_the_keymap_continue() {
    assert_eq!(key_action(false, &Key::Char('x')), Action::Continue);
    assert_eq!(key_action(false, &Key::F(9)), Action::Continue);
    assert_eq!(key_action(false, &Key::Ctrl('q')), Action::Continue);
    assert_eq!(key_action(false, &Key::Alt('q')), Action::Continue);
    assert_eq!(key_action(false, &Key::Esc), Action::Continue);
    assert_eq!(key_action(false, &Key::Unknown), Action::Continue);
    assert_eq!(key_action(false, &Key::Char('c')), Action::Continue);
}

#[test]
fn handled_key_never_reaches_the_keymap() {
    let keys = [
        Key::Char('q'),
        Key::Char('Q'),
        Key::F(10),
        Key::Ctrl('c'),
        Key::Ctrl('l'),
        Key::Ctrl('z'),
        Key::Up,
    ];
    for key in keys.iter() {
        assert_eq!(key_action(true, key), Action::Continue);
    }
}

#[test]
fn error_message_opens_an_error_notice() {
    let r = dialog_reaction(&PubSub::Error("x".to_string()));
    assert_eq!(
        r,
        Reaction::Open {
            kind: DialogType::Error,
            title: "Error".to_string(),
            text: "x".to_string()
        }
    );
}

#[test]
fn warning_and_info_carry_their_title() {
    assert_eq!(
        dialog_reaction(&PubSub::Warning("T".to_string(), "M".to_string())),
        Reaction::Open {
            kind: DialogType::Warning,
            title: "T".to_string(),
            text: "M".to_string()
        }
    );
    assert_eq!(
        dialog_reaction(&PubSub::Info("Note".to_string(), "done".to_string())),
        Reaction::Open {
            kind: DialogType::Info,
            title: "Note".to_string(),
            text: "done".to_string()
        }
    );
}

#[test]
fn close_message_closes() {
    assert_eq!(dialog_reaction(&PubSub::CloseDialog), Reaction::Close);
}

#[test]
fn other_messages_keep_the_slot() {
    let search = TextSearch {
        search_string: "needle".to_string(),
        case_sensitive: true,
        regexp: false,
        whole_words: false,
        backwards: false,
    };
    let hex = HexSearch { search_string: "ff".to_string(), hexadecimal: true, backwards: false };
    let msgs = vec![
        PubSub::FileInfo("a".to_string(), "b".to_string(), "c".to_string()),
        PubSub::ToggleHex,
        PubSub::Highlight(vec![vec![(ratatui::style::Style::default(), "fn".to_string())]]),
        PubSub::FromHexOffset(16),
        PubSub::ToHexOffset(32),
        PubSub::HVStartSearch,
        PubSub::HVSearchNext,
        PubSub::HVSearchPrev,
        PubSub::DlgGoto(GotoType::LineNumber),
        PubSub::Goto(GotoType::HexOffset, "10".to_string()),
        PubSub::DlgTextSearch(search.clone()),
        PubSub::TextSearch(search),
        PubSub::DlgHexSearch(hex.clone()),
        PubSub::HexSearch(hex),
    ];
    for msg in msgs.iter() {
        assert_eq!(dialog_reaction(msg), Reaction::Keep);
    }
}

#[test]
fn centered_rect_is_centred() {
    let c = centered_rect(10, 4, &rect(0, 0, 20, 10));
    assert_eq!(c, rect(5, 3, 10, 4));
}

#[test]
fn centered_rect_with_offset_and_odd_padding() {
    let c = centered_rect(4, 2, &rect(2, 1, 9, 5));
    assert_eq!(c, rect(5, 3, 4, 2));
}

#[test]
fn centered_rect_larger_than_its_frame_is_clipped() {
    let c = centered_rect(30, 20, &rect(0, 0, 20, 10));
    assert_eq!(c, rect(0, 0, 20, 10));
}

#[test]
fn draw_list_without_dialog() {
    let steps = draw_list(rect(0, 0, 8, 6), rect(0, 0, 4, 6), rect(4, 0, 4, 6), rect(0, 7, 8, 1), 0, false);
    assert_eq!(
        steps,
        vec![
            Draw { target: Target::Panel(0), area: rect(0, 0, 4, 6), focus: Focus::Focused },
            Draw { target: Target::Panel(1), area: rect(4, 0, 4, 6), focus: Focus::Normal },
            Draw { target: Target::ButtonBar, area: rect(0, 7, 8, 1), focus: Focus::Normal },
        ]
    );
}

#[test]
fn draw_list_with_dialog_and_right_focus() {
    let steps = draw_list(rect(0, 0, 8, 6), rect(0, 0, 4, 6), rect(4, 0, 4, 6), rect(0, 7, 8, 1), 1, true);
    assert_eq!(
        steps,
        vec![
            Draw { target: Target::Panel(0), area: rect(0, 0, 4, 6), focus: Focus::Normal },
            Draw { target: Target::Panel(1), area: rect(4, 0, 4, 6), focus: Focus::Focused },
            Draw { target: Target::ButtonBar, area: rect(0, 7, 8, 1), focus: Focus::Normal },
            Draw { target: Target::Dialog, area: rect(0, 0, 8, 6), focus: Focus::Normal },
        ]
    );
}

#[test]
fn shadow_lies_below_and_beside() {
    let (below, beside) = render_shadow(&rect(5, 3, 10, 4), rect(0, 0, 80, 24));
    assert_eq!(below, rect(7, 7, 10, 1));
    assert_eq!(beside, rect(15, 4, 2, 3));
}

#[test]
fn shadow_is_cut_at_the_edge_of_the_screen() {
    let (below, beside) = render_shadow(&rect(70, 20, 10, 4), rect(0, 0, 80, 24));
    assert_eq!(below, rect(72, 24, 8, 0));
    assert_eq!(beside, rect(80, 21, 0, 3));
}

#[test]
fn shadow_of_a_rectangle_without_height() {
    let (below, beside) = render_shadow(&rect(1, 1, 4, 0), rect(0, 0, 80, 24));
    assert_eq!(below, rect(3, 1, 4, 1));
    assert_eq!(beside, rect(5, 2, 2, 0));
}

#[test]
fn shadow_of_a_very_tall_rectangle_is_clipped() {
    let (below, beside) = render_shadow(&rect(0, 0, 1, 40001), rect(0, 0, 65535, 65535));
    assert_eq!(below, rect(2, 40001, 1, 1));
    assert_eq!(beside, rect(1, 1, 1, 36203));
}

#[test]
fn centering_pads_with_half_the_difference_rounded_up() {
    assert_eq!(
        centering(20, 10),
        vec![Constraint::Length(5), Constraint::Length(10), Constraint::Min(0)]
    );
    assert_eq!(
        centering(9, 4),
        vec![Constraint::Length(3), Constraint::Length(4), Constraint::Min(0)]
    );
    assert_eq!(
        centering(10, 10),
        vec![Constraint::Length(0), Constraint::Length(10), Constraint::Min(0)]
    );
    assert_eq!(
        centering(11, 10),
        vec![Constraint::Length(1), Constraint::Length(10), Constraint::Min(0)]
    );
}

#[test]
fn centering_more_than_there_is_has_no_padding() {
    assert_eq!(
        centering(10, 30),
        vec![Constraint::Length(0), Constraint::Length(30), Constraint::Min(0)]
    );
    assert_eq!(
        centering(65535, 1),
        vec![Constraint::Length(32767), Constraint::Length(1), Constraint::Min(0)]
    );
}

#[test]
fn unmapped_key_is_the_declined_key_without_keymap_entry() {
    assert_eq!(unmapped_key(false, &Key::Char('x')), Some(Key::Char('x')));
    assert_eq!(unmapped_key(false, &Key::F(9)), Some(Key::F(9)));
    assert_eq!(unmapped_key(false, &Key::Unknown), Some(Key::Unknown));
    assert_eq!(unmapped_key(false, &Key::Char('q')), None);
    assert_eq!(unmapped_key(false, &Key::F(10)), None);
    assert_eq!(unmapped_key(false, &Key::Ctrl('z')), None);
    assert_eq!(unmapped_key(true, &Key::Char('x')), None);
    assert_eq!(unmapped_key(true, &Key::Char('q')), None);
}

#[test]
fn intersection_is_the_shared_cells() {
    assert_eq!(intersection(rect(0, 0, 10, 10), rect(5, 5, 10, 10)), rect(5, 5, 5, 5));
    assert_eq!(intersection(rect(5, 5, 10, 10), rect(0, 0, 10, 10)), rect(5, 5, 5, 5));
    assert_eq!(intersection(rect(2, 3, 4, 5), rect(0, 0, 80, 24)), rect(2, 3, 4, 5));
}

#[test]
fn intersection_of_rectangles_apart_has_no_area() {
    assert_eq!(intersection(rect(0, 0, 2, 2), rect(5, 5, 2, 2)), rect(5, 5, 0, 0));
    assert_eq!(intersection(rect(0, 0, 4, 4), rect(4, 1, 3, 2)), rect(4, 1, 0, 2));
}

#[test]
fn intersection_holds_edges_at_the_largest_coordinate() {
    assert_eq!(
        intersection(rect(65530, 65530, 10, 10), rect(65532, 0, 65535, 65535)),
        rect(65532, 65530, 3, 5)
    );
}

#[test]
fn centered_rect_lies_inside_its_frame() {
    let frames = [rect(0, 0, 20, 10), rect(3, 2, 21, 9), rect(65000, 65000, 535, 535), rect(1, 1, 0, 0)];
    let sizes = [(0u16, 0u16), (1, 1), (7, 3), (30, 20), (600, 600)];
    for r in frames.iter() {
        for (w, h) in sizes.iter() {
            let c = centered_rect(*w, *h, r);
            assert!(r.x <= c.x && r.y <= c.y);
            assert!(u32::from(c.x) + u32::from(c.width) <= u32::from(r.x) + u32::from(r.width));
            assert!(u32::from(c.y) + u32::from(c.height) <= u32::from(r.y) + u32::from(r.height));
        }
    }
}

#[test]
fn centered_rect_keeps_to_its_frame_across_the_cuts() {
    let r = rect(3, 2, 21, 9);
    let c = centered_rect(7, 3, &r);
    assert_eq!(c.height, 3);
    assert_eq!(c.width, 7);
    assert!(c.y >= r.y && c.y + c.height <= r.y + r.height);
    assert!(c.x >= r.x && c.x + c.width <= r.x + r.width);
}
