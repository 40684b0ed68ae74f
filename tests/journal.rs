use dream_journal::app::{
    Action, DreamApp, IndexError, InputField, InputMode, Key, MAX_FREQUENCY, WINDOW_SIZE,
};
use dream_journal::dream::{Dream, Intensity, Style};
use dream_journal::text::text_is_blank;

fn dream(date: &str, intensity: Intensity, frequency: u8, style: Style, text: &str) -> Dream {
    Dream {
        date: date.to_string(),
        intensity,
        experience: text.to_string(),
        frequency,
        style,
    }
}

fn journal(n: usize) -> DreamApp {
    let dreams = (0..n)
        .map(|i| dream(&format!("day {}", i), Intensity::Medium, 3, Style::Recurring, "text"))
        .collect();
    DreamApp::new(dreams)
}

fn press(app: &mut DreamApp, keys: &[Key]) -> Action {
    let mut last = Action::Nothing;
    for k in keys {
        last = app.handle_key(*k, "2024-01-01");
    }
    last
}

fn same(a: &Dream, b: &Dream) -> bool {
    a.date == b.date
        && a.intensity == b.intensity
        && a.experience == b.experience
        && a.frequency == b.frequency
        && a.style == b.style
}

#[test]
fn right_twice_on_three_entries() {
    let mut app = journal(3);
    assert_eq!(WINDOW_SIZE, 7);
    press(&mut app, &[Key::Right, Key::Right]);
    assert_eq!(app.selected, 2);
    assert_eq!(app.visible_start, 0);
    press(&mut app, &[Key::Right]);
    assert_eq!(app.selected, 2);
}

#[test]
fn adding_ninth_entry_scrolls_window() {
    let mut app = journal(8);
    press(&mut app, &[Key::Char('a'), Key::Enter, Key::Enter, Key::Enter]);
    press(&mut app, &[Key::Char('h'), Key::Char('i'), Key::Enter]);
    assert_eq!(app.dreams.len(), 9);
    assert_eq!(app.visible_start, 2);
    assert_eq!(app.selected, 8);
    assert_eq!(app.dreams[8].experience, "hi");
    assert_eq!(app.dreams[8].date, "2024-01-01");
    assert!(app.unsaved_changes);
    assert_eq!(app.input_mode, InputMode::Normal);
}

#[test]
fn save_confirmed_then_reported() {
    let mut app = journal(2);
    press(&mut app, &[Key::Char('d'), Key::Char('y')]);
    assert!(app.unsaved_changes);
    assert_eq!(press(&mut app, &[Key::Char('s')]), Action::Nothing);
    assert_eq!(app.input_mode, InputMode::ConfirmExport);
    assert_eq!(press(&mut app, &[Key::Char('y')]), Action::Save);
    assert_eq!(app.input_mode, InputMode::Normal);
    app.finish_save(true);
    assert!(!app.unsaved_changes);
    assert!(!app.save_failed);
}

#[test]
fn save_declined_changes_nothing() {
    let mut app = journal(2);
    press(&mut app, &[Key::Char('d'), Key::Char('y')]);
    assert_eq!(press(&mut app, &[Key::Char('s'), Key::Char('n')]), Action::Nothing);
    assert_eq!(app.input_mode, InputMode::Normal);
    assert!(app.unsaved_changes);
}

#[test]
fn failed_save_keeps_change_mark() {
    let mut app = journal(1);
    press(&mut app, &[Key::Char('d'), Key::Char('y'), Key::Char('s'), Key::Char('y')]);
    app.finish_save(false);
    assert!(app.unsaved_changes);
    assert!(app.save_failed);
}

#[test]
fn moves_stay_in_window() {
    let mut app = journal(12);
    for _ in 0..20 {
        press(&mut app, &[Key::Right]);
        assert!(app.visible_start <= app.selected);
        assert!(app.selected < app.visible_start + WINDOW_SIZE);
        assert!(app.selected < 12);
    }
    assert_eq!(app.selected, 11);
    assert_eq!(app.visible_start, 5);
    for _ in 0..20 {
        press(&mut app, &[Key::Left]);
        assert!(app.visible_start <= app.selected);
        assert!(app.selected < app.visible_start + WINDOW_SIZE);
    }
    assert_eq!(app.selected, 0);
    assert_eq!(app.visible_start, 0);
}

#[test]
fn moves_on_empty_journal() {
    let mut app = journal(0);
    press(&mut app, &[Key::Right, Key::Left, Key::Enter]);
    assert_eq!(app.selected, 0);
    assert_eq!(app.visible_start, 0);
    assert_eq!(app.selection(), None);
    assert_eq!(app.input_mode, InputMode::Normal);
}

#[test]
fn cancel_at_each_field_keeps_collection() {
    let steps: [&[Key]; 4] = [
        &[],
        &[Key::Enter],
        &[Key::Enter, Key::Up, Key::Enter],
        &[Key::Enter, Key::Enter, Key::Enter, Key::Char('z')],
    ];
    for start in [Key::Char('a'), Key::Char('e')] {
        for s in steps {
            let mut app = journal(3);
            press(&mut app, &[Key::Right]);
            press(&mut app, &[start]);
            press(&mut app, s);
            press(&mut app, &[Key::Esc]);
            assert_eq!(app.input_mode, InputMode::Normal);
            assert_eq!(app.dreams.len(), 3);
            assert!(!app.unsaved_changes);
            assert!(same(&app.dreams[1], &journal(3).dreams[1]));
            assert_eq!(app.editing_index, None);
        }
    }
}

#[test]
fn blank_text_becomes_na() {
    let mut app = journal(0);
    press(&mut app, &[Key::Char('a'), Key::Enter, Key::Enter, Key::Enter]);
    press(&mut app, &[Key::Char(' '), Key::Char('\t'), Key::Newline, Key::Enter]);
    assert_eq!(app.dreams[0].experience, "N/A");

    let mut app = journal(0);
    press(&mut app, &[Key::Char('a'), Key::Enter, Key::Enter, Key::Enter, Key::Enter]);
    assert_eq!(app.dreams[0].experience, "N/A");
}

#[test]
fn blank_text_on_edit_becomes_na() {
    let mut app = journal(1);
    press(&mut app, &[Key::Char('e'), Key::Enter, Key::Enter, Key::Enter]);
    for _ in 0..4 {
        press(&mut app, &[Key::Backspace]);
    }
    press(&mut app, &[Key::Char('\u{3000}'), Key::Enter]);
    assert_eq!(app.dreams[0].experience, "N/A");
    assert_eq!(app.dreams.len(), 1);
}

#[test]
fn edit_round_trip_keeps_entry() {
    let entries = vec![
        dream("a", Intensity::Low, 0, Style::Lucid, "one"),
        dream("b", Intensity::High, 9, Style::Prophetic, "two\nlines"),
        dream("c", Intensity::Medium, 10, Style::Normal, "N/A"),
    ];
    for i in 0..3 {
        let mut app = DreamApp::new(entries.clone());
        for _ in 0..i {
            press(&mut app, &[Key::Right]);
        }
        press(&mut app, &[Key::Char('e'), Key::Enter, Key::Enter, Key::Enter, Key::Enter]);
        for j in 0..3 {
            assert!(same(&app.dreams[j], &entries[j]));
        }
        assert_eq!(app.input_mode, InputMode::Normal);
    }
}

#[test]
fn edit_changes_fields() {
    let mut app = DreamApp::new(vec![dream("a", Intensity::Low, 2, Style::Nightmare, "x")]);
    press(&mut app, &[Key::Char('e')]);
    assert_eq!(app.selection_index, 0);
    assert_eq!(app.frequency_value, 2);
    press(&mut app, &[Key::Down, Key::Down, Key::Down, Key::Enter]);
    press(&mut app, &[Key::Up, Key::Enter]);
    assert_eq!(app.input_field, InputField::Style);
    assert_eq!(app.selection_index, 1);
    press(&mut app, &[Key::Up, Key::Up, Key::Enter]);
    press(&mut app, &[Key::Char('y'), Key::Enter]);
    let d = &app.dreams[0];
    assert_eq!(d.intensity, Intensity::High);
    assert_eq!(d.frequency, 3);
    assert_eq!(d.style, Style::Lucid);
    assert_eq!(d.experience, "xy");
    assert_eq!(d.date, "a");
    assert!(app.unsaved_changes);
}

#[test]
fn frequency_is_clamped() {
    let mut app = journal(0);
    press(&mut app, &[Key::Char('a'), Key::Enter, Key::Down]);
    assert_eq!(app.frequency_value, 0);
    for _ in 0..15 {
        press(&mut app, &[Key::Up]);
    }
    assert_eq!(app.frequency_value, MAX_FREQUENCY);
    press(&mut app, &[Key::Enter]);
    for _ in 0..9 {
        press(&mut app, &[Key::Down]);
    }
    assert_eq!(app.selection_index, 4);
    press(&mut app, &[Key::Enter, Key::Char('m'), Key::Enter]);
    assert_eq!(app.dreams[0].frequency, 10);
    assert_eq!(app.dreams[0].style, Style::Normal);
}

#[test]
fn delete_only_entry_then_delete_again() {
    let mut app = journal(1);
    press(&mut app, &[Key::Char('d')]);
    assert_eq!(app.input_mode, InputMode::ConfirmDelete);
    press(&mut app, &[Key::Char('y')]);
    assert_eq!(app.dreams.len(), 0);
    assert_eq!(app.selection(), None);
    assert_eq!(app.selected, 0);
    assert_eq!(app.visible_start, 0);
    press(&mut app, &[Key::Char('d')]);
    assert_eq!(app.input_mode, InputMode::Normal);
    press(&mut app, &[Key::Char('e')]);
    assert_eq!(app.input_mode, InputMode::Normal);
}

#[test]
fn delete_last_steps_back() {
    let mut app = journal(9);
    for _ in 0..8 {
        press(&mut app, &[Key::Right]);
    }
    assert_eq!((app.selected, app.visible_start), (8, 2));
    press(&mut app, &[Key::Char('d'), Key::Char('y')]);
    assert_eq!(app.dreams.len(), 8);
    assert_eq!((app.selected, app.visible_start), (7, 2));
}

#[test]
fn delete_inner_keeps_cursor() {
    let mut app = journal(4);
    press(&mut app, &[Key::Right]);
    app.dreams[2].date = "third".to_string();
    press(&mut app, &[Key::Char('d'), Key::Char('n')]);
    assert_eq!(app.dreams.len(), 4);
    press(&mut app, &[Key::Char('d'), Key::Esc]);
    assert_eq!(app.dreams.len(), 4);
    press(&mut app, &[Key::Char('d'), Key::Char('y')]);
    assert_eq!(app.dreams.len(), 3);
    assert_eq!(app.selected, 1);
    assert_eq!(app.dreams[1].date, "third");
}

#[test]
fn quit_needs_confirmation() {
    let mut app = journal(1);
    assert_eq!(press(&mut app, &[Key::Char('q')]), Action::Nothing);
    assert_eq!(app.input_mode, InputMode::ConfirmQuit);
    assert_eq!(press(&mut app, &[Key::Char('x')]), Action::Nothing);
    assert_eq!(press(&mut app, &[Key::Esc]), Action::Nothing);
    assert_eq!(app.input_mode, InputMode::Normal);
    assert_eq!(press(&mut app, &[Key::Char('q'), Key::Char('y')]), Action::Quit);
}

#[test]
fn viewing_detail() {
    let mut app = journal(1);
    for k in [Key::Esc, Key::Enter, Key::Char('q')] {
        press(&mut app, &[Key::Enter]);
        assert_eq!(app.input_mode, InputMode::ViewingDream);
        press(&mut app, &[Key::Char('x'), Key::Left]);
        assert_eq!(app.input_mode, InputMode::ViewingDream);
        press(&mut app, &[k]);
        assert_eq!(app.input_mode, InputMode::Normal);
    }
}

#[test]
fn typing_and_erasing() {
    let mut app = journal(0);
    press(&mut app, &[Key::Char('a'), Key::Enter, Key::Enter, Key::Enter]);
    assert_eq!(app.input_field, InputField::Experience);
    press(&mut app, &[Key::Char('a'), Key::Newline, Key::Char('é'), Key::Backspace]);
    assert_eq!(app.input, "a\n");
    press(&mut app, &[Key::Backspace, Key::Backspace, Key::Backspace]);
    assert_eq!(app.input, "");
    press(&mut app, &[Key::Char('b'), Key::Enter]);
    assert_eq!(app.dreams[0].experience, "b");
    assert_eq!(app.input, "");
}

#[test]
fn store_errors_out_of_range() {
    let mut app = journal(2);
    let d = dream("z", Intensity::Low, 1, Style::Lucid, "z");
    assert_eq!(app.replace(2, d.clone()), Err(IndexError { index: 2, len: 2 }));
    assert_eq!(app.delete(5), Err(IndexError { index: 5, len: 2 }));
    assert!(!app.unsaved_changes);
    assert_eq!(app.replace(1, d), Ok(()));
    assert_eq!(app.dreams[1].date, "z");
    assert_eq!(app.delete(0), Ok(()));
    assert_eq!(app.dreams.len(), 1);
    assert!(app.unsaved_changes);
}

#[test]
fn labels_and_positions() {
    assert_eq!(Intensity::Low.to_string(), "Low");
    assert_eq!(Intensity::Medium.to_string(), "Medium");
    assert_eq!(Intensity::High.to_string(), "High");
    assert_eq!(Style::Lucid.to_string(), "Lucid");
    assert_eq!(Style::Nightmare.to_string(), "Nightmare");
    assert_eq!(Style::Recurring.to_string(), "Recurring");
    assert_eq!(Style::Prophetic.to_string(), "Prophetic");
    assert_eq!(Style::Normal.to_string(), "Normal");
    for i in 0..3 {
        assert_eq!(Intensity::from_index(i).index(), i);
    }
    for i in 0..5 {
        assert_eq!(Style::from_index(i).index(), i);
    }
    assert_eq!(Style::Prophetic.index(), 3);
}

#[test]
fn blank_detection() {
    assert!(text_is_blank(""));
    assert!(text_is_blank(" \t\n\r\u{a0}\u{2003}\u{3000}"));
    assert!(!text_is_blank("  x "));
    assert!(!text_is_blank("N/A"));
}

#[test]
fn new_journal_starts_browsing() {
    let app = journal(3);
    assert_eq!(app.input_mode, InputMode::Normal);
    assert_eq!(app.input_field, InputField::Inactive);
    assert_eq!(app.selection(), Some(0));
    assert!(!app.unsaved_changes);
    assert_eq!(app.current_dream.date, "N/A");
}
