use vstd::prelude::*;

use crate::app::{Action, AppState, InputField, InputMode, Key};
use crate::dream::{Intensity, Style};
use crate::text::is_blank;

verus! {

/// The state reached from `s` by handling `keys` in order.
pub open spec fn run(s: AppState, keys: Seq<Key>, today: Seq<char>) -> AppState
    decreases keys.len(),
{
    if keys.len() == 0 {
        s
    } else {
        run(s, keys.drop_last(), today).step(keys.last(), today).0
    }
}

/// Every key keeps the state well formed.
pub proof fn lemma_step_keeps_wf(s: AppState, key: Key, today: Seq<char>)
    requires
        s.wf(),
    ensures
        s.step(key, today).0.wf(),
{
}

/// Any sequence of left and right moves in browsing mode keeps the cursor inside the
/// collection and inside the visible window, and leaves the collection as it was.
pub proof fn lemma_moves_keep_viewport(s: AppState, keys: Seq<Key>, today: Seq<char>)
    requires
        s.wf(),
        s.input_mode == InputMode::Normal,
        forall|i: int| 0 <= i < keys.len() ==> #[trigger] keys[i] == Key::Left || keys[i] == Key::Right,
    ensures
        run(s, keys, today).viewport_ok(),
        run(s, keys, today).wf(),
        run(s, keys, today).input_mode == InputMode::Normal,
        run(s, keys, today).dreams == s.dreams,
    decreases keys.len(),
{
    if keys.len() > 0 {
        let prefix = keys.drop_last();
        assert forall|i: int| 0 <= i < prefix.len() implies #[trigger] prefix[i] == Key::Left
            || prefix[i] == Key::Right by {
            assert(prefix[i] == keys[i]);
        }
        lemma_moves_keep_viewport(s, prefix, today);
        assert(keys.last() == keys[keys.len() - 1]);
    }
}

/// Cancelling the wizard, at whichever field, leaves the collection and its change mark as
/// they were and returns to browsing.
pub proof fn lemma_cancel_keeps_collection(s: AppState, today: Seq<char>)
    requires
        s.input_mode == InputMode::Editing,
    ensures
        s.step(Key::Esc, today).0.dreams == s.dreams,
        s.step(Key::Esc, today).0.unsaved_changes == s.unsaved_changes,
        s.step(Key::Esc, today).0.input_mode == InputMode::Normal,
{
}

/// Finishing the wizard on blank text stores `N/A` as the entry's experience.
pub proof fn lemma_blank_text_stores_na(s: AppState, today: Seq<char>)
    requires
        s.wf(),
        s.input_mode == InputMode::Editing,
        s.input_field == InputField::Experience,
        is_blank(s.input),
    ensures
        ({
            let t = s.step(Key::Enter, today).0;
            match s.editing_index {
                Some(i) => t.dreams[i].experience == "N/A"@,
                None => t.dreams.last().experience == "N/A"@,
            }
        }),
{
}

proof fn lemma_index_round_trip(i: Intensity, st: Style)
    ensures
        Intensity::spec_from_index(i.spec_index()) == i,
        Style::spec_from_index(st.spec_index()) == st,
{
}

/// Opening the entry under the cursor for edit and confirming every field unchanged leaves
/// the collection exactly as it was, when the entry's text is not blank.
pub proof fn lemma_edit_round_trip(s: AppState, today: Seq<char>)
    requires
        s.wf(),
        s.input_mode == InputMode::Normal,
        s.dreams.len() > 0,
        !is_blank(s.dreams[s.selected].experience),
    ensures
        ({
            let t = s.step(Key::Char('e'), today).0.step(Key::Enter, today).0.step(
                Key::Enter,
                today,
            ).0.step(Key::Enter, today).0.step(Key::Enter, today).0;
            &&& t.dreams == s.dreams
            &&& t.input_mode == InputMode::Normal
        }),
{
    let d = s.dreams[s.selected];
    lemma_index_round_trip(d.intensity, d.style);
    let t = s.step(Key::Char('e'), today).0.step(Key::Enter, today).0.step(
        Key::Enter,
        today,
    ).0.step(Key::Enter, today).0.step(Key::Enter, today).0;
    assert(t.dreams =~= s.dreams);
}

/// Deleting the only entry leaves the collection empty with nothing selected, and a further
/// delete request changes nothing.
pub proof fn lemma_delete_only_entry(s: AppState, today: Seq<char>)
    requires
        s.wf(),
        s.input_mode == InputMode::ConfirmDelete,
        s.dreams.len() == 1,
    ensures
        ({
            let t = s.step(Key::Char('y'), today).0;
            &&& t.dreams.len() == 0
            &&& t.selection() is None
            &&& t.selected == 0
            &&& t.visible_start == 0
            &&& t.wf()
            &&& t.input_mode == InputMode::Normal
            &&& t.step(Key::Char('d'), today) == (t, Action::Nothing)
        }),
{
}

} // verus!
