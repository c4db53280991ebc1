//! Properties of the key handler that span several key presses or replies.
use vstd::prelude::*;
use crate::event_state::{Confirm, Mode, Tab};
use crate::protocol::{Key, Reply, RequestView, StepView};
use crate::rules::{key_step, namespace_target, reply_step};
use crate::session::AppView;

verus! {

/// The run prompt: on a focused command in normal mode, the first confirm key
/// only arms the prompt; a second one commits it and hands out the selected
/// command with its tag, exactly once. Esc after the first press disarms the
/// prompt and hands out nothing.
pub proof fn lemma_confirm_prompt(v: AppView, i: usize)
    requires
        v.event_state.mode == Mode::Normal,
        v.event_state.confirm == Confirm::Hide,
        v.event_state.tab == Tab::Tab1,
        v.commands.is_selected,
        v.commands.selected == Some(i),
        i < v.commands.items.len(),
        i < v.tags.items.len(),
    ensures
        key_step(v, Key::Enter).1 == StepView::Idle,
        key_step(v, Key::Enter).0.event_state.confirm == Confirm::Display,
        key_step(key_step(v, Key::Enter).0, Key::Enter).1
            == StepView::Run(v.commands.items[i as int]@, v.tags.items[i as int]@),
        key_step(key_step(v, Key::Enter).0, Key::Enter).0.event_state.confirm == Confirm::Confirmed,
        key_step(key_step(v, Key::Enter).0, Key::Esc).1 == StepView::Idle,
        key_step(key_step(v, Key::Enter).0, Key::Esc).0.event_state.confirm == Confirm::Hide,
{
}

/// Changing the selected namespace, by a step down or up or by focusing the
/// namespaces for the first time, asks for that namespace's commands and
/// tags and changes nothing before they come; once they come, the commands
/// and tags lists are exactly what storage returned for it, and as long as
/// each other.
pub proof fn lemma_cascading_reload(v: AppView, key: Key, c: Vec<String>, t: Vec<String>)
    requires
        v.event_state.mode == Mode::Normal,
        v.event_state.confirm == Confirm::Hide,
        v.event_state.tab == Tab::Tab1,
        v.namespaces.items.len() > 0,
        v.namespaces.selected matches Some(j) ==> j < v.namespaces.items.len(),
        !v.commands.is_selected,
        key == Key::Down || key == Key::Up,
        c@.len() == t@.len(),
    ensures
        ({
            let forward = key == Key::Down;
            let i = namespace_target(v, forward);
            let (v1, step) = key_step(v, key);
            let request = RequestView::LoadCommands { index: i, namespace: v.namespaces.items[i as int]@ };
            let v2 = reply_step(v1, request, Ok(Reply::Entries(c, t))).0;
            &&& step == StepView::Store(request)
            &&& v1 == (AppView { error: None, ..v })
            &&& v2.namespaces.selected == Some(i)
            &&& v2.commands.items == c@
            &&& v2.tags.items == t@
            &&& v2.commands.items.len() == v2.tags.items.len()
        }),
{
}

} // verus!
