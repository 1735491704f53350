use vstd::prelude::*;

use crate::screens::{screen_for, screen_model, Screen};

verus! {

/// The screen that is currently displayed.
#[derive(Clone, Copy, Debug, PartialEq, Eq, Structural)]
pub enum AppState {
    MainMenu,
    NewScreen,
    Credits,
}

/// The action that a press on a tagged element triggers.
#[derive(Clone, Copy, Debug, PartialEq, Eq, Structural)]
pub enum ButtonTag {
    Start,
    Credits,
    Exit,
    Main,
}

/// What the engine reports of an interactive element in one frame.
#[derive(Clone, Copy, Debug, PartialEq, Eq, Structural)]
pub enum Interaction {
    Idle,
    Hovered,
    Pressed,
}

/// One interactive element's interaction in a frame, with its tag.
#[derive(Clone, Copy, Debug, PartialEq, Eq, Structural)]
pub struct ButtonEvent {
    pub interaction: Interaction,
    pub tag: ButtonTag,
}

/// The screen that a press on `tag` switches to; `None` for `Exit`, which
/// switches nothing.
pub open spec fn target_of(tag: ButtonTag) -> Option<AppState> {
    match tag {
        ButtonTag::Start => Some(AppState::NewScreen),
        ButtonTag::Credits => Some(AppState::Credits),
        ButtonTag::Main => Some(AppState::MainMenu),
        ButtonTag::Exit => None,
    }
}

/// The screen that a press on `tag` switches to, if any.
pub fn press_target(tag: ButtonTag) -> (r: Option<AppState>)
    ensures
        r == target_of(tag),
{
    match tag {
        ButtonTag::Start => Some(AppState::NewScreen),
        ButtonTag::Credits => Some(AppState::Credits),
        ButtonTag::Main => Some(AppState::MainMenu),
        ButtonTag::Exit => None,
    }
}

impl Default for AppState {
    /// The menu starts on the main menu.
    fn default() -> (r: AppState)
        ensures
            r == AppState::MainMenu,
    {
        AppState::MainMenu
    }
}

/// Whether `e` is a press, the one interaction that triggers an action.
pub open spec fn is_press(e: ButtonEvent) -> bool {
    e.interaction == Interaction::Pressed
}

/// Whether `e` is a press that switches to another screen.
pub open spec fn switches(e: ButtonEvent) -> bool {
    is_press(e) && target_of(e.tag).is_some()
}

/// Whether `e` is a press on an `Exit` element.
pub open spec fn is_exit_press(e: ButtonEvent) -> bool {
    is_press(e) && e.tag == ButtonTag::Exit
}

/// The screen after `e` is handled on screen `s`.
pub open spec fn next_state(s: AppState, e: ButtonEvent) -> AppState {
    if switches(e) {
        target_of(e.tag).unwrap()
    } else {
        s
    }
}

/// The screen after the events `evs` are handled in order, from screen `s`.
pub open spec fn state_after(s: AppState, evs: Seq<ButtonEvent>) -> AppState
    decreases evs.len(),
{
    if evs.len() == 0 {
        s
    } else {
        next_state(state_after(s, evs.drop_last()), evs.last())
    }
}

/// Whether some event of `evs` switches screens, so that the displayed
/// screen is torn down.
pub open spec fn clears_screen(evs: Seq<ButtonEvent>) -> bool {
    exists|i: int| 0 <= i < evs.len() && switches(#[trigger] evs[i])
}

/// How many events of `evs` are presses on `Exit`.
pub open spec fn exit_presses(evs: Seq<ButtonEvent>) -> nat
    decreases evs.len(),
{
    if evs.len() == 0 {
        0
    } else {
        exit_presses(evs.drop_last()) + if is_exit_press(evs.last()) {
            1nat
        } else {
            0nat
        }
    }
}

/// What the host is to do at the end of a frame, in this order: tear down
/// every element of the displayed screen when `clear_menu` holds, send
/// `exit_requests` requests to end the application with success, and spawn
/// the elements of `screen`.
pub struct FrameActions {
    pub clear_menu: bool,
    pub exit_requests: usize,
    pub screen: Screen,
}

/// Handles one frame: applies the events in order to `state`, and says what
/// the host is to do. The screen for the resulting state is built every
/// frame, whether or not it changed.
pub fn state_system(state: &mut AppState, events: &Vec<ButtonEvent>) -> (r: FrameActions)
    ensures
        *final(state) == state_after(*old(state), events@),
        r.clear_menu == clears_screen(events@),
        r.exit_requests == exit_presses(events@),
        r.screen@ == screen_model(*final(state)),
{
    let ghost start = *state;
    let mut clear_menu = false;
    let mut exit_requests: usize = 0;
    let mut i: usize = 0;
    while i < events.len()
        invariant
            i <= events@.len(),
            *state == state_after(start, events@.subrange(0, i as int)),
            clear_menu == clears_screen(events@.subrange(0, i as int)),
            exit_requests == exit_presses(events@.subrange(0, i as int)),
            exit_requests <= i,
        decreases events@.len() - i,
    {
        let e = events[i];
        let ghost done = events@.subrange(0, i as int);
        let ghost next = events@.subrange(0, i + 1);
        assert(next.drop_last() =~= done);
        assert(next.last() == e);
        if e.interaction == Interaction::Pressed {
            match press_target(e.tag) {
                Some(t) => {
                    clear_menu = true;
                    *state = t;
                },
                None => {
                    exit_requests = exit_requests + 1;
                },
            }
        }
        proof {
            if switches(e) {
                assert(clears_screen(next)) by {
                    assert(switches(next[i as int]));
                }
            } else {
                assert(clears_screen(next) == clears_screen(done)) by {
                    if clears_screen(next) {
                        let k = choose|k: int| 0 <= k < next.len() && switches(#[trigger] next[k]);
                        assert(done[k] == next[k]);
                    }
                    if clears_screen(done) {
                        let k = choose|k: int| 0 <= k < done.len() && switches(#[trigger] done[k]);
                        assert(done[k] == next[k]);
                    }
                }
            }
        }
        i = i + 1;
    }
    assert(events@.subrange(0, events@.len() as int) =~= events@);
    FrameActions { clear_menu, exit_requests, screen: screen_for(*state) }
}

} // verus!
