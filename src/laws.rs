use vstd::prelude::*;

use crate::screens::screen_model;
use crate::state::{
    clears_screen, exit_presses, is_exit_press, is_press, next_state, state_after, switches,
    target_of, AppState, ButtonEvent, ButtonTag, Interaction,
};

verus! {

/// A press on an element tagged `tag`.
pub open spec fn press(tag: ButtonTag) -> ButtonEvent {
    ButtonEvent { interaction: Interaction::Pressed, tag }
}

/// Handling `a` and then `b` is handling `a + b`.
pub proof fn lemma_state_after_concat(s: AppState, a: Seq<ButtonEvent>, b: Seq<ButtonEvent>)
    ensures
        state_after(s, a + b) == state_after(state_after(s, a), b),
    decreases b.len(),
{
    if b.len() == 0 {
        assert(a + b =~= a);
    } else {
        assert((a + b).drop_last() =~= a + b.drop_last());
        assert((a + b).last() == b.last());
        lemma_state_after_concat(s, a, b.drop_last());
    }
}

/// The exit presses of `a + b` are those of `a` and those of `b`.
pub proof fn lemma_exit_presses_concat(a: Seq<ButtonEvent>, b: Seq<ButtonEvent>)
    ensures
        exit_presses(a + b) == exit_presses(a) + exit_presses(b),
    decreases b.len(),
{
    if b.len() == 0 {
        assert(a + b =~= a);
    } else {
        assert((a + b).drop_last() =~= a + b.drop_last());
        assert((a + b).last() == b.last());
        lemma_exit_presses_concat(a, b.drop_last());
    }
}

/// `a + b` holds a switching press exactly when `a` or `b` does.
pub proof fn lemma_clears_screen_concat(a: Seq<ButtonEvent>, b: Seq<ButtonEvent>)
    ensures
        clears_screen(a + b) == (clears_screen(a) || clears_screen(b)),
{
    let ab = a + b;
    if clears_screen(ab) {
        let k = choose|k: int| 0 <= k < ab.len() && switches(#[trigger] ab[k]);
        if k < a.len() {
            assert(a[k] == ab[k]);
        } else {
            assert(b[k - a.len()] == ab[k]);
        }
    }
    if clears_screen(a) {
        let k = choose|k: int| 0 <= k < a.len() && switches(#[trigger] a[k]);
        assert(ab[k] == a[k]);
    }
    if clears_screen(b) {
        let k = choose|k: int| 0 <= k < b.len() && switches(#[trigger] b[k]);
        assert(ab[k + a.len()] == b[k]);
    }
}

/// Events that switch nothing leave the screen as it is.
pub proof fn lemma_no_switch_keeps_state(s: AppState, evs: Seq<ButtonEvent>)
    requires
        forall|i: int| 0 <= i < evs.len() ==> !switches(#[trigger] evs[i]),
    ensures
        state_after(s, evs) == s,
    decreases evs.len(),
{
    if evs.len() > 0 {
        let rest = evs.drop_last();
        assert forall|i: int| 0 <= i < rest.len() implies !switches(#[trigger] rest[i]) by {
            assert(rest[i] == evs[i]);
        }
        lemma_no_switch_keeps_state(s, rest);
        assert(!switches(evs[evs.len() - 1]));
    }
}

/// A press on a `Start`, `Credits` or `Main` element, with no switching press
/// after it in the frame, leaves the menu on that tag's screen, and the
/// screen that was displayed before is torn down whole.
pub proof fn press_switches_screen(
    s: AppState,
    before: Seq<ButtonEvent>,
    tag: ButtonTag,
    after: Seq<ButtonEvent>,
)
    requires
        tag != ButtonTag::Exit,
        forall|i: int| 0 <= i < after.len() ==> !switches(#[trigger] after[i]),
    ensures
        state_after(s, before + seq![press(tag)] + after) == target_of(tag).unwrap(),
        clears_screen(before + seq![press(tag)] + after),
{
    let head = before + seq![press(tag)];
    lemma_state_after_concat(s, head, after);
    lemma_no_switch_keeps_state(state_after(s, head), after);
    assert(head.drop_last() =~= before);
    assert(head.last() == press(tag));
    assert(switches(press(tag)));
    assert(next_state(state_after(s, before), press(tag)) == target_of(tag).unwrap());
    lemma_clears_screen_concat(head, after);
    lemma_clears_screen_concat(before, seq![press(tag)]);
    assert(seq![press(tag)][0] == press(tag));
}

/// A frame without a press keeps the screen, tears nothing down, asks for no
/// exit, and builds the same screen as the frame before.
pub proof fn idle_frame_changes_nothing(s: AppState, evs: Seq<ButtonEvent>)
    requires
        forall|i: int| 0 <= i < evs.len() ==> !is_press(#[trigger] evs[i]),
    ensures
        state_after(s, evs) == s,
        !clears_screen(evs),
        exit_presses(evs) == 0,
        screen_model(state_after(s, evs)) == screen_model(s),
    decreases evs.len(),
{
    assert forall|i: int| 0 <= i < evs.len() implies !switches(#[trigger] evs[i]) by {
        assert(!is_press(evs[i]));
    }
    lemma_no_switch_keeps_state(s, evs);
    if evs.len() > 0 {
        let rest = evs.drop_last();
        assert forall|i: int| 0 <= i < rest.len() implies !is_press(#[trigger] rest[i]) by {
            assert(rest[i] == evs[i]);
        }
        idle_frame_changes_nothing(s, rest);
        assert(!is_press(evs[evs.len() - 1]));
    }
}

/// A press on `Exit`, wherever it falls in a frame, leaves the screen and
/// what is torn down as they would be without it, and adds exactly one
/// request to end the application.
pub proof fn exit_press_only_requests_exit(
    s: AppState,
    before: Seq<ButtonEvent>,
    after: Seq<ButtonEvent>,
)
    ensures
        state_after(s, before + seq![press(ButtonTag::Exit)] + after) == state_after(
            s,
            before + after,
        ),
        clears_screen(before + seq![press(ButtonTag::Exit)] + after) == clears_screen(
            before + after,
        ),
        exit_presses(before + seq![press(ButtonTag::Exit)] + after) == exit_presses(
            before + after,
        ) + 1,
{
    let one = seq![press(ButtonTag::Exit)];
    let head = before + one;
    lemma_state_after_concat(s, head, after);
    lemma_state_after_concat(s, before, after);
    assert(head.drop_last() =~= before);
    assert(head.last() == press(ButtonTag::Exit));
    assert(!switches(press(ButtonTag::Exit)));
    lemma_clears_screen_concat(head, after);
    lemma_clears_screen_concat(before, one);
    lemma_clears_screen_concat(before, after);
    assert(one[0] == press(ButtonTag::Exit));
    assert(!clears_screen(one));
    lemma_exit_presses_concat(head, after);
    lemma_exit_presses_concat(before, one);
    lemma_exit_presses_concat(before, after);
    assert(one.drop_last() =~= Seq::<ButtonEvent>::empty());
    assert(is_exit_press(one.last()));
}

} // verus!
