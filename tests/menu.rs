use game_menu::state::press_target;
use game_menu::{
    screen_for, setup_credits_screen, setup_main_menu, setup_new_screen, state_system, AppState,
    ButtonEvent, ButtonTag, Element, ElementKind, Interaction,
};

fn press(tag: ButtonTag) -> ButtonEvent {
    ButtonEvent { interaction: Interaction::Pressed, tag }
}

fn hover(tag: ButtonTag) -> ButtonEvent {
    ButtonEvent { interaction: Interaction::Hovered, tag }
}

fn idle(tag: ButtonTag) -> ButtonEvent {
    ButtonEvent { interaction: Interaction::Idle, tag }
}

fn texts(elements: &[Element]) -> Vec<&str> {
    elements.iter().map(|e| e.text.as_str()).collect()
}

#[test]
fn starts_on_main_menu() {
    assert_eq!(AppState::default(), AppState::MainMenu);
}

#[test]
fn press_targets() {
    assert_eq!(press_target(ButtonTag::Start), Some(AppState::NewScreen));
    assert_eq!(press_target(ButtonTag::Credits), Some(AppState::Credits));
    assert_eq!(press_target(ButtonTag::Main), Some(AppState::MainMenu));
    assert_eq!(press_target(ButtonTag::Exit), None);
}

#[test]
fn main_menu_start_goes_to_new_screen() {
    let mut state = AppState::MainMenu;
    let actions = state_system(&mut state, &vec![press(ButtonTag::Start)]);
    assert_eq!(state, AppState::NewScreen);
    assert!(actions.clear_menu);
    assert_eq!(actions.exit_requests, 0);
    assert_eq!(actions.screen, setup_new_screen());
    assert_ne!(actions.screen, setup_main_menu());
}

#[test]
fn new_screen_back_goes_to_main_menu() {
    let mut state = AppState::NewScreen;
    let back = setup_new_screen().elements[1].clone();
    assert_eq!(back.text, "Voltar");
    let actions = state_system(&mut state, &vec![press(back.tag)]);
    assert_eq!(state, AppState::MainMenu);
    assert!(actions.clear_menu);
    assert_eq!(actions.screen, setup_main_menu());
}

#[test]
fn credits_and_back() {
    let mut state = AppState::MainMenu;
    let first = state_system(&mut state, &vec![press(ButtonTag::Credits)]);
    assert_eq!(state, AppState::Credits);
    assert!(first.clear_menu);
    assert_eq!(first.screen, setup_credits_screen());
    let second = state_system(&mut state, &vec![press(ButtonTag::Main)]);
    assert_eq!(state, AppState::MainMenu);
    assert!(second.clear_menu);
    assert_eq!(second.screen, setup_main_menu());
}

#[test]
fn exit_from_every_state() {
    for start in [AppState::MainMenu, AppState::NewScreen, AppState::Credits] {
        let mut state = start;
        let actions = state_system(&mut state, &vec![press(ButtonTag::Exit)]);
        assert_eq!(state, start);
        assert_eq!(actions.exit_requests, 1);
        assert!(!actions.clear_menu);
        assert_eq!(actions.screen, screen_for(start));
    }
}

#[test]
fn exit_among_other_events_adds_one_request() {
    let mut with_exit = AppState::Credits;
    let a = state_system(
        &mut with_exit,
        &vec![hover(ButtonTag::Start), press(ButtonTag::Exit), idle(ButtonTag::Main)],
    );
    let mut without = AppState::Credits;
    let b = state_system(&mut without, &vec![hover(ButtonTag::Start), idle(ButtonTag::Main)]);
    assert_eq!(with_exit, without);
    assert_eq!(a.exit_requests, b.exit_requests + 1);
    assert_eq!(a.clear_menu, b.clear_menu);
}

#[test]
fn two_exit_presses_send_two_requests() {
    let mut state = AppState::MainMenu;
    let actions = state_system(&mut state, &vec![press(ButtonTag::Exit), press(ButtonTag::Exit)]);
    assert_eq!(actions.exit_requests, 2);
    assert_eq!(state, AppState::MainMenu);
}

#[test]
fn frame_without_press_rebuilds_same_screen() {
    for start in [AppState::MainMenu, AppState::NewScreen, AppState::Credits] {
        let mut state = start;
        let events = vec![hover(ButtonTag::Start), idle(ButtonTag::Credits), hover(ButtonTag::Main)];
        let first = state_system(&mut state, &events);
        let second = state_system(&mut state, &events);
        assert_eq!(state, start);
        assert!(!first.clear_menu);
        assert_eq!(first.exit_requests, 0);
        assert_eq!(first.screen, second.screen);
        assert_eq!(first.screen, screen_for(start));
    }
}

#[test]
fn empty_frame_keeps_state() {
    let mut state = AppState::NewScreen;
    let actions = state_system(&mut state, &Vec::new());
    assert_eq!(state, AppState::NewScreen);
    assert!(!actions.clear_menu);
    assert_eq!(actions.exit_requests, 0);
    assert_eq!(actions.screen, setup_new_screen());
}

#[test]
fn last_switching_press_wins() {
    let mut state = AppState::MainMenu;
    let actions = state_system(
        &mut state,
        &vec![press(ButtonTag::Credits), press(ButtonTag::Start), press(ButtonTag::Exit)],
    );
    assert_eq!(state, AppState::NewScreen);
    assert!(actions.clear_menu);
    assert_eq!(actions.exit_requests, 1);
}

#[test]
fn start_game_text_reenters_new_screen() {
    let mut state = AppState::NewScreen;
    let label = setup_new_screen().elements[0].clone();
    let actions = state_system(&mut state, &vec![press(label.tag)]);
    assert_eq!(state, AppState::NewScreen);
    assert!(actions.clear_menu);
}

#[test]
fn main_menu_layout() {
    let screen = setup_main_menu();
    assert_eq!(texts(&screen.elements), vec!["Start", "Credits", "Exit"]);
    let tags: Vec<ButtonTag> = screen.elements.iter().map(|e| e.tag).collect();
    assert_eq!(tags, vec![ButtonTag::Start, ButtonTag::Credits, ButtonTag::Exit]);
    assert!(screen.elements.iter().all(|e| e.kind == ElementKind::Button));
    assert_eq!(setup_main_menu(), setup_main_menu());
}

#[test]
fn new_screen_layout() {
    let screen = setup_new_screen();
    assert_eq!(screen.elements.len(), 2);
    assert_eq!(screen.elements[0].text, "Start Game");
    assert_eq!(screen.elements[0].tag, ButtonTag::Start);
    assert_eq!(screen.elements[0].kind, ElementKind::Label { inset: 12 });
    assert_eq!(screen.elements[1].text, "Voltar");
    assert_eq!(screen.elements[1].tag, ButtonTag::Main);
    assert_eq!(screen.elements[1].kind, ElementKind::Button);
}

#[test]
fn credits_layout() {
    let screen = setup_credits_screen();
    assert_eq!(screen.elements.len(), 4);
    assert_eq!(screen.elements[0].text, "Credits\n");
    assert_eq!(screen.elements[0].kind, ElementKind::Label { inset: 40 });
    assert_eq!(screen.elements[1].text, "\n");
    assert_eq!(screen.elements[1].kind, ElementKind::Label { inset: 12 });
    let body = &screen.elements[2].text;
    assert!(body.starts_with("\n\n"));
    assert!(body.contains("Design and direction - Jonatas Oliveira\n"));
    assert!(body.ends_with("Game design - Jonatas Oliveira"));
    assert_eq!(screen.elements[2].kind, ElementKind::Label { inset: 12 });
    assert_eq!(screen.elements[3].text, "Voltar");
    assert_eq!(screen.elements[3].kind, ElementKind::Button);
    assert!(screen.elements.iter().all(|e| e.tag == ButtonTag::Main));
}

#[test]
fn screen_for_each_state() {
    assert_eq!(screen_for(AppState::MainMenu), setup_main_menu());
    assert_eq!(screen_for(AppState::NewScreen), setup_new_screen());
    assert_eq!(screen_for(AppState::Credits), setup_credits_screen());
}
