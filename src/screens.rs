use vstd::prelude::*;

use crate::state::{AppState, ButtonTag};

verus! {

/// How far, in pixels, the credits title sits from the top left corner.
pub const TITLE_INSET: u32 = 40;

/// How far, in pixels, the other static texts sit from the top left corner.
pub const TEXT_INSET: u32 = 12;

/// The body of the credits screen.
pub const CREDITS_TEXT: &'static str = "\n
                     Design and direction - Jonatas Oliveira\n
                     Development - Jonatas Oliveira\n
                     Sound - Jonatas Oliveira\n
                     Game design - Jonatas Oliveira";

/// The shape of one element of a screen.
#[derive(Clone, Copy, Debug, PartialEq, Eq, Structural)]
pub enum ElementKind {
    /// A fixed-size square panel with its label centred in it.
    Button,
    /// Static text, moved down and right from its place by `inset` pixels.
    Label { inset: u32 },
}

/// One element of a screen. Every element carries a tag and belongs to the
/// screen that is displayed, so that it goes when the screen is torn down.
#[derive(Clone, Debug, PartialEq, Eq)]
pub struct Element {
    pub kind: ElementKind,
    pub text: String,
    pub tag: ButtonTag,
}

/// What an element is, with its text as a sequence of characters.
pub struct ElementModel {
    pub kind: ElementKind,
    pub text: Seq<char>,
    pub tag: ButtonTag,
}

impl View for Element {
    type V = ElementModel;

    open spec fn view(&self) -> ElementModel {
        ElementModel { kind: self.kind, text: self.text@, tag: self.tag }
    }
}

pub open spec fn button_model(text: Seq<char>, tag: ButtonTag) -> ElementModel {
    ElementModel { kind: ElementKind::Button, text, tag }
}

pub open spec fn label_model(text: Seq<char>, tag: ButtonTag, inset: u32) -> ElementModel {
    ElementModel { kind: ElementKind::Label { inset }, text, tag }
}

impl Element {
    /// A button that shows `text` and triggers `tag`.
    pub fn button(text: &str, tag: ButtonTag) -> (r: Element)
        ensures
            r@ == button_model(text@, tag),
    {
        Element { kind: ElementKind::Button, text: String::from_str(text), tag }
    }

    /// A static text, tagged with `tag`, moved by `inset` pixels.
    pub fn label(text: &str, tag: ButtonTag, inset: u32) -> (r: Element)
        ensures
            r@ == label_model(text@, tag, inset),
    {
        Element { kind: ElementKind::Label { inset }, text: String::from_str(text), tag }
    }
}

/// The elements of one screen, in the order they are laid out in a
/// full-screen column, centred.
#[derive(Clone, Debug, PartialEq, Eq)]
pub struct Screen {
    pub elements: Vec<Element>,
}

impl View for Screen {
    type V = Seq<ElementModel>;

    open spec fn view(&self) -> Seq<ElementModel> {
        self.elements@.map_values(|e: Element| e@)
    }
}

/// The main menu: the buttons "Start", "Credits" and "Exit".
pub open spec fn main_menu_model() -> Seq<ElementModel> {
    seq![
        button_model("Start"@, ButtonTag::Start),
        button_model("Credits"@, ButtonTag::Credits),
        button_model("Exit"@, ButtonTag::Exit),
    ]
}

/// The new-game screen: the text "Start Game", tagged `Start` as the menu
/// has always tagged it, and a "Voltar" button back to the main menu.
pub open spec fn new_screen_model() -> Seq<ElementModel> {
    seq![
        label_model("Start Game"@, ButtonTag::Start, TEXT_INSET),
        button_model("Voltar"@, ButtonTag::Main),
    ]
}

/// The credits screen: a title, a blank line and the credits, all tagged
/// `Main`, and a "Voltar" button back to the main menu.
pub open spec fn credits_model() -> Seq<ElementModel> {
    seq![
        label_model("Credits\n"@, ButtonTag::Main, TITLE_INSET),
        label_model("\n"@, ButtonTag::Main, TEXT_INSET),
        label_model(CREDITS_TEXT@, ButtonTag::Main, TEXT_INSET),
        button_model("Voltar"@, ButtonTag::Main),
    ]
}

/// The elements that make up the screen for `s`.
pub open spec fn screen_model(s: AppState) -> Seq<ElementModel> {
    match s {
        AppState::MainMenu => main_menu_model(),
        AppState::NewScreen => new_screen_model(),
        AppState::Credits => credits_model(),
    }
}

/// Describes the main menu.
pub fn setup_main_menu() -> (r: Screen)
    ensures
        r@ == main_menu_model(),
{
    let mut elements: Vec<Element> = Vec::new();
    elements.push(Element::button("Start", ButtonTag::Start));
    elements.push(Element::button("Credits", ButtonTag::Credits));
    elements.push(Element::button("Exit", ButtonTag::Exit));
    let r = Screen { elements };
    assert(r@ =~= main_menu_model());
    r
}

/// Describes the new-game screen.
pub fn setup_new_screen() -> (r: Screen)
    ensures
        r@ == new_screen_model(),
{
    let mut elements: Vec<Element> = Vec::new();
    elements.push(Element::label("Start Game", ButtonTag::Start, TEXT_INSET));
    elements.push(Element::button("Voltar", ButtonTag::Main));
    let r = Screen { elements };
    assert(r@ =~= new_screen_model());
    r
}

/// Describes the credits screen.
pub fn setup_credits_screen() -> (r: Screen)
    ensures
        r@ == credits_model(),
{
    let mut elements: Vec<Element> = Vec::new();
    elements.push(Element::label("Credits\n", ButtonTag::Main, TITLE_INSET));
    elements.push(Element::label("\n", ButtonTag::Main, TEXT_INSET));
    elements.push(Element::label(CREDITS_TEXT, ButtonTag::Main, TEXT_INSET));
    elements.push(Element::button("Voltar", ButtonTag::Main));
    let r = Screen { elements };
    assert(r@ =~= credits_model());
    r
}

/// Describes the screen for `s`.
pub fn screen_for(s: AppState) -> (r: Screen)
    ensures
        r@ == screen_model(s),
{
    match s {
        AppState::MainMenu => setup_main_menu(),
        AppState::NewScreen => setup_new_screen(),
        AppState::Credits => setup_credits_screen(),
    }
}

} // verus!
