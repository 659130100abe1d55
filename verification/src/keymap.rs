//! The app's key bindings: which keystroke triggers which action, and in
//! which part of the interface.

use vstd::prelude::*;
use vstd::string::*;

verus! {

/// A key, without its modifiers.
#[derive(Clone, Copy, PartialEq, Eq, Debug)]
pub enum Key {
    Down,
    Up,
    Left,
    Right,
    Enter,
    Escape,
    Delete,
    Backspace,
    Tab,
    Space,
    Home,
    End,
    F11,
    Comma,
    LeftBracket,
    RightBracket,
    A,
    B,
    C,
    D,
    E,
    F,
    H,
    K,
    M,
    Q,
    R,
    V,
    W,
    X,
}

/// A key together with the modifiers held down with it.
#[derive(Clone, Copy, PartialEq, Eq, Debug)]
pub struct Keystroke {
    pub shift: bool,
    pub ctrl: bool,
    pub alt: bool,
    pub cmd: bool,
    pub key: Key,
}

/// The name under which a key is written in a keystroke.
pub open spec fn key_name(key: Key) -> Seq<char> {
    match key {
        Key::Down => "down"@,
        Key::Up => "up"@,
        Key::Left => "left"@,
        Key::Right => "right"@,
        Key::Enter => "enter"@,
        Key::Escape => "escape"@,
        Key::Delete => "delete"@,
        Key::Backspace => "backspace"@,
        Key::Tab => "tab"@,
        Key::Space => "space"@,
        Key::Home => "home"@,
        Key::End => "end"@,
        Key::F11 => "f11"@,
        Key::Comma => ","@,
        Key::LeftBracket => "["@,
        Key::RightBracket => "]"@,
        Key::A => "a"@,
        Key::B => "b"@,
        Key::C => "c"@,
        Key::D => "d"@,
        Key::E => "e"@,
        Key::F => "f"@,
        Key::H => "h"@,
        Key::K => "k"@,
        Key::M => "m"@,
        Key::Q => "q"@,
        Key::R => "r"@,
        Key::V => "v"@,
        Key::W => "w"@,
        Key::X => "x"@,
    }
}

fn key_str(key: Key) -> (s: &'static str)
    ensures
        s@ == key_name(key),
{
    match key {
        Key::Down => "down",
        Key::Up => "up",
        Key::Left => "left",
        Key::Right => "right",
        Key::Enter => "enter",
        Key::Escape => "escape",
        Key::Delete => "delete",
        Key::Backspace => "backspace",
        Key::Tab => "tab",
        Key::Space => "space",
        Key::Home => "home",
        Key::End => "end",
        Key::F11 => "f11",
        Key::Comma => ",",
        Key::LeftBracket => "[",
        Key::RightBracket => "]",
        Key::A => "a",
        Key::B => "b",
        Key::C => "c",
        Key::D => "d",
        Key::E => "e",
        Key::F => "f",
        Key::H => "h",
        Key::K => "k",
        Key::M => "m",
        Key::Q => "q",
        Key::R => "r",
        Key::V => "v",
        Key::W => "w",
        Key::X => "x",
    }
}

/// `word` followed by a dash when `held`, else nothing.
pub open spec fn modifier_text(held: bool, word: Seq<char>) -> Seq<char> {
    if held {
        word + "-"@
    } else {
        Seq::empty()
    }
}

/// How a keystroke is written: its modifiers in the order shift, ctrl,
/// alt, cmd, each followed by a dash, then the key, as in `shift-cmd-f`.
pub open spec fn keystroke_text(k: Keystroke) -> Seq<char> {
    modifier_text(k.shift, "shift"@) + modifier_text(k.ctrl, "ctrl"@) + modifier_text(k.alt, "alt"@)
        + modifier_text(k.cmd, "cmd"@) + key_name(k.key)
}

impl Keystroke {
    /// The keystroke as it is written, as in `shift-cmd-f`.
    pub fn text(&self) -> (s: String)
        ensures
            s@ == keystroke_text(*self),
    {
        let mut s = String::new();
        if self.shift {
            s.append("shift-");
        }
        if self.ctrl {
            s.append("ctrl-");
        }
        if self.alt {
            s.append("alt-");
        }
        if self.cmd {
            s.append("cmd-");
        }
        s.append(key_str(self.key));
        proof {
            reveal_strlit("shift-");
            reveal_strlit("shift");
            reveal_strlit("ctrl-");
            reveal_strlit("ctrl");
            reveal_strlit("alt-");
            reveal_strlit("alt");
            reveal_strlit("cmd-");
            reveal_strlit("cmd");
            reveal_strlit("-");
        }
        assert(s@ =~= keystroke_text(*self));
        s
    }
}


/// The keystroke of `key` alone.
#[verifier::allow_in_spec]
pub fn plain(key: Key) -> Keystroke
    returns
        (Keystroke { shift: false, ctrl: false, alt: false, cmd: false, key }),
{
    Keystroke { shift: false, ctrl: false, alt: false, cmd: false, key }
}

/// `key` with shift.
#[verifier::allow_in_spec]
pub fn shift(key: Key) -> Keystroke
    returns
        (Keystroke { shift: true, ctrl: false, alt: false, cmd: false, key }),
{
    Keystroke { shift: true, ctrl: false, alt: false, cmd: false, key }
}

/// `key` with ctrl.
#[verifier::allow_in_spec]
pub fn ctrl(key: Key) -> Keystroke
    returns
        (Keystroke { shift: false, ctrl: true, alt: false, cmd: false, key }),
{
    Keystroke { shift: false, ctrl: true, alt: false, cmd: false, key }
}

/// `key` with alt.
#[verifier::allow_in_spec]
pub fn alt(key: Key) -> Keystroke
    returns
        (Keystroke { shift: false, ctrl: false, alt: true, cmd: false, key }),
{
    Keystroke { shift: false, ctrl: false, alt: true, cmd: false, key }
}

/// `key` with cmd.
#[verifier::allow_in_spec]
pub fn cmd(key: Key) -> Keystroke
    returns
        (Keystroke { shift: false, ctrl: false, alt: false, cmd: true, key }),
{
    Keystroke { shift: false, ctrl: false, alt: false, cmd: true, key }
}

/// `key` with shift and ctrl.
#[verifier::allow_in_spec]
pub fn shift_ctrl(key: Key) -> Keystroke
    returns
        (Keystroke { shift: true, ctrl: true, alt: false, cmd: false, key }),
{
    Keystroke { shift: true, ctrl: true, alt: false, cmd: false, key }
}

/// `key` with shift and alt.
#[verifier::allow_in_spec]
pub fn shift_alt(key: Key) -> Keystroke
    returns
        (Keystroke { shift: true, ctrl: false, alt: true, cmd: false, key }),
{
    Keystroke { shift: true, ctrl: false, alt: true, cmd: false, key }
}

/// `key` with shift and cmd.
#[verifier::allow_in_spec]
pub fn shift_cmd(key: Key) -> Keystroke
    returns
        (Keystroke { shift: true, ctrl: false, alt: false, cmd: true, key }),
{
    Keystroke { shift: true, ctrl: false, alt: false, cmd: true, key }
}

/// `key` with ctrl and cmd.
#[verifier::allow_in_spec]
pub fn ctrl_cmd(key: Key) -> Keystroke
    returns
        (Keystroke { shift: false, ctrl: true, alt: false, cmd: true, key }),
{
    Keystroke { shift: false, ctrl: true, alt: false, cmd: true, key }
}

/// `key` with alt and cmd.
#[verifier::allow_in_spec]
pub fn alt_cmd(key: Key) -> Keystroke
    returns
        (Keystroke { shift: false, ctrl: false, alt: true, cmd: true, key }),
{
    Keystroke { shift: false, ctrl: false, alt: true, cmd: true, key }
}


/// What a key binding triggers: the app's own actions and the interface's
/// list, form and text-field actions.
#[derive(Clone, Copy, PartialEq, Eq, Debug)]
pub enum Action {
    Quit,
    SignOut,
    RefreshLibrary,
    TogglePlayback,
    SongPrevious,
    SongNext,
    NavigateBack,
    NavigateForward,
    OpenFilter,
    OpenSearch,
    OpenSettings,
    ToggleFullscreen,
    ToggleQueue,
    ToggleLyrics,
    CloseWindow,
    MinimizeWindow,
    ZoomWindow,
    ToggleWindowFullscreen,
    Hide,
    HideOthers,
    ShowAll,
    Activate,
    Backspace,
    BackspaceToStart,
    BackspaceWord,
    Copy,
    Cut,
    Delete,
    DeleteToEnd,
    DeleteWord,
    Deselect,
    Dismiss,
    End,
    Home,
    Left,
    Paste,
    Remove,
    Right,
    SelectAll,
    SelectEnd,
    SelectHome,
    SelectLeft,
    SelectNext,
    SelectPrevious,
    SelectRight,
    SelectWordLeft,
    SelectWordRight,
    ShowCharacterPalette,
    Space,
    Submit,
    WordLeft,
    WordRight,
}

/// Where in the interface a binding applies.
#[derive(Clone, Copy, PartialEq, Eq, Debug)]
pub enum BindingContext {
    /// Everywhere.
    Global,
    /// In a text input.
    Editing,
    /// In a table.
    Table,
    /// In a form.
    Form,
    /// In a menu.
    Menu,
    /// In the search view.
    Search,
    /// Anywhere in the workspace.
    Workspace,
    /// In the workspace, outside text inputs.
    AwayFromText,
    /// In the workspace, outside inputs, menus, forms, tables and search.
    Browsing,
    /// In the search view, outside text inputs.
    Results,
}

/// One key binding: a keystroke, what it triggers, and where.
#[derive(Clone, Copy, PartialEq, Eq, Debug)]
pub struct KeyBinding {
    pub keystroke: Keystroke,
    pub action: Action,
    pub context: BindingContext,
}

/// Each keystroke and action of `pairs`, bound in `context`.
pub open spec fn in_context(context: BindingContext, pairs: Seq<(Keystroke, Action)>) -> Seq<
    KeyBinding,
> {
    pairs.map_values(|p: (Keystroke, Action)| KeyBinding { keystroke: p.0, action: p.1, context })
}

fn bindings_in(context: BindingContext, pairs: Vec<(Keystroke, Action)>) -> (all: Vec<KeyBinding>)
    ensures
        all@ == in_context(context, pairs@),
{
    let mut all: Vec<KeyBinding> = Vec::new();
    let mut i: usize = 0;
    while i < pairs.len()
        invariant
            i <= pairs@.len(),
            all@ == in_context(context, pairs@.take(i as int)),
        decreases pairs@.len() - i,
    {
        let (keystroke, action) = pairs[i];
        all.push(KeyBinding { keystroke, action, context });
        i += 1;
        assert(all@ =~= in_context(context, pairs@.take(i as int)));
    }
    assert(pairs@.take(i as int) =~= pairs@);
    all
}

/// The bindings every platform gets; both `cmd-` and `ctrl-` are registered
/// for each shortcut.
pub open spec fn shared_bindings() -> Seq<KeyBinding> {
    in_context(BindingContext::Table, seq![
        (plain(Key::Down), Action::SelectNext),
        (plain(Key::Up), Action::SelectPrevious),
        (shift(Key::Down), Action::SelectNext),
        (shift(Key::Up), Action::SelectPrevious),
        (plain(Key::Enter), Action::Activate),
        (plain(Key::Delete), Action::Remove),
        (plain(Key::Escape), Action::Deselect),
    ])
        + in_context(BindingContext::Browsing, seq![
        (plain(Key::Down), Action::SelectNext),
        (plain(Key::Up), Action::SelectPrevious),
        (shift(Key::Down), Action::SelectNext),
        (shift(Key::Up), Action::SelectPrevious),
        (plain(Key::Enter), Action::Activate),
        (plain(Key::Delete), Action::Remove),
        (plain(Key::Escape), Action::Deselect),
    ])
        + in_context(BindingContext::Search, seq![
        (plain(Key::Down), Action::SelectNext),
        (plain(Key::Up), Action::SelectPrevious),
    ])
        + in_context(BindingContext::Results, seq![
        (plain(Key::Left), Action::SelectLeft),
        (plain(Key::Right), Action::SelectRight),
        (plain(Key::Enter), Action::Activate),
        (plain(Key::Escape), Action::Deselect),
    ])
        + in_context(BindingContext::Menu, seq![
        (plain(Key::Down), Action::SelectNext),
        (plain(Key::Up), Action::SelectPrevious),
        (plain(Key::Tab), Action::SelectNext),
        (shift(Key::Tab), Action::SelectPrevious),
        (plain(Key::Enter), Action::Submit),
    ])
        + in_context(BindingContext::Global, seq![
        (alt(Key::Left), Action::NavigateBack),
        (alt(Key::Right), Action::NavigateForward),
        (cmd(Key::Q), Action::Quit),
        (ctrl(Key::Q), Action::Quit),
        (cmd(Key::R), Action::RefreshLibrary),
        (ctrl(Key::R), Action::RefreshLibrary),
        (cmd(Key::F), Action::OpenFilter),
        (ctrl(Key::F), Action::OpenFilter),
        (shift_cmd(Key::F), Action::OpenSearch),
        (shift_ctrl(Key::F), Action::OpenSearch),
        (ctrl(Key::Comma), Action::OpenSettings),
        (cmd(Key::Comma), Action::OpenSettings),
    ])
        + in_context(BindingContext::AwayFromText, seq![
        (plain(Key::Space), Action::TogglePlayback),
        (ctrl(Key::Left), Action::SongPrevious),
        (ctrl(Key::Right), Action::SongNext),
        (plain(Key::F), Action::ToggleFullscreen),
    ])
        + in_context(BindingContext::Global, seq![
        (plain(Key::F11), Action::ToggleFullscreen),
    ])
        + in_context(BindingContext::Workspace, seq![
        (plain(Key::Escape), Action::Dismiss),
    ])
        + in_context(BindingContext::Editing, seq![
        (plain(Key::Backspace), Action::Backspace),
        (ctrl(Key::Backspace), Action::BackspaceWord),
        (plain(Key::Delete), Action::Delete),
        (ctrl(Key::Delete), Action::DeleteWord),
        (plain(Key::Left), Action::Left),
        (plain(Key::Right), Action::Right),
        (ctrl(Key::Left), Action::WordLeft),
        (ctrl(Key::Right), Action::WordRight),
        (shift(Key::Left), Action::SelectLeft),
        (shift(Key::Right), Action::SelectRight),
        (shift_ctrl(Key::Left), Action::SelectWordLeft),
        (shift_ctrl(Key::Right), Action::SelectWordRight),
        (plain(Key::Home), Action::Home),
        (plain(Key::End), Action::End),
        (cmd(Key::Left), Action::Home),
        (cmd(Key::Right), Action::End),
        (shift(Key::Home), Action::SelectHome),
        (shift(Key::End), Action::SelectEnd),
        (shift_cmd(Key::Left), Action::SelectHome),
        (shift_cmd(Key::Right), Action::SelectEnd),
        (cmd(Key::A), Action::SelectAll),
        (ctrl(Key::A), Action::SelectAll),
        (cmd(Key::V), Action::Paste),
        (ctrl(Key::V), Action::Paste),
        (cmd(Key::C), Action::Copy),
        (ctrl(Key::C), Action::Copy),
        (cmd(Key::X), Action::Cut),
        (ctrl(Key::X), Action::Cut),
        (ctrl_cmd(Key::Space), Action::ShowCharacterPalette),
        (plain(Key::Space), Action::Space),
        (plain(Key::Escape), Action::Dismiss),
    ])
        + in_context(BindingContext::Form, seq![
        (plain(Key::Enter), Action::Submit),
        (plain(Key::Escape), Action::Dismiss),
    ])
}

/// What a Mac user expects on top of the shared set: the standard window and
/// application shortcuts, `cmd-[`/`cmd-]` history, and the Cocoa text-field
/// conventions, `alt` for words, `cmd` for the line and the Emacs control keys.
pub open spec fn macos_bindings() -> Seq<KeyBinding> {
    in_context(BindingContext::Global, seq![
        (cmd(Key::W), Action::CloseWindow),
        (cmd(Key::M), Action::MinimizeWindow),
        (ctrl_cmd(Key::F), Action::ToggleWindowFullscreen),
        (cmd(Key::H), Action::Hide),
        (alt_cmd(Key::H), Action::HideOthers),
        (cmd(Key::LeftBracket), Action::NavigateBack),
        (cmd(Key::RightBracket), Action::NavigateForward),
    ])
        + in_context(BindingContext::Editing, seq![
        (alt(Key::Left), Action::WordLeft),
        (alt(Key::Right), Action::WordRight),
        (shift_alt(Key::Left), Action::SelectWordLeft),
        (shift_alt(Key::Right), Action::SelectWordRight),
        (alt(Key::Backspace), Action::BackspaceWord),
        (alt(Key::Delete), Action::DeleteWord),
        (cmd(Key::Backspace), Action::BackspaceToStart),
        (cmd(Key::Delete), Action::DeleteToEnd),
        (cmd(Key::Up), Action::Home),
        (cmd(Key::Down), Action::End),
        (shift_cmd(Key::Up), Action::SelectHome),
        (shift_cmd(Key::Down), Action::SelectEnd),
        (ctrl(Key::A), Action::Home),
        (ctrl(Key::E), Action::End),
        (ctrl(Key::B), Action::Left),
        (ctrl(Key::F), Action::Right),
        (ctrl(Key::H), Action::Backspace),
        (ctrl(Key::D), Action::Delete),
        (ctrl(Key::K), Action::DeleteToEnd),
    ])
}

/// Builds the bindings every platform gets.
fn shared() -> (all: Vec<KeyBinding>)
    ensures
        all@ == shared_bindings(),
{
    let mut all = bindings_in(BindingContext::Table, vec![
        (plain(Key::Down), Action::SelectNext),
        (plain(Key::Up), Action::SelectPrevious),
        (shift(Key::Down), Action::SelectNext),
        (shift(Key::Up), Action::SelectPrevious),
        (plain(Key::Enter), Action::Activate),
        (plain(Key::Delete), Action::Remove),
        (plain(Key::Escape), Action::Deselect),
    ]);
    let mut more = bindings_in(BindingContext::Browsing, vec![
        (plain(Key::Down), Action::SelectNext),
        (plain(Key::Up), Action::SelectPrevious),
        (shift(Key::Down), Action::SelectNext),
        (shift(Key::Up), Action::SelectPrevious),
        (plain(Key::Enter), Action::Activate),
        (plain(Key::Delete), Action::Remove),
        (plain(Key::Escape), Action::Deselect),
    ]);
    all.append(&mut more);
    let mut more = bindings_in(BindingContext::Search, vec![
        (plain(Key::Down), Action::SelectNext),
        (plain(Key::Up), Action::SelectPrevious),
    ]);
    all.append(&mut more);
    let mut more = bindings_in(BindingContext::Results, vec![
        (plain(Key::Left), Action::SelectLeft),
        (plain(Key::Right), Action::SelectRight),
        (plain(Key::Enter), Action::Activate),
        (plain(Key::Escape), Action::Deselect),
    ]);
    all.append(&mut more);
    let mut more = bindings_in(BindingContext::Menu, vec![
        (plain(Key::Down), Action::SelectNext),
        (plain(Key::Up), Action::SelectPrevious),
        (plain(Key::Tab), Action::SelectNext),
        (shift(Key::Tab), Action::SelectPrevious),
        (plain(Key::Enter), Action::Submit),
    ]);
    all.append(&mut more);
    let mut more = bindings_in(BindingContext::Global, vec![
        (alt(Key::Left), Action::NavigateBack),
        (alt(Key::Right), Action::NavigateForward),
        (cmd(Key::Q), Action::Quit),
        (ctrl(Key::Q), Action::Quit),
        (cmd(Key::R), Action::RefreshLibrary),
        (ctrl(Key::R), Action::RefreshLibrary),
        (cmd(Key::F), Action::OpenFilter),
        (ctrl(Key::F), Action::OpenFilter),
        (shift_cmd(Key::F), Action::OpenSearch),
        (shift_ctrl(Key::F), Action::OpenSearch),
        (ctrl(Key::Comma), Action::OpenSettings),
        (cmd(Key::Comma), Action::OpenSettings),
    ]);
    all.append(&mut more);
    let mut more = bindings_in(BindingContext::AwayFromText, vec![
        (plain(Key::Space), Action::TogglePlayback),
        (ctrl(Key::Left), Action::SongPrevious),
        (ctrl(Key::Right), Action::SongNext),
        (plain(Key::F), Action::ToggleFullscreen),
    ]);
    all.append(&mut more);
    let mut more = bindings_in(BindingContext::Global, vec![
        (plain(Key::F11), Action::ToggleFullscreen),
    ]);
    all.append(&mut more);
    let mut more = bindings_in(BindingContext::Workspace, vec![
        (plain(Key::Escape), Action::Dismiss),
    ]);
    all.append(&mut more);
    let mut more = bindings_in(BindingContext::Editing, vec![
        (plain(Key::Backspace), Action::Backspace),
        (ctrl(Key::Backspace), Action::BackspaceWord),
        (plain(Key::Delete), Action::Delete),
        (ctrl(Key::Delete), Action::DeleteWord),
        (plain(Key::Left), Action::Left),
        (plain(Key::Right), Action::Right),
        (ctrl(Key::Left), Action::WordLeft),
        (ctrl(Key::Right), Action::WordRight),
        (shift(Key::Left), Action::SelectLeft),
        (shift(Key::Right), Action::SelectRight),
        (shift_ctrl(Key::Left), Action::SelectWordLeft),
        (shift_ctrl(Key::Right), Action::SelectWordRight),
        (plain(Key::Home), Action::Home),
        (plain(Key::End), Action::End),
        (cmd(Key::Left), Action::Home),
        (cmd(Key::Right), Action::End),
        (shift(Key::Home), Action::SelectHome),
        (shift(Key::End), Action::SelectEnd),
        (shift_cmd(Key::Left), Action::SelectHome),
        (shift_cmd(Key::Right), Action::SelectEnd),
        (cmd(Key::A), Action::SelectAll),
        (ctrl(Key::A), Action::SelectAll),
        (cmd(Key::V), Action::Paste),
        (ctrl(Key::V), Action::Paste),
        (cmd(Key::C), Action::Copy),
        (ctrl(Key::C), Action::Copy),
        (cmd(Key::X), Action::Cut),
        (ctrl(Key::X), Action::Cut),
        (ctrl_cmd(Key::Space), Action::ShowCharacterPalette),
        (plain(Key::Space), Action::Space),
        (plain(Key::Escape), Action::Dismiss),
    ]);
    all.append(&mut more);
    let mut more = bindings_in(BindingContext::Form, vec![
        (plain(Key::Enter), Action::Submit),
        (plain(Key::Escape), Action::Dismiss),
    ]);
    all.append(&mut more);
    all
}

/// Builds the bindings a Mac gets on top of the shared set.
fn macos() -> (all: Vec<KeyBinding>)
    ensures
        all@ == macos_bindings(),
{
    let mut all = bindings_in(BindingContext::Global, vec![
        (cmd(Key::W), Action::CloseWindow),
        (cmd(Key::M), Action::MinimizeWindow),
        (ctrl_cmd(Key::F), Action::ToggleWindowFullscreen),
        (cmd(Key::H), Action::Hide),
        (alt_cmd(Key::H), Action::HideOthers),
        (cmd(Key::LeftBracket), Action::NavigateBack),
        (cmd(Key::RightBracket), Action::NavigateForward),
    ]);
    let mut more = bindings_in(BindingContext::Editing, vec![
        (alt(Key::Left), Action::WordLeft),
        (alt(Key::Right), Action::WordRight),
        (shift_alt(Key::Left), Action::SelectWordLeft),
        (shift_alt(Key::Right), Action::SelectWordRight),
        (alt(Key::Backspace), Action::BackspaceWord),
        (alt(Key::Delete), Action::DeleteWord),
        (cmd(Key::Backspace), Action::BackspaceToStart),
        (cmd(Key::Delete), Action::DeleteToEnd),
        (cmd(Key::Up), Action::Home),
        (cmd(Key::Down), Action::End),
        (shift_cmd(Key::Up), Action::SelectHome),
        (shift_cmd(Key::Down), Action::SelectEnd),
        (ctrl(Key::A), Action::Home),
        (ctrl(Key::E), Action::End),
        (ctrl(Key::B), Action::Left),
        (ctrl(Key::F), Action::Right),
        (ctrl(Key::H), Action::Backspace),
        (ctrl(Key::D), Action::Delete),
        (ctrl(Key::K), Action::DeleteToEnd),
    ]);
    all.append(&mut more);
    all
}

/// Every key binding, in precedence order: the binding registered last wins
/// within the most specific matching context, so the macOS set, which comes
/// at the end on a Mac, overrides the shared one.
pub open spec fn all_bindings(on_macos: bool) -> Seq<KeyBinding> {
    if on_macos {
        shared_bindings() + macos_bindings()
    } else {
        shared_bindings()
    }
}

/// Every key binding for the platform, in precedence order (see
/// `all_bindings`).
pub fn bindings(on_macos: bool) -> (all: Vec<KeyBinding>)
    ensures
        all@ == all_bindings(on_macos),
{
    let mut all = shared();
    if on_macos {
        let mut more = macos();
        all.append(&mut more);
    }
    all
}


/// The action that `keystroke` triggers in `context` under `bindings`: that
/// of the last binding registered for it there, if any.
pub open spec fn resolve(bindings: Seq<KeyBinding>, keystroke: Keystroke, context: BindingContext) -> Option<
    Action,
>
    decreases bindings.len(),
{
    if bindings.len() == 0 {
        None
    } else if bindings.last().keystroke == keystroke && bindings.last().context == context {
        Some(bindings.last().action)
    } else {
        resolve(bindings.drop_last(), keystroke, context)
    }
}

/// Bindings registered later override earlier ones for the same keystroke
/// and context, and leave the others alone.
pub proof fn lemma_later_bindings_win(
    earlier: Seq<KeyBinding>,
    later: Seq<KeyBinding>,
    keystroke: Keystroke,
    context: BindingContext,
)
    ensures
        resolve(earlier + later, keystroke, context) == if resolve(later, keystroke, context) is Some {
            resolve(later, keystroke, context)
        } else {
            resolve(earlier, keystroke, context)
        },
    decreases later.len(),
{
    if later.len() == 0 {
        assert(earlier + later =~= earlier);
    } else {
        assert((earlier + later).drop_last() =~= earlier + later.drop_last());
        assert((earlier + later).last() == later.last());
        lemma_later_bindings_win(earlier, later.drop_last(), keystroke, context);
    }
}

/// On a Mac, a keystroke that the macOS set binds in a context triggers what
/// that set says; every other keystroke triggers what the shared set says,
/// which is all there is elsewhere.
pub proof fn lemma_macos_set_overrides_shared(keystroke: Keystroke, context: BindingContext)
    ensures
        resolve(all_bindings(true), keystroke, context) == if resolve(
            macos_bindings(),
            keystroke,
            context,
        ) is Some {
            resolve(macos_bindings(), keystroke, context)
        } else {
            resolve(shared_bindings(), keystroke, context)
        },
        resolve(all_bindings(false), keystroke, context) == resolve(
            shared_bindings(),
            keystroke,
            context,
        ),
{
    lemma_later_bindings_win(shared_bindings(), macos_bindings(), keystroke, context);
}


/// `k` with its `cmd` and `ctrl` modifiers swapped.
pub open spec fn swap_cmd_ctrl(k: Keystroke) -> Keystroke {
    Keystroke { shift: k.shift, ctrl: k.cmd, alt: k.alt, cmd: k.ctrl, key: k.key }
}

/// The binding that does what `b` does, with `cmd` and `ctrl` swapped.
pub open spec fn cmd_ctrl_twin(b: KeyBinding) -> KeyBinding {
    KeyBinding { keystroke: swap_cmd_ctrl(b.keystroke), action: b.action, context: b.context }
}

/// Every shortcut that applies everywhere is registered under both `cmd-`
/// and `ctrl-`: the shared set holds the twin of each of its global
/// bindings. (Text-input bindings are not all twinned: `cmd-left` goes to the
/// line's start, `ctrl-left` a word back.)
pub proof fn lemma_global_shortcuts_take_cmd_and_ctrl()
    ensures
        forall|i: int|
            0 <= i < shared_bindings().len() && (#[trigger] shared_bindings()[i]).context
                == BindingContext::Global ==> shared_bindings().contains(
                cmd_ctrl_twin(shared_bindings()[i]),
            ),
{
    let t = shared_bindings();
    assert(t.len() == 76);
    assert forall|i: int| 0 <= i < t.len() && (#[trigger] t[i]).context == BindingContext::Global implies t.contains(
        cmd_ctrl_twin(t[i]),
    ) by {
        if 25 <= i < 37 || i == 41 {
            if i == 25 {
                assert(t[25] == cmd_ctrl_twin(t[25]));
            } else if i == 26 {
                assert(t[26] == cmd_ctrl_twin(t[26]));
            } else if i == 27 {
                assert(t[28] == cmd_ctrl_twin(t[27]));
            } else if i == 28 {
                assert(t[27] == cmd_ctrl_twin(t[28]));
            } else if i == 29 {
                assert(t[30] == cmd_ctrl_twin(t[29]));
            } else if i == 30 {
                assert(t[29] == cmd_ctrl_twin(t[30]));
            } else if i == 31 {
                assert(t[32] == cmd_ctrl_twin(t[31]));
            } else if i == 32 {
                assert(t[31] == cmd_ctrl_twin(t[32]));
            } else if i == 33 {
                assert(t[34] == cmd_ctrl_twin(t[33]));
            } else if i == 34 {
                assert(t[33] == cmd_ctrl_twin(t[34]));
            } else if i == 35 {
                assert(t[36] == cmd_ctrl_twin(t[35]));
            } else if i == 36 {
                assert(t[35] == cmd_ctrl_twin(t[36]));
            } else if i == 41 {
                assert(t[41] == cmd_ctrl_twin(t[41]));
            }
        } else {
            assert(t[i].context != BindingContext::Global);
        }
    }
}


/// The context of the workspace as a whole.
pub const WORKSPACE_CONTEXT: &'static str = "Workspace";

/// The context of the search view.
pub const SEARCH_CONTEXT: &'static str = "Search";

/// The names under which the interface's widgets declare their contexts.
pub struct ContextNames {
    pub input: String,
    pub table: String,
    pub form: String,
    pub menu: String,
}

/// `base` required, `excluded` ruled out, as a context predicate.
pub open spec fn excluding(base: Seq<char>, excluded: Seq<char>) -> Seq<char> {
    base + " && !"@ + excluded
}

/// The context predicate that a binding in `context` is registered under,
/// with `input`, `table`, `form` and `menu` the widgets' context names; none
/// for a global binding.
pub open spec fn context_predicate_text(
    context: BindingContext,
    input: Seq<char>,
    table: Seq<char>,
    form: Seq<char>,
    menu: Seq<char>,
) -> Option<Seq<char>> {
    match context {
        BindingContext::Global => None,
        BindingContext::Editing => Some(input),
        BindingContext::Table => Some(table),
        BindingContext::Form => Some(form),
        BindingContext::Menu => Some(menu),
        BindingContext::Search => Some("Search"@),
        BindingContext::Workspace => Some("Workspace"@),
        BindingContext::AwayFromText => Some(excluding("Workspace"@, input)),
        BindingContext::Browsing => Some(
            excluding(
                excluding(excluding(excluding(excluding("Workspace"@, input), menu), form), table),
                "Search"@,
            ),
        ),
        BindingContext::Results => Some(excluding("Search"@, input)),
    }
}

fn append_excluding(text: &mut String, excluded: &str)
    ensures
        final(text)@ == excluding(old(text)@, excluded@),
{
    text.append(" && !");
    text.append(excluded);
}

/// The context predicate that bindings in `context` are registered under.
pub fn context_predicate(context: BindingContext, names: &ContextNames) -> (predicate: Option<
    String,
>)
    ensures
        predicate matches Some(p) ==> Some(p@) == context_predicate_text(
            context,
            names.input@,
            names.table@,
            names.form@,
            names.menu@,
        ),
        predicate is None <==> context_predicate_text(
            context,
            names.input@,
            names.table@,
            names.form@,
            names.menu@,
        ) is None,
{
    match context {
        BindingContext::Global => None,
        BindingContext::Editing => Some(names.input.clone()),
        BindingContext::Table => Some(names.table.clone()),
        BindingContext::Form => Some(names.form.clone()),
        BindingContext::Menu => Some(names.menu.clone()),
        BindingContext::Search => Some(String::from_str(SEARCH_CONTEXT)),
        BindingContext::Workspace => Some(String::from_str(WORKSPACE_CONTEXT)),
        BindingContext::AwayFromText => {
            let mut text = String::from_str(WORKSPACE_CONTEXT);
            append_excluding(&mut text, names.input.as_str());
            Some(text)
        },
        BindingContext::Browsing => {
            let mut text = String::from_str(WORKSPACE_CONTEXT);
            append_excluding(&mut text, names.input.as_str());
            append_excluding(&mut text, names.menu.as_str());
            append_excluding(&mut text, names.form.as_str());
            append_excluding(&mut text, names.table.as_str());
            append_excluding(&mut text, SEARCH_CONTEXT);
            Some(text)
        },
        BindingContext::Results => {
            let mut text = String::from_str(SEARCH_CONTEXT);
            append_excluding(&mut text, names.input.as_str());
            Some(text)
        },
    }
}


/// The bindings entry by entry, in the order they are registered: on a Mac
/// all 102 of them, elsewhere the first 76, which are the same on both.
#[verifier::rlimit(100)]
pub proof fn lemma_binding_table()
    ensures
        all_bindings(false).len() == 76,
        all_bindings(true).len() == 102,
        forall|i: int| 0 <= i < 76 ==> #[trigger] all_bindings(false)[i] == all_bindings(true)[i],
        all_bindings(true)[0] == (KeyBinding {
            keystroke: Keystroke { shift: false, ctrl: false, alt: false, cmd: false, key: Key::Down },
            action: Action::SelectNext,
            context: BindingContext::Table,
        }),
        all_bindings(true)[1] == (KeyBinding {
            keystroke: Keystroke { shift: false, ctrl: false, alt: false, cmd: false, key: Key::Up },
            action: Action::SelectPrevious,
            context: BindingContext::Table,
        }),
        all_bindings(true)[2] == (KeyBinding {
            keystroke: Keystroke { shift: true, ctrl: false, alt: false, cmd: false, key: Key::Down },
            action: Action::SelectNext,
            context: BindingContext::Table,
        }),
        all_bindings(true)[3] == (KeyBinding {
            keystroke: Keystroke { shift: true, ctrl: false, alt: false, cmd: false, key: Key::Up },
            action: Action::SelectPrevious,
            context: BindingContext::Table,
        }),
        all_bindings(true)[4] == (KeyBinding {
            keystroke: Keystroke { shift: false, ctrl: false, alt: false, cmd: false, key: Key::Enter },
            action: Action::Activate,
            context: BindingContext::Table,
        }),
        all_bindings(true)[5] == (KeyBinding {
            keystroke: Keystroke { shift: false, ctrl: false, alt: false, cmd: false, key: Key::Delete },
            action: Action::Remove,
            context: BindingContext::Table,
        }),
        all_bindings(true)[6] == (KeyBinding {
            keystroke: Keystroke { shift: false, ctrl: false, alt: false, cmd: false, key: Key::Escape },
            action: Action::Deselect,
            context: BindingContext::Table,
        }),
        all_bindings(true)[7] == (KeyBinding {
            keystroke: Keystroke { shift: false, ctrl: false, alt: false, cmd: false, key: Key::Down },
            action: Action::SelectNext,
            context: BindingContext::Browsing,
        }),
        all_bindings(true)[8] == (KeyBinding {
            keystroke: Keystroke { shift: false, ctrl: false, alt: false, cmd: false, key: Key::Up },
            action: Action::SelectPrevious,
            context: BindingContext::Browsing,
        }),
        all_bindings(true)[9] == (KeyBinding {
            keystroke: Keystroke { shift: true, ctrl: false, alt: false, cmd: false, key: Key::Down },
            action: Action::SelectNext,
            context: BindingContext::Browsing,
        }),
        all_bindings(true)[10] == (KeyBinding {
            keystroke: Keystroke { shift: true, ctrl: false, alt: false, cmd: false, key: Key::Up },
            action: Action::SelectPrevious,
            context: BindingContext::Browsing,
        }),
        all_bindings(true)[11] == (KeyBinding {
            keystroke: Keystroke { shift: false, ctrl: false, alt: false, cmd: false, key: Key::Enter },
            action: Action::Activate,
            context: BindingContext::Browsing,
        }),
        all_bindings(true)[12] == (KeyBinding {
            keystroke: Keystroke { shift: false, ctrl: false, alt: false, cmd: false, key: Key::Delete },
            action: Action::Remove,
            context: BindingContext::Browsing,
        }),
        all_bindings(true)[13] == (KeyBinding {
            keystroke: Keystroke { shift: false, ctrl: false, alt: false, cmd: false, key: Key::Escape },
            action: Action::Deselect,
            context: BindingContext::Browsing,
        }),
        all_bindings(true)[14] == (KeyBinding {
            keystroke: Keystroke { shift: false, ctrl: false, alt: false, cmd: false, key: Key::Down },
            action: Action::SelectNext,
            context: BindingContext::Search,
        }),
        all_bindings(true)[15] == (KeyBinding {
            keystroke: Keystroke { shift: false, ctrl: false, alt: false, cmd: false, key: Key::Up },
            action: Action::SelectPrevious,
            context: BindingContext::Search,
        }),
        all_bindings(true)[16] == (KeyBinding {
            keystroke: Keystroke { shift: false, ctrl: false, alt: false, cmd: false, key: Key::Left },
            action: Action::SelectLeft,
            context: BindingContext::Results,
        }),
        all_bindings(true)[17] == (KeyBinding {
            keystroke: Keystroke { shift: false, ctrl: false, alt: false, cmd: false, key: Key::Right },
            action: Action::SelectRight,
            context: BindingContext::Results,
        }),
        all_bindings(true)[18] == (KeyBinding {
            keystroke: Keystroke { shift: false, ctrl: false, alt: false, cmd: false, key: Key::Enter },
            action: Action::Activate,
            context: BindingContext::Results,
        }),
        all_bindings(true)[19] == (KeyBinding {
            keystroke: Keystroke { shift: false, ctrl: false, alt: false, cmd: false, key: Key::Escape },
            action: Action::Deselect,
            context: BindingContext::Results,
        }),
        all_bindings(true)[20] == (KeyBinding {
            keystroke: Keystroke { shift: false, ctrl: false, alt: false, cmd: false, key: Key::Down },
            action: Action::SelectNext,
            context: BindingContext::Menu,
        }),
        all_bindings(true)[21] == (KeyBinding {
            keystroke: Keystroke { shift: false, ctrl: false, alt: false, cmd: false, key: Key::Up },
            action: Action::SelectPrevious,
            context: BindingContext::Menu,
        }),
        all_bindings(true)[22] == (KeyBinding {
            keystroke: Keystroke { shift: false, ctrl: false, alt: false, cmd: false, key: Key::Tab },
            action: Action::SelectNext,
            context: BindingContext::Menu,
        }),
        all_bindings(true)[23] == (KeyBinding {
            keystroke: Keystroke { shift: true, ctrl: false, alt: false, cmd: false, key: Key::Tab },
            action: Action::SelectPrevious,
            context: BindingContext::Menu,
        }),
        all_bindings(true)[24] == (KeyBinding {
            keystroke: Keystroke { shift: false, ctrl: false, alt: false, cmd: false, key: Key::Enter },
            action: Action::Submit,
            context: BindingContext::Menu,
        }),
        all_bindings(true)[25] == (KeyBinding {
            keystroke: Keystroke { shift: false, ctrl: false, alt: true, cmd: false, key: Key::Left },
            action: Action::NavigateBack,
            context: BindingContext::Global,
        }),
        all_bindings(true)[26] == (KeyBinding {
            keystroke: Keystroke { shift: false, ctrl: false, alt: true, cmd: false, key: Key::Right },
            action: Action::NavigateForward,
            context: BindingContext::Global,
        }),
        all_bindings(true)[27] == (KeyBinding {
            keystroke: Keystroke { shift: false, ctrl: false, alt: false, cmd: true, key: Key::Q },
            action: Action::Quit,
            context: BindingContext::Global,
        }),
        all_bindings(true)[28] == (KeyBinding {
            keystroke: Keystroke { shift: false, ctrl: true, alt: false, cmd: false, key: Key::Q },
            action: Action::Quit,
            context: BindingContext::Global,
        }),
        all_bindings(true)[29] == (KeyBinding {
            keystroke: Keystroke { shift: false, ctrl: false, alt: false, cmd: true, key: Key::R },
            action: Action::RefreshLibrary,
            context: BindingContext::Global,
        }),
        all_bindings(true)[30] == (KeyBinding {
            keystroke: Keystroke { shift: false, ctrl: true, alt: false, cmd: false, key: Key::R },
            action: Action::RefreshLibrary,
            context: BindingContext::Global,
        }),
        all_bindings(true)[31] == (KeyBinding {
            keystroke: Keystroke { shift: false, ctrl: false, alt: false, cmd: true, key: Key::F },
            action: Action::OpenFilter,
            context: BindingContext::Global,
        }),
        all_bindings(true)[32] == (KeyBinding {
            keystroke: Keystroke { shift: false, ctrl: true, alt: false, cmd: false, key: Key::F },
            action: Action::OpenFilter,
            context: BindingContext::Global,
        }),
        all_bindings(true)[33] == (KeyBinding {
            keystroke: Keystroke { shift: true, ctrl: false, alt: false, cmd: true, key: Key::F },
            action: Action::OpenSearch,
            context: BindingContext::Global,
        }),
        all_bindings(true)[34] == (KeyBinding {
            keystroke: Keystroke { shift: true, ctrl: true, alt: false, cmd: false, key: Key::F },
            action: Action::OpenSearch,
            context: BindingContext::Global,
        }),
        all_bindings(true)[35] == (KeyBinding {
            keystroke: Keystroke { shift: false, ctrl: true, alt: false, cmd: false, key: Key::Comma },
            action: Action::OpenSettings,
            context: BindingContext::Global,
        }),
        all_bindings(true)[36] == (KeyBinding {
            keystroke: Keystroke { shift: false, ctrl: false, alt: false, cmd: true, key: Key::Comma },
            action: Action::OpenSettings,
            context: BindingContext::Global,
        }),
        all_bindings(true)[37] == (KeyBinding {
            keystroke: Keystroke { shift: false, ctrl: false, alt: false, cmd: false, key: Key::Space },
            action: Action::TogglePlayback,
            context: BindingContext::AwayFromText,
        }),
        all_bindings(true)[38] == (KeyBinding {
            keystroke: Keystroke { shift: false, ctrl: true, alt: false, cmd: false, key: Key::Left },
            action: Action::SongPrevious,
            context: BindingContext::AwayFromText,
        }),
        all_bindings(true)[39] == (KeyBinding {
            keystroke: Keystroke { shift: false, ctrl: true, alt: false, cmd: false, key: Key::Right },
            action: Action::SongNext,
            context: BindingContext::AwayFromText,
        }),
        all_bindings(true)[40] == (KeyBinding {
            keystroke: Keystroke { shift: false, ctrl: false, alt: false, cmd: false, key: Key::F },
            action: Action::ToggleFullscreen,
            context: BindingContext::AwayFromText,
        }),
        all_bindings(true)[41] == (KeyBinding {
            keystroke: Keystroke { shift: false, ctrl: false, alt: false, cmd: false, key: Key::F11 },
            action: Action::ToggleFullscreen,
            context: BindingContext::Global,
        }),
        all_bindings(true)[42] == (KeyBinding {
            keystroke: Keystroke { shift: false, ctrl: false, alt: false, cmd: false, key: Key::Escape },
            action: Action::Dismiss,
            context: BindingContext::Workspace,
        }),
        all_bindings(true)[43] == (KeyBinding {
            keystroke: Keystroke { shift: false, ctrl: false, alt: false, cmd: false, key: Key::Backspace },
            action: Action::Backspace,
            context: BindingContext::Editing,
        }),
        all_bindings(true)[44] == (KeyBinding {
            keystroke: Keystroke { shift: false, ctrl: true, alt: false, cmd: false, key: Key::Backspace },
            action: Action::BackspaceWord,
            context: BindingContext::Editing,
        }),
        all_bindings(true)[45] == (KeyBinding {
            keystroke: Keystroke { shift: false, ctrl: false, alt: false, cmd: false, key: Key::Delete },
            action: Action::Delete,
            context: BindingContext::Editing,
        }),
        all_bindings(true)[46] == (KeyBinding {
            keystroke: Keystroke { shift: false, ctrl: true, alt: false, cmd: false, key: Key::Delete },
            action: Action::DeleteWord,
            context: BindingContext::Editing,
        }),
        all_bindings(true)[47] == (KeyBinding {
            keystroke: Keystroke { shift: false, ctrl: false, alt: false, cmd: false, key: Key::Left },
            action: Action::Left,
            context: BindingContext::Editing,
        }),
        all_bindings(true)[48] == (KeyBinding {
            keystroke: Keystroke { shift: false, ctrl: false, alt: false, cmd: false, key: Key::Right },
            action: Action::Right,
            context: BindingContext::Editing,
        }),
        all_bindings(true)[49] == (KeyBinding {
            keystroke: Keystroke { shift: false, ctrl: true, alt: false, cmd: false, key: Key::Left },
            action: Action::WordLeft,
            context: BindingContext::Editing,
        }),
        all_bindings(true)[50] == (KeyBinding {
            keystroke: Keystroke { shift: false, ctrl: true, alt: false, cmd: false, key: Key::Right },
            action: Action::WordRight,
            context: BindingContext::Editing,
        }),
        all_bindings(true)[51] == (KeyBinding {
            keystroke: Keystroke { shift: true, ctrl: false, alt: false, cmd: false, key: Key::Left },
            action: Action::SelectLeft,
            context: BindingContext::Editing,
        }),
        all_bindings(true)[52] == (KeyBinding {
            keystroke: Keystroke { shift: true, ctrl: false, alt: false, cmd: false, key: Key::Right },
            action: Action::SelectRight,
            context: BindingContext::Editing,
        }),
        all_bindings(true)[53] == (KeyBinding {
            keystroke: Keystroke { shift: true, ctrl: true, alt: false, cmd: false, key: Key::Left },
            action: Action::SelectWordLeft,
            context: BindingContext::Editing,
        }),
        all_bindings(true)[54] == (KeyBinding {
            keystroke: Keystroke { shift: true, ctrl: true, alt: false, cmd: false, key: Key::Right },
            action: Action::SelectWordRight,
            context: BindingContext::Editing,
        }),
        all_bindings(true)[55] == (KeyBinding {
            keystroke: Keystroke { shift: false, ctrl: false, alt: false, cmd: false, key: Key::Home },
            action: Action::Home,
            context: BindingContext::Editing,
        }),
        all_bindings(true)[56] == (KeyBinding {
            keystroke: Keystroke { shift: false, ctrl: false, alt: false, cmd: false, key: Key::End },
            action: Action::End,
            context: BindingContext::Editing,
        }),
        all_bindings(true)[57] == (KeyBinding {
            keystroke: Keystroke { shift: false, ctrl: false, alt: false, cmd: true, key: Key::Left },
            action: Action::Home,
            context: BindingContext::Editing,
        }),
        all_bindings(true)[58] == (KeyBinding {
            keystroke: Keystroke { shift: false, ctrl: false, alt: false, cmd: true, key: Key::Right },
            action: Action::End,
            context: BindingContext::Editing,
        }),
        all_bindings(true)[59] == (KeyBinding {
            keystroke: Keystroke { shift: true, ctrl: false, alt: false, cmd: false, key: Key::Home },
            action: Action::SelectHome,
            context: BindingContext::Editing,
        }),
        all_bindings(true)[60] == (KeyBinding {
            keystroke: Keystroke { shift: true, ctrl: false, alt: false, cmd: false, key: Key::End },
            action: Action::SelectEnd,
            context: BindingContext::Editing,
        }),
        all_bindings(true)[61] == (KeyBinding {
            keystroke: Keystroke { shift: true, ctrl: false, alt: false, cmd: true, key: Key::Left },
            action: Action::SelectHome,
            context: BindingContext::Editing,
        }),
        all_bindings(true)[62] == (KeyBinding {
            keystroke: Keystroke { shift: true, ctrl: false, alt: false, cmd: true, key: Key::Right },
            action: Action::SelectEnd,
            context: BindingContext::Editing,
        }),
        all_bindings(true)[63] == (KeyBinding {
            keystroke: Keystroke { shift: false, ctrl: false, alt: false, cmd: true, key: Key::A },
            action: Action::SelectAll,
            context: BindingContext::Editing,
        }),
        all_bindings(true)[64] == (KeyBinding {
            keystroke: Keystroke { shift: false, ctrl: true, alt: false, cmd: false, key: Key::A },
            action: Action::SelectAll,
            context: BindingContext::Editing,
        }),
        all_bindings(true)[65] == (KeyBinding {
            keystroke: Keystroke { shift: false, ctrl: false, alt: false, cmd: true, key: Key::V },
            action: Action::Paste,
            context: BindingContext::Editing,
        }),
        all_bindings(true)[66] == (KeyBinding {
            keystroke: Keystroke { shift: false, ctrl: true, alt: false, cmd: false, key: Key::V },
            action: Action::Paste,
            context: BindingContext::Editing,
        }),
        all_bindings(true)[67] == (KeyBinding {
            keystroke: Keystroke { shift: false, ctrl: false, alt: false, cmd: true, key: Key::C },
            action: Action::Copy,
            context: BindingContext::Editing,
        }),
        all_bindings(true)[68] == (KeyBinding {
            keystroke: Keystroke { shift: false, ctrl: true, alt: false, cmd: false, key: Key::C },
            action: Action::Copy,
            context: BindingContext::Editing,
        }),
        all_bindings(true)[69] == (KeyBinding {
            keystroke: Keystroke { shift: false, ctrl: false, alt: false, cmd: true, key: Key::X },
            action: Action::Cut,
            context: BindingContext::Editing,
        }),
        all_bindings(true)[70] == (KeyBinding {
            keystroke: Keystroke { shift: false, ctrl: true, alt: false, cmd: false, key: Key::X },
            action: Action::Cut,
            context: BindingContext::Editing,
        }),
        all_bindings(true)[71] == (KeyBinding {
            keystroke: Keystroke { shift: false, ctrl: true, alt: false, cmd: true, key: Key::Space },
            action: Action::ShowCharacterPalette,
            context: BindingContext::Editing,
        }),
        all_bindings(true)[72] == (KeyBinding {
            keystroke: Keystroke { shift: false, ctrl: false, alt: false, cmd: false, key: Key::Space },
            action: Action::Space,
            context: BindingContext::Editing,
        }),
        all_bindings(true)[73] == (KeyBinding {
            keystroke: Keystroke { shift: false, ctrl: false, alt: false, cmd: false, key: Key::Escape },
            action: Action::Dismiss,
            context: BindingContext::Editing,
        }),
        all_bindings(true)[74] == (KeyBinding {
            keystroke: Keystroke { shift: false, ctrl: false, alt: false, cmd: false, key: Key::Enter },
            action: Action::Submit,
            context: BindingContext::Form,
        }),
        all_bindings(true)[75] == (KeyBinding {
            keystroke: Keystroke { shift: false, ctrl: false, alt: false, cmd: false, key: Key::Escape },
            action: Action::Dismiss,
            context: BindingContext::Form,
        }),
        all_bindings(true)[76] == (KeyBinding {
            keystroke: Keystroke { shift: false, ctrl: false, alt: false, cmd: true, key: Key::W },
            action: Action::CloseWindow,
            context: BindingContext::Global,
        }),
        all_bindings(true)[77] == (KeyBinding {
            keystroke: Keystroke { shift: false, ctrl: false, alt: false, cmd: true, key: Key::M },
            action: Action::MinimizeWindow,
            context: BindingContext::Global,
        }),
        all_bindings(true)[78] == (KeyBinding {
            keystroke: Keystroke { shift: false, ctrl: true, alt: false, cmd: true, key: Key::F },
            action: Action::ToggleWindowFullscreen,
            context: BindingContext::Global,
        }),
        all_bindings(true)[79] == (KeyBinding {
            keystroke: Keystroke { shift: false, ctrl: false, alt: false, cmd: true, key: Key::H },
            action: Action::Hide,
            context: BindingContext::Global,
        }),
        all_bindings(true)[80] == (KeyBinding {
            keystroke: Keystroke { shift: false, ctrl: false, alt: true, cmd: true, key: Key::H },
            action: Action::HideOthers,
            context: BindingContext::Global,
        }),
        all_bindings(true)[81] == (KeyBinding {
            keystroke: Keystroke { shift: false, ctrl: false, alt: false, cmd: true, key: Key::LeftBracket },
            action: Action::NavigateBack,
            context: BindingContext::Global,
        }),
        all_bindings(true)[82] == (KeyBinding {
            keystroke: Keystroke { shift: false, ctrl: false, alt: false, cmd: true, key: Key::RightBracket },
            action: Action::NavigateForward,
            context: BindingContext::Global,
        }),
        all_bindings(true)[83] == (KeyBinding {
            keystroke: Keystroke { shift: false, ctrl: false, alt: true, cmd: false, key: Key::Left },
            action: Action::WordLeft,
            context: BindingContext::Editing,
        }),
        all_bindings(true)[84] == (KeyBinding {
            keystroke: Keystroke { shift: false, ctrl: false, alt: true, cmd: false, key: Key::Right },
            action: Action::WordRight,
            context: BindingContext::Editing,
        }),
        all_bindings(true)[85] == (KeyBinding {
            keystroke: Keystroke { shift: true, ctrl: false, alt: true, cmd: false, key: Key::Left },
            action: Action::SelectWordLeft,
            context: BindingContext::Editing,
        }),
        all_bindings(true)[86] == (KeyBinding {
            keystroke: Keystroke { shift: true, ctrl: false, alt: true, cmd: false, key: Key::Right },
            action: Action::SelectWordRight,
            context: BindingContext::Editing,
        }),
        all_bindings(true)[87] == (KeyBinding {
            keystroke: Keystroke { shift: false, ctrl: false, alt: true, cmd: false, key: Key::Backspace },
            action: Action::BackspaceWord,
            context: BindingContext::Editing,
        }),
        all_bindings(true)[88] == (KeyBinding {
            keystroke: Keystroke { shift: false, ctrl: false, alt: true, cmd: false, key: Key::Delete },
            action: Action::DeleteWord,
            context: BindingContext::Editing,
        }),
        all_bindings(true)[89] == (KeyBinding {
            keystroke: Keystroke { shift: false, ctrl: false, alt: false, cmd: true, key: Key::Backspace },
            action: Action::BackspaceToStart,
            context: BindingContext::Editing,
        }),
        all_bindings(true)[90] == (KeyBinding {
            keystroke: Keystroke { shift: false, ctrl: false, alt: false, cmd: true, key: Key::Delete },
            action: Action::DeleteToEnd,
            context: BindingContext::Editing,
        }),
        all_bindings(true)[91] == (KeyBinding {
            keystroke: Keystroke { shift: false, ctrl: false, alt: false, cmd: true, key: Key::Up },
            action: Action::Home,
            context: BindingContext::Editing,
        }),
        all_bindings(true)[92] == (KeyBinding {
            keystroke: Keystroke { shift: false, ctrl: false, alt: false, cmd: true, key: Key::Down },
            action: Action::End,
            context: BindingContext::Editing,
        }),
        all_bindings(true)[93] == (KeyBinding {
            keystroke: Keystroke { shift: true, ctrl: false, alt: false, cmd: true, key: Key::Up },
            action: Action::SelectHome,
            context: BindingContext::Editing,
        }),
        all_bindings(true)[94] == (KeyBinding {
            keystroke: Keystroke { shift: true, ctrl: false, alt: false, cmd: true, key: Key::Down },
            action: Action::SelectEnd,
            context: BindingContext::Editing,
        }),
        all_bindings(true)[95] == (KeyBinding {
            keystroke: Keystroke { shift: false, ctrl: true, alt: false, cmd: false, key: Key::A },
            action: Action::Home,
            context: BindingContext::Editing,
        }),
        all_bindings(true)[96] == (KeyBinding {
            keystroke: Keystroke { shift: false, ctrl: true, alt: false, cmd: false, key: Key::E },
            action: Action::End,
            context: BindingContext::Editing,
        }),
        all_bindings(true)[97] == (KeyBinding {
            keystroke: Keystroke { shift: false, ctrl: true, alt: false, cmd: false, key: Key::B },
            action: Action::Left,
            context: BindingContext::Editing,
        }),
        all_bindings(true)[98] == (KeyBinding {
            keystroke: Keystroke { shift: false, ctrl: true, alt: false, cmd: false, key: Key::F },
            action: Action::Right,
            context: BindingContext::Editing,
        }),
        all_bindings(true)[99] == (KeyBinding {
            keystroke: Keystroke { shift: false, ctrl: true, alt: false, cmd: false, key: Key::H },
            action: Action::Backspace,
            context: BindingContext::Editing,
        }),
        all_bindings(true)[100] == (KeyBinding {
            keystroke: Keystroke { shift: false, ctrl: true, alt: false, cmd: false, key: Key::D },
            action: Action::Delete,
            context: BindingContext::Editing,
        }),
        all_bindings(true)[101] == (KeyBinding {
            keystroke: Keystroke { shift: false, ctrl: true, alt: false, cmd: false, key: Key::K },
            action: Action::DeleteToEnd,
            context: BindingContext::Editing,
        }),
{
    assert(shared_bindings().len() == 76);
    assert(macos_bindings().len() == 26);
}


/// In a text input, `c`, `x` and `v` with either `ctrl` or `cmd` copy, cut
/// and paste, on every platform: nothing registered later takes them over.
#[verifier::rlimit(50)]
pub proof fn lemma_clipboard_shortcuts(on_macos: bool)
    ensures
        resolve(all_bindings(on_macos), Keystroke { shift: false, ctrl: true, alt: false, cmd: false, key: Key::C }, BindingContext::Editing)
            == Some(Action::Copy),
        resolve(all_bindings(on_macos), Keystroke { shift: false, ctrl: false, alt: false, cmd: true, key: Key::C }, BindingContext::Editing)
            == Some(Action::Copy),
        resolve(all_bindings(on_macos), Keystroke { shift: false, ctrl: true, alt: false, cmd: false, key: Key::X }, BindingContext::Editing)
            == Some(Action::Cut),
        resolve(all_bindings(on_macos), Keystroke { shift: false, ctrl: false, alt: false, cmd: true, key: Key::X }, BindingContext::Editing)
            == Some(Action::Cut),
        resolve(all_bindings(on_macos), Keystroke { shift: false, ctrl: true, alt: false, cmd: false, key: Key::V }, BindingContext::Editing)
            == Some(Action::Paste),
        resolve(all_bindings(on_macos), Keystroke { shift: false, ctrl: false, alt: false, cmd: true, key: Key::V }, BindingContext::Editing)
            == Some(Action::Paste),
{
    reveal_with_fuel(resolve, 30);
    let shared = shared_bindings();
    let mac = macos_bindings();
    assert(shared.len() == 76);
    assert(mac.len() == 26);
    lemma_later_bindings_win(shared, mac, Keystroke { shift: false, ctrl: true, alt: false, cmd: false, key: Key::C }, BindingContext::Editing);
    lemma_later_bindings_win(shared, mac, Keystroke { shift: false, ctrl: false, alt: false, cmd: true, key: Key::C }, BindingContext::Editing);
    lemma_later_bindings_win(shared, mac, Keystroke { shift: false, ctrl: true, alt: false, cmd: false, key: Key::X }, BindingContext::Editing);
    lemma_later_bindings_win(shared, mac, Keystroke { shift: false, ctrl: false, alt: false, cmd: true, key: Key::X }, BindingContext::Editing);
    lemma_later_bindings_win(shared, mac, Keystroke { shift: false, ctrl: true, alt: false, cmd: false, key: Key::V }, BindingContext::Editing);
    lemma_later_bindings_win(shared, mac, Keystroke { shift: false, ctrl: false, alt: false, cmd: true, key: Key::V }, BindingContext::Editing);
}


/// Each widget's bindings are registered under that widget's own context
/// name; the workspace and search contexts under their own names; and the
/// narrowed contexts under their base context with the listed contexts ruled
/// out, each as ` && !` and the name.
pub proof fn lemma_context_predicates(
    input: Seq<char>,
    table: Seq<char>,
    form: Seq<char>,
    menu: Seq<char>,
)
    ensures
        context_predicate_text(BindingContext::Global, input, table, form, menu) is None,
        context_predicate_text(BindingContext::Editing, input, table, form, menu) == Some(input),
        context_predicate_text(BindingContext::Table, input, table, form, menu) == Some(table),
        context_predicate_text(BindingContext::Form, input, table, form, menu) == Some(form),
        context_predicate_text(BindingContext::Menu, input, table, form, menu) == Some(menu),
        context_predicate_text(BindingContext::Search, input, table, form, menu) == Some(
            "Search"@,
        ),
        context_predicate_text(BindingContext::Workspace, input, table, form, menu) == Some(
            "Workspace"@,
        ),
        context_predicate_text(BindingContext::AwayFromText, input, table, form, menu) == Some(
            "Workspace"@ + " && !"@ + input,
        ),
        context_predicate_text(BindingContext::Browsing, input, table, form, menu) == Some(
            "Workspace"@ + " && !"@ + input + " && !"@ + menu + " && !"@ + form + " && !"@ + table
                + " && !"@ + "Search"@,
        ),
        context_predicate_text(BindingContext::Results, input, table, form, menu) == Some(
            "Search"@ + " && !"@ + input,
        ),
{
}

/// The key whose name has length `len` and starts with `first`: no two key
/// names agree on both.
spec fn key_by_length_and_first(len: nat, first: char) -> Key {
    if len == 4 && first == 'd' {
        Key::Down
    } else if len == 2 && first == 'u' {
        Key::Up
    } else if len == 4 && first == 'l' {
        Key::Left
    } else if len == 5 && first == 'r' {
        Key::Right
    } else if len == 5 && first == 'e' {
        Key::Enter
    } else if len == 6 && first == 'e' {
        Key::Escape
    } else if len == 6 && first == 'd' {
        Key::Delete
    } else if len == 9 && first == 'b' {
        Key::Backspace
    } else if len == 3 && first == 't' {
        Key::Tab
    } else if len == 5 && first == 's' {
        Key::Space
    } else if len == 4 && first == 'h' {
        Key::Home
    } else if len == 3 && first == 'e' {
        Key::End
    } else if len == 3 && first == 'f' {
        Key::F11
    } else if len == 1 && first == ',' {
        Key::Comma
    } else if len == 1 && first == '[' {
        Key::LeftBracket
    } else if len == 1 && first == ']' {
        Key::RightBracket
    } else if len == 1 && first == 'a' {
        Key::A
    } else if len == 1 && first == 'b' {
        Key::B
    } else if len == 1 && first == 'c' {
        Key::C
    } else if len == 1 && first == 'd' {
        Key::D
    } else if len == 1 && first == 'e' {
        Key::E
    } else if len == 1 && first == 'f' {
        Key::F
    } else if len == 1 && first == 'h' {
        Key::H
    } else if len == 1 && first == 'k' {
        Key::K
    } else if len == 1 && first == 'm' {
        Key::M
    } else if len == 1 && first == 'q' {
        Key::Q
    } else if len == 1 && first == 'r' {
        Key::R
    } else if len == 1 && first == 'v' {
        Key::V
    } else if len == 1 && first == 'w' {
        Key::W
    } else {
        Key::X
    }
}

/// A key is found again from the length and first character of its name.
proof fn lemma_key_by_length_and_first(k: Key)
    ensures
        key_name(k).len() > 0,
        key_by_length_and_first(key_name(k).len(), key_name(k)[0]) == k,
{
    match k {
        Key::Down => {
            reveal_strlit("down");
        },
        Key::Up => {
            reveal_strlit("up");
        },
        Key::Left => {
            reveal_strlit("left");
        },
        Key::Right => {
            reveal_strlit("right");
        },
        Key::Enter => {
            reveal_strlit("enter");
        },
        Key::Escape => {
            reveal_strlit("escape");
        },
        Key::Delete => {
            reveal_strlit("delete");
        },
        Key::Backspace => {
            reveal_strlit("backspace");
        },
        Key::Tab => {
            reveal_strlit("tab");
        },
        Key::Space => {
            reveal_strlit("space");
        },
        Key::Home => {
            reveal_strlit("home");
        },
        Key::End => {
            reveal_strlit("end");
        },
        Key::F11 => {
            reveal_strlit("f11");
        },
        Key::Comma => {
            reveal_strlit(",");
        },
        Key::LeftBracket => {
            reveal_strlit("[");
        },
        Key::RightBracket => {
            reveal_strlit("]");
        },
        Key::A => {
            reveal_strlit("a");
        },
        Key::B => {
            reveal_strlit("b");
        },
        Key::C => {
            reveal_strlit("c");
        },
        Key::D => {
            reveal_strlit("d");
        },
        Key::E => {
            reveal_strlit("e");
        },
        Key::F => {
            reveal_strlit("f");
        },
        Key::H => {
            reveal_strlit("h");
        },
        Key::K => {
            reveal_strlit("k");
        },
        Key::M => {
            reveal_strlit("m");
        },
        Key::Q => {
            reveal_strlit("q");
        },
        Key::R => {
            reveal_strlit("r");
        },
        Key::V => {
            reveal_strlit("v");
        },
        Key::W => {
            reveal_strlit("w");
        },
        Key::X => {
            reveal_strlit("x");
        },
    }
}

/// Each key is written under its name in keystrokes, and no two keys share
/// a name.
pub proof fn lemma_key_names()
    ensures
        key_name(Key::Down) == "down"@,
        key_name(Key::Up) == "up"@,
        key_name(Key::Left) == "left"@,
        key_name(Key::Right) == "right"@,
        key_name(Key::Enter) == "enter"@,
        key_name(Key::Escape) == "escape"@,
        key_name(Key::Delete) == "delete"@,
        key_name(Key::Backspace) == "backspace"@,
        key_name(Key::Tab) == "tab"@,
        key_name(Key::Space) == "space"@,
        key_name(Key::Home) == "home"@,
        key_name(Key::End) == "end"@,
        key_name(Key::F11) == "f11"@,
        key_name(Key::Comma) == ","@,
        key_name(Key::LeftBracket) == "["@,
        key_name(Key::RightBracket) == "]"@,
        key_name(Key::A) == "a"@,
        key_name(Key::B) == "b"@,
        key_name(Key::C) == "c"@,
        key_name(Key::D) == "d"@,
        key_name(Key::E) == "e"@,
        key_name(Key::F) == "f"@,
        key_name(Key::H) == "h"@,
        key_name(Key::K) == "k"@,
        key_name(Key::M) == "m"@,
        key_name(Key::Q) == "q"@,
        key_name(Key::R) == "r"@,
        key_name(Key::V) == "v"@,
        key_name(Key::W) == "w"@,
        key_name(Key::X) == "x"@,
        forall|a: Key, b: Key| #[trigger] key_name(a) == #[trigger] key_name(b) ==> a == b,
{
    assert forall|k: Key|
        key_by_length_and_first(key_name(k).len(), #[trigger] key_name(k)[0]) == k by {
        lemma_key_by_length_and_first(k);
    }
    assert forall|a: Key, b: Key| #[trigger] key_name(a) == #[trigger] key_name(b) implies a == b by {
        assert(key_name(a)[0] == key_name(b)[0]);
    }
}


/// Key names are not empty and hold no dash.
proof fn lemma_key_names_have_no_dash(key: Key)
    ensures
        key_name(key).len() > 0,
        forall|i: int| 0 <= i < key_name(key).len() ==> key_name(key)[i] != '-',
{
    match key {
        Key::Down => {
            reveal_strlit("down");
        },
        Key::Up => {
            reveal_strlit("up");
        },
        Key::Left => {
            reveal_strlit("left");
        },
        Key::Right => {
            reveal_strlit("right");
        },
        Key::Enter => {
            reveal_strlit("enter");
        },
        Key::Escape => {
            reveal_strlit("escape");
        },
        Key::Delete => {
            reveal_strlit("delete");
        },
        Key::Backspace => {
            reveal_strlit("backspace");
        },
        Key::Tab => {
            reveal_strlit("tab");
        },
        Key::Space => {
            reveal_strlit("space");
        },
        Key::Home => {
            reveal_strlit("home");
        },
        Key::End => {
            reveal_strlit("end");
        },
        Key::F11 => {
            reveal_strlit("f11");
        },
        Key::Comma => {
            reveal_strlit(",");
        },
        Key::LeftBracket => {
            reveal_strlit("[");
        },
        Key::RightBracket => {
            reveal_strlit("]");
        },
        Key::A => {
            reveal_strlit("a");
        },
        Key::B => {
            reveal_strlit("b");
        },
        Key::C => {
            reveal_strlit("c");
        },
        Key::D => {
            reveal_strlit("d");
        },
        Key::E => {
            reveal_strlit("e");
        },
        Key::F => {
            reveal_strlit("f");
        },
        Key::H => {
            reveal_strlit("h");
        },
        Key::K => {
            reveal_strlit("k");
        },
        Key::M => {
            reveal_strlit("m");
        },
        Key::Q => {
            reveal_strlit("q");
        },
        Key::R => {
            reveal_strlit("r");
        },
        Key::V => {
            reveal_strlit("v");
        },
        Key::W => {
            reveal_strlit("w");
        },
        Key::X => {
            reveal_strlit("x");
        },
    }
}

/// `p` is no prefix of `t` when they differ at `i`, or `t` ends before it.
proof fn lemma_not_prefix(p: Seq<char>, t: Seq<char>, i: int)
    requires
        0 <= i < p.len(),
        i >= t.len() || t[i] != p[i],
    ensures
        !p.is_prefix_of(t),
{
    if p.is_prefix_of(t) {
        assert(t.subrange(0, p.len() as int)[i] == t[i]);
    }
}

/// `t` with the modifier `word` and its dash taken off its front, where it
/// starts with them.
spec fn strip_modifier(t: Seq<char>, word: Seq<char>) -> (bool, Seq<char>) {
    if (word + "-"@).is_prefix_of(t) {
        (true, t.skip(word.len() as int + 1))
    } else {
        (false, t)
    }
}

/// The keystroke that the text `t` writes.
spec fn read_keystroke(t: Seq<char>) -> Keystroke {
    let (shift, t1) = strip_modifier(t, "shift"@);
    let (ctrl, t2) = strip_modifier(t1, "ctrl"@);
    let (alt, t3) = strip_modifier(t2, "alt"@);
    let (cmd, t4) = strip_modifier(t3, "cmd"@);
    Keystroke { shift, ctrl, alt, cmd, key: key_by_length_and_first(t4.len(), t4[0]) }
}

/// Taking `word` off `modifier_text(held, word) + rest` gives back `held`
/// and `rest`, when `rest` does not itself start with `word` and a dash.
proof fn lemma_strip_modifier(held: bool, word: Seq<char>, rest: Seq<char>)
    requires
        !(word + "-"@).is_prefix_of(rest),
    ensures
        strip_modifier(modifier_text(held, word) + rest, word) == (held, rest),
{
    reveal_strlit("-");
    if held {
        let t = word + "-"@ + rest;
        assert(t.subrange(0, word.len() as int + 1) =~= word + "-"@);
        assert(t.skip(word.len() as int + 1) =~= rest);
    } else {
        assert(Seq::<char>::empty() + rest =~= rest);
    }
}

/// No two keystrokes are written the same way: the text gives back the
/// modifiers and the key.
pub proof fn lemma_keystroke_text_is_injective()
    ensures
        forall|a: Keystroke, b: Keystroke|
            #[trigger] keystroke_text(a) == #[trigger] keystroke_text(b) ==> a == b,
{
    assert forall|k: Keystroke| read_keystroke(#[trigger] keystroke_text(k)) == k by {
        lemma_reading_a_keystroke(k);
    }
    assert forall|a: Keystroke, b: Keystroke|
        #[trigger] keystroke_text(a) == #[trigger] keystroke_text(b) implies a == b by {
        assert(read_keystroke(keystroke_text(a)) == read_keystroke(keystroke_text(b)));
    }
}

proof fn lemma_reading_a_keystroke(k: Keystroke)
    ensures
        read_keystroke(keystroke_text(k)) == k,
{
    reveal_strlit("shift");
    reveal_strlit("ctrl");
    reveal_strlit("alt");
    reveal_strlit("cmd");
    reveal_strlit("-");
    let name = key_name(k.key);
    lemma_key_names_have_no_dash(k.key);
    let shift = "shift"@ + "-"@;
    let ctrl = "ctrl"@ + "-"@;
    let alt = "alt"@ + "-"@;
    let cmd = "cmd"@ + "-"@;
    let m1 = modifier_text(k.shift, "shift"@);
    let m2 = modifier_text(k.ctrl, "ctrl"@);
    let m3 = modifier_text(k.alt, "alt"@);
    let m4 = modifier_text(k.cmd, "cmd"@);
    let t3 = m4 + name;
    let t2 = m3 + t3;
    let t1 = m2 + t2;
    assert(keystroke_text(k) =~= m1 + t1);
    // `name` starts with no modifier.
    if name.len() > 3 {
        assert(name[3] != '-');
    }
    lemma_not_prefix(cmd, name, 3);
    // `t3` does not start with `alt-`.
    if k.cmd {
        assert(t3[0] == 'c');
        lemma_not_prefix(alt, t3, 0);
    } else {
        assert(t3 =~= name);
        lemma_not_prefix(alt, t3, 3);
    }
    // `t2` does not start with `ctrl-`.
    if k.alt {
        assert(t2[0] == 'a');
        lemma_not_prefix(ctrl, t2, 0);
    } else if k.cmd {
        assert(t2[1] == 'm');
        lemma_not_prefix(ctrl, t2, 1);
    } else {
        assert(t2 =~= name);
        if name.len() > 4 {
            assert(name[4] != '-');
        }
        lemma_not_prefix(ctrl, t2, 4);
    }
    // `t1` does not start with `shift-`.
    if k.ctrl {
        assert(t1[0] == 'c');
        lemma_not_prefix(shift, t1, 0);
    } else if k.alt {
        assert(t1[0] == 'a');
        lemma_not_prefix(shift, t1, 0);
    } else if k.cmd {
        assert(t1[0] == 'c');
        lemma_not_prefix(shift, t1, 0);
    } else {
        assert(t1 =~= name);
        if name.len() > 5 {
            assert(name[5] != '-');
        }
        lemma_not_prefix(shift, t1, 5);
    }
    lemma_strip_modifier(k.shift, "shift"@, t1);
    lemma_strip_modifier(k.ctrl, "ctrl"@, t2);
    lemma_strip_modifier(k.alt, "alt"@, t3);
    lemma_strip_modifier(k.cmd, "cmd"@, name);
    lemma_key_by_length_and_first(k.key);
}

} // verus!
