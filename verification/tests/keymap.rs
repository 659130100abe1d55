use sonora::keymap::bindings;
use sonora::keymap::cmd;
use sonora::keymap::context_predicate;
use sonora::keymap::ctrl;
use sonora::keymap::ctrl_cmd;
use sonora::keymap::plain;
use sonora::keymap::shift_cmd;
use sonora::keymap::shift_ctrl;
use sonora::keymap::Action;
use sonora::keymap::BindingContext;
use sonora::keymap::ContextNames;
use sonora::keymap::Key;
use sonora::keymap::KeyBinding;
use sonora::keymap::Keystroke;
use sonora::keymap::SEARCH_CONTEXT;
use sonora::keymap::WORKSPACE_CONTEXT;

fn resolve(all: &[KeyBinding], keystroke: Keystroke, context: BindingContext) -> Option<Action> {
    all.iter()
        .rev()
        .find(|b| b.keystroke == keystroke && b.context == context)
        .map(|b| b.action)
}

fn names() -> ContextNames {
    ContextNames {
        input: "Input".to_string(),
        table: "Table".to_string(),
        form: "Form".to_string(),
        menu: "Menu".to_string(),
    }
}

#[test]
fn shared_set_sizes() {
    assert_eq!(bindings(false).len(), 76);
    assert_eq!(bindings(true).len(), 102);
}

#[test]
fn mac_set_comes_after_the_shared_one() {
    let mac = bindings(true);
    let shared = bindings(false);
    assert_eq!(&mac[..76], &shared[..]);
    assert_eq!(mac[76].keystroke, cmd(Key::W));
    assert_eq!(mac[76].action, Action::CloseWindow);
    assert_eq!(mac[101].keystroke, ctrl(Key::K));
    assert_eq!(mac[101].action, Action::DeleteToEnd);
    assert_eq!(mac[101].context, BindingContext::Editing);
}

#[test]
fn first_and_last_shared_bindings() {
    let shared = bindings(false);
    assert_eq!(
        shared[0],
        KeyBinding { keystroke: plain(Key::Down), action: Action::SelectNext, context: BindingContext::Table }
    );
    assert_eq!(
        shared[75],
        KeyBinding { keystroke: plain(Key::Escape), action: Action::Dismiss, context: BindingContext::Form }
    );
    assert_eq!(
        shared[41],
        KeyBinding { keystroke: plain(Key::F11), action: Action::ToggleFullscreen, context: BindingContext::Global }
    );
}

#[test]
fn mac_bindings_override_shared_ones() {
    let mac = bindings(true);
    let other = bindings(false);
    assert_eq!(resolve(&mac, ctrl(Key::A), BindingContext::Editing), Some(Action::Home));
    assert_eq!(resolve(&other, ctrl(Key::A), BindingContext::Editing), Some(Action::SelectAll));
    assert_eq!(resolve(&mac, ctrl(Key::F), BindingContext::Editing), Some(Action::Right));
    assert_eq!(resolve(&mac, ctrl(Key::F), BindingContext::Global), Some(Action::OpenFilter));
    assert_eq!(resolve(&other, cmd(Key::W), BindingContext::Global), None);
}

#[test]
fn global_shortcuts_have_cmd_and_ctrl() {
    let shared = bindings(false);
    for b in shared.iter().filter(|b| b.context == BindingContext::Global) {
        let twin = Keystroke { ctrl: b.keystroke.cmd, cmd: b.keystroke.ctrl, ..b.keystroke };
        assert!(shared.iter().any(|o| o.keystroke == twin && o.action == b.action && o.context == b.context));
    }
    assert_eq!(resolve(&shared, shift_cmd(Key::F), BindingContext::Global), Some(Action::OpenSearch));
    assert_eq!(resolve(&shared, shift_ctrl(Key::F), BindingContext::Global), Some(Action::OpenSearch));
}

#[test]
fn keystrokes_are_written_modifiers_first() {
    assert_eq!(shift_cmd(Key::F).text(), "shift-cmd-f");
    assert_eq!(ctrl_cmd(Key::Space).text(), "ctrl-cmd-space");
    assert_eq!(ctrl(Key::Comma).text(), "ctrl-,");
    assert_eq!(plain(Key::F11).text(), "f11");
    assert_eq!(cmd(Key::LeftBracket).text(), "cmd-[");
    assert_eq!(
        Keystroke { shift: true, ctrl: true, alt: true, cmd: true, key: Key::Delete }.text(),
        "shift-ctrl-alt-cmd-delete"
    );
}

#[test]
fn context_predicates() {
    let n = names();
    assert_eq!(context_predicate(BindingContext::Global, &n), None);
    assert_eq!(context_predicate(BindingContext::Editing, &n), Some("Input".to_string()));
    assert_eq!(context_predicate(BindingContext::Workspace, &n), Some(WORKSPACE_CONTEXT.to_string()));
    assert_eq!(context_predicate(BindingContext::Search, &n), Some(SEARCH_CONTEXT.to_string()));
    assert_eq!(
        context_predicate(BindingContext::AwayFromText, &n),
        Some("Workspace && !Input".to_string())
    );
    assert_eq!(
        context_predicate(BindingContext::Browsing, &n),
        Some("Workspace && !Input && !Menu && !Form && !Table && !Search".to_string())
    );
    assert_eq!(context_predicate(BindingContext::Results, &n), Some("Search && !Input".to_string()));
}
