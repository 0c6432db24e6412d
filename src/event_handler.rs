//! Turning one key press into state changes and, at most, the first call of a
//! cascade.
//!
//! Legality is decided mode first, then focus, then key: quitting is checked
//! before anything pane-local (except while a name is typed), then the
//! direct-focus hotkeys, then Tab, then the focused pane.
use vstd::prelude::*;
use vstd::string::StringExecFns;

use crate::app::{
    next_index, previous_index, schema_previous_index, schema_selected_line, scrolled_down,
    scrolled_up, App, AppFocus, DropdownFocus, InputMode, LOG_HEIGHT,
};
use crate::cascade::{
    begin_selection_cascade, components_request_line, request_components, Request, Step,
};
use crate::text::{
    all_white_space, is_trim_of, join3, lemma_trim_empty, pop_char, push_char, trimmed,
};

verus! {

/// The key that was pressed.
#[derive(Debug, Clone, Copy, PartialEq, Eq, Structural)]
pub enum KeyCode {
    Char(char),
    Tab,
    Enter,
    Esc,
    Up,
    Down,
    Left,
    Right,
    Backspace,
    Other,
}

/// A key press: the key, and whether Alt (alone) was held.
#[derive(Debug, Clone, Copy, PartialEq, Eq, Structural)]
pub struct KeyEvent {
    pub code: KeyCode,
    pub alt: bool,
}

/// The focus state machine's state: the mode, the focused pane, the
/// highlighted top-bar trigger and whether the change-set dropdown is open.
pub struct FocusState {
    pub mode: InputMode,
    pub focus: AppFocus,
    pub sub: DropdownFocus,
    pub dropdown_open: bool,
}

/// The focus state of a session.
pub open spec fn focus_state(a: App) -> FocusState {
    FocusState {
        mode: a.input_mode,
        focus: a.current_focus,
        sub: a.dropdown_focus,
        dropdown_open: a.changeset_dropdown_active,
    }
}

/// The pane that Tab moves to.
pub open spec fn tab_target(f: AppFocus) -> AppFocus {
    match f {
        AppFocus::TopBar => AppFocus::SchemaList,
        AppFocus::SchemaList => AppFocus::ContentArea,
        AppFocus::ContentArea => AppFocus::LogPanel,
        _ => AppFocus::TopBar,
    }
}

/// Alt together with one of the direct-focus letters.
pub open spec fn is_hotkey(key: KeyEvent) -> bool {
    &&& key.alt
    &&& (key.code == KeyCode::Char('w') || key.code == KeyCode::Char('c') || key.code
        == KeyCode::Char('s') || key.code == KeyCode::Char('l'))
}

/// The key reaches the focused pane: normal mode, and neither quit, nor a
/// hotkey, nor a Tab that cycles the panes.
pub open spec fn reaches_pane(s: FocusState, key: KeyEvent) -> bool {
    &&& s.mode == InputMode::Normal
    &&& key.code != KeyCode::Char('q')
    &&& !is_hotkey(key)
    &&& !(key.code == KeyCode::Tab && !s.dropdown_open)
}

/// The top bar, dropdown closed, gets the key.
pub open spec fn top_bar_key(s: FocusState, key: KeyEvent) -> bool {
    reaches_pane(s, key) && s.focus == AppFocus::TopBar && !s.dropdown_open
}

/// The key activates the change-set trigger of the top bar.
pub open spec fn activates_change_set_trigger(s: FocusState, key: KeyEvent) -> bool {
    &&& top_bar_key(s, key)
    &&& (key.code == KeyCode::Char(' ') || key.code == KeyCode::Enter)
    &&& s.sub == DropdownFocus::ChangeSet
}

/// Focus transition of one key; `has_change_sets` and `has_workspace` say
/// whether the dropdown has entries and whether the identity is known.
pub open spec fn focus_after(
    s: FocusState,
    key: KeyEvent,
    has_change_sets: bool,
    has_workspace: bool,
) -> FocusState {
    if s.mode == InputMode::ChangeSetName {
        if key.code == KeyCode::Enter || key.code == KeyCode::Esc {
            FocusState { mode: InputMode::Normal, focus: AppFocus::TopBar, ..s }
        } else {
            FocusState { focus: AppFocus::Input, ..s }
        }
    } else if key.code == KeyCode::Char('q') {
        s
    } else if key.alt && key.code == KeyCode::Char('w') {
        FocusState {
            focus: AppFocus::TopBar,
            sub: DropdownFocus::Workspace,
            dropdown_open: false,
            ..s
        }
    } else if key.alt && key.code == KeyCode::Char('c') {
        FocusState {
            focus: AppFocus::TopBar,
            sub: DropdownFocus::ChangeSet,
            dropdown_open: false,
            ..s
        }
    } else if key.alt && key.code == KeyCode::Char('s') {
        FocusState { focus: AppFocus::SchemaList, dropdown_open: false, ..s }
    } else if key.alt && key.code == KeyCode::Char('l') {
        FocusState { focus: AppFocus::LogPanel, dropdown_open: false, ..s }
    } else if key.code == KeyCode::Tab && !s.dropdown_open {
        FocusState { focus: tab_target(s.focus), ..s }
    } else {
        match s.focus {
            AppFocus::TopBar => if s.dropdown_open {
                s
            } else if key.code == KeyCode::Left || key.code == KeyCode::Right {
                FocusState {
                    sub: if s.sub == DropdownFocus::Workspace {
                        DropdownFocus::ChangeSet
                    } else {
                        DropdownFocus::Workspace
                    },
                    ..s
                }
            } else if key.code == KeyCode::Char(' ') || key.code == KeyCode::Enter {
                if s.sub == DropdownFocus::ChangeSet && has_change_sets {
                    FocusState { focus: AppFocus::ChangeSetDropdown, dropdown_open: true, ..s }
                } else {
                    s
                }
            } else if key.code == KeyCode::Char('c') && has_workspace {
                FocusState { mode: InputMode::ChangeSetName, focus: AppFocus::Input, ..s }
            } else {
                s
            },
            AppFocus::ChangeSetDropdown => if key.code == KeyCode::Enter || key.code == KeyCode::Esc
                || key.code == KeyCode::Tab {
                FocusState { focus: AppFocus::TopBar, dropdown_open: false, ..s }
            } else {
                s
            },
            AppFocus::Input => FocusState { focus: AppFocus::TopBar, ..s },
            _ => s,
        }
    }
}

/// Change-set cursor after one key, over a list of `count` entries: opening
/// the dropdown puts it on the first entry if it was on none, Up and Down in
/// the open dropdown move it; nothing else moves it.
pub open spec fn cursor_after_key(
    s: FocusState,
    index: Option<usize>,
    key: KeyEvent,
    count: nat,
) -> Option<usize> {
    if activates_change_set_trigger(s, key) && count > 0 && index is None {
        Some(0usize)
    } else if reaches_pane(s, key) && s.focus == AppFocus::ChangeSetDropdown && count > 0 {
        if key.code == KeyCode::Up {
            previous_index(index, count)
        } else if key.code == KeyCode::Down {
            next_index(index, count)
        } else {
            index
        }
    } else {
        index
    }
}

/// The typed name after one key.
pub open spec fn buffer_after(s: FocusState, buffer: Seq<char>, key: KeyEvent, has_workspace: bool) -> Seq<
    char,
> {
    if s.mode == InputMode::ChangeSetName {
        match key.code {
            KeyCode::Char(c) => buffer.push(c),
            KeyCode::Backspace => if buffer.len() > 0 {
                buffer.drop_last()
            } else {
                buffer
            },
            KeyCode::Enter => Seq::empty(),
            KeyCode::Esc => Seq::empty(),
            _ => buffer,
        }
    } else if top_bar_key(s, key) && key.code == KeyCode::Char('c') && has_workspace {
        Seq::empty()
    } else {
        buffer
    }
}

/// What the key starts: quitting, the first call of a cascade, or nothing.
pub open spec fn step_for_key(a: App, key: KeyEvent, r: Step) -> bool {
    let s = focus_state(a);
    if s.mode == InputMode::ChangeSetName {
        if key.code == KeyCode::Enter && a.whoami_data is Some && !all_white_space(
            a.input_buffer@,
        ) {
            r matches Step::Call(Request::CreateChangeSet { workspace_id, name }) && workspace_id
                == a.whoami_data->0.workspace_id && is_trim_of(name@, a.input_buffer@)
        } else {
            r is Done
        }
    } else if key.code == KeyCode::Char('q') {
        r is Quit
    } else {
        match (a.whoami_data, a.selected_summary()) {
            (Some(w), Some(cs)) => {
                let (ws, id) = (w.workspace_id, cs.id);
                if top_bar_key(s, key) && key.code == KeyCode::Char('d') {
                    r == Step::Call(Request::AbandonChangeSet { workspace_id: ws, change_set_id: id })
                } else if top_bar_key(s, key) && key.code == KeyCode::Char('f') {
                    r == Step::Call(Request::ForceApply { workspace_id: ws, change_set_id: id })
                } else if reaches_pane(s, key) && s.focus == AppFocus::ChangeSetDropdown && key.code
                    == KeyCode::Enter {
                    r == Step::Call(Request::GetChangeSet { workspace_id: ws, change_set_id: id })
                } else if reaches_pane(s, key) && s.focus == AppFocus::SchemaList && (key.code
                    == KeyCode::Up || key.code == KeyCode::Down || key.code == KeyCode::Enter) {
                    r == Step::Call(Request::ListComponents { workspace_id: ws, change_set_id: id })
                } else {
                    r is Done
                }
            },
            _ => r is Done,
        }
    }
}

/// The key drops what was fetched for the selection: moving the dropdown
/// cursor, or confirming in the dropdown.
pub open spec fn drops_selection_data(s: FocusState, key: KeyEvent, count: nat) -> bool {
    &&& reaches_pane(s, key)
    &&& s.focus == AppFocus::ChangeSetDropdown
    &&& (key.code == KeyCode::Enter || (count > 0 && (key.code == KeyCode::Up || key.code
        == KeyCode::Down)))
}

/// The key moves the schema cursor.
pub open spec fn moves_schema_cursor(s: FocusState, key: KeyEvent, count: nat) -> bool {
    &&& reaches_pane(s, key)
    &&& s.focus == AppFocus::SchemaList
    &&& count > 0
    &&& (key.code == KeyCode::Up || key.code == KeyCode::Down)
}

/// Confirming in the dropdown with nothing to fetch for empties the schemas.
pub open spec fn confirms_nothing(a: App, key: KeyEvent) -> bool {
    &&& reaches_pane(focus_state(a), key)
    &&& a.current_focus == AppFocus::ChangeSetDropdown
    &&& key.code == KeyCode::Enter
    &&& !(a.whoami_data is Some && a.selected_summary() is Some)
}

/// The key scrolls the log view up one line.
pub open spec fn scrolls_log_up(s: FocusState, key: KeyEvent) -> bool {
    &&& reaches_pane(s, key)
    &&& {
        ||| (s.focus == AppFocus::TopBar && !s.dropdown_open && key.code == KeyCode::Char('k'))
        ||| ((s.focus == AppFocus::SchemaList || s.focus == AppFocus::ContentArea) && key.code
            == KeyCode::Char('k'))
        ||| (s.focus == AppFocus::LogPanel && (key.code == KeyCode::Char('k') || key.code
            == KeyCode::Up))
    }
}

/// The key scrolls the log view down one line.
pub open spec fn scrolls_log_down(s: FocusState, key: KeyEvent) -> bool {
    &&& reaches_pane(s, key)
    &&& {
        ||| (s.focus == AppFocus::TopBar && !s.dropdown_open && key.code == KeyCode::Char('j'))
        ||| ((s.focus == AppFocus::SchemaList || s.focus == AppFocus::ContentArea) && key.code
            == KeyCode::Char('j'))
        ||| (s.focus == AppFocus::LogPanel && (key.code == KeyCode::Char('j') || key.code
            == KeyCode::Down))
    }
}

/// Full effect of one key on the session.
pub open spec fn key_handled(a: App, b: App, key: KeyEvent, r: Step) -> bool {
    let s = focus_state(a);
    &&& focus_state(b) == focus_after(s, key, a.change_set_count() > 0, a.whoami_data is Some)
    &&& b.change_set_list_state.index == cursor_after_key(
        s,
        a.change_set_list_state.index,
        key,
        a.change_set_count(),
    )
    &&& b.input_buffer@ == buffer_after(s, a.input_buffer@, key, a.whoami_data is Some)
    &&& step_for_key(a, key, r)
    &&& b.whoami_data == a.whoami_data
    &&& b.change_sets == a.change_sets
    &&& if drops_selection_data(s, key, a.change_set_count()) {
        b.selection_data_cleared()
    } else {
        &&& b.selected_change_set_details == a.selected_change_set_details
        &&& b.selected_change_set_merge_status == a.selected_change_set_merge_status
        &&& b.selected_change_set_components == a.selected_change_set_components
    }
    &&& if moves_schema_cursor(s, key, a.schemas@.len()) {
        &&& b.schemas == a.schemas
        &&& b.schema_list_state.index == if key.code == KeyCode::Up {
            schema_previous_index(a.schema_list_state.index, a.schemas@.len())
        } else {
            next_index(a.schema_list_state.index, a.schemas@.len())
        }
    } else if confirms_nothing(a, key) {
        b.schemas@.len() == 0 && b.schema_list_state.index is None
    } else {
        b.schemas == a.schemas && b.schema_list_state == a.schema_list_state
    }
    &&& b.appends_to(&a)
    &&& (scrolls_log_up(s, key) ==> b.logs == a.logs && b.log_scroll == scrolled_up(
        a.log_scroll as nat,
    ))
    &&& (scrolls_log_down(s, key) ==> b.logs == a.logs && b.log_scroll == scrolled_down(
        a.log_scroll as nat,
        a.logs@.len(),
        LOG_HEIGHT as nat,
    ))
    &&& (key_lines(a, key).len() > 0 ==> b.logs_extend(&a, key_lines(a, key)))
    &&& (key_lines(a, key).len() == 0 && !scrolls_log_up(s, key) && !scrolls_log_down(s, key)
        ==> b.logs == a.logs && b.log_scroll == a.log_scroll)
    &&& action_after(a, key, r, b.current_action)
}

/// Both the workspace and a selected change set are known.
pub open spec fn has_ids(a: App) -> bool {
    a.whoami_data is Some && a.selected_summary() is Some
}

/// The id of the selected change set.
pub open spec fn selected_id(a: App) -> Seq<char> {
    a.selected_summary()->0.id@
}

/// The lines a key appends to the log (none for most keys).
pub open spec fn key_lines(a: App, key: KeyEvent) -> Seq<Seq<char>> {
    let s = focus_state(a);
    if s.mode == InputMode::ChangeSetName {
        if key.code == KeyCode::Enter {
            if a.whoami_data is None {
                seq!["Cannot create: Workspace ID missing."@]
            } else if all_white_space(a.input_buffer@) {
                seq!["Change set name cannot be empty."@]
            } else {
                seq![]
            }
        } else if key.code == KeyCode::Esc {
            seq!["Change set creation cancelled."@]
        } else {
            seq![]
        }
    } else if top_bar_key(s, key) {
        if key.code == KeyCode::Char(' ') || key.code == KeyCode::Enter {
            if s.sub == DropdownFocus::Workspace {
                seq!["Workspace selection not implemented."@]
            } else if a.change_set_count() == 0 {
                seq!["No change sets to select."@]
            } else {
                seq![]
            }
        } else if key.code == KeyCode::Char('d') && !has_ids(a) {
            seq!["Cannot delete: No change set selected."@]
        } else if key.code == KeyCode::Char('f') && !has_ids(a) {
            seq!["Cannot apply: No change set selected."@]
        } else if key.code == KeyCode::Char('c') && a.whoami_data is None {
            seq!["Cannot create: No workspace available."@]
        } else {
            seq![]
        }
    } else if reaches_pane(s, key) && s.focus == AppFocus::SchemaList && (key.code == KeyCode::Up
        || key.code == KeyCode::Down || key.code == KeyCode::Enter) {
        let fetch: Option<Seq<char>> = if has_ids(a) {
            Some(components_request_line(selected_id(a)))
        } else if key.code == KeyCode::Enter {
            Some("Cannot fetch components: No change set selected."@)
        } else {
            None
        };
        if moves_schema_cursor(s, key, a.schemas@.len()) {
            let k = if key.code == KeyCode::Up {
                schema_previous_index(a.schema_list_state.index, a.schemas@.len())
            } else {
                next_index(a.schema_list_state.index, a.schemas@.len())
            };
            let nav = schema_selected_line(a.schemas@[k->0 as int]);
            match fetch {
                Some(f) => seq![nav] + seq![f],
                None => seq![nav],
            }
        } else {
            match fetch {
                Some(f) => seq![f],
                None => seq![],
            }
        }
    } else {
        seq![]
    }
}

/// The progress indicator `act` after a key: set when the key starts a call,
/// cleared when it ends name entry or closes the dropdown, else unchanged.
pub open spec fn action_after(a: App, key: KeyEvent, r: Step, act: Option<String>) -> bool {
    let s = focus_state(a);
    if s.mode == InputMode::ChangeSetName {
        if key.code == KeyCode::Enter {
            if a.whoami_data is Some && !all_white_space(a.input_buffer@) {
                r matches Step::Call(Request::CreateChangeSet { name, .. }) && act matches Some(t)
                    && t@ == "Creating '"@ + name@ + "'..."@
            } else {
                act is None
            }
        } else if key.code == KeyCode::Esc {
            act is None
        } else {
            act == a.current_action
        }
    } else if top_bar_key(s, key) {
        if key.code == KeyCode::Char('d') && has_ids(a) {
            act matches Some(t) && t@ == "Deleting "@ + selected_id(a) + "..."@
        } else if key.code == KeyCode::Char('f') && has_ids(a) {
            act matches Some(t) && t@ == "Applying "@ + selected_id(a) + "..."@
        } else if key.code == KeyCode::Char('c') && a.whoami_data is Some {
            act is None
        } else {
            act == a.current_action
        }
    } else if reaches_pane(s, key) && s.focus == AppFocus::ChangeSetDropdown && (key.code
        == KeyCode::Enter || key.code == KeyCode::Esc || key.code == KeyCode::Tab) {
        if key.code == KeyCode::Enter && has_ids(a) {
            act matches Some(t) && t@ == "Fetching details, schemas & components..."@
        } else {
            act is None
        }
    } else if reaches_pane(s, key) && s.focus == AppFocus::SchemaList && (key.code == KeyCode::Up
        || key.code == KeyCode::Down || key.code == KeyCode::Enter) && has_ids(a) {
        act matches Some(t) && t@ == "Fetching components..."@
    } else {
        act == a.current_action
    }
}

/// The key moves the schema cursor up from the schema list.
pub open spec fn schema_up_key(a: App, key: KeyEvent) -> bool {
    reaches_pane(focus_state(a), key) && a.current_focus == AppFocus::SchemaList && key.code
        == KeyCode::Up
}

/// The workspace and the selected change set, when both are known.
fn selection_ids(app: &App) -> (r: Option<(String, String)>)
    ensures
        match (app.whoami_data, app.selected_summary()) {
            (Some(w), Some(cs)) => r == Some((w.workspace_id, cs.id)),
            _ => r is None,
        },
{
    let ws = match &app.whoami_data {
        Some(w) => w.workspace_id.clone(),
        None => return None,
    };
    match app.get_selected_changeset_summary() {
        Some(cs) => Some((ws, cs.id.clone())),
        None => None,
    }
}

/// Leaves name entry: back to normal mode on the top bar, text cleared.
fn leave_name_entry(app: &mut App)
    ensures
        final(app).input_mode == InputMode::Normal,
        final(app).current_focus == AppFocus::TopBar,
        final(app).input_buffer@.len() == 0,
        final(app).current_action is None,
        final(app).dropdown_focus == old(app).dropdown_focus,
        final(app).changeset_dropdown_active == old(app).changeset_dropdown_active,
        final(app).same_data(old(app)),
        final(app).same_logs(old(app)),
{
    app.input_mode = InputMode::Normal;
    app.current_focus = AppFocus::TopBar;
    app.input_buffer = String::new();
    app.current_action = None;
}

/// Submits a typed change-set name, already stripped of surrounding
/// whitespace: an empty name is refused without any call; name entry ends
/// either way.
pub fn submit_change_set_name(app: &mut App, name: String) -> (r: Step)
    ensures
        match old(app).whoami_data {
            Some(w) => if name@.len() > 0 {
                &&& r == Step::Call(
                    Request::CreateChangeSet { workspace_id: w.workspace_id, name },
                )
                &&& final(app).current_action matches Some(t) && t@ == "Creating '"@ + name@
                    + "'..."@
                &&& final(app).logs == old(app).logs
                &&& final(app).log_scroll == old(app).log_scroll
            } else {
                &&& r is Done
                &&& final(app).logs_extend(old(app), seq!["Change set name cannot be empty."@])
                &&& final(app).current_action is None
            },
            None => {
                &&& r is Done
                &&& final(app).current_action is None
                &&& final(app).logs_extend(old(app), seq!["Cannot create: Workspace ID missing."@])
            },
        },
        final(app).input_mode == InputMode::Normal,
        final(app).current_focus == AppFocus::TopBar,
        final(app).input_buffer@.len() == 0,
        final(app).dropdown_focus == old(app).dropdown_focus,
        final(app).changeset_dropdown_active == old(app).changeset_dropdown_active,
        final(app).same_data(old(app)),
        final(app).appends_to(old(app)),
{
    let ws = match &app.whoami_data {
        Some(w) => Some(w.workspace_id.clone()),
        None => None,
    };
    leave_name_entry(app);
    match ws {
        Some(ws) => {
            if name.as_str().unicode_len() == 0 {
                app.log(String::from_str("Change set name cannot be empty."));
                Step::Done
            } else {
                app.current_action = Some(join3("Creating '", name.as_str(), "'..."));
                Step::Call(Request::CreateChangeSet { workspace_id: ws, name })
            }
        },
        None => {
            app.log(String::from_str("Cannot create: Workspace ID missing."));
            Step::Done
        },
    }
}

/// A key while a change-set name is typed.
fn handle_input_key(app: &mut App, key: KeyEvent) -> (r: Step)
    requires
        old(app).input_mode == InputMode::ChangeSetName,
    ensures
        key_handled(*old(app), *final(app), key, r),
{
    app.current_focus = AppFocus::Input;
    match key.code {
        KeyCode::Enter => {
            let name = trimmed(app.input_buffer.as_str());
            proof {
                lemma_trim_empty(name@, app.input_buffer@);
            }
            let r = submit_change_set_name(app, name);
            assert(app.input_buffer@ =~= Seq::<char>::empty());
            r
        },
        KeyCode::Char(c) => {
            push_char(&mut app.input_buffer, c);
            Step::Done
        },
        KeyCode::Backspace => {
            pop_char(&mut app.input_buffer);
            Step::Done
        },
        KeyCode::Esc => {
            leave_name_entry(app);
            app.log(String::from_str("Change set creation cancelled."));
            assert(app.input_buffer@ =~= Seq::<char>::empty());
            Step::Done
        },
        _ => Step::Done,
    }
}

/// A key for the top bar.
fn handle_top_bar_key(app: &mut App, key: KeyEvent) -> (r: Step)
    requires
        reaches_pane(focus_state(*old(app)), key),
        old(app).current_focus == AppFocus::TopBar,
    ensures
        key_handled(*old(app), *final(app), key, r),
{
    if app.changeset_dropdown_active {
        return Step::Done;
    }
    match key.code {
        KeyCode::Char('k') => {
            app.scroll_logs_up();
            Step::Done
        },
        KeyCode::Char('j') => {
            app.scroll_logs_down(LOG_HEIGHT);
            Step::Done
        },
        KeyCode::Left | KeyCode::Right => {
            app.dropdown_focus =
            match app.dropdown_focus {
                DropdownFocus::Workspace => DropdownFocus::ChangeSet,
                DropdownFocus::ChangeSet => DropdownFocus::Workspace,
            };
            Step::Done
        },
        KeyCode::Char(' ') | KeyCode::Enter => {
            match app.dropdown_focus {
                DropdownFocus::Workspace => {
                    app.log(String::from_str("Workspace selection not implemented."));
                },
                DropdownFocus::ChangeSet => {
                    let has_entries = match &app.change_sets {
                        Some(v) => v.len() > 0,
                        None => false,
                    };
                    if has_entries {
                        app.changeset_dropdown_active = true;
                        app.current_focus = AppFocus::ChangeSetDropdown;
                        if app.change_set_list_state.selected().is_none() {
                            app.change_set_list_state.select(Some(0));
                        }
                    } else {
                        app.log(String::from_str("No change sets to select."));
                    }
                },
            }
            Step::Done
        },
        KeyCode::Char('d') => match selection_ids(app) {
            Some((ws, cs)) => {
                app.current_action = Some(join3("Deleting ", cs.as_str(), "..."));
                Step::Call(Request::AbandonChangeSet { workspace_id: ws, change_set_id: cs })
            },
            None => {
                app.log(String::from_str("Cannot delete: No change set selected."));
                Step::Done
            },
        },
        KeyCode::Char('f') => match selection_ids(app) {
            Some((ws, cs)) => {
                app.current_action = Some(join3("Applying ", cs.as_str(), "..."));
                Step::Call(Request::ForceApply { workspace_id: ws, change_set_id: cs })
            },
            None => {
                app.log(String::from_str("Cannot apply: No change set selected."));
                Step::Done
            },
        },
        KeyCode::Char('c') => {
            if app.whoami_data.is_some() {
                app.input_mode = InputMode::ChangeSetName;
                app.current_focus = AppFocus::Input;
                app.input_buffer = String::new();
                app.current_action = None;
            } else {
                app.log(String::from_str("Cannot create: No workspace available."));
            }
            Step::Done
        },
        _ => Step::Done,
    }
}

/// A key for the open change-set dropdown.
fn handle_dropdown_key(app: &mut App, key: KeyEvent) -> (r: Step)
    requires
        reaches_pane(focus_state(*old(app)), key),
        old(app).current_focus == AppFocus::ChangeSetDropdown,
    ensures
        key_handled(*old(app), *final(app), key, r),
{
    match key.code {
        KeyCode::Up => {
            app.change_set_previous();
            Step::Done
        },
        KeyCode::Down => {
            app.change_set_next();
            Step::Done
        },
        KeyCode::Enter => {
            app.changeset_dropdown_active = false;
            app.current_focus = AppFocus::TopBar;
            app.current_action = None;
            match selection_ids(app) {
                Some((ws, cs)) => begin_selection_cascade(app, ws, cs),
                None => {
                    app.selected_change_set_details = None;
                    app.selected_change_set_merge_status = None;
                    app.selected_change_set_components = None;
                    app.schemas = Vec::new();
                    app.schema_list_state.select(None);
                    Step::Done
                },
            }
        },
        KeyCode::Esc | KeyCode::Tab => {
            app.changeset_dropdown_active = false;
            app.current_focus = AppFocus::TopBar;
            app.current_action = None;
            Step::Done
        },
        _ => Step::Done,
    }
}

/// A key for the schema list.
fn handle_schema_list_key(app: &mut App, key: KeyEvent) -> (r: Step)
    requires
        reaches_pane(focus_state(*old(app)), key),
        old(app).current_focus == AppFocus::SchemaList,
        key.code == KeyCode::Up ==> old(app).schema_cursor_ok(),
    ensures
        key_handled(*old(app), *final(app), key, r),
{
    match key.code {
        KeyCode::Up | KeyCode::Down | KeyCode::Enter => {
            let ids = selection_ids(app);
            if key.code == KeyCode::Up {
                app.schema_previous();
            } else if key.code == KeyCode::Down {
                app.schema_next();
            }
            match ids {
                Some((ws, cs)) => {
                    app.current_action = Some(String::from_str("Fetching components..."));
                    request_components(app, ws, cs)
                },
                None => {
                    if key.code == KeyCode::Enter {
                        app.log(
                            String::from_str("Cannot fetch components: No change set selected."),
                        );
                    }
                    Step::Done
                },
            }
        },
        KeyCode::Char('k') => {
            app.scroll_logs_up();
            Step::Done
        },
        KeyCode::Char('j') => {
            app.scroll_logs_down(LOG_HEIGHT);
            Step::Done
        },
        _ => Step::Done,
    }
}

/// Dispatches one key press: mode first, then global keys, then the focused
/// pane. The returned step says whether to quit, to wait for the next key, or
/// which call to perform first.
pub fn handle_key_event(app: &mut App, key: KeyEvent) -> (r: Step)
    requires
        schema_up_key(*old(app), key) ==> old(app).schema_cursor_ok(),
    ensures
        key_handled(*old(app), *final(app), key, r),
{
    if app.input_mode == InputMode::ChangeSetName {
        return handle_input_key(app, key);
    }
    if key.code == KeyCode::Char('q') {
        return Step::Quit;
    }
    if key.alt {
        if key.code == KeyCode::Char('w') {
            app.current_focus = AppFocus::TopBar;
            app.dropdown_focus = DropdownFocus::Workspace;
            app.changeset_dropdown_active = false;
            return Step::Done;
        } else if key.code == KeyCode::Char('c') {
            app.current_focus = AppFocus::TopBar;
            app.dropdown_focus = DropdownFocus::ChangeSet;
            app.changeset_dropdown_active = false;
            return Step::Done;
        } else if key.code == KeyCode::Char('s') {
            app.current_focus = AppFocus::SchemaList;
            app.changeset_dropdown_active = false;
            return Step::Done;
        } else if key.code == KeyCode::Char('l') {
            app.current_focus = AppFocus::LogPanel;
            app.changeset_dropdown_active = false;
            return Step::Done;
        }
    }
    if key.code == KeyCode::Tab && !app.changeset_dropdown_active {
        app.current_focus =
        match app.current_focus {
            AppFocus::TopBar => AppFocus::SchemaList,
            AppFocus::SchemaList => AppFocus::ContentArea,
            AppFocus::ContentArea => AppFocus::LogPanel,
            _ => AppFocus::TopBar,
        };
        return Step::Done;
    }
    match app.current_focus {
        AppFocus::TopBar => handle_top_bar_key(app, key),
        AppFocus::ChangeSetDropdown => handle_dropdown_key(app, key),
        AppFocus::SchemaList => handle_schema_list_key(app, key),
        AppFocus::ContentArea => {
            if key.code == KeyCode::Char('k') {
                app.scroll_logs_up();
            } else if key.code == KeyCode::Char('j') {
                app.scroll_logs_down(LOG_HEIGHT);
            }
            Step::Done
        },
        AppFocus::LogPanel => {
            if key.code == KeyCode::Up || key.code == KeyCode::Char('k') {
                app.scroll_logs_up();
            } else if key.code == KeyCode::Down || key.code == KeyCode::Char('j') {
                app.scroll_logs_down(LOG_HEIGHT);
            }
            Step::Done
        },
        AppFocus::Input => {
            app.current_focus = AppFocus::TopBar;
            Step::Done
        },
    }
}

} // verus!
