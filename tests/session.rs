use situation::api_models::{
    ChangeSet, ChangeSetSummary, CreateChangeSetV1Response, DeleteChangeSetV1Response,
    GetChangeSetV1Response, ListChangeSetV1Response, ListComponentsV1Response,
    ListSchemaV1Response, MergeStatusV1Response, SchemaSummary, TokenDetails, WhoamiResponse,
};
use situation::app::{AppFocus, DropdownFocus, InputMode};
use situation::cascade::{resume, start_session, AfterRefresh, Outcome, Request, Step};
use situation::event_handler::{handle_key_event, KeyCode, KeyEvent};
use situation::App;

fn key(code: KeyCode) -> KeyEvent {
    KeyEvent { code, alt: false }
}

fn alt(c: char) -> KeyEvent {
    KeyEvent { code: KeyCode::Char(c), alt: true }
}

fn whoami(ws: &str) -> WhoamiResponse {
    WhoamiResponse {
        user_id: "user-1".to_string(),
        user_email: "user@example.com".to_string(),
        workspace_id: ws.to_string(),
        token: TokenDetails {
            iat: 1,
            sub: "user-1".to_string(),
            user_pk: "user-1".to_string(),
            workspace_pk: ws.to_string(),
        },
    }
}

fn summary(id: &str, status: &str) -> ChangeSetSummary {
    ChangeSetSummary { id: id.to_string(), name: format!("{} name", id), status: status.to_string() }
}

fn detail(id: &str) -> ChangeSet {
    ChangeSet { id: id.to_string(), name: format!("{} name", id), status: "Draft".to_string() }
}

fn schema(id: &str, name: &str, category: &str) -> SchemaSummary {
    SchemaSummary {
        schema_id: id.to_string(),
        schema_name: name.to_string(),
        category: category.to_string(),
        installed: true,
    }
}

fn session_with(ids: &[(&str, &str)], selected: Option<usize>) -> App {
    let mut app = App::new();
    app.whoami_data = Some(whoami("ws-1"));
    app.change_sets = Some(ids.iter().map(|(id, st)| summary(id, st)).collect());
    app.change_set_list_state.select(selected);
    app
}

fn call(step: Step) -> Request {
    match step {
        Step::Call(r) => r,
        other => panic!("expected a call, got {:?}", other),
    }
}

fn error_lines(app: &App) -> usize {
    app.logs.iter().filter(|l| l.starts_with("Error") || l.starts_with("ERROR")).count()
}

#[test]
fn abandon_selected_reselects_remaining_and_refetches() {
    let mut app = session_with(&[("a", "Draft"), ("b", "Applied")], Some(1));
    app.selected_change_set_details = Some(detail("b"));

    let req = call(handle_key_event(&mut app, key(KeyCode::Char('d'))));
    match &req {
        Request::AbandonChangeSet { workspace_id, change_set_id } => {
            assert_eq!(workspace_id, "ws-1");
            assert_eq!(change_set_id, "b");
        }
        other => panic!("unexpected {:?}", other),
    }
    assert!(app.current_action.is_some());

    let deleted = DeleteChangeSetV1Response { success: true };
    let req = call(resume(&mut app, req, Outcome::Abandoned(Ok((deleted, vec![])))));
    assert!(app.selected_change_set_details.is_none());
    assert!(app.selected_change_set_merge_status.is_none());
    assert!(matches!(&req, Request::ListChangeSets { then: AfterRefresh::Cascade, .. }));

    let list = ListChangeSetV1Response { change_sets: vec![summary("a", "Draft")] };
    let req = call(resume(&mut app, req, Outcome::ChangeSets(Ok((list, vec![])))));
    assert_eq!(app.change_set_list_state.selected(), Some(0));
    assert_eq!(app.get_selected_changeset_summary().unwrap().id, "a");
    assert!(app.selected_change_set_details.is_none());
    assert!(app.selected_change_set_merge_status.is_none());
    match &req {
        Request::GetChangeSet { change_set_id, .. } => assert_eq!(change_set_id, "a"),
        other => panic!("unexpected {:?}", other),
    }

    let got = GetChangeSetV1Response { change_set: detail("a") };
    let req = call(resume(&mut app, req, Outcome::ChangeSet(Ok((got, vec![])))));
    assert_eq!(app.selected_change_set_details.as_ref().unwrap().id, "a");
    let merge = MergeStatusV1Response { change_set: detail("a"), actions: vec![] };
    let req = call(resume(&mut app, req, Outcome::MergeStatus(Ok((merge, vec![])))));
    assert_eq!(app.selected_change_set_merge_status.as_ref().unwrap().change_set.id, "a");
    assert!(matches!(req, Request::ListSchemas { .. }));
}

#[test]
fn abandon_failure_still_clears_and_refreshes() {
    let mut app = session_with(&[("a", "Draft")], Some(0));
    app.selected_change_set_details = Some(detail("a"));
    let req = call(handle_key_event(&mut app, key(KeyCode::Char('d'))));
    let before = error_lines(&app);
    let req = call(resume(&mut app, req, Outcome::Abandoned(Err("denied".to_string()))));
    assert!(app.selected_change_set_details.is_none());
    assert_eq!(error_lines(&app), before + 1);
    assert!(matches!(req, Request::ListChangeSets { .. }));
}

#[test]
fn whitespace_name_is_rejected_without_a_call() {
    let mut app = session_with(&[("a", "Draft")], Some(0));
    let step = handle_key_event(&mut app, key(KeyCode::Char('c')));
    assert!(matches!(step, Step::Done));
    assert_eq!(app.input_mode, InputMode::ChangeSetName);
    assert_eq!(app.current_focus, AppFocus::Input);
    for c in "   ".chars() {
        handle_key_event(&mut app, key(KeyCode::Char(c)));
    }
    let logs_before = app.logs.len();
    let step = handle_key_event(&mut app, key(KeyCode::Enter));
    assert!(matches!(step, Step::Done));
    assert_eq!(app.input_mode, InputMode::Normal);
    assert_eq!(app.current_focus, AppFocus::TopBar);
    assert!(app.input_buffer.is_empty());
    assert_eq!(app.logs.len(), logs_before + 1);
    assert_eq!(app.logs.last().unwrap(), "Change set name cannot be empty.");
}

#[test]
fn empty_name_is_rejected_without_a_call() {
    let mut app = session_with(&[], None);
    handle_key_event(&mut app, key(KeyCode::Char('c')));
    let step = handle_key_event(&mut app, key(KeyCode::Enter));
    assert!(matches!(step, Step::Done));
    assert_eq!(app.input_mode, InputMode::Normal);
    assert_eq!(app.logs.last().unwrap(), "Change set name cannot be empty.");
}

#[test]
fn typed_name_is_trimmed_and_created_then_selected() {
    let mut app = session_with(&[("a", "Draft")], Some(0));
    handle_key_event(&mut app, key(KeyCode::Char('c')));
    for c in "  xyq ".chars() {
        handle_key_event(&mut app, key(KeyCode::Char(c)));
    }
    handle_key_event(&mut app, key(KeyCode::Backspace));
    handle_key_event(&mut app, key(KeyCode::Backspace));
    assert_eq!(app.input_buffer, "  xy");
    let req = call(handle_key_event(&mut app, key(KeyCode::Enter)));
    match &req {
        Request::CreateChangeSet { workspace_id, name } => {
            assert_eq!(workspace_id, "ws-1");
            assert_eq!(name, "xy");
        }
        other => panic!("unexpected {:?}", other),
    }
    assert_eq!(app.input_mode, InputMode::Normal);

    let created = CreateChangeSetV1Response { change_set: detail("n1") };
    let req = call(resume(&mut app, req, Outcome::Created(Ok((created, vec!["log".to_string()])))));
    match &req {
        Request::ListChangeSets { then: AfterRefresh::SelectCreated { id }, .. } => {
            assert_eq!(id, "n1")
        }
        other => panic!("unexpected {:?}", other),
    }
    let list = ListChangeSetV1Response {
        change_sets: vec![summary("a", "Draft"), summary("n1", "Draft")],
    };
    let req = call(resume(&mut app, req, Outcome::ChangeSets(Ok((list, vec![])))));
    assert_eq!(app.change_set_list_state.selected(), Some(1));
    match &req {
        Request::GetChangeSet { change_set_id, .. } => assert_eq!(change_set_id, "n1"),
        other => panic!("unexpected {:?}", other),
    }
}

#[test]
fn merge_status_failure_keeps_detail() {
    let mut app = session_with(&[("a", "Draft")], Some(0));
    let req = Request::GetChangeSet {
        workspace_id: "ws-1".to_string(),
        change_set_id: "a".to_string(),
    };
    let got = GetChangeSetV1Response { change_set: detail("a") };
    let req = call(resume(&mut app, req, Outcome::ChangeSet(Ok((got, vec![])))));
    let errors_before = error_lines(&app);
    let req = call(resume(&mut app, req, Outcome::MergeStatus(Err("boom".to_string()))));
    assert_eq!(app.selected_change_set_details.as_ref().unwrap().id, "a");
    assert!(app.selected_change_set_merge_status.is_none());
    assert_eq!(error_lines(&app), errors_before + 1);
    assert!(app.logs.iter().any(|l| l == "Error fetching merge status for a: boom"));
    assert!(matches!(req, Request::ListSchemas { .. }));
}

#[test]
fn detail_failure_does_not_block_merge_status() {
    let mut app = session_with(&[("a", "Draft")], Some(0));
    let req = Request::GetChangeSet {
        workspace_id: "ws-1".to_string(),
        change_set_id: "a".to_string(),
    };
    let req = call(resume(&mut app, req, Outcome::ChangeSet(Err("gone".to_string()))));
    assert!(app.selected_change_set_details.is_none());
    match &req {
        Request::GetMergeStatus { change_set_id, .. } => assert_eq!(change_set_id, "a"),
        other => panic!("unexpected {:?}", other),
    }
    let merge = MergeStatusV1Response { change_set: detail("a"), actions: vec![] };
    resume(&mut app, req, Outcome::MergeStatus(Ok((merge, vec![]))));
    assert!(app.selected_change_set_details.is_none());
    assert!(app.selected_change_set_merge_status.is_some());
}

fn refresh_from(prev: Option<usize>, old_len: usize, new_len: usize) -> App {
    let ids: Vec<String> = (0..old_len).map(|i| format!("c{}", i)).collect();
    let pairs: Vec<(&str, &str)> = ids.iter().map(|s| (s.as_str(), "Draft")).collect();
    let mut app = session_with(&pairs, prev);
    let list = ListChangeSetV1Response {
        change_sets: (0..new_len).map(|i| summary(&format!("c{}", i), "Draft")).collect(),
    };
    let req = Request::ListChangeSets {
        workspace_id: "ws-1".to_string(),
        then: AfterRefresh::Cascade,
    };
    resume(&mut app, req, Outcome::ChangeSets(Ok((list, vec![]))));
    app
}

#[test]
fn refresh_keeps_index_in_range() {
    let app = refresh_from(Some(1), 3, 4);
    assert_eq!(app.change_set_list_state.selected(), Some(1));
    assert_eq!(app.get_selected_changeset_summary().unwrap().id, "c1");
}

#[test]
fn refresh_clamps_index_to_last() {
    let app = refresh_from(Some(3), 4, 2);
    assert_eq!(app.change_set_list_state.selected(), Some(1));
}

#[test]
fn refresh_to_empty_selects_nothing_and_clears() {
    let app = refresh_from(Some(0), 2, 0);
    assert_eq!(app.change_set_list_state.selected(), None);
    assert!(app.schemas.is_empty());
    assert!(app.current_action.is_none());
    assert!(app.selected_change_set_details.is_none());
}

#[test]
fn refresh_failure_drops_selection() {
    let mut app = session_with(&[("a", "Draft")], Some(0));
    let req = Request::ListChangeSets {
        workspace_id: "ws-1".to_string(),
        then: AfterRefresh::Cascade,
    };
    let step = resume(&mut app, req, Outcome::ChangeSets(Err("offline".to_string())));
    assert!(matches!(step, Step::Done));
    assert_eq!(app.change_set_list_state.selected(), None);
    assert_eq!(app.change_sets.as_ref().unwrap().len(), 1);
}

#[test]
fn dropdown_open_then_esc_keeps_selection() {
    let mut app = session_with(&[("a", "Draft"), ("b", "Draft")], Some(1));
    app.dropdown_focus = DropdownFocus::ChangeSet;
    handle_key_event(&mut app, key(KeyCode::Enter));
    assert_eq!(app.current_focus, AppFocus::ChangeSetDropdown);
    assert!(app.changeset_dropdown_active);
    let step = handle_key_event(&mut app, key(KeyCode::Esc));
    assert!(matches!(step, Step::Done));
    assert_eq!(app.current_focus, AppFocus::TopBar);
    assert!(!app.changeset_dropdown_active);
    assert_eq!(app.get_selected_changeset_summary().unwrap().id, "b");
}

#[test]
fn dropdown_confirm_starts_cascade_for_highlight() {
    let mut app = session_with(&[("a", "Draft"), ("b", "Draft")], None);
    app.dropdown_focus = DropdownFocus::ChangeSet;
    handle_key_event(&mut app, key(KeyCode::Char(' ')));
    assert_eq!(app.change_set_list_state.selected(), Some(0));
    handle_key_event(&mut app, key(KeyCode::Down));
    let req = call(handle_key_event(&mut app, key(KeyCode::Enter)));
    assert_eq!(app.current_focus, AppFocus::TopBar);
    match &req {
        Request::GetChangeSet { change_set_id, .. } => assert_eq!(change_set_id, "b"),
        other => panic!("unexpected {:?}", other),
    }
}

#[test]
fn tab_cycles_panes_and_hotkeys_jump() {
    let mut app = session_with(&[], None);
    let order = [AppFocus::SchemaList, AppFocus::ContentArea, AppFocus::LogPanel, AppFocus::TopBar];
    for expected in order {
        handle_key_event(&mut app, key(KeyCode::Tab));
        assert_eq!(app.current_focus, expected);
    }
    handle_key_event(&mut app, alt('l'));
    assert_eq!(app.current_focus, AppFocus::LogPanel);
    handle_key_event(&mut app, alt('c'));
    assert_eq!(app.current_focus, AppFocus::TopBar);
    assert_eq!(app.dropdown_focus, DropdownFocus::ChangeSet);
    handle_key_event(&mut app, key(KeyCode::Left));
    assert_eq!(app.dropdown_focus, DropdownFocus::Workspace);
}

#[test]
fn q_quits_except_while_typing() {
    let mut app = session_with(&[], None);
    assert!(matches!(handle_key_event(&mut app, key(KeyCode::Char('q'))), Step::Quit));
    handle_key_event(&mut app, key(KeyCode::Char('c')));
    assert!(matches!(handle_key_event(&mut app, key(KeyCode::Char('q'))), Step::Done));
    assert_eq!(app.input_buffer, "q");
    handle_key_event(&mut app, key(KeyCode::Esc));
    assert_eq!(app.input_mode, InputMode::Normal);
    assert!(app.input_buffer.is_empty());
}

#[test]
fn startup_fetches_identity_list_schemas_components() {
    let mut app = App::new();
    let req = call(start_session(&mut app));
    assert!(matches!(req, Request::Whoami));
    let req = call(resume(&mut app, req, Outcome::Whoami(Ok((whoami("ws-9"), vec![])))));
    match &req {
        Request::ListChangeSets { workspace_id, then: AfterRefresh::Startup } => {
            assert_eq!(workspace_id, "ws-9")
        }
        other => panic!("unexpected {:?}", other),
    }
    let list = ListChangeSetV1Response { change_sets: vec![summary("a", "Draft")] };
    let req = call(resume(&mut app, req, Outcome::ChangeSets(Ok((list, vec![])))));
    assert_eq!(app.change_set_list_state.selected(), Some(0));
    assert!(matches!(req, Request::ListSchemas { .. }));

    let schemas = ListSchemaV1Response {
        schemas: vec![schema("s1", "Zeta", "b"), schema("s2", "Beta", "a"), schema("s3", "Alpha", "a")],
    };
    let req = call(resume(&mut app, req, Outcome::Schemas(Ok(schemas))));
    let names: Vec<&str> = app.schemas.iter().map(|s| s.schema_name.as_str()).collect();
    assert_eq!(names, vec!["Alpha", "Beta", "Zeta"]);
    assert_eq!(app.schema_list_state.selected(), Some(0));
    assert!(matches!(req, Request::ListComponents { .. }));

    let ids: Vec<String> = (0..12).map(|i| format!("comp-{}", i)).collect();
    let step = resume(
        &mut app,
        req,
        Outcome::Components(Ok((ListComponentsV1Response { components: ids }, vec![]))),
    );
    assert!(matches!(step, Step::Done));
    let comps = app.selected_change_set_components.as_ref().unwrap();
    assert_eq!(comps.len(), 12);
    assert_eq!(comps[3].id, "comp-3");
    assert_eq!(comps[3].name, "comp-3");
    assert_eq!(app.logs.last().unwrap(), "Successfully processed 12 component IDs.");
    assert!(app.current_action.is_none());
}

#[test]
fn startup_identity_failure_goes_idle() {
    let mut app = App::new();
    let req = call(start_session(&mut app));
    let step = resume(&mut app, req, Outcome::Whoami(Err("no token".to_string())));
    assert!(matches!(step, Step::Done));
    assert!(app.whoami_data.is_none());
    assert_eq!(app.logs.last().unwrap(), "Error fetching initial data: no token");
}

#[test]
fn schema_failure_empties_list_and_continues() {
    let mut app = session_with(&[("a", "Draft")], Some(0));
    app.schemas = vec![schema("s1", "A", "x")];
    let req = Request::ListSchemas {
        workspace_id: "ws-1".to_string(),
        change_set_id: "a".to_string(),
    };
    let req = call(resume(&mut app, req, Outcome::Schemas(Err("bad".to_string()))));
    assert!(app.schemas.is_empty());
    assert_eq!(app.schema_list_state.selected(), None);
    assert!(matches!(req, Request::ListComponents { .. }));
    let step = resume(&mut app, req, Outcome::Components(Err("bad".to_string())));
    assert!(matches!(step, Step::Done));
    assert!(app.selected_change_set_components.is_none());
}

#[test]
fn mismatched_outcome_is_logged_and_ignored() {
    let mut app = session_with(&[("a", "Draft")], Some(0));
    let before = app.logs.len();
    let step = resume(&mut app, Request::Whoami, Outcome::Applied(Ok(vec![])));
    assert!(matches!(step, Step::Done));
    assert_eq!(app.logs.len(), before + 1);
    assert_eq!(app.change_set_list_state.selected(), Some(0));
}

#[test]
fn schema_navigation_logs_selection_and_fetches_components() {
    let mut app = session_with(&[("a", "Draft")], Some(0));
    app.schemas = vec![schema("s1", "One", "x"), schema("s2", "Two", "x")];
    app.current_focus = AppFocus::SchemaList;
    let req = call(handle_key_event(&mut app, key(KeyCode::Down)));
    assert_eq!(app.schema_list_state.selected(), Some(0));
    assert!(app.logs.iter().any(|l| l == "DEBUG: Selected schema: One (id: s1)"));
    assert!(matches!(req, Request::ListComponents { .. }));
    handle_key_event(&mut app, key(KeyCode::Up));
    assert_eq!(app.schema_list_state.selected(), Some(1));
}

#[test]
fn force_apply_clears_detail_and_refreshes() {
    let mut app = session_with(&[("a", "Draft")], Some(0));
    app.selected_change_set_details = Some(detail("a"));
    let req = call(handle_key_event(&mut app, key(KeyCode::Char('f'))));
    assert!(matches!(req, Request::ForceApply { .. }));
    let req = call(resume(&mut app, req, Outcome::Applied(Ok(vec!["ok".to_string()]))));
    assert!(app.selected_change_set_details.is_none());
    assert!(app.logs.iter().any(|l| l == "Apply initiated for changeset a"));
    assert!(matches!(req, Request::ListChangeSets { .. }));
}

#[test]
fn detail_for_another_change_set_is_not_kept() {
    let mut app = session_with(&[("a", "Draft"), ("b", "Draft")], Some(0));
    let req = Request::GetChangeSet {
        workspace_id: "ws-1".to_string(),
        change_set_id: "b".to_string(),
    };
    let got = GetChangeSetV1Response { change_set: detail("b") };
    let req = call(resume(&mut app, req, Outcome::ChangeSet(Ok((got, vec![])))));
    assert!(app.selected_change_set_details.is_none());
    assert!(matches!(req, Request::GetMergeStatus { .. }));
}

#[test]
fn schema_cursor_up_from_none_goes_to_last() {
    let mut app = App::new();
    app.schemas = vec![schema("s1", "One", "x"), schema("s2", "Two", "x"), schema("s3", "Three", "y")];
    app.schema_previous();
    assert_eq!(app.schema_list_state.selected(), Some(2));
    assert_eq!(app.logs.last().unwrap(), "DEBUG: Selected schema: Three (id: s3)");
    app.schema_previous();
    assert_eq!(app.schema_list_state.selected(), Some(1));
}

#[test]
fn change_set_cursor_past_end_moves_up_one() {
    let mut app = session_with(&[("a", "Draft"), ("b", "Draft")], Some(5));
    app.change_set_previous();
    assert_eq!(app.change_set_list_state.selected(), Some(4));
}

#[test]
fn refresh_failure_logs_exact_lines() {
    let mut app = session_with(&[("a", "Draft")], Some(0));
    let before = app.logs.len();
    let req = call(handle_key_event(&mut app, key(KeyCode::Char('d'))));
    let req = call(resume(&mut app, req, Outcome::Abandoned(Err("denied".to_string()))));
    resume(&mut app, req, Outcome::ChangeSets(Err("offline".to_string())));
    assert_eq!(
        app.logs[before..].to_vec(),
        vec![
            "Error abandoning changeset a: denied".to_string(),
            "Refreshing change sets for workspace ws-1...".to_string(),
            "Error refreshing change sets: offline".to_string(),
        ]
    );
    assert_eq!(app.log_scroll, app.logs.len().saturating_sub(10));
}

#[test]
fn tab_changes_nothing_but_focus() {
    let mut app = session_with(&[("a", "Draft")], Some(0));
    app.current_action = Some("busy".to_string());
    app.add_log_auto_scroll("x".to_string(), 10);
    let logs = app.logs.clone();
    let step = handle_key_event(&mut app, key(KeyCode::Tab));
    assert!(matches!(step, Step::Done));
    assert_eq!(app.current_focus, AppFocus::SchemaList);
    assert_eq!(app.logs, logs);
    assert_eq!(app.current_action.as_deref(), Some("busy"));
}

#[test]
fn rejected_name_clears_indicator_and_logs_once() {
    let mut app = session_with(&[], None);
    handle_key_event(&mut app, key(KeyCode::Char('c')));
    app.current_action = Some("stale".to_string());
    handle_key_event(&mut app, key(KeyCode::Char('\t')));
    let before = app.logs.len();
    handle_key_event(&mut app, key(KeyCode::Enter));
    assert!(app.current_action.is_none());
    assert_eq!(app.logs.len(), before + 1);
    assert_eq!(app.logs.last().unwrap(), "Change set name cannot be empty.");
}
