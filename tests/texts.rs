use situation::api_models::{
    ApiError, ChangeSetSummary, CreateChangeSetV1Response, MergeStatusV1ResponseAction,
    MergeStatusV1ResponseActionComponent, SchemaSummary, TokenDetails, WhoamiResponse,
};
use situation::cascade::{resume, AfterRefresh, Outcome, Request, Step};
use situation::endpoints::{
    change_set_sub_url, change_set_url, change_sets_url, component_url, failure_message,
    whoami_url,
};
use situation::schemas::{schema_less, sort_schemas};
use situation::text::decimal;
use situation::view::{
    action_label, category_starts, change_set_label, component_label, schema_for_component,
};
use situation::App;

fn schema(id: &str, name: &str, category: &str) -> SchemaSummary {
    SchemaSummary {
        schema_id: id.to_string(),
        schema_name: name.to_string(),
        category: category.to_string(),
        installed: false,
    }
}

fn session() -> App {
    let mut app = App::new();
    app.whoami_data = Some(WhoamiResponse {
        user_id: "u".to_string(),
        user_email: "u@example.com".to_string(),
        workspace_id: "ws".to_string(),
        token: TokenDetails {
            iat: 5,
            sub: "u".to_string(),
            user_pk: "u".to_string(),
            workspace_pk: "ws".to_string(),
        },
    });
    app
}

#[test]
fn urls_follow_the_service_layout() {
    assert_eq!(whoami_url("http://h"), "http://h/whoami");
    assert_eq!(change_sets_url("http://h", "w1"), "http://h/v1/w/w1/change-sets");
    assert_eq!(change_set_url("http://h", "w1", "c1"), "http://h/v1/w/w1/change-sets/c1");
    assert_eq!(
        change_set_sub_url("http://h", "w1", "c1", "merge_status"),
        "http://h/v1/w/w1/change-sets/c1/merge_status"
    );
    assert_eq!(
        component_url("http://h", "w1", "c1", "k9"),
        "http://h/v1/w/w1/change-sets/c1/components/k9"
    );
}

#[test]
fn failure_message_with_and_without_service_error() {
    let e = ApiError { code: Some(-42), message: "nope".to_string(), status_code: 400 };
    assert_eq!(
        failure_message("400 Bad Request", &Some(e), "{}"),
        "API request failed with status 400 Bad Request: Code Some(-42), Message: nope"
    );
    let e = ApiError { code: None, message: "gone".to_string(), status_code: 404 };
    assert_eq!(
        failure_message("404 Not Found", &Some(e), "{}"),
        "API request failed with status 404 Not Found: Code None, Message: gone"
    );
    assert_eq!(
        failure_message("500 Internal Server Error", &None, "oops"),
        "API request failed with status 500 Internal Server Error: oops"
    );
    let e = ApiError { code: Some(123), message: "m".to_string(), status_code: 500 };
    assert!(failure_message("500", &Some(e), "").contains("Code Some(123)"));
}

#[test]
fn decimal_writes_numbers() {
    assert_eq!(decimal(0), "0");
    assert_eq!(decimal(7), "7");
    assert_eq!(decimal(10), "10");
    assert_eq!(decimal(4096), "4096");
}

#[test]
fn labels_for_the_renderer() {
    let cs = ChangeSetSummary {
        id: "c1".to_string(),
        name: "Fix".to_string(),
        status: "Draft".to_string(),
    };
    assert_eq!(change_set_label(&cs), "Fix (Draft) - c1");
    let action = MergeStatusV1ResponseAction {
        id: "a1".to_string(),
        state: "Queued".to_string(),
        kind: "Create".to_string(),
        name: "make".to_string(),
        component: Some(MergeStatusV1ResponseActionComponent {
            id: "k1".to_string(),
            name: "server".to_string(),
        }),
    };
    assert_eq!(action_label(&action), "  [Create] Queued make  - server (k1)");
    let bare = MergeStatusV1ResponseAction { component: None, ..action };
    assert_eq!(action_label(&bare), "  [Create] Queued make ");
}

#[test]
fn component_names_come_from_matching_schema() {
    let schemas = vec![schema("s1", "Alpha", "x"), schema("k1", "Beta", "x"), schema("k1", "Gamma", "y")];
    assert_eq!(schema_for_component(&schemas, "k1"), Some(1));
    assert_eq!(schema_for_component(&schemas, "zz"), None);
    assert_eq!(component_label(&schemas, "k1"), "  - k1 (Beta)");
    assert_eq!(component_label(&schemas, "zz"), "  - zz (Unknown Schema)");
}

#[test]
fn category_headings_start_groups() {
    let schemas = vec![schema("1", "A", "x"), schema("2", "B", "x"), schema("3", "C", "y")];
    assert!(category_starts(&schemas, 0));
    assert!(!category_starts(&schemas, 1));
    assert!(category_starts(&schemas, 2));
}

#[test]
fn schema_order_is_category_then_name() {
    let sorted = sort_schemas(vec![
        schema("1", "b", "Zeta"),
        schema("2", "B", "Alpha"),
        schema("3", "a", "Alpha"),
        schema("4", "a", "Zeta"),
        schema("5", "a", "Alpha"),
    ]);
    let keys: Vec<(String, String)> =
        sorted.iter().map(|s| (s.category.clone(), s.schema_name.clone())).collect();
    assert_eq!(
        keys,
        vec![
            ("Alpha".to_string(), "B".to_string()),
            ("Alpha".to_string(), "a".to_string()),
            ("Alpha".to_string(), "a".to_string()),
            ("Zeta".to_string(), "a".to_string()),
            ("Zeta".to_string(), "b".to_string()),
        ]
    );
    assert!(schema_less(&schema("1", "x", "a"), &schema("2", "a", "b")));
    assert!(!schema_less(&schema("1", "x", "a"), &schema("2", "x", "a")));
    assert!(sort_schemas(vec![]).is_empty());
}

#[test]
fn create_failure_refreshes_without_selecting() {
    let mut app = session();
    let req = Request::CreateChangeSet { workspace_id: "ws".to_string(), name: "n".to_string() };
    let step = resume(&mut app, req, Outcome::Created(Err("conflict".to_string())));
    match step {
        Step::Call(Request::ListChangeSets { workspace_id, then: AfterRefresh::Cascade }) => {
            assert_eq!(workspace_id, "ws")
        }
        other => panic!("unexpected {:?}", other),
    }
    assert_eq!(app.logs.iter().filter(|l| l.as_str() == "Error creating changeset: conflict").count(), 1);
}

#[test]
fn created_change_set_is_announced() {
    let mut app = session();
    let req = Request::CreateChangeSet { workspace_id: "ws".to_string(), name: "n".to_string() };
    let created = CreateChangeSetV1Response {
        change_set: situation::ChangeSet {
            id: "c7".to_string(),
            name: "n".to_string(),
            status: "Draft".to_string(),
        },
    };
    resume(&mut app, req, Outcome::Created(Ok((created, vec![]))));
    assert!(app.logs.iter().any(|l| l == "Created changeset 'n' (c7)"));
}

#[test]
fn apply_failure_still_clears_and_refreshes() {
    let mut app = session();
    let req = Request::ForceApply { workspace_id: "ws".to_string(), change_set_id: "c".to_string() };
    let step = resume(&mut app, req, Outcome::Applied(Err("locked".to_string())));
    assert!(matches!(step, Step::Call(Request::ListChangeSets { .. })));
    assert!(app.selected_change_set_details.is_none());
    assert!(app.logs.iter().any(|l| l == "Error applying changeset c: locked"));
}

#[test]
fn refresh_without_identity_goes_idle() {
    let mut app = App::new();
    let req = Request::AbandonChangeSet { workspace_id: "ws".to_string(), change_set_id: "c".to_string() };
    let step = resume(&mut app, req, Outcome::Abandoned(Err("x".to_string())));
    assert!(matches!(step, Step::Done));
    assert_eq!(
        app.logs.last().unwrap(),
        "Cannot refresh change sets: Whoami data not available."
    );
}
