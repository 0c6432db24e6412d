//! The fetch sequences that keep the session in step with the service.
//!
//! The controller never performs a remote call itself. A step either finishes
//! or names the one call to make next; whoever runs the session performs it and
//! hands the outcome back to [`resume`], which applies it and names the next
//! call. Calls of one cascade therefore happen strictly one after another, and
//! a failed call only logs a line and leaves its entity absent: the cascade
//! goes on.
use vstd::prelude::*;
use vstd::string::StringExecFns;

use crate::api_models::{
    ChangeSetSummary, ComponentViewV1, CreateChangeSetV1Response, DeleteChangeSetV1Response,
    GetChangeSetV1Response, ListChangeSetV1Response, ListComponentsV1Response,
    ListSchemaV1Response, MergeStatusV1Response, WhoamiResponse,
};
use crate::app::{first_with_id, has_id, texts, App};
use crate::schemas::{schemas_sorted, sort_schemas};
use crate::text::{bool_str, bool_text, decimal, decimal_text, join2, join3, join4, join5};

verus! {

broadcast use crate::app::lemma_logs_extend_trans;

/// What follows a refresh of the change-set list.
#[derive(Debug, Clone)]
pub enum AfterRefresh {
    /// Start-up: schemas and components of the selection.
    Startup,
    /// The selection-change cascade for whatever ends up selected.
    Cascade,
    /// Select the change set just created, then the selection-change cascade.
    SelectCreated { id: String },
}

/// One remote call, and the step of a cascade that it serves.
#[derive(Debug, Clone)]
pub enum Request {
    Whoami,
    ListChangeSets { workspace_id: String, then: AfterRefresh },
    CreateChangeSet { workspace_id: String, name: String },
    GetChangeSet { workspace_id: String, change_set_id: String },
    GetMergeStatus { workspace_id: String, change_set_id: String },
    AbandonChangeSet { workspace_id: String, change_set_id: String },
    ForceApply { workspace_id: String, change_set_id: String },
    ListSchemas { workspace_id: String, change_set_id: String },
    ListComponents { workspace_id: String, change_set_id: String },
}

/// What a remote call came back with: its result and its own diagnostic
/// lines, or a readable description of the failure.
#[derive(Debug)]
pub enum Outcome {
    Whoami(Result<(WhoamiResponse, Vec<String>), String>),
    ChangeSets(Result<(ListChangeSetV1Response, Vec<String>), String>),
    Created(Result<(CreateChangeSetV1Response, Vec<String>), String>),
    ChangeSet(Result<(GetChangeSetV1Response, Vec<String>), String>),
    MergeStatus(Result<(MergeStatusV1Response, Vec<String>), String>),
    Abandoned(Result<(DeleteChangeSetV1Response, Vec<String>), String>),
    Applied(Result<Vec<String>, String>),
    Schemas(Result<ListSchemaV1Response, String>),
    Components(Result<(ListComponentsV1Response, Vec<String>), String>),
}

/// What the session does next.
#[derive(Debug)]
pub enum Step {
    /// Perform this call (after redrawing), then hand its outcome to `resume`.
    Call(Request),
    /// Nothing is pending; wait for the next key.
    Done,
    /// End the session.
    Quit,
}

/// Cursor after the list was refreshed from `prev` to `new_len` entries: kept
/// while in range, else clamped to the last entry, none for an empty list, and
/// the first entry when there was none.
pub open spec fn refreshed_index(prev: Option<usize>, new_len: nat) -> Option<usize> {
    if new_len == 0 {
        None
    } else {
        match prev {
            Some(i) => if i >= new_len {
                Some((new_len - 1) as usize)
            } else {
                Some(i)
            },
            None => Some(0usize),
        }
    }
}

/// The detail a finished `GetChangeSet` leaves behind.
pub open spec fn details_after(outcome: Result<(GetChangeSetV1Response, Vec<String>), String>) -> Option<
    crate::api_models::ChangeSet,
> {
    match outcome {
        Ok((resp, _)) => Some(resp.change_set),
        Err(_) => None,
    }
}

/// The merge status a finished `GetMergeStatus` leaves behind.
pub open spec fn merge_status_after(
    outcome: Result<(MergeStatusV1Response, Vec<String>), String>,
) -> Option<MergeStatusV1Response> {
    match outcome {
        Ok((resp, _)) => Some(resp),
        Err(_) => None,
    }
}

/// The line logged when the merge status could not be fetched.
pub open spec fn merge_status_error_line(change_set_id: Seq<char>, error: Seq<char>) -> Seq<char> {
    "Error fetching merge status for "@ + change_set_id + ": "@ + error
}

/// The line logged when a list refresh starts (or cannot).
pub open spec fn refresh_line(a: App) -> Seq<char> {
    match a.whoami_data {
        Some(w) => "Refreshing change sets for workspace "@ + w.workspace_id@ + "..."@,
        None => "Cannot refresh change sets: Whoami data not available."@,
    }
}

/// The line logged when the schemas of a change set are asked for.
pub open spec fn schemas_request_line(change_set_id: Seq<char>) -> Seq<char> {
    "Fetching schemas for change set "@ + change_set_id + "..."@
}

/// The line logged when the components of a change set are asked for.
pub open spec fn components_request_line(change_set_id: Seq<char>) -> Seq<char> {
    "Fetching components for change set "@ + change_set_id + "..."@
}

/// A component known only by its id, which also serves as its name.
pub fn placeholder_component(id: &String) -> (r: ComponentViewV1)
    ensures
        r.id == *id,
        r.name == *id,
{
    ComponentViewV1 {
        id: id.clone(),
        schema_id: String::from_str("unknown"),
        schema_variant_id: String::from_str("unknown"),
        sockets: Vec::new(),
        domain_props: Vec::new(),
        resource_props: Vec::new(),
        name: id.clone(),
        resource_id: String::from_str("unknown"),
        to_delete: false,
        can_be_upgraded: false,
        connections: Vec::new(),
        views: Vec::new(),
    }
}

/// One placeholder component per id, in order.
pub fn placeholder_components(ids: &Vec<String>) -> (r: Vec<ComponentViewV1>)
    ensures
        r@.len() == ids@.len(),
        forall|i: int| 0 <= i < ids@.len() ==> #[trigger] r@[i].id == ids@[i] && r@[i].name == ids@[i],
{
    let mut r: Vec<ComponentViewV1> = Vec::new();
    let mut i: usize = 0;
    while i < ids.len()
        invariant
            i <= ids@.len(),
            r@.len() == i,
            forall|j: int| 0 <= j < i ==> #[trigger] r@[j].id == ids@[j] && r@[j].name == ids@[j],
        decreases ids@.len() - i,
    {
        r.push(placeholder_component(&ids[i]));
        i = i + 1;
    }
    r
}

/// Opens a session: the first call asks who the session belongs to.
pub fn start_session(app: &mut App) -> (r: Step)
    ensures
        r == Step::Call(Request::Whoami),
        final(app).logs_extend(old(app), seq!["Fetching initial /whoami data..."@]),
        final(app).appends_to(old(app)),
        final(app).same_data(old(app)),
        final(app).same_ui(old(app)),
{
    app.log(String::from_str("Fetching initial /whoami data..."));
    Step::Call(Request::Whoami)
}

/// Asks for the change-set list again (or logs why it cannot).
pub fn refresh_change_sets(app: &mut App, then: AfterRefresh) -> (r: Step)
    ensures
        match old(app).whoami_data {
            Some(w) => {
                &&& r == Step::Call(
                    Request::ListChangeSets { workspace_id: w.workspace_id, then },
                )
                &&& final(app).current_action == old(app).current_action
            },
            None => r is Done && final(app).current_action is None,
        },
        final(app).logs_extend(old(app), seq![refresh_line(*old(app))]),
        final(app).appends_to(old(app)),
        final(app).same_data(old(app)),
        final(app).input_mode == old(app).input_mode,
        final(app).input_buffer == old(app).input_buffer,
        final(app).current_focus == old(app).current_focus,
        final(app).dropdown_focus == old(app).dropdown_focus,
        final(app).changeset_dropdown_active == old(app).changeset_dropdown_active,
{
    let ws = match &app.whoami_data {
        Some(w) => Some(w.workspace_id.clone()),
        None => None,
    };
    match ws {
        Some(ws) => {
            let line = join3("Refreshing change sets for workspace ", ws.as_str(), "...");
            app.log(line);
            Step::Call(Request::ListChangeSets { workspace_id: ws, then })
        },
        None => {
            app.log(String::from_str("Cannot refresh change sets: Whoami data not available."));
            app.current_action = None;
            Step::Done
        },
    }
}

/// Starts the selection-change cascade for one change set: what was fetched
/// for the old selection goes first, then the detail is asked for.
pub fn begin_selection_cascade(app: &mut App, workspace_id: String, change_set_id: String) -> (r: Step)
    ensures
        r == Step::Call(Request::GetChangeSet { workspace_id, change_set_id }),
        final(app).selection_data_cleared(),
        final(app).current_action matches Some(t) && t@ == "Fetching details, schemas & components..."@,
        final(app).same_logs(old(app)),
        final(app).whoami_data == old(app).whoami_data,
        final(app).change_sets == old(app).change_sets,
        final(app).change_set_list_state == old(app).change_set_list_state,
        final(app).schemas == old(app).schemas,
        final(app).schema_list_state == old(app).schema_list_state,
        final(app).input_mode == old(app).input_mode,
        final(app).input_buffer == old(app).input_buffer,
        final(app).current_focus == old(app).current_focus,
        final(app).dropdown_focus == old(app).dropdown_focus,
        final(app).changeset_dropdown_active == old(app).changeset_dropdown_active,
{
    app.selected_change_set_details = None;
    app.selected_change_set_merge_status = None;
    app.selected_change_set_components = None;
    app.current_action = Some(String::from_str("Fetching details, schemas & components..."));
    Step::Call(Request::GetChangeSet { workspace_id, change_set_id })
}

fn request_schemas(app: &mut App, workspace_id: String, change_set_id: String) -> (r: Step)
    ensures
        r == Step::Call(Request::ListSchemas { workspace_id, change_set_id }),
        final(app).logs_extend(old(app), seq![schemas_request_line(change_set_id@)]),
        final(app).appends_to(old(app)),
        final(app).same_data(old(app)),
        final(app).same_ui(old(app)),
{
    let line = join3("Fetching schemas for change set ", change_set_id.as_str(), "...");
    app.log(line);
    Step::Call(Request::ListSchemas { workspace_id, change_set_id })
}

pub(crate) fn request_components(app: &mut App, workspace_id: String, change_set_id: String) -> (r: Step)
    ensures
        r == Step::Call(Request::ListComponents { workspace_id, change_set_id }),
        final(app).logs_extend(old(app), seq![components_request_line(change_set_id@)]),
        final(app).appends_to(old(app)),
        final(app).same_data(old(app)),
        final(app).same_ui(old(app)),
{
    let line = join3("Fetching components for change set ", change_set_id.as_str(), "...");
    app.log(line);
    Step::Call(Request::ListComponents { workspace_id, change_set_id })
}

/// The identity, the change-set list and its cursor are as in `old`.
pub open spec fn same_list(new: App, old: App) -> bool {
    &&& new.whoami_data == old.whoami_data
    &&& new.change_sets == old.change_sets
    &&& new.change_set_list_state == old.change_set_list_state
}

/// The schema list and its cursor are as in `old`.
pub open spec fn same_schema_list(new: App, old: App) -> bool {
    &&& new.schemas == old.schemas
    &&& new.schema_list_state == old.schema_list_state
}

/// Mode, focus, dropdown and input text are as in `old` (the progress
/// indicator may differ).
pub open spec fn same_interaction(new: App, old: App) -> bool {
    &&& new.input_mode == old.input_mode
    &&& new.input_buffer == old.input_buffer
    &&& new.current_focus == old.current_focus
    &&& new.dropdown_focus == old.dropdown_focus
    &&& new.changeset_dropdown_active == old.changeset_dropdown_active
}

/// Effect of the identity call: on success the identity is kept and the list
/// refresh of start-up follows; on failure the session stays idle.
pub open spec fn whoami_applied(
    old: App,
    new: App,
    outcome: Result<(WhoamiResponse, Vec<String>), String>,
    r: Step,
) -> bool {
    &&& match outcome {
        Ok((w, lines)) => {
            &&& new.whoami_data == Some(w)
            &&& r == Step::Call(
                Request::ListChangeSets { workspace_id: w.workspace_id, then: AfterRefresh::Startup },
            )
            &&& new.logs_extend(
                &old,
                texts(lines@) + seq!["/whoami call successful."@] + seq![
                    "Refreshing change sets for workspace "@ + w.workspace_id@ + "..."@,
                ],
            )
        },
        Err(e) => {
            &&& new.whoami_data == old.whoami_data
            &&& r is Done
            &&& new.current_action is None
            &&& new.logs_extend(&old, seq!["Error fetching initial data: "@ + e@])
        },
    }
    &&& new.change_sets == old.change_sets
    &&& new.change_set_list_state == old.change_set_list_state
    &&& new.selected_change_set_details == old.selected_change_set_details
    &&& new.selected_change_set_merge_status == old.selected_change_set_merge_status
    &&& new.selected_change_set_components == old.selected_change_set_components
    &&& same_schema_list(new, old)
    &&& same_interaction(new, old)
    &&& new.appends_to(&old)
}

/// The cursor a list refresh leaves: the created change set when asked for and
/// present, else the kept-or-clamped cursor.
pub open spec fn cursor_after_refresh(
    prev: Option<usize>,
    list: Seq<ChangeSetSummary>,
    then: AfterRefresh,
    k: Option<usize>,
) -> bool {
    match then {
        AfterRefresh::SelectCreated { id } => if has_id(list, id@) {
            k matches Some(i) && first_with_id(list, id@, i as int)
        } else {
            k == refreshed_index(prev, list.len())
        },
        _ => k == refreshed_index(prev, list.len()),
    }
}

/// Effect of a list refresh. The list is replaced (kept on failure, where the
/// cursor is dropped); everything fetched for the old selection is dropped.
/// With a selection the next fetch starts (schemas at start-up, else the
/// selection-change cascade); without one the schema list is emptied too and
/// the session goes idle.
pub open spec fn change_sets_applied(
    old: App,
    new: App,
    workspace_id: String,
    then: AfterRefresh,
    outcome: Result<(ListChangeSetV1Response, Vec<String>), String>,
    r: Step,
) -> bool {
    &&& match outcome {
        Ok((resp, _)) => {
            &&& new.change_sets == Some(resp.change_sets)
            &&& cursor_after_refresh(
                old.change_set_list_state.index,
                resp.change_sets@,
                then,
                new.change_set_list_state.index,
            )
        },
        Err(_) => {
            &&& new.change_sets == old.change_sets
            &&& new.change_set_list_state.index is None
        },
    }
    &&& new.whoami_data == old.whoami_data
    &&& new.selection_data_cleared()
    &&& match new.selected_summary() {
        Some(s) => {
            &&& same_schema_list(new, old)
            &&& new.current_action is Some || then is Startup
            &&& r == Step::Call(
                if then is Startup {
                    Request::ListSchemas { workspace_id, change_set_id: s.id }
                } else {
                    Request::GetChangeSet { workspace_id, change_set_id: s.id }
                },
            )
        },
        None => {
            &&& r is Done
            &&& new.schemas@.len() == 0
            &&& new.schema_list_state.index is None
            &&& new.current_action is None
        },
    }
    &&& {
        let base = match outcome {
            Ok((_, lines)) => texts(lines@) + seq!["Change set list refreshed."@],
            Err(e) => seq!["Error refreshing change sets: "@ + e@],
        };
        if then is Startup {
            match new.selected_summary() {
                Some(s) => new.logs_extend(&old, base + seq![schemas_request_line(s.id@)]),
                None => new.logs_extend(
                    &old,
                    base + seq!["No change set selected initially, skipping schema fetch."@],
                ),
            }
        } else {
            new.logs_extend(&old, base)
        }
    }
    &&& same_interaction(new, old)
    &&& new.appends_to(&old)
}

/// Effect of fetching the detail: while that change set is selected, the detail
/// holds what the call returned (nothing on failure); the merge status is
/// untouched and is asked for next either way.
pub open spec fn change_set_applied(
    old: App,
    new: App,
    workspace_id: String,
    change_set_id: String,
    outcome: Result<(GetChangeSetV1Response, Vec<String>), String>,
    r: Step,
) -> bool {
    &&& new.selected_change_set_details == if old.is_selected(change_set_id@) {
        details_after(outcome)
    } else {
        old.selected_change_set_details
    }
    &&& new.selected_change_set_merge_status == old.selected_change_set_merge_status
    &&& new.selected_change_set_components == old.selected_change_set_components
    &&& r == Step::Call(Request::GetMergeStatus { workspace_id, change_set_id })
    &&& same_list(new, old)
    &&& same_schema_list(new, old)
    &&& new.same_ui(&old)
    &&& new.appends_to(&old)
    &&& new.logs_extend(
        &old,
        match outcome {
            Ok((_, lines)) => texts(lines@) + seq!["Details fetched for "@ + change_set_id@],
            Err(e) => seq!["Error fetching details for "@ + change_set_id@ + ": "@ + e@],
        },
    )
}

/// Effect of fetching the merge status: while that change set is selected, it
/// holds what the call returned (nothing on failure, with exactly one error
/// line); the detail is untouched and the schemas are asked for next either
/// way.
pub open spec fn merge_status_applied(
    old: App,
    new: App,
    workspace_id: String,
    change_set_id: String,
    outcome: Result<(MergeStatusV1Response, Vec<String>), String>,
    r: Step,
) -> bool {
    &&& new.selected_change_set_merge_status == if old.is_selected(change_set_id@) {
        merge_status_after(outcome)
    } else {
        old.selected_change_set_merge_status
    }
    &&& new.selected_change_set_details == old.selected_change_set_details
    &&& new.selected_change_set_components == old.selected_change_set_components
    &&& r == Step::Call(Request::ListSchemas { workspace_id, change_set_id })
    &&& same_list(new, old)
    &&& same_schema_list(new, old)
    &&& new.same_ui(&old)
    &&& new.appends_to(&old)
    &&& new.logs_extend(
        &old,
        match outcome {
            Ok((_, lines)) => texts(lines@) + seq!["Merge status fetched for "@ + change_set_id@],
            Err(e) => seq![merge_status_error_line(change_set_id@, e@)],
        } + seq![schemas_request_line(change_set_id@)],
    )
}

/// Effect of fetching the schemas: the same schemas, ordered by category then
/// name, with the cursor on the first (an empty list on failure); the
/// components are asked for next either way.
pub open spec fn schemas_applied(
    old: App,
    new: App,
    workspace_id: String,
    change_set_id: String,
    outcome: Result<ListSchemaV1Response, String>,
    r: Step,
) -> bool {
    &&& match outcome {
        Ok(resp) => {
            &&& new.schemas@.to_multiset() == resp.schemas@.to_multiset()
            &&& schemas_sorted(new.schemas@)
        },
        Err(_) => new.schemas@.len() == 0,
    }
    &&& new.schema_list_state.index == (if new.schemas@.len() > 0 {
        Some(0usize)
    } else {
        None
    })
    &&& r == Step::Call(Request::ListComponents { workspace_id, change_set_id })
    &&& same_list(new, old)
    &&& new.selected_change_set_details == old.selected_change_set_details
    &&& new.selected_change_set_merge_status == old.selected_change_set_merge_status
    &&& new.selected_change_set_components == old.selected_change_set_components
    &&& new.same_ui(&old)
    &&& new.appends_to(&old)
    &&& new.logs_extend(
        &old,
        match outcome {
            Ok(_) => seq!["Successfully fetched schemas."@],
            Err(e) => seq!["Error fetching schemas: "@ + e@],
        } + seq![components_request_line(change_set_id@)],
    )
}

/// Effect of fetching the components, the last step of a cascade: while that
/// change set is selected, one component per id returned (none on failure);
/// the session goes idle.
pub open spec fn components_applied(
    old: App,
    new: App,
    change_set_id: String,
    outcome: Result<(ListComponentsV1Response, Vec<String>), String>,
    r: Step,
) -> bool {
    &&& if old.is_selected(change_set_id@) {
        match outcome {
            Ok((resp, _)) => new.selected_change_set_components matches Some(v) && v@.len()
                == resp.components@.len() && forall|i: int|
                0 <= i < v@.len() ==> #[trigger] v@[i].id == resp.components@[i] && v@[i].name
                    == resp.components@[i],
            Err(_) => new.selected_change_set_components is None,
        }
    } else {
        new.selected_change_set_components == old.selected_change_set_components
    }
    &&& r is Done
    &&& new.current_action is None
    &&& same_list(new, old)
    &&& same_schema_list(new, old)
    &&& new.selected_change_set_details == old.selected_change_set_details
    &&& new.selected_change_set_merge_status == old.selected_change_set_merge_status
    &&& same_interaction(new, old)
    &&& new.appends_to(&old)
    &&& new.logs_extend(
        &old,
        match outcome {
            Ok((resp, lines)) => texts(lines@) + seq![
                "Successfully processed "@ + decimal_text(resp.components@.len()) + " component IDs."@,
            ],
            Err(e) => seq!["ERROR fetching components: "@ + e@] + seq![
                "Cleared component state due to fetch error."@,
            ],
        },
    )
}

/// What follows a create, an abandon or an apply: a refresh of the list,
/// which selects the created change set when one was created.
pub open spec fn refresh_follows(old: App, new: App, then: AfterRefresh, r: Step) -> bool {
    &&& match old.whoami_data {
        Some(w) => r == Step::Call(Request::ListChangeSets { workspace_id: w.workspace_id, then }),
        None => r is Done && new.current_action is None,
    }
    &&& same_list(new, old)
    &&& same_schema_list(new, old)
    &&& same_interaction(new, old)
    &&& new.appends_to(&old)
}

/// Effect of creating a change set: the list is refreshed either way; on
/// success the new change set is selected afterwards.
pub open spec fn created_applied(
    old: App,
    new: App,
    outcome: Result<(CreateChangeSetV1Response, Vec<String>), String>,
    r: Step,
) -> bool {
    &&& refresh_follows(
        old,
        new,
        match outcome {
            Ok((resp, _)) => AfterRefresh::SelectCreated { id: resp.change_set.id },
            Err(_) => AfterRefresh::Cascade,
        },
        r,
    )
    &&& new.selected_change_set_details == old.selected_change_set_details
    &&& new.selected_change_set_merge_status == old.selected_change_set_merge_status
    &&& new.selected_change_set_components == old.selected_change_set_components
    &&& new.logs_extend(
        &old,
        match outcome {
            Ok((resp, lines)) => texts(lines@) + seq![
                "Created changeset '"@ + resp.change_set.name@ + "' ("@ + resp.change_set.id@
                    + ")"@,
            ],
            Err(e) => seq!["Error creating changeset: "@ + e@],
        } + seq![refresh_line(old)],
    )
}

/// Effect of abandoning or applying a change set: whatever came back, the
/// detail and merge status are dropped and the list is refreshed.
pub open spec fn change_set_gone(old: App, new: App, r: Step) -> bool {
    &&& refresh_follows(old, new, AfterRefresh::Cascade, r)
    &&& new.selected_change_set_details is None
    &&& new.selected_change_set_merge_status is None
    &&& new.selected_change_set_components == old.selected_change_set_components
}

/// Effect of abandoning a change set, with the lines it logs.
pub open spec fn abandoned_applied(
    old: App,
    new: App,
    change_set_id: String,
    outcome: Result<(DeleteChangeSetV1Response, Vec<String>), String>,
    r: Step,
) -> bool {
    &&& change_set_gone(old, new, r)
    &&& new.logs_extend(
        &old,
        match outcome {
            Ok((resp, lines)) => texts(lines@) + seq![
                "Abandoned changeset "@ + change_set_id@ + " (Success: "@ + bool_text(resp.success)
                    + ")"@,
            ],
            Err(e) => seq!["Error abandoning changeset "@ + change_set_id@ + ": "@ + e@],
        } + seq![refresh_line(old)],
    )
}

/// Effect of applying a change set, with the lines it logs.
pub open spec fn apply_applied(
    old: App,
    new: App,
    change_set_id: String,
    outcome: Result<Vec<String>, String>,
    r: Step,
) -> bool {
    &&& change_set_gone(old, new, r)
    &&& new.logs_extend(
        &old,
        match outcome {
            Ok(lines) => texts(lines@) + seq!["Apply initiated for changeset "@ + change_set_id@],
            Err(e) => seq!["Error applying changeset "@ + change_set_id@ + ": "@ + e@],
        } + seq![refresh_line(old)],
    )
}

/// Keeps the identity, then refreshes the list (start-up).
pub fn on_whoami(app: &mut App, outcome: Result<(WhoamiResponse, Vec<String>), String>) -> (r: Step)
    ensures
        whoami_applied(*old(app), *final(app), outcome, r),
{
    match outcome {
        Ok((w, lines)) => {
            app.whoami_data = Some(w);
            app.log_lines(&lines);
            app.log(String::from_str("/whoami call successful."));
            refresh_change_sets(app, AfterRefresh::Startup)
        },
        Err(e) => {
            app.log(join2("Error fetching initial data: ", e.as_str()));
            app.current_action = None;
            Step::Done
        },
    }
}

/// Takes the refreshed list, settles the cursor and starts what follows.
pub fn on_change_sets(
    app: &mut App,
    workspace_id: String,
    then: AfterRefresh,
    outcome: Result<(ListChangeSetV1Response, Vec<String>), String>,
) -> (r: Step)
    ensures
        change_sets_applied(*old(app), *final(app), workspace_id, then, outcome, r),
{
    match outcome {
        Ok((resp, lines)) => {
            let new_len = resp.change_sets.len();
            let current = app.change_set_list_state.selected();
            if new_len == 0 {
                app.change_set_list_state.select(None);
            } else {
                match current {
                    Some(i) => {
                        if i >= new_len {
                            app.change_set_list_state.select(Some(new_len - 1));
                        }
                    },
                    None => app.change_set_list_state.select(Some(0)),
                }
            }
            app.change_sets = Some(resp.change_sets);
            app.selected_change_set_details = None;
            app.selected_change_set_merge_status = None;
            app.selected_change_set_components = None;
            app.log_lines(&lines);
            app.log(String::from_str("Change set list refreshed."));
            match &then {
                AfterRefresh::SelectCreated { id } => app.select_change_set_by_id(id.as_str()),
                _ => {},
            }
        },
        Err(e) => {
            app.change_set_list_state.select(None);
            app.selected_change_set_details = None;
            app.selected_change_set_merge_status = None;
            app.selected_change_set_components = None;
            app.log(join2("Error refreshing change sets: ", e.as_str()));
        },
    }
    let selected = match app.get_selected_changeset_summary() {
        Some(s) => Some(s.id.clone()),
        None => None,
    };
    match selected {
        Some(change_set_id) => match then {
            AfterRefresh::Startup => request_schemas(app, workspace_id, change_set_id),
            _ => begin_selection_cascade(app, workspace_id, change_set_id),
        },
        None => {
            app.schemas = Vec::new();
            app.schema_list_state.select(None);
            if let AfterRefresh::Startup = then {
                app.log(
                    String::from_str("No change set selected initially, skipping schema fetch."),
                );
            }
            app.current_action = None;
            Step::Done
        },
    }
}

/// Takes the detail of the selected change set; asks for its merge status.
pub fn on_change_set(
    app: &mut App,
    workspace_id: String,
    change_set_id: String,
    outcome: Result<(GetChangeSetV1Response, Vec<String>), String>,
) -> (r: Step)
    ensures
        change_set_applied(*old(app), *final(app), workspace_id, change_set_id, outcome, r),
{
    let current = app.selected_id_is(&change_set_id);
    match outcome {
        Ok((resp, lines)) => {
            if current {
                app.selected_change_set_details = Some(resp.change_set);
            }
            app.log_lines(&lines);
            app.log(join2("Details fetched for ", change_set_id.as_str()));
        },
        Err(e) => {
            if current {
                app.selected_change_set_details = None;
            }
            app.log(join4("Error fetching details for ", change_set_id.as_str(), ": ", e.as_str()));
        },
    }
    Step::Call(Request::GetMergeStatus { workspace_id, change_set_id })
}

/// Takes the merge status of the selected change set; asks for its schemas.
pub fn on_merge_status(
    app: &mut App,
    workspace_id: String,
    change_set_id: String,
    outcome: Result<(MergeStatusV1Response, Vec<String>), String>,
) -> (r: Step)
    ensures
        merge_status_applied(*old(app), *final(app), workspace_id, change_set_id, outcome, r),
{
    let current = app.selected_id_is(&change_set_id);
    match outcome {
        Ok((resp, lines)) => {
            if current {
                app.selected_change_set_merge_status = Some(resp);
            }
            app.log_lines(&lines);
            app.log(join2("Merge status fetched for ", change_set_id.as_str()));
        },
        Err(e) => {
            if current {
                app.selected_change_set_merge_status = None;
            }
            app.log(
                join4("Error fetching merge status for ", change_set_id.as_str(), ": ", e.as_str()),
            );
        },
    }
    request_schemas(app, workspace_id, change_set_id)
}

/// Takes the schema list, ordered; asks for the components.
pub fn on_schemas(
    app: &mut App,
    workspace_id: String,
    change_set_id: String,
    outcome: Result<ListSchemaV1Response, String>,
) -> (r: Step)
    ensures
        schemas_applied(*old(app), *final(app), workspace_id, change_set_id, outcome, r),
{
    match outcome {
        Ok(resp) => {
            app.schemas = sort_schemas(resp.schemas);
            if app.schemas.len() > 0 {
                app.schema_list_state.select(Some(0));
            } else {
                app.schema_list_state.select(None);
            }
            app.log(String::from_str("Successfully fetched schemas."));
        },
        Err(e) => {
            app.schemas = Vec::new();
            app.schema_list_state.select(None);
            app.log(join2("Error fetching schemas: ", e.as_str()));
        },
    }
    request_components(app, workspace_id, change_set_id)
}

/// Takes the component ids of the selected change set; the cascade ends.
pub fn on_components(
    app: &mut App,
    change_set_id: String,
    outcome: Result<(ListComponentsV1Response, Vec<String>), String>,
) -> (r: Step)
    ensures
        components_applied(*old(app), *final(app), change_set_id, outcome, r),
{
    let current = app.selected_id_is(&change_set_id);
    match outcome {
        Ok((resp, lines)) => {
            app.log_lines(&lines);
            let components = placeholder_components(&resp.components);
            let count = decimal(resp.components.len());
            if current {
                app.selected_change_set_components = Some(components);
            }
            app.log(join3("Successfully processed ", count.as_str(), " component IDs."));
        },
        Err(e) => {
            if current {
                app.selected_change_set_components = None;
            }
            app.log(join2("ERROR fetching components: ", e.as_str()));
            app.log(String::from_str("Cleared component state due to fetch error."));
        },
    }
    app.current_action = None;
    Step::Done
}

/// Logs how creating went and refreshes the list.
pub fn on_created(
    app: &mut App,
    outcome: Result<(CreateChangeSetV1Response, Vec<String>), String>,
) -> (r: Step)
    ensures
        created_applied(*old(app), *final(app), outcome, r),
{
    match outcome {
        Ok((resp, lines)) => {
            app.log_lines(&lines);
            app.log(
                join5(
                    "Created changeset '",
                    resp.change_set.name.as_str(),
                    "' (",
                    resp.change_set.id.as_str(),
                    ")",
                ),
            );
            refresh_change_sets(app, AfterRefresh::SelectCreated { id: resp.change_set.id })
        },
        Err(e) => {
            app.log(join2("Error creating changeset: ", e.as_str()));
            refresh_change_sets(app, AfterRefresh::Cascade)
        },
    }
}

/// Logs how abandoning went, drops the detail and refreshes the list.
pub fn on_abandoned(
    app: &mut App,
    change_set_id: String,
    outcome: Result<(DeleteChangeSetV1Response, Vec<String>), String>,
) -> (r: Step)
    ensures
        abandoned_applied(*old(app), *final(app), change_set_id, outcome, r),
{
    match outcome {
        Ok((resp, lines)) => {
            app.log_lines(&lines);
            app.log(
                join5(
                    "Abandoned changeset ",
                    change_set_id.as_str(),
                    " (Success: ",
                    bool_str(resp.success),
                    ")",
                ),
            );
        },
        Err(e) => {
            app.log(join4("Error abandoning changeset ", change_set_id.as_str(), ": ", e.as_str()));
        },
    }
    app.selected_change_set_details = None;
    app.selected_change_set_merge_status = None;
    refresh_change_sets(app, AfterRefresh::Cascade)
}

/// Logs how applying went, drops the detail and refreshes the list.
pub fn on_applied(app: &mut App, change_set_id: String, outcome: Result<Vec<String>, String>) -> (r:
    Step)
    ensures
        apply_applied(*old(app), *final(app), change_set_id, outcome, r),
{
    match outcome {
        Ok(lines) => {
            app.log_lines(&lines);
            app.log(join2("Apply initiated for changeset ", change_set_id.as_str()));
        },
        Err(e) => {
            app.log(join4("Error applying changeset ", change_set_id.as_str(), ": ", e.as_str()));
        },
    }
    app.selected_change_set_details = None;
    app.selected_change_set_merge_status = None;
    refresh_change_sets(app, AfterRefresh::Cascade)
}

/// Effect of handing an outcome back: that of the step the request served,
/// or, for an outcome of another kind than the call, one log line and an idle
/// session.
pub open spec fn resumed(old: App, new: App, request: Request, outcome: Outcome, r: Step) -> bool {
    match (request, outcome) {
        (Request::Whoami, Outcome::Whoami(o)) => whoami_applied(old, new, o, r),
        (Request::ListChangeSets { workspace_id, then }, Outcome::ChangeSets(o)) => change_sets_applied(
            old,
            new,
            workspace_id,
            then,
            o,
            r,
        ),
        (Request::CreateChangeSet { .. }, Outcome::Created(o)) => created_applied(old, new, o, r),
        (
            Request::GetChangeSet { workspace_id, change_set_id },
            Outcome::ChangeSet(o),
        ) => change_set_applied(old, new, workspace_id, change_set_id, o, r),
        (
            Request::GetMergeStatus { workspace_id, change_set_id },
            Outcome::MergeStatus(o),
        ) => merge_status_applied(old, new, workspace_id, change_set_id, o, r),
        (Request::AbandonChangeSet { change_set_id, .. }, Outcome::Abandoned(o)) => abandoned_applied(
            old,
            new,
            change_set_id,
            o,
            r,
        ),
        (Request::ForceApply { change_set_id, .. }, Outcome::Applied(o)) => apply_applied(
            old,
            new,
            change_set_id,
            o,
            r,
        ),
        (
            Request::ListSchemas { workspace_id, change_set_id },
            Outcome::Schemas(o),
        ) => schemas_applied(old, new, workspace_id, change_set_id, o, r),
        (Request::ListComponents { change_set_id, .. }, Outcome::Components(o)) => components_applied(
            old,
            new,
            change_set_id,
            o,
            r,
        ),
        _ => {
            &&& r is Done
            &&& new.current_action is None
            &&& new.same_data(&old)
            &&& same_interaction(new, old)
            &&& new.appends_to(&old)
            &&& new.logs_extend(
                &old,
                seq!["Unexpected reply from the service; nothing was changed."@],
            )
        },
    }
}

/// Applies the outcome of the call that `request` named, and names the next
/// call of the cascade.
pub fn resume(app: &mut App, request: Request, outcome: Outcome) -> (r: Step)
    ensures
        resumed(*old(app), *final(app), request, outcome, r),
{
    match (request, outcome) {
        (Request::Whoami, Outcome::Whoami(o)) => on_whoami(app, o),
        (Request::ListChangeSets { workspace_id, then }, Outcome::ChangeSets(o)) => on_change_sets(
            app,
            workspace_id,
            then,
            o,
        ),
        (Request::CreateChangeSet { .. }, Outcome::Created(o)) => on_created(app, o),
        (Request::GetChangeSet { workspace_id, change_set_id }, Outcome::ChangeSet(o)) => on_change_set(
            app,
            workspace_id,
            change_set_id,
            o,
        ),
        (
            Request::GetMergeStatus { workspace_id, change_set_id },
            Outcome::MergeStatus(o),
        ) => on_merge_status(app, workspace_id, change_set_id, o),
        (Request::AbandonChangeSet { change_set_id, .. }, Outcome::Abandoned(o)) => on_abandoned(
            app,
            change_set_id,
            o,
        ),
        (Request::ForceApply { change_set_id, .. }, Outcome::Applied(o)) => on_applied(
            app,
            change_set_id,
            o,
        ),
        (Request::ListSchemas { workspace_id, change_set_id }, Outcome::Schemas(o)) => on_schemas(
            app,
            workspace_id,
            change_set_id,
            o,
        ),
        (Request::ListComponents { change_set_id, .. }, Outcome::Components(o)) => on_components(
            app,
            change_set_id,
            o,
        ),
        _ => {
            app.log(String::from_str("Unexpected reply from the service; nothing was changed."));
            app.current_action = None;
            Step::Done
        },
    }
}

} // verus!
