//! Properties that relate several operations of the session controller.
use vstd::prelude::*;

use crate::api_models::{GetChangeSetV1Response, ListChangeSetV1Response, MergeStatusV1Response};
use crate::app::{log_step, max_scroll, App, AppFocus, DropdownFocus, InputMode, LogOp};
use crate::cascade::{
    change_set_applied, change_sets_applied, details_after, merge_status_after,
    merge_status_applied, resumed, AfterRefresh, Outcome, Request, Step,
};
use crate::event_handler::{key_handled, KeyCode, KeyEvent};

verus! {

/// Length and offset of the log after a sequence of operations.
pub open spec fn log_steps(len: nat, offset: nat, ops: Seq<LogOp>, height: nat) -> (nat, nat)
    decreases ops.len(),
{
    if ops.len() == 0 {
        (len, offset)
    } else {
        let (l, o) = log_step(len, offset, ops[0], height);
        log_steps(l, o, ops.drop_first(), height)
    }
}

/// In the selection-change cascade (for the selected change set) the detail and
/// the merge status are fetched independently: the merge status is asked for whatever the detail call did,
/// and each ends up exactly as its own call left it.
pub proof fn law_detail_and_merge_status_independent(
    a0: App,
    a1: App,
    a2: App,
    workspace_id: String,
    change_set_id: String,
    details: Result<(GetChangeSetV1Response, Vec<String>), String>,
    merge_status: Result<(MergeStatusV1Response, Vec<String>), String>,
    r1: Step,
    r2: Step,
)
    requires
        a0.is_selected(change_set_id@),
        change_set_applied(a0, a1, workspace_id, change_set_id, details, r1),
        merge_status_applied(a1, a2, workspace_id, change_set_id, merge_status, r2),
    ensures
        r1 == Step::Call(Request::GetMergeStatus { workspace_id, change_set_id }),
        a2.selected_change_set_details == details_after(details),
        a2.selected_change_set_merge_status == merge_status_after(merge_status),
{
}

/// A list refresh keeps the selected index while the new list is longer than
/// it (the entry at that index is then selected), clamps it to the last entry
/// of a shorter non-empty list, and selects nothing in an empty list.
pub proof fn law_refresh_keeps_selection(
    a0: App,
    a1: App,
    workspace_id: String,
    then: AfterRefresh,
    resp: ListChangeSetV1Response,
    lines: Vec<String>,
    r: Step,
    i: usize,
)
    requires
        change_sets_applied(a0, a1, workspace_id, then, Ok((resp, lines)), r),
        a0.change_set_list_state.index == Some(i),
        !(then is SelectCreated),
    ensures
        resp.change_sets@.len() > i ==> {
            &&& a1.change_set_list_state.index == Some(i)
            &&& a1.selected_summary() == Some(resp.change_sets@[i as int])
        },
        0 < resp.change_sets@.len() <= i ==> a1.change_set_list_state.index == Some(
            (resp.change_sets@.len() - 1) as usize,
        ),
        resp.change_sets@.len() == 0 ==> a1.change_set_list_state.index is None,
{
}

/// Whatever sequence of appends and scrolls is applied, the log offset stays
/// within `[0, max(0, len - height)]` if it started there.
pub proof fn law_log_offset_in_range(len: nat, offset: nat, ops: Seq<LogOp>, height: nat)
    requires
        offset <= max_scroll(len, height),
    ensures
        log_steps(len, offset, ops, height).1 <= max_scroll(log_steps(len, offset, ops, height).0, height),
    decreases ops.len(),
{
    if ops.len() > 0 {
        let (l, o) = log_step(len, offset, ops[0], height);
        law_log_offset_in_range(l, o, ops.drop_first(), height);
    }
}

/// Opening the change-set dropdown and leaving it with Esc returns the focus to
/// the top bar, closes the dropdown, and leaves the selected change set as it
/// was.
pub proof fn law_dropdown_round_trip(
    a0: App,
    a1: App,
    a2: App,
    open: KeyEvent,
    esc: KeyEvent,
    r1: Step,
    r2: Step,
)
    requires
        a0.input_mode == InputMode::Normal,
        a0.current_focus == AppFocus::TopBar,
        a0.dropdown_focus == DropdownFocus::ChangeSet,
        !a0.changeset_dropdown_active,
        a0.change_set_count() > 0,
        a0.change_set_list_state.index is Some,
        open.code == KeyCode::Enter || open.code == KeyCode::Char(' '),
        esc.code == KeyCode::Esc,
        key_handled(a0, a1, open, r1),
        key_handled(a1, a2, esc, r2),
    ensures
        a1.current_focus == AppFocus::ChangeSetDropdown,
        a1.changeset_dropdown_active,
        a2.current_focus == AppFocus::TopBar,
        !a2.changeset_dropdown_active,
        a2.input_mode == InputMode::Normal,
        a2.change_set_list_state == a0.change_set_list_state,
        a2.selected_summary() == a0.selected_summary(),
{
}

/// A key press never leaves fetched data without a selection: detail, merge
/// status and components are held only while a change set is selected.
pub proof fn law_key_keeps_fetched_data_with_selection(a: App, b: App, key: KeyEvent, r: Step)
    requires
        a.fetched_only_for_selection(),
        key_handled(a, b, key, r),
    ensures
        b.fetched_only_for_selection(),
{
}

/// Applying a call's outcome never leaves fetched data without a selection.
pub proof fn law_outcome_keeps_fetched_data_with_selection(
    a: App,
    b: App,
    request: Request,
    outcome: Outcome,
    r: Step,
)
    requires
        a.fetched_only_for_selection(),
        resumed(a, b, request, outcome, r),
    ensures
        b.fetched_only_for_selection(),
{
}

} // verus!
