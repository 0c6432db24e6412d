//! The session state: identity, the change-set collection and its cursor,
//! the data fetched for the selection, the log ring and the interaction mode.
use vstd::prelude::*;
use vstd::string::StringExecFns;

use crate::api_models::{
    ChangeSet, ChangeSetSummary, ComponentViewV1, MergeStatusV1Response, SchemaSummary,
    WhoamiResponse,
};

verus! {

/// Height of the log panel, in lines; every diagnostic scrolls against it.
pub const LOG_HEIGHT: usize = 10;

/// Largest scroll offset that still fills a viewport of `height` lines.
pub open spec fn max_scroll(len: nat, height: nat) -> nat {
    if len > height {
        (len - height) as nat
    } else {
        0
    }
}

/// Offset after one step up.
pub open spec fn scrolled_up(offset: nat) -> nat {
    if offset > 0 {
        (offset - 1) as nat
    } else {
        0
    }
}

/// Offset after one step down: one more, but never past `max_scroll`.
pub open spec fn scrolled_down(offset: nat, len: nat, height: nat) -> nat {
    if offset + 1 < max_scroll(len, height) {
        offset + 1
    } else {
        max_scroll(len, height)
    }
}

/// One operation on the log panel.
pub enum LogOp {
    Append,
    ScrollUp,
    ScrollDown,
}

/// Length and offset of the log after one operation, for a viewport of
/// `height` lines.
pub open spec fn log_step(len: nat, offset: nat, op: LogOp, height: nat) -> (nat, nat) {
    match op {
        LogOp::Append => (len + 1, max_scroll(len + 1, height)),
        LogOp::ScrollUp => (len, scrolled_up(offset)),
        LogOp::ScrollDown => (len, scrolled_down(offset, len, height)),
    }
}

/// Cursor after moving down a list of `len > 0` entries: wraps to the top,
/// and starts at the top when nothing is highlighted.
pub open spec fn next_index(index: Option<usize>, len: nat) -> Option<usize> {
    match index {
        Some(i) => if i + 1 >= len {
            Some(0usize)
        } else {
            Some((i + 1) as usize)
        },
        None => Some(0usize),
    }
}

/// Change-set cursor after moving up a list of `len > 0` entries: one up,
/// wrapping from the first entry to the last, and the first entry when
/// nothing is highlighted.
pub open spec fn previous_index(index: Option<usize>, len: nat) -> Option<usize> {
    match index {
        Some(i) => if i == 0 {
            Some((len - 1) as usize)
        } else {
            Some((i - 1) as usize)
        },
        None => Some(0usize),
    }
}

/// Schema cursor after moving up a list of `len > 0` schemas: one up,
/// wrapping from the first schema to the last, and the last schema when
/// nothing is highlighted.
pub open spec fn schema_previous_index(index: Option<usize>, len: nat) -> Option<usize> {
    match index {
        Some(i) => if i == 0 {
            Some((len - 1) as usize)
        } else {
            Some((i - 1) as usize)
        },
        None => Some((len - 1) as usize),
    }
}

/// The texts of some log lines.
pub open spec fn texts(lines: Seq<String>) -> Seq<Seq<char>> {
    lines.map_values(|l: String| l@)
}

/// `c`'s log is `a`'s followed by `x` then `y`.
pub broadcast proof fn lemma_logs_extend_trans(
    a: &App,
    b: &App,
    c: &App,
    x: Seq<Seq<char>>,
    y: Seq<Seq<char>>,
)
    requires
        #[trigger] b.logs_extend(a, x),
        #[trigger] c.logs_extend(b, y),
    ensures
        c.logs_extend(a, x + y),
{
    assert forall|j: int| 0 <= j < (x + y).len() implies c.logs@[a.logs@.len() + j]@ == #[trigger] (x
        + y)[j] by {
        if j < x.len() {
            assert(c.logs@[a.logs@.len() + j] == b.logs@[a.logs@.len() + j]);
            assert(b.logs@[a.logs@.len() + j]@ == x[j]);
        } else {
            let k = j - x.len();
            assert(y[k] == (x + y)[j]);
            assert(c.logs@[b.logs@.len() + k]@ == y[k]);
        }
    }
    assert forall|i: int| 0 <= i < a.logs@.len() implies #[trigger] c.logs@[i] == a.logs@[i] by {
        assert(c.logs@[i] == b.logs@[i]);
    }
}

/// `k` is the first position of `list` whose id is `id`.
pub open spec fn first_with_id(list: Seq<ChangeSetSummary>, id: Seq<char>, k: int) -> bool {
    &&& 0 <= k < list.len()
    &&& list[k].id@ == id
    &&& forall|j: int| 0 <= j < k ==> list[j].id@ != id
}

/// Some entry of `list` has the id `id`.
pub open spec fn has_id(list: Seq<ChangeSetSummary>, id: Seq<char>) -> bool {
    exists|j: int| 0 <= j < list.len() && list[j].id@ == id
}

/// The diagnostic written when the schema cursor moves.
pub open spec fn schema_selected_line(s: SchemaSummary) -> Seq<char> {
    "DEBUG: Selected schema: "@ + s.schema_name@ + " (id: "@ + s.schema_id@ + ")"@
}

/// Which text the keyboard is feeding.
#[derive(Debug, Clone, Copy, PartialEq, Eq, Structural)]
pub enum InputMode {
    Normal,
    ChangeSetName,
}

/// The pane that owns keyboard input.
#[derive(Debug, Clone, Copy, PartialEq, Eq, Structural)]
pub enum AppFocus {
    TopBar,
    SchemaList,
    ContentArea,
    LogPanel,
    ChangeSetDropdown,
    Input,
}

/// Which trigger of the top bar is highlighted.
#[derive(Debug, Clone, Copy, PartialEq, Eq, Structural)]
pub enum DropdownFocus {
    Workspace,
    ChangeSet,
}

/// The cursor of a list: at most one highlighted index.
#[derive(Debug, Clone, Copy)]
pub struct ListState {
    pub index: Option<usize>,
}

impl ListState {
    pub fn new() -> (r: ListState)
        ensures
            r.index is None,
    {
        ListState { index: None }
    }

    pub fn selected(&self) -> (r: Option<usize>)
        ensures
            r == self.index,
    {
        self.index
    }

    pub fn select(&mut self, index: Option<usize>)
        ensures
            final(self).index == index,
    {
        self.index = index;
    }
}

/// Everything the terminal client shows and edits.
#[derive(Debug)]
pub struct App {
    pub whoami_data: Option<WhoamiResponse>,
    pub change_sets: Option<Vec<ChangeSetSummary>>,
    pub change_set_list_state: ListState,
    pub selected_change_set_details: Option<ChangeSet>,
    pub selected_change_set_merge_status: Option<MergeStatusV1Response>,
    pub selected_change_set_components: Option<Vec<ComponentViewV1>>,
    pub current_action: Option<String>,
    pub input_mode: InputMode,
    pub input_buffer: String,
    pub logs: Vec<String>,
    pub log_scroll: usize,
    pub dropdown_focus: DropdownFocus,
    pub changeset_dropdown_active: bool,
    pub schemas: Vec<SchemaSummary>,
    pub schema_list_state: ListState,
    pub current_focus: AppFocus,
}

impl App {
    /// The log offset lies in `[0, max(0, len - LOG_HEIGHT)]`.
    pub open spec fn logs_wf(&self) -> bool {
        self.log_scroll <= max_scroll(self.logs@.len(), LOG_HEIGHT as nat)
    }

    /// Number of change sets held (none when the list was never fetched).
    pub open spec fn change_set_count(&self) -> nat {
        match self.change_sets {
            Some(v) => v@.len(),
            None => 0,
        }
    }

    /// The two apps agree on the fetched data and its cursors.
    pub open spec fn same_data(&self, o: &App) -> bool {
        &&& self.whoami_data == o.whoami_data
        &&& self.change_sets == o.change_sets
        &&& self.change_set_list_state == o.change_set_list_state
        &&& self.selected_change_set_details == o.selected_change_set_details
        &&& self.selected_change_set_merge_status == o.selected_change_set_merge_status
        &&& self.selected_change_set_components == o.selected_change_set_components
        &&& self.schemas == o.schemas
        &&& self.schema_list_state == o.schema_list_state
    }

    /// The two apps agree on mode, focus, input text and progress indicator.
    pub open spec fn same_ui(&self, o: &App) -> bool {
        &&& self.current_action == o.current_action
        &&& self.input_mode == o.input_mode
        &&& self.input_buffer == o.input_buffer
        &&& self.dropdown_focus == o.dropdown_focus
        &&& self.changeset_dropdown_active == o.changeset_dropdown_active
        &&& self.current_focus == o.current_focus
    }

    /// Lines were only added at the end of `old`'s log, and the offset
    /// invariant survived.
    pub open spec fn appends_to(&self, old: &App) -> bool {
        &&& old.logs@.len() <= self.logs@.len()
        &&& forall|i: int| 0 <= i < old.logs@.len() ==> #[trigger] self.logs@[i] == old.logs@[i]
        &&& (old.logs_wf() ==> self.logs_wf())
    }

    /// The two apps hold the same log lines and offset.
    pub open spec fn same_logs(&self, o: &App) -> bool {
        &&& self.logs == o.logs
        &&& self.log_scroll == o.log_scroll
    }

    /// The summary under the change-set cursor, if the cursor is on an entry.
    pub open spec fn selected_summary(&self) -> Option<ChangeSetSummary> {
        match (self.change_set_list_state.index, self.change_sets) {
            (Some(i), Some(v)) => if i < v@.len() {
                Some(v@[i as int])
            } else {
                None
            },
            _ => None,
        }
    }

    /// The change set under the cursor has the id `id`.
    pub open spec fn is_selected(&self, id: Seq<char>) -> bool {
        self.selected_summary() matches Some(s) && s.id@ == id
    }

    /// The log is `old`'s followed by lines with the texts `added`; the view
    /// snaps to the bottom when anything was added, and stays otherwise.
    pub open spec fn logs_extend(&self, old: &App, added: Seq<Seq<char>>) -> bool {
        &&& self.logs@.len() == old.logs@.len() + added.len()
        &&& forall|i: int| 0 <= i < old.logs@.len() ==> #[trigger] self.logs@[i] == old.logs@[i]
        &&& forall|j: int| 0 <= j < added.len() ==> self.logs@[old.logs@.len() + j]@ == #[trigger] added[j]
        &&& if added.len() > 0 {
            self.log_scroll == max_scroll(self.logs@.len(), LOG_HEIGHT as nat)
        } else {
            self.log_scroll == old.log_scroll
        }
    }

    /// The schema cursor is at most one past the last schema (moving up from
    /// further out would leave the list).
    pub open spec fn schema_cursor_ok(&self) -> bool {
        self.schemas@.len() > 0 ==> (self.schema_list_state.index matches Some(i) ==> i
            <= self.schemas@.len())
    }

    /// What is fetched for a selection (detail, merge status, components) is
    /// held only while a change set is selected.
    pub open spec fn fetched_only_for_selection(&self) -> bool {
        (self.selected_change_set_details is Some || self.selected_change_set_merge_status is Some
            || self.selected_change_set_components is Some) ==> self.selected_summary() is Some
    }

    /// Whether the change set under the cursor has the given id.
    pub fn selected_id_is(&self, id: &String) -> (r: bool)
        ensures
            r == self.is_selected(id@),
    {
        match self.get_selected_changeset_summary() {
            Some(s) => s.id == *id,
            None => false,
        }
    }

    /// Nothing fetched for a selection is held.
    pub open spec fn selection_data_cleared(&self) -> bool {
        &&& self.selected_change_set_details is None
        &&& self.selected_change_set_merge_status is None
        &&& self.selected_change_set_components is None
    }

    /// The two apps agree on everything but the change-set cursor and what was
    /// fetched for it.
    pub open spec fn same_but_selection(&self, o: &App) -> bool {
        &&& self.whoami_data == o.whoami_data
        &&& self.change_sets == o.change_sets
        &&& self.schemas == o.schemas
        &&& self.schema_list_state == o.schema_list_state
        &&& self.same_ui(o)
        &&& self.same_logs(o)
    }

    /// A fresh session: nothing fetched, focus on the top bar, normal mode.
    pub fn new() -> (r: App)
        ensures
            r.whoami_data is None,
            r.change_sets is None,
            r.change_set_list_state.index is None,
            r.selected_change_set_details is None,
            r.selected_change_set_merge_status is None,
            r.selected_change_set_components is None,
            r.current_action is None,
            r.input_mode == InputMode::Normal,
            r.input_buffer@.len() == 0,
            r.logs@.len() == 0,
            r.log_scroll == 0,
            r.dropdown_focus == DropdownFocus::Workspace,
            !r.changeset_dropdown_active,
            r.schemas@.len() == 0,
            r.schema_list_state.index is None,
            r.current_focus == AppFocus::TopBar,
            r.logs_wf(),
    {
        App {
            whoami_data: None,
            change_sets: None,
            change_set_list_state: ListState::new(),
            selected_change_set_details: None,
            selected_change_set_merge_status: None,
            selected_change_set_components: None,
            current_action: None,
            input_mode: InputMode::Normal,
            input_buffer: String::new(),
            logs: Vec::new(),
            log_scroll: 0,
            dropdown_focus: DropdownFocus::Workspace,
            changeset_dropdown_active: false,
            schemas: Vec::new(),
            schema_list_state: ListState::new(),
            current_focus: AppFocus::TopBar,
        }
    }

    /// Appends a line and snaps the view to the bottom.
    pub fn add_log_auto_scroll(&mut self, message: String, view_height: usize)
        ensures
            final(self).logs@ == old(self).logs@.push(message),
            final(self).log_scroll == max_scroll(final(self).logs@.len(), view_height as nat),
            (final(self).logs@.len(), final(self).log_scroll as nat) == log_step(
                old(self).logs@.len(),
                old(self).log_scroll as nat,
                LogOp::Append,
                view_height as nat,
            ),
            final(self).same_data(old(self)),
            final(self).same_ui(old(self)),
    {
        self.logs.push(message);
        let len = self.logs.len();
        self.log_scroll = if len > view_height { len - view_height } else { 0 };
    }

    /// Moves the view one line up, stopping at the top.
    pub fn scroll_logs_up(&mut self)
        ensures
            final(self).log_scroll == scrolled_up(old(self).log_scroll as nat),
            forall|height: nat|
                (final(self).logs@.len(), final(self).log_scroll as nat) == #[trigger] log_step(
                    old(self).logs@.len(),
                    old(self).log_scroll as nat,
                    LogOp::ScrollUp,
                    height,
                ),
            final(self).logs == old(self).logs,
            final(self).same_data(old(self)),
            final(self).same_ui(old(self)),
    {
        if self.log_scroll > 0 {
            self.log_scroll = self.log_scroll - 1;
        }
    }

    /// Moves the view one line down, stopping where the last line is at the bottom.
    pub fn scroll_logs_down(&mut self, view_height: usize)
        ensures
            final(self).log_scroll == scrolled_down(
                old(self).log_scroll as nat,
                old(self).logs@.len(),
                view_height as nat,
            ),
            (final(self).logs@.len(), final(self).log_scroll as nat) == log_step(
                old(self).logs@.len(),
                old(self).log_scroll as nat,
                LogOp::ScrollDown,
                view_height as nat,
            ),
            final(self).logs == old(self).logs,
            final(self).same_data(old(self)),
            final(self).same_ui(old(self)),
    {
        let len = self.logs.len();
        let max: usize = if len > view_height { len - view_height } else { 0 };
        let next: usize = if self.log_scroll < usize::MAX { self.log_scroll + 1 } else { usize::MAX };
        self.log_scroll = if next < max { next } else { max };
    }

    /// Moves the change-set cursor down (wrapping) and drops what was fetched
    /// for the old selection. Nothing happens without entries.
    pub fn change_set_next(&mut self)
        ensures
            old(self).change_set_count() == 0 ==> *final(self) == *old(self),
            old(self).change_set_count() > 0 ==> {
                &&& final(self).change_set_list_state.index == next_index(
                    old(self).change_set_list_state.index,
                    old(self).change_set_count(),
                )
                &&& final(self).selection_data_cleared()
                &&& final(self).same_but_selection(old(self))
            },
    {
        let len: usize = match &self.change_sets {
            Some(v) => v.len(),
            None => 0,
        };
        if len == 0 {
            return;
        }
        let i: usize = match self.change_set_list_state.selected() {
            Some(i) => if i >= len - 1 {
                0
            } else {
                i + 1
            },
            None => 0,
        };
        self.change_set_list_state.select(Some(i));
        self.selected_change_set_details = None;
        self.selected_change_set_merge_status = None;
        self.selected_change_set_components = None;
    }

    /// Moves the change-set cursor up (wrapping) and drops what was fetched
    /// for the old selection. Nothing happens without entries.
    pub fn change_set_previous(&mut self)
        ensures
            old(self).change_set_count() == 0 ==> *final(self) == *old(self),
            old(self).change_set_count() > 0 ==> {
                &&& final(self).change_set_list_state.index == previous_index(
                    old(self).change_set_list_state.index,
                    old(self).change_set_count(),
                )
                &&& final(self).selection_data_cleared()
                &&& final(self).same_but_selection(old(self))
            },
    {
        let len: usize = match &self.change_sets {
            Some(v) => v.len(),
            None => 0,
        };
        if len == 0 {
            return;
        }
        let i: usize = match self.change_set_list_state.selected() {
            Some(i) => if i == 0 {
                len - 1
            } else {
                i - 1
            },
            None => 0,
        };
        self.change_set_list_state.select(Some(i));
        self.selected_change_set_details = None;
        self.selected_change_set_merge_status = None;
        self.selected_change_set_components = None;
    }

    /// Puts the cursor on the first change set with the given id and drops
    /// what was fetched for the old selection; without such an entry nothing
    /// changes.
    pub fn select_change_set_by_id(&mut self, change_set_id: &str)
        ensures
            match old(self).change_sets {
                Some(v) => if has_id(v@, change_set_id@) {
                    &&& final(self).change_set_list_state.index matches Some(k)
                    &&& first_with_id(v@, change_set_id@, k as int)
                    &&& final(self).selection_data_cleared()
                    &&& final(self).same_but_selection(old(self))
                } else {
                    *final(self) == *old(self)
                },
                None => *final(self) == *old(self),
            },
    {
        let wanted = String::from_str(change_set_id);
        let mut found: Option<usize> = None;
        match &self.change_sets {
            Some(v) => {
                let mut i: usize = 0;
                while i < v.len()
                    invariant_except_break
                        found is None,
                    invariant
                        i <= v@.len(),
                        wanted@ == change_set_id@,
                        forall|j: int| 0 <= j < i ==> v@[j].id@ != change_set_id@,
                    ensures
                        found matches Some(k) ==> first_with_id(v@, change_set_id@, k as int),
                        found is None ==> !has_id(v@, change_set_id@),
                    decreases v@.len() - i,
                {
                    if v[i].id == wanted {
                        found = Some(i);
                        break;
                    }
                    i = i + 1;
                }
            },
            None => {},
        }
        if let Some(k) = found {
            self.change_set_list_state.select(Some(k));
            self.selected_change_set_details = None;
            self.selected_change_set_merge_status = None;
            self.selected_change_set_components = None;
        }
    }

    /// The summary under the change-set cursor.
    pub fn get_selected_changeset_summary(&self) -> (r: Option<&ChangeSetSummary>)
        ensures
            r is Some <==> self.selected_summary() is Some,
            r matches Some(s) ==> *s == self.selected_summary()->0,
    {
        match (self.change_set_list_state.selected(), &self.change_sets) {
            (Some(i), Some(v)) => if i < v.len() {
                Some(&v[i])
            } else {
                None
            },
            _ => None,
        }
    }

    /// Moves the schema cursor down (wrapping) and logs the schema now under it.
    pub fn schema_next(&mut self)
        ensures
            old(self).schemas@.len() == 0 ==> *final(self) == *old(self),
            old(self).schemas@.len() > 0 ==> {
                let k = next_index(old(self).schema_list_state.index, old(self).schemas@.len());
                &&& final(self).schema_list_state.index == k
                &&& final(self).logs@ == old(self).logs@.push(
                    final(self).logs@.last(),
                )
                &&& final(self).logs@.last()@ == schema_selected_line(old(self).schemas@[k->0 as int])
                &&& final(self).logs_extend(
                    old(self),
                    seq![schema_selected_line(old(self).schemas@[k->0 as int])],
                )
                &&& final(self).log_scroll == max_scroll(final(self).logs@.len(), LOG_HEIGHT as nat)
                &&& final(self).same_ui(old(self))
                &&& final(self).whoami_data == old(self).whoami_data
                &&& final(self).change_sets == old(self).change_sets
                &&& final(self).change_set_list_state == old(self).change_set_list_state
                &&& final(self).selected_change_set_details == old(self).selected_change_set_details
                &&& final(self).selected_change_set_merge_status == old(self).selected_change_set_merge_status
                &&& final(self).selected_change_set_components == old(self).selected_change_set_components
                &&& final(self).schemas == old(self).schemas
            },
    {
        let len = self.schemas.len();
        if len == 0 {
            return;
        }
        let i: usize = match self.schema_list_state.selected() {
            Some(i) => if i >= len - 1 {
                0
            } else {
                i + 1
            },
            None => 0,
        };
        self.schema_list_state.select(Some(i));
        self.log_schema_selected(i);
    }

    /// Moves the schema cursor up (wrapping) and logs the schema now under it.
    pub fn schema_previous(&mut self)
        requires
            old(self).schema_cursor_ok(),
        ensures
            old(self).schemas@.len() == 0 ==> *final(self) == *old(self),
            old(self).schemas@.len() > 0 ==> {
                let k = schema_previous_index(old(self).schema_list_state.index, old(self).schemas@.len());
                &&& final(self).schema_list_state.index == k
                &&& final(self).logs@ == old(self).logs@.push(
                    final(self).logs@.last(),
                )
                &&& final(self).logs@.last()@ == schema_selected_line(old(self).schemas@[k->0 as int])
                &&& final(self).logs_extend(
                    old(self),
                    seq![schema_selected_line(old(self).schemas@[k->0 as int])],
                )
                &&& final(self).log_scroll == max_scroll(final(self).logs@.len(), LOG_HEIGHT as nat)
                &&& final(self).same_ui(old(self))
                &&& final(self).whoami_data == old(self).whoami_data
                &&& final(self).change_sets == old(self).change_sets
                &&& final(self).change_set_list_state == old(self).change_set_list_state
                &&& final(self).selected_change_set_details == old(self).selected_change_set_details
                &&& final(self).selected_change_set_merge_status == old(self).selected_change_set_merge_status
                &&& final(self).selected_change_set_components == old(self).selected_change_set_components
                &&& final(self).schemas == old(self).schemas
            },
    {
        let len = self.schemas.len();
        if len == 0 {
            return;
        }
        let i: usize = match self.schema_list_state.selected() {
            Some(i) => if i == 0 {
                len - 1
            } else {
                i - 1
            },
            None => len - 1,
        };
        self.schema_list_state.select(Some(i));
        self.log_schema_selected(i);
    }

    fn log_schema_selected(&mut self, i: usize)
        requires
            i < old(self).schemas@.len(),
        ensures
            final(self).logs@ == old(self).logs@.push(final(self).logs@.last()),
            final(self).logs@.last()@ == schema_selected_line(old(self).schemas@[i as int]),
            final(self).logs_extend(old(self), seq![schema_selected_line(old(self).schemas@[i as int])]),
            final(self).log_scroll == max_scroll(final(self).logs@.len(), LOG_HEIGHT as nat),
            final(self).same_data(old(self)),
            final(self).same_ui(old(self)),
    {
        let mut line = String::from_str("DEBUG: Selected schema: ");
        line.append(self.schemas[i].schema_name.as_str());
        line.append(" (id: ");
        line.append(self.schemas[i].schema_id.as_str());
        line.append(")");
        self.add_log_auto_scroll(line, LOG_HEIGHT);
    }

    /// Appends a diagnostic against the log panel's height.
    pub fn log(&mut self, line: String)
        ensures
            final(self).logs@ == old(self).logs@.push(line),
            final(self).log_scroll == max_scroll(final(self).logs@.len(), LOG_HEIGHT as nat),
            final(self).logs_wf(),
            final(self).appends_to(old(self)),
            final(self).logs_extend(old(self), seq![line@]),
            final(self).same_data(old(self)),
            final(self).same_ui(old(self)),
    {
        self.add_log_auto_scroll(line, LOG_HEIGHT);
    }

    /// Appends each of a call's own diagnostics, in order.
    pub fn log_lines(&mut self, lines: &Vec<String>)
        ensures
            final(self).logs@ == old(self).logs@ + lines@,
            final(self).appends_to(old(self)),
            final(self).logs_extend(old(self), texts(lines@)),
            final(self).same_data(old(self)),
            final(self).same_ui(old(self)),
    {
        let mut i: usize = 0;
        while i < lines.len()
            invariant
                i <= lines@.len(),
                self.logs@ == old(self).logs@ + lines@.subrange(0, i as int),
                old(self).logs_wf() ==> self.logs_wf(),
                i > 0 ==> self.log_scroll == max_scroll(self.logs@.len(), LOG_HEIGHT as nat),
                i == 0 ==> self.log_scroll == old(self).log_scroll,
                self.same_data(old(self)),
                self.same_ui(old(self)),
            decreases lines@.len() - i,
        {
            self.log(lines[i].clone());
            proof {
                assert(lines@.subrange(0, i + 1) == lines@.subrange(0, i as int).push(lines@[i as int]));
            }
            i = i + 1;
        }
        proof {
            assert(lines@.subrange(0, lines@.len() as int) == lines@);
            assert(texts(lines@).len() == lines@.len());
            assert forall|j: int| 0 <= j < texts(lines@).len() implies self.logs@[old(self).logs@.len()
                + j]@ == #[trigger] texts(lines@)[j] by {
                assert(self.logs@[old(self).logs@.len() + j] == lines@[j]);
            }
        }
    }
}

} // verus!
