//! Texts and lookups that the renderer shows; drawing itself happens outside
//! the library.
use vstd::prelude::*;
use vstd::string::StringExecFns;

use crate::api_models::{ChangeSetSummary, MergeStatusV1ResponseAction, SchemaSummary};
use crate::text::{join2, join3, join5};

verus! {

/// `name (status) - id`, one dropdown entry.
pub open spec fn change_set_label_text(cs: ChangeSetSummary) -> Seq<char> {
    cs.name@ + " ("@ + cs.status@ + ") - "@ + cs.id@
}

/// The dropdown entry of a change set.
pub fn change_set_label(cs: &ChangeSetSummary) -> (r: String)
    ensures
        r@ == change_set_label_text(*cs),
{
    join5(cs.name.as_str(), " (", cs.status.as_str(), ") - ", cs.id.as_str())
}

/// `  [kind] state name` followed by ` - component (id)` when the action
/// touches a component, or by a single space when it does not.
pub open spec fn action_label_text(a: MergeStatusV1ResponseAction) -> Seq<char> {
    "  ["@ + a.kind@ + "] "@ + a.state@ + " "@ + a.name@ + " "@ + match a.component {
        Some(c) => " - "@ + c.name@ + " ("@ + c.id@ + ")"@,
        None => Seq::empty(),
    }
}

/// The line of one pending action of the merge status.
pub fn action_label(a: &MergeStatusV1ResponseAction) -> (r: String)
    ensures
        r@ == action_label_text(*a),
{
    let head = join5("  [", a.kind.as_str(), "] ", a.state.as_str(), " ");
    let mut r = join3(head.as_str(), a.name.as_str(), " ");
    match &a.component {
        Some(c) => {
            let tail = join5(" - ", c.name.as_str(), " (", c.id.as_str(), ")");
            r.append(tail.as_str());
        },
        None => {
            assert(r@ + Seq::<char>::empty() =~= r@);
        },
    }
    r
}

/// `k` is the first schema of `schemas` whose id is `id`.
pub open spec fn first_schema_with_id(schemas: Seq<SchemaSummary>, id: Seq<char>, k: int) -> bool {
    &&& 0 <= k < schemas.len()
    &&& schemas[k].schema_id@ == id
    &&& forall|j: int| 0 <= j < k ==> schemas[j].schema_id@ != id
}

/// The first schema whose id matches a component's id.
pub fn schema_for_component(schemas: &Vec<SchemaSummary>, component_id: &str) -> (r: Option<usize>)
    ensures
        r matches Some(k) ==> first_schema_with_id(schemas@, component_id@, k as int),
        r is None ==> forall|j: int| 0 <= j < schemas@.len() ==> schemas@[j].schema_id@ != component_id@,
{
    let wanted = String::from_str(component_id);
    let mut i: usize = 0;
    while i < schemas.len()
        invariant
            i <= schemas@.len(),
            wanted@ == component_id@,
            forall|j: int| 0 <= j < i ==> schemas@[j].schema_id@ != component_id@,
        decreases schemas@.len() - i,
    {
        if schemas[i].schema_id == wanted {
            return Some(i);
        }
        i = i + 1;
    }
    None
}

/// `  - id (schema name)`, with `Unknown Schema` when no schema has the id.
pub fn component_label(schemas: &Vec<SchemaSummary>, component_id: &str) -> (r: String)
    ensures
        match schema_for_component_spec(schemas@, component_id@) {
            Some(k) => r@ == "  - "@ + component_id@ + " ("@ + schemas@[k].schema_name@ + ")"@,
            None => r@ == "  - "@ + component_id@ + " ("@ + "Unknown Schema"@ + ")"@,
        },
{
    match schema_for_component(schemas, component_id) {
        Some(k) => join5("  - ", component_id, " (", schemas[k].schema_name.as_str(), ")"),
        None => join5("  - ", component_id, " (", "Unknown Schema", ")"),
    }
}

/// The position of the first schema with the given id, if any.
pub open spec fn schema_for_component_spec(schemas: Seq<SchemaSummary>, id: Seq<char>) -> Option<int> {
    if exists|k: int| first_schema_with_id(schemas, id, k) {
        Some(choose|k: int| first_schema_with_id(schemas, id, k))
    } else {
        None
    }
}

/// A category heading goes before schema `i`: it is the first, or its
/// category differs from the one before it.
pub fn category_starts(schemas: &Vec<SchemaSummary>, i: usize) -> (r: bool)
    requires
        i < schemas@.len(),
    ensures
        r == (i == 0 || schemas@[i as int].category@ != schemas@[i - 1].category@),
{
    if i == 0 {
        true
    } else {
        !(schemas[i].category == schemas[i - 1].category)
    }
}

/// A schema's row under its category heading.
pub fn schema_row_text(s: &SchemaSummary) -> (r: String)
    ensures
        r@ == "  "@ + s.schema_name@,
{
    join2("  ", s.schema_name.as_str())
}

/// The selected change set's status as shown after its name.
pub fn status_suffix(cs: &ChangeSetSummary) -> (r: String)
    ensures
        r@ == " ("@ + cs.status@ + ")"@,
{
    join3(" (", cs.status.as_str(), ")")
}

/// The heading line of a change set's detail.
pub fn detail_heading(name: &str, id: &str) -> (r: String)
    ensures
        r@ == " "@ + name@ + " ("@ + id@ + ")"@,
{
    join5(" ", name, " (", id, ")")
}

} // verus!
