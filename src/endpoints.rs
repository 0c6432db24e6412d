//! Addresses of the service's operations, and the text of a failed request.
use vstd::prelude::*;
use vstd::string::StringExecFns;

use crate::api_models::ApiError;
use crate::text::{decimal, decimal_text, join2, join3, join4};

verus! {

/// `base/v1/w/<workspace>/change-sets`.
pub open spec fn change_sets_path(base: Seq<char>, workspace_id: Seq<char>) -> Seq<char> {
    base + "/v1/w/"@ + workspace_id + "/change-sets"@
}

/// `base/v1/w/<workspace>/change-sets/<change set>`.
pub open spec fn change_set_path(base: Seq<char>, workspace_id: Seq<char>, change_set_id: Seq<char>) -> Seq<
    char,
> {
    change_sets_path(base, workspace_id) + "/"@ + change_set_id
}

/// Who the credential belongs to.
pub fn whoami_url(base: &str) -> (r: String)
    ensures
        r@ == base@ + "/whoami"@,
{
    join2(base, "/whoami")
}

/// The change sets of a workspace (list, create).
pub fn change_sets_url(base: &str, workspace_id: &str) -> (r: String)
    ensures
        r@ == change_sets_path(base@, workspace_id@),
{
    join4(base, "/v1/w/", workspace_id, "/change-sets")
}

/// One change set (get, abandon).
pub fn change_set_url(base: &str, workspace_id: &str, change_set_id: &str) -> (r: String)
    ensures
        r@ == change_set_path(base@, workspace_id@, change_set_id@),
{
    let list = change_sets_url(base, workspace_id);
    join3(list.as_str(), "/", change_set_id)
}

/// Something below one change set: `merge_status`, `force_apply`, `schema`,
/// `components`.
pub fn change_set_sub_url(base: &str, workspace_id: &str, change_set_id: &str, leaf: &str) -> (r:
    String)
    ensures
        r@ == change_set_path(base@, workspace_id@, change_set_id@) + "/"@ + leaf@,
{
    let cs = change_set_url(base, workspace_id, change_set_id);
    join3(cs.as_str(), "/", leaf)
}

/// One component of a change set (get, update, delete).
pub fn component_url(base: &str, workspace_id: &str, change_set_id: &str, component_id: &str) -> (r:
    String)
    ensures
        r@ == change_set_path(base@, workspace_id@, change_set_id@) + "/components/"@
            + component_id@,
{
    let cs = change_set_url(base, workspace_id, change_set_id);
    join3(cs.as_str(), "/components/", component_id)
}

/// Decimal notation of a signed number.
pub open spec fn signed_text(n: int) -> Seq<char> {
    if n < 0 {
        "-"@ + decimal_text((-n) as nat)
    } else {
        decimal_text(n as nat)
    }
}

/// `Some(<code>)` or `None`, as an optional code is printed for debugging.
pub open spec fn code_text(code: Option<i32>) -> Seq<char> {
    match code {
        Some(c) => "Some("@ + signed_text(c as int) + ")"@,
        None => "None"@,
    }
}

/// The text of a failed request: the status line, and the service's own code
/// and message when its error body could be read, else the raw body.
pub open spec fn failure_text(status: Seq<char>, error: Option<ApiError>, body: Seq<char>) -> Seq<char> {
    match error {
        Some(e) => "API request failed with status "@ + status + ": Code "@ + code_text(e.code)
            + ", Message: "@ + e.message@,
        None => "API request failed with status "@ + status + ": "@ + body,
    }
}

fn code_string(code: Option<i32>) -> (r: String)
    ensures
        r@ == code_text(code),
{
    match code {
        Some(c) => {
            let digits = if c < 0 {
                let magnitude: usize = (-(c as i64)) as usize;
                join2("-", decimal(magnitude).as_str())
            } else {
                decimal(c as usize)
            };
            join3("Some(", digits.as_str(), ")")
        },
        None => String::from_str("None"),
    }
}

/// Describes a failed request.
pub fn failure_message(status: &str, error: &Option<ApiError>, body: &str) -> (r: String)
    ensures
        r@ == failure_text(status@, *error, body@),
{
    match error {
        Some(e) => {
            let head = join4("API request failed with status ", status, ": Code ", code_string(e.code).as_str());
            join3(head.as_str(), ", Message: ", e.message.as_str())
        },
        None => join4("API request failed with status ", status, ": ", body),
    }
}

} // verus!
