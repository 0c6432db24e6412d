//! The records exchanged with the change-management service.
//!
//! These are plain data: decoding them from the wire happens outside the
//! library, which only reads and rearranges them.
use vstd::prelude::*;

verus! {

/// Declares `serde_json::Value` so that records can carry arbitrary JSON
/// (property values, domains); the library never looks inside one.
#[verifier::external_type_specification]
#[verifier::external_body]
pub struct ExJsonValue(serde_json::Value);

/// Claims of the credential the session runs under.
#[derive(Debug, Clone)]
pub struct TokenDetails {
    pub iat: i64,
    pub sub: String,
    pub user_pk: String,
    pub workspace_pk: String,
}

/// Who the session belongs to; fetched once at start-up.
#[derive(Debug, Clone)]
pub struct WhoamiResponse {
    pub user_id: String,
    pub user_email: String,
    pub workspace_id: String,
    pub token: TokenDetails,
}

/// The structured body of a failed request.
#[derive(Debug, Clone)]
pub struct ApiError {
    pub code: Option<i32>,
    pub message: String,
    pub status_code: u16,
}

/// One entry of the change-set list.
#[derive(Debug, Clone)]
pub struct ChangeSetSummary {
    pub id: String,
    pub name: String,
    pub status: String,
}

/// The detail record of one change set.
#[derive(Debug, Clone)]
pub struct ChangeSet {
    pub id: String,
    pub name: String,
    pub status: String,
}

#[derive(Debug, Clone)]
pub struct ListChangeSetV1Response {
    pub change_sets: Vec<ChangeSetSummary>,
}

#[derive(Debug, Clone)]
pub struct CreateChangeSetV1Request {
    pub change_set_name: String,
}

#[derive(Debug, Clone)]
pub struct CreateChangeSetV1Response {
    pub change_set: ChangeSet,
}

#[derive(Debug, Clone)]
pub struct GetChangeSetV1Response {
    pub change_set: ChangeSet,
}

#[derive(Debug, Clone)]
pub struct DeleteChangeSetV1Response {
    pub success: bool,
}

#[derive(Debug, Clone)]
pub struct MergeStatusV1ResponseActionComponent {
    pub id: String,
    pub name: String,
}

/// One pending action of a change set.
#[derive(Debug, Clone)]
pub struct MergeStatusV1ResponseAction {
    pub id: String,
    pub state: String,
    pub kind: String,
    pub name: String,
    pub component: Option<MergeStatusV1ResponseActionComponent>,
}

/// What a change set would apply if it were applied now.
#[derive(Debug, Clone)]
pub struct MergeStatusV1Response {
    pub change_set: ChangeSet,
    pub actions: Vec<MergeStatusV1ResponseAction>,
}

#[derive(Debug, Clone)]
pub struct ComponentReference {
    pub component_id: String,
}

#[derive(Debug, Clone)]
pub struct ConnectionPoint {
    pub component_id: String,
    pub socket_name: String,
}

/// A socket connection named when a component is created.
#[derive(Debug, Clone)]
#[allow(inconsistent_fields)]
pub enum Connection {
    OutputToInput { from: ConnectionPoint, to: String },
    InputFromOutput { from: String, to: ConnectionPoint },
}

#[derive(Debug)]
pub struct CreateComponentV1Request {
    pub domain: serde_json::Value,
    pub name: String,
    pub schema_name: String,
    pub connections: Vec<Connection>,
    pub view_name: Option<String>,
}

#[derive(Debug, Clone)]
pub struct CreateComponentV1Response {
    pub component_id: String,
}

#[derive(Debug, Clone)]
pub struct GeometryAndViewAndName {
    pub name: String,
}

#[derive(Debug, Clone)]
pub struct GetComponentV1ResponseManagementFunction {
    pub management_prototype_id: String,
    pub name: String,
}

#[derive(Debug)]
pub struct GetComponentV1Response {
    pub component: serde_json::Value,
    pub domain: serde_json::Value,
    pub management_functions: Vec<GetComponentV1ResponseManagementFunction>,
    pub view_data: Vec<GeometryAndViewAndName>,
}

#[derive(Debug)]
pub struct UpdateComponentV1Request {
    pub domain: serde_json::Value,
    pub name: Option<String>,
}

#[derive(Debug, Clone)]
pub struct UpdateComponentV1Response {}

#[derive(Debug, Clone)]
pub struct DeleteComponentV1Response {
    pub status: String,
}

#[derive(Debug, Clone, Copy, PartialEq, Eq, Structural)]
pub enum SocketDirection {
    Input,
    Output,
}

#[derive(Debug)]
pub struct SocketViewV1 {
    pub id: String,
    pub name: String,
    pub direction: SocketDirection,
    pub arity: String,
    pub value: serde_json::Value,
}

#[derive(Debug, Clone)]
pub struct ViewV1 {
    pub id: String,
    pub name: String,
    pub is_default: bool,
}

#[derive(Debug)]
pub struct ComponentPropViewV1 {
    pub id: String,
    pub prop_id: String,
    pub value: serde_json::Value,
    pub path: String,
}

#[derive(Debug, Clone)]
pub struct IncomingConnectionViewV1 {
    pub from_component_id: String,
    pub from_component_name: String,
    pub from: String,
    pub to: String,
}

#[derive(Debug, Clone)]
pub struct OutgoingConnectionViewV1 {
    pub to_component_id: String,
    pub to_component_name: String,
    pub from: String,
}

#[derive(Debug, Clone)]
pub struct ManagingConnectionViewV1 {
    pub component_id: String,
    pub component_name: String,
}

#[derive(Debug, Clone)]
pub struct ManagedByConnectionViewV1 {
    pub component_id: String,
    pub component_name: String,
}

#[derive(Debug, Clone)]
pub enum ConnectionViewV1 {
    Incoming { incoming: IncomingConnectionViewV1 },
    Outgoing { outgoing: OutgoingConnectionViewV1 },
    Managing { managing: ManagingConnectionViewV1 },
    ManagedBy { managed_by: ManagedByConnectionViewV1 },
}

/// A component of the selected change set.
#[derive(Debug)]
pub struct ComponentViewV1 {
    pub id: String,
    pub schema_id: String,
    pub schema_variant_id: String,
    pub sockets: Vec<SocketViewV1>,
    pub domain_props: Vec<ComponentPropViewV1>,
    pub resource_props: Vec<ComponentPropViewV1>,
    pub name: String,
    pub resource_id: String,
    pub to_delete: bool,
    pub can_be_upgraded: bool,
    pub connections: Vec<ConnectionViewV1>,
    pub views: Vec<ViewV1>,
}

#[derive(Debug, Clone)]
pub struct ListComponentsV1Response {
    pub components: Vec<String>,
}

/// A template that components are instantiated from.
#[derive(Debug, Clone)]
pub struct SchemaSummary {
    pub schema_id: String,
    pub schema_name: String,
    pub category: String,
    pub installed: bool,
}

#[derive(Debug, Clone)]
pub struct ListSchemaV1Response {
    pub schemas: Vec<SchemaSummary>,
}

} // verus!
