//! Routing of gateway requests: which handler answers a method and path,
//! and whether the admin session must be checked first.
use vstd::prelude::*;

use crate::text::{chars_of, has_prefix, starts_with};

verus! {

/// The request methods the gateway tells apart.
#[derive(Clone, Copy, Debug, PartialEq, Eq, Structural)]
pub enum HttpMethod {
    Get,
    Head,
    Post,
    Put,
    Delete,
    Connect,
    Options,
    Trace,
    Patch,
    Other,
}

/// Whose credentials a route checks before its handler runs.
#[derive(Clone, Copy, Debug, PartialEq, Eq, Structural)]
pub enum Gate {
    /// The handler runs as it is (it may check credentials itself).
    Open,
    /// An admin session is required before a read handler runs.
    AdminRead,
    /// An admin session is required before a write handler runs.
    AdminWrite,
}

/// The handler that answers a request.
#[derive(Clone, Copy, Debug, PartialEq, Eq, Structural)]
pub enum Route {
    Preflight,
    Health,
    GetVersion,
    GetAdminSummary,
    GetAdminConversations,
    GetAdminMessages,
    GetAdminResidents,
    GetAdminRooms,
    GetAdminConfig,
    GetAdminLogs,
    GetAdminMessagesModeration,
    GetAdminInvites,
    GetPermissionGroups,
    GetCapabilityCatalog,
    GetAuditLog,
    PostAdminBanResident,
    PostAdminUnbanResident,
    PostAdminSetNickname,
    PostAdminFreezeRoom,
    PostAdminUnfreezeRoom,
    PostAdminConfig,
    PostAdminModerateMessage,
    PostAdminCreateResident,
    PostAdminCreateInvite,
    PostAdminRevokeInvite,
    PostAdminManageRoomMember,
    PostAdminHandleLog,
    PostAdminClearProcessedLogs,
    GetAdminDevices,
    PostAdminAddDevice,
    PostAdminRemoveDevice,
    PostAdminBlockDevice,
    PostAdminUnblockDevice,
    PostCreatePermissionGroup,
    PostAssignPermissionGroup,
    PostAdminScene,
    PostSceneValidate,
    GetProvider,
    PostProviderConnect,
    PostProviderDisconnect,
    GetShellBootstrap,
    GetShellEvents,
    GetShellState,
    GetMessageSearch,
    GetShellAttachment,
    GetWorld,
    GetCities,
    GetResidents,
    GetAuthSession,
    PostAuthPreflight,
    PostRequestEmailOtp,
    PostVerifyEmailOtp,
    PostRequestMobileOtp,
    PostVerifyMobileOtp,
    PostAuthLogout,
    GetExport,
    GetWorldSquare,
    GetWorldSafety,
    GetWorldSafetyReports,
    GetWorldSafetyResidents,
    GetWorldDirectory,
    GetWorldEntry,
    GetWorldSnapshot,
    GetWorldMirrors,
    GetWorldMirrorSources,
    PostWorldMirrorSources,
    PostShellMessage,
    PostShellAttachment,
    GetPushVapidPublicKey,
    PostPushSubscribe,
    PostPushUnsubscribe,
    PostShellScene,
    PostShellMessageRecall,
    PostShellMessageEdit,
    PostCliSend,
    GetCliInbox,
    GetCliRooms,
    GetCliSearch,
    GetCliTail,
    PostDirectOpen,
    PostPersonalRoom,
    PostPersonalRoomAccessPolicy,
    PostResidentRelationshipRequest,
    PostResidentRelationshipAccept,
    PostCreateCity,
    PostJoinCity,
    PostApproveCityJoin,
    PostUpdateSteward,
    PostUpdateFederationPolicy,
    PostCreatePublicRoom,
    PostFreezePublicRoom,
    PostPublishWorldNotice,
    PostUpdateCityTrust,
    PostSubmitSafetyReport,
    PostReviewSafetyReport,
    PostPublishSafetyAdvisory,
    PostSanctionResident,
    PostUnsanctionResident,
    PostShellPresence,
    PostShellMarkRead,
    PostShellSetNickname,
    PostWaku,
    NotFound,
}

/// Where a request goes and what is checked first.
#[derive(Clone, Copy, Debug, PartialEq, Eq, Structural)]
pub struct RouteDecision {
    pub route: Route,
    pub gate: Gate,
}

pub type RouteRow = (HttpMethod, Seq<char>, Route, Gate);

/// The exact-path routes checked before attachment downloads, in order.
pub open spec fn routes_before_attachments() -> Seq<RouteRow> {
    seq![
        (HttpMethod::Get, "/health"@, Route::Health, Gate::Open),
        (HttpMethod::Head, "/health"@, Route::Health, Gate::Open),
        (HttpMethod::Get, "/v1/version"@, Route::GetVersion, Gate::Open),
        (HttpMethod::Get, "/v1/admin/summary"@, Route::GetAdminSummary, Gate::AdminRead),
        (HttpMethod::Get, "/v1/admin/conversations"@, Route::GetAdminConversations, Gate::AdminRead),
        (HttpMethod::Get, "/v1/admin/messages"@, Route::GetAdminMessages, Gate::AdminRead),
        (HttpMethod::Get, "/v1/admin/residents"@, Route::GetAdminResidents, Gate::AdminRead),
        (HttpMethod::Get, "/v1/admin/rooms"@, Route::GetAdminRooms, Gate::AdminRead),
        (HttpMethod::Get, "/v1/admin/config"@, Route::GetAdminConfig, Gate::AdminRead),
        (HttpMethod::Get, "/v1/admin/logs"@, Route::GetAdminLogs, Gate::AdminRead),
        (HttpMethod::Get, "/v1/admin/messages/moderation"@, Route::GetAdminMessagesModeration, Gate::AdminRead),
        (HttpMethod::Get, "/v1/admin/invites"@, Route::GetAdminInvites, Gate::AdminRead),
        (HttpMethod::Get, "/v1/admin/permission-groups"@, Route::GetPermissionGroups, Gate::AdminRead),
        (HttpMethod::Get, "/v1/admin/capabilities"@, Route::GetCapabilityCatalog, Gate::Open),
        (HttpMethod::Get, "/v1/admin/audit-log"@, Route::GetAuditLog, Gate::AdminRead),
        (HttpMethod::Post, "/v1/admin/residents/ban"@, Route::PostAdminBanResident, Gate::Open),
        (HttpMethod::Post, "/v1/admin/residents/unban"@, Route::PostAdminUnbanResident, Gate::Open),
        (HttpMethod::Post, "/v1/admin/residents/nickname"@, Route::PostAdminSetNickname, Gate::Open),
        (HttpMethod::Post, "/v1/admin/rooms/freeze"@, Route::PostAdminFreezeRoom, Gate::Open),
        (HttpMethod::Post, "/v1/admin/rooms/unfreeze"@, Route::PostAdminUnfreezeRoom, Gate::Open),
        (HttpMethod::Post, "/v1/admin/config"@, Route::PostAdminConfig, Gate::Open),
        (HttpMethod::Post, "/v1/admin/messages/moderate"@, Route::PostAdminModerateMessage, Gate::Open),
        (HttpMethod::Post, "/v1/admin/residents"@, Route::PostAdminCreateResident, Gate::Open),
        (HttpMethod::Post, "/v1/admin/invites"@, Route::PostAdminCreateInvite, Gate::Open),
        (HttpMethod::Post, "/v1/admin/invites/revoke"@, Route::PostAdminRevokeInvite, Gate::Open),
        (HttpMethod::Post, "/v1/admin/rooms/members"@, Route::PostAdminManageRoomMember, Gate::Open),
        (HttpMethod::Post, "/v1/admin/logs/handle"@, Route::PostAdminHandleLog, Gate::Open),
        (HttpMethod::Post, "/v1/admin/logs/clear"@, Route::PostAdminClearProcessedLogs, Gate::Open),
        (HttpMethod::Get, "/v1/admin/devices"@, Route::GetAdminDevices, Gate::AdminRead),
        (HttpMethod::Post, "/v1/admin/devices/add"@, Route::PostAdminAddDevice, Gate::Open),
        (HttpMethod::Post, "/v1/admin/devices/remove"@, Route::PostAdminRemoveDevice, Gate::Open),
        (HttpMethod::Post, "/v1/admin/devices/block"@, Route::PostAdminBlockDevice, Gate::Open),
        (HttpMethod::Post, "/v1/admin/devices/unblock"@, Route::PostAdminUnblockDevice, Gate::Open),
        (HttpMethod::Post, "/v1/admin/permission-groups"@, Route::PostCreatePermissionGroup, Gate::Open),
        (HttpMethod::Post, "/v1/admin/permission-groups/assign"@, Route::PostAssignPermissionGroup, Gate::Open),
        (HttpMethod::Post, "/v1/admin/scene"@, Route::PostAdminScene, Gate::Open),
        (HttpMethod::Post, "/v1/shell/scene/validate"@, Route::PostSceneValidate, Gate::Open),
        (HttpMethod::Get, "/v1/provider"@, Route::GetProvider, Gate::Open),
        (HttpMethod::Post, "/v1/provider/connect"@, Route::PostProviderConnect, Gate::AdminWrite),
        (HttpMethod::Post, "/v1/provider/disconnect"@, Route::PostProviderDisconnect, Gate::AdminWrite),
        (HttpMethod::Get, "/v1/shell/bootstrap"@, Route::GetShellBootstrap, Gate::Open),
        (HttpMethod::Get, "/v1/shell/events"@, Route::GetShellEvents, Gate::Open),
        (HttpMethod::Get, "/v1/shell/state"@, Route::GetShellState, Gate::Open),
        (HttpMethod::Get, "/v1/shell/messages/search"@, Route::GetMessageSearch, Gate::Open),
    ]
}

/// The exact-path routes checked after attachment downloads, in order.
pub open spec fn routes_after_attachments() -> Seq<RouteRow> {
    seq![
        (HttpMethod::Get, "/v1/world"@, Route::GetWorld, Gate::Open),
        (HttpMethod::Get, "/v1/cities"@, Route::GetCities, Gate::Open),
        (HttpMethod::Get, "/v1/residents"@, Route::GetResidents, Gate::Open),
        (HttpMethod::Get, "/v1/auth/session"@, Route::GetAuthSession, Gate::Open),
        (HttpMethod::Post, "/v1/auth/preflight"@, Route::PostAuthPreflight, Gate::Open),
        (HttpMethod::Post, "/v1/auth/email-otp/request"@, Route::PostRequestEmailOtp, Gate::Open),
        (HttpMethod::Post, "/v1/auth/email-otp/verify"@, Route::PostVerifyEmailOtp, Gate::Open),
        (HttpMethod::Post, "/v1/auth/mobile-otp/request"@, Route::PostRequestMobileOtp, Gate::Open),
        (HttpMethod::Post, "/v1/auth/mobile-otp/verify"@, Route::PostVerifyMobileOtp, Gate::Open),
        (HttpMethod::Post, "/v1/auth/logout"@, Route::PostAuthLogout, Gate::Open),
        (HttpMethod::Get, "/v1/export"@, Route::GetExport, Gate::Open),
        (HttpMethod::Get, "/v1/world-square"@, Route::GetWorldSquare, Gate::Open),
        (HttpMethod::Get, "/v1/world-safety"@, Route::GetWorldSafety, Gate::Open),
        (HttpMethod::Get, "/v1/world-safety/reports"@, Route::GetWorldSafetyReports, Gate::Open),
        (HttpMethod::Get, "/v1/world-safety/residents"@, Route::GetWorldSafetyResidents, Gate::Open),
        (HttpMethod::Get, "/v1/world-directory"@, Route::GetWorldDirectory, Gate::Open),
        (HttpMethod::Get, "/v1/world-entry"@, Route::GetWorldEntry, Gate::Open),
        (HttpMethod::Get, "/v1/world-snapshot"@, Route::GetWorldSnapshot, Gate::Open),
        (HttpMethod::Get, "/v1/world-mirrors"@, Route::GetWorldMirrors, Gate::Open),
        (HttpMethod::Get, "/v1/world-mirror-sources"@, Route::GetWorldMirrorSources, Gate::Open),
        (HttpMethod::Post, "/v1/world-mirror-sources"@, Route::PostWorldMirrorSources, Gate::AdminWrite),
        (HttpMethod::Post, "/v1/shell/message"@, Route::PostShellMessage, Gate::Open),
        (HttpMethod::Post, "/v1/shell/attachment"@, Route::PostShellAttachment, Gate::Open),
        (HttpMethod::Get, "/v1/push/vapid-public-key"@, Route::GetPushVapidPublicKey, Gate::Open),
        (HttpMethod::Post, "/v1/push/subscribe"@, Route::PostPushSubscribe, Gate::Open),
        (HttpMethod::Post, "/v1/push/unsubscribe"@, Route::PostPushUnsubscribe, Gate::Open),
        (HttpMethod::Post, "/v1/shell/scene"@, Route::PostShellScene, Gate::Open),
        (HttpMethod::Post, "/v1/shell/message/recall"@, Route::PostShellMessageRecall, Gate::Open),
        (HttpMethod::Post, "/v1/shell/message/edit"@, Route::PostShellMessageEdit, Gate::Open),
        (HttpMethod::Post, "/v1/cli/send"@, Route::PostCliSend, Gate::Open),
        (HttpMethod::Get, "/v1/cli/inbox"@, Route::GetCliInbox, Gate::Open),
        (HttpMethod::Get, "/v1/cli/rooms"@, Route::GetCliRooms, Gate::Open),
        (HttpMethod::Get, "/v1/cli/search"@, Route::GetCliSearch, Gate::Open),
        (HttpMethod::Get, "/v1/cli/tail"@, Route::GetCliTail, Gate::Open),
        (HttpMethod::Post, "/v1/direct/open"@, Route::PostDirectOpen, Gate::Open),
        (HttpMethod::Post, "/v1/personal-room"@, Route::PostPersonalRoom, Gate::Open),
        (HttpMethod::Post, "/v1/personal-room/access-policy"@, Route::PostPersonalRoomAccessPolicy, Gate::Open),
        (HttpMethod::Post, "/v1/resident-relationships/request"@, Route::PostResidentRelationshipRequest, Gate::Open),
        (HttpMethod::Post, "/v1/resident-relationships/accept"@, Route::PostResidentRelationshipAccept, Gate::Open),
        (HttpMethod::Post, "/v1/cities"@, Route::PostCreateCity, Gate::Open),
        (HttpMethod::Post, "/v1/cities/join"@, Route::PostJoinCity, Gate::Open),
        (HttpMethod::Post, "/v1/cities/approve"@, Route::PostApproveCityJoin, Gate::Open),
        (HttpMethod::Post, "/v1/cities/stewards"@, Route::PostUpdateSteward, Gate::Open),
        (HttpMethod::Post, "/v1/cities/federation-policy"@, Route::PostUpdateFederationPolicy, Gate::Open),
        (HttpMethod::Post, "/v1/cities/rooms"@, Route::PostCreatePublicRoom, Gate::Open),
        (HttpMethod::Post, "/v1/cities/rooms/freeze"@, Route::PostFreezePublicRoom, Gate::Open),
        (HttpMethod::Post, "/v1/world-square/notices"@, Route::PostPublishWorldNotice, Gate::Open),
        (HttpMethod::Post, "/v1/world-safety/cities/trust"@, Route::PostUpdateCityTrust, Gate::Open),
        (HttpMethod::Post, "/v1/world-safety/reports"@, Route::PostSubmitSafetyReport, Gate::Open),
        (HttpMethod::Post, "/v1/world-safety/reports/review"@, Route::PostReviewSafetyReport, Gate::Open),
        (HttpMethod::Post, "/v1/world-safety/advisories"@, Route::PostPublishSafetyAdvisory, Gate::Open),
        (HttpMethod::Post, "/v1/world-safety/residents/sanction"@, Route::PostSanctionResident, Gate::Open),
        (HttpMethod::Post, "/v1/admin/residents/unsanction"@, Route::PostUnsanctionResident, Gate::Open),
        (HttpMethod::Post, "/v1/shell/presence"@, Route::PostShellPresence, Gate::Open),
        (HttpMethod::Post, "/v1/shell/read"@, Route::PostShellMarkRead, Gate::Open),
        (HttpMethod::Post, "/v1/shell/nickname"@, Route::PostShellSetNickname, Gate::Open),
        (HttpMethod::Post, "/v1/waku"@, Route::PostWaku, Gate::Open),
    ]
}

/// The first row of `rows` for this method and path.
pub open spec fn first_match(rows: Seq<RouteRow>, m: HttpMethod, path: Seq<char>) -> Option<(Route, Gate)>
    decreases rows.len(),
{
    if rows.len() == 0 {
        None
    } else if rows[0].0 == m && rows[0].1 == path {
        Some((rows[0].2, rows[0].3))
    } else {
        first_match(rows.drop_first(), m, path)
    }
}

pub open spec fn attachment_prefix() -> Seq<char> {
    "/v1/shell/attachment/"@
}

/// Where a request goes: every `OPTIONS` request is a CORS preflight; then
/// the exact routes before attachments; then `GET` of any path under
/// `/v1/shell/attachment/`; then the remaining exact routes; anything else is
/// not found.
pub open spec fn route_for(m: HttpMethod, path: Seq<char>) -> (Route, Gate) {
    if m == HttpMethod::Options {
        (Route::Preflight, Gate::Open)
    } else {
        match first_match(routes_before_attachments(), m, path) {
            Some(found) => found,
            None => if m == HttpMethod::Get && starts_with(path, attachment_prefix()) {
                (Route::GetShellAttachment, Gate::Open)
            } else {
                match first_match(routes_after_attachments(), m, path) {
                    Some(found) => found,
                    None => (Route::NotFound, Gate::Open),
                }
            },
        }
    }
}

pub open spec fn rows_view(t: Seq<(HttpMethod, &str, Route, Gate)>) -> Seq<RouteRow> {
    t.map_values(|e: (HttpMethod, &str, Route, Gate)| (e.0, e.1@, e.2, e.3))
}

fn rows_before_attachments() -> (t: Vec<(HttpMethod, &'static str, Route, Gate)>)
    ensures
        rows_view(t@) == routes_before_attachments(),
{
    let mut t: Vec<(HttpMethod, &'static str, Route, Gate)> = Vec::new();
    t.push((HttpMethod::Get, "/health", Route::Health, Gate::Open));
    t.push((HttpMethod::Head, "/health", Route::Health, Gate::Open));
    t.push((HttpMethod::Get, "/v1/version", Route::GetVersion, Gate::Open));
    t.push((HttpMethod::Get, "/v1/admin/summary", Route::GetAdminSummary, Gate::AdminRead));
    t.push((HttpMethod::Get, "/v1/admin/conversations", Route::GetAdminConversations, Gate::AdminRead));
    t.push((HttpMethod::Get, "/v1/admin/messages", Route::GetAdminMessages, Gate::AdminRead));
    t.push((HttpMethod::Get, "/v1/admin/residents", Route::GetAdminResidents, Gate::AdminRead));
    t.push((HttpMethod::Get, "/v1/admin/rooms", Route::GetAdminRooms, Gate::AdminRead));
    t.push((HttpMethod::Get, "/v1/admin/config", Route::GetAdminConfig, Gate::AdminRead));
    t.push((HttpMethod::Get, "/v1/admin/logs", Route::GetAdminLogs, Gate::AdminRead));
    t.push((HttpMethod::Get, "/v1/admin/messages/moderation", Route::GetAdminMessagesModeration, Gate::AdminRead));
    t.push((HttpMethod::Get, "/v1/admin/invites", Route::GetAdminInvites, Gate::AdminRead));
    t.push((HttpMethod::Get, "/v1/admin/permission-groups", Route::GetPermissionGroups, Gate::AdminRead));
    t.push((HttpMethod::Get, "/v1/admin/capabilities", Route::GetCapabilityCatalog, Gate::Open));
    t.push((HttpMethod::Get, "/v1/admin/audit-log", Route::GetAuditLog, Gate::AdminRead));
    t.push((HttpMethod::Post, "/v1/admin/residents/ban", Route::PostAdminBanResident, Gate::Open));
    t.push((HttpMethod::Post, "/v1/admin/residents/unban", Route::PostAdminUnbanResident, Gate::Open));
    t.push((HttpMethod::Post, "/v1/admin/residents/nickname", Route::PostAdminSetNickname, Gate::Open));
    t.push((HttpMethod::Post, "/v1/admin/rooms/freeze", Route::PostAdminFreezeRoom, Gate::Open));
    t.push((HttpMethod::Post, "/v1/admin/rooms/unfreeze", Route::PostAdminUnfreezeRoom, Gate::Open));
    t.push((HttpMethod::Post, "/v1/admin/config", Route::PostAdminConfig, Gate::Open));
    t.push((HttpMethod::Post, "/v1/admin/messages/moderate", Route::PostAdminModerateMessage, Gate::Open));
    t.push((HttpMethod::Post, "/v1/admin/residents", Route::PostAdminCreateResident, Gate::Open));
    t.push((HttpMethod::Post, "/v1/admin/invites", Route::PostAdminCreateInvite, Gate::Open));
    t.push((HttpMethod::Post, "/v1/admin/invites/revoke", Route::PostAdminRevokeInvite, Gate::Open));
    t.push((HttpMethod::Post, "/v1/admin/rooms/members", Route::PostAdminManageRoomMember, Gate::Open));
    t.push((HttpMethod::Post, "/v1/admin/logs/handle", Route::PostAdminHandleLog, Gate::Open));
    t.push((HttpMethod::Post, "/v1/admin/logs/clear", Route::PostAdminClearProcessedLogs, Gate::Open));
    t.push((HttpMethod::Get, "/v1/admin/devices", Route::GetAdminDevices, Gate::AdminRead));
    t.push((HttpMethod::Post, "/v1/admin/devices/add", Route::PostAdminAddDevice, Gate::Open));
    t.push((HttpMethod::Post, "/v1/admin/devices/remove", Route::PostAdminRemoveDevice, Gate::Open));
    t.push((HttpMethod::Post, "/v1/admin/devices/block", Route::PostAdminBlockDevice, Gate::Open));
    t.push((HttpMethod::Post, "/v1/admin/devices/unblock", Route::PostAdminUnblockDevice, Gate::Open));
    t.push((HttpMethod::Post, "/v1/admin/permission-groups", Route::PostCreatePermissionGroup, Gate::Open));
    t.push((HttpMethod::Post, "/v1/admin/permission-groups/assign", Route::PostAssignPermissionGroup, Gate::Open));
    t.push((HttpMethod::Post, "/v1/admin/scene", Route::PostAdminScene, Gate::Open));
    t.push((HttpMethod::Post, "/v1/shell/scene/validate", Route::PostSceneValidate, Gate::Open));
    t.push((HttpMethod::Get, "/v1/provider", Route::GetProvider, Gate::Open));
    t.push((HttpMethod::Post, "/v1/provider/connect", Route::PostProviderConnect, Gate::AdminWrite));
    t.push((HttpMethod::Post, "/v1/provider/disconnect", Route::PostProviderDisconnect, Gate::AdminWrite));
    t.push((HttpMethod::Get, "/v1/shell/bootstrap", Route::GetShellBootstrap, Gate::Open));
    t.push((HttpMethod::Get, "/v1/shell/events", Route::GetShellEvents, Gate::Open));
    t.push((HttpMethod::Get, "/v1/shell/state", Route::GetShellState, Gate::Open));
    t.push((HttpMethod::Get, "/v1/shell/messages/search", Route::GetMessageSearch, Gate::Open));
    assert(rows_view(t@) =~= routes_before_attachments());
    t
}

fn rows_after_attachments() -> (t: Vec<(HttpMethod, &'static str, Route, Gate)>)
    ensures
        rows_view(t@) == routes_after_attachments(),
{
    let mut t: Vec<(HttpMethod, &'static str, Route, Gate)> = Vec::new();
    t.push((HttpMethod::Get, "/v1/world", Route::GetWorld, Gate::Open));
    t.push((HttpMethod::Get, "/v1/cities", Route::GetCities, Gate::Open));
    t.push((HttpMethod::Get, "/v1/residents", Route::GetResidents, Gate::Open));
    t.push((HttpMethod::Get, "/v1/auth/session", Route::GetAuthSession, Gate::Open));
    t.push((HttpMethod::Post, "/v1/auth/preflight", Route::PostAuthPreflight, Gate::Open));
    t.push((HttpMethod::Post, "/v1/auth/email-otp/request", Route::PostRequestEmailOtp, Gate::Open));
    t.push((HttpMethod::Post, "/v1/auth/email-otp/verify", Route::PostVerifyEmailOtp, Gate::Open));
    t.push((HttpMethod::Post, "/v1/auth/mobile-otp/request", Route::PostRequestMobileOtp, Gate::Open));
    t.push((HttpMethod::Post, "/v1/auth/mobile-otp/verify", Route::PostVerifyMobileOtp, Gate::Open));
    t.push((HttpMethod::Post, "/v1/auth/logout", Route::PostAuthLogout, Gate::Open));
    t.push((HttpMethod::Get, "/v1/export", Route::GetExport, Gate::Open));
    t.push((HttpMethod::Get, "/v1/world-square", Route::GetWorldSquare, Gate::Open));
    t.push((HttpMethod::Get, "/v1/world-safety", Route::GetWorldSafety, Gate::Open));
    t.push((HttpMethod::Get, "/v1/world-safety/reports", Route::GetWorldSafetyReports, Gate::Open));
    t.push((HttpMethod::Get, "/v1/world-safety/residents", Route::GetWorldSafetyResidents, Gate::Open));
    t.push((HttpMethod::Get, "/v1/world-directory", Route::GetWorldDirectory, Gate::Open));
    t.push((HttpMethod::Get, "/v1/world-entry", Route::GetWorldEntry, Gate::Open));
    t.push((HttpMethod::Get, "/v1/world-snapshot", Route::GetWorldSnapshot, Gate::Open));
    t.push((HttpMethod::Get, "/v1/world-mirrors", Route::GetWorldMirrors, Gate::Open));
    t.push((HttpMethod::Get, "/v1/world-mirror-sources", Route::GetWorldMirrorSources, Gate::Open));
    t.push((HttpMethod::Post, "/v1/world-mirror-sources", Route::PostWorldMirrorSources, Gate::AdminWrite));
    t.push((HttpMethod::Post, "/v1/shell/message", Route::PostShellMessage, Gate::Open));
    t.push((HttpMethod::Post, "/v1/shell/attachment", Route::PostShellAttachment, Gate::Open));
    t.push((HttpMethod::Get, "/v1/push/vapid-public-key", Route::GetPushVapidPublicKey, Gate::Open));
    t.push((HttpMethod::Post, "/v1/push/subscribe", Route::PostPushSubscribe, Gate::Open));
    t.push((HttpMethod::Post, "/v1/push/unsubscribe", Route::PostPushUnsubscribe, Gate::Open));
    t.push((HttpMethod::Post, "/v1/shell/scene", Route::PostShellScene, Gate::Open));
    t.push((HttpMethod::Post, "/v1/shell/message/recall", Route::PostShellMessageRecall, Gate::Open));
    t.push((HttpMethod::Post, "/v1/shell/message/edit", Route::PostShellMessageEdit, Gate::Open));
    t.push((HttpMethod::Post, "/v1/cli/send", Route::PostCliSend, Gate::Open));
    t.push((HttpMethod::Get, "/v1/cli/inbox", Route::GetCliInbox, Gate::Open));
    t.push((HttpMethod::Get, "/v1/cli/rooms", Route::GetCliRooms, Gate::Open));
    t.push((HttpMethod::Get, "/v1/cli/search", Route::GetCliSearch, Gate::Open));
    t.push((HttpMethod::Get, "/v1/cli/tail", Route::GetCliTail, Gate::Open));
    t.push((HttpMethod::Post, "/v1/direct/open", Route::PostDirectOpen, Gate::Open));
    t.push((HttpMethod::Post, "/v1/personal-room", Route::PostPersonalRoom, Gate::Open));
    t.push((HttpMethod::Post, "/v1/personal-room/access-policy", Route::PostPersonalRoomAccessPolicy, Gate::Open));
    t.push((HttpMethod::Post, "/v1/resident-relationships/request", Route::PostResidentRelationshipRequest, Gate::Open));
    t.push((HttpMethod::Post, "/v1/resident-relationships/accept", Route::PostResidentRelationshipAccept, Gate::Open));
    t.push((HttpMethod::Post, "/v1/cities", Route::PostCreateCity, Gate::Open));
    t.push((HttpMethod::Post, "/v1/cities/join", Route::PostJoinCity, Gate::Open));
    t.push((HttpMethod::Post, "/v1/cities/approve", Route::PostApproveCityJoin, Gate::Open));
    t.push((HttpMethod::Post, "/v1/cities/stewards", Route::PostUpdateSteward, Gate::Open));
    t.push((HttpMethod::Post, "/v1/cities/federation-policy", Route::PostUpdateFederationPolicy, Gate::Open));
    t.push((HttpMethod::Post, "/v1/cities/rooms", Route::PostCreatePublicRoom, Gate::Open));
    t.push((HttpMethod::Post, "/v1/cities/rooms/freeze", Route::PostFreezePublicRoom, Gate::Open));
    t.push((HttpMethod::Post, "/v1/world-square/notices", Route::PostPublishWorldNotice, Gate::Open));
    t.push((HttpMethod::Post, "/v1/world-safety/cities/trust", Route::PostUpdateCityTrust, Gate::Open));
    t.push((HttpMethod::Post, "/v1/world-safety/reports", Route::PostSubmitSafetyReport, Gate::Open));
    t.push((HttpMethod::Post, "/v1/world-safety/reports/review", Route::PostReviewSafetyReport, Gate::Open));
    t.push((HttpMethod::Post, "/v1/world-safety/advisories", Route::PostPublishSafetyAdvisory, Gate::Open));
    t.push((HttpMethod::Post, "/v1/world-safety/residents/sanction", Route::PostSanctionResident, Gate::Open));
    t.push((HttpMethod::Post, "/v1/admin/residents/unsanction", Route::PostUnsanctionResident, Gate::Open));
    t.push((HttpMethod::Post, "/v1/shell/presence", Route::PostShellPresence, Gate::Open));
    t.push((HttpMethod::Post, "/v1/shell/read", Route::PostShellMarkRead, Gate::Open));
    t.push((HttpMethod::Post, "/v1/shell/nickname", Route::PostShellSetNickname, Gate::Open));
    t.push((HttpMethod::Post, "/v1/waku", Route::PostWaku, Gate::Open));
    assert(rows_view(t@) =~= routes_after_attachments());
    t
}

fn same_chars(a: &Vec<char>, b: &Vec<char>) -> (r: bool)
    ensures
        r == (a@ == b@),
{
    if a.len() != b.len() {
        return false;
    }
    let mut i: usize = 0;
    while i < a.len()
        invariant
            a@.len() == b@.len(),
            i <= a@.len(),
            forall|k: int| 0 <= k < i ==> a@[k] == b@[k],
        decreases a@.len() - i,
    {
        if a[i] != b[i] {
            return false;
        }
        i = i + 1;
    }
    assert(a@ =~= b@);
    true
}

fn find_route(rows: &Vec<(HttpMethod, &'static str, Route, Gate)>, m: HttpMethod, path: &Vec<char>) -> (r: Option<(Route, Gate)>)
    ensures
        r == first_match(rows_view(rows@), m, path@),
{
    let mut i: usize = 0;
    assert(rows_view(rows@).skip(0) =~= rows_view(rows@));
    while i < rows.len()
        invariant
            i <= rows@.len(),
            first_match(rows_view(rows@), m, path@) == first_match(rows_view(rows@).skip(i as int), m, path@),
        decreases rows@.len() - i,
    {
        let row = rows[i];
        let ghost rest = rows_view(rows@).skip(i as int);
        assert(rest[0] == (row.0, row.1@, row.2, row.3));
        assert(rest.drop_first() =~= rows_view(rows@).skip(i + 1));
        if row.0 == m && same_chars(&chars_of(row.1), path) {
            return Some((row.2, row.3));
        }
        i = i + 1;
    }
    None
}

/// Decides which handler answers a request with this method and path (the
/// path without its query), and what is checked before it runs.
pub fn route_request(method: HttpMethod, path: &str) -> (r: RouteDecision)
    ensures
        (r.route, r.gate) == route_for(method, path@),
{
    if method == HttpMethod::Options {
        return RouteDecision { route: Route::Preflight, gate: Gate::Open };
    }
    let chars = chars_of(path);
    match find_route(&rows_before_attachments(), method, &chars) {
        Some((route, gate)) => RouteDecision { route, gate },
        None => {
            if method == HttpMethod::Get && has_prefix(&chars, &chars_of("/v1/shell/attachment/")) {
                RouteDecision { route: Route::GetShellAttachment, gate: Gate::Open }
            } else {
                match find_route(&rows_after_attachments(), method, &chars) {
                    Some((route, gate)) => RouteDecision { route, gate },
                    None => RouteDecision { route: Route::NotFound, gate: Gate::Open },
                }
            }
        },
    }
}

/// The path that names each handler of the route table (the preflight,
/// attachment downloads and not-found are reached otherwise).
pub open spec fn handler_path(r: Route) -> Option<Seq<char>> {
    match r {
        Route::Preflight => None,
        Route::Health => Some("/health"@),
        Route::GetVersion => Some("/v1/version"@),
        Route::GetAdminSummary => Some("/v1/admin/summary"@),
        Route::GetAdminConversations => Some("/v1/admin/conversations"@),
        Route::GetAdminMessages => Some("/v1/admin/messages"@),
        Route::GetAdminResidents => Some("/v1/admin/residents"@),
        Route::GetAdminRooms => Some("/v1/admin/rooms"@),
        Route::GetAdminConfig => Some("/v1/admin/config"@),
        Route::GetAdminLogs => Some("/v1/admin/logs"@),
        Route::GetAdminMessagesModeration => Some("/v1/admin/messages/moderation"@),
        Route::GetAdminInvites => Some("/v1/admin/invites"@),
        Route::GetPermissionGroups => Some("/v1/admin/permission-groups"@),
        Route::GetCapabilityCatalog => Some("/v1/admin/capabilities"@),
        Route::GetAuditLog => Some("/v1/admin/audit-log"@),
        Route::PostAdminBanResident => Some("/v1/admin/residents/ban"@),
        Route::PostAdminUnbanResident => Some("/v1/admin/residents/unban"@),
        Route::PostAdminSetNickname => Some("/v1/admin/residents/nickname"@),
        Route::PostAdminFreezeRoom => Some("/v1/admin/rooms/freeze"@),
        Route::PostAdminUnfreezeRoom => Some("/v1/admin/rooms/unfreeze"@),
        Route::PostAdminConfig => Some("/v1/admin/config"@),
        Route::PostAdminModerateMessage => Some("/v1/admin/messages/moderate"@),
        Route::PostAdminCreateResident => Some("/v1/admin/residents"@),
        Route::PostAdminCreateInvite => Some("/v1/admin/invites"@),
        Route::PostAdminRevokeInvite => Some("/v1/admin/invites/revoke"@),
        Route::PostAdminManageRoomMember => Some("/v1/admin/rooms/members"@),
        Route::PostAdminHandleLog => Some("/v1/admin/logs/handle"@),
        Route::PostAdminClearProcessedLogs => Some("/v1/admin/logs/clear"@),
        Route::GetAdminDevices => Some("/v1/admin/devices"@),
        Route::PostAdminAddDevice => Some("/v1/admin/devices/add"@),
        Route::PostAdminRemoveDevice => Some("/v1/admin/devices/remove"@),
        Route::PostAdminBlockDevice => Some("/v1/admin/devices/block"@),
        Route::PostAdminUnblockDevice => Some("/v1/admin/devices/unblock"@),
        Route::PostCreatePermissionGroup => Some("/v1/admin/permission-groups"@),
        Route::PostAssignPermissionGroup => Some("/v1/admin/permission-groups/assign"@),
        Route::PostAdminScene => Some("/v1/admin/scene"@),
        Route::PostSceneValidate => Some("/v1/shell/scene/validate"@),
        Route::GetProvider => Some("/v1/provider"@),
        Route::PostProviderConnect => Some("/v1/provider/connect"@),
        Route::PostProviderDisconnect => Some("/v1/provider/disconnect"@),
        Route::GetShellBootstrap => Some("/v1/shell/bootstrap"@),
        Route::GetShellEvents => Some("/v1/shell/events"@),
        Route::GetShellState => Some("/v1/shell/state"@),
        Route::GetMessageSearch => Some("/v1/shell/messages/search"@),
        Route::GetShellAttachment => None,
        Route::GetWorld => Some("/v1/world"@),
        Route::GetCities => Some("/v1/cities"@),
        Route::GetResidents => Some("/v1/residents"@),
        Route::GetAuthSession => Some("/v1/auth/session"@),
        Route::PostAuthPreflight => Some("/v1/auth/preflight"@),
        Route::PostRequestEmailOtp => Some("/v1/auth/email-otp/request"@),
        Route::PostVerifyEmailOtp => Some("/v1/auth/email-otp/verify"@),
        Route::PostRequestMobileOtp => Some("/v1/auth/mobile-otp/request"@),
        Route::PostVerifyMobileOtp => Some("/v1/auth/mobile-otp/verify"@),
        Route::PostAuthLogout => Some("/v1/auth/logout"@),
        Route::GetExport => Some("/v1/export"@),
        Route::GetWorldSquare => Some("/v1/world-square"@),
        Route::GetWorldSafety => Some("/v1/world-safety"@),
        Route::GetWorldSafetyReports => Some("/v1/world-safety/reports"@),
        Route::GetWorldSafetyResidents => Some("/v1/world-safety/residents"@),
        Route::GetWorldDirectory => Some("/v1/world-directory"@),
        Route::GetWorldEntry => Some("/v1/world-entry"@),
        Route::GetWorldSnapshot => Some("/v1/world-snapshot"@),
        Route::GetWorldMirrors => Some("/v1/world-mirrors"@),
        Route::GetWorldMirrorSources => Some("/v1/world-mirror-sources"@),
        Route::PostWorldMirrorSources => Some("/v1/world-mirror-sources"@),
        Route::PostShellMessage => Some("/v1/shell/message"@),
        Route::PostShellAttachment => Some("/v1/shell/attachment"@),
        Route::GetPushVapidPublicKey => Some("/v1/push/vapid-public-key"@),
        Route::PostPushSubscribe => Some("/v1/push/subscribe"@),
        Route::PostPushUnsubscribe => Some("/v1/push/unsubscribe"@),
        Route::PostShellScene => Some("/v1/shell/scene"@),
        Route::PostShellMessageRecall => Some("/v1/shell/message/recall"@),
        Route::PostShellMessageEdit => Some("/v1/shell/message/edit"@),
        Route::PostCliSend => Some("/v1/cli/send"@),
        Route::GetCliInbox => Some("/v1/cli/inbox"@),
        Route::GetCliRooms => Some("/v1/cli/rooms"@),
        Route::GetCliSearch => Some("/v1/cli/search"@),
        Route::GetCliTail => Some("/v1/cli/tail"@),
        Route::PostDirectOpen => Some("/v1/direct/open"@),
        Route::PostPersonalRoom => Some("/v1/personal-room"@),
        Route::PostPersonalRoomAccessPolicy => Some("/v1/personal-room/access-policy"@),
        Route::PostResidentRelationshipRequest => Some("/v1/resident-relationships/request"@),
        Route::PostResidentRelationshipAccept => Some("/v1/resident-relationships/accept"@),
        Route::PostCreateCity => Some("/v1/cities"@),
        Route::PostJoinCity => Some("/v1/cities/join"@),
        Route::PostApproveCityJoin => Some("/v1/cities/approve"@),
        Route::PostUpdateSteward => Some("/v1/cities/stewards"@),
        Route::PostUpdateFederationPolicy => Some("/v1/cities/federation-policy"@),
        Route::PostCreatePublicRoom => Some("/v1/cities/rooms"@),
        Route::PostFreezePublicRoom => Some("/v1/cities/rooms/freeze"@),
        Route::PostPublishWorldNotice => Some("/v1/world-square/notices"@),
        Route::PostUpdateCityTrust => Some("/v1/world-safety/cities/trust"@),
        Route::PostSubmitSafetyReport => Some("/v1/world-safety/reports"@),
        Route::PostReviewSafetyReport => Some("/v1/world-safety/reports/review"@),
        Route::PostPublishSafetyAdvisory => Some("/v1/world-safety/advisories"@),
        Route::PostSanctionResident => Some("/v1/world-safety/residents/sanction"@),
        Route::PostUnsanctionResident => Some("/v1/admin/residents/unsanction"@),
        Route::PostShellPresence => Some("/v1/shell/presence"@),
        Route::PostShellMarkRead => Some("/v1/shell/read"@),
        Route::PostShellSetNickname => Some("/v1/shell/nickname"@),
        Route::PostWaku => Some("/v1/waku"@),
        Route::NotFound => None,
    }
}

/// Whether a row's path is the one that names its handler.
pub open spec fn path_agrees(row: RouteRow) -> bool {
    handler_path(row.2) == Some(row.1)
}

#[verifier::rlimit(100)]
proof fn lemma_paths_before_attachments()
    ensures
        forall|k: int| 0 <= k < routes_before_attachments().len() ==> path_agrees(#[trigger] routes_before_attachments()[k]),
{
    let t = routes_before_attachments();
    assert(t.len() == 44);
    assert forall|k: int| 0 <= k < t.len() implies path_agrees(#[trigger] t[k]) by {
        if k == 0 {
            assert(t[0] == (HttpMethod::Get, "/health"@, Route::Health, Gate::Open));
        } else if k == 1 {
            assert(t[1] == (HttpMethod::Head, "/health"@, Route::Health, Gate::Open));
        } else if k == 2 {
            assert(t[2] == (HttpMethod::Get, "/v1/version"@, Route::GetVersion, Gate::Open));
        } else if k == 3 {
            assert(t[3] == (HttpMethod::Get, "/v1/admin/summary"@, Route::GetAdminSummary, Gate::AdminRead));
        } else if k == 4 {
            assert(t[4] == (HttpMethod::Get, "/v1/admin/conversations"@, Route::GetAdminConversations, Gate::AdminRead));
        } else if k == 5 {
            assert(t[5] == (HttpMethod::Get, "/v1/admin/messages"@, Route::GetAdminMessages, Gate::AdminRead));
        } else if k == 6 {
            assert(t[6] == (HttpMethod::Get, "/v1/admin/residents"@, Route::GetAdminResidents, Gate::AdminRead));
        } else if k == 7 {
            assert(t[7] == (HttpMethod::Get, "/v1/admin/rooms"@, Route::GetAdminRooms, Gate::AdminRead));
        } else if k == 8 {
            assert(t[8] == (HttpMethod::Get, "/v1/admin/config"@, Route::GetAdminConfig, Gate::AdminRead));
        } else if k == 9 {
            assert(t[9] == (HttpMethod::Get, "/v1/admin/logs"@, Route::GetAdminLogs, Gate::AdminRead));
        } else if k == 10 {
            assert(t[10] == (HttpMethod::Get, "/v1/admin/messages/moderation"@, Route::GetAdminMessagesModeration, Gate::AdminRead));
        } else if k == 11 {
            assert(t[11] == (HttpMethod::Get, "/v1/admin/invites"@, Route::GetAdminInvites, Gate::AdminRead));
        } else if k == 12 {
            assert(t[12] == (HttpMethod::Get, "/v1/admin/permission-groups"@, Route::GetPermissionGroups, Gate::AdminRead));
        } else if k == 13 {
            assert(t[13] == (HttpMethod::Get, "/v1/admin/capabilities"@, Route::GetCapabilityCatalog, Gate::Open));
        } else if k == 14 {
            assert(t[14] == (HttpMethod::Get, "/v1/admin/audit-log"@, Route::GetAuditLog, Gate::AdminRead));
        } else if k == 15 {
            assert(t[15] == (HttpMethod::Post, "/v1/admin/residents/ban"@, Route::PostAdminBanResident, Gate::Open));
        } else if k == 16 {
            assert(t[16] == (HttpMethod::Post, "/v1/admin/residents/unban"@, Route::PostAdminUnbanResident, Gate::Open));
        } else if k == 17 {
            assert(t[17] == (HttpMethod::Post, "/v1/admin/residents/nickname"@, Route::PostAdminSetNickname, Gate::Open));
        } else if k == 18 {
            assert(t[18] == (HttpMethod::Post, "/v1/admin/rooms/freeze"@, Route::PostAdminFreezeRoom, Gate::Open));
        } else if k == 19 {
            assert(t[19] == (HttpMethod::Post, "/v1/admin/rooms/unfreeze"@, Route::PostAdminUnfreezeRoom, Gate::Open));
        } else if k == 20 {
            assert(t[20] == (HttpMethod::Post, "/v1/admin/config"@, Route::PostAdminConfig, Gate::Open));
        } else if k == 21 {
            assert(t[21] == (HttpMethod::Post, "/v1/admin/messages/moderate"@, Route::PostAdminModerateMessage, Gate::Open));
        } else if k == 22 {
            assert(t[22] == (HttpMethod::Post, "/v1/admin/residents"@, Route::PostAdminCreateResident, Gate::Open));
        } else if k == 23 {
            assert(t[23] == (HttpMethod::Post, "/v1/admin/invites"@, Route::PostAdminCreateInvite, Gate::Open));
        } else if k == 24 {
            assert(t[24] == (HttpMethod::Post, "/v1/admin/invites/revoke"@, Route::PostAdminRevokeInvite, Gate::Open));
        } else if k == 25 {
            assert(t[25] == (HttpMethod::Post, "/v1/admin/rooms/members"@, Route::PostAdminManageRoomMember, Gate::Open));
        } else if k == 26 {
            assert(t[26] == (HttpMethod::Post, "/v1/admin/logs/handle"@, Route::PostAdminHandleLog, Gate::Open));
        } else if k == 27 {
            assert(t[27] == (HttpMethod::Post, "/v1/admin/logs/clear"@, Route::PostAdminClearProcessedLogs, Gate::Open));
        } else if k == 28 {
            assert(t[28] == (HttpMethod::Get, "/v1/admin/devices"@, Route::GetAdminDevices, Gate::AdminRead));
        } else if k == 29 {
            assert(t[29] == (HttpMethod::Post, "/v1/admin/devices/add"@, Route::PostAdminAddDevice, Gate::Open));
        } else if k == 30 {
            assert(t[30] == (HttpMethod::Post, "/v1/admin/devices/remove"@, Route::PostAdminRemoveDevice, Gate::Open));
        } else if k == 31 {
            assert(t[31] == (HttpMethod::Post, "/v1/admin/devices/block"@, Route::PostAdminBlockDevice, Gate::Open));
        } else if k == 32 {
            assert(t[32] == (HttpMethod::Post, "/v1/admin/devices/unblock"@, Route::PostAdminUnblockDevice, Gate::Open));
        } else if k == 33 {
            assert(t[33] == (HttpMethod::Post, "/v1/admin/permission-groups"@, Route::PostCreatePermissionGroup, Gate::Open));
        } else if k == 34 {
            assert(t[34] == (HttpMethod::Post, "/v1/admin/permission-groups/assign"@, Route::PostAssignPermissionGroup, Gate::Open));
        } else if k == 35 {
            assert(t[35] == (HttpMethod::Post, "/v1/admin/scene"@, Route::PostAdminScene, Gate::Open));
        } else if k == 36 {
            assert(t[36] == (HttpMethod::Post, "/v1/shell/scene/validate"@, Route::PostSceneValidate, Gate::Open));
        } else if k == 37 {
            assert(t[37] == (HttpMethod::Get, "/v1/provider"@, Route::GetProvider, Gate::Open));
        } else if k == 38 {
            assert(t[38] == (HttpMethod::Post, "/v1/provider/connect"@, Route::PostProviderConnect, Gate::AdminWrite));
        } else if k == 39 {
            assert(t[39] == (HttpMethod::Post, "/v1/provider/disconnect"@, Route::PostProviderDisconnect, Gate::AdminWrite));
        } else if k == 40 {
            assert(t[40] == (HttpMethod::Get, "/v1/shell/bootstrap"@, Route::GetShellBootstrap, Gate::Open));
        } else if k == 41 {
            assert(t[41] == (HttpMethod::Get, "/v1/shell/events"@, Route::GetShellEvents, Gate::Open));
        } else if k == 42 {
            assert(t[42] == (HttpMethod::Get, "/v1/shell/state"@, Route::GetShellState, Gate::Open));
        } else if k == 43 {
            assert(t[43] == (HttpMethod::Get, "/v1/shell/messages/search"@, Route::GetMessageSearch, Gate::Open));
        }
    }
}

#[verifier::rlimit(100)]
proof fn lemma_paths_after_attachments()
    ensures
        forall|k: int| 0 <= k < routes_after_attachments().len() ==> path_agrees(#[trigger] routes_after_attachments()[k]),
{
    let t = routes_after_attachments();
    assert(t.len() == 57);
    assert forall|k: int| 0 <= k < t.len() implies path_agrees(#[trigger] t[k]) by {
        if k == 0 {
            assert(t[0] == (HttpMethod::Get, "/v1/world"@, Route::GetWorld, Gate::Open));
        } else if k == 1 {
            assert(t[1] == (HttpMethod::Get, "/v1/cities"@, Route::GetCities, Gate::Open));
        } else if k == 2 {
            assert(t[2] == (HttpMethod::Get, "/v1/residents"@, Route::GetResidents, Gate::Open));
        } else if k == 3 {
            assert(t[3] == (HttpMethod::Get, "/v1/auth/session"@, Route::GetAuthSession, Gate::Open));
        } else if k == 4 {
            assert(t[4] == (HttpMethod::Post, "/v1/auth/preflight"@, Route::PostAuthPreflight, Gate::Open));
        } else if k == 5 {
            assert(t[5] == (HttpMethod::Post, "/v1/auth/email-otp/request"@, Route::PostRequestEmailOtp, Gate::Open));
        } else if k == 6 {
            assert(t[6] == (HttpMethod::Post, "/v1/auth/email-otp/verify"@, Route::PostVerifyEmailOtp, Gate::Open));
        } else if k == 7 {
            assert(t[7] == (HttpMethod::Post, "/v1/auth/mobile-otp/request"@, Route::PostRequestMobileOtp, Gate::Open));
        } else if k == 8 {
            assert(t[8] == (HttpMethod::Post, "/v1/auth/mobile-otp/verify"@, Route::PostVerifyMobileOtp, Gate::Open));
        } else if k == 9 {
            assert(t[9] == (HttpMethod::Post, "/v1/auth/logout"@, Route::PostAuthLogout, Gate::Open));
        } else if k == 10 {
            assert(t[10] == (HttpMethod::Get, "/v1/export"@, Route::GetExport, Gate::Open));
        } else if k == 11 {
            assert(t[11] == (HttpMethod::Get, "/v1/world-square"@, Route::GetWorldSquare, Gate::Open));
        } else if k == 12 {
            assert(t[12] == (HttpMethod::Get, "/v1/world-safety"@, Route::GetWorldSafety, Gate::Open));
        } else if k == 13 {
            assert(t[13] == (HttpMethod::Get, "/v1/world-safety/reports"@, Route::GetWorldSafetyReports, Gate::Open));
        } else if k == 14 {
            assert(t[14] == (HttpMethod::Get, "/v1/world-safety/residents"@, Route::GetWorldSafetyResidents, Gate::Open));
        } else if k == 15 {
            assert(t[15] == (HttpMethod::Get, "/v1/world-directory"@, Route::GetWorldDirectory, Gate::Open));
        } else if k == 16 {
            assert(t[16] == (HttpMethod::Get, "/v1/world-entry"@, Route::GetWorldEntry, Gate::Open));
        } else if k == 17 {
            assert(t[17] == (HttpMethod::Get, "/v1/world-snapshot"@, Route::GetWorldSnapshot, Gate::Open));
        } else if k == 18 {
            assert(t[18] == (HttpMethod::Get, "/v1/world-mirrors"@, Route::GetWorldMirrors, Gate::Open));
        } else if k == 19 {
            assert(t[19] == (HttpMethod::Get, "/v1/world-mirror-sources"@, Route::GetWorldMirrorSources, Gate::Open));
        } else if k == 20 {
            assert(t[20] == (HttpMethod::Post, "/v1/world-mirror-sources"@, Route::PostWorldMirrorSources, Gate::AdminWrite));
        } else if k == 21 {
            assert(t[21] == (HttpMethod::Post, "/v1/shell/message"@, Route::PostShellMessage, Gate::Open));
        } else if k == 22 {
            assert(t[22] == (HttpMethod::Post, "/v1/shell/attachment"@, Route::PostShellAttachment, Gate::Open));
        } else if k == 23 {
            assert(t[23] == (HttpMethod::Get, "/v1/push/vapid-public-key"@, Route::GetPushVapidPublicKey, Gate::Open));
        } else if k == 24 {
            assert(t[24] == (HttpMethod::Post, "/v1/push/subscribe"@, Route::PostPushSubscribe, Gate::Open));
        } else if k == 25 {
            assert(t[25] == (HttpMethod::Post, "/v1/push/unsubscribe"@, Route::PostPushUnsubscribe, Gate::Open));
        } else if k == 26 {
            assert(t[26] == (HttpMethod::Post, "/v1/shell/scene"@, Route::PostShellScene, Gate::Open));
        } else if k == 27 {
            assert(t[27] == (HttpMethod::Post, "/v1/shell/message/recall"@, Route::PostShellMessageRecall, Gate::Open));
        } else if k == 28 {
            assert(t[28] == (HttpMethod::Post, "/v1/shell/message/edit"@, Route::PostShellMessageEdit, Gate::Open));
        } else if k == 29 {
            assert(t[29] == (HttpMethod::Post, "/v1/cli/send"@, Route::PostCliSend, Gate::Open));
        } else if k == 30 {
            assert(t[30] == (HttpMethod::Get, "/v1/cli/inbox"@, Route::GetCliInbox, Gate::Open));
        } else if k == 31 {
            assert(t[31] == (HttpMethod::Get, "/v1/cli/rooms"@, Route::GetCliRooms, Gate::Open));
        } else if k == 32 {
            assert(t[32] == (HttpMethod::Get, "/v1/cli/search"@, Route::GetCliSearch, Gate::Open));
        } else if k == 33 {
            assert(t[33] == (HttpMethod::Get, "/v1/cli/tail"@, Route::GetCliTail, Gate::Open));
        } else if k == 34 {
            assert(t[34] == (HttpMethod::Post, "/v1/direct/open"@, Route::PostDirectOpen, Gate::Open));
        } else if k == 35 {
            assert(t[35] == (HttpMethod::Post, "/v1/personal-room"@, Route::PostPersonalRoom, Gate::Open));
        } else if k == 36 {
            assert(t[36] == (HttpMethod::Post, "/v1/personal-room/access-policy"@, Route::PostPersonalRoomAccessPolicy, Gate::Open));
        } else if k == 37 {
            assert(t[37] == (HttpMethod::Post, "/v1/resident-relationships/request"@, Route::PostResidentRelationshipRequest, Gate::Open));
        } else if k == 38 {
            assert(t[38] == (HttpMethod::Post, "/v1/resident-relationships/accept"@, Route::PostResidentRelationshipAccept, Gate::Open));
        } else if k == 39 {
            assert(t[39] == (HttpMethod::Post, "/v1/cities"@, Route::PostCreateCity, Gate::Open));
        } else if k == 40 {
            assert(t[40] == (HttpMethod::Post, "/v1/cities/join"@, Route::PostJoinCity, Gate::Open));
        } else if k == 41 {
            assert(t[41] == (HttpMethod::Post, "/v1/cities/approve"@, Route::PostApproveCityJoin, Gate::Open));
        } else if k == 42 {
            assert(t[42] == (HttpMethod::Post, "/v1/cities/stewards"@, Route::PostUpdateSteward, Gate::Open));
        } else if k == 43 {
            assert(t[43] == (HttpMethod::Post, "/v1/cities/federation-policy"@, Route::PostUpdateFederationPolicy, Gate::Open));
        } else if k == 44 {
            assert(t[44] == (HttpMethod::Post, "/v1/cities/rooms"@, Route::PostCreatePublicRoom, Gate::Open));
        } else if k == 45 {
            assert(t[45] == (HttpMethod::Post, "/v1/cities/rooms/freeze"@, Route::PostFreezePublicRoom, Gate::Open));
        } else if k == 46 {
            assert(t[46] == (HttpMethod::Post, "/v1/world-square/notices"@, Route::PostPublishWorldNotice, Gate::Open));
        } else if k == 47 {
            assert(t[47] == (HttpMethod::Post, "/v1/world-safety/cities/trust"@, Route::PostUpdateCityTrust, Gate::Open));
        } else if k == 48 {
            assert(t[48] == (HttpMethod::Post, "/v1/world-safety/reports"@, Route::PostSubmitSafetyReport, Gate::Open));
        } else if k == 49 {
            assert(t[49] == (HttpMethod::Post, "/v1/world-safety/reports/review"@, Route::PostReviewSafetyReport, Gate::Open));
        } else if k == 50 {
            assert(t[50] == (HttpMethod::Post, "/v1/world-safety/advisories"@, Route::PostPublishSafetyAdvisory, Gate::Open));
        } else if k == 51 {
            assert(t[51] == (HttpMethod::Post, "/v1/world-safety/residents/sanction"@, Route::PostSanctionResident, Gate::Open));
        } else if k == 52 {
            assert(t[52] == (HttpMethod::Post, "/v1/admin/residents/unsanction"@, Route::PostUnsanctionResident, Gate::Open));
        } else if k == 53 {
            assert(t[53] == (HttpMethod::Post, "/v1/shell/presence"@, Route::PostShellPresence, Gate::Open));
        } else if k == 54 {
            assert(t[54] == (HttpMethod::Post, "/v1/shell/read"@, Route::PostShellMarkRead, Gate::Open));
        } else if k == 55 {
            assert(t[55] == (HttpMethod::Post, "/v1/shell/nickname"@, Route::PostShellSetNickname, Gate::Open));
        } else if k == 56 {
            assert(t[56] == (HttpMethod::Post, "/v1/waku"@, Route::PostWaku, Gate::Open));
        }
    }
}

/// A route that `first_match` finds comes from a row naming that method and
/// that path.
proof fn lemma_first_match_row(rows: Seq<RouteRow>, m: HttpMethod, path: Seq<char>) -> (k: int)
    requires
        first_match(rows, m, path) is Some,
    ensures
        0 <= k < rows.len(),
        rows[k].0 == m,
        rows[k].1 == path,
        first_match(rows, m, path) == Some((rows[k].2, rows[k].3)),
    decreases rows.len(),
{
    if rows[0].0 == m && rows[0].1 == path {
        0
    } else {
        let k = lemma_first_match_row(rows.drop_first(), m, path);
        k + 1
    }
}

/// Every request routed to a handler of the table names that handler's path:
/// a request routed anywhere but to the preflight, an attachment download or
/// not-found carries the path that names its handler, and a row of the table
/// for its method and path leads there.
pub proof fn lemma_routed_path_names_handler(m: HttpMethod, path: Seq<char>)
    requires
        route_for(m, path).0 != Route::Preflight,
        route_for(m, path).0 != Route::GetShellAttachment,
        route_for(m, path).0 != Route::NotFound,
    ensures
        handler_path(route_for(m, path).0) == Some(path),
{
    lemma_paths_before_attachments();
    lemma_paths_after_attachments();
    let before = routes_before_attachments();
    let after = routes_after_attachments();
    if first_match(before, m, path) is Some {
        let k = lemma_first_match_row(before, m, path);
        assert(path_agrees(before[k]));
    } else {
        let k = lemma_first_match_row(after, m, path);
        assert(path_agrees(after[k]));
    }
}

/// Each handler of the table is reached by one path only: two requests
/// routed to the same handler (other than the preflight, attachment
/// downloads and not-found) name the same path.
pub proof fn lemma_one_path_per_handler(m1: HttpMethod, p1: Seq<char>, m2: HttpMethod, p2: Seq<char>)
    requires
        route_for(m1, p1).0 == route_for(m2, p2).0,
        route_for(m1, p1).0 != Route::Preflight,
        route_for(m1, p1).0 != Route::GetShellAttachment,
        route_for(m1, p1).0 != Route::NotFound,
    ensures
        p1 == p2,
{
    lemma_routed_path_names_handler(m1, p1);
    lemma_routed_path_names_handler(m2, p2);
}

} // verus!
