//! Core of a multi-tenant identity service: validated value types, a small
//! permission language with a lossless string form, and the decision logic of
//! the user, profile and permission workflows, driven step by step by a host
//! that owns the database and the event bus.

mod accounts;
mod authz;
mod entities;
mod errors;
mod events;
mod ids;
mod permissions;
mod store;
mod text;

pub use accounts::{
    delete_grant, find_profile_result, find_user_result, lemma_create_user_failure_aborts,
    lemma_create_user_publishes_after_commit, lemma_delete_user_needs_permission,
    lemma_delete_user_publishes_after_commit, self_grant, tenant_id_field, AuthRequest,
    CreateProfileError, CreateProfileFlow, CreateUserError, CreateUserFlow, CreateUserRequest,
    DeleteUserFlow, FindProfileError, FindUserError,
};
pub use authz::{
    invalid_field, lemma_grant_idempotent, lemma_grant_needs_authority,
    lemma_revoke_absent_is_noop, lemma_revoke_needs_authority, permission_for, request_of,
    resource_field, CreatePermissionError, GrantFlow, GrantPermissionError, HasPermissionError,
    HasPermissionFlow, RevokeFlow, RevokePermissionError,
};
pub use entities::{
    email_field, is_email, lower_of, regex_match, CreateProfile, Email, Profile, Tenant,
    Timestamp, User, EMAIL_PATTERN,
};
pub use errors::{unique_violation_code, ErrorCode, FieldValidationError};
pub use events::{
    AppEvent, PermissionEvent, PermissionsEventHandler, ProfileEvent, ProfilesEventHandler,
    TenantEvent, TenantsEventHandler, UserEvent, UsersEventHandler,
};
pub use ids::{is_canonical_uuid, is_lower_hex, parsed_uuid, Uuid};
pub use permissions::{
    action_field, action_of, is_alnum, is_target_char, is_target_text, kind_of, kind_word,
    lemma_malformed_rejected, lemma_permission_round_trip, permission_of, user_id_field,
    verb_prefix, verb_word, Actionable, ParseError, Permission, PermissionModel, Resource,
    ResourceKind, Target, Verb,
};
pub use store::{Command, Reply, StoreError};
pub use text::{split_on, split_text};
