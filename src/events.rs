use vstd::prelude::*;

use crate::entities::{Profile, Tenant, User};
use crate::permissions::Permission;

verus! {

/// A change to a user.
#[derive(Debug, PartialEq, Eq)]
pub enum UserEvent {
    Created(User),
    Deleted(String),
}

impl Clone for UserEvent {
    fn clone(&self) -> (r: Self)
        ensures
            r == *self,
    {
        match self {
            UserEvent::Created(u) => UserEvent::Created(u.clone()),
            UserEvent::Deleted(id) => UserEvent::Deleted(id.clone()),
        }
    }
}

/// A change to a profile.
#[derive(Debug)]
pub enum ProfileEvent {
    Created(Profile),
    Deleted(String),
}

impl Clone for ProfileEvent {
    fn clone(&self) -> (r: Self)
        ensures
            r == *self,
    {
        match self {
            ProfileEvent::Created(p) => ProfileEvent::Created(p.clone()),
            ProfileEvent::Deleted(id) => ProfileEvent::Deleted(id.clone()),
        }
    }
}

/// A change to the permissions.
#[derive(Debug)]
pub enum PermissionEvent {
    Granted(Permission),
    Revoked(Permission),
}

impl Clone for PermissionEvent {
    fn clone(&self) -> (r: Self)
        ensures
            r == *self,
    {
        match self {
            PermissionEvent::Granted(p) => PermissionEvent::Granted(p.clone()),
            PermissionEvent::Revoked(p) => PermissionEvent::Revoked(p.clone()),
        }
    }
}

/// A change to a tenant.
#[derive(Debug, PartialEq, Eq)]
pub enum TenantEvent {
    Created(Tenant),
    Deleted(Tenant),
}

impl Clone for TenantEvent {
    fn clone(&self) -> (r: Self)
        ensures
            r == *self,
    {
        match self {
            TenantEvent::Created(t) => TenantEvent::Created(t.clone()),
            TenantEvent::Deleted(t) => TenantEvent::Deleted(t.clone()),
        }
    }
}

/// A domain event, published on the event bus after the change it describes
/// has been committed.
#[derive(Debug)]
pub enum AppEvent {
    User(UserEvent),
    Profile(ProfileEvent),
    Permission(PermissionEvent),
    Tenant(TenantEvent),
}

impl Clone for AppEvent {
    fn clone(&self) -> (r: Self)
        ensures
            r == *self,
    {
        match self {
            AppEvent::User(e) => AppEvent::User(e.clone()),
            AppEvent::Profile(e) => AppEvent::Profile(e.clone()),
            AppEvent::Permission(e) => AppEvent::Permission(e.clone()),
            AppEvent::Tenant(e) => AppEvent::Tenant(e.clone()),
        }
    }
}

/// The subscriber that follows user events.
#[derive(Debug)]
pub struct UsersEventHandler;

impl UsersEventHandler {
    pub fn new_handler() -> (r: Self) {
        UsersEventHandler
    }
}

/// The subscriber that follows profile events.
#[derive(Debug)]
pub struct ProfilesEventHandler;

impl ProfilesEventHandler {
    pub fn new_handler() -> (r: Self) {
        ProfilesEventHandler
    }
}

/// The subscriber that follows permission events.
#[derive(Debug)]
pub struct PermissionsEventHandler;

impl PermissionsEventHandler {
    pub fn new_handler() -> (r: Self) {
        PermissionsEventHandler
    }
}

/// The subscriber that follows tenant events.
#[derive(Debug)]
pub struct TenantsEventHandler;

impl TenantsEventHandler {
    pub fn new_handler() -> (r: Self) {
        TenantsEventHandler
    }
}

} // verus!
