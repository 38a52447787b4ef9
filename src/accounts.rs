use vstd::prelude::*;

use crate::entities::{email_field, is_email, lower_of, CreateProfile, Email, Profile, User};
use crate::errors::FieldValidationError;
use crate::events::{AppEvent, UserEvent};
use crate::ids::{parsed_uuid, Uuid};
use crate::permissions::{
    kind_word, user_id_field, Actionable, Permission, PermissionModel, Resource, ResourceKind,
    Verb,
};
use crate::store::{Command, Reply, StoreError};

verus! {

/// A sign-in or sign-up request.
#[derive(Debug)]
pub struct AuthRequest {
    pub email: String,
    pub password: String,
    pub tenant_id: String,
}

/// A request to create a user.
#[derive(Debug)]
pub struct CreateUserRequest {
    pub email: String,
    pub tenant_id: Uuid,
}

/// Why a user could not be found or deleted.
#[derive(Debug)]
pub enum FindUserError {
    /// The acting subject may not write the user.
    PermissionDenied,
    /// No user has this identifier.
    NotFound(String),
    Sqlx(StoreError),
    InvalidInput(FieldValidationError),
}

/// Why a user could not be created.
#[derive(Debug)]
pub enum CreateUserError {
    InvalidInput(FieldValidationError),
    Sqlx(StoreError),
}

/// Why a profile could not be created.
#[derive(Debug)]
pub enum CreateProfileError {
    Sqlx(StoreError),
}

/// Why a profile could not be found.
#[derive(Debug)]
pub enum FindProfileError {
    NotFound(String),
    Sqlx(StoreError),
}

/// The permission that a new user receives on itself.
pub open spec fn self_grant(v: Verb, id: Seq<char>) -> PermissionModel {
    PermissionModel {
        subject: id,
        verb: v,
        target: kind_word(ResourceKind::User),
        resource_id: id,
        kind: ResourceKind::User,
    }
}

/// The permission that deleting the user `id` asks of the acting subject.
pub open spec fn delete_grant(subject: Seq<char>, id: Seq<char>) -> PermissionModel {
    PermissionModel {
        subject,
        verb: Verb::Write,
        target: kind_word(ResourceKind::User),
        resource_id: id,
        kind: ResourceKind::User,
    }
}

fn grant_on_self(verb: Verb, user: &User) -> (r: Permission)
    ensures
        r@ == self_grant(verb, user.id@),
        r.user_id == user.id,
{
    Permission {
        user_id: user.id.clone(),
        action: Actionable::of(verb, User::kind()),
        resource: Resource::User(user.id.to_text()),
    }
}

/// The field name reported for an invalid tenant.
pub open spec fn tenant_id_field() -> Seq<char> {
    seq!['t', 'e', 'n', 'a', 'n', 't', '_', 'i', 'd']
}

/// Creating a user: in one transaction, the user, its profile, and its read and
/// write permissions on itself are inserted; after the commit, and only then,
/// `UserCreated` is published. A failure before the commit ends the workflow
/// without committing anything; the outcome of the publication does not change
/// the result.
#[derive(Debug)]
pub enum CreateUserFlow {
    /// Waiting for the transaction to open.
    Opening { user: User, profile: CreateProfile, read: Permission, write: Permission },
    /// Waiting for the user's insert.
    AddingUser { user: User, profile: CreateProfile, read: Permission, write: Permission },
    /// Waiting for the profile's insert.
    AddingProfile { user: User, read: Permission, write: Permission },
    /// Waiting for the insert of the read permission.
    GrantingRead { user: User, write: Permission },
    /// Waiting for the insert of the write permission.
    GrantingWrite { user: User },
    /// Waiting for the commit.
    Committing { user: User },
    /// Waiting for the publication.
    Publishing { user: User },
    Finished(Result<User, CreateUserError>),
}

impl CreateUserFlow {
    pub open spec fn next(self, reply: Reply) -> (CreateUserFlow, Option<Command>) {
        match self {
            CreateUserFlow::Opening { user, profile, read, write } => match reply {
                Reply::Failed(e) => (CreateUserFlow::Finished(Err(CreateUserError::Sqlx(e))), None),
                _ => (
                    CreateUserFlow::AddingUser { user, profile, read, write },
                    Some(Command::InsertUser(user)),
                ),
            },
            CreateUserFlow::AddingUser { user, profile, read, write } => match reply {
                Reply::Failed(e) => (CreateUserFlow::Finished(Err(CreateUserError::Sqlx(e))), None),
                _ => (
                    CreateUserFlow::AddingProfile { user, read, write },
                    Some(Command::InsertProfile(profile)),
                ),
            },
            CreateUserFlow::AddingProfile { user, read, write } => match reply {
                Reply::Failed(e) => (CreateUserFlow::Finished(Err(CreateUserError::Sqlx(e))), None),
                _ => (
                    CreateUserFlow::GrantingRead { user, write },
                    Some(Command::InsertPermission(read)),
                ),
            },
            CreateUserFlow::GrantingRead { user, write } => match reply {
                Reply::Failed(e) => (CreateUserFlow::Finished(Err(CreateUserError::Sqlx(e))), None),
                _ => (CreateUserFlow::GrantingWrite { user }, Some(Command::InsertPermission(write))),
            },
            CreateUserFlow::GrantingWrite { user } => match reply {
                Reply::Failed(e) => (CreateUserFlow::Finished(Err(CreateUserError::Sqlx(e))), None),
                _ => (CreateUserFlow::Committing { user }, Some(Command::Commit)),
            },
            CreateUserFlow::Committing { user } => match reply {
                Reply::Failed(e) => (CreateUserFlow::Finished(Err(CreateUserError::Sqlx(e))), None),
                _ => (
                    CreateUserFlow::Publishing { user },
                    Some(Command::Publish(AppEvent::User(UserEvent::Created(user)))),
                ),
            },
            CreateUserFlow::Publishing { user } => (CreateUserFlow::Finished(Ok(user)), None),
            CreateUserFlow::Finished(r) => (CreateUserFlow::Finished(r), None),
        }
    }

    /// Starts the creation of a user. The address is validated before anything
    /// is sent to the store.
    pub fn start(payload: CreateUserRequest) -> (r: (CreateUserFlow, Option<Command>))
        ensures
            !is_email(payload.email@) ==> r.1 is None && (r.0 matches CreateUserFlow::Finished(
                Err(CreateUserError::InvalidInput(e)),
            ) && e.field@ == email_field()),
            is_email(payload.email@) ==> r.1 == Some(Command::Begin) && (r.0 matches CreateUserFlow::Opening {
                user,
                profile,
                read,
                write,
            } && user.id.wf() && profile.user_id == user.id && profile.email@ == lower_of(
                payload.email@,
            ) && read@ == self_grant(Verb::Read, user.id@) && write@ == self_grant(
                Verb::Write,
                user.id@,
            )),
    {
        let email = match Email::new(payload.email.as_str()) {
            Ok(e) => e,
            Err(e) => return (CreateUserFlow::Finished(Err(CreateUserError::InvalidInput(e))), None),
        };
        // the external identity provider is not wired in yet: a fresh identifier
        // stands for its subject
        let auth_id = Uuid::new().to_text();
        let user = User::new(auth_id.as_str());
        let profile = CreateProfile { user_id: user.id.clone(), email };
        let read = grant_on_self(Verb::Read, &user);
        let write = grant_on_self(Verb::Write, &user);
        (CreateUserFlow::Opening { user, profile, read, write }, Some(Command::Begin))
    }

    /// Starts a sign-up: the tenant identifier must be valid, then a user is
    /// created for the address.
    pub fn sign_up(payload: &AuthRequest) -> (r: (CreateUserFlow, Option<Command>))
        ensures
            parsed_uuid(payload.tenant_id@) is None ==> r.1 is None && (r.0 matches CreateUserFlow::Finished(
                Err(CreateUserError::InvalidInput(e)),
            ) && e.field@ == tenant_id_field()),
            parsed_uuid(payload.tenant_id@) is Some && !is_email(payload.email@) ==> r.1 is None
                && (r.0 matches CreateUserFlow::Finished(Err(CreateUserError::InvalidInput(e)))
                && e.field@ == email_field()),
            parsed_uuid(payload.tenant_id@) is Some && is_email(payload.email@) ==> r.1 == Some(
                Command::Begin,
            ) && (r.0 matches CreateUserFlow::Opening { user, profile, .. } && user.id.wf()
                && profile.user_id == user.id && profile.email@ == lower_of(payload.email@)),
    {
        match Uuid::parse(payload.tenant_id.as_str()) {
            Some(tenant_id) => CreateUserFlow::start(
                CreateUserRequest { email: payload.email.clone(), tenant_id },
            ),
            None => {
                proof {
                    reveal_strlit("tenant_id");
                }
                (
                    CreateUserFlow::Finished(
                        Err(
                            CreateUserError::InvalidInput(
                                FieldValidationError {
                                    field: "tenant_id".to_string(),
                                    message: "invalid uuid provided for field `tenant_id`".to_string(),
                                },
                            ),
                        ),
                    ),
                    None,
                )
            },
        }
    }

    /// Takes the answer to the last command.
    pub fn resume(self, reply: Reply) -> (r: (CreateUserFlow, Option<Command>))
        ensures
            r == self.next(reply),
    {
        match self {
            CreateUserFlow::Opening { user, profile, read, write } => match reply {
                Reply::Failed(e) => (CreateUserFlow::Finished(Err(CreateUserError::Sqlx(e))), None),
                _ => {
                    let cmd = Command::InsertUser(user.clone());
                    (CreateUserFlow::AddingUser { user, profile, read, write }, Some(cmd))
                },
            },
            CreateUserFlow::AddingUser { user, profile, read, write } => match reply {
                Reply::Failed(e) => (CreateUserFlow::Finished(Err(CreateUserError::Sqlx(e))), None),
                _ => (
                    CreateUserFlow::AddingProfile { user, read, write },
                    Some(Command::InsertProfile(profile)),
                ),
            },
            CreateUserFlow::AddingProfile { user, read, write } => match reply {
                Reply::Failed(e) => (CreateUserFlow::Finished(Err(CreateUserError::Sqlx(e))), None),
                _ => (
                    CreateUserFlow::GrantingRead { user, write },
                    Some(Command::InsertPermission(read)),
                ),
            },
            CreateUserFlow::GrantingRead { user, write } => match reply {
                Reply::Failed(e) => (CreateUserFlow::Finished(Err(CreateUserError::Sqlx(e))), None),
                _ => (CreateUserFlow::GrantingWrite { user }, Some(Command::InsertPermission(write))),
            },
            CreateUserFlow::GrantingWrite { user } => match reply {
                Reply::Failed(e) => (CreateUserFlow::Finished(Err(CreateUserError::Sqlx(e))), None),
                _ => (CreateUserFlow::Committing { user }, Some(Command::Commit)),
            },
            CreateUserFlow::Committing { user } => match reply {
                Reply::Failed(e) => (CreateUserFlow::Finished(Err(CreateUserError::Sqlx(e))), None),
                _ => {
                    let event = AppEvent::User(UserEvent::Created(user.clone()));
                    (CreateUserFlow::Publishing { user }, Some(Command::Publish(event)))
                },
            },
            CreateUserFlow::Publishing { user } => (CreateUserFlow::Finished(Ok(user)), None),
            CreateUserFlow::Finished(r) => (CreateUserFlow::Finished(r), None),
        }
    }
}

/// Deleting a user: the acting subject must hold `write-user` on that user;
/// the user is then deleted in a transaction, and after the commit
/// `UserDeleted` is published.
#[derive(Debug)]
pub enum DeleteUserFlow {
    /// Waiting for the check of the acting subject.
    Checking { id: String },
    /// Waiting for the transaction to open.
    Opening { id: String },
    /// Waiting for the delete.
    Deleting { id: String },
    /// Waiting for the commit.
    Committing { id: String },
    /// Waiting for the publication.
    Publishing,
    Finished(Result<(), FindUserError>),
}

impl DeleteUserFlow {
    pub open spec fn next(self, reply: Reply) -> (DeleteUserFlow, Option<Command>) {
        match self {
            DeleteUserFlow::Checking { id } => match reply {
                Reply::Failed(e) => (DeleteUserFlow::Finished(Err(FindUserError::Sqlx(e))), None),
                Reply::Found(true) => (DeleteUserFlow::Opening { id }, Some(Command::Begin)),
                _ => (DeleteUserFlow::Finished(Err(FindUserError::PermissionDenied)), None),
            },
            DeleteUserFlow::Opening { id } => match reply {
                Reply::Failed(e) => (DeleteUserFlow::Finished(Err(FindUserError::Sqlx(e))), None),
                _ => (DeleteUserFlow::Deleting { id }, Some(Command::DeleteUser(id))),
            },
            DeleteUserFlow::Deleting { id } => match reply {
                Reply::Failed(e) => (DeleteUserFlow::Finished(Err(FindUserError::Sqlx(e))), None),
                _ => (DeleteUserFlow::Committing { id }, Some(Command::Commit)),
            },
            DeleteUserFlow::Committing { id } => match reply {
                Reply::Failed(e) => (DeleteUserFlow::Finished(Err(FindUserError::Sqlx(e))), None),
                _ => (
                    DeleteUserFlow::Publishing,
                    Some(Command::Publish(AppEvent::User(UserEvent::Deleted(id)))),
                ),
            },
            DeleteUserFlow::Publishing => (DeleteUserFlow::Finished(Ok(())), None),
            DeleteUserFlow::Finished(r) => (DeleteUserFlow::Finished(r), None),
        }
    }

    /// Starts the deletion of user `id` on behalf of `acting_user_id`.
    pub fn start(acting_user_id: &str, id: &str) -> (r: (DeleteUserFlow, Option<Command>))
        ensures
            match parsed_uuid(acting_user_id@) {
                Some(subject) => (r.1 matches Some(Command::Exists(p)) && p@ == delete_grant(
                    subject,
                    id@,
                )) && (r.0 matches DeleteUserFlow::Checking { id: i } && i@ == id@),
                None => r.1 is None && (r.0 matches DeleteUserFlow::Finished(
                    Err(FindUserError::InvalidInput(e)),
                ) && e.field@ == user_id_field()),
            },
    {
        match Uuid::parse(acting_user_id) {
            Some(subject) => {
                let check = Permission {
                    user_id: subject,
                    action: Actionable::Write(User::kind()),
                    resource: Resource::User(id.to_string()),
                };
                (DeleteUserFlow::Checking { id: id.to_string() }, Some(Command::Exists(check)))
            },
            None => {
                proof {
                    reveal_strlit("user_id");
                }
                (
                    DeleteUserFlow::Finished(
                        Err(
                            FindUserError::InvalidInput(
                                FieldValidationError {
                                    field: "user_id".to_string(),
                                    message: "invalid uuid provided for field `user_id`".to_string(),
                                },
                            ),
                        ),
                    ),
                    None,
                )
            },
        }
    }

    /// Takes the answer to the last command.
    pub fn resume(self, reply: Reply) -> (r: (DeleteUserFlow, Option<Command>))
        ensures
            r == self.next(reply),
    {
        match self {
            DeleteUserFlow::Checking { id } => match reply {
                Reply::Failed(e) => (DeleteUserFlow::Finished(Err(FindUserError::Sqlx(e))), None),
                Reply::Found(true) => (DeleteUserFlow::Opening { id }, Some(Command::Begin)),
                _ => (DeleteUserFlow::Finished(Err(FindUserError::PermissionDenied)), None),
            },
            DeleteUserFlow::Opening { id } => match reply {
                Reply::Failed(e) => (DeleteUserFlow::Finished(Err(FindUserError::Sqlx(e))), None),
                _ => {
                    let cmd = Command::DeleteUser(id.clone());
                    (DeleteUserFlow::Deleting { id }, Some(cmd))
                },
            },
            DeleteUserFlow::Deleting { id } => match reply {
                Reply::Failed(e) => (DeleteUserFlow::Finished(Err(FindUserError::Sqlx(e))), None),
                _ => (DeleteUserFlow::Committing { id }, Some(Command::Commit)),
            },
            DeleteUserFlow::Committing { id } => match reply {
                Reply::Failed(e) => (DeleteUserFlow::Finished(Err(FindUserError::Sqlx(e))), None),
                _ => (
                    DeleteUserFlow::Publishing,
                    Some(Command::Publish(AppEvent::User(UserEvent::Deleted(id)))),
                ),
            },
            DeleteUserFlow::Publishing => (DeleteUserFlow::Finished(Ok(())), None),
            DeleteUserFlow::Finished(r) => (DeleteUserFlow::Finished(r), None),
        }
    }
}

/// The result of looking up user `id`, given what the store returned.
pub fn find_user_result(id: &str, found: Result<Option<User>, StoreError>) -> (r: Result<
    User,
    FindUserError,
>)
    ensures
        match found {
            Ok(Some(u)) => r == Ok::<User, FindUserError>(u),
            Ok(None) => r matches Err(FindUserError::NotFound(i)) && i@ == id@,
            Err(e) => r == Err::<User, FindUserError>(FindUserError::Sqlx(e)),
        },
{
    match found {
        Ok(Some(u)) => Ok(u),
        Ok(None) => Err(FindUserError::NotFound(id.to_string())),
        Err(e) => Err(FindUserError::Sqlx(e)),
    }
}

/// The result of looking up the profile of `email`, given what the store
/// returned.
pub fn find_profile_result(email: &str, found: Result<Option<Profile>, StoreError>) -> (r: Result<
    Profile,
    FindProfileError,
>)
    ensures
        match found {
            Ok(Some(p)) => r == Ok::<Profile, FindProfileError>(p),
            Ok(None) => r matches Err(FindProfileError::NotFound(e)) && e@ == email@,
            Err(e) => r == Err::<Profile, FindProfileError>(FindProfileError::Sqlx(e)),
        },
{
    match found {
        Ok(Some(p)) => Ok(p),
        Ok(None) => Err(FindProfileError::NotFound(email.to_string())),
        Err(e) => Err(FindProfileError::Sqlx(e)),
    }
}

/// A failure before the commit ends the creation of a user with that error and
/// sends nothing more: no commit, so nothing of the user is kept, and no event.
pub proof fn lemma_create_user_failure_aborts(s: CreateUserFlow, e: StoreError)
    requires
        !(s is Publishing),
        !(s is Finished),
    ensures
        s.next(Reply::Failed(e)) == (
            CreateUserFlow::Finished(Err(CreateUserError::Sqlx(e))),
            None::<Command>,
        ),
{
}

/// `UserCreated` is published only once the commit has succeeded, and it
/// carries the committed user.
pub proof fn lemma_create_user_publishes_after_commit(s: CreateUserFlow, reply: Reply)
    ensures
        s.next(reply).1 matches Some(Command::Publish(ev)) ==> (s matches CreateUserFlow::Committing {
            user,
        } && !(reply is Failed) && ev == AppEvent::User(UserEvent::Created(user))),
{
}

/// `UserDeleted` is published only once the commit has succeeded.
pub proof fn lemma_delete_user_publishes_after_commit(s: DeleteUserFlow, reply: Reply)
    ensures
        s.next(reply).1 matches Some(Command::Publish(ev)) ==> (s matches DeleteUserFlow::Committing {
            id,
        } && !(reply is Failed) && ev == AppEvent::User(UserEvent::Deleted(id))),
{
}

/// Without `write-user` on the user, the acting subject cannot delete it: the
/// workflow ends in `PermissionDenied` before anything is written.
pub proof fn lemma_delete_user_needs_permission(id: String, reply: Reply)
    requires
        !reply.is_yes(),
        !(reply is Failed),
    ensures
        (DeleteUserFlow::Checking { id }).next(reply) == (
            DeleteUserFlow::Finished(Err(FindUserError::PermissionDenied)),
            None::<Command>,
        ),
{
}

/// Creating a profile on its own: it is inserted in a transaction, which is
/// then committed.
#[derive(Debug)]
pub enum CreateProfileFlow {
    /// Waiting for the transaction to open.
    Opening { profile: CreateProfile },
    /// Waiting for the insert.
    Inserting { profile: CreateProfile },
    /// Waiting for the commit.
    Committing { profile: CreateProfile },
    Finished(Result<Profile, CreateProfileError>),
}

impl CreateProfileFlow {
    pub open spec fn next(self, reply: Reply) -> (CreateProfileFlow, Option<Command>) {
        match self {
            CreateProfileFlow::Opening { profile } => match reply {
                Reply::Failed(e) => (CreateProfileFlow::Finished(Err(CreateProfileError::Sqlx(e))), None),
                _ => (CreateProfileFlow::Inserting { profile }, Some(Command::InsertProfile(profile))),
            },
            CreateProfileFlow::Inserting { profile } => match reply {
                Reply::Failed(e) => (CreateProfileFlow::Finished(Err(CreateProfileError::Sqlx(e))), None),
                _ => (CreateProfileFlow::Committing { profile }, Some(Command::Commit)),
            },
            CreateProfileFlow::Committing { profile } => match reply {
                Reply::Failed(e) => (CreateProfileFlow::Finished(Err(CreateProfileError::Sqlx(e))), None),
                _ => (
                    CreateProfileFlow::Finished(
                        Ok(Profile { user_id: profile.user_id, email: profile.email }),
                    ),
                    None,
                ),
            },
            CreateProfileFlow::Finished(r) => (CreateProfileFlow::Finished(r), None),
        }
    }

    /// Starts the creation of `profile`.
    pub fn start(profile: CreateProfile) -> (r: (CreateProfileFlow, Option<Command>))
        ensures
            r == (CreateProfileFlow::Opening { profile }, Some(Command::Begin)),
    {
        (CreateProfileFlow::Opening { profile }, Some(Command::Begin))
    }

    /// Takes the answer to the last command.
    pub fn resume(self, reply: Reply) -> (r: (CreateProfileFlow, Option<Command>))
        ensures
            r == self.next(reply),
    {
        match self {
            CreateProfileFlow::Opening { profile } => match reply {
                Reply::Failed(e) => (CreateProfileFlow::Finished(Err(CreateProfileError::Sqlx(e))), None),
                _ => {
                    let cmd = Command::InsertProfile(profile.clone());
                    (CreateProfileFlow::Inserting { profile }, Some(cmd))
                },
            },
            CreateProfileFlow::Inserting { profile } => match reply {
                Reply::Failed(e) => (CreateProfileFlow::Finished(Err(CreateProfileError::Sqlx(e))), None),
                _ => (CreateProfileFlow::Committing { profile }, Some(Command::Commit)),
            },
            CreateProfileFlow::Committing { profile } => match reply {
                Reply::Failed(e) => (CreateProfileFlow::Finished(Err(CreateProfileError::Sqlx(e))), None),
                _ => (CreateProfileFlow::Finished(Ok(profile.to_profile())), None),
            },
            CreateProfileFlow::Finished(r) => (CreateProfileFlow::Finished(r), None),
        }
    }
}

} // verus!
