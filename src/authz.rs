use vstd::prelude::*;

use crate::errors::FieldValidationError;
use crate::ids::parsed_uuid;
use crate::permissions::{
    action_field, action_of, kind_of, user_id_field, Permission, PermissionModel, Resource,
};
use crate::store::{Command, Reply, StoreError};

verus! {

/// Why an access check could not be answered.
#[derive(Debug)]
pub enum HasPermissionError {
    InvalidInput(FieldValidationError),
    Sqlx(StoreError),
}

/// Why a grant was not made.
#[derive(Debug)]
pub enum GrantPermissionError {
    /// The requester does not hold the permission it tries to grant.
    Unauthorized,
    /// The requester's permission could not be checked.
    AccessCheckFailed(HasPermissionError),
    /// The permission could not be stored.
    CreateFailed(CreatePermissionError),
}

/// Why a permission could not be stored.
#[derive(Debug)]
pub enum CreatePermissionError {
    InvalidInput(FieldValidationError),
    Sqlx(StoreError),
}

/// Why a revocation was not made.
#[derive(Debug)]
pub enum RevokePermissionError {
    /// The requester does not hold the permission it tries to revoke.
    Unauthorized,
    /// The requester's permission could not be checked.
    AccessCheckFailed(HasPermissionError),
    /// The permission could not be removed.
    DeleteFailed(HasPermissionError),
}

/// The field name reported for an invalid resource.
pub open spec fn resource_field() -> Seq<char> {
    seq!['r', 'e', 's', 'o', 'u', 'r', 'c', 'e']
}

/// The permission that the raw fields of a request denote, if they are valid.
pub open spec fn request_of(
    user_id: Seq<char>,
    action: Seq<char>,
    resource_id: Seq<char>,
    resource_kind: Seq<char>,
) -> Option<PermissionModel> {
    match (kind_of(resource_kind), parsed_uuid(user_id), action_of(action)) {
        (Some(kind), Some(subject), Ok((verb, target))) => Some(
            PermissionModel { subject, verb, target, resource_id, kind },
        ),
        _ => None,
    }
}

/// The first invalid field of a request: resource kind, then subject, then action.
pub open spec fn invalid_field(
    user_id: Seq<char>,
    action: Seq<char>,
    resource_kind: Seq<char>,
) -> Seq<char> {
    if kind_of(resource_kind) is None {
        resource_field()
    } else if parsed_uuid(user_id) is None {
        user_id_field()
    } else {
        action_field()
    }
}

/// Validates the raw fields of a request into the permission they denote.
pub fn permission_for(user_id: &str, action: &str, resource_id: &str, resource_kind: &str) -> (r:
    Result<Permission, FieldValidationError>)
    ensures
        match r {
            Ok(p) => request_of(user_id@, action@, resource_id@, resource_kind@) == Some(p@)
                && p.user_id.wf(),
            Err(e) => request_of(user_id@, action@, resource_id@, resource_kind@) is None
                && e.field@ == invalid_field(user_id@, action@, resource_kind@),
        },
{
    let resource = match Resource::parse(resource_id, resource_kind) {
        Ok(res) => res,
        Err(e) => {
            proof {
                reveal_strlit("resource");
            }
            return Err(
                FieldValidationError {
                    field: "resource".to_string(),
                    message: e.message().to_string(),
                },
            );
        },
    };
    Permission::new(user_id, action, &resource)
}

/// Whether a subject holds a permission: the request is validated, then the
/// store is asked. Only `Reply::Found(true)` counts as held.
#[derive(Debug)]
pub enum HasPermissionFlow {
    /// Waiting for the answer to `Command::Exists`.
    Asking,
    Finished(Result<bool, HasPermissionError>),
}

impl HasPermissionFlow {
    pub open spec fn next(self, reply: Reply) -> (HasPermissionFlow, Option<Command>) {
        match self {
            HasPermissionFlow::Asking => match reply {
                Reply::Failed(e) => (HasPermissionFlow::Finished(Err(HasPermissionError::Sqlx(e))), None),
                Reply::Found(b) => (HasPermissionFlow::Finished(Ok(b)), None),
                Reply::Done => (HasPermissionFlow::Finished(Ok(false)), None),
            },
            HasPermissionFlow::Finished(r) => (HasPermissionFlow::Finished(r), None),
        }
    }

    /// Starts the check of whether `user_id` may perform `action` on the
    /// resource of `resource_id` and `resource_kind`.
    pub fn start(user_id: &str, action: &str, resource_id: &str, resource_kind: &str) -> (r: (
        HasPermissionFlow,
        Option<Command>,
    ))
        ensures
            match request_of(user_id@, action@, resource_id@, resource_kind@) {
                Some(m) => r.0 is Asking && (r.1 matches Some(Command::Exists(p)) && p@ == m),
                None => r.1 is None && (r.0 matches HasPermissionFlow::Finished(
                    Err(HasPermissionError::InvalidInput(e)),
                ) && e.field@ == invalid_field(user_id@, action@, resource_kind@)),
            },
    {
        match permission_for(user_id, action, resource_id, resource_kind) {
            Ok(p) => (HasPermissionFlow::Asking, Some(Command::Exists(p))),
            Err(e) => (HasPermissionFlow::Finished(Err(HasPermissionError::InvalidInput(e))), None),
        }
    }

    /// Takes the store's answer.
    pub fn resume(self, reply: Reply) -> (r: (HasPermissionFlow, Option<Command>))
        ensures
            r == self.next(reply),
    {
        match self {
            HasPermissionFlow::Asking => match reply {
                Reply::Failed(e) => (HasPermissionFlow::Finished(Err(HasPermissionError::Sqlx(e))), None),
                Reply::Found(b) => (HasPermissionFlow::Finished(Ok(b)), None),
                Reply::Done => (HasPermissionFlow::Finished(Ok(false)), None),
            },
            HasPermissionFlow::Finished(r) => (HasPermissionFlow::Finished(r), None),
        }
    }
}

/// Granting a permission: the requester must hold the same permission on the
/// same resource; the receiver's permission is then inserted in a transaction.
/// An insert that breaks the uniqueness constraint means the permission is held
/// already, and counts as success.
#[derive(Debug)]
pub enum GrantFlow {
    /// Waiting for the check of the requester; holds the receiver's validated
    /// permission.
    Checking { grant: Result<Permission, FieldValidationError> },
    /// Waiting for the transaction to open.
    Opening { grant: Permission },
    /// Waiting for the insert.
    Inserting { grant: Permission },
    /// Waiting for the commit.
    Committing { grant: Permission },
    Finished(Result<Permission, GrantPermissionError>),
}

impl GrantFlow {
    pub open spec fn next(self, reply: Reply) -> (GrantFlow, Option<Command>) {
        match self {
            GrantFlow::Checking { grant } => match reply {
                Reply::Failed(e) => (
                    GrantFlow::Finished(
                        Err(GrantPermissionError::AccessCheckFailed(HasPermissionError::Sqlx(e))),
                    ),
                    None,
                ),
                Reply::Found(true) => match grant {
                    Ok(p) => (GrantFlow::Opening { grant: p }, Some(Command::Begin)),
                    Err(e) => (
                        GrantFlow::Finished(
                            Err(
                                GrantPermissionError::CreateFailed(
                                    CreatePermissionError::InvalidInput(e),
                                ),
                            ),
                        ),
                        None,
                    ),
                },
                _ => (GrantFlow::Finished(Err(GrantPermissionError::Unauthorized)), None),
            },
            GrantFlow::Opening { grant } => match reply {
                Reply::Failed(e) => (
                    GrantFlow::Finished(
                        Err(GrantPermissionError::CreateFailed(CreatePermissionError::Sqlx(e))),
                    ),
                    None,
                ),
                _ => (GrantFlow::Inserting { grant }, Some(Command::InsertPermission(grant))),
            },
            GrantFlow::Inserting { grant } => match reply {
                Reply::Failed(e) => if e.is_unique_violation() {
                    (GrantFlow::Finished(Ok(grant)), None)
                } else {
                    (
                        GrantFlow::Finished(
                            Err(GrantPermissionError::CreateFailed(CreatePermissionError::Sqlx(e))),
                        ),
                        None,
                    )
                },
                _ => (GrantFlow::Committing { grant }, Some(Command::Commit)),
            },
            GrantFlow::Committing { grant } => match reply {
                Reply::Failed(e) => (
                    GrantFlow::Finished(
                        Err(GrantPermissionError::CreateFailed(CreatePermissionError::Sqlx(e))),
                    ),
                    None,
                ),
                _ => (GrantFlow::Finished(Ok(grant)), None),
            },
            GrantFlow::Finished(r) => (GrantFlow::Finished(r), None),
        }
    }

    /// Starts a grant, by `requesting_user_id` to `receiving_user_id`, of
    /// `action` on the resource of `resource_id` and `resource_kind`.
    pub fn start(
        requesting_user_id: &str,
        receiving_user_id: &str,
        action: &str,
        resource_id: &str,
        resource_kind: &str,
    ) -> (r: (GrantFlow, Option<Command>))
        ensures
            match request_of(requesting_user_id@, action@, resource_id@, resource_kind@) {
                Some(m) => (r.1 matches Some(Command::Exists(p)) && p@ == m) && (r.0 matches GrantFlow::Checking { grant } && match grant {
                    Ok(g) => request_of(receiving_user_id@, action@, resource_id@, resource_kind@)
                        == Some(g@),
                    Err(e) => request_of(receiving_user_id@, action@, resource_id@, resource_kind@) is None
                        && e.field@ == invalid_field(receiving_user_id@, action@, resource_kind@),
                }),
                None => r.1 is None && (r.0 matches GrantFlow::Finished(
                    Err(GrantPermissionError::AccessCheckFailed(HasPermissionError::InvalidInput(e))),
                ) && e.field@ == invalid_field(requesting_user_id@, action@, resource_kind@)),
            },
    {
        match permission_for(requesting_user_id, action, resource_id, resource_kind) {
            Ok(check) => (
                GrantFlow::Checking {
                    grant: permission_for(receiving_user_id, action, resource_id, resource_kind),
                },
                Some(Command::Exists(check)),
            ),
            Err(e) => (
                GrantFlow::Finished(
                    Err(GrantPermissionError::AccessCheckFailed(HasPermissionError::InvalidInput(e))),
                ),
                None,
            ),
        }
    }

    /// Takes the answer to the last command.
    pub fn resume(self, reply: Reply) -> (r: (GrantFlow, Option<Command>))
        ensures
            r == self.next(reply),
    {
        match self {
            GrantFlow::Checking { grant } => match reply {
                Reply::Failed(e) => (
                    GrantFlow::Finished(
                        Err(GrantPermissionError::AccessCheckFailed(HasPermissionError::Sqlx(e))),
                    ),
                    None,
                ),
                Reply::Found(true) => match grant {
                    Ok(p) => (GrantFlow::Opening { grant: p }, Some(Command::Begin)),
                    Err(e) => (
                        GrantFlow::Finished(
                            Err(
                                GrantPermissionError::CreateFailed(
                                    CreatePermissionError::InvalidInput(e),
                                ),
                            ),
                        ),
                        None,
                    ),
                },
                _ => (GrantFlow::Finished(Err(GrantPermissionError::Unauthorized)), None),
            },
            GrantFlow::Opening { grant } => match reply {
                Reply::Failed(e) => (
                    GrantFlow::Finished(
                        Err(GrantPermissionError::CreateFailed(CreatePermissionError::Sqlx(e))),
                    ),
                    None,
                ),
                _ => {
                    let cmd = Command::InsertPermission(grant.clone());
                    (GrantFlow::Inserting { grant }, Some(cmd))
                },
            },
            GrantFlow::Inserting { grant } => match reply {
                Reply::Failed(e) => if e.unique_violation() {
                    (GrantFlow::Finished(Ok(grant)), None)
                } else {
                    (
                        GrantFlow::Finished(
                            Err(GrantPermissionError::CreateFailed(CreatePermissionError::Sqlx(e))),
                        ),
                        None,
                    )
                },
                _ => (GrantFlow::Committing { grant }, Some(Command::Commit)),
            },
            GrantFlow::Committing { grant } => match reply {
                Reply::Failed(e) => (
                    GrantFlow::Finished(
                        Err(GrantPermissionError::CreateFailed(CreatePermissionError::Sqlx(e))),
                    ),
                    None,
                ),
                _ => (GrantFlow::Finished(Ok(grant)), None),
            },
            GrantFlow::Finished(r) => (GrantFlow::Finished(r), None),
        }
    }
}

/// Revoking a permission: the requester must hold the same permission on the
/// same resource; the receiver's permission is then deleted in a transaction.
/// Deleting a permission that is not held changes nothing and succeeds.
#[derive(Debug)]
pub enum RevokeFlow {
    /// Waiting for the check of the requester; holds the receiver's validated
    /// permission.
    Checking { revoke: Result<Permission, FieldValidationError> },
    /// Waiting for the transaction to open.
    Opening { revoke: Permission },
    /// Waiting for the delete.
    Deleting,
    /// Waiting for the commit.
    Committing,
    Finished(Result<(), RevokePermissionError>),
}

impl RevokeFlow {
    pub open spec fn next(self, reply: Reply) -> (RevokeFlow, Option<Command>) {
        match self {
            RevokeFlow::Checking { revoke } => match reply {
                Reply::Failed(e) => (
                    RevokeFlow::Finished(
                        Err(RevokePermissionError::AccessCheckFailed(HasPermissionError::Sqlx(e))),
                    ),
                    None,
                ),
                Reply::Found(true) => match revoke {
                    Ok(p) => (RevokeFlow::Opening { revoke: p }, Some(Command::Begin)),
                    Err(e) => (
                        RevokeFlow::Finished(
                            Err(
                                RevokePermissionError::DeleteFailed(
                                    HasPermissionError::InvalidInput(e),
                                ),
                            ),
                        ),
                        None,
                    ),
                },
                _ => (RevokeFlow::Finished(Err(RevokePermissionError::Unauthorized)), None),
            },
            RevokeFlow::Opening { revoke } => match reply {
                Reply::Failed(e) => (
                    RevokeFlow::Finished(
                        Err(RevokePermissionError::DeleteFailed(HasPermissionError::Sqlx(e))),
                    ),
                    None,
                ),
                _ => (RevokeFlow::Deleting, Some(Command::DeletePermission(revoke))),
            },
            RevokeFlow::Deleting => match reply {
                Reply::Failed(e) => (
                    RevokeFlow::Finished(
                        Err(RevokePermissionError::DeleteFailed(HasPermissionError::Sqlx(e))),
                    ),
                    None,
                ),
                _ => (RevokeFlow::Committing, Some(Command::Commit)),
            },
            RevokeFlow::Committing => match reply {
                Reply::Failed(e) => (
                    RevokeFlow::Finished(
                        Err(RevokePermissionError::DeleteFailed(HasPermissionError::Sqlx(e))),
                    ),
                    None,
                ),
                _ => (RevokeFlow::Finished(Ok(())), None),
            },
            RevokeFlow::Finished(r) => (RevokeFlow::Finished(r), None),
        }
    }

    /// Starts a revocation, by `requesting_user_id` from `receiving_user_id`, of
    /// `action` on the resource of `resource_id` and `resource_kind`.
    pub fn start(
        requesting_user_id: &str,
        receiving_user_id: &str,
        action: &str,
        resource_id: &str,
        resource_kind: &str,
    ) -> (r: (RevokeFlow, Option<Command>))
        ensures
            match request_of(requesting_user_id@, action@, resource_id@, resource_kind@) {
                Some(m) => (r.1 matches Some(Command::Exists(p)) && p@ == m) && (r.0 matches RevokeFlow::Checking { revoke } && match revoke {
                    Ok(g) => request_of(receiving_user_id@, action@, resource_id@, resource_kind@)
                        == Some(g@),
                    Err(e) => request_of(receiving_user_id@, action@, resource_id@, resource_kind@) is None
                        && e.field@ == invalid_field(receiving_user_id@, action@, resource_kind@),
                }),
                None => r.1 is None && (r.0 matches RevokeFlow::Finished(
                    Err(RevokePermissionError::AccessCheckFailed(HasPermissionError::InvalidInput(e))),
                ) && e.field@ == invalid_field(requesting_user_id@, action@, resource_kind@)),
            },
    {
        match permission_for(requesting_user_id, action, resource_id, resource_kind) {
            Ok(check) => (
                RevokeFlow::Checking {
                    revoke: permission_for(receiving_user_id, action, resource_id, resource_kind),
                },
                Some(Command::Exists(check)),
            ),
            Err(e) => (
                RevokeFlow::Finished(
                    Err(RevokePermissionError::AccessCheckFailed(HasPermissionError::InvalidInput(e))),
                ),
                None,
            ),
        }
    }

    /// Takes the answer to the last command.
    pub fn resume(self, reply: Reply) -> (r: (RevokeFlow, Option<Command>))
        ensures
            r == self.next(reply),
    {
        match self {
            RevokeFlow::Checking { revoke } => match reply {
                Reply::Failed(e) => (
                    RevokeFlow::Finished(
                        Err(RevokePermissionError::AccessCheckFailed(HasPermissionError::Sqlx(e))),
                    ),
                    None,
                ),
                Reply::Found(true) => match revoke {
                    Ok(p) => (RevokeFlow::Opening { revoke: p }, Some(Command::Begin)),
                    Err(e) => (
                        RevokeFlow::Finished(
                            Err(
                                RevokePermissionError::DeleteFailed(
                                    HasPermissionError::InvalidInput(e),
                                ),
                            ),
                        ),
                        None,
                    ),
                },
                _ => (RevokeFlow::Finished(Err(RevokePermissionError::Unauthorized)), None),
            },
            RevokeFlow::Opening { revoke } => match reply {
                Reply::Failed(e) => (
                    RevokeFlow::Finished(
                        Err(RevokePermissionError::DeleteFailed(HasPermissionError::Sqlx(e))),
                    ),
                    None,
                ),
                _ => (RevokeFlow::Deleting, Some(Command::DeletePermission(revoke))),
            },
            RevokeFlow::Deleting => match reply {
                Reply::Failed(e) => (
                    RevokeFlow::Finished(
                        Err(RevokePermissionError::DeleteFailed(HasPermissionError::Sqlx(e))),
                    ),
                    None,
                ),
                _ => (RevokeFlow::Committing, Some(Command::Commit)),
            },
            RevokeFlow::Committing => match reply {
                Reply::Failed(e) => (
                    RevokeFlow::Finished(
                        Err(RevokePermissionError::DeleteFailed(HasPermissionError::Sqlx(e))),
                    ),
                    None,
                ),
                _ => (RevokeFlow::Finished(Ok(())), None),
            },
            RevokeFlow::Finished(r) => (RevokeFlow::Finished(r), None),
        }
    }
}

/// Granting a permission that is held already ends in success with that
/// permission: the insert's uniqueness violation is taken as a no-op, and
/// nothing more is sent to the store.
pub proof fn lemma_grant_idempotent(grant: Permission, e: StoreError)
    requires
        e.is_unique_violation(),
    ensures
        (GrantFlow::Inserting { grant }).next(Reply::Failed(e)) == (
            GrantFlow::Finished(Ok(grant)),
            None::<Command>,
        ),
{
}

/// A requester that does not hold the permission cannot grant it, whatever the
/// receiver: the grant ends in `Unauthorized` before anything is written.
pub proof fn lemma_grant_needs_authority(
    grant: Result<Permission, FieldValidationError>,
    reply: Reply,
)
    requires
        !reply.is_yes(),
        !(reply is Failed),
    ensures
        (GrantFlow::Checking { grant }).next(reply) == (
            GrantFlow::Finished(Err(GrantPermissionError::Unauthorized)),
            None::<Command>,
        ),
{
}

/// The same holds of revocation.
pub proof fn lemma_revoke_needs_authority(
    revoke: Result<Permission, FieldValidationError>,
    reply: Reply,
)
    requires
        !reply.is_yes(),
        !(reply is Failed),
    ensures
        (RevokeFlow::Checking { revoke }).next(reply) == (
            RevokeFlow::Finished(Err(RevokePermissionError::Unauthorized)),
            None::<Command>,
        ),
{
}

/// An authorised revocation succeeds when the store reports each step done,
/// as it does when the permission was not held: it deletes, commits, and ends
/// in `Ok`.
pub proof fn lemma_revoke_absent_is_noop(revoke: Permission)
    ensures
        ({
            let s0 = RevokeFlow::Checking { revoke: Ok(revoke) };
            let (s1, c1) = s0.next(Reply::Found(true));
            let (s2, c2) = s1.next(Reply::Done);
            let (s3, c3) = s2.next(Reply::Done);
            let (s4, c4) = s3.next(Reply::Done);
            &&& c1 == Some(Command::Begin)
            &&& c2 == Some(Command::DeletePermission(revoke))
            &&& c3 == Some(Command::Commit)
            &&& c4 is None
            &&& s4 == RevokeFlow::Finished(Ok(()))
        }),
{
}

} // verus!
