use identity_core::{
    AppEvent, AuthRequest, Command, CreateUserError, CreateUserFlow, CreateUserRequest,
    DeleteUserFlow, FindUserError, GrantFlow, GrantPermissionError, HasPermissionError,
    HasPermissionFlow, Profile, Reply, RevokeFlow, RevokePermissionError, StoreError, User,
    UserEvent, Uuid, find_user_result,
};

/// A store in memory that keeps permissions unique, as the database's
/// constraint does, and rolls back a transaction that is not committed.
#[derive(Default)]
struct Memory {
    users: Vec<User>,
    profiles: Vec<Profile>,
    permissions: Vec<String>,
    published: Vec<AppEvent>,
    snapshot: Option<(Vec<User>, Vec<Profile>, Vec<String>)>,
    log: Vec<String>,
    fail_on: Option<String>,
}

impl Memory {
    fn exec(&mut self, c: Command) -> Reply {
        let name = match &c {
            Command::Exists(_) => "exists",
            Command::Begin => "begin",
            Command::InsertUser(_) => "insert_user",
            Command::InsertProfile(_) => "insert_profile",
            Command::InsertPermission(_) => "insert_permission",
            Command::DeletePermission(_) => "delete_permission",
            Command::DeleteUser(_) => "delete_user",
            Command::Commit => "commit",
            Command::Publish(_) => "publish",
        };
        self.log.push(name.to_string());
        if self.fail_on.as_deref() == Some(name) {
            return Reply::Failed(StoreError::Other("injected".to_string()));
        }
        match c {
            Command::Exists(p) => Reply::Found(self.permissions.contains(&p.to_text())),
            Command::Begin => {
                self.snapshot =
                    Some((self.users.clone(), self.profiles.clone(), self.permissions.clone()));
                Reply::Done
            }
            Command::InsertUser(u) => {
                self.users.push(u);
                Reply::Done
            }
            Command::InsertProfile(p) => {
                self.profiles.push(p.to_profile());
                Reply::Done
            }
            Command::InsertPermission(p) => {
                let t = p.to_text();
                if self.permissions.contains(&t) {
                    Reply::Failed(StoreError::Database(Some("2067".to_string())))
                } else {
                    self.permissions.push(t);
                    Reply::Done
                }
            }
            Command::DeletePermission(p) => {
                let t = p.to_text();
                self.permissions.retain(|x| *x != t);
                Reply::Done
            }
            Command::DeleteUser(id) => {
                self.users.retain(|u| u.id.as_str() != id);
                Reply::Done
            }
            Command::Commit => {
                self.snapshot = None;
                Reply::Done
            }
            Command::Publish(e) => {
                self.published.push(e);
                Reply::Done
            }
        }
    }

    fn settle(&mut self) {
        if let Some((u, p, g)) = self.snapshot.take() {
            self.users = u;
            self.profiles = p;
            self.permissions = g;
        }
    }

    fn find_user(&self, id: &str) -> Result<User, FindUserError> {
        let found = self.users.iter().find(|u| u.id.as_str() == id).cloned();
        find_user_result(id, Ok(found))
    }

    fn create_user(&mut self, email: &str) -> Result<User, CreateUserError> {
        let req = CreateUserRequest { email: email.to_string(), tenant_id: Uuid::new() };
        let (mut flow, mut cmd) = CreateUserFlow::start(req);
        while let Some(c) = cmd {
            let reply = self.exec(c);
            (flow, cmd) = flow.resume(reply);
        }
        self.settle();
        match flow {
            CreateUserFlow::Finished(r) => r,
            _ => panic!("workflow stopped early"),
        }
    }

    fn has(&mut self, user: &str, action: &str, id: &str, kind: &str) -> Result<bool, HasPermissionError> {
        let (mut flow, mut cmd) = HasPermissionFlow::start(user, action, id, kind);
        while let Some(c) = cmd {
            let reply = self.exec(c);
            (flow, cmd) = flow.resume(reply);
        }
        match flow {
            HasPermissionFlow::Finished(r) => r,
            _ => panic!("workflow stopped early"),
        }
    }

    fn grant(&mut self, from: &str, to: &str, action: &str, id: &str, kind: &str) -> Result<String, GrantPermissionError> {
        let (mut flow, mut cmd) = GrantFlow::start(from, to, action, id, kind);
        while let Some(c) = cmd {
            let reply = self.exec(c);
            (flow, cmd) = flow.resume(reply);
        }
        self.settle();
        match flow {
            GrantFlow::Finished(r) => r.map(|p| p.to_text()),
            _ => panic!("workflow stopped early"),
        }
    }

    fn revoke(&mut self, from: &str, to: &str, action: &str, id: &str, kind: &str) -> Result<(), RevokePermissionError> {
        let (mut flow, mut cmd) = RevokeFlow::start(from, to, action, id, kind);
        while let Some(c) = cmd {
            let reply = self.exec(c);
            (flow, cmd) = flow.resume(reply);
        }
        self.settle();
        match flow {
            RevokeFlow::Finished(r) => r,
            _ => panic!("workflow stopped early"),
        }
    }

    fn delete_user(&mut self, acting: &str, id: &str) -> Result<(), FindUserError> {
        let (mut flow, mut cmd) = DeleteUserFlow::start(acting, id);
        while let Some(c) = cmd {
            let reply = self.exec(c);
            (flow, cmd) = flow.resume(reply);
        }
        self.settle();
        match flow {
            DeleteUserFlow::Finished(r) => r,
            _ => panic!("workflow stopped early"),
        }
    }
}

#[test]
fn create_then_authorize() {
    let mut m = Memory::default();
    let u = m.create_user("a@example.com").unwrap();
    let id = u.id.as_str().to_string();
    assert!(m.has(&id, "write-user", &id, "user").unwrap());
    assert!(m.has(&id, "read-user", &id, "user").unwrap());
    assert!(!m.has(&id, "write-user", "other-id", "user").unwrap());
    assert_eq!(m.profiles.len(), 1);
    assert_eq!(m.profiles[0].email.as_str(), "a@example.com");
    assert_eq!(m.permissions.len(), 2);
}

#[test]
fn grant_then_revoke() {
    let mut m = Memory::default();
    let u1 = m.create_user("one@example.com").unwrap();
    let u2 = m.create_user("two@example.com").unwrap();
    let (a, b) = (u1.id.as_str().to_string(), u2.id.as_str().to_string());
    assert!(m.grant(&a, &b, "read-user", &a, "user").is_ok());
    assert!(m.has(&b, "read-user", &a, "user").unwrap());
    assert!(m.revoke(&a, &b, "read-user", &a, "user").is_ok());
    assert!(!m.has(&b, "read-user", &a, "user").unwrap());
}

#[test]
fn delete_without_permission() {
    let mut m = Memory::default();
    let u = m.create_user("owner@example.com").unwrap();
    let stranger = Uuid::new();
    let r = m.delete_user(stranger.as_str(), u.id.as_str());
    assert!(matches!(r, Err(FindUserError::PermissionDenied)));
    assert_eq!(m.find_user(u.id.as_str()).unwrap(), u);
}

#[test]
fn delete_by_owner_publishes_after_commit() {
    let mut m = Memory::default();
    let u = m.create_user("owner@example.com").unwrap();
    let id = u.id.as_str().to_string();
    m.log.clear();
    m.delete_user(&id, &id).unwrap();
    assert_eq!(m.log, vec!["exists", "begin", "delete_user", "commit", "publish"]);
    assert!(matches!(m.find_user(&id), Err(FindUserError::NotFound(x)) if x == id));
    assert!(matches!(m.published.last(), Some(AppEvent::User(UserEvent::Deleted(x))) if *x == id));
}

#[test]
fn granting_twice_keeps_one_row() {
    let mut m = Memory::default();
    let u1 = m.create_user("one@example.com").unwrap();
    let u2 = m.create_user("two@example.com").unwrap();
    let (a, b) = (u1.id.as_str().to_string(), u2.id.as_str().to_string());
    let first = m.grant(&a, &b, "write-user", &a, "user").unwrap();
    let second = m.grant(&a, &b, "write-user", &a, "user").unwrap();
    assert_eq!(first, second);
    assert_eq!(m.permissions.iter().filter(|p| **p == first).count(), 1);
}

#[test]
fn revoking_absent_permission_is_noop() {
    let mut m = Memory::default();
    let u1 = m.create_user("one@example.com").unwrap();
    let u2 = m.create_user("two@example.com").unwrap();
    let (a, b) = (u1.id.as_str().to_string(), u2.id.as_str().to_string());
    let before = m.permissions.clone();
    assert!(m.revoke(&a, &b, "read-user", &a, "user").is_ok());
    assert_eq!(m.permissions, before);
}

#[test]
fn grant_needs_requesters_permission() {
    let mut m = Memory::default();
    let u1 = m.create_user("one@example.com").unwrap();
    let u2 = m.create_user("two@example.com").unwrap();
    let (a, b) = (u1.id.as_str().to_string(), u2.id.as_str().to_string());
    let r = m.grant(&b, &b, "write-user", &a, "user");
    assert!(matches!(r, Err(GrantPermissionError::Unauthorized)));
    assert!(!m.has(&b, "write-user", &a, "user").unwrap());
    let r = m.grant(&b, "not-a-uuid", "write-user", &a, "user");
    assert!(matches!(r, Err(GrantPermissionError::Unauthorized)));
}

#[test]
fn grant_reports_invalid_input() {
    let mut m = Memory::default();
    let u1 = m.create_user("one@example.com").unwrap();
    let a = u1.id.as_str().to_string();
    match m.grant("bad", &a, "read-user", &a, "user") {
        Err(GrantPermissionError::AccessCheckFailed(HasPermissionError::InvalidInput(e))) => {
            assert_eq!(e.field, "user_id")
        }
        other => panic!("unexpected {:?}", other),
    }
    match m.grant(&a, "bad", "read-user", &a, "user") {
        Err(GrantPermissionError::CreateFailed(_)) => {}
        other => panic!("unexpected {:?}", other),
    }
    match m.has(&a, "read-user", &a, "group") {
        Err(HasPermissionError::InvalidInput(e)) => assert_eq!(e.field, "resource"),
        other => panic!("unexpected {:?}", other),
    }
}

#[test]
fn create_user_with_bad_email_writes_nothing() {
    let mut m = Memory::default();
    let r = m.create_user("not an address");
    match r {
        Err(CreateUserError::InvalidInput(e)) => assert_eq!(e.field, "email"),
        other => panic!("unexpected {:?}", other),
    }
    assert!(m.log.is_empty());
    assert!(m.users.is_empty() && m.profiles.is_empty() && m.permissions.is_empty());
    assert!(m.published.is_empty());
}

#[test]
fn create_user_failure_rolls_back() {
    let mut m = Memory::default();
    m.fail_on = Some("insert_permission".to_string());
    let r = m.create_user("a@example.com");
    assert!(matches!(r, Err(CreateUserError::Sqlx(_))));
    assert!(!m.log.contains(&"commit".to_string()));
    assert!(m.users.is_empty() && m.profiles.is_empty() && m.permissions.is_empty());
    assert!(m.published.is_empty());
}

#[test]
fn create_user_publishes_after_commit() {
    let mut m = Memory::default();
    let u = m.create_user("a@example.com").unwrap();
    assert_eq!(
        m.log,
        vec!["begin", "insert_user", "insert_profile", "insert_permission", "insert_permission", "commit", "publish"]
    );
    match &m.published[..] {
        [AppEvent::User(UserEvent::Created(x))] => {
            assert_eq!(*x, u);
            assert_eq!(m.find_user(x.id.as_str()).unwrap(), u);
        }
        other => panic!("unexpected {:?}", other),
    }
}

#[test]
fn failed_publication_keeps_the_user() {
    let mut m = Memory::default();
    m.fail_on = Some("publish".to_string());
    let u = m.create_user("a@example.com").unwrap();
    assert_eq!(m.find_user(u.id.as_str()).unwrap(), u);
}

#[test]
fn sign_up_checks_the_tenant() {
    let req = AuthRequest {
        email: "a@example.com".to_string(),
        password: "pw".to_string(),
        tenant_id: "nope".to_string(),
    };
    match CreateUserFlow::sign_up(&req) {
        (CreateUserFlow::Finished(Err(CreateUserError::InvalidInput(e))), None) => {
            assert_eq!(e.field, "tenant_id")
        }
        other => panic!("unexpected {:?}", other),
    }
    let ok = AuthRequest { tenant_id: Uuid::new().as_str().to_string(), ..req };
    assert!(matches!(CreateUserFlow::sign_up(&ok), (CreateUserFlow::Opening { .. }, Some(Command::Begin))));
}

#[test]
fn find_user_reports_missing_and_store_errors() {
    assert!(matches!(find_user_result("x", Ok(None)), Err(FindUserError::NotFound(i)) if i == "x"));
    let r = find_user_result("x", Err(StoreError::Other("down".to_string())));
    assert!(matches!(r, Err(FindUserError::Sqlx(StoreError::Other(_)))));
}
