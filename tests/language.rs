use identity_core::{
    Actionable, Email, ErrorCode, ParseError, Permission, Resource, Target, Uuid, User, Verb,
};

const SUBJECT: &str = "936da01f-9abd-4d9d-80c7-02af85c822a8";

#[test]
fn permission_round_trips_through_its_text() {
    let text = format!("{}:write-user:{}:user", SUBJECT, "some-resource");
    let p = Permission::parse(&text).expect("valid permission");
    assert_eq!(p.to_text(), text);
    let again = Permission::parse(&p.to_text()).expect("formatted permission reads back");
    assert_eq!(again.to_text(), text);
    assert_eq!(again.user_id.as_str(), SUBJECT);
    assert_eq!(again.action.verb_of(), Verb::Write);
    assert_eq!(again.action.target_of().to_text(), "user");
    assert_eq!(again.resource.id(), "some-resource");
    assert_eq!(again.resource.kind().to_text(), "user");
}

#[test]
fn permission_round_trips_for_built_values() {
    let subject = Uuid::new();
    let p = Permission {
        user_id: subject.clone(),
        action: Actionable::Execute(Target::new("tenant-admin").unwrap()),
        resource: Resource::Tenant("t-1".to_string()),
    };
    let text = p.to_text();
    assert_eq!(text, format!("{}:execute-tenant-admin:t-1:tenant", subject.as_str()));
    let q = Permission::parse(&text).unwrap();
    assert_eq!(q.to_text(), text);
}

#[test]
fn permission_with_wrong_segment_count_is_malformed() {
    for s in ["", "a", "a:b", "a:b:c", "a:b:c:d:e", "::::"] {
        assert_eq!(Permission::parse(s).unwrap_err(), ParseError::MalformedPermissionString, "{}", s);
    }
    let five = format!("{}:read-user:x:user:extra", SUBJECT);
    assert_eq!(Permission::parse(&five).unwrap_err(), ParseError::MalformedPermissionString);
}

#[test]
fn permission_reports_first_bad_segment() {
    assert_eq!(Permission::parse("nope:read-user:x:user").unwrap_err(), ParseError::InvalidIdentifier);
    let s = format!("{}:readuser:x:user", SUBJECT);
    assert_eq!(Permission::parse(&s).unwrap_err(), ParseError::MissingDelimiter);
    let s = format!("{}:delete-user:x:user", SUBJECT);
    assert_eq!(Permission::parse(&s).unwrap_err(), ParseError::UnknownVerb);
    let s = format!("{}:read-us_er:x:user", SUBJECT);
    assert_eq!(Permission::parse(&s).unwrap_err(), ParseError::InvalidTarget);
    let s = format!("{}:read-user:x:group", SUBJECT);
    assert_eq!(Permission::parse(&s).unwrap_err(), ParseError::InvalidKind);
}

#[test]
fn action_splits_at_first_hyphen() {
    let a = Actionable::parse("read-user-profile").unwrap();
    assert_eq!(a.verb_of(), Verb::Read);
    assert_eq!(a.target_of().to_text(), "user-profile");
    assert_eq!(a.to_text(), "read-user-profile");
    let e = Actionable::parse("execute-").unwrap();
    assert_eq!(e.verb_of(), Verb::Execute);
    assert_eq!(e.target_of().to_text(), "");
}

#[test]
fn action_without_hyphen_fails() {
    assert_eq!(Actionable::parse("read").unwrap_err(), ParseError::MissingDelimiter);
    assert_eq!(Actionable::parse("").unwrap_err(), ParseError::MissingDelimiter);
}

#[test]
fn action_with_unknown_verb_fails() {
    assert_eq!(Actionable::parse("Read-user").unwrap_err(), ParseError::UnknownVerb);
    assert_eq!(Actionable::parse("-user").unwrap_err(), ParseError::UnknownVerb);
}

#[test]
fn target_accepts_alphanumerics_and_hyphens_only() {
    assert_eq!(Target::new("user-2").unwrap().to_text(), "user-2");
    assert_eq!(Target::new("ünïcode").unwrap().to_text(), "ünïcode");
    assert_eq!(Target::new("a b").unwrap_err(), ParseError::InvalidTarget);
    assert_eq!(Target::new("a:b").unwrap_err(), ParseError::InvalidTarget);
}

#[test]
fn resource_kind_must_be_registered() {
    let r = Resource::parse("abc", "tenant").unwrap();
    assert_eq!(r.id(), "abc");
    assert_eq!(r.kind().to_text(), "tenant");
    assert_eq!(r.to_text(), "abc:tenant");
    assert_eq!(Resource::parse("abc", "User").unwrap_err(), ParseError::InvalidKind);
    assert_eq!(Resource::parse("abc", "").unwrap_err(), ParseError::InvalidKind);
}

#[test]
fn permission_new_names_the_failing_field() {
    let res = Resource::User("x".to_string());
    assert_eq!(Permission::new("bad", "read-user", &res).unwrap_err().field, "user_id");
    assert_eq!(Permission::new(SUBJECT, "read", &res).unwrap_err().field, "action");
    let p = Permission::new(SUBJECT, "read-user", &res).unwrap();
    assert_eq!(p.to_text(), format!("{}:read-user:x:user", SUBJECT));
}

#[test]
fn uuid_is_held_in_canonical_form() {
    let upper = "936DA01F-9ABD-4D9D-80C7-02AF85C822A8";
    assert_eq!(Uuid::parse(upper).unwrap().as_str(), SUBJECT);
    assert_eq!(Uuid::parse("936da01f9abd4d9d80c702af85c822a8").unwrap().as_str(), SUBJECT);
    assert!(Uuid::parse("not-a-uuid").is_none());
    let fresh = Uuid::new();
    assert_eq!(fresh.as_str().len(), 36);
    assert_eq!(Uuid::parse(fresh.as_str()).unwrap().as_str(), fresh.as_str());
}

#[test]
fn email_is_validated_and_lowercased() {
    assert_eq!(Email::new("A.B@Example.COM").unwrap().as_str(), "a.b@example.com");
    assert_eq!(Email::new("plain").unwrap_err().field, "email");
    assert!(Email::new("a@example").is_err());
    assert!(Email::new("a@sub.example.com").is_err());
}

#[test]
fn error_code_recognises_unique_violation() {
    assert!(matches!(ErrorCode::from("2067"), ErrorCode::UniqueConstraintViolation));
    match ErrorCode::from("1555") {
        ErrorCode::Unknown(c) => assert_eq!(c, "1555"),
        other => panic!("unexpected {:?}", other),
    }
}

#[test]
fn user_kind_is_user() {
    assert_eq!(User::kind().to_text(), "user");
    let u = User::new("auth-1");
    assert_eq!(u.auth_id, "auth-1");
    assert!(Uuid::parse(u.id.as_str()).is_some());
}

#[test]
fn default_uuid_is_fresh_and_canonical() {
    let a = Uuid::default();
    let b = Uuid::default();
    assert_ne!(a.as_str(), b.as_str());
    assert_eq!(Uuid::parse(a.as_str()).unwrap().as_str(), a.as_str());
}
