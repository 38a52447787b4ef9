use vstd::prelude::*;

use crate::errors::FieldValidationError;
use crate::ids::{is_canonical_uuid, is_lower_hex, parsed_uuid, Uuid};
use crate::text::{
    contains_char, has_prefix, lemma_split_append_plain, lemma_split_append_sep,
    lemma_split_nonempty, same_text, split_on, split_text,
};

verus! {

/// Why a piece of the permission language was rejected.
#[derive(Debug, Clone, Copy, PartialEq, Eq, Structural)]
pub enum ParseError {
    /// A permission string that does not have exactly four `:`-separated segments.
    MalformedPermissionString,
    /// A subject that is not an identifier.
    InvalidIdentifier,
    /// An action without a `-` between verb and target.
    MissingDelimiter,
    /// An action whose verb is not `read`, `write` or `execute`.
    UnknownVerb,
    /// A target holding a character other than a letter, a digit or `-`.
    InvalidTarget,
    /// A resource kind other than `user` or `tenant`.
    InvalidKind,
}

impl ParseError {
    /// A short description of the failure.
    pub fn message(&self) -> (r: &'static str)
        ensures
            r@.len() > 0,
    {
        let r = match self {
            ParseError::MalformedPermissionString => {
                "invalid permission string format; correct format should be `user_id:action:resource_id:resource_kind`"
            },
            ParseError::InvalidIdentifier => "invalid uuid",
            ParseError::MissingDelimiter => "missing action type or target",
            ParseError::UnknownVerb => "invalid action type",
            ParseError::InvalidTarget => "target string can only contain alphanumerics and '-'",
            ParseError::InvalidKind => "invalid resource kind",
        };
        proof {
            reveal_strlit("invalid permission string format; correct format should be `user_id:action:resource_id:resource_kind`");
            reveal_strlit("invalid uuid");
            reveal_strlit("missing action type or target");
            reveal_strlit("invalid action type");
            reveal_strlit("target string can only contain alphanumerics and '-'");
            reveal_strlit("invalid resource kind");
        }
        r
    }
}

/// Whether `char::is_alphanumeric` holds of a character.
pub uninterp spec fn is_alnum(c: char) -> bool;

/// Relies on `char::is_alphanumeric`: a character of the Unicode Alphabetic or
/// Numeric property.
#[verifier::external_body]
fn char_is_alphanumeric(c: char) -> (r: bool)
    ensures
        r == is_alnum(c),
{
    c.is_alphanumeric()
}

/// A character allowed in a target name.
pub open spec fn is_target_char(c: char) -> bool {
    is_alnum(c) || c == '-'
}

/// A valid target name: letters, digits and hyphens only.
pub open spec fn is_target_text(s: Seq<char>) -> bool {
    forall|i: int| 0 <= i < s.len() ==> is_target_char(#[trigger] s[i])
}

/// A namespaced category of resource, such as `user` or `tenant`.
#[derive(Debug)]
pub struct Target(pub String);

impl Target {
    pub open spec fn view(&self) -> Seq<char> {
        self.0@
    }

    /// Checks that `target` is made of letters, digits and hyphens only.
    pub fn new(target: &str) -> (r: Result<Target, ParseError>)
        ensures
            match r {
                Ok(t) => is_target_text(target@) && t@ == target@,
                Err(e) => !is_target_text(target@) && e == ParseError::InvalidTarget,
            },
    {
        let n = target.unicode_len();
        let mut i: usize = 0;
        while i < n
            invariant
                n == target@.len(),
                i <= n,
                forall|j: int| 0 <= j < i ==> is_target_char(#[trigger] target@[j]),
            decreases n - i,
        {
            let c = target.get_char(i);
            if !(char_is_alphanumeric(c) || c == '-') {
                assert(!is_target_char(target@[i as int]));
                return Err(ParseError::InvalidTarget);
            }
            i += 1;
        }
        Ok(Target(target.to_string()))
    }

    /// The target's name.
    pub fn to_text(&self) -> (r: String)
        ensures
            r@ == self@,
    {
        self.0.clone()
    }
}

impl Clone for Target {
    fn clone(&self) -> (r: Self)
        ensures
            r == *self,
    {
        Target(self.0.clone())
    }
}

/// The verb of an action.
#[derive(Debug, Clone, Copy, PartialEq, Eq, Structural)]
pub enum Verb {
    Read,
    Write,
    Execute,
}

/// The word that names a verb.
pub open spec fn verb_word(v: Verb) -> Seq<char> {
    match v {
        Verb::Read => seq!['r', 'e', 'a', 'd'],
        Verb::Write => seq!['w', 'r', 'i', 't', 'e'],
        Verb::Execute => seq!['e', 'x', 'e', 'c', 'u', 't', 'e'],
    }
}

/// The verb whose word, followed by `-`, starts `s`.
pub open spec fn verb_prefix(s: Seq<char>) -> Option<Verb> {
    if (verb_word(Verb::Read) + seq!['-']).is_prefix_of(s) {
        Some(Verb::Read)
    } else if (verb_word(Verb::Write) + seq!['-']).is_prefix_of(s) {
        Some(Verb::Write)
    } else if (verb_word(Verb::Execute) + seq!['-']).is_prefix_of(s) {
        Some(Verb::Execute)
    } else {
        None
    }
}

/// What an action string means: it is split at its first `-` into a verb and a
/// target, so a known verb is one whose word and a `-` start the string.
pub open spec fn action_of(s: Seq<char>) -> Result<(Verb, Seq<char>), ParseError> {
    if !s.contains('-') {
        Err(ParseError::MissingDelimiter)
    } else {
        match verb_prefix(s) {
            None => Err(ParseError::UnknownVerb),
            Some(v) => {
                let target = s.skip(verb_word(v).len() + 1 as int);
                if is_target_text(target) {
                    Ok((v, target))
                } else {
                    Err(ParseError::InvalidTarget)
                }
            },
        }
    }
}

fn verb_text(v: Verb) -> (r: &'static str)
    ensures
        r@ == verb_word(v),
{
    proof {
        reveal_strlit("read");
        reveal_strlit("write");
        reveal_strlit("execute");
    }
    match v {
        Verb::Read => "read",
        Verb::Write => "write",
        Verb::Execute => "execute",
    }
}

fn verb_lead(v: Verb) -> (r: &'static str)
    ensures
        r@ == verb_word(v) + seq!['-'],
{
    proof {
        reveal_strlit("read-");
        reveal_strlit("write-");
        reveal_strlit("execute-");
    }
    let r = match v {
        Verb::Read => "read-",
        Verb::Write => "write-",
        Verb::Execute => "execute-",
    };
    assert(r@ =~= verb_word(v) + seq!['-']);
    r
}

/// An action on a category of resource.
#[derive(Debug)]
pub enum Actionable {
    Read(Target),
    Write(Target),
    Execute(Target),
}

impl Actionable {
    pub open spec fn verb(&self) -> Verb {
        match self {
            Actionable::Read(_) => Verb::Read,
            Actionable::Write(_) => Verb::Write,
            Actionable::Execute(_) => Verb::Execute,
        }
    }

    pub open spec fn target(&self) -> Seq<char> {
        match self {
            Actionable::Read(t) => t@,
            Actionable::Write(t) => t@,
            Actionable::Execute(t) => t@,
        }
    }

    /// The canonical form `<verb>-<target>`.
    pub open spec fn text(&self) -> Seq<char> {
        verb_word(self.verb()) + seq!['-'] + self.target()
    }

    /// Builds the action of verb `v` on `t`.
    pub fn of(v: Verb, t: Target) -> (r: Actionable)
        ensures
            r.verb() == v,
            r.target() == t@,
    {
        match v {
            Verb::Read => Actionable::Read(t),
            Verb::Write => Actionable::Write(t),
            Verb::Execute => Actionable::Execute(t),
        }
    }

    /// The verb of the action.
    pub fn verb_of(&self) -> (r: Verb)
        ensures
            r == self.verb(),
    {
        match self {
            Actionable::Read(_) => Verb::Read,
            Actionable::Write(_) => Verb::Write,
            Actionable::Execute(_) => Verb::Execute,
        }
    }

    /// The target of the action.
    pub fn target_of(&self) -> (r: &Target)
        ensures
            r@ == self.target(),
    {
        match self {
            Actionable::Read(t) => t,
            Actionable::Write(t) => t,
            Actionable::Execute(t) => t,
        }
    }

    /// Reads an action string such as `write-user`.
    pub fn parse(s: &str) -> (r: Result<Actionable, ParseError>)
        ensures
            match r {
                Ok(a) => action_of(s@) == Ok::<(Verb, Seq<char>), ParseError>((a.verb(), a.target())),
                Err(e) => action_of(s@) == Err::<(Verb, Seq<char>), ParseError>(e),
            },
    {
        if !contains_char(s, '-') {
            return Err(ParseError::MissingDelimiter);
        }
        let verb = if has_prefix(s, verb_lead(Verb::Read)) {
            Verb::Read
        } else if has_prefix(s, verb_lead(Verb::Write)) {
            Verb::Write
        } else if has_prefix(s, verb_lead(Verb::Execute)) {
            Verb::Execute
        } else {
            return Err(ParseError::UnknownVerb);
        };
        let from = verb_lead(verb).unicode_len();
        let rest = s.substring_char(from, s.unicode_len());
        assert(rest@ =~= s@.skip(verb_word(verb).len() + 1 as int));
        match Target::new(rest) {
            Ok(t) => Ok(Actionable::of(verb, t)),
            Err(e) => Err(e),
        }
    }

    /// The canonical form `<verb>-<target>`.
    pub fn to_text(&self) -> (r: String)
        ensures
            r@ == self.text(),
    {
        let mut r = String::from_str(verb_text(self.verb_of()));
        r.append("-");
        proof {
            reveal_strlit("-");
        }
        r.append(self.target_of().0.as_str());
        r
    }
}

impl Clone for Actionable {
    fn clone(&self) -> (r: Self)
        ensures
            r == *self,
    {
        match self {
            Actionable::Read(t) => Actionable::Read(t.clone()),
            Actionable::Write(t) => Actionable::Write(t.clone()),
            Actionable::Execute(t) => Actionable::Execute(t.clone()),
        }
    }
}

/// The registered kinds of resource.
#[derive(Debug, Clone, Copy, PartialEq, Eq, Structural)]
pub enum ResourceKind {
    User,
    Tenant,
}

/// The name of a resource kind.
pub open spec fn kind_word(k: ResourceKind) -> Seq<char> {
    match k {
        ResourceKind::User => seq!['u', 's', 'e', 'r'],
        ResourceKind::Tenant => seq!['t', 'e', 'n', 'a', 'n', 't'],
    }
}

/// The registered kind that a name denotes, if any.
pub open spec fn kind_of(s: Seq<char>) -> Option<ResourceKind> {
    if s == kind_word(ResourceKind::User) {
        Some(ResourceKind::User)
    } else if s == kind_word(ResourceKind::Tenant) {
        Some(ResourceKind::Tenant)
    } else {
        None
    }
}

fn kind_text(k: ResourceKind) -> (r: &'static str)
    ensures
        r@ == kind_word(k),
{
    proof {
        reveal_strlit("user");
        reveal_strlit("tenant");
    }
    match k {
        ResourceKind::User => "user",
        ResourceKind::Tenant => "tenant",
    }
}

/// An entity that a permission applies to, tagged by its kind.
#[derive(Debug)]
pub enum Resource {
    User(String),
    Tenant(String),
}

impl Resource {
    pub open spec fn id_view(&self) -> Seq<char> {
        match self {
            Resource::User(id) => id@,
            Resource::Tenant(id) => id@,
        }
    }

    pub open spec fn kind_view(&self) -> ResourceKind {
        match self {
            Resource::User(_) => ResourceKind::User,
            Resource::Tenant(_) => ResourceKind::Tenant,
        }
    }

    /// The identifier of the referenced entity.
    pub fn id(&self) -> (r: &str)
        ensures
            r@ == self.id_view(),
    {
        match self {
            Resource::User(id) => id.as_str(),
            Resource::Tenant(id) => id.as_str(),
        }
    }

    /// The kind of the referenced entity, as a target.
    pub fn kind(&self) -> (r: Target)
        ensures
            r@ == kind_word(self.kind_view()),
    {
        Target(kind_text(self.kind_of()).to_string())
    }

    /// The kind of the referenced entity.
    pub fn kind_of(&self) -> (r: ResourceKind)
        ensures
            r == self.kind_view(),
    {
        match self {
            Resource::User(_) => ResourceKind::User,
            Resource::Tenant(_) => ResourceKind::Tenant,
        }
    }

    /// Builds a resource from an identifier and the name of its kind.
    pub fn parse(id: &str, kind: &str) -> (r: Result<Resource, ParseError>)
        ensures
            match kind_of(kind@) {
                Some(k) => r matches Ok(res) && res.kind_view() == k && res.id_view() == id@,
                None => r == Err::<Resource, ParseError>(ParseError::InvalidKind),
            },
    {
        if same_text(kind, kind_text(ResourceKind::User)) {
            Ok(Resource::User(id.to_string()))
        } else if same_text(kind, kind_text(ResourceKind::Tenant)) {
            Ok(Resource::Tenant(id.to_string()))
        } else {
            Err(ParseError::InvalidKind)
        }
    }

    /// The form `<id>:<kind>`.
    pub fn to_text(&self) -> (r: String)
        ensures
            r@ == self.id_view() + seq![':'] + kind_word(self.kind_view()),
    {
        let mut r = String::from_str(self.id());
        r.append(":");
        proof {
            reveal_strlit(":");
        }
        r.append(kind_text(self.kind_of()));
        r
    }
}

impl Clone for Resource {
    fn clone(&self) -> (r: Self)
        ensures
            r == *self,
    {
        match self {
            Resource::User(id) => Resource::User(id.clone()),
            Resource::Tenant(id) => Resource::Tenant(id.clone()),
        }
    }
}

/// What a permission says: `subject` may perform `verb` on targets named
/// `target`, on the resource of kind `kind` and identifier `resource_id`.
pub ghost struct PermissionModel {
    pub subject: Seq<char>,
    pub verb: Verb,
    pub target: Seq<char>,
    pub resource_id: Seq<char>,
    pub kind: ResourceKind,
}

/// What a permission string means. It is split at every `:`; it must have four
/// segments, read as subject, action, resource identifier and resource kind, in
/// that order, the first failure deciding the error.
pub open spec fn permission_of(s: Seq<char>) -> Result<PermissionModel, ParseError> {
    let segs = split_on(s, ':');
    if segs.len() != 4 {
        Err(ParseError::MalformedPermissionString)
    } else {
        match parsed_uuid(segs[0]) {
            None => Err(ParseError::InvalidIdentifier),
            Some(subject) => match action_of(segs[1]) {
                Err(e) => Err(e),
                Ok((verb, target)) => match kind_of(segs[3]) {
                    None => Err(ParseError::InvalidKind),
                    Some(kind) => Ok(
                        PermissionModel { subject, verb, target, resource_id: segs[2], kind },
                    ),
                },
            },
        }
    }
}

/// A fact: `user_id` may perform `action` on `resource`.
#[derive(Debug)]
pub struct Permission {
    pub user_id: Uuid,
    pub action: Actionable,
    pub resource: Resource,
}

impl Permission {
    pub open spec fn view(&self) -> PermissionModel {
        PermissionModel {
            subject: self.user_id@,
            verb: self.action.verb(),
            target: self.action.target(),
            resource_id: self.resource.id_view(),
            kind: self.resource.kind_view(),
        }
    }

    /// A permission that its string form can carry: a well-formed subject, a
    /// valid target, and no `:` inside a segment.
    pub open spec fn wf(&self) -> bool {
        &&& self.user_id.wf()
        &&& is_target_text(self.action.target())
        &&& !self.action.target().contains(':')
        &&& !self.resource.id_view().contains(':')
    }

    /// The canonical form `<subject>:<action>:<resource id>:<resource kind>`.
    pub open spec fn text(&self) -> Seq<char> {
        self.user_id@ + seq![':'] + self.action.text() + seq![':'] + self.resource.id_view()
            + seq![':'] + kind_word(self.resource.kind_view())
    }

    /// Builds the permission of `user_id` to perform `action` on `resource`,
    /// naming the field that fails validation.
    pub fn new(user_id: &str, action: &str, resource: &Resource) -> (r: Result<
        Permission,
        FieldValidationError,
    >)
        ensures
            match r {
                Ok(p) => {
                    &&& parsed_uuid(user_id@) == Some(p.user_id@)
                    &&& p.user_id.wf()
                    &&& action_of(action@) == Ok::<(Verb, Seq<char>), ParseError>(
                        (p.action.verb(), p.action.target()),
                    )
                    &&& p.resource == *resource
                },
                Err(e) => {
                    ||| parsed_uuid(user_id@) is None && e.field@ == user_id_field()
                    ||| parsed_uuid(user_id@) is Some && action_of(action@) is Err && e.field@
                        == action_field()
                },
            },
    {
        let subject = match Uuid::parse(user_id) {
            Some(u) => u,
            None => {
                proof {
                    reveal_strlit("user_id");
                }
                return Err(
                    FieldValidationError {
                        field: "user_id".to_string(),
                        message: "invalid uuid provided for field `user_id`".to_string(),
                    },
                );
            },
        };
        let act = match Actionable::parse(action) {
            Ok(a) => a,
            Err(e) => {
                proof {
                    reveal_strlit("action");
                }
                return Err(
                    FieldValidationError {
                        field: "action".to_string(),
                        message: e.message().to_string(),
                    },
                );
            },
        };
        Ok(Permission { user_id: subject, action: act, resource: resource.clone() })
    }

    /// Reads a permission string.
    pub fn parse(s: &str) -> (r: Result<Permission, ParseError>)
        ensures
            match r {
                Ok(p) => permission_of(s@) == Ok::<PermissionModel, ParseError>(p@) && p.user_id.wf(),
                Err(e) => permission_of(s@) == Err::<PermissionModel, ParseError>(e),
            },
    {
        let segs = split_text(s, ':');
        let ghost views = segs@.map_values(|p: &str| p@);
        if segs.len() != 4 {
            return Err(ParseError::MalformedPermissionString);
        }
        assert(views[0] == segs@[0]@ && views[1] == segs@[1]@);
        assert(views[2] == segs@[2]@ && views[3] == segs@[3]@);
        let subject = match Uuid::parse(segs[0]) {
            Some(u) => u,
            None => return Err(ParseError::InvalidIdentifier),
        };
        let action = match Actionable::parse(segs[1]) {
            Ok(a) => a,
            Err(e) => return Err(e),
        };
        let resource = match Resource::parse(segs[2], segs[3]) {
            Ok(res) => res,
            Err(e) => return Err(e),
        };
        Ok(Permission { user_id: subject, action, resource })
    }

    /// The canonical string form.
    pub fn to_text(&self) -> (r: String)
        ensures
            r@ == self.text(),
    {
        proof {
            reveal_strlit(":");
        }
        let mut r = self.user_id.to_text();
        r.append(":");
        let a = self.action.to_text();
        r.append(a.as_str());
        r.append(":");
        let res = self.resource.to_text();
        r.append(res.as_str());
        assert(r@ =~= self.text());
        r
    }
}

impl Clone for Permission {
    fn clone(&self) -> (r: Self)
        ensures
            r == *self,
    {
        Permission {
            user_id: self.user_id.clone(),
            action: self.action.clone(),
            resource: self.resource.clone(),
        }
    }
}

/// The field name reported for an invalid subject.
pub open spec fn user_id_field() -> Seq<char> {
    seq!['u', 's', 'e', 'r', '_', 'i', 'd']
}

/// The field name reported for an invalid action.
pub open spec fn action_field() -> Seq<char> {
    seq!['a', 'c', 't', 'i', 'o', 'n']
}

/// A valid permission, written in its canonical string form and read back, is
/// the same permission.
pub proof fn lemma_permission_round_trip(p: Permission)
    requires
        p.wf(),
    ensures
        permission_of(p.text()) == Ok::<PermissionModel, ParseError>(p@),
{
    let e = Seq::<char>::empty();
    let a = p.user_id@;
    let b = p.action.text();
    let c = p.resource.id_view();
    let d = kind_word(p.resource.kind_view());
    let v = p.action.verb();
    let t = p.action.target();
    assert(!a.contains(':')) by {
        if a.contains(':') {
            let k = choose|k: int| 0 <= k < a.len() && a[k] == ':';
            assert(is_canonical_uuid(a));
            assert(a[k] == '-' || is_lower_hex(a[k]));
        }
    }
    assert(!b.contains(':')) by {
        if b.contains(':') {
            let k = choose|k: int| 0 <= k < b.len() && b[k] == ':';
            if k > verb_word(v).len() {
                assert(t[k - verb_word(v).len() - 1] == b[k]);
            }
        }
    }
    assert(!d.contains(':')) by {
        if d.contains(':') {
            let k = choose|k: int| 0 <= k < d.len() && d[k] == ':';
        }
    }
    lemma_split_append_plain(e, a, ':');
    assert(e + a =~= a);
    assert(split_on(e, ':') =~= seq![e]);
    assert(split_on(a, ':') =~= seq![a]);
    let x1 = a.push(':');
    lemma_split_append_sep(a, ':');
    lemma_split_append_plain(x1, b, ':');
    assert(split_on(x1 + b, ':') =~= seq![a, b]);
    let x2 = (x1 + b).push(':');
    lemma_split_append_sep(x1 + b, ':');
    lemma_split_append_plain(x2, c, ':');
    assert(split_on(x2 + c, ':') =~= seq![a, b, c]);
    let x3 = (x2 + c).push(':');
    lemma_split_append_sep(x2 + c, ':');
    lemma_split_append_plain(x3, d, ':');
    assert(split_on(x3 + d, ':') =~= seq![a, b, c, d]);
    assert(p.text() =~= x3 + d);
    // the action reads back
    assert(b[verb_word(v).len() as int] == '-');
    assert(b.contains('-'));
    assert((verb_word(v) + seq!['-']).is_prefix_of(b)) by {
        assert(b.subrange(0, verb_word(v).len() + 1 as int) =~= verb_word(v) + seq!['-']);
    }
    match v {
        Verb::Read => {},
        Verb::Write => {
            assert(b[0] == 'w');
            assert(!(verb_word(Verb::Read) + seq!['-']).is_prefix_of(b)) by {
                assert((verb_word(Verb::Read) + seq!['-'])[0] == 'r');
            }
        },
        Verb::Execute => {
            assert(b[0] == 'e');
            assert(!(verb_word(Verb::Read) + seq!['-']).is_prefix_of(b)) by {
                assert((verb_word(Verb::Read) + seq!['-'])[0] == 'r');
            }
            assert(!(verb_word(Verb::Write) + seq!['-']).is_prefix_of(b)) by {
                assert((verb_word(Verb::Write) + seq!['-'])[0] == 'w');
            }
        },
    }
    assert(verb_prefix(b) == Some(v));
    assert(b.skip(verb_word(v).len() + 1 as int) =~= t);
    assert(action_of(b) == Ok::<(Verb, Seq<char>), ParseError>((v, t)));
    assert(kind_of(d) == Some(p.resource.kind_view()));
}

/// A permission string without exactly four segments, an action without a
/// hyphen, and a resource kind other than `user` or `tenant` are always rejected,
/// each with its own error.
pub proof fn lemma_malformed_rejected(s: Seq<char>)
    ensures
        split_on(s, ':').len() != 4 ==> permission_of(s) == Err::<PermissionModel, ParseError>(
            ParseError::MalformedPermissionString,
        ),
        !s.contains('-') ==> action_of(s) == Err::<(Verb, Seq<char>), ParseError>(
            ParseError::MissingDelimiter,
        ),
        s != kind_word(ResourceKind::User) && s != kind_word(ResourceKind::Tenant) ==> kind_of(
            s,
        ) is None,
{
}

} // verus!
