use vstd::prelude::*;
use crate::error::{ConvertError, DbEnumKind};

verus! {

/// Whether two strings hold the same characters.
pub fn same_text(a: &str, b: &str) -> (r: bool)
    ensures
        r == (a@ == b@),
{
    a.to_owned() == b.to_owned()
}

/// An enum persisted as a string from a closed vocabulary.
pub trait DbEnum: Sized {
    /// The persisted string of this variant.
    spec fn wire(&self) -> Seq<char>;

    /// The kind named by errors on reading this enum.
    spec fn db_kind() -> DbEnumKind;

    /// Distinct variants have distinct persisted strings.
    proof fn lemma_wire_injective(a: Self, b: Self)
        ensures
            a.wire() == b.wire() ==> a == b,
    ;

    fn as_enum_str(&self) -> (r: &'static str)
        ensures
            r@ == self.wire(),
    ;

    /// Reads a persisted string back: the string of each variant gives that
    /// variant, and any other string is rejected with an error naming the
    /// enum kind and the string.
    fn from_enum_str(s: &str) -> (r: Result<Self, ConvertError>)
        ensures
            forall|v: Self| #[trigger] v.wire() == s@ ==> r == Ok::<Self, ConvertError>(v),
            r is Ok ==> r->Ok_0.wire() == s@,
            r is Err ==> r->Err_0.is_invalid_enum(Self::db_kind(), s@),
    ;
}

fn invalid(kind: DbEnumKind, s: &str) -> (e: ConvertError)
    ensures
        e.is_invalid_enum(kind, s@),
{
    ConvertError::InvalidEnumValue { kind, raw: s.to_owned() }
}

/// A event.
#[derive(Clone, Copy, Debug, PartialEq, Eq, Structural)]
pub enum EventKind {
    Completion,
    ChatCompletion,
    Select,
    View,
    Dismiss,
}

impl DbEnum for EventKind {
    open spec fn wire(&self) -> Seq<char> {
        match self {
            EventKind::Completion => "completion"@,
            EventKind::ChatCompletion => "chat_completion"@,
            EventKind::Select => "select"@,
            EventKind::View => "view"@,
            EventKind::Dismiss => "dismiss"@,
        }
    }

    open spec fn db_kind() -> DbEnumKind {
        DbEnumKind::EventKind
    }

    proof fn lemma_wire_injective(a: Self, b: Self) {
        reveal_strlit("completion");
        reveal_strlit("chat_completion");
        reveal_strlit("select");
        reveal_strlit("view");
        reveal_strlit("dismiss");
        assert("completion"@.len() == 10);
        assert("chat_completion"@.len() == 15);
        assert("select"@.len() == 6);
        assert("view"@.len() == 4);
        assert("dismiss"@.len() == 7);
        if a.wire() == b.wire() {
            assert(a.wire().len() == b.wire().len());
        }
    }

    fn as_enum_str(&self) -> (r: &'static str) {
        match self {
            EventKind::Completion => "completion",
            EventKind::ChatCompletion => "chat_completion",
            EventKind::Select => "select",
            EventKind::View => "view",
            EventKind::Dismiss => "dismiss",
        }
    }

    fn from_enum_str(s: &str) -> (r: Result<Self, ConvertError>) {
        let r = if same_text(s, "completion") {
            Ok(EventKind::Completion)
        } else if same_text(s, "chat_completion") {
            Ok(EventKind::ChatCompletion)
        } else if same_text(s, "select") {
            Ok(EventKind::Select)
        } else if same_text(s, "view") {
            Ok(EventKind::View)
        } else if same_text(s, "dismiss") {
            Ok(EventKind::Dismiss)
        } else {
            Err(invalid(DbEnumKind::EventKind, s))
        };
        proof {
            assert forall|v: Self| #[trigger] v.wire() == s@ implies r == Ok::<Self, ConvertError>(v) by {
                if r is Ok {
                    Self::lemma_wire_injective(v, r->Ok_0);
                }
            }
        }
        r
    }
}

/// A integration.
#[derive(Clone, Copy, Debug, PartialEq, Eq, Structural)]
pub enum IntegrationKind {
    Github,
    Gitlab,
    GithubSelfHosted,
    GitlabSelfHosted,
}

impl DbEnum for IntegrationKind {
    open spec fn wire(&self) -> Seq<char> {
        match self {
            IntegrationKind::Github => "github"@,
            IntegrationKind::Gitlab => "gitlab"@,
            IntegrationKind::GithubSelfHosted => "github_self_hosted"@,
            IntegrationKind::GitlabSelfHosted => "gitlab_self_hosted"@,
        }
    }

    open spec fn db_kind() -> DbEnumKind {
        DbEnumKind::IntegrationKind
    }

    proof fn lemma_wire_injective(a: Self, b: Self) {
        reveal_strlit("github");
        reveal_strlit("gitlab");
        reveal_strlit("github_self_hosted");
        reveal_strlit("gitlab_self_hosted");
        assert("github"@.len() == 6);
        assert("gitlab"@.len() == 6);
        assert("github_self_hosted"@.len() == 18);
        assert("gitlab_self_hosted"@.len() == 18);
        if a.wire() == b.wire() {
            assert(a.wire().len() == b.wire().len());
            assert(a.wire()[3] == b.wire()[3]);
        }
    }

    fn as_enum_str(&self) -> (r: &'static str) {
        match self {
            IntegrationKind::Github => "github",
            IntegrationKind::Gitlab => "gitlab",
            IntegrationKind::GithubSelfHosted => "github_self_hosted",
            IntegrationKind::GitlabSelfHosted => "gitlab_self_hosted",
        }
    }

    fn from_enum_str(s: &str) -> (r: Result<Self, ConvertError>) {
        let r = if same_text(s, "github") {
            Ok(IntegrationKind::Github)
        } else if same_text(s, "gitlab") {
            Ok(IntegrationKind::Gitlab)
        } else if same_text(s, "github_self_hosted") {
            Ok(IntegrationKind::GithubSelfHosted)
        } else if same_text(s, "gitlab_self_hosted") {
            Ok(IntegrationKind::GitlabSelfHosted)
        } else {
            Err(invalid(DbEnumKind::IntegrationKind, s))
        };
        proof {
            assert forall|v: Self| #[trigger] v.wire() == s@ implies r == Ok::<Self, ConvertError>(v) by {
                if r is Ok {
                    Self::lemma_wire_injective(v, r->Ok_0);
                }
            }
        }
        r
    }
}

/// A mail-transport encryption.
#[derive(Clone, Copy, Debug, PartialEq, Eq, Structural)]
pub enum Encryption {
    StartTls,
    SslTls,
    NoEncryption,
}

impl DbEnum for Encryption {
    open spec fn wire(&self) -> Seq<char> {
        match self {
            Encryption::StartTls => "starttls"@,
            Encryption::SslTls => "ssltls"@,
            Encryption::NoEncryption => "none"@,
        }
    }

    open spec fn db_kind() -> DbEnumKind {
        DbEnumKind::Encryption
    }

    proof fn lemma_wire_injective(a: Self, b: Self) {
        reveal_strlit("starttls");
        reveal_strlit("ssltls");
        reveal_strlit("none");
        assert("starttls"@.len() == 8);
        assert("ssltls"@.len() == 6);
        assert("none"@.len() == 4);
        if a.wire() == b.wire() {
            assert(a.wire().len() == b.wire().len());
        }
    }

    fn as_enum_str(&self) -> (r: &'static str) {
        match self {
            Encryption::StartTls => "starttls",
            Encryption::SslTls => "ssltls",
            Encryption::NoEncryption => "none",
        }
    }

    fn from_enum_str(s: &str) -> (r: Result<Self, ConvertError>) {
        let r = if same_text(s, "starttls") {
            Ok(Encryption::StartTls)
        } else if same_text(s, "ssltls") {
            Ok(Encryption::SslTls)
        } else if same_text(s, "none") {
            Ok(Encryption::NoEncryption)
        } else {
            Err(invalid(DbEnumKind::Encryption, s))
        };
        proof {
            assert forall|v: Self| #[trigger] v.wire() == s@ implies r == Ok::<Self, ConvertError>(v) by {
                if r is Ok {
                    Self::lemma_wire_injective(v, r->Ok_0);
                }
            }
        }
        r
    }
}

/// A OAuth provider.
#[derive(Clone, Copy, Debug, PartialEq, Eq, Structural)]
pub enum OAuthProvider {
    Github,
    Google,
    Gitlab,
}

impl DbEnum for OAuthProvider {
    open spec fn wire(&self) -> Seq<char> {
        match self {
            OAuthProvider::Github => "github"@,
            OAuthProvider::Google => "google"@,
            OAuthProvider::Gitlab => "gitlab"@,
        }
    }

    open spec fn db_kind() -> DbEnumKind {
        DbEnumKind::OAuthProvider
    }

    proof fn lemma_wire_injective(a: Self, b: Self) {
        reveal_strlit("github");
        reveal_strlit("google");
        reveal_strlit("gitlab");
        assert("github"@.len() == 6);
        assert("google"@.len() == 6);
        assert("gitlab"@.len() == 6);
        if a.wire() == b.wire() {
            assert(a.wire().len() == b.wire().len());
            assert(a.wire()[1] == b.wire()[1]);
            assert(a.wire()[3] == b.wire()[3]);
        }
    }

    fn as_enum_str(&self) -> (r: &'static str) {
        match self {
            OAuthProvider::Github => "github",
            OAuthProvider::Google => "google",
            OAuthProvider::Gitlab => "gitlab",
        }
    }

    fn from_enum_str(s: &str) -> (r: Result<Self, ConvertError>) {
        let r = if same_text(s, "github") {
            Ok(OAuthProvider::Github)
        } else if same_text(s, "google") {
            Ok(OAuthProvider::Google)
        } else if same_text(s, "gitlab") {
            Ok(OAuthProvider::Gitlab)
        } else {
            Err(invalid(DbEnumKind::OAuthProvider, s))
        };
        proof {
            assert forall|v: Self| #[trigger] v.wire() == s@ implies r == Ok::<Self, ConvertError>(v) by {
                if r is Ok {
                    Self::lemma_wire_injective(v, r->Ok_0);
                }
            }
        }
        r
    }
}

/// A directory encryption.
#[derive(Clone, Copy, Debug, PartialEq, Eq, Structural)]
pub enum LdapEncryptionKind {
    NoEncryption,
    StartTLS,
    LDAPS,
}

impl DbEnum for LdapEncryptionKind {
    open spec fn wire(&self) -> Seq<char> {
        match self {
            LdapEncryptionKind::NoEncryption => "none"@,
            LdapEncryptionKind::StartTLS => "starttls"@,
            LdapEncryptionKind::LDAPS => "ldaps"@,
        }
    }

    open spec fn db_kind() -> DbEnumKind {
        DbEnumKind::LdapEncryptionKind
    }

    proof fn lemma_wire_injective(a: Self, b: Self) {
        reveal_strlit("none");
        reveal_strlit("starttls");
        reveal_strlit("ldaps");
        assert("none"@.len() == 4);
        assert("starttls"@.len() == 8);
        assert("ldaps"@.len() == 5);
        if a.wire() == b.wire() {
            assert(a.wire().len() == b.wire().len());
        }
    }

    fn as_enum_str(&self) -> (r: &'static str) {
        match self {
            LdapEncryptionKind::NoEncryption => "none",
            LdapEncryptionKind::StartTLS => "starttls",
            LdapEncryptionKind::LDAPS => "ldaps",
        }
    }

    fn from_enum_str(s: &str) -> (r: Result<Self, ConvertError>) {
        let r = if same_text(s, "none") {
            Ok(LdapEncryptionKind::NoEncryption)
        } else if same_text(s, "starttls") {
            Ok(LdapEncryptionKind::StartTLS)
        } else if same_text(s, "ldaps") {
            Ok(LdapEncryptionKind::LDAPS)
        } else {
            Err(invalid(DbEnumKind::LdapEncryptionKind, s))
        };
        proof {
            assert forall|v: Self| #[trigger] v.wire() == s@ implies r == Ok::<Self, ConvertError>(v) by {
                if r is Ok {
                    Self::lemma_wire_injective(v, r->Ok_0);
                }
            }
        }
        r
    }
}

/// A mail authentication method.
#[derive(Clone, Copy, Debug, PartialEq, Eq, Structural)]
pub enum AuthMethod {
    NoAuth,
    Plain,
    Login,
}

impl DbEnum for AuthMethod {
    open spec fn wire(&self) -> Seq<char> {
        match self {
            AuthMethod::NoAuth => "none"@,
            AuthMethod::Plain => "plain"@,
            AuthMethod::Login => "login"@,
        }
    }

    open spec fn db_kind() -> DbEnumKind {
        DbEnumKind::AuthMethod
    }

    proof fn lemma_wire_injective(a: Self, b: Self) {
        reveal_strlit("none");
        reveal_strlit("plain");
        reveal_strlit("login");
        assert("none"@.len() == 4);
        assert("plain"@.len() == 5);
        assert("login"@.len() == 5);
        if a.wire() == b.wire() {
            assert(a.wire().len() == b.wire().len());
            assert(a.wire()[0] == b.wire()[0]);
        }
    }

    fn as_enum_str(&self) -> (r: &'static str) {
        match self {
            AuthMethod::NoAuth => "none",
            AuthMethod::Plain => "plain",
            AuthMethod::Login => "login",
        }
    }

    fn from_enum_str(s: &str) -> (r: Result<Self, ConvertError>) {
        let r = if same_text(s, "none") {
            Ok(AuthMethod::NoAuth)
        } else if same_text(s, "plain") {
            Ok(AuthMethod::Plain)
        } else if same_text(s, "login") {
            Ok(AuthMethod::Login)
        } else {
            Err(invalid(DbEnumKind::AuthMethod, s))
        };
        proof {
            assert forall|v: Self| #[trigger] v.wire() == s@ implies r == Ok::<Self, ConvertError>(v) by {
                if r is Ok {
                    Self::lemma_wire_injective(v, r->Ok_0);
                }
            }
        }
        r
    }
}

/// A message role.
#[derive(Clone, Copy, Debug, PartialEq, Eq, Structural)]
pub enum Role {
    Assistant,
    User,
}

impl DbEnum for Role {
    open spec fn wire(&self) -> Seq<char> {
        match self {
            Role::Assistant => "assistant"@,
            Role::User => "user"@,
        }
    }

    open spec fn db_kind() -> DbEnumKind {
        DbEnumKind::Role
    }

    proof fn lemma_wire_injective(a: Self, b: Self) {
        reveal_strlit("assistant");
        reveal_strlit("user");
        assert("assistant"@.len() == 9);
        assert("user"@.len() == 4);
        if a.wire() == b.wire() {
            assert(a.wire().len() == b.wire().len());
        }
    }

    fn as_enum_str(&self) -> (r: &'static str) {
        match self {
            Role::Assistant => "assistant",
            Role::User => "user",
        }
    }

    fn from_enum_str(s: &str) -> (r: Result<Self, ConvertError>) {
        let r = if same_text(s, "assistant") {
            Ok(Role::Assistant)
        } else if same_text(s, "user") {
            Ok(Role::User)
        } else {
            Err(invalid(DbEnumKind::Role, s))
        };
        proof {
            assert forall|v: Self| #[trigger] v.wire() == s@ implies r == Ok::<Self, ConvertError>(v) by {
                if r is Ok {
                    Self::lemma_wire_injective(v, r->Ok_0);
                }
            }
        }
        r
    }
}

/// A notification recipient.
#[derive(Clone, Copy, Debug, PartialEq, Eq, Structural)]
pub enum NotificationRecipient {
    Admin,
    AllUser,
}

impl DbEnum for NotificationRecipient {
    open spec fn wire(&self) -> Seq<char> {
        match self {
            NotificationRecipient::Admin => "admin"@,
            NotificationRecipient::AllUser => "all_user"@,
        }
    }

    open spec fn db_kind() -> DbEnumKind {
        DbEnumKind::NotificationRecipient
    }

    proof fn lemma_wire_injective(a: Self, b: Self) {
        reveal_strlit("admin");
        reveal_strlit("all_user");
        assert("admin"@.len() == 5);
        assert("all_user"@.len() == 8);
        if a.wire() == b.wire() {
            assert(a.wire().len() == b.wire().len());
        }
    }

    fn as_enum_str(&self) -> (r: &'static str) {
        match self {
            NotificationRecipient::Admin => "admin",
            NotificationRecipient::AllUser => "all_user",
        }
    }

    fn from_enum_str(s: &str) -> (r: Result<Self, ConvertError>) {
        let r = if same_text(s, "admin") {
            Ok(NotificationRecipient::Admin)
        } else if same_text(s, "all_user") {
            Ok(NotificationRecipient::AllUser)
        } else {
            Err(invalid(DbEnumKind::NotificationRecipient, s))
        };
        proof {
            assert forall|v: Self| #[trigger] v.wire() == s@ implies r == Ok::<Self, ConvertError>(v) by {
                if r is Ok {
                    Self::lemma_wire_injective(v, r->Ok_0);
                }
            }
        }
        r
    }
}

} // verus!
