use vstd::prelude::*;
use vstd::utf8::{decode_utf8, valid_utf8};
use crate::codec::{Id, IdCodec, AsID};
use crate::enums::{DbEnum, EventKind, IntegrationKind, OAuthProvider, LdapEncryptionKind, Encryption, AuthMethod};
use crate::error::ConvertError;

verus! {

/// A point in time, as milliseconds since the Unix epoch.
#[derive(Clone, Copy, Debug, PartialEq, Eq, Structural)]
pub struct Timestamp {
    pub millis: i64,
}

/// Relies on std's `String::from_utf8`: it succeeds exactly on valid UTF-8,
/// and the string then holds the characters that the bytes encode.
#[verifier::external_body]
fn utf8_text(bytes: Vec<u8>) -> (r: Option<String>)
    ensures
        r is Some <==> valid_utf8(bytes@),
        r matches Some(s) ==> s@ == decode_utf8(bytes@),
{
    String::from_utf8(bytes).ok()
}

/// A 64-bit number as `i32`; fails where it does not fit.
pub fn narrow_i32(x: i64) -> (r: Result<i32, ConvertError>)
    ensures
        r is Ok <==> i32::MIN <= x <= i32::MAX,
        r is Ok ==> r->Ok_0 == x,
        r is Err ==> r->Err_0 == ConvertError::IntegerOverflow,
{
    if i32::MIN as i64 <= x && x <= i32::MAX as i64 {
        Ok(x as i32)
    } else {
        Err(ConvertError::IntegerOverflow)
    }
}

/// Whether an optional 64-bit number fits `i32`.
pub open spec fn fits_i32(x: Option<i64>) -> bool {
    x matches Some(v) ==> i32::MIN <= v <= i32::MAX
}

/// Whether an optional 64-bit number and an optional `i32` are the same
/// number, or both absent.
pub open spec fn same_number(a: Option<i64>, b: Option<i32>) -> bool {
    match (a, b) {
        (Some(x), Some(y)) => x == y as i64,
        (None, None) => true,
        _ => false,
    }
}

/// An optional 64-bit number as `i32`; fails where it does not fit.
pub fn narrow_opt_i32(x: Option<i64>) -> (r: Result<Option<i32>, ConvertError>)
    ensures
        r is Ok <==> fits_i32(x),
        r is Ok ==> same_number(x, r->Ok_0),
        r is Err ==> r->Err_0 == ConvertError::IntegerOverflow,
{
    match x {
        Some(v) => {
            let n = narrow_i32(v)?;
            Ok(Some(n))
        },
        None => Ok(None),
    }
}

/// A stored invitation.
#[derive(Clone, Debug, PartialEq, Eq)]
pub struct InvitationDAO {
    pub id: i64,
    pub email: String,
    pub code: String,
    pub created_at: Timestamp,
}

/// An invitation as the API shows it.
#[derive(Clone, Debug, PartialEq, Eq)]
pub struct Invitation {
    pub id: Id,
    pub email: String,
    pub code: String,
    pub created_at: Timestamp,
}

impl Invitation {
    /// The invitation of a stored row, its id given as a token; fails where
    /// the row id does not fit an `i32`.
    pub fn from_dao(val: InvitationDAO, codec: &IdCodec) -> (r: Result<Invitation, ConvertError>)
        ensures
            r is Ok <==> i32::MIN <= val.id <= i32::MAX,
            r matches Ok(v) ==> v.id.token@ == codec.token_of(val.id) && v.email == val.email
                && v.code == val.code && v.created_at == val.created_at,
            r is Err ==> r->Err_0 == ConvertError::IntegerOverflow,
    {
        let id = narrow_i32(val.id)?;
        Ok(Invitation { id: id.as_id(codec), email: val.email, code: val.code, created_at: val.created_at })
    }
}

/// A stored run of a background job.
#[derive(Clone, Debug, PartialEq, Eq)]
pub struct JobRunDAO {
    pub id: i64,
    pub name: String,
    pub exit_code: Option<i64>,
    pub stdout: String,
    pub created_at: Timestamp,
    pub updated_at: Timestamp,
    pub started_at: Option<Timestamp>,
    pub finished_at: Option<Timestamp>,
}

/// A run of a background job as the API shows it.
#[derive(Clone, Debug, PartialEq, Eq)]
pub struct JobRun {
    pub id: Id,
    pub job: String,
    pub created_at: Timestamp,
    pub updated_at: Timestamp,
    pub started_at: Option<Timestamp>,
    pub finished_at: Option<Timestamp>,
    pub exit_code: Option<i32>,
    pub stdout: String,
}

impl JobRun {
    /// The job run of a stored row; fails where the exit code does not fit
    /// an `i32`.
    pub fn from_dao(run: JobRunDAO, codec: &IdCodec) -> (r: Result<JobRun, ConvertError>)
        ensures
            r is Ok <==> fits_i32(run.exit_code),
            r matches Ok(v) ==> v.id.token@ == codec.token_of(run.id) && v.job == run.name
                && v.created_at == run.created_at && v.updated_at == run.updated_at
                && v.started_at == run.started_at && v.finished_at == run.finished_at
                && same_number(run.exit_code, v.exit_code) && v.stdout == run.stdout,
            r is Err ==> r->Err_0 == ConvertError::IntegerOverflow,
    {
        let exit_code = narrow_opt_i32(run.exit_code)?;
        Ok(JobRun {
            id: run.id.as_id(codec),
            job: run.name,
            created_at: run.created_at,
            updated_at: run.updated_at,
            started_at: run.started_at,
            finished_at: run.finished_at,
            exit_code,
            stdout: run.stdout,
        })
    }
}

/// Stored OAuth client credentials.
#[derive(Clone, Debug, PartialEq, Eq)]
pub struct OAuthCredentialDAO {
    pub provider: String,
    pub client_id: String,
    pub client_secret: String,
    pub created_at: Timestamp,
    pub updated_at: Timestamp,
}

/// OAuth client credentials as the API shows them.
#[derive(Clone, Debug, PartialEq, Eq)]
pub struct OAuthCredential {
    pub provider: OAuthProvider,
    pub client_id: String,
    pub client_secret: String,
    pub created_at: Timestamp,
    pub updated_at: Timestamp,
}

impl OAuthCredential {
    /// The credentials of a stored row; fails where the provider is not one
    /// of the vocabulary.
    pub fn from_dao(val: OAuthCredentialDAO) -> (r: Result<OAuthCredential, ConvertError>)
        ensures
            r is Ok <==> exists|p: OAuthProvider| p.wire() == val.provider@,
            r matches Ok(v) ==> v.provider.wire() == val.provider@ && v.client_id == val.client_id
                && v.client_secret == val.client_secret && v.created_at == val.created_at
                && v.updated_at == val.updated_at,
            r is Err ==> r->Err_0.is_invalid_enum(OAuthProvider::db_kind(), val.provider@),
    {
        let provider = OAuthProvider::from_enum_str(val.provider.as_str())?;
        Ok(OAuthCredential {
            provider,
            client_id: val.client_id,
            created_at: val.created_at,
            updated_at: val.updated_at,
            client_secret: val.client_secret,
        })
    }
}

/// Stored directory (LDAP) credentials.
#[derive(Clone, Debug, PartialEq, Eq)]
pub struct LdapCredentialDAO {
    pub host: String,
    pub port: i64,
    pub bind_dn: String,
    pub base_dn: String,
    pub user_filter: String,
    pub encryption: String,
    pub skip_tls_verify: bool,
    pub email_attribute: String,
    pub name_attribute: Option<String>,
    pub created_at: Timestamp,
    pub updated_at: Timestamp,
}

/// Directory (LDAP) credentials as the API shows them.
#[derive(Clone, Debug, PartialEq, Eq)]
pub struct LdapCredential {
    pub host: String,
    pub port: i32,
    pub bind_dn: String,
    pub base_dn: String,
    pub user_filter: String,
    pub encryption: LdapEncryptionKind,
    pub skip_tls_verify: bool,
    pub email_attribute: String,
    pub name_attribute: Option<String>,
    pub created_at: Timestamp,
    pub updated_at: Timestamp,
}

impl LdapCredential {
    /// The credentials of a stored row; fails where the port does not fit an
    /// `i32`, or else where the encryption is not one of the vocabulary.
    pub fn from_dao(val: LdapCredentialDAO) -> (r: Result<LdapCredential, ConvertError>)
        ensures
            r is Ok <==> i32::MIN <= val.port <= i32::MAX && exists|e: LdapEncryptionKind|
                e.wire() == val.encryption@,
            r matches Ok(v) ==> v.host == val.host && v.port == val.port && v.bind_dn == val.bind_dn
                && v.base_dn == val.base_dn && v.user_filter == val.user_filter
                && v.encryption.wire() == val.encryption@ && v.skip_tls_verify == val.skip_tls_verify
                && v.email_attribute == val.email_attribute && v.name_attribute == val.name_attribute
                && v.created_at == val.created_at && v.updated_at == val.updated_at,
            !(i32::MIN <= val.port <= i32::MAX) ==> r == Err::<LdapCredential, ConvertError>(
                ConvertError::IntegerOverflow,
            ),
            i32::MIN <= val.port <= i32::MAX && r is Err ==> r->Err_0.is_invalid_enum(
                LdapEncryptionKind::db_kind(),
                val.encryption@,
            ),
    {
        let port = narrow_i32(val.port)?;
        let encryption = LdapEncryptionKind::from_enum_str(val.encryption.as_str())?;
        Ok(LdapCredential {
            host: val.host,
            port,
            bind_dn: val.bind_dn,
            base_dn: val.base_dn,
            user_filter: val.user_filter,
            encryption,
            skip_tls_verify: val.skip_tls_verify,
            email_attribute: val.email_attribute,
            name_attribute: val.name_attribute,
            created_at: val.created_at,
            updated_at: val.updated_at,
        })
    }
}

/// Stored mail settings.
#[derive(Clone, Debug, PartialEq, Eq)]
pub struct EmailSettingDAO {
    pub smtp_username: String,
    pub smtp_server: String,
    pub smtp_port: i64,
    pub from_address: String,
    pub encryption: String,
    pub auth_method: String,
}

/// Mail settings as the API shows them.
#[derive(Clone, Debug, PartialEq, Eq)]
pub struct EmailSetting {
    pub smtp_username: String,
    pub smtp_server: String,
    pub smtp_port: i32,
    pub from_address: String,
    pub encryption: Encryption,
    pub auth_method: AuthMethod,
}

impl EmailSetting {
    /// The settings of a stored row; fails where the encryption, or else the
    /// auth method, is not one of its vocabulary, or else where the port does
    /// not fit an `i32`.
    pub fn from_dao(value: EmailSettingDAO) -> (r: Result<EmailSetting, ConvertError>)
        ensures
            r is Ok <==> (exists|e: Encryption| e.wire() == value.encryption@) && (exists|a: AuthMethod|
                a.wire() == value.auth_method@) && i32::MIN <= value.smtp_port <= i32::MAX,
            r matches Ok(v) ==> v.smtp_username == value.smtp_username && v.smtp_server
                == value.smtp_server && v.smtp_port == value.smtp_port && v.from_address
                == value.from_address && v.encryption.wire() == value.encryption@
                && v.auth_method.wire() == value.auth_method@,
            (forall|e: Encryption| e.wire() != value.encryption@) ==> r is Err
                && r->Err_0.is_invalid_enum(Encryption::db_kind(), value.encryption@),
            (exists|e: Encryption| e.wire() == value.encryption@) && (forall|a: AuthMethod|
                a.wire() != value.auth_method@) ==> r is Err && r->Err_0.is_invalid_enum(
                AuthMethod::db_kind(),
                value.auth_method@,
            ),
            (exists|e: Encryption| e.wire() == value.encryption@) && (exists|a: AuthMethod|
                a.wire() == value.auth_method@) && !(i32::MIN <= value.smtp_port <= i32::MAX) ==> r
                == Err::<EmailSetting, ConvertError>(ConvertError::IntegerOverflow),
    {
        let encryption = Encryption::from_enum_str(value.encryption.as_str())?;
        let auth_method = AuthMethod::from_enum_str(value.auth_method.as_str())?;
        let smtp_port = narrow_i32(value.smtp_port)?;
        Ok(EmailSetting {
            smtp_username: value.smtp_username,
            smtp_server: value.smtp_server,
            smtp_port,
            from_address: value.from_address,
            encryption,
            auth_method,
        })
    }
}

/// The state of an integration with a code host.
#[derive(Clone, Copy, Debug, PartialEq, Eq, Structural)]
pub enum IntegrationStatus {
    Ready,
    Pending,
    Failed,
}

/// The status of an integration: failed where an error is recorded, whether
/// synced or not; else ready where synced; else pending.
pub open spec fn integration_status(synced: bool, has_error: bool) -> IntegrationStatus {
    if has_error {
        IntegrationStatus::Failed
    } else if synced {
        IntegrationStatus::Ready
    } else {
        IntegrationStatus::Pending
    }
}

/// The status of an integration with sync flag `synced` and recorded error
/// `error`.
pub fn status_of(synced: bool, error: &Option<String>) -> (r: IntegrationStatus)
    ensures
        r == integration_status(synced, error is Some),
{
    if synced && error.is_none() {
        IntegrationStatus::Ready
    } else if error.is_some() {
        IntegrationStatus::Failed
    } else {
        IntegrationStatus::Pending
    }
}

/// A stored integration with a code host.
#[derive(Clone, Debug, PartialEq, Eq)]
pub struct IntegrationDAO {
    pub id: i64,
    pub kind: String,
    pub error: Option<String>,
    pub display_name: String,
    pub access_token: String,
    pub api_base: Option<String>,
    pub created_at: Timestamp,
    pub updated_at: Timestamp,
    pub synced: bool,
}

/// An integration with a code host as the API shows it.
#[derive(Clone, Debug, PartialEq, Eq)]
pub struct Integration {
    pub id: Id,
    pub kind: IntegrationKind,
    pub display_name: String,
    pub access_token: String,
    pub api_base: Option<String>,
    pub created_at: Timestamp,
    pub updated_at: Timestamp,
    pub status: IntegrationStatus,
    pub message: Option<String>,
}

impl Integration {
    /// The integration of a stored row, with its status derived from the
    /// sync flag and the recorded error, which becomes its message; fails
    /// where the kind is not one of the vocabulary.
    pub fn from_dao(value: IntegrationDAO, codec: &IdCodec) -> (r: Result<Integration, ConvertError>)
        ensures
            r is Ok <==> exists|k: IntegrationKind| k.wire() == value.kind@,
            r matches Ok(v) ==> v.id.token@ == codec.token_of(value.id) && v.kind.wire()
                == value.kind@ && v.display_name == value.display_name && v.access_token
                == value.access_token && v.api_base == value.api_base && v.created_at
                == value.created_at && v.updated_at == value.updated_at && v.status
                == integration_status(value.synced, value.error is Some) && v.message == value.error,
            r is Err ==> r->Err_0.is_invalid_enum(IntegrationKind::db_kind(), value.kind@),
    {
        let status = status_of(value.synced, &value.error);
        let kind = IntegrationKind::from_enum_str(value.kind.as_str())?;
        Ok(Integration {
            id: value.id.as_id(codec),
            kind,
            display_name: value.display_name,
            access_token: value.access_token,
            api_base: value.api_base,
            created_at: value.created_at,
            updated_at: value.updated_at,
            status,
            message: value.error,
        })
    }
}

/// The kind of a repository's code host.
#[derive(Clone, Copy, Debug, PartialEq, Eq, Structural)]
pub enum RepositoryKind {
    Git,
    Github,
    Gitlab,
    GithubSelfHosted,
    GitlabSelfHosted,
}

impl RepositoryKind {
    /// The repository kind of an integration kind.
    pub fn from_integration_kind(value: IntegrationKind) -> (r: RepositoryKind)
        ensures
            r == match value {
                IntegrationKind::Github => RepositoryKind::Github,
                IntegrationKind::Gitlab => RepositoryKind::Gitlab,
                IntegrationKind::GithubSelfHosted => RepositoryKind::GithubSelfHosted,
                IntegrationKind::GitlabSelfHosted => RepositoryKind::GitlabSelfHosted,
            },
    {
        match value {
            IntegrationKind::Github => RepositoryKind::Github,
            IntegrationKind::Gitlab => RepositoryKind::Gitlab,
            IntegrationKind::GithubSelfHosted => RepositoryKind::GithubSelfHosted,
            IntegrationKind::GitlabSelfHosted => RepositoryKind::GitlabSelfHosted,
        }
    }
}

/// The state of a repository provider.
#[derive(Clone, Copy, Debug, PartialEq, Eq, Structural)]
pub enum RepositoryProviderStatus {
    Ready,
    Pending,
    Failed,
}

/// The provider status that an integration status shows as.
pub open spec fn provider_status_of(value: IntegrationStatus) -> RepositoryProviderStatus {
    match value {
        IntegrationStatus::Ready => RepositoryProviderStatus::Ready,
        IntegrationStatus::Pending => RepositoryProviderStatus::Pending,
        IntegrationStatus::Failed => RepositoryProviderStatus::Failed,
    }
}

impl RepositoryProviderStatus {
    /// The provider status of an integration status.
    pub fn from_integration_status(value: IntegrationStatus) -> (r: RepositoryProviderStatus)
        ensures
            r == provider_status_of(value),
    {
        match value {
            IntegrationStatus::Ready => RepositoryProviderStatus::Ready,
            IntegrationStatus::Pending => RepositoryProviderStatus::Pending,
            IntegrationStatus::Failed => RepositoryProviderStatus::Failed,
        }
    }
}

/// A GitHub provider as the API shows it.
#[derive(Clone, Debug, PartialEq, Eq)]
pub struct GithubRepositoryProvider {
    pub id: Id,
    pub display_name: String,
    pub status: RepositoryProviderStatus,
    pub access_token: Option<String>,
    pub api_base: Option<String>,
}

impl GithubRepositoryProvider {
    /// The provider of an integration.
    pub fn from_integration(value: Integration) -> (r: GithubRepositoryProvider)
        ensures
            r.id == value.id,
            r.display_name == value.display_name,
            r.status == provider_status_of(value.status),
            r.access_token == Some(value.access_token),
            r.api_base == value.api_base,
    {
        GithubRepositoryProvider {
            id: value.id,
            display_name: value.display_name,
            status: RepositoryProviderStatus::from_integration_status(value.status),
            access_token: Some(value.access_token),
            api_base: value.api_base,
        }
    }
}

/// A GitLab provider as the API shows it.
#[derive(Clone, Debug, PartialEq, Eq)]
pub struct GitlabRepositoryProvider {
    pub id: Id,
    pub display_name: String,
    pub status: RepositoryProviderStatus,
    pub access_token: Option<String>,
    pub api_base: Option<String>,
}

impl GitlabRepositoryProvider {
    /// The provider of an integration.
    pub fn from_integration(value: Integration) -> (r: GitlabRepositoryProvider)
        ensures
            r.id == value.id,
            r.display_name == value.display_name,
            r.status == provider_status_of(value.status),
            r.access_token == Some(value.access_token),
            r.api_base == value.api_base,
    {
        GitlabRepositoryProvider {
            id: value.id,
            display_name: value.display_name,
            status: RepositoryProviderStatus::from_integration_status(value.status),
            access_token: Some(value.access_token),
            api_base: value.api_base,
        }
    }
}

/// A stored user event.
#[derive(Clone, Debug, PartialEq, Eq)]
pub struct UserEventDAO {
    pub id: i64,
    pub user_id: i64,
    pub kind: String,
    pub created_at: Timestamp,
    pub payload: Vec<u8>,
}

/// A user event as the API shows it.
#[derive(Clone, Debug, PartialEq, Eq)]
pub struct UserEvent {
    pub id: Id,
    pub user_id: Id,
    pub kind: EventKind,
    pub created_at: Timestamp,
    pub payload: String,
}

impl UserEvent {
    /// The event of a stored row, its payload read as UTF-8 text; fails where
    /// the kind is not one of the vocabulary, or else where the payload is
    /// not valid UTF-8.
    pub fn from_dao(value: UserEventDAO, codec: &IdCodec) -> (r: Result<UserEvent, ConvertError>)
        ensures
            r is Ok <==> (exists|k: EventKind| k.wire() == value.kind@) && valid_utf8(value.payload@),
            r matches Ok(v) ==> v.id.token@ == codec.token_of(value.id) && v.user_id.token@
                == codec.token_of(value.user_id) && v.kind.wire() == value.kind@ && v.created_at
                == value.created_at && v.payload@ == decode_utf8(value.payload@),
            (forall|k: EventKind| k.wire() != value.kind@) ==> r is Err && r->Err_0.is_invalid_enum(
                EventKind::db_kind(),
                value.kind@,
            ),
            (exists|k: EventKind| k.wire() == value.kind@) && !valid_utf8(value.payload@) ==> r
                == Err::<UserEvent, ConvertError>(ConvertError::EncodingFailure),
    {
        let kind = EventKind::from_enum_str(value.kind.as_str())?;
        let payload = match utf8_text(value.payload) {
            Some(text) => text,
            None => return Err(ConvertError::EncodingFailure),
        };
        Ok(UserEvent {
            id: value.id.as_id(codec),
            user_id: value.user_id.as_id(codec),
            kind,
            created_at: value.created_at,
            payload,
        })
    }
}

/// A stored notification.
#[derive(Clone, Debug, PartialEq, Eq)]
pub struct NotificationDAO {
    pub id: i64,
    pub recipient: String,
    pub content: String,
    pub read: bool,
    pub created_at: Timestamp,
    pub updated_at: Timestamp,
}

/// A notification as the API shows it.
#[derive(Clone, Debug, PartialEq, Eq)]
pub struct Notification {
    pub id: Id,
    pub content: String,
    pub read: bool,
    pub created_at: Timestamp,
    pub updated_at: Timestamp,
}

impl Notification {
    /// The notification of a stored row.
    pub fn from_dao(value: NotificationDAO, codec: &IdCodec) -> (r: Notification)
        ensures
            r.id.token@ == codec.token_of(value.id),
            r.content == value.content,
            r.read == value.read,
            r.created_at == value.created_at,
            r.updated_at == value.updated_at,
    {
        Notification {
            id: value.id.as_id(codec),
            content: value.content,
            read: value.read,
            created_at: value.created_at,
            updated_at: value.updated_at,
        }
    }
}

/// A stored conversation thread.
#[derive(Clone, Debug, PartialEq, Eq)]
pub struct ThreadDAO {
    pub id: i64,
    pub user_id: i64,
    pub is_ephemeral: bool,
    pub created_at: Timestamp,
    pub updated_at: Timestamp,
}

/// A conversation thread as the API shows it.
#[derive(Clone, Debug, PartialEq, Eq)]
pub struct Thread {
    pub id: Id,
    pub user_id: Id,
    pub is_ephemeral: bool,
    pub created_at: Timestamp,
    pub updated_at: Timestamp,
}

impl Thread {
    /// The thread of a stored row.
    pub fn from_dao(value: ThreadDAO, codec: &IdCodec) -> (r: Thread)
        ensures
            r.id.token@ == codec.token_of(value.id),
            r.user_id.token@ == codec.token_of(value.user_id),
            r.is_ephemeral == value.is_ephemeral,
            r.created_at == value.created_at,
            r.updated_at == value.updated_at,
    {
        Thread {
            id: value.id.as_id(codec),
            user_id: value.user_id.as_id(codec),
            is_ephemeral: value.is_ephemeral,
            created_at: value.created_at,
            updated_at: value.updated_at,
        }
    }
}

/// A stored page.
#[derive(Clone, Debug, PartialEq, Eq)]
pub struct PageDAO {
    pub id: i64,
    pub author_id: i64,
    pub title: Option<String>,
    pub code_source_id: Option<String>,
    pub content: Option<String>,
    pub created_at: Timestamp,
    pub updated_at: Timestamp,
}

/// A page as the API shows it.
#[derive(Clone, Debug, PartialEq, Eq)]
pub struct Page {
    pub id: Id,
    pub author_id: Id,
    pub title: Option<String>,
    pub code_source_id: Option<String>,
    pub content: Option<String>,
    pub created_at: Timestamp,
    pub updated_at: Timestamp,
}

impl Page {
    /// The page of a stored row.
    pub fn from_dao(value: PageDAO, codec: &IdCodec) -> (r: Page)
        ensures
            r.id.token@ == codec.token_of(value.id),
            r.author_id.token@ == codec.token_of(value.author_id),
            r.title == value.title,
            r.code_source_id == value.code_source_id,
            r.content == value.content,
            r.created_at == value.created_at,
            r.updated_at == value.updated_at,
    {
        Page {
            id: value.id.as_id(codec),
            author_id: value.author_id.as_id(codec),
            title: value.title,
            code_source_id: value.code_source_id,
            content: value.content,
            created_at: value.created_at,
            updated_at: value.updated_at,
        }
    }
}

/// The stored state of an ingested document.
#[derive(Clone, Copy, Debug, PartialEq, Eq, Structural)]
pub enum IngestedDocumentStatusDAO {
    Pending,
    Failed,
    Indexed,
}

/// The state of an ingested document as the API shows it.
#[derive(Clone, Copy, Debug, PartialEq, Eq, Structural)]
pub enum IngestedDocStatus {
    Pending,
    Failed,
    Indexed,
}

/// The state that a stored document state shows as.
pub open spec fn doc_status_of(value: IngestedDocumentStatusDAO) -> IngestedDocStatus {
    match value {
        IngestedDocumentStatusDAO::Pending => IngestedDocStatus::Pending,
        IngestedDocumentStatusDAO::Failed => IngestedDocStatus::Failed,
        IngestedDocumentStatusDAO::Indexed => IngestedDocStatus::Indexed,
    }
}

impl IngestedDocStatus {
    /// The state of a stored state.
    pub fn from_dao(value: IngestedDocumentStatusDAO) -> (r: IngestedDocStatus)
        ensures
            r == doc_status_of(value),
    {
        match value {
            IngestedDocumentStatusDAO::Pending => IngestedDocStatus::Pending,
            IngestedDocumentStatusDAO::Failed => IngestedDocStatus::Failed,
            IngestedDocumentStatusDAO::Indexed => IngestedDocStatus::Indexed,
        }
    }
}

/// A stored ingested document.
#[derive(Clone, Debug, PartialEq, Eq)]
pub struct IngestedDocumentDAO {
    pub id: i64,
    pub source: String,
    pub doc_id: String,
    pub link: Option<String>,
    pub title: String,
    pub body: String,
    pub status: IngestedDocumentStatusDAO,
    pub created_at: Timestamp,
    pub updated_at: Timestamp,
}

/// An ingested document as the API shows it.
#[derive(Clone, Debug, PartialEq, Eq)]
pub struct IngestedDocument {
    pub id: String,
    pub source: String,
    pub link: Option<String>,
    pub title: String,
    pub body: String,
    pub status: IngestedDocStatus,
}

impl IngestedDocument {
    /// The document of a stored row; its id is the document's own id.
    pub fn from_dao(value: IngestedDocumentDAO) -> (r: IngestedDocument)
        ensures
            r.id == value.doc_id,
            r.source == value.source,
            r.link == value.link,
            r.title == value.title,
            r.body == value.body,
            r.status == doc_status_of(value.status),
    {
        IngestedDocument {
            id: value.doc_id,
            source: value.source,
            link: value.link,
            title: value.title,
            body: value.body,
            status: IngestedDocStatus::from_dao(value.status),
        }
    }
}

/// Stored ingestion counts of one source.
#[derive(Clone, Debug, PartialEq, Eq)]
pub struct IngestionStatusDAO {
    pub source: String,
    pub pending: i32,
    pub failed: i32,
    pub total: i32,
}

/// Ingestion counts of one source as the API shows them.
#[derive(Clone, Debug, PartialEq, Eq)]
pub struct IngestionStats {
    pub source: String,
    pub pending: i32,
    pub failed: i32,
    pub total: i32,
}

impl IngestionStats {
    /// The counts of a stored row.
    pub fn from_dao(value: IngestionStatusDAO) -> (r: IngestionStats)
        ensures
            r.source == value.source,
            r.pending == value.pending,
            r.failed == value.failed,
            r.total == value.total,
    {
        IngestionStats {
            source: value.source,
            pending: value.pending,
            failed: value.failed,
            total: value.total,
        }
    }
}

} // verus!
