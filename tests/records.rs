use tabby_schema_dao::codec::{AsID, IdCodec};
use tabby_schema_dao::enums::{AuthMethod, Encryption, EventKind, IntegrationKind, LdapEncryptionKind, OAuthProvider};
use tabby_schema_dao::error::{ConvertError, DbEnumKind};
use tabby_schema_dao::records::{
    EmailSetting, EmailSettingDAO, GithubRepositoryProvider, GitlabRepositoryProvider,
    IngestedDocStatus, IngestedDocument, IngestedDocumentDAO, IngestedDocumentStatusDAO,
    IngestionStats, IngestionStatusDAO, Integration, IntegrationDAO, IntegrationStatus, Invitation,
    InvitationDAO, JobRun, JobRunDAO, LdapCredential, LdapCredentialDAO, Notification,
    NotificationDAO, OAuthCredential, OAuthCredentialDAO, Page, PageDAO, RepositoryKind,
    RepositoryProviderStatus, Thread, ThreadDAO, Timestamp, UserEvent, UserEventDAO,
};
use tabby_schema_dao::settings::{split_domain_list, NetworkSetting, SecuritySetting, ServerSettingDAO};

fn at(millis: i64) -> Timestamp {
    Timestamp { millis }
}

fn integration_row(synced: bool, error: Option<&str>) -> IntegrationDAO {
    IntegrationDAO {
        id: 3,
        kind: "github".to_owned(),
        error: error.map(|e| e.to_owned()),
        display_name: "GitHub".to_owned(),
        access_token: "SECRET-REDACTED".to_owned(),
        api_base: None,
        created_at: at(1),
        updated_at: at(2),
        synced,
    }
}

#[test]
fn integration_status_derivation() {
    let codec = IdCodec::new();
    let status = |synced, error| Integration::from_dao(integration_row(synced, error), &codec).unwrap().status;
    assert_eq!(status(false, Some("boom")), IntegrationStatus::Failed);
    assert_eq!(status(true, None), IntegrationStatus::Ready);
    assert_eq!(status(false, None), IntegrationStatus::Pending);
    assert_eq!(status(true, Some("boom")), IntegrationStatus::Failed);
}

#[test]
fn integration_fields_and_bad_kind() {
    let codec = IdCodec::new();
    let i = Integration::from_dao(integration_row(true, Some("e")), &codec).unwrap();
    assert_eq!(i.id, 3i64.as_id(&codec));
    assert_eq!(i.kind, IntegrationKind::Github);
    assert_eq!(i.message, Some("e".to_owned()));
    let mut row = integration_row(true, None);
    row.kind = "svn".to_owned();
    assert_eq!(
        Integration::from_dao(row, &codec),
        Err(ConvertError::InvalidEnumValue { kind: DbEnumKind::IntegrationKind, raw: "svn".to_owned() })
    );
}

#[test]
fn providers_of_integration() {
    let codec = IdCodec::new();
    let i = Integration::from_dao(integration_row(false, None), &codec).unwrap();
    let gh = GithubRepositoryProvider::from_integration(i.clone());
    assert_eq!(gh.status, RepositoryProviderStatus::Pending);
    assert_eq!(gh.access_token, Some("SECRET-REDACTED".to_owned()));
    let gl = GitlabRepositoryProvider::from_integration(i);
    assert_eq!(gl.display_name, "GitHub");
    assert_eq!(RepositoryKind::from_integration_kind(IntegrationKind::GitlabSelfHosted), RepositoryKind::GitlabSelfHosted);
    assert_eq!(RepositoryProviderStatus::from_integration_status(IntegrationStatus::Failed), RepositoryProviderStatus::Failed);
}

fn event_row(kind: &str, payload: Vec<u8>) -> UserEventDAO {
    UserEventDAO { id: 1, user_id: 2, kind: kind.to_owned(), created_at: at(9), payload }
}

#[test]
fn event_payload_is_text() {
    let codec = IdCodec::new();
    let e = UserEvent::from_dao(event_row("select", b"click".to_vec()), &codec).unwrap();
    assert_eq!(e.payload, "click");
    assert_eq!(e.kind, EventKind::Select);
    assert_eq!(e.user_id, 2i64.as_id(&codec));
    let u = UserEvent::from_dao(event_row("view", "héllo".as_bytes().to_vec()), &codec).unwrap();
    assert_eq!(u.payload, "héllo");
}

#[test]
fn event_invalid_utf8_fails() {
    let codec = IdCodec::new();
    assert_eq!(
        UserEvent::from_dao(event_row("view", vec![0x63, 0xff, 0xfe]), &codec),
        Err(ConvertError::EncodingFailure)
    );
    assert_eq!(
        UserEvent::from_dao(event_row("tap", b"click".to_vec()), &codec),
        Err(ConvertError::InvalidEnumValue { kind: DbEnumKind::EventKind, raw: "tap".to_owned() })
    );
}

fn settings_row() -> ServerSettingDAO {
    ServerSettingDAO {
        security_allowed_register_domain_list: Some("a.com,,b.org,".to_owned()),
        security_disable_client_side_telemetry: true,
        network_external_url: "https://tabby.example".to_owned(),
        billing_enterprise_license: Some("SECRET-REDACTED".to_owned()),
        security_disable_password_login: false,
    }
}

#[test]
fn settings_projection() {
    let row = settings_row();
    let network = NetworkSetting::from_dao(&row);
    let security = SecuritySetting::from_dao(&row);
    assert_eq!(network, NetworkSetting { external_url: "https://tabby.example".to_owned() });
    assert_eq!(
        security,
        SecuritySetting {
            allowed_register_domain_list: vec!["a.com".to_owned(), "b.org".to_owned()],
            disable_client_side_telemetry: true,
            disable_password_login: false,
        }
    );
    let mut none = settings_row();
    none.security_allowed_register_domain_list = None;
    assert!(SecuritySetting::from_dao(&none).allowed_register_domain_list.is_empty());
}

#[test]
fn domain_list_split() {
    assert_eq!(split_domain_list(""), Vec::<String>::new());
    assert_eq!(split_domain_list(",,"), Vec::<String>::new());
    assert_eq!(split_domain_list("x.io"), vec!["x.io".to_owned()]);
    assert_eq!(split_domain_list("é.fr,b"), vec!["é.fr".to_owned(), "b".to_owned()]);
}

#[test]
fn invitation_and_job_run() {
    let codec = IdCodec::new();
    let inv = Invitation::from_dao(
        InvitationDAO { id: 7, email: "a@b.c".to_owned(), code: "xyz".to_owned(), created_at: at(4) },
        &codec,
    )
    .unwrap();
    assert_eq!(inv.id, 7i32.as_id(&codec));
    let big = InvitationDAO { id: 1 << 40, email: String::new(), code: String::new(), created_at: at(0) };
    assert_eq!(Invitation::from_dao(big, &codec), Err(ConvertError::IntegerOverflow));
    let run = JobRunDAO {
        id: 5,
        name: "sync".to_owned(),
        exit_code: Some(-2),
        stdout: "out".to_owned(),
        created_at: at(1),
        updated_at: at(2),
        started_at: Some(at(1)),
        finished_at: None,
    };
    let j = JobRun::from_dao(run.clone(), &codec).unwrap();
    assert_eq!(j.exit_code, Some(-2));
    assert_eq!(j.job, "sync");
    let mut bad = run;
    bad.exit_code = Some(i64::MAX);
    assert_eq!(JobRun::from_dao(bad, &codec), Err(ConvertError::IntegerOverflow));
}

#[test]
fn credentials_and_mail_settings() {
    let oauth = OAuthCredentialDAO {
        provider: "google".to_owned(),
        client_id: "id".to_owned(),
        client_secret: "SECRET-REDACTED".to_owned(),
        created_at: at(1),
        updated_at: at(1),
    };
    assert_eq!(OAuthCredential::from_dao(oauth.clone()).unwrap().provider, OAuthProvider::Google);
    let mut bad = oauth;
    bad.provider = "azure".to_owned();
    assert!(OAuthCredential::from_dao(bad).is_err());
    let ldap = LdapCredentialDAO {
        host: "ldap.local".to_owned(),
        port: 636,
        bind_dn: "cn=admin".to_owned(),
        base_dn: "dc=local".to_owned(),
        user_filter: "(uid=%s)".to_owned(),
        encryption: "ldaps".to_owned(),
        skip_tls_verify: false,
        email_attribute: "mail".to_owned(),
        name_attribute: None,
        created_at: at(1),
        updated_at: at(1),
    };
    let l = LdapCredential::from_dao(ldap.clone()).unwrap();
    assert_eq!((l.port, l.encryption), (636, LdapEncryptionKind::LDAPS));
    let mut far = ldap;
    far.port = 1 << 33;
    assert_eq!(LdapCredential::from_dao(far), Err(ConvertError::IntegerOverflow));
    let mail = EmailSettingDAO {
        smtp_username: "u".to_owned(),
        smtp_server: "smtp.local".to_owned(),
        smtp_port: 587,
        from_address: "noreply@local".to_owned(),
        encryption: "starttls".to_owned(),
        auth_method: "login".to_owned(),
    };
    let m = EmailSetting::from_dao(mail.clone()).unwrap();
    assert_eq!((m.encryption, m.auth_method, m.smtp_port), (Encryption::StartTls, AuthMethod::Login, 587));
    let mut bad_auth = mail;
    bad_auth.auth_method = "oauth".to_owned();
    assert_eq!(
        EmailSetting::from_dao(bad_auth),
        Err(ConvertError::InvalidEnumValue { kind: DbEnumKind::AuthMethod, raw: "oauth".to_owned() })
    );
}

#[test]
fn plain_records() {
    let codec = IdCodec::new();
    let n = Notification::from_dao(
        NotificationDAO {
            id: 11,
            recipient: "admin".to_owned(),
            content: "hi".to_owned(),
            read: true,
            created_at: at(1),
            updated_at: at(2),
        },
        &codec,
    );
    assert_eq!(n.id, 11i64.as_id(&codec));
    assert!(n.read);
    let t = Thread::from_dao(
        ThreadDAO { id: 12, user_id: 13, is_ephemeral: true, created_at: at(1), updated_at: at(1) },
        &codec,
    );
    assert_eq!(t.user_id, 13i64.as_id(&codec));
    let p = Page::from_dao(
        PageDAO {
            id: 14,
            author_id: 15,
            title: Some("T".to_owned()),
            code_source_id: None,
            content: None,
            created_at: at(1),
            updated_at: at(1),
        },
        &codec,
    );
    assert_eq!(p.author_id, 15i64.as_id(&codec));
    let d = IngestedDocument::from_dao(IngestedDocumentDAO {
        id: 99,
        source: "web".to_owned(),
        doc_id: "doc-1".to_owned(),
        link: None,
        title: "t".to_owned(),
        body: "b".to_owned(),
        status: IngestedDocumentStatusDAO::Indexed,
        created_at: at(1),
        updated_at: at(1),
    });
    assert_eq!((d.id.as_str(), d.status), ("doc-1", IngestedDocStatus::Indexed));
    let s = IngestionStats::from_dao(IngestionStatusDAO { source: "web".to_owned(), pending: 1, failed: 2, total: 3 });
    assert_eq!((s.pending, s.failed, s.total), (1, 2, 3));
}
