use tabby_schema_dao::attachment::{
    from_thread_message_attachment_document, AttachmentClientCode, AttachmentCode,
    AttachmentCodeFileList, AttachmentCommitDoc, AttachmentDoc, AttachmentIngestedDoc,
    AttachmentIssueDoc, AttachmentPageDoc, AttachmentPullDoc, AttachmentWebDoc,
    MessageAttachmentClientCode, MessageAttachmentCode, MessageAttachmentCodeFileList,
    MessageAttachmentCodeInput, MessageAttachmentDoc, RetrievalAttachmentCode,
    RetrievalAttachmentDoc, RetrievalCommitDoc, RetrievalIssueDoc, RetrievalPageDoc, UserSecured,
    UserValue,
};
use tabby_schema_dao::codec::{AsID, IdCodec};
use tabby_schema_dao::error::ConvertError;
use tabby_schema_dao::records::Timestamp;

fn user(codec: &IdCodec, id: i64) -> UserValue {
    UserValue::UserSecured(UserSecured {
        id: id.as_id(codec),
        email: "kim@example.com".to_owned(),
        name: "Kim".to_owned(),
    })
}

fn raw_id(codec: &IdCodec, id: i64) -> String {
    id.as_id(codec).as_str().to_owned()
}

fn six_docs(author: Option<String>) -> Vec<AttachmentDoc> {
    vec![
        AttachmentDoc::Web(AttachmentWebDoc {
            title: "Web".to_owned(),
            link: "https://example.com".to_owned(),
            content: "page text".to_owned(),
        }),
        AttachmentDoc::Issue(AttachmentIssueDoc {
            title: "Bug".to_owned(),
            link: "https://example.com/issues/1".to_owned(),
            author_user_id: author.clone(),
            body: "it breaks".to_owned(),
            closed: true,
        }),
        AttachmentDoc::Pull(AttachmentPullDoc {
            title: "Fix".to_owned(),
            link: "https://example.com/pull/2".to_owned(),
            author_user_id: author.clone(),
            body: "fixes it".to_owned(),
            diff: "+a\n-b".to_owned(),
            merged: false,
        }),
        AttachmentDoc::Commit(AttachmentCommitDoc {
            sha: "abc123".to_owned(),
            message: "commit message".to_owned(),
            author_user_id: author,
            author_at: Timestamp { millis: 1_700_000_000_000 },
        }),
        AttachmentDoc::Page(AttachmentPageDoc {
            page_link: "/pages/3".to_owned(),
            title: "Page".to_owned(),
            content: "wiki".to_owned(),
        }),
        AttachmentDoc::Ingested(AttachmentIngestedDoc {
            id: "doc-9".to_owned(),
            link: Some("https://example.com/doc".to_owned()),
            title: "Ingested".to_owned(),
            body: "ingested body".to_owned(),
        }),
    ]
}

#[test]
fn attachment_round_trip_with_author() {
    let codec = IdCodec::new();
    for doc in six_docs(Some(raw_id(&codec, 31))) {
        let thread = from_thread_message_attachment_document(doc.clone(), Some(user(&codec, 31)));
        assert_eq!(AttachmentDoc::from_thread(&thread), doc);
    }
}

#[test]
fn attachment_round_trip_without_author() {
    for doc in six_docs(None) {
        let thread = from_thread_message_attachment_document(doc.clone(), None);
        assert_eq!(AttachmentDoc::from_thread(&thread), doc);
    }
}

#[test]
fn attachment_fields_land_in_thread_shape() {
    let codec = IdCodec::new();
    let docs = six_docs(Some(raw_id(&codec, 4)));
    match from_thread_message_attachment_document(docs[2].clone(), Some(user(&codec, 4))) {
        MessageAttachmentDoc::Pull(p) => {
            assert_eq!(p.patch, "+a\n-b");
            assert_eq!(p.author, Some(user(&codec, 4)));
            assert!(!p.merged);
        }
        other => panic!("unexpected kind {:?}", other),
    }
    match from_thread_message_attachment_document(docs[4].clone(), None) {
        MessageAttachmentDoc::Page(p) => assert_eq!(p.link, "/pages/3"),
        other => panic!("unexpected kind {:?}", other),
    }
}

#[test]
fn retrieval_doc_projects_author_to_raw_id() {
    let codec = IdCodec::new();
    let issue = RetrievalAttachmentDoc::Issue(RetrievalIssueDoc {
        title: "t".to_owned(),
        link: "l".to_owned(),
        author: Some(user(&codec, 8)),
        body: "b".to_owned(),
        closed: false,
    });
    assert_eq!(
        AttachmentDoc::from_retrieval(&issue),
        AttachmentDoc::Issue(AttachmentIssueDoc {
            title: "t".to_owned(),
            link: "l".to_owned(),
            author_user_id: Some(raw_id(&codec, 8)),
            body: "b".to_owned(),
            closed: false,
        })
    );
    let commit = RetrievalAttachmentDoc::Commit(RetrievalCommitDoc {
        sha: "s".to_owned(),
        message: "m".to_owned(),
        author: None,
        author_at: Timestamp { millis: 5 },
    });
    assert_eq!(
        AttachmentDoc::from_retrieval(&commit),
        AttachmentDoc::Commit(AttachmentCommitDoc {
            sha: "s".to_owned(),
            message: "m".to_owned(),
            author_user_id: None,
            author_at: Timestamp { millis: 5 },
        })
    );
    let page = RetrievalAttachmentDoc::Page(RetrievalPageDoc {
        link: "/p".to_owned(),
        title: "T".to_owned(),
        content: "C".to_owned(),
    });
    assert_eq!(
        AttachmentDoc::from_retrieval(&page),
        AttachmentDoc::Page(AttachmentPageDoc {
            page_link: "/p".to_owned(),
            title: "T".to_owned(),
            content: "C".to_owned(),
        })
    );
}

fn stored_code(start_line: Option<usize>) -> AttachmentCode {
    AttachmentCode {
        git_url: "https://example.com/repo.git".to_owned(),
        commit: Some("deadbeef".to_owned()),
        filepath: "src/lib.rs".to_owned(),
        language: "rust".to_owned(),
        content: "fn main() {}".to_owned(),
        start_line,
    }
}

#[test]
fn code_round_trip() {
    let stored = stored_code(Some(12));
    let message = MessageAttachmentCode::from_storage(stored.clone()).unwrap();
    assert_eq!(message.start_line, Some(12));
    assert_eq!(AttachmentCode::from_thread(&message), Ok(stored.clone()));
    let retrieval = RetrievalAttachmentCode::from_storage(&stored).unwrap();
    assert_eq!(retrieval.start_line, Some(12));
    assert_eq!(AttachmentCode::from_retrieval(&retrieval), Ok(stored));
}

#[test]
fn code_line_overflow_fails() {
    let too_big = stored_code(Some(i32::MAX as usize + 1));
    assert_eq!(MessageAttachmentCode::from_storage(too_big.clone()), Err(ConvertError::IntegerOverflow));
    assert_eq!(RetrievalAttachmentCode::from_storage(&too_big), Err(ConvertError::IntegerOverflow));
    let largest = stored_code(Some(i32::MAX as usize));
    assert_eq!(MessageAttachmentCode::from_storage(largest).unwrap().start_line, Some(i32::MAX));
}

#[test]
fn negative_line_fails() {
    let mut message = MessageAttachmentCode::from_storage(stored_code(None)).unwrap();
    assert_eq!(message.start_line, None);
    message.start_line = Some(-1);
    assert_eq!(AttachmentCode::from_thread(&message), Err(ConvertError::IntegerOverflow));
    let input = MessageAttachmentCodeInput { filepath: None, content: "x".to_owned(), start_line: Some(-3) };
    assert_eq!(AttachmentClientCode::from_input(&input), Err(ConvertError::IntegerOverflow));
}

#[test]
fn client_code_conversions() {
    let input = MessageAttachmentCodeInput {
        filepath: Some("a.py".to_owned()),
        content: "print(1)".to_owned(),
        start_line: Some(3),
    };
    let stored = AttachmentClientCode::from_input(&input).unwrap();
    assert_eq!(stored.start_line, Some(3));
    assert_eq!(
        MessageAttachmentClientCode::from_storage(stored),
        Ok(MessageAttachmentClientCode {
            filepath: Some("a.py".to_owned()),
            content: "print(1)".to_owned(),
            start_line: Some(3),
        })
    );
}

#[test]
fn file_list_is_kept() {
    let list = AttachmentCodeFileList { file_list: vec!["a".to_owned(), "b".to_owned()], truncated: true };
    let m = MessageAttachmentCodeFileList::from_storage(list);
    assert_eq!(m.file_list, vec!["a".to_owned(), "b".to_owned()]);
    assert!(m.truncated);
}
