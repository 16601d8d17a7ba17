use vstd::prelude::*;
use crate::codec::Id;
use crate::error::ConvertError;
use crate::records::Timestamp;

verus! {

/// A copy of an optional string.
pub fn clone_opt_text(x: &Option<String>) -> (r: Option<String>)
    ensures
        r == *x,
{
    match x {
        Some(s) => Some(s.clone()),
        None => None,
    }
}

/// A user whose identity was resolved by the caller.
#[derive(Clone, Debug, PartialEq, Eq)]
pub struct UserSecured {
    pub id: Id,
    pub email: String,
    pub name: String,
}

/// A resolved author.
#[derive(Clone, Debug, PartialEq, Eq)]
pub enum UserValue {
    UserSecured(UserSecured),
}

/// The raw user id that a resolved author projects to.
pub open spec fn author_id_of(author: Option<UserValue>) -> Option<String> {
    match author {
        Some(UserValue::UserSecured(user)) => Some(user.id.token),
        None => None,
    }
}

/// The raw user id of a resolved author.
pub fn author_user_id(author: &Option<UserValue>) -> (r: Option<String>)
    ensures
        r == author_id_of(*author),
{
    match author {
        Some(UserValue::UserSecured(user)) => Some(user.id.token.clone()),
        None => None,
    }
}

// Storage shape.

#[derive(Clone, Debug, PartialEq, Eq)]
pub struct AttachmentWebDoc {
    pub title: String,
    pub link: String,
    pub content: String,
}

#[derive(Clone, Debug, PartialEq, Eq)]
pub struct AttachmentIssueDoc {
    pub title: String,
    pub link: String,
    pub author_user_id: Option<String>,
    pub body: String,
    pub closed: bool,
}

#[derive(Clone, Debug, PartialEq, Eq)]
pub struct AttachmentPullDoc {
    pub title: String,
    pub link: String,
    pub author_user_id: Option<String>,
    pub body: String,
    pub diff: String,
    pub merged: bool,
}

#[derive(Clone, Debug, PartialEq, Eq)]
pub struct AttachmentCommitDoc {
    pub sha: String,
    pub message: String,
    pub author_user_id: Option<String>,
    pub author_at: Timestamp,
}

#[derive(Clone, Debug, PartialEq, Eq)]
pub struct AttachmentPageDoc {
    pub page_link: String,
    pub title: String,
    pub content: String,
}

#[derive(Clone, Debug, PartialEq, Eq)]
pub struct AttachmentIngestedDoc {
    pub id: String,
    pub link: Option<String>,
    pub title: String,
    pub body: String,
}

/// An attachment document as storage keeps it.
#[derive(Clone, Debug, PartialEq, Eq)]
pub enum AttachmentDoc {
    Web(AttachmentWebDoc),
    Issue(AttachmentIssueDoc),
    Pull(AttachmentPullDoc),
    Commit(AttachmentCommitDoc),
    Page(AttachmentPageDoc),
    Ingested(AttachmentIngestedDoc),
}

// Thread-facing shape.

#[derive(Clone, Debug, PartialEq, Eq)]
pub struct MessageAttachmentWebDoc {
    pub title: String,
    pub link: String,
    pub content: String,
}

#[derive(Clone, Debug, PartialEq, Eq)]
pub struct MessageAttachmentIssueDoc {
    pub title: String,
    pub link: String,
    pub author: Option<UserValue>,
    pub body: String,
    pub closed: bool,
}

#[derive(Clone, Debug, PartialEq, Eq)]
pub struct MessageAttachmentPullDoc {
    pub title: String,
    pub link: String,
    pub author: Option<UserValue>,
    pub body: String,
    pub patch: String,
    pub merged: bool,
}

#[derive(Clone, Debug, PartialEq, Eq)]
pub struct MessageAttachmentCommitDoc {
    pub sha: String,
    pub message: String,
    pub author: Option<UserValue>,
    pub author_at: Timestamp,
}

#[derive(Clone, Debug, PartialEq, Eq)]
pub struct MessageAttachmentPageDoc {
    pub link: String,
    pub title: String,
    pub content: String,
}

#[derive(Clone, Debug, PartialEq, Eq)]
pub struct MessageAttachmentIngestedDoc {
    pub id: String,
    pub link: Option<String>,
    pub title: String,
    pub body: String,
}

/// An attachment document as a thread message shows it.
#[derive(Clone, Debug, PartialEq, Eq)]
pub enum MessageAttachmentDoc {
    Web(MessageAttachmentWebDoc),
    Issue(MessageAttachmentIssueDoc),
    Pull(MessageAttachmentPullDoc),
    Commit(MessageAttachmentCommitDoc),
    Page(MessageAttachmentPageDoc),
    Ingested(MessageAttachmentIngestedDoc),
}

// Retrieval shape.

#[derive(Clone, Debug, PartialEq, Eq)]
pub struct RetrievalWebDoc {
    pub title: String,
    pub link: String,
    pub content: String,
}

#[derive(Clone, Debug, PartialEq, Eq)]
pub struct RetrievalIssueDoc {
    pub title: String,
    pub link: String,
    pub author: Option<UserValue>,
    pub body: String,
    pub closed: bool,
}

#[derive(Clone, Debug, PartialEq, Eq)]
pub struct RetrievalPullDoc {
    pub title: String,
    pub link: String,
    pub author: Option<UserValue>,
    pub body: String,
    pub diff: String,
    pub merged: bool,
}

#[derive(Clone, Debug, PartialEq, Eq)]
pub struct RetrievalCommitDoc {
    pub sha: String,
    pub message: String,
    pub author: Option<UserValue>,
    pub author_at: Timestamp,
}

#[derive(Clone, Debug, PartialEq, Eq)]
pub struct RetrievalPageDoc {
    pub link: String,
    pub title: String,
    pub content: String,
}

#[derive(Clone, Debug, PartialEq, Eq)]
pub struct RetrievalIngestedDoc {
    pub id: String,
    pub link: Option<String>,
    pub title: String,
    pub body: String,
}

/// An attachment document as the retrieval subsystem hands it over.
#[derive(Clone, Debug, PartialEq, Eq)]
pub enum RetrievalAttachmentDoc {
    Web(RetrievalWebDoc),
    Issue(RetrievalIssueDoc),
    Pull(RetrievalPullDoc),
    Commit(RetrievalCommitDoc),
    Page(RetrievalPageDoc),
    Ingested(RetrievalIngestedDoc),
}

/// The thread-facing document of a stored one, with `author` as the
/// resolved author of the kinds that have one.
pub open spec fn thread_doc_of(doc: AttachmentDoc, author: Option<UserValue>) -> MessageAttachmentDoc {
    match doc {
        AttachmentDoc::Web(d) => MessageAttachmentDoc::Web(
            MessageAttachmentWebDoc { title: d.title, link: d.link, content: d.content },
        ),
        AttachmentDoc::Issue(d) => MessageAttachmentDoc::Issue(
            MessageAttachmentIssueDoc {
                title: d.title,
                link: d.link,
                author,
                body: d.body,
                closed: d.closed,
            },
        ),
        AttachmentDoc::Pull(d) => MessageAttachmentDoc::Pull(
            MessageAttachmentPullDoc {
                title: d.title,
                link: d.link,
                author,
                body: d.body,
                patch: d.diff,
                merged: d.merged,
            },
        ),
        AttachmentDoc::Commit(d) => MessageAttachmentDoc::Commit(
            MessageAttachmentCommitDoc {
                sha: d.sha,
                message: d.message,
                author,
                author_at: d.author_at,
            },
        ),
        AttachmentDoc::Page(d) => MessageAttachmentDoc::Page(
            MessageAttachmentPageDoc { link: d.page_link, title: d.title, content: d.content },
        ),
        AttachmentDoc::Ingested(d) => MessageAttachmentDoc::Ingested(
            MessageAttachmentIngestedDoc { id: d.id, link: d.link, title: d.title, body: d.body },
        ),
    }
}

/// The stored document of a thread-facing one; a resolved author becomes its
/// raw user id.
pub open spec fn storage_doc_of_thread(doc: MessageAttachmentDoc) -> AttachmentDoc {
    match doc {
        MessageAttachmentDoc::Web(d) => AttachmentDoc::Web(
            AttachmentWebDoc { title: d.title, link: d.link, content: d.content },
        ),
        MessageAttachmentDoc::Issue(d) => AttachmentDoc::Issue(
            AttachmentIssueDoc {
                title: d.title,
                link: d.link,
                author_user_id: author_id_of(d.author),
                body: d.body,
                closed: d.closed,
            },
        ),
        MessageAttachmentDoc::Pull(d) => AttachmentDoc::Pull(
            AttachmentPullDoc {
                title: d.title,
                link: d.link,
                author_user_id: author_id_of(d.author),
                body: d.body,
                diff: d.patch,
                merged: d.merged,
            },
        ),
        MessageAttachmentDoc::Commit(d) => AttachmentDoc::Commit(
            AttachmentCommitDoc {
                sha: d.sha,
                message: d.message,
                author_user_id: author_id_of(d.author),
                author_at: d.author_at,
            },
        ),
        MessageAttachmentDoc::Page(d) => AttachmentDoc::Page(
            AttachmentPageDoc { page_link: d.link, title: d.title, content: d.content },
        ),
        MessageAttachmentDoc::Ingested(d) => AttachmentDoc::Ingested(
            AttachmentIngestedDoc { id: d.id, link: d.link, title: d.title, body: d.body },
        ),
    }
}

/// The stored document of one handed over by retrieval; a resolved author
/// becomes its raw user id.
pub open spec fn storage_doc_of_retrieval(doc: RetrievalAttachmentDoc) -> AttachmentDoc {
    match doc {
        RetrievalAttachmentDoc::Web(d) => AttachmentDoc::Web(
            AttachmentWebDoc { title: d.title, link: d.link, content: d.content },
        ),
        RetrievalAttachmentDoc::Issue(d) => AttachmentDoc::Issue(
            AttachmentIssueDoc {
                title: d.title,
                link: d.link,
                author_user_id: author_id_of(d.author),
                body: d.body,
                closed: d.closed,
            },
        ),
        RetrievalAttachmentDoc::Pull(d) => AttachmentDoc::Pull(
            AttachmentPullDoc {
                title: d.title,
                link: d.link,
                author_user_id: author_id_of(d.author),
                body: d.body,
                diff: d.diff,
                merged: d.merged,
            },
        ),
        RetrievalAttachmentDoc::Commit(d) => AttachmentDoc::Commit(
            AttachmentCommitDoc {
                sha: d.sha,
                message: d.message,
                author_user_id: author_id_of(d.author),
                author_at: d.author_at,
            },
        ),
        RetrievalAttachmentDoc::Page(d) => AttachmentDoc::Page(
            AttachmentPageDoc { page_link: d.link, title: d.title, content: d.content },
        ),
        RetrievalAttachmentDoc::Ingested(d) => AttachmentDoc::Ingested(
            AttachmentIngestedDoc { id: d.id, link: d.link, title: d.title, body: d.body },
        ),
    }
}

/// The raw author id that a stored document carries, if its kind has one.
pub open spec fn stored_author_id(doc: AttachmentDoc) -> Option<String> {
    match doc {
        AttachmentDoc::Issue(d) => d.author_user_id,
        AttachmentDoc::Pull(d) => d.author_user_id,
        AttachmentDoc::Commit(d) => d.author_user_id,
        _ => None,
    }
}

/// Whether the document's kind carries an author.
pub open spec fn has_author(doc: AttachmentDoc) -> bool {
    doc is Issue || doc is Pull || doc is Commit
}

/// Converts a stored attachment document to its thread-facing shape, keeping
/// the kind and every field, with `author` (resolved by the caller from the
/// stored raw id) in place of that id.
pub fn from_thread_message_attachment_document(doc: AttachmentDoc, author: Option<UserValue>) -> (r:
    MessageAttachmentDoc)
    ensures
        r == thread_doc_of(doc, author),
{
    match doc {
        AttachmentDoc::Web(web) => MessageAttachmentDoc::Web(
            MessageAttachmentWebDoc { title: web.title, link: web.link, content: web.content },
        ),
        AttachmentDoc::Issue(issue) => MessageAttachmentDoc::Issue(
            MessageAttachmentIssueDoc {
                title: issue.title,
                link: issue.link,
                author,
                body: issue.body,
                closed: issue.closed,
            },
        ),
        AttachmentDoc::Pull(pull) => MessageAttachmentDoc::Pull(
            MessageAttachmentPullDoc {
                title: pull.title,
                link: pull.link,
                author,
                body: pull.body,
                patch: pull.diff,
                merged: pull.merged,
            },
        ),
        AttachmentDoc::Commit(commit) => MessageAttachmentDoc::Commit(
            MessageAttachmentCommitDoc {
                sha: commit.sha,
                message: commit.message,
                author,
                author_at: commit.author_at,
            },
        ),
        AttachmentDoc::Page(page) => MessageAttachmentDoc::Page(
            MessageAttachmentPageDoc {
                link: page.page_link,
                title: page.title,
                content: page.content,
            },
        ),
        AttachmentDoc::Ingested(ingested) => MessageAttachmentDoc::Ingested(
            MessageAttachmentIngestedDoc {
                id: ingested.id,
                link: ingested.link,
                title: ingested.title,
                body: ingested.body,
            },
        ),
    }
}

impl AttachmentDoc {
    /// The stored shape of a thread-facing document: every field kept, the
    /// resolved author projected back to its raw user id.
    pub fn from_thread(val: &MessageAttachmentDoc) -> (r: AttachmentDoc)
        ensures
            r == storage_doc_of_thread(*val),
    {
        match val {
            MessageAttachmentDoc::Web(val) => AttachmentDoc::Web(
                AttachmentWebDoc {
                    title: val.title.clone(),
                    link: val.link.clone(),
                    content: val.content.clone(),
                },
            ),
            MessageAttachmentDoc::Issue(val) => AttachmentDoc::Issue(
                AttachmentIssueDoc {
                    title: val.title.clone(),
                    link: val.link.clone(),
                    author_user_id: author_user_id(&val.author),
                    body: val.body.clone(),
                    closed: val.closed,
                },
            ),
            MessageAttachmentDoc::Pull(val) => AttachmentDoc::Pull(
                AttachmentPullDoc {
                    title: val.title.clone(),
                    link: val.link.clone(),
                    author_user_id: author_user_id(&val.author),
                    body: val.body.clone(),
                    diff: val.patch.clone(),
                    merged: val.merged,
                },
            ),
            MessageAttachmentDoc::Commit(val) => AttachmentDoc::Commit(
                AttachmentCommitDoc {
                    sha: val.sha.clone(),
                    message: val.message.clone(),
                    author_user_id: author_user_id(&val.author),
                    author_at: val.author_at,
                },
            ),
            MessageAttachmentDoc::Page(val) => AttachmentDoc::Page(
                AttachmentPageDoc {
                    page_link: val.link.clone(),
                    title: val.title.clone(),
                    content: val.content.clone(),
                },
            ),
            MessageAttachmentDoc::Ingested(val) => AttachmentDoc::Ingested(
                AttachmentIngestedDoc {
                    id: val.id.clone(),
                    link: clone_opt_text(&val.link),
                    title: val.title.clone(),
                    body: val.body.clone(),
                },
            ),
        }
    }

    /// The stored shape of a document handed over by retrieval: every field
    /// kept, the resolved author projected to its raw user id.
    pub fn from_retrieval(value: &RetrievalAttachmentDoc) -> (r: AttachmentDoc)
        ensures
            r == storage_doc_of_retrieval(*value),
    {
        match value {
            RetrievalAttachmentDoc::Web(web) => AttachmentDoc::Web(
                AttachmentWebDoc {
                    title: web.title.clone(),
                    link: web.link.clone(),
                    content: web.content.clone(),
                },
            ),
            RetrievalAttachmentDoc::Issue(issue) => AttachmentDoc::Issue(
                AttachmentIssueDoc {
                    title: issue.title.clone(),
                    link: issue.link.clone(),
                    author_user_id: author_user_id(&issue.author),
                    body: issue.body.clone(),
                    closed: issue.closed,
                },
            ),
            RetrievalAttachmentDoc::Pull(pull) => AttachmentDoc::Pull(
                AttachmentPullDoc {
                    title: pull.title.clone(),
                    link: pull.link.clone(),
                    author_user_id: author_user_id(&pull.author),
                    body: pull.body.clone(),
                    diff: pull.diff.clone(),
                    merged: pull.merged,
                },
            ),
            RetrievalAttachmentDoc::Commit(commit) => AttachmentDoc::Commit(
                AttachmentCommitDoc {
                    sha: commit.sha.clone(),
                    message: commit.message.clone(),
                    author_user_id: author_user_id(&commit.author),
                    author_at: commit.author_at,
                },
            ),
            RetrievalAttachmentDoc::Page(page) => AttachmentDoc::Page(
                AttachmentPageDoc {
                    page_link: page.link.clone(),
                    title: page.title.clone(),
                    content: page.content.clone(),
                },
            ),
            RetrievalAttachmentDoc::Ingested(ingested) => AttachmentDoc::Ingested(
                AttachmentIngestedDoc {
                    id: ingested.id.clone(),
                    link: clone_opt_text(&ingested.link),
                    title: ingested.title.clone(),
                    body: ingested.body.clone(),
                },
            ),
        }
    }
}

/// Whether a line number kept as `usize` and one kept as `i32` are the same
/// number, or both absent.
pub open spec fn lines_agree(a: Option<usize>, b: Option<i32>) -> bool {
    match (a, b) {
        (Some(x), Some(y)) => x as int == y as int,
        (None, None) => true,
        _ => false,
    }
}

/// A stored line number as `i32`; fails where it does not fit.
pub fn line_to_i32(line: Option<usize>) -> (r: Result<Option<i32>, ConvertError>)
    ensures
        r is Ok <==> (line matches Some(x) ==> x <= i32::MAX),
        r is Ok ==> lines_agree(line, r->Ok_0),
        r is Err ==> r->Err_0 == ConvertError::IntegerOverflow,
{
    match line {
        Some(x) => {
            if x <= i32::MAX as usize {
                Ok(Some(x as i32))
            } else {
                Err(ConvertError::IntegerOverflow)
            }
        },
        None => Ok(None),
    }
}

/// A line number from the API as `usize`; fails where it is negative.
pub fn line_to_usize(line: Option<i32>) -> (r: Result<Option<usize>, ConvertError>)
    ensures
        r is Ok <==> (line matches Some(x) ==> x >= 0),
        r is Ok ==> lines_agree(r->Ok_0, line),
        r is Err ==> r->Err_0 == ConvertError::IntegerOverflow,
{
    match line {
        Some(x) => {
            if x >= 0 {
                Ok(Some(x as usize))
            } else {
                Err(ConvertError::IntegerOverflow)
            }
        },
        None => Ok(None),
    }
}

/// A code snippet attached to a message, as storage keeps it.
#[derive(Clone, Debug, PartialEq, Eq)]
pub struct AttachmentCode {
    pub git_url: String,
    pub commit: Option<String>,
    pub filepath: String,
    pub language: String,
    pub content: String,
    pub start_line: Option<usize>,
}

/// A code snippet attached to a message, as a thread shows it.
#[derive(Clone, Debug, PartialEq, Eq)]
pub struct MessageAttachmentCode {
    pub git_url: String,
    pub commit: Option<String>,
    pub filepath: String,
    pub language: String,
    pub content: String,
    pub start_line: Option<i32>,
}

/// A code snippet as the retrieval subsystem hands it over.
#[derive(Clone, Debug, PartialEq, Eq)]
pub struct RetrievalAttachmentCode {
    pub git_url: String,
    pub commit: Option<String>,
    pub filepath: String,
    pub language: String,
    pub content: String,
    pub start_line: Option<i32>,
}

/// Code sent by a client, as storage keeps it.
#[derive(Clone, Debug, PartialEq, Eq)]
pub struct AttachmentClientCode {
    pub filepath: Option<String>,
    pub content: String,
    pub start_line: Option<usize>,
}

/// Code sent by a client, as a thread shows it.
#[derive(Clone, Debug, PartialEq, Eq)]
pub struct MessageAttachmentClientCode {
    pub filepath: Option<String>,
    pub content: String,
    pub start_line: Option<i32>,
}

/// Code sent by a client with a new message.
#[derive(Clone, Debug, PartialEq, Eq)]
pub struct MessageAttachmentCodeInput {
    pub filepath: Option<String>,
    pub content: String,
    pub start_line: Option<i32>,
}

/// A list of files attached to a message, as storage keeps it.
#[derive(Clone, Debug, PartialEq, Eq)]
pub struct AttachmentCodeFileList {
    pub file_list: Vec<String>,
    pub truncated: bool,
}

/// A list of files attached to a message, as a thread shows it.
#[derive(Clone, Debug, PartialEq, Eq)]
pub struct MessageAttachmentCodeFileList {
    pub file_list: Vec<String>,
    pub truncated: bool,
}

/// A list of files as the retrieval subsystem hands it over.
#[derive(Clone, Debug, PartialEq, Eq)]
pub struct RetrievalAttachmentCodeFileList {
    pub file_list: Vec<String>,
    pub truncated: bool,
}

impl MessageAttachmentCode {
    /// Whether this snippet holds the fields of stored snippet `s`.
    pub open spec fn agrees_with(&self, s: AttachmentCode) -> bool {
        &&& self.git_url == s.git_url
        &&& self.commit == s.commit
        &&& self.filepath == s.filepath
        &&& self.language == s.language
        &&& self.content == s.content
        &&& lines_agree(s.start_line, self.start_line)
    }

    /// The thread-facing shape of a stored snippet; fails where its start
    /// line does not fit an `i32`.
    pub fn from_storage(value: AttachmentCode) -> (r: Result<MessageAttachmentCode, ConvertError>)
        ensures
            r is Ok <==> (value.start_line matches Some(x) ==> x <= i32::MAX),
            r is Ok ==> r->Ok_0.agrees_with(value),
            r is Err ==> r->Err_0 == ConvertError::IntegerOverflow,
    {
        let start_line = line_to_i32(value.start_line)?;
        Ok(MessageAttachmentCode {
            git_url: value.git_url,
            commit: value.commit,
            filepath: value.filepath,
            language: value.language,
            content: value.content,
            start_line,
        })
    }
}

impl RetrievalAttachmentCode {
    /// Whether this snippet holds the fields of stored snippet `s`.
    pub open spec fn agrees_with(&self, s: AttachmentCode) -> bool {
        &&& self.git_url == s.git_url
        &&& self.commit == s.commit
        &&& self.filepath == s.filepath
        &&& self.language == s.language
        &&& self.content == s.content
        &&& lines_agree(s.start_line, self.start_line)
    }

    /// The retrieval shape of a stored snippet; fails where its start line
    /// does not fit an `i32`.
    pub fn from_storage(value: &AttachmentCode) -> (r: Result<RetrievalAttachmentCode, ConvertError>)
        ensures
            r is Ok <==> (value.start_line matches Some(x) ==> x <= i32::MAX),
            r is Ok ==> r->Ok_0.agrees_with(*value),
            r is Err ==> r->Err_0 == ConvertError::IntegerOverflow,
    {
        let start_line = line_to_i32(value.start_line)?;
        Ok(RetrievalAttachmentCode {
            git_url: value.git_url.clone(),
            commit: clone_opt_text(&value.commit),
            filepath: value.filepath.clone(),
            language: value.language.clone(),
            content: value.content.clone(),
            start_line,
        })
    }
}

impl AttachmentCode {
    /// The stored shape of a thread-facing snippet; fails where its start
    /// line is negative.
    pub fn from_thread(val: &MessageAttachmentCode) -> (r: Result<AttachmentCode, ConvertError>)
        ensures
            r is Ok <==> (val.start_line matches Some(x) ==> x >= 0),
            r is Ok ==> val.agrees_with(r->Ok_0),
            r is Err ==> r->Err_0 == ConvertError::IntegerOverflow,
    {
        let start_line = line_to_usize(val.start_line)?;
        Ok(AttachmentCode {
            git_url: val.git_url.clone(),
            commit: clone_opt_text(&val.commit),
            filepath: val.filepath.clone(),
            language: val.language.clone(),
            content: val.content.clone(),
            start_line,
        })
    }

    /// The stored shape of a snippet handed over by retrieval; fails where
    /// its start line is negative.
    pub fn from_retrieval(value: &RetrievalAttachmentCode) -> (r: Result<AttachmentCode, ConvertError>)
        ensures
            r is Ok <==> (value.start_line matches Some(x) ==> x >= 0),
            r is Ok ==> value.agrees_with(r->Ok_0),
            r is Err ==> r->Err_0 == ConvertError::IntegerOverflow,
    {
        let start_line = line_to_usize(value.start_line)?;
        Ok(AttachmentCode {
            git_url: value.git_url.clone(),
            commit: clone_opt_text(&value.commit),
            filepath: value.filepath.clone(),
            language: value.language.clone(),
            content: value.content.clone(),
            start_line,
        })
    }
}

impl MessageAttachmentClientCode {
    /// The thread-facing shape of stored client code; fails where its start
    /// line does not fit an `i32`.
    pub fn from_storage(value: AttachmentClientCode) -> (r: Result<MessageAttachmentClientCode, ConvertError>)
        ensures
            r is Ok <==> (value.start_line matches Some(x) ==> x <= i32::MAX),
            r is Ok ==> r->Ok_0.filepath == value.filepath && r->Ok_0.content == value.content
                && lines_agree(value.start_line, r->Ok_0.start_line),
            r is Err ==> r->Err_0 == ConvertError::IntegerOverflow,
    {
        let start_line = line_to_i32(value.start_line)?;
        Ok(MessageAttachmentClientCode { filepath: value.filepath, content: value.content, start_line })
    }
}

impl AttachmentClientCode {
    /// The stored shape of client code sent with a message; fails where its
    /// start line is negative.
    pub fn from_input(val: &MessageAttachmentCodeInput) -> (r: Result<AttachmentClientCode, ConvertError>)
        ensures
            r is Ok <==> (val.start_line matches Some(x) ==> x >= 0),
            r is Ok ==> r->Ok_0.filepath == val.filepath && r->Ok_0.content == val.content
                && lines_agree(r->Ok_0.start_line, val.start_line),
            r is Err ==> r->Err_0 == ConvertError::IntegerOverflow,
    {
        let start_line = line_to_usize(val.start_line)?;
        Ok(AttachmentClientCode {
            filepath: clone_opt_text(&val.filepath),
            content: val.content.clone(),
            start_line,
        })
    }
}

impl MessageAttachmentCodeFileList {
    /// The thread-facing shape of a stored file list.
    pub fn from_storage(value: AttachmentCodeFileList) -> (r: MessageAttachmentCodeFileList)
        ensures
            r.file_list == value.file_list,
            r.truncated == value.truncated,
    {
        MessageAttachmentCodeFileList { file_list: value.file_list, truncated: value.truncated }
    }
}

impl RetrievalAttachmentCodeFileList {
    /// The retrieval shape of a stored file list.
    pub fn from_storage(value: AttachmentCodeFileList) -> (r: RetrievalAttachmentCodeFileList)
        ensures
            r.file_list == value.file_list,
            r.truncated == value.truncated,
    {
        RetrievalAttachmentCodeFileList { file_list: value.file_list, truncated: value.truncated }
    }
}

/// A stored snippet converted to the thread-facing shape and back is the
/// same snippet.
pub proof fn lemma_code_round_trip(s: AttachmentCode, m: MessageAttachmentCode, back: AttachmentCode)
    requires
        m.agrees_with(s),
        m.agrees_with(back),
    ensures
        back == s,
{
}

/// Converting a stored document to the thread-facing shape, with the author
/// resolved from its raw id, and back gives the same document: the kind and
/// every field are kept, and the author goes from raw id to resolved value
/// to the same raw id.
pub proof fn lemma_attachment_round_trip(doc: AttachmentDoc, author: Option<UserValue>)
    requires
        has_author(doc) ==> author_id_of(author) == stored_author_id(doc),
    ensures
        storage_doc_of_thread(thread_doc_of(doc, author)) == doc,
{
}

} // verus!
