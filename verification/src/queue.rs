//! Queue admission: validated table names, the SQL the PostgreSQL writer runs,
//! and the records that report what happened to a queue-worthy email.

use crate::gmail::concat;
use crate::text::{chars_of, is_ascii_alnum, spec_is_ascii_alnum};
use crate::clock::now_micros;
use crate::types::{
    clone_opt_string, EmailClassification, EmailIntent, GmailMessage, QueueBackendKind, QueuedJobRecord,
    TaskAssessment,
};
use vstd::prelude::*;
use vstd::string::StringExecFns;

verus! {

/// Errors of the queue stage.
#[derive(Debug)]
pub enum QueueError {
    /// A required setting is missing; carries its name.
    MissingEnv(String),
    /// The queue configuration is invalid.
    InvalidConfig(String),
    /// A PostgreSQL operation failed; carries the driver's message.
    Postgres(String),
}

/// How a queue error reads to the user.
pub open spec fn queue_error_text(e: QueueError) -> Seq<char> {
    match e {
        QueueError::MissingEnv(name) => "missing required environment variable `"@ + name@ + "`"@,
        QueueError::InvalidConfig(m) => "queue configuration is invalid: "@ + m@,
        QueueError::Postgres(m) => "Postgres operation failed: "@ + m@,
    }
}

impl QueueError {
    /// The error as the user reads it.
    pub fn message(&self) -> (r: String)
        ensures
            r@ == queue_error_text(*self),
    {
        match self {
            QueueError::MissingEnv(name) => {
                let mut s = concat("missing required environment variable `", name.as_str());
                s.append("`");
                s
            },
            QueueError::InvalidConfig(m) => concat("queue configuration is invalid: ", m.as_str()),
            QueueError::Postgres(m) => concat("Postgres operation failed: ", m.as_str()),
        }
    }
}

/// A table name made only of ASCII letters, digits and underscores.
pub open spec fn is_safe_identifier(s: Seq<char>) -> bool {
    s.len() > 0 && forall|i: int| 0 <= i < s.len() ==> (spec_is_ascii_alnum(#[trigger] s[i]) || s[i] == '_')
}

/// Accepts `input` as a table name when it is non-empty and made only of ASCII
/// letters, digits and underscores.
pub fn sanitize_identifier(input: &str) -> (r: Result<String, QueueError>)
    ensures
        r is Ok <==> is_safe_identifier(input@),
        r matches Ok(s) ==> s@ == input@,
        input@.len() == 0 ==> (r matches Err(QueueError::InvalidConfig(m)) && m@
            == "queue table name cannot be empty"@),
        (input@.len() > 0 && !is_safe_identifier(input@)) ==> (r matches Err(QueueError::InvalidConfig(m)) && m@
            == "queue table name `"@ + input@ + "` contains unsupported characters"@),
{
    let v = chars_of(input);
    if v.len() == 0 {
        return Err(QueueError::InvalidConfig(String::from_str("queue table name cannot be empty")));
    }
    let mut k: usize = 0;
    while k < v.len()
        invariant
            k <= v.len(),
            v@ == input@,
            forall|i: int| 0 <= i < k ==> (spec_is_ascii_alnum(#[trigger] v@[i]) || v@[i] == '_'),
        decreases v.len() - k,
    {
        if !(is_ascii_alnum(v[k]) || v[k] == '_') {
            let mut m = String::from_str("queue table name `");
            m.append(input);
            m.append("` contains unsupported characters");
            return Err(QueueError::InvalidConfig(m));
        }
        k += 1;
    }
    Ok(String::from_str(input))
}

/// PostgreSQL-backed queue writer.
pub struct PostgresQueueWriter {
    connection_string: String,
    table_name: String,
}

/// The statement that creates the queue table when it is missing.
pub open spec fn create_table_sql(table: Seq<char>) -> Seq<char> {
    "CREATE TABLE IF NOT EXISTS "@ + table + " (\n                id BIGSERIAL PRIMARY KEY,\n                source TEXT NOT NULL,\n                source_message_id TEXT NOT NULL UNIQUE,\n                source_thread_id TEXT NOT NULL,\n                requester_email TEXT,\n                subject TEXT NOT NULL,\n                category TEXT NOT NULL,\n                intent_summary TEXT NOT NULL,\n                task_title TEXT NOT NULL,\n                task_description TEXT NOT NULL,\n                clarity_score INTEGER NOT NULL,\n                priority TEXT NOT NULL,\n                needs_human_review BOOLEAN NOT NULL,\n                raw_payload JSONB NOT NULL,\n                created_at TIMESTAMPTZ NOT NULL DEFAULT NOW()\n            );"@
}

/// The upsert that stores one queue item and returns its id.
pub open spec fn insert_sql(table: Seq<char>) -> Seq<char> {
    "INSERT INTO "@ + table + " (\n                source,\n                source_message_id,\n                source_thread_id,\n                requester_email,\n                subject,\n                category,\n                intent_summary,\n                task_title,\n                task_description,\n                clarity_score,\n                priority,\n                needs_human_review,\n                raw_payload\n            ) VALUES ($1,$2,$3,$4,$5,$6,$7,$8,$9,$10,$11,$12,$13)\n            ON CONFLICT (source_message_id) DO UPDATE SET\n                requester_email = EXCLUDED.requester_email,\n                subject = EXCLUDED.subject,\n                category = EXCLUDED.category,\n                intent_summary = EXCLUDED.intent_summary,\n                task_title = EXCLUDED.task_title,\n                task_description = EXCLUDED.task_description,\n                clarity_score = EXCLUDED.clarity_score,\n                priority = EXCLUDED.priority,\n                needs_human_review = EXCLUDED.needs_human_review,\n                raw_payload = EXCLUDED.raw_payload\n            RETURNING id::text"@
}

impl PostgresQueueWriter {
    /// The table name is always a safe SQL identifier.
    #[verifier::type_invariant]
    spec fn table_is_safe(self) -> bool {
        is_safe_identifier(self.table_name@)
    }

    /// The table the writer stores into.
    pub closed spec fn table(self) -> Seq<char> {
        self.table_name@
    }

    /// The connection string the writer uses.
    pub closed spec fn dsn(self) -> Seq<char> {
        self.connection_string@
    }

    /// Builds the writer from the `POSTGRES_DSN` and `POSTGRES_QUEUE_TABLE`
    /// settings; the table defaults to `job_queue`.
    pub fn from_settings(dsn: Option<String>, table: Option<String>) -> (r: Result<Self, QueueError>)
        ensures
            dsn is None ==> (r matches Err(QueueError::MissingEnv(n)) && n@ == "POSTGRES_DSN"@),
            dsn matches Some(d) ==> {
                let t = match table {
                    Some(t) => t@,
                    None => "job_queue"@,
                };
                &&& r is Ok <==> is_safe_identifier(t)
                &&& r matches Ok(w) ==> w.dsn() == d@ && w.table() == t
                &&& !is_safe_identifier(t) ==> r matches Err(QueueError::InvalidConfig(_))
            },
    {
        let connection_string = match dsn {
            Some(d) => d,
            None => return Err(QueueError::MissingEnv(String::from_str("POSTGRES_DSN"))),
        };
        let table = match table {
            Some(t) => t,
            None => String::from_str("job_queue"),
        };
        let table_name = sanitize_identifier(table.as_str())?;
        Ok(PostgresQueueWriter { connection_string, table_name })
    }

    /// The connection string the writer connects with.
    pub fn connection_string(&self) -> (r: &str)
        ensures
            r@ == self.dsn(),
    {
        self.connection_string.as_str()
    }

    /// The validated queue table name.
    pub fn table_name(&self) -> (r: &str)
        ensures
            r@ == self.table(),
            is_safe_identifier(r@),
    {
        proof {
            use_type_invariant(self);
        }
        self.table_name.as_str()
    }

    /// The `CREATE TABLE IF NOT EXISTS` statement for the queue table.
    pub fn ensure_table_sql(&self) -> (r: String)
        ensures
            r@ == create_table_sql(self.table()),
            is_safe_identifier(self.table()),
    {
        proof {
            use_type_invariant(self);
        }
        let mut s = String::from_str("CREATE TABLE IF NOT EXISTS ");
        s.append(self.table_name.as_str());
        s.append(" (\n                id BIGSERIAL PRIMARY KEY,\n                source TEXT NOT NULL,\n                source_message_id TEXT NOT NULL UNIQUE,\n                source_thread_id TEXT NOT NULL,\n                requester_email TEXT,\n                subject TEXT NOT NULL,\n                category TEXT NOT NULL,\n                intent_summary TEXT NOT NULL,\n                task_title TEXT NOT NULL,\n                task_description TEXT NOT NULL,\n                clarity_score INTEGER NOT NULL,\n                priority TEXT NOT NULL,\n                needs_human_review BOOLEAN NOT NULL,\n                raw_payload JSONB NOT NULL,\n                created_at TIMESTAMPTZ NOT NULL DEFAULT NOW()\n            );");
        s
    }

    /// The upsert statement for the queue table.
    pub fn insert_sql(&self) -> (r: String)
        ensures
            r@ == insert_sql(self.table()),
            is_safe_identifier(self.table()),
    {
        proof {
            use_type_invariant(self);
        }
        let mut s = String::from_str("INSERT INTO ");
        s.append(self.table_name.as_str());
        s.append(" (\n                source,\n                source_message_id,\n                source_thread_id,\n                requester_email,\n                subject,\n                category,\n                intent_summary,\n                task_title,\n                task_description,\n                clarity_score,\n                priority,\n                needs_human_review,\n                raw_payload\n            ) VALUES ($1,$2,$3,$4,$5,$6,$7,$8,$9,$10,$11,$12,$13)\n            ON CONFLICT (source_message_id) DO UPDATE SET\n                requester_email = EXCLUDED.requester_email,\n                subject = EXCLUDED.subject,\n                category = EXCLUDED.category,\n                intent_summary = EXCLUDED.intent_summary,\n                task_title = EXCLUDED.task_title,\n                task_description = EXCLUDED.task_description,\n                clarity_score = EXCLUDED.clarity_score,\n                priority = EXCLUDED.priority,\n                needs_human_review = EXCLUDED.needs_human_review,\n                raw_payload = EXCLUDED.raw_payload\n            RETURNING id::text");
        s
    }

    /// The record of a row stored under `id`.
    pub fn queued_record(&self, id: String) -> (r: QueuedJobRecord)
        ensures
            r.backend == QueueBackendKind::Postgres,
            r.status@ == "queued"@,
            r.external_id == Some(id),
            r.location matches Some(l) && l@ == self.table() + "#"@ + id@,
            r.error is None,
    {
        let mut location = self.table_name.clone();
        location.append("#");
        location.append(id.as_str());
        QueuedJobRecord {
            backend: QueueBackendKind::Postgres,
            status: String::from_str("queued"),
            external_id: Some(id),
            location: Some(location),
            queued_at: now_micros(),
            error: None,
        }
    }
}

/// The values bound to the upsert statement's parameters `$1` to `$12`; the
/// JSON payload, `$13`, is written next to them.
#[derive(Debug)]
pub struct InsertRow {
    pub source: String,
    pub source_message_id: String,
    pub source_thread_id: String,
    pub requester_email: Option<String>,
    pub subject: String,
    pub category: String,
    pub intent_summary: String,
    pub task_title: String,
    pub task_description: String,
    pub clarity_score: i32,
    pub priority: String,
    pub needs_human_review: bool,
}

/// The row stored for a queued email: its ids, the requester, the subject or
/// `(no subject)`, the category, the task, and the assessment's score,
/// priority and review flag.
pub fn insert_row(
    message: &GmailMessage,
    classification: &EmailClassification,
    intent: &EmailIntent,
    assessment: &TaskAssessment,
) -> (r: InsertRow)
    ensures
        r.source@ == "gmail"@,
        r.source_message_id == message.message_id,
        r.source_thread_id == message.thread_id,
        r.requester_email == intent.requester_identity,
        r.subject@ == match message.subject {
            Some(s) => s@,
            None => "(no subject)"@,
        },
        r.category == classification.category,
        r.intent_summary == intent.intent_summary,
        r.task_title == intent.task_title,
        r.task_description == intent.task_description,
        r.clarity_score == assessment.clarity_score as i32,
        r.priority == assessment.priority,
        r.needs_human_review == assessment.needs_human_review,
{
    InsertRow {
        source: String::from_str("gmail"),
        source_message_id: message.message_id.clone(),
        source_thread_id: message.thread_id.clone(),
        requester_email: clone_opt_string(&intent.requester_identity),
        subject: match &message.subject {
            Some(s) => s.clone(),
            None => String::from_str("(no subject)"),
        },
        category: classification.category.clone(),
        intent_summary: intent.intent_summary.clone(),
        task_title: intent.task_title.clone(),
        task_description: intent.task_description.clone(),
        clarity_score: assessment.clarity_score as i32,
        priority: assessment.priority.clone(),
        needs_human_review: assessment.needs_human_review,
    }
}

/// Queue writer abstraction for PostgreSQL and disabled mode.
pub enum TaskQueueWriter {
    /// PostgreSQL writer for relational deployments.
    Postgres(PostgresQueueWriter),
    /// Local mode that records queue-worthiness for dry runs without external writes.
    Disabled,
}

impl TaskQueueWriter {
    /// Initialize the selected backend from its settings.
    pub fn from_backend(kind: QueueBackendKind, dsn: Option<String>, table: Option<String>) -> (r: Result<
        Self,
        QueueError,
    >)
        ensures
            kind == QueueBackendKind::Disabled ==> r matches Ok(TaskQueueWriter::Disabled),
            kind == QueueBackendKind::Postgres ==> {
                let t = match table {
                    Some(t) => t@,
                    None => "job_queue"@,
                };
                &&& r is Ok <==> (dsn is Some && is_safe_identifier(t))
                &&& r matches Ok(w) ==> w matches TaskQueueWriter::Postgres(p) && p.dsn() == dsn->0@
                    && p.table() == t
                &&& dsn is None ==> (r matches Err(QueueError::MissingEnv(n)) && n@ == "POSTGRES_DSN"@)
                &&& (dsn is Some && !is_safe_identifier(t)) ==> (r matches Err(QueueError::InvalidConfig(_)))
            },
    {
        match kind {
            QueueBackendKind::Disabled => Ok(TaskQueueWriter::Disabled),
            QueueBackendKind::Postgres => match PostgresQueueWriter::from_settings(dsn, table) {
                Ok(w) => Ok(TaskQueueWriter::Postgres(w)),
                Err(e) => Err(e),
            },
        }
    }

    /// What the disabled backend reports for a queue-worthy email: nothing was
    /// stored because no backend was selected.
    pub fn disabled_record() -> (r: QueuedJobRecord)
        ensures
            r.backend == QueueBackendKind::Disabled,
            r.status@ == "not_persisted"@,
            r.external_id is None,
            r.location is None,
            r.error matches Some(e) && e@ == "QUEUE_BACKEND=none"@,
    {
        QueuedJobRecord {
            backend: QueueBackendKind::Disabled,
            status: String::from_str("not_persisted"),
            external_id: None,
            location: None,
            queued_at: now_micros(),
            error: Some(String::from_str("QUEUE_BACKEND=none")),
        }
    }
}

/// The record of a write that failed with `error`.
pub fn failed_queue_record(backend: QueueBackendKind, error: String) -> (r: QueuedJobRecord)
    ensures
        r.backend == backend,
        r.status@ == "persistence_failed"@,
        r.external_id is None,
        r.location is None,
        r.error == Some(error),
{
    QueuedJobRecord {
        backend,
        status: String::from_str("persistence_failed"),
        external_id: None,
        location: None,
        queued_at: now_micros(),
        error: Some(error),
    }
}

} // verus!
