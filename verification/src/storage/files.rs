use vstd::prelude::*;
use std::time::{SystemTime, UNIX_EPOCH};
use crate::config::LayoutConfig;
use crate::text::{append_decimal, decimal_chars};

verus! {

/// `SystemTime::now` measured from the Unix epoch, in milliseconds (zero if
/// the clock reads before the epoch). Nothing is promised of the value: it is
/// the machine's clock.
#[verifier::external_body]
pub fn now_ms() -> u64 {
    match SystemTime::now().duration_since(UNIX_EPOCH) {
        Ok(elapsed) => elapsed.as_millis() as u64,
        Err(_) => 0,
    }
}

#[derive(Debug)]
pub enum StorageError {
    Io(String),
    Serialization(String),
}

impl StorageError {
    /// The text that explains the error.
    pub fn message(&self) -> (text: String)
        ensures
            text@ == match self {
                StorageError::Io(detail) => "io error: "@ + detail@,
                StorageError::Serialization(detail) => "serialization error: "@ + detail@,
            },
    {
        match self {
            StorageError::Io(detail) => {
                let mut text = String::from_str("io error: ");
                text.append(detail.as_str());
                text
            },
            StorageError::Serialization(detail) => {
                let mut text = String::from_str("serialization error: ");
                text.append(detail.as_str());
                text
            },
        }
    }
}

/// The saved layouts as they are stored.
#[derive(Debug, Clone)]
pub struct LayoutStore {
    pub schema_version: u16,
    pub layouts: Vec<LayoutConfig>,
}

/// How reading a stored JSON file went.
#[derive(Debug, Clone, Copy, PartialEq, Eq, Structural)]
pub enum StoredParse {
    /// The content parsed into the expected record.
    Parsed,
    /// The content is not well-formed JSON (syntax error or cut short).
    Malformed,
    /// The content is JSON of another shape than the record.
    Mismatched,
}

/// What loading a stored record does next.
#[derive(Debug, Clone, Copy, PartialEq, Eq, Structural)]
pub enum LoadStep {
    /// Use the stored record.
    UseStored,
    /// Move the damaged file aside, then write and use the default.
    BackUpAndUseDefault,
    /// Report a serialization error and leave the file alone.
    Reject,
    /// No file yet: write and use the default.
    WriteDefault,
}

/// The recovery policy for stored records: a missing file is created with
/// the default, a damaged one is kept as a backup and replaced, and one of
/// another shape (perhaps written by another version) is never overwritten.
pub fn load_step(file_exists: bool, parse: StoredParse) -> (step: LoadStep)
    ensures
        !file_exists ==> step == LoadStep::WriteDefault,
        file_exists && parse == StoredParse::Parsed ==> step == LoadStep::UseStored,
        file_exists && parse == StoredParse::Malformed ==> step == LoadStep::BackUpAndUseDefault,
        file_exists && parse == StoredParse::Mismatched ==> step == LoadStep::Reject,
{
    if !file_exists {
        LoadStep::WriteDefault
    } else {
        match parse {
            StoredParse::Parsed => LoadStep::UseStored,
            StoredParse::Malformed => LoadStep::BackUpAndUseDefault,
            StoredParse::Mismatched => LoadStep::Reject,
        }
    }
}

/// How many backup names are tried before giving up.
pub const BACKUP_ATTEMPTS: u32 = 100;

/// The name of backup number `attempt` of a damaged file: the file name,
/// `.corrupt.` and the time stamp, then `.` and the attempt unless it is the first.
pub open spec fn backup_name_text(file_name: Seq<char>, timestamp_ms: u64, attempt: u32) -> Seq<char> {
    if attempt == 0 {
        file_name + ".corrupt."@ + decimal_chars(timestamp_ms as nat)
    } else {
        file_name + ".corrupt."@ + decimal_chars(timestamp_ms as nat) + "."@ + decimal_chars(attempt as nat)
    }
}

pub fn backup_file_name(file_name: &str, timestamp_ms: u64, attempt: u32) -> (name: String)
    ensures
        name@ == backup_name_text(file_name@, timestamp_ms, attempt),
{
    let mut name = String::from_str(file_name);
    name.append(".corrupt.");
    append_decimal(&mut name, timestamp_ms);
    if attempt != 0 {
        name.append(".");
        append_decimal(&mut name, attempt as u64);
    }
    name
}

/// How one attempt at moving a damaged file to a backup name went.
#[derive(Debug)]
pub enum BackupOutcome {
    /// The name is taken already; try the next one.
    NameTaken,
    /// The file was moved.
    Moved,
    /// Moving failed with this message.
    Failed(String),
}

/// What backing up a damaged file does next.
#[derive(Debug)]
pub enum BackupStep {
    /// Try the backup name of this attempt number.
    TryAttempt(u32),
    /// Stop with this result.
    Done(Result<(), StorageError>),
}

/// The next step, with `next_attempt` attempts made and `last` the outcome
/// of the latest: stop when the file was moved or moving failed, try the
/// next name while fewer than `BACKUP_ATTEMPTS` were tried, and give up after.
pub open spec fn backup_step_matches(next_attempt: u32, last: Option<BackupOutcome>, step: BackupStep) -> bool {
    match last {
        Some(BackupOutcome::Moved) => step matches BackupStep::Done(Ok(())),
        Some(BackupOutcome::Failed(m)) => step matches BackupStep::Done(Err(StorageError::Io(e)))
            && e@ == m@,
        _ => if next_attempt < BACKUP_ATTEMPTS {
            step == BackupStep::TryAttempt(next_attempt)
        } else {
            step matches BackupStep::Done(Err(StorageError::Io(e)))
                && e@ == "unable to create corrupt backup"@
        },
    }
}

pub fn next_backup_step(next_attempt: u32, last: Option<BackupOutcome>) -> (step: BackupStep)
    ensures
        backup_step_matches(next_attempt, last, step),
{
    match last {
        Some(BackupOutcome::Moved) => BackupStep::Done(Ok(())),
        Some(BackupOutcome::Failed(message)) => BackupStep::Done(Err(StorageError::Io(message))),
        _ => if next_attempt < BACKUP_ATTEMPTS {
            BackupStep::TryAttempt(next_attempt)
        } else {
            BackupStep::Done(Err(StorageError::Io(String::from_str("unable to create corrupt backup"))))
        },
    }
}

/// Different attempts give different backup names, so no attempt
/// overwrites another's backup.
pub proof fn lemma_backup_names_differ(file_name: Seq<char>, timestamp_ms: u64, a1: u32, a2: u32)
    requires
        a1 != a2,
    ensures
        backup_name_text(file_name, timestamp_ms, a1) != backup_name_text(file_name, timestamp_ms, a2),
{
    let base = file_name + ".corrupt."@ + decimal_chars(timestamp_ms as nat);
    reveal_strlit(".");
    crate::text::lemma_decimal_injective(a1 as nat, a2 as nat);
    if a1 == 0 {
        assert(backup_name_text(file_name, timestamp_ms, a2).len() > base.len());
    } else if a2 == 0 {
        assert(backup_name_text(file_name, timestamp_ms, a1).len() > base.len());
    } else {
        let t1 = backup_name_text(file_name, timestamp_ms, a1);
        let t2 = backup_name_text(file_name, timestamp_ms, a2);
        let k: int = base.len() as int + 1;
        if t1 == t2 {
            assert(t1.skip(k) =~= decimal_chars(a1 as nat));
            assert(t2.skip(k) =~= decimal_chars(a2 as nat));
        }
    }
}

} // verus!
