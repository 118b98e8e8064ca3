//! Commands to the cache database, and the form in which they are logged.
use bytes::Bytes;
use vstd::prelude::*;

use crate::text::str_eq;
use crate::wire::{contents, payload_contents};

verus! {

/// A type of database operation.
#[derive(Clone, Copy, Debug, PartialEq, Eq, Structural)]
pub enum DatabaseOperation {
    Insert,
    Update,
    Delete,
    Close,
}

/// A command to the database.
#[derive(Clone, Debug)]
pub struct DatabaseCommand {
    /// The database operation type.
    pub op_type: DatabaseOperation,
    /// The primary key for the operation.
    pub key: Option<String>,
    /// The data payload for the operation.
    pub payload: Option<Vec<Bytes>>,
    /// Whether the command has been committed to Redis.
    pub committed_to_redis: bool,
}

/// A command in the form in which it is logged: the operation type is a text.
#[derive(Clone, Debug)]
pub struct SerializableDatabaseCommand {
    pub op_type: String,
    pub key: Option<String>,
    pub payload: Option<Vec<Bytes>>,
    pub committed_to_redis: bool,
}

/// What a [`DatabaseCommand`] says.
pub struct CommandView {
    pub op_type: DatabaseOperation,
    pub key: Option<Seq<char>>,
    pub payload: Option<Seq<Seq<u8>>>,
    pub committed_to_redis: bool,
}

/// What a [`SerializableDatabaseCommand`] says.
pub struct LoggedCommandView {
    pub op_type: Seq<char>,
    pub key: Option<Seq<char>>,
    pub payload: Option<Seq<Seq<u8>>>,
    pub committed_to_redis: bool,
}

/// The text of a key, if there is a key.
pub open spec fn key_text(key: Option<String>) -> Option<Seq<char>> {
    match key {
        Some(k) => Some(k@),
        None => None,
    }
}

impl View for DatabaseCommand {
    type V = CommandView;

    open spec fn view(&self) -> CommandView {
        CommandView {
            op_type: self.op_type,
            key: key_text(self.key),
            payload: payload_contents(self.payload),
            committed_to_redis: self.committed_to_redis,
        }
    }
}

impl View for SerializableDatabaseCommand {
    type V = LoggedCommandView;

    open spec fn view(&self) -> LoggedCommandView {
        LoggedCommandView {
            op_type: self.op_type@,
            key: key_text(self.key),
            payload: payload_contents(self.payload),
            committed_to_redis: self.committed_to_redis,
        }
    }
}

/// The text that stands for an operation type in the log.
pub open spec fn operation_name(op: DatabaseOperation) -> Seq<char> {
    match op {
        DatabaseOperation::Insert => "Insert"@,
        DatabaseOperation::Update => "Update"@,
        DatabaseOperation::Delete => "Delete"@,
        DatabaseOperation::Close => "Close"@,
    }
}

/// The operation type that a text stands for, if there is one.
pub open spec fn operation_named(name: Seq<char>) -> Option<DatabaseOperation> {
    if name == "Insert"@ {
        Some(DatabaseOperation::Insert)
    } else if name == "Update"@ {
        Some(DatabaseOperation::Update)
    } else if name == "Delete"@ {
        Some(DatabaseOperation::Delete)
    } else if name == "Close"@ {
        Some(DatabaseOperation::Close)
    } else {
        None
    }
}

/// The form in which a command is logged.
pub open spec fn logged(cmd: CommandView) -> LoggedCommandView {
    LoggedCommandView {
        op_type: operation_name(cmd.op_type),
        key: cmd.key,
        payload: cmd.payload,
        committed_to_redis: cmd.committed_to_redis,
    }
}

/// The command that a logged form stands for, if its operation type is known.
pub open spec fn unlogged(cmd: LoggedCommandView) -> Option<CommandView> {
    match operation_named(cmd.op_type) {
        Some(op_type) => Some(
            CommandView {
                op_type,
                key: cmd.key,
                payload: cmd.payload,
                committed_to_redis: cmd.committed_to_redis,
            },
        ),
        None => None,
    }
}

/// An operation type is read back from its text, and from no other.
pub proof fn lemma_operation_names(op: DatabaseOperation, name: Seq<char>)
    ensures
        operation_named(operation_name(op)) == Some(op),
        operation_named(name) == Some(op) <==> name == operation_name(op),
{
    reveal_strlit("Insert");
    reveal_strlit("Update");
    reveal_strlit("Delete");
    reveal_strlit("Close");
    assert("Insert"@[0] != "Update"@[0]);
    assert("Insert"@[0] != "Delete"@[0]);
    assert("Update"@[0] != "Delete"@[0]);
    assert("Close"@[0] != "Insert"@[0]);
    assert("Close"@[0] != "Update"@[0]);
    assert("Close"@[0] != "Delete"@[0]);
}

/// A command that was put into its logged form is read back from it unchanged, and a logged form
/// that can be read is the logged form of the command that is read.
pub proof fn law_logged_command_round_trip(cmd: CommandView, entry: LoggedCommandView)
    ensures
        unlogged(logged(cmd)) == Some(cmd),
        unlogged(entry) == Some(cmd) ==> logged(cmd) == entry,
{
    lemma_operation_names(cmd.op_type, entry.op_type);
}

impl vstd::std_specs::convert::FromSpecImpl<DatabaseCommand> for SerializableDatabaseCommand {
    open spec fn obeys_from_spec() -> bool {
        false
    }

    open spec fn from_spec(cmd: DatabaseCommand) -> SerializableDatabaseCommand {
        arbitrary()
    }
}

impl From<DatabaseCommand> for SerializableDatabaseCommand {
    fn from(cmd: DatabaseCommand) -> (r: Self)
        ensures
            r@ == logged(cmd@),
            r.key == cmd.key,
            r.payload == cmd.payload,
    {
        SerializableDatabaseCommand {
            op_type: cmd.op_type.name().to_owned(),
            key: cmd.key,
            payload: cmd.payload,
            committed_to_redis: cmd.committed_to_redis,
        }
    }
}

impl vstd::std_specs::convert::TryFromSpecImpl<SerializableDatabaseCommand> for DatabaseCommand {
    open spec fn obeys_try_from_spec() -> bool {
        false
    }

    open spec fn try_from_spec(
        serializable: SerializableDatabaseCommand,
    ) -> Result<DatabaseCommand, String> {
        arbitrary()
    }
}

impl TryFrom<SerializableDatabaseCommand> for DatabaseCommand {
    type Error = String;

    fn try_from(serializable: SerializableDatabaseCommand) -> (r: Result<Self, String>)
        ensures
            match r {
                Ok(cmd) => {
                    &&& unlogged(serializable@) == Some(cmd@)
                    &&& cmd.key == serializable.key
                    &&& cmd.payload == serializable.payload
                },
                Err(text) => {
                    &&& unlogged(serializable@) is None
                    &&& text@ == "Unknown operation type: "@ + serializable.op_type@
                },
            },
    {
        match DatabaseOperation::parse(serializable.op_type.as_str()) {
            Some(op_type) => Ok(
                DatabaseCommand {
                    op_type,
                    key: serializable.key,
                    payload: serializable.payload,
                    committed_to_redis: serializable.committed_to_redis,
                },
            ),
            None => {
                let mut text = "Unknown operation type: ".to_owned();
                text.append(serializable.op_type.as_str());
                Err(text)
            },
        }
    }
}

impl DatabaseOperation {
    /// The text that stands for the operation type in the log.
    pub fn name(&self) -> (r: &'static str)
        ensures
            r@ == operation_name(*self),
    {
        match self {
            DatabaseOperation::Insert => "Insert",
            DatabaseOperation::Update => "Update",
            DatabaseOperation::Delete => "Delete",
            DatabaseOperation::Close => "Close",
        }
    }

    /// The operation type that a text stands for, if there is one.
    pub fn parse(name: &str) -> (r: Option<DatabaseOperation>)
        ensures
            r == operation_named(name@),
    {
        if str_eq(name, "Insert") {
            Some(DatabaseOperation::Insert)
        } else if str_eq(name, "Update") {
            Some(DatabaseOperation::Update)
        } else if str_eq(name, "Delete") {
            Some(DatabaseOperation::Delete)
        } else if str_eq(name, "Close") {
            Some(DatabaseOperation::Close)
        } else {
            None
        }
    }
}

impl DatabaseCommand {
    /// Creates a new [`DatabaseCommand`] instance.
    #[must_use]
    pub fn new(op_type: DatabaseOperation, key: String, payload: Option<Vec<Bytes>>) -> (r: Self)
        ensures
            r.op_type == op_type,
            r.key == Some(key),
            r.payload == payload,
            !r.committed_to_redis,
    {
        Self { op_type, key: Some(key), payload, committed_to_redis: false }
    }

    /// Initialize a `Close` database command, this is meant to close the database cache channel.
    #[must_use]
    pub fn close() -> (r: Self)
        ensures
            r.op_type == DatabaseOperation::Close,
            r.key is None,
            r.payload is None,
            !r.committed_to_redis,
    {
        Self {
            op_type: DatabaseOperation::Close,
            key: None,
            payload: None,
            committed_to_redis: false,
        }
    }
}

/// What a command says is what it holds, and so is what its logged form says.
pub proof fn law_command_says_what_it_holds(
    cmd: DatabaseCommand,
    entry: SerializableDatabaseCommand,
)
    ensures
        cmd@.op_type == cmd.op_type,
        cmd@.committed_to_redis == cmd.committed_to_redis,
        match cmd.key {
            Some(key) => cmd@.key == Some(key@),
            None => cmd@.key is None,
        },
        match cmd.payload {
            Some(items) => cmd@.payload matches Some(payload) && payload.len() == items@.len() && (
            forall|i: int|
                0 <= i < items@.len() ==> #[trigger] payload[i] == contents(items@[i])),
            None => cmd@.payload is None,
        },
        entry@.op_type == entry.op_type@,
        entry@.committed_to_redis == entry.committed_to_redis,
        match entry.key {
            Some(key) => entry@.key == Some(key@),
            None => entry@.key is None,
        },
        match entry.payload {
            Some(items) => entry@.payload matches Some(payload) && payload.len() == items@.len()
                && (forall|i: int|
                0 <= i < items@.len() ==> #[trigger] payload[i] == contents(items@[i])),
            None => entry@.payload is None,
        },
{
}

/// A command is logged under the name of its operation type, with everything else unchanged, and a
/// logged form is read as a command exactly where it has one of the four names.
pub proof fn law_logged_form(cmd: CommandView, entry: LoggedCommandView)
    ensures
        logged(cmd).op_type == (match cmd.op_type {
            DatabaseOperation::Insert => "Insert"@,
            DatabaseOperation::Update => "Update"@,
            DatabaseOperation::Delete => "Delete"@,
            DatabaseOperation::Close => "Close"@,
        }),
        logged(cmd).key == cmd.key,
        logged(cmd).payload == cmd.payload,
        logged(cmd).committed_to_redis == cmd.committed_to_redis,
        unlogged(entry) is Some <==> entry.op_type == "Insert"@ || entry.op_type == "Update"@
            || entry.op_type == "Delete"@ || entry.op_type == "Close"@,
        unlogged(entry) matches Some(read) ==> read.key == entry.key && read.payload
            == entry.payload && read.committed_to_redis == entry.committed_to_redis && logged(
            read,
        ).op_type == entry.op_type,
{
    lemma_operation_names(DatabaseOperation::Insert, entry.op_type);
    lemma_operation_names(DatabaseOperation::Update, entry.op_type);
    lemma_operation_names(DatabaseOperation::Delete, entry.op_type);
    lemma_operation_names(DatabaseOperation::Close, entry.op_type);
}

} // verus!
