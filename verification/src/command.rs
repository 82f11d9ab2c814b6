//! Standalone database commands, phrased as wire queries against a
//! database's command collection.

use vstd::prelude::*;
use vstd::string::StringExecFns;
use crate::document::{Bson, Document, SpecBson, SpecDoc, put};
use crate::error::Error;
use crate::wire_protocol::{Message, OpQueryFlags, OpCode, spec_query_msg_len};

verus! {

/// The commands this driver can run on their own.
#[derive(Debug, Clone, Copy, PartialEq, Eq, Structural)]
pub enum DatabaseCommand {
    IsMaster,
    ListDatabases,
}

/// The wire name of a command.
pub open spec fn spec_command_name(c: DatabaseCommand) -> Seq<char> {
    match c {
        DatabaseCommand::IsMaster => "isMaster"@,
        DatabaseCommand::ListDatabases => "listDatabases"@,
    }
}

impl DatabaseCommand {
    /// Whether the command must run against the administrative database.
    pub fn is_admin(&self) -> (r: bool)
        ensures
            r == (*self is ListDatabases),
    {
        match self {
            DatabaseCommand::IsMaster => false,
            DatabaseCommand::ListDatabases => true,
        }
    }

    /// The wire name of this command.
    pub fn to_string(&self) -> (r: String)
        ensures
            r@ == spec_command_name(*self),
    {
        match self {
            DatabaseCommand::IsMaster => String::from_str("isMaster"),
            DatabaseCommand::ListDatabases => String::from_str("listDatabases"),
        }
    }
}

/// One command to run, under the caller's request identifier.
#[derive(Debug, Clone, Copy, PartialEq, Eq, Structural)]
pub struct Command {
    pub request_id: i32,
    pub command: DatabaseCommand,
}

/// The namespace the command is queried against.
pub open spec fn spec_command_namespace(c: DatabaseCommand) -> Seq<char> {
    (if c is ListDatabases {
        "admin"@
    } else {
        "local"@
    }) + ".$cmd"@
}

/// The query document of a command: its name mapped to one.
pub open spec fn spec_command_query(c: DatabaseCommand) -> SpecDoc {
    put(Seq::empty(), spec_command_name(c), SpecBson::I32(1))
}

impl Command {
    /// A command under a request identifier.
    pub fn new(request_id: i32, command: DatabaseCommand) -> (r: Command)
        ensures
            r == (Command { request_id, command }),
    {
        Command { request_id, command }
    }

    /// The database this command runs against.
    pub fn get_database_string(&self) -> (r: String)
        ensures
            r@ == if self.command is ListDatabases {
                "admin"@
            } else {
                "local"@
            },
    {
        if self.command.is_admin() {
            String::from_str("admin")
        } else {
            String::from_str("local")
        }
    }

    /// The wire query that runs this command: one document asking for the
    /// command by name, expecting a single result.
    pub fn build_message(&self) -> (r: Result<Message, Error>)
        ensures
            match r {
                Ok(m) => m matches Message::OpQuery {
                    header,
                    flags,
                    namespace,
                    number_to_skip,
                    number_to_return,
                    query,
                    return_field_selector,
                } && header.request_id == self.request_id && header.response_to == 0
                    && header.op_code == OpCode::Query && header.message_length
                    == spec_query_msg_len(
                    spec_command_namespace(self.command),
                    spec_command_query(self.command),
                    None,
                ) as i32 && flags == (OpQueryFlags {
                    tailable_cursor: false,
                    slave_ok: false,
                    oplog_replay: false,
                    no_cursor_timeout: false,
                    await_data: false,
                    exhaust: false,
                    partial: false,
                }) && namespace@
                    == spec_command_namespace(self.command) && number_to_skip == 0
                    && number_to_return == 1 && query@ == spec_command_query(self.command)
                    && return_field_selector is None && spec_query_msg_len(
                    spec_command_namespace(self.command),
                    spec_command_query(self.command),
                    None,
                ) <= i32::MAX,
                Err(e) => e is ArgumentError && spec_query_msg_len(
                    spec_command_namespace(self.command),
                    spec_command_query(self.command),
                    None,
                ) > i32::MAX,
            },
    {
        let flags = OpQueryFlags::no_flags();
        let full_collection_name = self.get_database_string().concat(".$cmd");
        let command_name = self.command.to_string();
        let mut query = Document::new();
        query.insert(command_name, Bson::I32(1));
        Message::new_query(self.request_id, flags, full_collection_name, 0, 1, query, None)
    }

    /// Read a command's results off the server's reply; anything but a reply
    /// message is rejected.
    pub fn interpret_reply(m: Message) -> (r: Result<Vec<Document>, String>)
        ensures
            match m {
                Message::OpReply { documents, .. } => r matches Ok(d) && d == documents,
                _ => r matches Err(s) && s@ == "Invalid response received from server"@,
            },
    {
        match m {
            Message::OpReply { documents, .. } => Ok(documents),
            _ => Err(String::from_str("Invalid response received from server")),
        }
    }
}

} // verus!
