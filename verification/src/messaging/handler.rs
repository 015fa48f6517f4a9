//! Decisions on the messages of the message server: initialization,
//! requests, and the commands that arrive on a channel.

use vstd::prelude::*;
use crate::messaging::json::{str_member_spec, JsonValue, JsonView};
use crate::messaging::messages::{status_name, status_name_spec, LogLevel};
use crate::state::{BuildState, BuildStatus};

verus! {

/// The answer to a request to open a channel.
#[derive(Debug)]
pub struct ChannelAccept {
    pub accepted: bool,
    pub message: Option<Vec<u8>>,
}

/// What a channel command asks for.
#[derive(Debug)]
pub enum ChannelCommand {
    /// Start a build with this state, which reports on the channel.
    StartBuild(BuildState),
    /// Report the current build status.
    CheckStatus,
}

/// A status report sent on a channel.
#[derive(Debug)]
pub enum StatusReport {
    /// The current status, with a description of it.
    Progress { status: BuildStatus, description: String },
    /// A message at a log level.
    Log { level: LogLevel, message: String },
    /// The end of a build: whether it succeeded, the module's path and hash,
    /// and the error.
    BuildComplete {
        success: bool,
        wasm_path: Option<String>,
        wasm_hash: Option<String>,
        error: Option<String>,
    },
}

/// Message handling of the build actor.
pub struct MessageHandler;

/// The message for the first required parameter of a start command that is
/// missing, if any, in the order the command is checked: `fs_hash`, then
/// `store_id`. (`build_store_id` is optional.)
pub open spec fn missing_parameter(v: JsonView) -> Option<Seq<char>> {
    if str_member_spec(v, "fs_hash"@) is None {
        Some("Missing 'fs_hash' parameter"@)
    } else if str_member_spec(v, "store_id"@) is None {
        Some("Missing 'store_id' parameter"@)
    } else {
        None
    }
}

/// The build store a start command names: its `build_store_id`, or none
/// (empty) when it names none.
pub open spec fn build_store_parameter(v: JsonView) -> Seq<char> {
    match str_member_spec(v, "build_store_id"@) {
        Some(b) => b,
        None => Seq::empty(),
    }
}

impl MessageHandler {
    /// Initialization keeps the initial data as the state.
    pub fn init(init_data: Option<Vec<u8>>, _params: (String,)) -> (r: Result<(Option<Vec<u8>>,), String>)
        ensures
            r == Ok::<(Option<Vec<u8>>,), String>((init_data,)),
    {
        Ok((init_data,))
    }

    /// A sent message leaves the state unchanged.
    pub fn handle_send(state: Option<Vec<u8>>, _params: (Vec<u8>,)) -> (r: Result<(Option<Vec<u8>>,), String>)
        ensures
            r == Ok::<(Option<Vec<u8>>,), String>((state,)),
    {
        Ok((state,))
    }

    /// A request leaves the state unchanged and is answered with nothing.
    pub fn handle_request(state_bytes: Option<Vec<u8>>, _params: (Vec<u8>,)) -> (r: Result<
        (Option<Vec<u8>>, (Vec<u8>,)),
        String,
    >)
        ensures
            r matches Ok((s, (a,))) && s == state_bytes && a@.len() == 0,
    {
        Ok((state_bytes, (Vec::new(),)))
    }

    /// Every channel is accepted, without a message; the state is unchanged.
    pub fn handle_channel_open(state: Option<Vec<u8>>, _params: (Vec<u8>,)) -> (r: Result<
        (Option<Vec<u8>>, (ChannelAccept,)),
        String,
    >)
        ensures
            r matches Ok((s, (a,))) && s == state && a.accepted && a.message is None,
    {
        Ok((state, (ChannelAccept { accepted: true, message: None },)))
    }

    /// Closing a channel leaves the state unchanged.
    pub fn handle_channel_close(state: Option<Vec<u8>>, _params: (String,)) -> (r: Result<
        (Option<Vec<u8>>,),
        String,
    >)
        ensures
            r == Ok::<(Option<Vec<u8>>,), String>((state,)),
    {
        Ok((state,))
    }

    /// The command that a channel message carries. A message that did not
    /// parse, has no `command`, names an unknown command, or is a
    /// `start_build` without `fs_hash` or `store_id` is refused with the
    /// reason; a `start_build` yields a fresh build state that reports on
    /// `channel_id`, with the build store the command names, if any.
    pub fn handle_channel_message(message: Result<JsonValue, String>, channel_id: String) -> (r:
        Result<ChannelCommand, String>)
        ensures
            match message {
                Err(e) => r matches Err(m) && m@ == "Failed to parse message: "@ + e@,
                Ok(v) => match str_member_spec(v.view(), "command"@) {
                    None => r matches Err(m) && m@ == "Missing 'command' field"@,
                    Some(c) => if c == "start_build"@ {
                        match missing_parameter(v.view()) {
                            Some(p) => r matches Err(m) && m@ == p,
                            None => r matches Ok(ChannelCommand::StartBuild(s)) && {
                                &&& Some(s.fs_hash@) == str_member_spec(v.view(), "fs_hash"@)
                                &&& Some(s.store_id@) == str_member_spec(v.view(), "store_id"@)
                                &&& s.build_store_id@ == build_store_parameter(v.view())
                                &&& s.status == BuildStatus::NotStarted
                                &&& s.build_output is None
                                &&& s.channel_id matches Some(ch) && ch@ == channel_id@
                            },
                        }
                    } else if c == "check_status"@ {
                        r matches Ok(ChannelCommand::CheckStatus)
                    } else {
                        r matches Err(m) && m@ == "Unknown command: "@ + c
                    },
                },
            },
    {
        let message = match message {
            Ok(v) => v,
            Err(e) => {
                return Err(String::from_str("Failed to parse message: ").concat(e.as_str()));
            },
        };
        let command = match message.str_member("command") {
            Some(c) => c,
            None => {
                return Err(String::from_str("Missing 'command' field"));
            },
        };
        if command.eq(&String::from_str("start_build")) {
            let fs_hash = match message.str_member("fs_hash") {
                Some(h) => h,
                None => {
                    return Err(String::from_str("Missing 'fs_hash' parameter"));
                },
            };
            let store_id = match message.str_member("store_id") {
                Some(h) => h,
                None => {
                    return Err(String::from_str("Missing 'store_id' parameter"));
                },
            };
            let mut state = BuildState::new(store_id, fs_hash);
            match message.str_member("build_store_id") {
                Some(b) => {
                    state.build_store_id = b;
                },
                None => {},
            }
            state.channel_id = Some(channel_id);
            Ok(ChannelCommand::StartBuild(state))
        } else if command.eq(&String::from_str("check_status")) {
            Ok(ChannelCommand::CheckStatus)
        } else {
            Err(String::from_str("Unknown command: ").concat(command.as_str()))
        }
    }

    /// The report for a `check_status` command: with a state, its status;
    /// without one, an error message; a state that did not parse is refused.
    pub fn check_status(state: Option<Result<BuildState, String>>) -> (r: Result<StatusReport, String>)
        ensures
            match state {
                None => r matches Ok(StatusReport::Log { level, message }) && level
                    == LogLevel::Error && message@ == "No build state available"@,
                Some(Err(e)) => r matches Err(m) && m@ == "Failed to deserialize state: "@ + e@,
                Some(Ok(s)) => r matches Ok(StatusReport::Progress { status, description })
                    && status == s.status && description@ == "Current build status: "@
                    + status_name_spec(s.status),
            },
    {
        match state {
            None => Ok(
                StatusReport::Log {
                    level: LogLevel::Error,
                    message: String::from_str("No build state available"),
                },
            ),
            Some(Err(e)) => Err(String::from_str("Failed to deserialize state: ").concat(e.as_str())),
            Some(Ok(s)) => {
                let description = String::from_str("Current build status: ").concat(
                    status_name(s.status).as_str(),
                );
                Ok(StatusReport::Progress { status: s.status, description })
            },
        }
    }
}

} // verus!
