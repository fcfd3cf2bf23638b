//! The decisions of one lookup, as a state machine that a driver feeds with
//! what the node answered and that tells the driver what to do next.

use vstd::prelude::*;

use crate::command::{absence_message, InfoCommand, InfoError};
use crate::info::{human_lines, json_text, ContractInfo, OutputType};

verus! {

/// Where a lookup stands.
#[derive(PartialEq, Eq, Structural)]
pub enum Stage {
    /// Waiting for the connection to the node.
    Connecting,
    /// Waiting for the storage query's answer.
    Fetching,
    /// The record was rendered.
    Done,
    /// The lookup failed.
    Failed,
}

/// What the driver reports back.
pub enum Event {
    /// The connection to the node is up.
    Connected,
    /// The node could not be reached; the cause.
    ConnectFailed(String),
    /// The storage query answered: the record, if the node holds one.
    Fetched(Option<ContractInfo>),
    /// The storage query failed or its answer could not be decoded; the cause.
    FetchFailed(String),
}

/// What the driver is to do next.
pub enum Action {
    /// Connect to the node at this endpoint.
    Connect(String),
    /// Query the metadata record of this contract address, once.
    Fetch(String),
    /// Write these lines to the output; the lookup is over.
    Emit(Vec<String>),
    /// Report this error; the lookup is over.
    Fail(InfoError),
    /// Nothing: the lookup is already over, or the event was not awaited.
    Idle,
}

/// One lookup in progress.
pub struct Session {
    /// What is looked up, where, and how it is rendered.
    pub command: InfoCommand,
    /// How far the lookup has come.
    pub stage: Stage,
}

/// Whether `r` is what a lookup emits for `info` in rendering `mode`: the four
/// labelled lines, or the pretty-printed JSON projection as one text.
pub open spec fn emits_rendering(r: Seq<String>, info: ContractInfo, json: bool) -> bool {
    if json {
        r.len() == 1 && r[0]@ == json_text(info)
    } else {
        r.len() == 4 && forall|i: int| 0 <= i < 4 ==> (#[trigger] r[i])@ == human_lines(info)[i]
    }
}

impl InfoCommand {
    /// Begins a lookup: the first thing to do is to connect to the endpoint.
    pub fn start(self) -> (r: (Session, Action))
        ensures
            r.0.command == self,
            r.0.stage == Stage::Connecting,
            r.1 is Connect,
            r.1->Connect_0@ == self.url@,
    {
        let url = self.url.clone();
        (Session { command: self, stage: Stage::Connecting }, Action::Connect(url))
    }
}

impl Session {
    /// Takes the driver's report and says what comes next. A connection
    /// failure ends the lookup before any query; a query that finds no record
    /// ends it with the absence error that names the address; a record is
    /// rendered as the command asks, JSON for `output_json`, and the listing
    /// otherwise. Once the lookup is over, nothing more happens.
    pub fn step(&mut self, ev: Event) -> (r: Action)
        ensures
            final(self).command == old(self).command,
            old(self).stage == Stage::Connecting && ev is Connected ==> final(self).stage
                == Stage::Fetching && r is Fetch && r->Fetch_0@ == old(self).command.contract@,
            old(self).stage == Stage::Connecting && ev is ConnectFailed ==> final(self).stage
                == Stage::Failed && r is Fail && r->Fail_0 is Connection
                && r->Fail_0->Connection_0 == ev->ConnectFailed_0,
            old(self).stage == Stage::Fetching && ev is FetchFailed ==> final(self).stage
                == Stage::Failed && r is Fail && r->Fail_0 is Fetch && r->Fail_0->Fetch_0
                == ev->FetchFailed_0,
            old(self).stage == Stage::Fetching && ev is Fetched && ev->Fetched_0 is None
                ==> final(self).stage == Stage::Failed && r is Fail && r->Fail_0 is Absent
                && r->Fail_0->Absent_0@ == absence_message(old(self).command.contract@),
            old(self).stage == Stage::Fetching && ev is Fetched && ev->Fetched_0 is Some
                ==> r is Emit && final(self).stage == Stage::Done && emits_rendering(
                r->Emit_0@,
                ev->Fetched_0->Some_0,
                old(self).command.output_json,
            ),
            old(self).stage == Stage::Connecting && (ev is Fetched || ev is FetchFailed) ==> (
            final(self).stage == Stage::Connecting && r is Idle),
            old(self).stage == Stage::Fetching && (ev is Connected || ev is ConnectFailed) ==> (
            final(self).stage == Stage::Fetching && r is Idle),
            old(self).stage == Stage::Done || old(self).stage == Stage::Failed
                ==> final(self).stage == old(self).stage && r is Idle,
    {
        match self.stage {
            Stage::Connecting => match ev {
                Event::Connected => {
                    self.stage = Stage::Fetching;
                    Action::Fetch(self.command.contract.clone())
                },
                Event::ConnectFailed(cause) => {
                    self.stage = Stage::Failed;
                    Action::Fail(InfoError::Connection(cause))
                },
                _ => Action::Idle,
            },
            Stage::Fetching => match ev {
                Event::FetchFailed(cause) => {
                    self.stage = Stage::Failed;
                    Action::Fail(InfoError::Fetch(cause))
                },
                Event::Fetched(None) => {
                    self.stage = Stage::Failed;
                    Action::Fail(self.command.absence_error())
                },
                Event::Fetched(Some(info)) => {
                    match self.command.output_type() {
                        OutputType::Json => match InfoCommand::serialize_json(info) {
                            Ok(text) => {
                                self.stage = Stage::Done;
                                let mut lines: Vec<String> = Vec::new();
                                lines.push(text);
                                Action::Emit(lines)
                            },
                            Err(e) => {
                                self.stage = Stage::Failed;
                                Action::Fail(e)
                            },
                        },
                        OutputType::HumanReadable => {
                            self.stage = Stage::Done;
                            Action::Emit(InfoCommand::basic_display_format_contract_info(info))
                        },
                    }
                },
                _ => Action::Idle,
            },
            _ => Action::Idle,
        }
    }
}

} // verus!
