//! The privileged helper's protocol engine: a state machine from events
//! (what the device, the input stream and the decoder reported) to the next
//! action. The process around it performs each action and reports back.
//!
//! Every command is answered by exactly one response line; a caller that
//! wants the status after a write asks for it with its own request. An
//! unsolicited status is sent only once, right after the interface opened.

use vstd::prelude::*;

use crate::ec::{
    lemma_mode_names_distinct, boost_byte, describes, fan_speed_plan, get_status, mode_register, set_cooler_boost,
    set_fan_mode, set_fan_speed_fixed, too_small_message, EcWrite, FanMode, MIN_SNAPSHOT_LEN,
    REG_COOLER_BOOST,
};
use crate::protocol::{Command, Response};
use crate::text::{decimal, push_decimal};

verus! {

/// How the EC interface was opened.
#[derive(Clone, Copy, Debug, PartialEq, Eq, Structural)]
pub enum Access {
    ReadWrite,
    ReadOnly,
}

/// A command that waits for its snapshot.
#[derive(Clone, Copy, Debug, PartialEq, Eq, Structural)]
pub enum Pending {
    Status,
    CoolerBoost(bool),
    FanSpeed(u8),
    FanMode(FanMode),
}

/// Where a session stands.
#[derive(Debug)]
pub enum Phase {
    /// Waiting to hear whether the interface opened.
    Opening { writable: bool },
    /// Waiting for the snapshot of the unsolicited first status.
    Handshake,
    /// Waiting for an input line.
    Idle,
    /// Waiting for the current line to be decoded.
    Decoding,
    /// Waiting for a snapshot on behalf of a command.
    Reading(Pending),
    /// Making the writes of `plan`; `next` is the one in progress.
    Writing { plan: Vec<EcWrite>, next: usize, done: String },
    /// The session is over.
    Finished,
}

/// The kind of report a session waits for.
#[derive(Clone, Copy, Debug, PartialEq, Eq, Structural)]
pub enum Expect {
    OpenResult,
    Line,
    Command,
    Snapshot,
    WriteResult,
    Nothing,
}

impl Phase {
    pub open spec fn expects(&self) -> Expect {
        match self {
            Phase::Opening { .. } => Expect::OpenResult,
            Phase::Handshake => Expect::Snapshot,
            Phase::Idle => Expect::Line,
            Phase::Decoding => Expect::Command,
            Phase::Reading(_) => Expect::Snapshot,
            Phase::Writing { plan, next, .. } => if *next < plan@.len() {
                Expect::WriteResult
            } else {
                Expect::Nothing
            },
            Phase::Finished => Expect::Nothing,
        }
    }
}

/// What the process around the session does next.
#[derive(Debug)]
pub enum Action {
    /// Open the EC interface, for writing too when `writable`; report to `on_opened`.
    Open { writable: bool },
    /// Read a full snapshot of the EC's I/O space; report to `on_snapshot`.
    ReadSnapshot,
    /// Write one byte; report to `on_written`.
    Write(EcWrite),
    /// Decode the line into a command; report to `on_decoded`.
    Decode(String),
    /// Send the response as one line, then read the next line; report to `on_line`.
    Reply(Response),
    /// Read the next line; report to `on_line`.
    ReadLine,
    /// Send `last` when present, then end the process with the given outcome.
    Exit { last: Option<Response>, success: bool },
}

pub open spec fn open_failure_message(e: Seq<char>) -> Seq<char> {
    "Cannot open EC interface: "@ + e
}

pub open spec fn read_only_message() -> Seq<char> {
    "EC interface is read-only: fan and cooler boost writes are unavailable"@
}

pub open spec fn invalid_command_message(detail: Seq<char>) -> Seq<char> {
    "Invalid command: "@ + detail
}

pub open spec fn unknown_mode_message(name: Seq<char>) -> Seq<char> {
    "Unknown mode: "@ + name
}

pub open spec fn read_failure_message(e: Seq<char>) -> Seq<char> {
    "Failed to read EC: "@ + e
}

pub open spec fn boost_message(enabled: bool) -> Seq<char> {
    "Cooler Boost "@ + if enabled {
        "enabled"@
    } else {
        "disabled"@
    }
}

pub open spec fn speed_message(percent: u8) -> Seq<char> {
    "Fan speed set to "@ + decimal(percent as nat) + "%"@
}

pub open spec fn mode_message(name: Seq<char>) -> Seq<char> {
    "Fan mode set to "@ + name
}

/// `a` answers with an error that says `m`.
pub open spec fn replies_error(a: Action, m: Seq<char>) -> bool {
    a matches Action::Reply(Response::Error { message }) && message@ == m
}

/// `a` answers with a success that says `m`.
pub open spec fn replies_ack(a: Action, m: Seq<char>) -> bool {
    a matches Action::Reply(Response::Ack { message }) && message@ == m
}

/// `a` ends the process as a failure after one error that says `m`.
pub open spec fn exits_with_error(a: Action, m: Seq<char>) -> bool {
    a matches Action::Exit { last: Some(Response::Error { message }), success: false } && message@
        == m
}

/// `a` ends the process as a success after a farewell.
pub open spec fn says_goodbye(a: Action) -> bool {
    a matches Action::Exit { last: Some(Response::Ack { message }), success: true } && message@
        == "Goodbye"@
}

/// The session starts the writes of `plan`, to answer `done` once all are made.
pub open spec fn starts_writing(p: Phase, a: Action, plan: Seq<EcWrite>, done: Seq<char>) -> bool {
    &&& p matches Phase::Writing { plan: pl, next, done: d } && pl@ == plan && next == 0 && d@
        == done
    &&& a == Action::Write(plan[0])
}

fn error_reply(prefix: &str, detail: &str) -> (r: Action)
    ensures
        replies_error(r, prefix@ + detail@),
{
    let mut message = String::from_str(prefix);
    message.append(detail);
    Action::Reply(Response::Error { message })
}

fn read_only_reply() -> (r: Action)
    ensures
        replies_error(r, read_only_message()),
{
    Action::Reply(
        Response::Error {
            message: String::from_str(
                "EC interface is read-only: fan and cooler boost writes are unavailable",
            ),
        },
    )
}

/// One run of the helper, from opening the EC interface to the end of input.
pub struct Session {
    access: Access,
    phase: Phase,
}

impl Session {
    pub closed spec fn access(&self) -> Access {
        self.access
    }

    pub closed spec fn phase(&self) -> Phase {
        self.phase
    }

    /// A new session, which first tries to open the interface for writing.
    pub fn start() -> (r: (Session, Action))
        ensures
            r.0.phase() == (Phase::Opening { writable: true }),
            r.1 == (Action::Open { writable: true }),
    {
        (Session { access: Access::ReadOnly, phase: Phase::Opening { writable: true } }, Action::Open {
            writable: true,
        })
    }

    /// The kind of report the session waits for.
    pub fn expected(&self) -> (r: Expect)
        ensures
            r == self.phase().expects(),
    {
        match &self.phase {
            Phase::Opening { .. } => Expect::OpenResult,
            Phase::Handshake => Expect::Snapshot,
            Phase::Idle => Expect::Line,
            Phase::Decoding => Expect::Command,
            Phase::Reading(_) => Expect::Snapshot,
            Phase::Writing { plan, next, .. } => if *next < plan.len() {
                Expect::WriteResult
            } else {
                Expect::Nothing
            },
            Phase::Finished => Expect::Nothing,
        }
    }

    /// Whether the interface could be opened: read-write first, then
    /// read-only; when neither works the session ends with one error.
    pub fn on_opened(&mut self, result: Result<(), String>) -> (a: Action)
        requires
            old(self).phase().expects() == Expect::OpenResult,
        ensures
            result is Ok ==> final(self).phase() == Phase::Handshake && a == Action::ReadSnapshot
                && final(self).access() == if old(self).phase()->writable {
                Access::ReadWrite
            } else {
                Access::ReadOnly
            },
            result is Err && old(self).phase()->writable ==> final(self).phase() == (Phase::Opening {
                writable: false,
            }) && a == (Action::Open { writable: false }),
            result matches Err(e) ==> (!old(self).phase()->writable ==> (final(self).phase()
                == Phase::Finished && exits_with_error(a, open_failure_message(e@)))),
    {
        let writable = match &self.phase {
            Phase::Opening { writable } => *writable,
            _ => true,
        };
        match result {
            Ok(()) => {
                self.access = if writable {
                    Access::ReadWrite
                } else {
                    Access::ReadOnly
                };
                self.phase = Phase::Handshake;
                Action::ReadSnapshot
            },
            Err(e) => {
                if writable {
                    self.phase = Phase::Opening { writable: false };
                    Action::Open { writable: false }
                } else {
                    self.phase = Phase::Finished;
                    let mut message = String::from_str("Cannot open EC interface: ");
                    message.append(e.as_str());
                    Action::Exit { last: Some(Response::Error { message }), success: false }
                }
            },
        }
    }

    /// One input line, or `None` at the end of input.
    pub fn on_line(&mut self, line: Option<String>) -> (a: Action)
        requires
            old(self).phase().expects() == Expect::Line,
        ensures
            final(self).access() == old(self).access(),
            line is None ==> final(self).phase() == Phase::Finished && a == (Action::Exit {
                last: None,
                success: true,
            }),
            line matches Some(l) ==> (l@.len() == 0 ==> final(self).phase() == Phase::Idle && a
                == Action::ReadLine),
            line matches Some(l) ==> (l@.len() > 0 ==> final(self).phase() == Phase::Decoding && a
                == Action::Decode(l)),
    {
        match line {
            None => {
                self.phase = Phase::Finished;
                Action::Exit { last: None, success: true }
            },
            Some(l) => {
                if l.as_str().is_empty() {
                    self.phase = Phase::Idle;
                    Action::ReadLine
                } else {
                    self.phase = Phase::Decoding;
                    Action::Decode(l)
                }
            },
        }
    }

    fn writable(&self) -> (r: bool)
        ensures
            r == (self.access() == Access::ReadWrite),
    {
        match self.access {
            Access::ReadWrite => true,
            Access::ReadOnly => false,
        }
    }

    /// The decoded command of the current line, or why it could not be
    /// decoded. Bad input answers with an error and the session goes on.
    pub fn on_decoded(&mut self, decoded: Result<Command, String>) -> (a: Action)
        requires
            old(self).phase().expects() == Expect::Command,
        ensures
            final(self).access() == old(self).access(),
            decoded matches Err(d) ==> final(self).phase() == Phase::Idle && replies_error(
                a,
                invalid_command_message(d@),
            ),
            decoded matches Ok(Command::GetStatus) ==> final(self).phase() == Phase::Reading(
                Pending::Status,
            ) && a == Action::ReadSnapshot,
            decoded matches Ok(Command::SetCoolerBoost { enabled }) ==> (if old(self).access()
                == Access::ReadOnly {
                final(self).phase() == Phase::Idle && replies_error(a, read_only_message())
            } else {
                final(self).phase() == Phase::Reading(Pending::CoolerBoost(enabled)) && a
                    == Action::ReadSnapshot
            }),
            decoded matches Ok(Command::SetFanSpeed { percent }) ==> (if old(self).access()
                == Access::ReadOnly {
                final(self).phase() == Phase::Idle && replies_error(a, read_only_message())
            } else {
                final(self).phase() == Phase::Reading(Pending::FanSpeed(percent)) && a
                    == Action::ReadSnapshot
            }),
            decoded matches Ok(Command::SetFanMode { mode }) ==> ((forall|m: FanMode|
                #[trigger] m.spec_name() != mode@) ==> final(self).phase() == Phase::Idle
                && replies_error(a, unknown_mode_message(mode@))),
            decoded matches Ok(Command::SetFanMode { mode }) ==> (forall|m: FanMode|
                #[trigger] m.spec_name() == mode@ ==> (if old(self).access() == Access::ReadOnly {
                    final(self).phase() == Phase::Idle && replies_error(a, read_only_message())
                } else {
                    final(self).phase() == Phase::Reading(Pending::FanMode(m)) && a
                        == Action::ReadSnapshot
                })),
            decoded matches Ok(Command::Exit) ==> final(self).phase() == Phase::Finished
                && says_goodbye(a),
    {
        match decoded {
            Err(d) => {
                self.phase = Phase::Idle;
                error_reply("Invalid command: ", d.as_str())
            },
            Ok(Command::GetStatus) => {
                self.phase = Phase::Reading(Pending::Status);
                Action::ReadSnapshot
            },
            Ok(Command::SetCoolerBoost { enabled }) => {
                if self.writable() {
                    self.phase = Phase::Reading(Pending::CoolerBoost(enabled));
                    Action::ReadSnapshot
                } else {
                    self.phase = Phase::Idle;
                    read_only_reply()
                }
            },
            Ok(Command::SetFanSpeed { percent }) => {
                if self.writable() {
                    self.phase = Phase::Reading(Pending::FanSpeed(percent));
                    Action::ReadSnapshot
                } else {
                    self.phase = Phase::Idle;
                    read_only_reply()
                }
            },
            Ok(Command::SetFanMode { mode }) => {
                match FanMode::from_name(mode.as_str()) {
                    None => {
                        self.phase = Phase::Idle;
                        error_reply("Unknown mode: ", mode.as_str())
                    },
                    Some(m) => {
                        proof {
                            assert forall|m2: FanMode| #[trigger]
                                m2.spec_name() == mode@ implies m2 == m by {
                                lemma_mode_names_distinct(m, m2);
                            }
                        }
                        if self.writable() {
                            self.phase = Phase::Reading(Pending::FanMode(m));
                            Action::ReadSnapshot
                        } else {
                            self.phase = Phase::Idle;
                            read_only_reply()
                        }
                    },
                }
            },
            Ok(Command::Exit) => {
                self.phase = Phase::Finished;
                Action::Exit { last: Some(Response::Ack { message: String::from_str("Goodbye") }), success: true }
            },
        }
    }

    /// The snapshot read for the first status or for the pending command, or
    /// why it could not be read.
    pub fn on_snapshot(&mut self, snapshot: Result<Vec<u8>, String>) -> (a: Action)
        requires
            old(self).phase().expects() == Expect::Snapshot,
        ensures
            final(self).access() == old(self).access(),
            (old(self).phase() is Handshake || old(self).phase() == Phase::Reading(Pending::Status))
                ==> final(self).phase() == Phase::Idle && match snapshot {
                Ok(b) => if b@.len() >= MIN_SNAPSHOT_LEN {
                    a matches Action::Reply(Response::Status(s)) && describes(s, b@)
                } else {
                    replies_error(a, too_small_message(b@.len()))
                },
                Err(e) => replies_error(a, read_failure_message(e@)),
            },
            old(self).phase() is Reading && old(self).phase() != Phase::Reading(Pending::Status)
                ==> (snapshot matches Err(e) ==> final(self).phase() == Phase::Idle
                && replies_error(a, e@)),
            old(self).phase() matches Phase::Reading(Pending::CoolerBoost(enabled)) ==> (
            snapshot matches Ok(b) ==> (if b@.len() > REG_COOLER_BOOST {
                starts_writing(
                    final(self).phase(),
                    a,
                    seq![EcWrite { offset: REG_COOLER_BOOST, value: boost_byte(b@[REG_COOLER_BOOST as int], enabled) }],
                    boost_message(enabled),
                )
            } else {
                final(self).phase() == Phase::Idle && replies_error(
                    a,
                    "Cannot read cooler boost reg"@,
                )
            })),
            old(self).phase() matches Phase::Reading(Pending::FanSpeed(percent)) ==> (
            snapshot matches Ok(b) ==> starts_writing(
                final(self).phase(),
                a,
                fan_speed_plan(b@, percent),
                speed_message(percent),
            )),
            old(self).phase() matches Phase::Reading(Pending::FanMode(m)) ==> (snapshot matches Ok(
                b,
            ) ==> starts_writing(
                final(self).phase(),
                a,
                seq![EcWrite { offset: mode_register(b@), value: m.spec_code() }],
                mode_message(m.spec_name()),
            )),
    {
        let mut phase = Phase::Idle;
        core::mem::swap(&mut self.phase, &mut phase);
        let pending = match phase {
            Phase::Reading(p) => p,
            _ => Pending::Status,
        };
        let buffer = match snapshot {
            Ok(b) => b,
            Err(e) => {
                return match pending {
                    Pending::Status => error_reply("Failed to read EC: ", e.as_str()),
                    _ => Action::Reply(Response::Error { message: e }),
                };
            },
        };
        match pending {
            Pending::Status => match get_status(buffer.as_slice()) {
                Ok(status) => Action::Reply(Response::Status(status)),
                Err(message) => Action::Reply(Response::Error { message }),
            },
            Pending::CoolerBoost(enabled) => match set_cooler_boost(buffer.as_slice(), enabled) {
                Ok(w) => {
                    let mut done = String::from_str("Cooler Boost ");
                    if enabled {
                        done.append("enabled");
                    } else {
                        done.append("disabled");
                    }
                    let plan = vec![w];
                    assert(plan@ =~= seq![w]);
                    assert(done@ =~= boost_message(enabled));
                    self.start_writing(plan, done)
                },
                Err(message) => Action::Reply(Response::Error { message }),
            },
            Pending::FanSpeed(percent) => {
                let plan = set_fan_speed_fixed(buffer.as_slice(), percent);
                let mut done = String::from_str("Fan speed set to ");
                push_decimal(&mut done, percent as u64);
                done.append("%");
                self.start_writing(plan, done)
            },
            Pending::FanMode(m) => {
                let w = set_fan_mode(buffer.as_slice(), m);
                let mut done = String::from_str("Fan mode set to ");
                crate::ec::push_mode_name(&mut done, m);
                let plan = vec![w];
                assert(plan@ =~= seq![w]);
                self.start_writing(plan, done)
            },
        }
    }

    fn start_writing(&mut self, plan: Vec<EcWrite>, done: String) -> (a: Action)
        requires
            plan@.len() > 0,
        ensures
            final(self).access() == old(self).access(),
            starts_writing(final(self).phase(), a, plan@, done@),
    {
        let first = plan[0];
        self.phase = Phase::Writing { plan, next: 0, done };
        Action::Write(first)
    }

    /// The outcome of the write in progress. A failure abandons the rest of
    /// the plan and is answered at once; the last success answers with the
    /// command's confirmation.
    pub fn on_written(&mut self, result: Result<(), String>) -> (a: Action)
        requires
            old(self).phase().expects() == Expect::WriteResult,
        ensures
            final(self).access() == old(self).access(),
            old(self).phase() matches Phase::Writing { plan, next, done } ==> ({
                &&& result matches Err(e) ==> final(self).phase() == Phase::Idle && replies_error(
                    a,
                    e@,
                )
                &&& result is Ok && next + 1 < plan@.len() ==> (final(self).phase() matches Phase::Writing {
                    plan: p2,
                    next: n2,
                    done: d2,
                } && p2@ == plan@ && n2 == next + 1 && d2@ == done@ && a == Action::Write(
                    plan@[next + 1],
                ))
                &&& result is Ok && next + 1 == plan@.len() ==> final(self).phase() == Phase::Idle
                    && replies_ack(a, done@)
            }),
    {
        let mut phase = Phase::Idle;
        core::mem::swap(&mut self.phase, &mut phase);
        match phase {
            Phase::Writing { plan, next, done } => {
                match result {
                    Err(e) => Action::Reply(Response::Error { message: e }),
                    Ok(()) => {
                        let count = plan.len();
                        if next + 1 < count {
                            let w = plan[next + 1];
                            self.phase = Phase::Writing { plan, next: next + 1, done };
                            Action::Write(w)
                        } else {
                            Action::Reply(Response::Ack { message: done })
                        }
                    },
                }
            },
            _ => Action::ReadLine,
        }
    }
}

} // verus!
