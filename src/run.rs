use vstd::prelude::*;
use vstd::utf8::encode_utf8;

use crate::decimal::{decimal_i32, parse_i32};
use crate::error::ApiFailure;
use crate::session::{DnsRecordSpec, RecordType};

verus! {

/// Exit code of a run that did what it was asked.
pub const EXIT_OK: u8 = 0;

/// Exit code of a creation that the service refused.
pub const EXIT_CREATE_REFUSED: u8 = 1;

/// Exit code of a creation that failed otherwise.
pub const EXIT_CREATE_FAILED: u8 = 2;

/// Exit code of a deletion that the service refused.
pub const EXIT_DELETE_REFUSED: u8 = 3;

/// Exit code of a deletion that failed otherwise.
pub const EXIT_DELETE_FAILED: u8 = 4;

/// The subcommand given on the command line.
#[derive(Debug)]
pub enum Command {
    /// Create a TXT record `hostname` under `domain` holding `value`.
    Create { domain: String, hostname: String, value: String },
    /// Delete the record with this number, as written.
    Delete { id: String },
}

/// The command line: a subcommand, the credentials and the debug switch.
#[derive(Debug)]
pub struct Cli {
    pub command: Command,
    pub debug: bool,
    pub username: String,
    pub password: String,
}

/// The record operation of a run.
#[derive(Debug)]
pub enum Job {
    Create(DnsRecordSpec),
    Delete(i32),
}

/// Where a run stands.
#[derive(Debug, Clone, Copy, PartialEq, Eq, Structural)]
pub enum Phase {
    /// The login is to be sent.
    Login,
    /// The record operation is to be sent.
    Operate,
    /// The logout is to be sent.
    Logout,
    /// Nothing is left to send.
    Done,
}

/// What the caller performs next.
#[derive(Debug, Clone, Copy, PartialEq, Eq, Structural)]
pub enum Action {
    Login,
    Operate,
    Logout,
    Exit(u8),
}

/// The outcome of the step that the caller performed.
#[derive(Debug)]
pub enum Event {
    LoggedIn(Result<(), ApiFailure>),
    Created(Result<i32, ApiFailure>),
    Deleted(Result<(), ApiFailure>),
    LoggedOut(Result<(), ApiFailure>),
}

/// The exit code of a failure: the refusal code when the service refused,
/// the other failure code otherwise, each for the kind of job.
pub open spec fn failure_code(create: bool, f: ApiFailure) -> u8 {
    match (create, f) {
        (true, ApiFailure::CallError(_, _)) => EXIT_CREATE_REFUSED,
        (true, _) => EXIT_CREATE_FAILED,
        (false, ApiFailure::CallError(_, _)) => EXIT_DELETE_REFUSED,
        (false, _) => EXIT_DELETE_FAILED,
    }
}

/// The exit code of the outcome of a record operation.
pub open spec fn outcome_code<T>(create: bool, r: Result<T, ApiFailure>) -> u8 {
    match r {
        Ok(_) => EXIT_OK,
        Err(f) => failure_code(create, f),
    }
}

fn exit_code_of(create: bool, f: &ApiFailure) -> (r: u8)
    ensures
        r == failure_code(create, *f),
{
    let refused = f.is_call_error();
    if create {
        if refused {
            EXIT_CREATE_REFUSED
        } else {
            EXIT_CREATE_FAILED
        }
    } else if refused {
        EXIT_DELETE_REFUSED
    } else {
        EXIT_DELETE_FAILED
    }
}

/// The phase and exit code that an event moves a run to, from `phase` and
/// `code`, for a run whose job creates a record when `create` holds.
/// An event that the phase does not wait for changes nothing.
pub open spec fn next_state(create: bool, phase: Phase, code: u8, e: Event) -> (Phase, u8) {
    match (phase, e) {
        (Phase::Login, Event::LoggedIn(Ok(_))) => (Phase::Operate, code),
        (Phase::Login, Event::LoggedIn(Err(f))) => (Phase::Done, failure_code(create, f)),
        (Phase::Operate, Event::Created(r)) => if create {
            (Phase::Logout, outcome_code(true, r))
        } else {
            (phase, code)
        },
        (Phase::Operate, Event::Deleted(r)) => if !create {
            (Phase::Logout, outcome_code(false, r))
        } else {
            (phase, code)
        },
        (Phase::Logout, Event::LoggedOut(_)) => (Phase::Done, code),
        _ => (phase, code),
    }
}

/// One run of the tool: log in, perform one record operation, log out
/// whatever its outcome, and exit with a code that tells the outcomes apart.
#[derive(Debug)]
pub struct Run {
    job: Job,
    phase: Phase,
    code: u8,
}

impl Run {
    pub closed spec fn phase_spec(&self) -> Phase {
        self.phase
    }

    pub closed spec fn code_spec(&self) -> u8 {
        self.code
    }

    pub closed spec fn job_spec(&self) -> Job {
        self.job
    }

    pub open spec fn creates(&self) -> bool {
        self.job_spec() is Create
    }

    /// A run that has sent nothing yet.
    pub fn new(job: Job) -> (r: Run)
        ensures
            r.job_spec() == job,
            r.phase_spec() == Phase::Login,
            r.code_spec() == EXIT_OK,
    {
        Run { job, phase: Phase::Login, code: EXIT_OK }
    }

    /// The record operation of this run.
    pub fn job(&self) -> (r: &Job)
        ensures
            *r == self.job_spec(),
    {
        &self.job
    }

    /// Where the run stands.
    pub fn phase(&self) -> (r: Phase)
        ensures
            r == self.phase_spec(),
    {
        self.phase
    }

    /// What the caller performs next: the step of the phase, or the exit
    /// with the run's code once nothing is left to send.
    pub fn action(&self) -> (r: Action)
        ensures
            r == match self.phase_spec() {
                Phase::Login => Action::Login,
                Phase::Operate => Action::Operate,
                Phase::Logout => Action::Logout,
                Phase::Done => Action::Exit(self.code_spec()),
            },
    {
        match self.phase {
            Phase::Login => Action::Login,
            Phase::Operate => Action::Operate,
            Phase::Logout => Action::Logout,
            Phase::Done => Action::Exit(self.code),
        }
    }

    /// Takes the outcome of the step that the caller performed.
    pub fn on_event(&mut self, e: Event)
        ensures
            final(self).job_spec() == old(self).job_spec(),
            (final(self).phase_spec(), final(self).code_spec()) == next_state(
                old(self).creates(),
                old(self).phase_spec(),
                old(self).code_spec(),
                e,
            ),
    {
        let create = match &self.job {
            Job::Create(_) => true,
            Job::Delete(_) => false,
        };
        match (self.phase, e) {
            (Phase::Login, Event::LoggedIn(Ok(_))) => {
                self.phase = Phase::Operate;
            },
            (Phase::Login, Event::LoggedIn(Err(f))) => {
                self.code = exit_code_of(create, &f);
                self.phase = Phase::Done;
            },
            (Phase::Operate, Event::Created(r)) => {
                if create {
                    self.code = match &r {
                        Ok(_) => EXIT_OK,
                        Err(f) => exit_code_of(true, f),
                    };
                    self.phase = Phase::Logout;
                }
            },
            (Phase::Operate, Event::Deleted(r)) => {
                if !create {
                    self.code = match &r {
                        Ok(_) => EXIT_OK,
                        Err(f) => exit_code_of(false, f),
                    };
                    self.phase = Phase::Logout;
                }
            },
            (Phase::Logout, Event::LoggedOut(_)) => {
                self.phase = Phase::Done;
            },
            _ => {},
        }
    }
}

/// A run reaches its record operation only through a successful login:
/// from the login phase, every other event leaves the operation unsent.
pub proof fn lemma_operate_needs_login(create: bool, code: u8, e: Event)
    ensures
        next_state(create, Phase::Login, code, e).0 == Phase::Operate <==> (e matches Event::LoggedIn(
            Ok(_),
        )),
        e matches Event::LoggedIn(Err(_)) ==> next_state(create, Phase::Login, code, e).0
            == Phase::Done,
{
}

/// Once the record operation has been reported, the logout is sent
/// whatever its outcome, and the logout's own outcome leaves the exit code
/// as the operation set it.
pub proof fn lemma_logout_follows_operation(create: bool, code: u8, e: Event, o: Result<(), ApiFailure>)
    requires
        (create && e is Created) || (!create && e is Deleted),
    ensures
        next_state(create, Phase::Operate, code, e).0 == Phase::Logout,
        next_state(create, Phase::Logout, code, Event::LoggedOut(o)) == (Phase::Done, code),
{
}

/// The exit code tells a refusal by the service apart from every other
/// failure, and both from success.
pub proof fn lemma_exit_code_kinds(create: bool, f: ApiFailure)
    ensures
        (f is CallError) <==> failure_code(create, f) == (if create {
            EXIT_CREATE_REFUSED
        } else {
            EXIT_DELETE_REFUSED
        }),
        failure_code(create, f) != EXIT_OK,
{
}

/// The record that a `create` command asks for: a TXT record.
pub open spec fn requested_record(domain: Seq<char>, hostname: Seq<char>, value: Seq<char>, r: DnsRecordSpec) -> bool {
    &&& r.domain@ == domain
    &&& r.name@ == hostname
    &&& r.content@ == value
    &&& r.typ == RecordType::TXT
}

/// Turns the command line into a run. A `delete` whose number is not a
/// 32-bit decimal integer ends at once, before any login, with the code of a
/// failed deletion.
pub fn parse_args(args: &Cli) -> (r: Run)
    ensures
        match args.command {
            Command::Create { domain, hostname, value } => {
                &&& r.phase_spec() == Phase::Login
                &&& r.code_spec() == EXIT_OK
                &&& r.job_spec() matches Job::Create(spec)
                &&& requested_record(domain@, hostname@, value@, spec)
            },
            Command::Delete { id } => match decimal_i32(encode_utf8(id@)) {
                Some(n) => {
                    &&& r.phase_spec() == Phase::Login
                    &&& r.code_spec() == EXIT_OK
                    &&& r.job_spec() == Job::Delete(n)
                },
                None => {
                    &&& r.phase_spec() == Phase::Done
                    &&& r.code_spec() == EXIT_DELETE_FAILED
                },
            },
        },
{
    match &args.command {
        Command::Create { domain, hostname, value } => Run::new(
            Job::Create(
                DnsRecordSpec {
                    domain: domain.clone(),
                    typ: RecordType::TXT,
                    name: hostname.clone(),
                    content: value.clone(),
                },
            ),
        ),
        Command::Delete { id } => match parse_i32(id.as_str()) {
            Some(n) => Run::new(Job::Delete(n)),
            None => Run { job: Job::Delete(0), phase: Phase::Done, code: EXIT_DELETE_FAILED },
        },
    }
}

} // verus!
