//! Starting the watchers: every mailbox is tried on one session before any
//! of them gets a watcher.

use vstd::prelude::*;
use vstd::string::*;
use crate::text::texts;
use crate::watcher::{reply_model, Reply, ReplyModel};

verus! {

/// Why the watchers were not started, or not waited for.
#[derive(Debug, PartialEq, Eq)]
pub enum SuperviseError {
    /// The session for trying the mailboxes could not be opened.
    Connection(String),
    /// A mailbox could not be selected.
    Selection { mailbox: String, reason: String },
    /// The session for trying the mailboxes could not be closed.
    Logout(String),
}

/// Mathematical content of a [`SuperviseError`].
pub enum SuperviseFailure {
    Connection(Seq<char>),
    Selection { mailbox: Seq<char>, reason: Seq<char> },
    Logout(Seq<char>),
}

impl View for SuperviseError {
    type V = SuperviseFailure;

    open spec fn view(&self) -> SuperviseFailure {
        match self {
            SuperviseError::Connection(reason) => SuperviseFailure::Connection(reason@),
            SuperviseError::Selection { mailbox, reason } => SuperviseFailure::Selection {
                mailbox: mailbox@,
                reason: reason@,
            },
            SuperviseError::Logout(reason) => SuperviseFailure::Logout(reason@),
        }
    }
}

/// The content of the end that the supervisor came to.
pub open spec fn supervised_model(outcome: Result<(), SuperviseError>) -> Result<
    (),
    SuperviseFailure,
> {
    match outcome {
        Ok(_) => Ok(()),
        Err(error) => Err(error@),
    }
}

/// Where the supervisor stands.
#[derive(Debug, PartialEq, Eq)]
pub enum SupervisorPhase {
    /// It asks for the session on which the mailboxes are tried.
    Connecting,
    /// It asks for the mailbox at `next` to be selected. Those before it
    /// were selected.
    Validating { next: usize },
    /// It asks for one watcher for each mailbox.
    Launching,
    /// It asks for its session to be closed.
    Closing,
    /// It asks to be told when every watcher has ended.
    Waiting,
    /// It is done.
    Finished { outcome: Result<(), SuperviseError> },
}

/// Mathematical content of a [`SupervisorPhase`].
pub enum SupervisorPhaseModel {
    Connecting,
    Validating { next: nat },
    Launching,
    Closing,
    Waiting,
    Finished { outcome: Result<(), SuperviseFailure> },
}

impl View for SupervisorPhase {
    type V = SupervisorPhaseModel;

    open spec fn view(&self) -> SupervisorPhaseModel {
        match self {
            SupervisorPhase::Connecting => SupervisorPhaseModel::Connecting,
            SupervisorPhase::Validating { next } => SupervisorPhaseModel::Validating {
                next: *next as nat,
            },
            SupervisorPhase::Launching => SupervisorPhaseModel::Launching,
            SupervisorPhase::Closing => SupervisorPhaseModel::Closing,
            SupervisorPhase::Waiting => SupervisorPhaseModel::Waiting,
            SupervisorPhase::Finished { outcome } => SupervisorPhaseModel::Finished {
                outcome: supervised_model(*outcome),
            },
        }
    }
}

/// What the supervisor asks of whoever drives it.
#[derive(Debug, PartialEq, Eq)]
pub enum SupervisorRequest {
    /// Open a session: connect to the server and log in.
    Connect,
    /// Select the mailbox, read-only.
    Select { mailbox: String },
    /// Start a watcher for each of the mailboxes, all at once.
    Launch { mailboxes: Vec<String> },
    /// Log out.
    Logout,
    /// Wait for every watcher to end.
    Join,
    /// Nothing more.
    Stop { outcome: Result<(), SuperviseError> },
}

/// Mathematical content of a [`SupervisorRequest`].
pub enum SupervisorRequestModel {
    Connect,
    Select { mailbox: Seq<char> },
    Launch { mailboxes: Seq<Seq<char>> },
    Logout,
    Join,
    Stop { outcome: Result<(), SuperviseFailure> },
}

impl View for SupervisorRequest {
    type V = SupervisorRequestModel;

    open spec fn view(&self) -> SupervisorRequestModel {
        match self {
            SupervisorRequest::Connect => SupervisorRequestModel::Connect,
            SupervisorRequest::Select { mailbox } => SupervisorRequestModel::Select {
                mailbox: mailbox@,
            },
            SupervisorRequest::Launch { mailboxes } => SupervisorRequestModel::Launch {
                mailboxes: texts(mailboxes@),
            },
            SupervisorRequest::Logout => SupervisorRequestModel::Logout,
            SupervisorRequest::Join => SupervisorRequestModel::Join,
            SupervisorRequest::Stop { outcome } => SupervisorRequestModel::Stop {
                outcome: supervised_model(*outcome),
            },
        }
    }
}

/// How a request of the supervisor came out.
#[derive(Debug, PartialEq, Eq)]
pub enum SupervisorEvent {
    Connect(Reply),
    Select(Reply),
    /// The watchers are running.
    Launched,
    Logout(Reply),
    /// Every watcher has ended.
    Joined,
}

/// Mathematical content of a [`SupervisorEvent`].
pub enum SupervisorEventModel {
    Connect(ReplyModel),
    Select(ReplyModel),
    Launched,
    Logout(ReplyModel),
    Joined,
}

impl View for SupervisorEvent {
    type V = SupervisorEventModel;

    open spec fn view(&self) -> SupervisorEventModel {
        match self {
            SupervisorEvent::Connect(reply) => SupervisorEventModel::Connect(reply_model(*reply)),
            SupervisorEvent::Select(reply) => SupervisorEventModel::Select(reply_model(*reply)),
            SupervisorEvent::Launched => SupervisorEventModel::Launched,
            SupervisorEvent::Logout(reply) => SupervisorEventModel::Logout(reply_model(*reply)),
            SupervisorEvent::Joined => SupervisorEventModel::Joined,
        }
    }
}

/// The supervisor of the watchers of a list of mailboxes.
#[derive(Debug)]
pub struct Supervisor {
    mailboxes: Vec<String>,
    phase: SupervisorPhase,
}

/// Mathematical content of a [`Supervisor`].
pub struct SupervisorModel {
    pub mailboxes: Seq<Seq<char>>,
    pub phase: SupervisorPhaseModel,
}

impl View for Supervisor {
    type V = SupervisorModel;

    closed spec fn view(&self) -> SupervisorModel {
        SupervisorModel { mailboxes: texts(self.mailboxes@), phase: self.phase@ }
    }
}

/// A supervisor before its first request.
pub open spec fn boot(mailboxes: Seq<Seq<char>>) -> SupervisorModel {
    SupervisorModel { mailboxes, phase: SupervisorPhaseModel::Connecting }
}

/// Whether the mailbox that is being tried is one of the list.
pub open spec fn sound(supervisor: SupervisorModel) -> bool {
    supervisor.phase matches SupervisorPhaseModel::Validating { next } ==> next
        < supervisor.mailboxes.len()
}

/// The phase once the first `tried` mailboxes were selected: the next
/// mailbox is tried, or the watchers are started where none is left.
pub open spec fn tried_until(mailboxes: Seq<Seq<char>>, tried: nat) -> SupervisorPhaseModel {
    if tried < mailboxes.len() {
        SupervisorPhaseModel::Validating { next: tried }
    } else {
        SupervisorPhaseModel::Launching
    }
}

/// Whether `event` is the outcome of the request that the supervisor has
/// in `phase`.
pub open spec fn supervisor_answers(phase: SupervisorPhaseModel, event: SupervisorEventModel) -> bool {
    match phase {
        SupervisorPhaseModel::Connecting => event is Connect,
        SupervisorPhaseModel::Validating { .. } => event is Select,
        SupervisorPhaseModel::Launching => event is Launched,
        SupervisorPhaseModel::Closing => event is Logout,
        SupervisorPhaseModel::Waiting => event is Joined,
        SupervisorPhaseModel::Finished { .. } => false,
    }
}

/// The supervisor after `event`.
///
/// - Connecting: with a session the mailboxes are tried, from the first.
///   Without one the supervisor is done, in error.
/// - Validating: a mailbox that can be selected leads to the next, the
///   last one to the start of the watchers. One that cannot ends the
///   supervisor, in error.
/// - Launching: once the watchers run, the session is closed.
/// - Closing: after the logout the supervisor waits for the watchers; a
///   failed logout ends it, in error.
/// - Waiting: when every watcher has ended, the supervisor is done.
///
/// An event that does not answer the request of the phase changes
/// nothing.
pub open spec fn supervise(
    supervisor: SupervisorModel,
    event: SupervisorEventModel,
) -> SupervisorModel {
    let mailboxes = supervisor.mailboxes;
    SupervisorModel {
        mailboxes,
        phase: match supervisor.phase {
            SupervisorPhaseModel::Connecting => match event {
                SupervisorEventModel::Connect(Ok(_)) => tried_until(mailboxes, 0),
                SupervisorEventModel::Connect(Err(reason)) => SupervisorPhaseModel::Finished {
                    outcome: Err(SuperviseFailure::Connection(reason)),
                },
                _ => supervisor.phase,
            },
            SupervisorPhaseModel::Validating { next } => if next < mailboxes.len() {
                match event {
                    SupervisorEventModel::Select(Ok(_)) => tried_until(mailboxes, next + 1),
                    SupervisorEventModel::Select(Err(reason)) => SupervisorPhaseModel::Finished {
                        outcome: Err(
                            SuperviseFailure::Selection { mailbox: mailboxes[next as int], reason },
                        ),
                    },
                    _ => supervisor.phase,
                }
            } else {
                supervisor.phase
            },
            SupervisorPhaseModel::Launching => match event {
                SupervisorEventModel::Launched => SupervisorPhaseModel::Closing,
                _ => supervisor.phase,
            },
            SupervisorPhaseModel::Closing => match event {
                SupervisorEventModel::Logout(Ok(_)) => SupervisorPhaseModel::Waiting,
                SupervisorEventModel::Logout(Err(reason)) => SupervisorPhaseModel::Finished {
                    outcome: Err(SuperviseFailure::Logout(reason)),
                },
                _ => supervisor.phase,
            },
            SupervisorPhaseModel::Waiting => match event {
                SupervisorEventModel::Joined => SupervisorPhaseModel::Finished { outcome: Ok(()) },
                _ => supervisor.phase,
            },
            SupervisorPhaseModel::Finished { .. } => supervisor.phase,
        },
    }
}

/// The supervisor after a sequence of events.
pub open spec fn supervise_all(
    supervisor: SupervisorModel,
    events: Seq<SupervisorEventModel>,
) -> SupervisorModel
    decreases events.len(),
{
    if events.len() == 0 {
        supervisor
    } else {
        supervise(supervise_all(supervisor, events.drop_last()), events.last())
    }
}

/// The request that the supervisor has.
pub open spec fn supervisor_request_of(supervisor: SupervisorModel) -> SupervisorRequestModel
    recommends
        sound(supervisor),
{
    match supervisor.phase {
        SupervisorPhaseModel::Connecting => SupervisorRequestModel::Connect,
        SupervisorPhaseModel::Validating { next } => SupervisorRequestModel::Select {
            mailbox: supervisor.mailboxes[next as int],
        },
        SupervisorPhaseModel::Launching => SupervisorRequestModel::Launch {
            mailboxes: supervisor.mailboxes,
        },
        SupervisorPhaseModel::Closing => SupervisorRequestModel::Logout,
        SupervisorPhaseModel::Waiting => SupervisorRequestModel::Join,
        SupervisorPhaseModel::Finished { outcome } => SupervisorRequestModel::Stop { outcome },
    }
}

/// The status with which the program ends: 0 in good order, 1 after an
/// error.
pub open spec fn exit_code_of<E>(outcome: Result<(), E>) -> i32 {
    match outcome {
        Ok(_) => 0,
        Err(_) => 1,
    }
}

/// The report of an error: what the server or the transport said and,
/// for a mailbox that could not be selected, a space and its name.
pub open spec fn supervise_message(failure: SuperviseFailure) -> Seq<char> {
    match failure {
        SuperviseFailure::Connection(reason) => reason,
        SuperviseFailure::Selection { mailbox, reason } => reason + seq![' '] + mailbox,
        SuperviseFailure::Logout(reason) => reason,
    }
}

/// The status with which the program ends.
pub fn exit_code<E>(outcome: &Result<(), E>) -> (code: i32)
    ensures
        code == exit_code_of(*outcome),
{
    match outcome {
        Ok(_) => 0,
        Err(_) => 1,
    }
}

fn copy_of(strings: &Vec<String>) -> (copy: Vec<String>)
    ensures
        texts(copy@) == texts(strings@),
        copy@.len() == strings@.len(),
{
    let mut copy: Vec<String> = Vec::new();
    let mut i: usize = 0;
    while i < strings.len()
        invariant
            i <= strings@.len(),
            copy@.len() == i,
            forall|j: int| 0 <= j < i ==> copy@[j]@ == strings@[j]@,
        decreases strings@.len() - i,
    {
        copy.push(strings[i].clone());
        i = i + 1;
    }
    assert(texts(copy@) =~= texts(strings@));
    copy
}

impl Clone for SuperviseError {
    fn clone(&self) -> (copy: SuperviseError)
        ensures
            copy@ == self@,
    {
        match self {
            SuperviseError::Connection(reason) => SuperviseError::Connection(reason.clone()),
            SuperviseError::Selection { mailbox, reason } => SuperviseError::Selection {
                mailbox: mailbox.clone(),
                reason: reason.clone(),
            },
            SuperviseError::Logout(reason) => SuperviseError::Logout(reason.clone()),
        }
    }
}

impl SuperviseError {
    /// The report of the error.
    pub fn message(&self) -> (text: String)
        ensures
            text@ == supervise_message(self@),
    {
        match self {
            SuperviseError::Connection(reason) => reason.clone(),
            SuperviseError::Selection { mailbox, reason } => {
                let mut text = reason.clone();
                proof {
                    reveal_strlit(" ");
                    assert(" "@ == seq![' ']);
                }
                text.append(" ");
                text.append(mailbox.as_str());
                text
            },
            SuperviseError::Logout(reason) => reason.clone(),
        }
    }
}

impl Supervisor {
    #[verifier::type_invariant]
    spec fn tries_a_listed_mailbox(self) -> bool {
        self.phase matches SupervisorPhase::Validating { next } ==> next < self.mailboxes@.len()
    }

    /// A supervisor for the watchers of `mailboxes`, before its first
    /// request.
    pub fn new(mailboxes: Vec<String>) -> (supervisor: Supervisor)
        ensures
            supervisor@ == boot(texts(mailboxes@)),
    {
        Supervisor { mailboxes, phase: SupervisorPhase::Connecting }
    }

    /// What the supervisor asks for.
    pub fn request(&self) -> (request: SupervisorRequest)
        ensures
            sound(self@),
            request@ == supervisor_request_of(self@),
    {
        proof {
            use_type_invariant(self);
        }
        match &self.phase {
            SupervisorPhase::Connecting => SupervisorRequest::Connect,
            SupervisorPhase::Validating { next } => SupervisorRequest::Select {
                mailbox: self.mailboxes[*next].clone(),
            },
            SupervisorPhase::Launching => SupervisorRequest::Launch {
                mailboxes: copy_of(&self.mailboxes),
            },
            SupervisorPhase::Closing => SupervisorRequest::Logout,
            SupervisorPhase::Waiting => SupervisorRequest::Join,
            SupervisorPhase::Finished { outcome } => SupervisorRequest::Stop {
                outcome: match outcome {
                    Ok(_) => Ok(()),
                    Err(error) => Err(error.clone()),
                },
            },
        }
    }

    /// Whether the supervisor is done.
    pub fn is_finished(&self) -> (done: bool)
        ensures
            done == (self@.phase is Finished),
    {
        matches!(self.phase, SupervisorPhase::Finished { .. })
    }

    /// Whether `event` is the outcome of the supervisor's request. Any
    /// other event leaves the supervisor as it is.
    pub fn awaits(&self, event: &SupervisorEvent) -> (fits: bool)
        ensures
            fits == supervisor_answers(self@.phase, event@),
    {
        match &self.phase {
            SupervisorPhase::Connecting => matches!(event, SupervisorEvent::Connect(_)),
            SupervisorPhase::Validating { .. } => matches!(event, SupervisorEvent::Select(_)),
            SupervisorPhase::Launching => matches!(event, SupervisorEvent::Launched),
            SupervisorPhase::Closing => matches!(event, SupervisorEvent::Logout(_)),
            SupervisorPhase::Waiting => matches!(event, SupervisorEvent::Joined),
            SupervisorPhase::Finished { .. } => false,
        }
    }
}

fn try_from(mailboxes: &Vec<String>, tried: usize) -> (phase: SupervisorPhase)
    ensures
        phase@ == tried_until(texts(mailboxes@), tried as nat),
        phase matches SupervisorPhase::Validating { next } ==> next < mailboxes@.len(),
{
    if tried < mailboxes.len() {
        SupervisorPhase::Validating { next: tried }
    } else {
        SupervisorPhase::Launching
    }
}

/// Moves the supervisor on by one event: the outcome of what it asked
/// for last.
///
/// The supervisor opens one session and has every mailbox selected on it,
/// in the order of the list. The first mailbox that cannot be selected
/// ends the run, before any watcher exists. When all could be selected,
/// the watchers are started, the session is closed, and the supervisor
/// waits for the watchers to end.
pub fn do_imap(supervisor: Supervisor, event: SupervisorEvent) -> (next: Supervisor)
    ensures
        sound(supervisor@),
        next@ == supervise(supervisor@, event@),
{
    proof {
        use_type_invariant(&supervisor);
    }
    let Supervisor { mailboxes, phase } = supervisor;
    let count: usize = mailboxes.len();
    let phase = match phase {
        SupervisorPhase::Connecting => match event {
            SupervisorEvent::Connect(Ok(_)) => try_from(&mailboxes, 0),
            SupervisorEvent::Connect(Err(reason)) => SupervisorPhase::Finished {
                outcome: Err(SuperviseError::Connection(reason)),
            },
            _ => SupervisorPhase::Connecting,
        },
        SupervisorPhase::Validating { next } => match event {
            SupervisorEvent::Select(Ok(_)) => {
                assert(next < count);
                try_from(&mailboxes, next + 1)
            },
            SupervisorEvent::Select(Err(reason)) => SupervisorPhase::Finished {
                outcome: Err(
                    SuperviseError::Selection { mailbox: mailboxes[next].clone(), reason },
                ),
            },
            _ => SupervisorPhase::Validating { next },
        },
        SupervisorPhase::Launching => match event {
            SupervisorEvent::Launched => SupervisorPhase::Closing,
            _ => SupervisorPhase::Launching,
        },
        SupervisorPhase::Closing => match event {
            SupervisorEvent::Logout(Ok(_)) => SupervisorPhase::Waiting,
            SupervisorEvent::Logout(Err(reason)) => SupervisorPhase::Finished {
                outcome: Err(SuperviseError::Logout(reason)),
            },
            _ => SupervisorPhase::Closing,
        },
        SupervisorPhase::Waiting => match event {
            SupervisorEvent::Joined => SupervisorPhase::Finished { outcome: Ok(()) },
            _ => SupervisorPhase::Waiting,
        },
        SupervisorPhase::Finished { outcome } => SupervisorPhase::Finished { outcome },
    };
    Supervisor { mailboxes, phase }
}

/// How often the supervisor comes to ask for the watchers to be started
/// in the course of `events`.
pub open spec fn launches(supervisor: SupervisorModel, events: Seq<SupervisorEventModel>) -> nat
    decreases events.len(),
{
    if events.len() == 0 {
        0
    } else {
        let before = supervise_all(supervisor, events.drop_last());
        let after = supervise(before, events.last());
        let entered: nat = if after.phase is Launching && !(before.phase is Launching) {
            1
        } else {
            0
        };
        launches(supervisor, events.drop_last()) + entered
    }
}

/// How many mailboxes were found selectable in the course of `events`.
pub open spec fn selected(supervisor: SupervisorModel, events: Seq<SupervisorEventModel>) -> nat
    decreases events.len(),
{
    if events.len() == 0 {
        0
    } else {
        let before = supervise_all(supervisor, events.drop_last());
        let passed: nat = if sound(before) && before.phase is Validating && events.last() matches SupervisorEventModel::Select(
            Ok(_),
        ) {
            1
        } else {
            0
        };
        selected(supervisor, events.drop_last()) + passed
    }
}

/// Whether the supervisor has come as far as starting the watchers.
pub open spec fn has_launched(phase: SupervisorPhaseModel) -> bool {
    match phase {
        SupervisorPhaseModel::Connecting => false,
        SupervisorPhaseModel::Validating { .. } => false,
        SupervisorPhaseModel::Finished { outcome: Err(SuperviseFailure::Connection(_)) } => false,
        SupervisorPhaseModel::Finished { outcome: Err(SuperviseFailure::Selection { .. }) } => false,
        _ => true,
    }
}

/// No watcher before every mailbox was tried.
///
/// Whatever the outcomes of its requests, the supervisor asks for the
/// watchers at most once, and only after each mailbox of the list was
/// selected on its own session. Where the session cannot be opened or a
/// mailbox cannot be selected, it never asks for them; the error then
/// names the mailbox that stood in the way.
pub proof fn lemma_no_watcher_before_validation(
    mailboxes: Seq<Seq<char>>,
    events: Seq<SupervisorEventModel>,
)
    ensures
        ({
            let reached = supervise_all(boot(mailboxes), events);
            &&& reached.mailboxes == mailboxes
            &&& sound(reached)
            &&& launches(boot(mailboxes), events) == if has_launched(reached.phase) {
                1nat
            } else {
                0nat
            }
            &&& has_launched(reached.phase) ==> selected(boot(mailboxes), events) == mailboxes.len()
            &&& reached.phase is Connecting ==> selected(boot(mailboxes), events) == 0
            &&& reached.phase matches SupervisorPhaseModel::Validating { next } ==> selected(
                boot(mailboxes),
                events,
            ) == next
            &&& reached.phase matches SupervisorPhaseModel::Finished {
                outcome: Err(SuperviseFailure::Selection { mailbox, .. }),
            } ==> selected(boot(mailboxes), events) < mailboxes.len() && mailbox
                == mailboxes[selected(boot(mailboxes), events) as int]
        }),
    decreases events.len(),
{
    if events.len() > 0 {
        lemma_no_watcher_before_validation(mailboxes, events.drop_last());
    }
}

} // verus!
