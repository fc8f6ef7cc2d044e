//! The operation dispatcher: resolves an operation kind and a container
//! identifier into the concrete runtime actions to perform, and folds each
//! action's result into a single success flag plus a human-readable
//! message.
//!
//! The dispatcher itself performs no call: it hands the caller a
//! [`DispatchStep`], which either asks for one action and says what state
//! to resume from once its result is known, or carries the final outcome.
//! The surrounding application performs the action and feeds the result
//! back through [`resume`]. Every runtime failure is folded into an
//! [`OperationOutcome`]; none escapes as a raised error.

use vstd::prelude::*;

use crate::directory::{ContainerRecord, LookupError, RecordModel, Snapshot, first_match};
use crate::text::{decimal_rep, shell_name, strip_leading_slashes, text_eq};

verus! {

/// The closed set of operation kinds, with an explicit variant for an
/// unrecognized request.
#[derive(Clone, Copy, Debug, PartialEq, Eq, Structural)]
pub enum OpKind {
    Start,
    Stop,
    Restart,
    Delete,
    OpenWeb,
    OpenShell,
    Unknown,
}

/// The operation kind named by `s`; every unrecognized name is `Unknown`.
pub open spec fn kind_of(s: Seq<char>) -> OpKind {
    if s == "start"@ {
        OpKind::Start
    } else if s == "stop"@ {
        OpKind::Stop
    } else if s == "restart"@ {
        OpKind::Restart
    } else if s == "delete"@ {
        OpKind::Delete
    } else if s == "open-web"@ {
        OpKind::OpenWeb
    } else if s == "open-shell"@ {
        OpKind::OpenShell
    } else {
        OpKind::Unknown
    }
}

/// Parses an operation name into its kind.
pub fn parse_op_kind(s: &String) -> (k: OpKind)
    ensures
        k == kind_of(s@),
{
    if text_eq(s, "start") {
        OpKind::Start
    } else if text_eq(s, "stop") {
        OpKind::Stop
    } else if text_eq(s, "restart") {
        OpKind::Restart
    } else if text_eq(s, "delete") {
        OpKind::Delete
    } else if text_eq(s, "open-web") {
        OpKind::OpenWeb
    } else if text_eq(s, "open-shell") {
        OpKind::OpenShell
    } else {
        OpKind::Unknown
    }
}

/// Mathematical view of an operation outcome.
#[verifier::ext_equal]
pub struct OutcomeModel {
    pub success: bool,
    pub message: Seq<char>,
}

/// The single result shape of every operation: a success flag and a short
/// human-readable message. Always produced; never a raised failure.
pub struct OperationOutcome {
    pub success: bool,
    pub message: String,
}

impl View for OperationOutcome {
    type V = OutcomeModel;

    open spec fn view(&self) -> OutcomeModel {
        OutcomeModel { success: self.success, message: self.message@ }
    }
}

/// The three single-call lifecycle operations against the runtime.
#[derive(Clone, Copy, Debug, PartialEq, Eq, Structural)]
pub enum RuntimeCallKind {
    Start,
    Stop,
    Delete,
}

/// Mathematical view of one action the dispatcher asks for.
#[verifier::ext_equal]
pub enum ActionModel {
    Runtime(RuntimeCallKind, Seq<char>),
    OpenUrl(Seq<char>),
    OpenShell(Seq<char>),
}

/// One action the caller is asked to perform: a runtime lifecycle call
/// keyed by a container identifier, opening a URL, or opening an
/// interactive shell for a container name.
pub enum Action {
    Runtime(RuntimeCallKind, String),
    OpenUrl(String),
    OpenShell(String),
}

impl View for Action {
    type V = ActionModel;

    open spec fn view(&self) -> ActionModel {
        match self {
            Action::Runtime(k, id) => ActionModel::Runtime(*k, id@),
            Action::OpenUrl(u) => ActionModel::OpenUrl(u@),
            Action::OpenShell(n) => ActionModel::OpenShell(n@),
        }
    }
}

/// Mathematical view of the state a dispatch waits in.
#[verifier::ext_equal]
pub enum PendingModel {
    Single(RuntimeCallKind),
    RestartStop(Seq<char>),
    RestartStart,
    Url(Seq<char>),
    Shell,
}

/// The state of a dispatch between asking for an action and learning its
/// result: which call is awaited, and what is needed to finish afterwards.
pub enum Pending {
    Single(RuntimeCallKind),
    RestartStop(String),
    RestartStart,
    Url(String),
    Shell,
}

impl View for Pending {
    type V = PendingModel;

    open spec fn view(&self) -> PendingModel {
        match self {
            Pending::Single(k) => PendingModel::Single(*k),
            Pending::RestartStop(id) => PendingModel::RestartStop(id@),
            Pending::RestartStart => PendingModel::RestartStart,
            Pending::Url(u) => PendingModel::Url(u@),
            Pending::Shell => PendingModel::Shell,
        }
    }
}

/// Mathematical view of a dispatch step.
#[verifier::ext_equal]
pub enum StepModel {
    Do(ActionModel, PendingModel),
    Done(OutcomeModel),
}

/// One step of a dispatch: either an action to perform together with the
/// state to resume from, or the final outcome.
pub enum DispatchStep {
    Do(Action, Pending),
    Done(OperationOutcome),
}

impl View for DispatchStep {
    type V = StepModel;

    open spec fn view(&self) -> StepModel {
        match self {
            DispatchStep::Do(a, p) => StepModel::Do(a@, p@),
            DispatchStep::Done(o) => StepModel::Done(o@),
        }
    }
}

/// Mathematical view of one performed call's result.
#[verifier::ext_equal]
pub enum CallOutcomeModel {
    Succeeded,
    Failed(Seq<char>),
}

/// The result the caller hands back after performing an action: success,
/// or failure with the underlying error's description.
pub enum CallOutcome {
    Succeeded,
    Failed(String),
}

impl View for CallOutcome {
    type V = CallOutcomeModel;

    open spec fn view(&self) -> CallOutcomeModel {
        match self {
            CallOutcome::Succeeded => CallOutcomeModel::Succeeded,
            CallOutcome::Failed(e) => CallOutcomeModel::Failed(e@),
        }
    }
}

/// The fixed confirmation message of a successful lifecycle call.
pub open spec fn ok_msg(k: RuntimeCallKind) -> Seq<char> {
    match k {
        RuntimeCallKind::Start => "Container started"@,
        RuntimeCallKind::Stop => "Container stopped"@,
        RuntimeCallKind::Delete => "Deleted container"@,
    }
}

/// The failure message of a lifecycle call, embedding the runtime error.
pub open spec fn err_msg(k: RuntimeCallKind, e: Seq<char>) -> Seq<char> {
    match k {
        RuntimeCallKind::Start => "Failed to start container: "@ + e,
        RuntimeCallKind::Stop => "Failed to stop container: "@ + e,
        RuntimeCallKind::Delete => "Failed to delete container: "@ + e,
    }
}

/// The outcome of one lifecycle call: exactly one of the two shapes, never
/// both, never neither.
pub open spec fn spec_call_outcome(k: RuntimeCallKind, r: CallOutcomeModel) -> OutcomeModel {
    match r {
        CallOutcomeModel::Succeeded => OutcomeModel { success: true, message: ok_msg(k) },
        CallOutcomeModel::Failed(e) => OutcomeModel { success: false, message: err_msg(k, e) },
    }
}

/// The outcome of a restart, read off the start call's result alone.
pub open spec fn spec_restart_outcome(r: CallOutcomeModel) -> OutcomeModel {
    match r {
        CallOutcomeModel::Succeeded => OutcomeModel {
            success: true,
            message: "Container restarted"@,
        },
        CallOutcomeModel::Failed(e) => OutcomeModel {
            success: false,
            message: err_msg(RuntimeCallKind::Start, e),
        },
    }
}

/// The outcome of handing a URL to the URL-opening capability.
pub open spec fn spec_url_outcome(url: Seq<char>, r: CallOutcomeModel) -> OutcomeModel {
    match r {
        CallOutcomeModel::Succeeded => OutcomeModel {
            success: true,
            message: "Opening '"@ + url + "'."@,
        },
        CallOutcomeModel::Failed(e) => OutcomeModel {
            success: false,
            message: "An error occurred when opening '"@ + url + "': "@ + e,
        },
    }
}

/// The outcome of handing a shell invocation to the terminal-launching
/// capability.
pub open spec fn spec_shell_outcome(r: CallOutcomeModel) -> OutcomeModel {
    match r {
        CallOutcomeModel::Succeeded => OutcomeModel {
            success: true,
            message: Seq::<char>::empty(),
        },
        CallOutcomeModel::Failed(e) => OutcomeModel {
            success: false,
            message: "Cannot run exec command: "@ + e,
        },
    }
}

/// The loopback URL for a bound public port.
pub open spec fn url_of(port: u16) -> Seq<char> {
    "http://0.0.0.0:"@ + decimal_rep(port as nat)
}

/// The public port of the container's first port entry, if one is bound.
pub open spec fn first_public_port(rec: RecordModel) -> Option<u16> {
    if rec.ports.len() > 0 {
        rec.ports[0].public_port
    } else {
        None
    }
}

/// The shell-friendly name of a container: its first display name with
/// leading path separators removed, or empty when it has no name.
pub open spec fn spec_shell_name(rec: RecordModel) -> Seq<char> {
    if rec.names.len() > 0 {
        strip_leading_slashes(rec.names[0])
    } else {
        Seq::<char>::empty()
    }
}

/// The first step of dispatching `kind` against `rec`.
pub open spec fn spec_begin(kind: OpKind, rec: RecordModel) -> StepModel {
    match kind {
        OpKind::Start => StepModel::Do(
            ActionModel::Runtime(RuntimeCallKind::Start, rec.id),
            PendingModel::Single(RuntimeCallKind::Start),
        ),
        OpKind::Stop => StepModel::Do(
            ActionModel::Runtime(RuntimeCallKind::Stop, rec.id),
            PendingModel::Single(RuntimeCallKind::Stop),
        ),
        OpKind::Delete => StepModel::Do(
            ActionModel::Runtime(RuntimeCallKind::Delete, rec.id),
            PendingModel::Single(RuntimeCallKind::Delete),
        ),
        OpKind::Restart => StepModel::Do(
            ActionModel::Runtime(RuntimeCallKind::Stop, rec.id),
            PendingModel::RestartStop(rec.id),
        ),
        OpKind::OpenWeb => match first_public_port(rec) {
            Some(p) => StepModel::Do(
                ActionModel::OpenUrl(url_of(p)),
                PendingModel::Url(url_of(p)),
            ),
            None => StepModel::Done(
                OutcomeModel { success: false, message: "port not available"@ },
            ),
        },
        OpKind::OpenShell => StepModel::Do(
            ActionModel::OpenShell(spec_shell_name(rec)),
            PendingModel::Shell,
        ),
        OpKind::Unknown => StepModel::Done(
            OutcomeModel { success: false, message: "Invalid operation type"@ },
        ),
    }
}

/// The step that follows once the awaited call's result is known. A
/// restart's stop result is discarded here: whatever it was, the next step
/// is the start call, and only that call's result reaches the outcome.
pub open spec fn spec_resume(p: PendingModel, r: CallOutcomeModel) -> StepModel {
    match p {
        PendingModel::Single(k) => StepModel::Done(spec_call_outcome(k, r)),
        PendingModel::RestartStop(id) => StepModel::Do(
            ActionModel::Runtime(RuntimeCallKind::Start, id),
            PendingModel::RestartStart,
        ),
        PendingModel::RestartStart => StepModel::Done(spec_restart_outcome(r)),
        PendingModel::Url(url) => StepModel::Done(spec_url_outcome(url, r)),
        PendingModel::Shell => StepModel::Done(spec_shell_outcome(r)),
    }
}

/// Builds the loopback URL for a public port.
pub fn loopback_url(port: u16) -> (s: String)
    ensures
        s@ == url_of(port),
{
    let mut s = String::from_str("http://0.0.0.0:");
    crate::text::push_decimal(&mut s, port);
    s
}

fn runtime_outcome(k: RuntimeCallKind, r: &CallOutcome) -> (o: OperationOutcome)
    ensures
        o@ == spec_call_outcome(k, r@),
{
    match r {
        CallOutcome::Succeeded => OperationOutcome {
            success: true,
            message: match k {
                RuntimeCallKind::Start => String::from_str("Container started"),
                RuntimeCallKind::Stop => String::from_str("Container stopped"),
                RuntimeCallKind::Delete => String::from_str("Deleted container"),
            },
        },
        CallOutcome::Failed(e) => OperationOutcome {
            success: false,
            message: match k {
                RuntimeCallKind::Start => String::from_str("Failed to start container: ").concat(
                    e.as_str(),
                ),
                RuntimeCallKind::Stop => String::from_str("Failed to stop container: ").concat(
                    e.as_str(),
                ),
                RuntimeCallKind::Delete => String::from_str("Failed to delete container: ").concat(
                    e.as_str(),
                ),
            },
        },
    }
}

fn restart_final_outcome(r: &CallOutcome) -> (o: OperationOutcome)
    ensures
        o@ == spec_restart_outcome(r@),
{
    match r {
        CallOutcome::Succeeded => OperationOutcome {
            success: true,
            message: String::from_str("Container restarted"),
        },
        CallOutcome::Failed(e) => OperationOutcome {
            success: false,
            message: String::from_str("Failed to start container: ").concat(e.as_str()),
        },
    }
}

fn url_final_outcome(url: &String, r: &CallOutcome) -> (o: OperationOutcome)
    ensures
        o@ == spec_url_outcome(url@, r@),
{
    match r {
        CallOutcome::Succeeded => OperationOutcome {
            success: true,
            message: String::from_str("Opening '").concat(url.as_str()).concat("'."),
        },
        CallOutcome::Failed(e) => OperationOutcome {
            success: false,
            message: String::from_str("An error occurred when opening '").concat(url.as_str())
                .concat("': ").concat(e.as_str()),
        },
    }
}

fn shell_final_outcome(r: &CallOutcome) -> (o: OperationOutcome)
    ensures
        o@ == spec_shell_outcome(r@),
{
    match r {
        CallOutcome::Succeeded => OperationOutcome { success: true, message: String::new() },
        CallOutcome::Failed(e) => OperationOutcome {
            success: false,
            message: String::from_str("Cannot run exec command: ").concat(e.as_str()),
        },
    }
}

/// The first step of dispatching `kind` against the container `record`.
/// An unknown kind, and an open-web request on a container whose first
/// port entry has no public port bound, finish at once with a failure
/// outcome and ask for no action.
pub fn begin(kind: OpKind, record: &ContainerRecord) -> (s: DispatchStep)
    ensures
        s@ == spec_begin(kind, record@),
{
    match kind {
        OpKind::Start => DispatchStep::Do(
            Action::Runtime(RuntimeCallKind::Start, record.id.clone()),
            Pending::Single(RuntimeCallKind::Start),
        ),
        OpKind::Stop => DispatchStep::Do(
            Action::Runtime(RuntimeCallKind::Stop, record.id.clone()),
            Pending::Single(RuntimeCallKind::Stop),
        ),
        OpKind::Delete => DispatchStep::Do(
            Action::Runtime(RuntimeCallKind::Delete, record.id.clone()),
            Pending::Single(RuntimeCallKind::Delete),
        ),
        OpKind::Restart => DispatchStep::Do(
            Action::Runtime(RuntimeCallKind::Stop, record.id.clone()),
            Pending::RestartStop(record.id.clone()),
        ),
        OpKind::OpenWeb => {
            if record.ports.len() > 0 {
                match record.ports[0].public_port {
                    Some(p) => {
                        let url = loopback_url(p);
                        DispatchStep::Do(Action::OpenUrl(url.clone()), Pending::Url(url))
                    },
                    None => DispatchStep::Done(
                        OperationOutcome {
                            success: false,
                            message: String::from_str("port not available"),
                        },
                    ),
                }
            } else {
                DispatchStep::Done(
                    OperationOutcome {
                        success: false,
                        message: String::from_str("port not available"),
                    },
                )
            }
        },
        OpKind::OpenShell => {
            let name = if record.names.len() > 0 {
                shell_name(record.names[0].as_str())
            } else {
                String::new()
            };
            DispatchStep::Do(Action::OpenShell(name), Pending::Shell)
        },
        OpKind::Unknown => DispatchStep::Done(
            OperationOutcome {
                success: false,
                message: String::from_str("Invalid operation type"),
            },
        ),
    }
}

/// Continues a dispatch once the result of the awaited call is known.
pub fn resume(pending: Pending, result: &CallOutcome) -> (s: DispatchStep)
    ensures
        s@ == spec_resume(pending@, result@),
{
    match pending {
        Pending::Single(k) => DispatchStep::Done(runtime_outcome(k, result)),
        Pending::RestartStop(id) => DispatchStep::Do(
            Action::Runtime(RuntimeCallKind::Start, id),
            Pending::RestartStart,
        ),
        Pending::RestartStart => DispatchStep::Done(restart_final_outcome(result)),
        Pending::Url(url) => DispatchStep::Done(url_final_outcome(&url, result)),
        Pending::Shell => DispatchStep::Done(shell_final_outcome(result)),
    }
}

/// Resolves the identifier in the snapshot and takes the first dispatch
/// step for it; an absent identifier is a recoverable NotFound.
pub fn begin_for(snapshot: &Snapshot, id: &String, kind: OpKind) -> (r: Result<
    DispatchStep,
    LookupError,
>)
    ensures
        match r {
            Ok(s) => first_match(snapshot@, id@) matches Some(rec) && s@ == spec_begin(kind, rec),
            Err(e) => e == LookupError::NotFound && first_match(snapshot@, id@) is None,
        },
{
    match snapshot.find(id) {
        Some(c) => Ok(begin(kind, c)),
        None => Err(LookupError::NotFound),
    }
}

/// Resolves both the operation name and the identifier, and takes the
/// first dispatch step.
pub fn begin_named(snapshot: &Snapshot, id: &String, op_name: &String) -> (r: Result<
    DispatchStep,
    LookupError,
>)
    ensures
        match r {
            Ok(s) => first_match(snapshot@, id@) matches Some(rec) && s@ == spec_begin(
                kind_of(op_name@),
                rec,
            ),
            Err(e) => e == LookupError::NotFound && first_match(snapshot@, id@) is None,
        },
{
    begin_for(snapshot, id, parse_op_kind(op_name))
}

/// One operation request: the target container's identifier and the
/// operation kind. An unrecognized kind is a value like any other, never
/// a crash.
pub struct OperationRequest {
    pub id: String,
    pub kind: OpKind,
}

/// Takes the first dispatch step for a request, resolving its identifier
/// in the snapshot.
pub fn begin_request(snapshot: &Snapshot, request: &OperationRequest) -> (r: Result<
    DispatchStep,
    LookupError,
>)
    ensures
        match r {
            Ok(s) => first_match(snapshot@, request.id@) matches Some(rec) && s@ == spec_begin(
                request.kind,
                rec,
            ),
            Err(e) => e == LookupError::NotFound && first_match(snapshot@, request.id@) is None,
        },
{
    begin_for(snapshot, &request.id, request.kind)
}

/// The outcome a whole restart run ends in, for given stop and start
/// results: begin with the stop call, feed it `stop_r`, feed the following
/// start call `start_r`.
pub open spec fn spec_restart_run(
    rec: RecordModel,
    stop_r: CallOutcomeModel,
    start_r: CallOutcomeModel,
) -> StepModel {
    match spec_begin(OpKind::Restart, rec) {
        StepModel::Do(_, p1) => match spec_resume(p1, stop_r) {
            StepModel::Do(_, p2) => spec_resume(p2, start_r),
            StepModel::Done(o) => StepModel::Done(o),
        },
        StepModel::Done(o) => StepModel::Done(o),
    }
}

/// A restart reports based on the start call's outcome alone: two runs
/// that differ only in the stop call's result end in the same outcome.
pub proof fn lemma_restart_reports_start_alone(
    rec: RecordModel,
    stop_a: CallOutcomeModel,
    stop_b: CallOutcomeModel,
    start_r: CallOutcomeModel,
)
    ensures
        spec_restart_run(rec, stop_a, start_r) == spec_restart_run(rec, stop_b, start_r),
{
}

/// An open-web request on a container whose first port entry has no public
/// port bound fails with "port not available" and never asks for a URL to
/// be opened.
pub proof fn lemma_open_web_needs_public_port(rec: RecordModel)
    requires
        first_public_port(rec) is None,
    ensures
        spec_begin(OpKind::OpenWeb, rec) == StepModel::Done(
            OutcomeModel { success: false, message: "port not available"@ },
        ),
{
}

/// An unknown operation kind fails with the fixed invalid-operation
/// message for every container record, and never asks for an action.
pub proof fn lemma_unknown_kind_rejected(rec: RecordModel)
    ensures
        spec_begin(OpKind::Unknown, rec) == StepModel::Done(
            OutcomeModel { success: false, message: "Invalid operation type"@ },
        ),
{
}

} // verus!
