//! The handshake that turns a device descriptor into a live, bound
//! controller: construct, submit the connect request, await its completion,
//! bind to the session.
//!
//! The work on the device is the caller's. This module decides: it names the
//! next action, takes the event with which the action ended, and either names
//! the action after that or ends the attempt with its outcome.

use vstd::prelude::*;
use crate::config::ControllerConfig;
use crate::descriptor::{DescriptorView, DeviceDescriptor};
use crate::error::SessionError;
use crate::mode::PathMode;
use crate::status::{framework_reports_success, is_success_code};

verus! {

/// How a connection attempt ended. There is nothing in between: either the
/// controller is handed over, connected and bound, or the attempt failed and
/// no controller is left. The mock path, which has no controller at all,
/// ends in a success of its own.
#[derive(Debug, PartialEq, Eq)]
pub enum ConnectionOutcome<H> {
    /// The handshake reached the success status and the controller was bound.
    Connected(H),
    /// The mock path succeeded. No controller was built, so none is handed
    /// over.
    Simulated,
    /// The attempt failed; the controller, if one was built, has been
    /// released.
    Failed(SessionError),
}

/// The time that a connection takes on the mock path, in seconds.
pub const MOCK_DELAY_SECONDS: u64 = 5;

/// The content of a [`ControllerRequest`].
pub struct RequestView {
    pub adb_path: Seq<char>,
    pub adb_serial: Seq<char>,
    pub config: ControllerConfig,
    pub adb_config: Seq<char>,
    pub agent_path: Seq<char>,
}

/// Everything the construction of a controller is given.
#[derive(Debug)]
pub struct ControllerRequest {
    adb_path: String,
    adb_serial: String,
    config: ControllerConfig,
    adb_config: String,
    agent_path: String,
}

impl View for ControllerRequest {
    type V = RequestView;

    closed spec fn view(&self) -> RequestView {
        RequestView {
            adb_path: self.adb_path@,
            adb_serial: self.adb_serial@,
            config: self.config,
            adb_config: self.adb_config@,
            agent_path: self.agent_path@,
        }
    }
}

impl ControllerRequest {
    /// The path of the bridge executable.
    pub fn adb_path(&self) -> (path: &str)
        ensures
            path@ == self@.adb_path,
    {
        self.adb_path.as_str()
    }

    /// The serial number or address of the device.
    pub fn adb_serial(&self) -> (serial: &str)
        ensures
            serial@ == self@.adb_serial,
    {
        self.adb_serial.as_str()
    }

    /// The chosen controller configuration.
    pub fn config(&self) -> (config: ControllerConfig)
        ensures
            config == self@.config,
    {
        self.config
    }

    /// The transport-specific configuration blob of the device.
    pub fn adb_config(&self) -> (config: &str)
        ensures
            config@ == self@.adb_config,
    {
        self.adb_config.as_str()
    }

    /// Where the companion agent for the device side is found.
    pub fn agent_path(&self) -> (path: &str)
        ensures
            path@ == self@.agent_path,
    {
        self.agent_path.as_str()
    }
}

/// The well-known place of the companion agent that the device-side runtime
/// needs.
pub open spec fn agent_path_text() -> Seq<char> {
    "MaaAgentBinary"@
}

/// The request that the handshake makes for a device and a configuration:
/// the descriptor's three parts as they are, the configuration, and the fixed
/// agent path.
pub open spec fn request_for(device: DescriptorView, config: ControllerConfig) -> RequestView {
    RequestView {
        adb_path: device.adb_path,
        adb_serial: device.adb_serial,
        config,
        adb_config: device.adb_config,
        agent_path: agent_path_text(),
    }
}

/// The content of a [`LinkAction`].
pub enum ActionView {
    Construct(RequestView),
    PostConnect,
    Wait(i64),
    Bind,
    Delay(u64),
}

/// One piece of work on the device or the session, to be done by the caller.
#[derive(Debug)]
pub enum LinkAction {
    /// Build a controller from the request. Nothing is sent to the device.
    Construct(ControllerRequest),
    /// Submit the connect request on the controller; it returns at once with
    /// a token for the pending operation.
    PostConnect,
    /// Wait until the operation with this token has completed.
    Wait(i64),
    /// Bind the controller to the owning session.
    Bind,
    /// Let this many seconds pass.
    Delay(u64),
}

impl View for LinkAction {
    type V = ActionView;

    open spec fn view(&self) -> ActionView {
        match self {
            LinkAction::Construct(request) => ActionView::Construct(request@),
            LinkAction::PostConnect => ActionView::PostConnect,
            LinkAction::Wait(token) => ActionView::Wait(*token),
            LinkAction::Bind => ActionView::Bind,
            LinkAction::Delay(seconds) => ActionView::Delay(*seconds),
        }
    }
}

/// How an action ended.
#[derive(Debug)]
pub enum LinkEvent<H> {
    /// The controller was built.
    Constructed(H),
    /// The connect request was submitted; the token names it.
    Posted(i64),
    /// The wait returned with this raw status code.
    Completed(i32),
    /// The binding returned; `true` means that it succeeded.
    Bound(bool),
    /// The delay has passed.
    Elapsed,
    /// The action did not end in the ordinary way: it was cancelled, timed
    /// out, or the transport gave no answer.
    Aborted,
}

/// Where a handshake stands: which action is under way, and what it holds.
pub enum Stage<H> {
    /// The controller is being built.
    Constructing,
    /// The connect request is being submitted on the controller.
    Posting(H),
    /// The submitted request, named by the token, is being awaited.
    Waiting(H, i64),
    /// The connected controller is being bound to the session.
    Binding(H),
    /// The mock path: the fixed delay is passing.
    Delaying,
}

/// A handshake under way. It can only be made by [`Handshake::begin`] and
/// moved on by [`Handshake::step`], and it owns the controller from the
/// moment it is built until the attempt ends.
pub struct Handshake<H> {
    stage: Stage<H>,
}

impl<H> View for Handshake<H> {
    type V = Stage<H>;

    closed spec fn view(&self) -> Stage<H> {
        self.stage
    }
}

/// The content of a [`Progress`].
pub enum ProgressView<H> {
    Continue(Stage<H>, ActionView),
    Finished(ConnectionOutcome<H>),
}

/// What a step of the handshake yields.
pub enum Progress<H> {
    /// The attempt goes on: do the action and come back with its event.
    Continue(Handshake<H>, LinkAction),
    /// The attempt is over.
    Finished(ConnectionOutcome<H>),
}

impl<H> View for Progress<H> {
    type V = ProgressView<H>;

    open spec fn view(&self) -> ProgressView<H> {
        match self {
            Progress::Continue(handshake, action) => ProgressView::Continue(handshake@, action@),
            Progress::Finished(outcome) => ProgressView::Finished(*outcome),
        }
    }
}

/// The controller that a handshake holds at a stage, if it has one yet.
pub open spec fn held_handle<H>(stage: Stage<H>) -> Option<H> {
    match stage {
        Stage::Constructing => None,
        Stage::Posting(handle) => Some(handle),
        Stage::Waiting(handle, _) => Some(handle),
        Stage::Binding(handle) => Some(handle),
        Stage::Delaying => None,
    }
}

/// The greatest number of events that a handshake at this stage can still
/// take.
pub open spec fn steps_left<H>(stage: Stage<H>) -> nat {
    match stage {
        Stage::Constructing => 4,
        Stage::Posting(_) => 3,
        Stage::Waiting(_, _) => 2,
        Stage::Binding(_) => 1,
        Stage::Delaying => 1,
    }
}

/// The stage and the action with which an attempt starts. On the real path
/// the controller is to be built for the device, with the configuration and
/// the fixed agent path. On the mock path the fixed delay is to pass, and
/// the device and the configuration play no part.
pub open spec fn start<H>(
    mode: PathMode,
    device: DescriptorView,
    config: ControllerConfig,
) -> (Stage<H>, ActionView) {
    match mode {
        PathMode::Real => (Stage::Constructing, ActionView::Construct(request_for(device, config))),
        PathMode::Mock => (Stage::Delaying, ActionView::Delay(MOCK_DELAY_SECONDS)),
    }
}

/// The transition function of the handshake.
///
/// An event that answers the action under way moves the handshake on. The
/// awaited status decides between binding and failure: only the success code
/// goes on. Any other event ends the attempt. Before the success status was
/// seen the failure is a connection error, after it a binding error. Whenever
/// the attempt fails, the controller is in neither the next stage nor the
/// outcome: it is gone. The mock path succeeds once its delay is over,
/// whatever is reported of it.
pub open spec fn next<H>(stage: Stage<H>, event: LinkEvent<H>) -> ProgressView<H> {
    match (stage, event) {
        (Stage::Delaying, _) => ProgressView::Finished(ConnectionOutcome::Simulated),
        (Stage::Constructing, LinkEvent::Constructed(handle)) => ProgressView::Continue(
            Stage::Posting(handle),
            ActionView::PostConnect,
        ),
        (Stage::Posting(handle), LinkEvent::Posted(token)) => ProgressView::Continue(
            Stage::Waiting(handle, token),
            ActionView::Wait(token),
        ),
        (Stage::Waiting(handle, _), LinkEvent::Completed(code)) => if is_success_code(code) {
            ProgressView::Continue(Stage::Binding(handle), ActionView::Bind)
        } else {
            ProgressView::Finished(ConnectionOutcome::Failed(SessionError::ConnectionError))
        },
        (Stage::Binding(handle), LinkEvent::Bound(true)) => ProgressView::Finished(
            ConnectionOutcome::Connected(handle),
        ),
        (Stage::Binding(_), _) => ProgressView::Finished(
            ConnectionOutcome::Failed(SessionError::BindingError),
        ),
        _ => ProgressView::Finished(ConnectionOutcome::Failed(SessionError::ConnectionError)),
    }
}

impl<H> Handshake<H> {
    /// Starts an attempt on the path that `mode` names, as [`start`] says:
    /// nothing has been built yet, and the first action is returned with the
    /// handshake.
    pub fn begin(
        mode: PathMode,
        descriptor: &DeviceDescriptor,
        config: ControllerConfig,
    ) -> (begun: (Self, LinkAction))
        ensures
            (begun.0@, begun.1@) == start::<H>(mode, descriptor@, config),
    {
        match mode {
            PathMode::Real => {
                let request = ControllerRequest {
                    adb_path: descriptor.adb_path().to_string(),
                    adb_serial: descriptor.adb_serial().to_string(),
                    config,
                    adb_config: descriptor.adb_config().to_string(),
                    agent_path: "MaaAgentBinary".to_string(),
                };
                (Handshake { stage: Stage::Constructing }, LinkAction::Construct(request))
            },
            PathMode::Mock => (
                Handshake { stage: Stage::Delaying },
                LinkAction::Delay(MOCK_DELAY_SECONDS),
            ),
        }
    }

    /// The controller on which the action under way is to be done, once one
    /// has been built.
    pub fn handle(&self) -> (handle: Option<&H>)
        ensures
            handle is Some == held_handle(self@) is Some,
            handle is Some ==> *handle->Some_0 == held_handle(self@)->Some_0,
    {
        match &self.stage {
            Stage::Constructing => None,
            Stage::Posting(handle) => Some(handle),
            Stage::Waiting(handle, _) => Some(handle),
            Stage::Binding(handle) => Some(handle),
            Stage::Delaying => None,
        }
    }

    /// Takes the event with which the action under way ended and moves the
    /// handshake on, as [`next`] says. The handshake is used up; where the
    /// attempt goes on, its successor comes back.
    pub fn step(self, event: LinkEvent<H>) -> (progress: Progress<H>)
        ensures
            progress@ == next(self@, event),
    {
        match self.stage {
            Stage::Constructing => match event {
                LinkEvent::Constructed(handle) => Progress::Continue(
                    Handshake { stage: Stage::Posting(handle) },
                    LinkAction::PostConnect,
                ),
                _ => Progress::Finished(ConnectionOutcome::Failed(SessionError::ConnectionError)),
            },
            Stage::Posting(handle) => match event {
                LinkEvent::Posted(token) => Progress::Continue(
                    Handshake { stage: Stage::Waiting(handle, token) },
                    LinkAction::Wait(token),
                ),
                _ => Progress::Finished(ConnectionOutcome::Failed(SessionError::ConnectionError)),
            },
            Stage::Waiting(handle, _) => match event {
                LinkEvent::Completed(code) => if framework_reports_success(code) {
                    Progress::Continue(Handshake { stage: Stage::Binding(handle) }, LinkAction::Bind)
                } else {
                    Progress::Finished(ConnectionOutcome::Failed(SessionError::ConnectionError))
                },
                _ => Progress::Finished(ConnectionOutcome::Failed(SessionError::ConnectionError)),
            },
            Stage::Binding(handle) => match event {
                LinkEvent::Bound(true) => Progress::Finished(ConnectionOutcome::Connected(handle)),
                _ => Progress::Finished(ConnectionOutcome::Failed(SessionError::BindingError)),
            },
            Stage::Delaying => Progress::Finished(ConnectionOutcome::Simulated),
        }
    }
}

/// The attempt ends connected exactly when the binding of the held
/// controller succeeded, and the controller handed over is the one that was
/// held.
pub proof fn connected_exactly_when_bound<H>(stage: Stage<H>, event: LinkEvent<H>, handle: H)
    ensures
        next(stage, event) == ProgressView::Finished(ConnectionOutcome::Connected(handle)) <==> (
        stage == Stage::Binding(handle) && event == LinkEvent::<H>::Bound(true)),
{
}

/// Binding is reached exactly from the wait, by the success code, and with
/// the controller on which the wait was done.
pub proof fn binding_exactly_after_success<H>(stage: Stage<H>, event: LinkEvent<H>, handle: H)
    ensures
        next(stage, event) == ProgressView::Continue(Stage::Binding(handle), ActionView::Bind)
            <==> (stage is Waiting && stage->Waiting_0 == handle && event is Completed
            && is_success_code(event->Completed_0)),
{
}

/// A wait that returns any code but the success code ends the attempt with a
/// connection error.
pub proof fn non_success_status_fails<H>(handle: H, token: i64, code: i32)
    requires
        !is_success_code(code),
    ensures
        next(Stage::Waiting(handle, token), LinkEvent::Completed(code)) == ProgressView::<H>::Finished(
            ConnectionOutcome::Failed(SessionError::ConnectionError),
        ),
{
}

/// A wait that was cancelled or timed out is treated like a non-success
/// status.
pub proof fn aborted_wait_fails<H>(handle: H, token: i64)
    ensures
        next(Stage::Waiting(handle, token), LinkEvent::Aborted) == ProgressView::<H>::Finished(
            ConnectionOutcome::Failed(SessionError::ConnectionError),
        ),
{
}

/// A binding that fails ends the attempt with a binding error, although the
/// transport had connected.
pub proof fn failed_binding_fails<H>(handle: H)
    ensures
        next(Stage::Binding(handle), LinkEvent::Bound(false)) == ProgressView::<H>::Finished(
            ConnectionOutcome::Failed(SessionError::BindingError),
        ),
{
}

/// The kind of a failure tells how far the attempt came: a binding error
/// comes from the binding stage and from no other, a connection error from
/// the stages before it, and a discovery error from none.
pub proof fn failure_kind_tells_the_stage<H>(
    stage: Stage<H>,
    event: LinkEvent<H>,
    reason: SessionError,
)
    requires
        next(stage, event) == ProgressView::Finished(ConnectionOutcome::<H>::Failed(reason)),
    ensures
        reason == SessionError::BindingError <==> stage is Binding,
        reason == SessionError::ConnectionError <==> (stage is Constructing || stage is Posting
            || stage is Waiting),
        reason != SessionError::DiscoveryError,
{
}

/// Every step that does not end the attempt uses up one of the steps left,
/// keeps the controller that was held, and holds one afterwards. So an
/// attempt ends after four events at most and never changes its controller.
pub proof fn step_makes_progress<H>(stage: Stage<H>, event: LinkEvent<H>)
    ensures
        next(stage, event) matches ProgressView::Continue(then, _) ==> {
            &&& steps_left(then) + 1 == steps_left(stage)
            &&& held_handle(then) is Some
            &&& held_handle(stage) is Some ==> held_handle(then) == held_handle(stage)
        },
{
}

/// The actions follow one another in a fixed order: after the construction
/// the submission, after the submission the wait for its token, after the
/// wait the binding. No other action is ever asked for by a step.
pub proof fn actions_come_in_order<H>(stage: Stage<H>, event: LinkEvent<H>)
    ensures
        next(stage, event) matches ProgressView::Continue(then, action) ==> match stage {
            Stage::Constructing => action == ActionView::PostConnect && then is Posting,
            Stage::Posting(_) => event is Posted && action == ActionView::Wait(event->Posted_0)
                && then is Waiting && then->Waiting_1 == event->Posted_0,
            Stage::Waiting(_, _) => action == ActionView::Bind && then is Binding,
            Stage::Binding(_) => false,
            Stage::Delaying => false,
        },
{
}

/// The mock path asks for one thing, the fixed delay, and then succeeds
/// whatever comes back: no controller is built, nothing is submitted or
/// awaited, and nothing is bound.
pub proof fn mock_path_only_delays<H>(
    device: DescriptorView,
    config: ControllerConfig,
    event: LinkEvent<H>,
)
    ensures
        start::<H>(PathMode::Mock, device, config).1 == ActionView::Delay(MOCK_DELAY_SECONDS),
        next(start::<H>(PathMode::Mock, device, config).0, event) == ProgressView::<H>::Finished(
            ConnectionOutcome::Simulated,
        ),
{
}

/// The simulated success is the mock path's alone: a step ends in it exactly
/// when the fixed delay was under way.
pub proof fn simulated_exactly_on_mock_path<H>(stage: Stage<H>, event: LinkEvent<H>)
    ensures
        next(stage, event) == ProgressView::<H>::Finished(ConnectionOutcome::Simulated)
            <==> stage is Delaying,
{
}

} // verus!
