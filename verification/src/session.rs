//! The connect operation: a whole attempt, from the descriptor to the
//! registry.
//!
//! The actions of an attempt are done by a function that the caller hands
//! in. Of that function the contracts here know only its own contract: what
//! it may answer to an action. An attempt's outcome is stated against that.

use vstd::prelude::*;
use crate::config::{policy, select_controller_config, ControllerConfig};
use crate::descriptor::{DescriptorView, DeviceDescriptor};
use crate::error::SessionError;
use crate::handshake::{
    held_handle, next, start, step_makes_progress, ActionView, ConnectionOutcome, Handshake,
    LinkAction, LinkEvent, Progress, ProgressView, RequestView, Stage, steps_left,
};
use crate::mode::PathMode;
use crate::registry::{slot_after, verdict, ControllerRegistry};
use crate::status::is_success_code;

verus! {

/// The same optional controller, seen through a shared reference.
pub open spec fn shared<H>(handle: &Option<H>) -> Option<&H> {
    match handle {
        Some(held) => Some(held),
        None => None,
    }
}

/// True where `event` is an answer that `perform` may give at `stage` to
/// `action`: `asked` is the action as it is handed over, and with it goes
/// the controller held at the stage.
pub open spec fn answers<H, P>(
    perform: P,
    stage: Stage<H>,
    action: ActionView,
    asked: LinkAction,
    event: LinkEvent<H>,
) -> bool where P: Fn(&LinkAction, Option<&H>) -> LinkEvent<H> {
    asked@ == action && perform.ensures((&asked, shared(&held_handle(stage))), event)
}

/// True where an attempt that stands at `stage` with `action` under way can
/// end with `outcome`, given what `perform` may answer: one of its possible
/// answers is taken as the event, and the attempt goes on from there as the
/// transition function says.
pub open spec fn can_end_with<H, P>(
    perform: P,
    stage: Stage<H>,
    action: ActionView,
    outcome: ConnectionOutcome<H>,
) -> bool where P: Fn(&LinkAction, Option<&H>) -> LinkEvent<H>
    decreases steps_left(stage),
{
    exists|asked: LinkAction, event: LinkEvent<H>|
        {
            &&& #[trigger] answers(perform, stage, action, asked, event)
            &&& match next(stage, event) {
                ProgressView::Continue(then, following) => can_end_with(
                    perform,
                    then,
                    following,
                    outcome,
                ),
                ProgressView::Finished(ended) => ended == outcome,
            }
        }
}

/// True where `event` is an answer of `perform` through which the attempt
/// at `stage` can end in `outcome`.
pub open spec fn ends_through<H, P>(
    perform: P,
    stage: Stage<H>,
    action: ActionView,
    asked: LinkAction,
    event: LinkEvent<H>,
    outcome: ConnectionOutcome<H>,
) -> bool where P: Fn(&LinkAction, Option<&H>) -> LinkEvent<H> {
    &&& answers(perform, stage, action, asked, event)
    &&& match next(stage, event) {
        ProgressView::Continue(then, following) => can_end_with(perform, then, following, outcome),
        ProgressView::Finished(ended) => ended == outcome,
    }
}

/// Runs one connection attempt on the path that `mode` names. `perform`
/// does the actions: it is handed each action together with the controller
/// that the handshake holds, and answers with the event in which the action
/// ended. The outcome is one with which the attempt can end under the
/// answers of `perform`, from its start for this device and configuration.
pub fn connect<H, P>(
    mode: PathMode,
    descriptor: &DeviceDescriptor,
    config: ControllerConfig,
    perform: P,
) -> (outcome: ConnectionOutcome<H>) where P: Fn(&LinkAction, Option<&H>) -> LinkEvent<H>
    requires
        forall|action: &LinkAction, handle: Option<&H>| perform.requires((action, handle)),
    ensures
        can_end_with(
            perform,
            start::<H>(mode, descriptor@, config).0,
            start::<H>(mode, descriptor@, config).1,
            outcome,
        ),
{
    let ghost first = start::<H>(mode, descriptor@, config);
    let (mut handshake, mut action) = Handshake::<H>::begin(mode, descriptor, config);
    loop
        invariant
            first == start::<H>(mode, descriptor@, config),
            forall|action: &LinkAction, handle: Option<&H>| perform.requires((action, handle)),
            forall|ended: ConnectionOutcome<H>|
                can_end_with(perform, handshake@, action@, ended) ==> can_end_with(
                    perform,
                    first.0,
                    first.1,
                    ended,
                ),
        decreases steps_left(handshake@),
    {
        let ghost stage = handshake@;
        let event = perform(&action, handshake.handle());
        let ghost taken = event;
        match handshake.step(event) {
            Progress::Continue(then, following) => {
                proof {
                    step_makes_progress(stage, taken);
                    assert forall|ended: ConnectionOutcome<H>|
                        can_end_with(perform, then@, following@, ended) implies can_end_with(
                        perform,
                        stage,
                        action@,
                        ended,
                    ) by {
                        assert(answers(perform, stage, action@, action, taken));
                    }
                }
                handshake = then;
                action = following;
            },
            Progress::Finished(outcome) => {
                proof {
                    assert(answers(perform, stage, action@, action, taken));
                }
                return outcome;
            },
        }
    }
}

/// Connects to a device and, where that succeeds, makes its controller the
/// registry's.
///
/// The configuration is selected for the device, one attempt is run by
/// [`connect`] on the path that `mode` names, and its outcome is settled
/// with the registry: a connected controller is published; a failure is
/// returned and leaves the slot exactly as it was. On the mock path the
/// operation always succeeds, and it leaves the slot as it was too.
///
/// The registry is borrowed for the whole attempt, so the binding of a
/// controller and its publication cannot be parted by another attempt.
pub fn connect_to_device<H, P>(
    mode: PathMode,
    device: &DeviceDescriptor,
    registry: &mut ControllerRegistry<H>,
    perform: P,
) -> (result: Result<(), SessionError>) where P: Fn(&LinkAction, Option<&H>) -> LinkEvent<H>
    requires
        forall|action: &LinkAction, handle: Option<&H>| perform.requires((action, handle)),
    ensures
        exists|outcome: ConnectionOutcome<H>|
            {
                &&& #[trigger] can_end_with(
                    perform,
                    start::<H>(mode, device@, policy(device@)).0,
                    start::<H>(mode, device@, policy(device@)).1,
                    outcome,
                )
                &&& final(registry)@ == slot_after(old(registry)@, outcome)
                &&& result == verdict(outcome)
            },
        mode is Mock ==> result is Ok && final(registry)@ == old(registry)@,
        mode is Real && result is Ok ==> final(registry)@ is Some,
        result is Err ==> final(registry)@ == old(registry)@,
        result is Err ==> result->Err_0 != SessionError::DiscoveryError,
{
    let config = select_controller_config(device);
    let outcome = connect(mode, device, config, perform);
    proof {
        outcome_fits_the_path(perform, mode, device@, config, outcome);
    }
    registry.settle(outcome)
}

/// One step of [`can_end_with`], spelled out: `perform` has an answer to the
/// action under way through which the attempt can end in the outcome.
pub proof fn can_end_with_one_step<H, P>(
    perform: P,
    stage: Stage<H>,
    action: ActionView,
    outcome: ConnectionOutcome<H>,
) where P: Fn(&LinkAction, Option<&H>) -> LinkEvent<H>
    requires
        can_end_with(perform, stage, action, outcome),
    ensures
        exists|asked: LinkAction, event: LinkEvent<H>| #[trigger]
            ends_through(perform, stage, action, asked, event, outcome),
{
    let (asked, event) = choose|asked: LinkAction, event: LinkEvent<H>|
        {
            &&& #[trigger] answers(perform, stage, action, asked, event)
            &&& match next(stage, event) {
                ProgressView::Continue(then, following) => can_end_with(
                    perform,
                    then,
                    following,
                    outcome,
                ),
                ProgressView::Finished(ended) => ended == outcome,
            }
        };
    assert(ends_through(perform, stage, action, asked, event, outcome));
}

/// What each stage can still end in, whatever `perform` answers: the mock
/// path's delay in the simulated success and in nothing else; the stages of
/// the real path never in that success, and in no failure but a connection
/// or a binding error, of which the binding stage has only the second.
pub proof fn outcome_fits_the_stage<H, P>(
    perform: P,
    stage: Stage<H>,
    action: ActionView,
    outcome: ConnectionOutcome<H>,
) where P: Fn(&LinkAction, Option<&H>) -> LinkEvent<H>
    requires
        can_end_with(perform, stage, action, outcome),
    ensures
        stage is Delaying <==> outcome is Simulated,
        outcome is Failed ==> outcome->Failed_0 == SessionError::ConnectionError
            || outcome->Failed_0 == SessionError::BindingError,
        outcome is Failed && stage is Binding ==> outcome->Failed_0 == SessionError::BindingError,
    decreases steps_left(stage),
{
    can_end_with_one_step(perform, stage, action, outcome);
    let (asked, event) = choose|asked: LinkAction, event: LinkEvent<H>|
        ends_through(perform, stage, action, asked, event, outcome);
    match next(stage, event) {
        ProgressView::Continue(then, following) => {
            outcome_fits_the_stage(perform, then, following, outcome);
        },
        ProgressView::Finished(_) => {},
    }
}

/// What an attempt can end in, by its path: on the mock path always in the
/// simulated success; on the real path in a connected controller or in a
/// connection or binding error.
pub proof fn outcome_fits_the_path<H, P>(
    perform: P,
    mode: PathMode,
    device: DescriptorView,
    config: ControllerConfig,
    outcome: ConnectionOutcome<H>,
) where P: Fn(&LinkAction, Option<&H>) -> LinkEvent<H>
    requires
        can_end_with(
            perform,
            start::<H>(mode, device, config).0,
            start::<H>(mode, device, config).1,
            outcome,
        ),
    ensures
        mode is Mock <==> outcome is Simulated,
        outcome is Failed ==> outcome->Failed_0 == SessionError::ConnectionError
            || outcome->Failed_0 == SessionError::BindingError,
{
    outcome_fits_the_stage(
        perform,
        start::<H>(mode, device, config).0,
        start::<H>(mode, device, config).1,
        outcome,
    );
}

/// An attempt ends connected only where every action succeeded: `perform`
/// built the controller that is handed over, submitted the connect request
/// on it, returned the success code from the wait for that request, and
/// bound it.
pub proof fn connected_means_every_action_succeeded<H, P>(
    perform: P,
    request: RequestView,
    handle: H,
) where P: Fn(&LinkAction, Option<&H>) -> LinkEvent<H>
    requires
        can_end_with(
            perform,
            Stage::Constructing,
            ActionView::Construct(request),
            ConnectionOutcome::Connected(handle),
        ),
    ensures
        exists|construct: LinkAction, token: i64, code: i32|
            {
                &&& construct@ == ActionView::Construct(request)
                &&& #[trigger] perform.ensures(
                    (&construct, None::<&H>),
                    LinkEvent::Constructed(handle),
                )
                &&& perform.ensures(
                    (&LinkAction::PostConnect, Some(&handle)),
                    LinkEvent::Posted(token),
                )
                &&& #[trigger] perform.ensures(
                    (&LinkAction::Wait(token), Some(&handle)),
                    LinkEvent::Completed(code),
                )
                &&& is_success_code(code)
                &&& perform.ensures((&LinkAction::Bind, Some(&handle)), LinkEvent::Bound(true))
            },
{
    let outcome = ConnectionOutcome::Connected(handle);
    let stage0 = Stage::<H>::Constructing;
    can_end_with_one_step(perform, stage0, ActionView::Construct(request), outcome);
    let (construct, event0) = choose|asked: LinkAction, event: LinkEvent<H>|
        ends_through(perform, stage0, ActionView::Construct(request), asked, event, outcome);
    let built = event0->Constructed_0;
    let stage1 = Stage::Posting(built);
    can_end_with_one_step(perform, stage1, ActionView::PostConnect, outcome);
    let (post, event1) = choose|asked: LinkAction, event: LinkEvent<H>|
        ends_through(perform, stage1, ActionView::PostConnect, asked, event, outcome);
    let token = event1->Posted_0;
    let stage2 = Stage::Waiting(built, token);
    can_end_with_one_step(perform, stage2, ActionView::Wait(token), outcome);
    let (wait, event2) = choose|asked: LinkAction, event: LinkEvent<H>|
        ends_through(perform, stage2, ActionView::Wait(token), asked, event, outcome);
    let code = event2->Completed_0;
    let stage3 = Stage::Binding(built);
    can_end_with_one_step(perform, stage3, ActionView::Bind, outcome);
    let (bind, event3) = choose|asked: LinkAction, event: LinkEvent<H>|
        ends_through(perform, stage3, ActionView::Bind, asked, event, outcome);
    assert(built == handle);
    assert(post == LinkAction::PostConnect);
    assert(wait == LinkAction::Wait(token));
    assert(bind == LinkAction::Bind);
    assert(perform.ensures((&construct, None::<&H>), LinkEvent::Constructed(handle)));
    assert(perform.ensures((&LinkAction::Wait(token), Some(&handle)), LinkEvent::Completed(code)));
}

/// Where every action of `perform` succeeds, every attempt on the real path
/// ends connected.
pub proof fn successful_actions_mean_connected<H, P>(
    perform: P,
    request: RequestView,
    outcome: ConnectionOutcome<H>,
) where P: Fn(&LinkAction, Option<&H>) -> LinkEvent<H>
    requires
        can_end_with(perform, Stage::Constructing, ActionView::Construct(request), outcome),
        forall|asked: LinkAction, handle: Option<&H>, event: LinkEvent<H>| #[trigger]
            perform.ensures((&asked, handle), event) ==> match asked {
                LinkAction::Construct(_) => event is Constructed,
                LinkAction::PostConnect => event is Posted,
                LinkAction::Wait(_) => event is Completed && is_success_code(event->Completed_0),
                LinkAction::Bind => event == LinkEvent::<H>::Bound(true),
                LinkAction::Delay(_) => true,
            },
    ensures
        outcome is Connected,
{
    let stage0 = Stage::<H>::Constructing;
    can_end_with_one_step(perform, stage0, ActionView::Construct(request), outcome);
    let (construct, event0) = choose|asked: LinkAction, event: LinkEvent<H>|
        ends_through(perform, stage0, ActionView::Construct(request), asked, event, outcome);
    assert(construct is Construct);
    let built = event0->Constructed_0;
    let stage1 = Stage::Posting(built);
    can_end_with_one_step(perform, stage1, ActionView::PostConnect, outcome);
    let (post, event1) = choose|asked: LinkAction, event: LinkEvent<H>|
        ends_through(perform, stage1, ActionView::PostConnect, asked, event, outcome);
    assert(post is PostConnect);
    let token = event1->Posted_0;
    let stage2 = Stage::Waiting(built, token);
    can_end_with_one_step(perform, stage2, ActionView::Wait(token), outcome);
    let (wait, event2) = choose|asked: LinkAction, event: LinkEvent<H>|
        ends_through(perform, stage2, ActionView::Wait(token), asked, event, outcome);
    assert(wait is Wait);
    let stage3 = Stage::Binding(built);
    can_end_with_one_step(perform, stage3, ActionView::Bind, outcome);
    let (bind, event3) = choose|asked: LinkAction, event: LinkEvent<H>|
        ends_through(perform, stage3, ActionView::Bind, asked, event, outcome);
    assert(bind is Bind);
}

/// Where no wait of `perform` returns the success code, every attempt on
/// the real path ends in a connection error.
pub proof fn unsuccessful_wait_means_connection_error<H, P>(
    perform: P,
    request: RequestView,
    outcome: ConnectionOutcome<H>,
) where P: Fn(&LinkAction, Option<&H>) -> LinkEvent<H>
    requires
        can_end_with(perform, Stage::Constructing, ActionView::Construct(request), outcome),
        forall|asked: LinkAction, handle: Option<&H>, event: LinkEvent<H>|
            asked is Wait && #[trigger] perform.ensures((&asked, handle), event) ==> !(event
                is Completed && is_success_code(event->Completed_0)),
    ensures
        outcome == ConnectionOutcome::<H>::Failed(SessionError::ConnectionError),
{
    let stage0 = Stage::<H>::Constructing;
    can_end_with_one_step(perform, stage0, ActionView::Construct(request), outcome);
    let (construct, event0) = choose|asked: LinkAction, event: LinkEvent<H>|
        ends_through(perform, stage0, ActionView::Construct(request), asked, event, outcome);
    if event0 is Constructed {
        let built = event0->Constructed_0;
        let stage1 = Stage::Posting(built);
        can_end_with_one_step(perform, stage1, ActionView::PostConnect, outcome);
        let (post, event1) = choose|asked: LinkAction, event: LinkEvent<H>|
            ends_through(perform, stage1, ActionView::PostConnect, asked, event, outcome);
        if event1 is Posted {
            let token = event1->Posted_0;
            let stage2 = Stage::Waiting(built, token);
            can_end_with_one_step(perform, stage2, ActionView::Wait(token), outcome);
            let (wait, event2) = choose|asked: LinkAction, event: LinkEvent<H>|
                ends_through(perform, stage2, ActionView::Wait(token), asked, event, outcome);
            assert(wait is Wait);
        }
    }
}

/// Where no binding of `perform` succeeds, every attempt on the real path
/// fails; and where everything before the binding does succeed, it fails
/// with a binding error.
pub proof fn unsuccessful_binding_means_failure<H, P>(
    perform: P,
    request: RequestView,
    outcome: ConnectionOutcome<H>,
) where P: Fn(&LinkAction, Option<&H>) -> LinkEvent<H>
    requires
        can_end_with(perform, Stage::Constructing, ActionView::Construct(request), outcome),
        forall|asked: LinkAction, handle: Option<&H>, event: LinkEvent<H>|
            asked is Bind && #[trigger] perform.ensures((&asked, handle), event) ==> event
                != LinkEvent::<H>::Bound(true),
    ensures
        outcome is Failed,
        (forall|asked: LinkAction, handle: Option<&H>, event: LinkEvent<H>| #[trigger]
            perform.ensures((&asked, handle), event) ==> match asked {
                LinkAction::Construct(_) => event is Constructed,
                LinkAction::PostConnect => event is Posted,
                LinkAction::Wait(_) => event is Completed && is_success_code(event->Completed_0),
                _ => true,
            }) ==> outcome == ConnectionOutcome::<H>::Failed(SessionError::BindingError),
{
    let stage0 = Stage::<H>::Constructing;
    can_end_with_one_step(perform, stage0, ActionView::Construct(request), outcome);
    let (construct, event0) = choose|asked: LinkAction, event: LinkEvent<H>|
        ends_through(perform, stage0, ActionView::Construct(request), asked, event, outcome);
    assert(construct is Construct);
    if event0 is Constructed {
        let built = event0->Constructed_0;
        let stage1 = Stage::Posting(built);
        can_end_with_one_step(perform, stage1, ActionView::PostConnect, outcome);
        let (post, event1) = choose|asked: LinkAction, event: LinkEvent<H>|
            ends_through(perform, stage1, ActionView::PostConnect, asked, event, outcome);
        assert(post is PostConnect);
        if event1 is Posted {
            let token = event1->Posted_0;
            let stage2 = Stage::Waiting(built, token);
            can_end_with_one_step(perform, stage2, ActionView::Wait(token), outcome);
            let (wait, event2) = choose|asked: LinkAction, event: LinkEvent<H>|
                ends_through(perform, stage2, ActionView::Wait(token), asked, event, outcome);
            assert(wait is Wait);
            if event2 is Completed && is_success_code(event2->Completed_0) {
                let stage3 = Stage::Binding(built);
                can_end_with_one_step(perform, stage3, ActionView::Bind, outcome);
                let (bind, event3) = choose|asked: LinkAction, event: LinkEvent<H>|
                    ends_through(perform, stage3, ActionView::Bind, asked, event, outcome);
                assert(bind is Bind);
            }
        }
    }
}

} // verus!
