use vstd::prelude::*;
use crate::geometry::Extent;
use crate::host::{After, Command, Input, OverlayHost, Phase, Turn, Visibility};
use crate::message::Message;
use crate::status::{presented, Outcome, Presented};

verus! {

/// The state after a run of outcomes, reported one after the other.
pub open spec fn driven(host: OverlayHost, outcomes: Seq<Outcome>) -> OverlayHost
    decreases outcomes.len(),
{
    if outcomes.len() == 0 {
        host
    } else {
        driven(host, outcomes.drop_last()).next(Input::Outcome(outcomes.last())).0
    }
}

/// Whatever the driver feeds a well-formed host, in whatever order, the
/// host stays well-formed. In particular, whenever no pass is under way
/// the surface is whole: it stands in full, bound to a back buffer of the
/// client area's size, or nothing of it stands.
pub proof fn surface_is_whole_between_passes(host: OverlayHost, inputs: Seq<Input>)
    requires
        host.wf(),
    ensures
        host.after(inputs).wf(),
        host.after(inputs).phase is Idle ==> {
            let end = host.after(inputs);
            end.surface.is_absent() || end.surface.is_live_at(end.client)
        },
    decreases inputs.len(),
{
    if inputs.len() > 0 {
        surface_is_whole_between_passes(host, inputs.drop_last());
        host.after(inputs.drop_last()).lemma_next_keeps_wf(inputs.last());
    }
}

/// A resize never leaves a partly built surface behind. Take a size
/// message for a window that is not minimized, and any outcomes of the
/// commands that follow it: the client area has the new size throughout,
/// and once the pass is over the surface stands in full on a back buffer of
/// exactly that size, or nothing of it stands.
pub proof fn resize_leaves_surface_whole(host: OverlayHost, extent: Extent, outcomes: Seq<Outcome>)
    requires
        host.wf(),
        host.phase is Idle,
    ensures
        ({
            let size = Input::Message(Message::Size { minimized: false, extent });
            let end = driven(host.next(size).0, outcomes);
            &&& end.wf()
            &&& end.client == extent
            &&& end.phase is Idle ==> end.surface.is_absent() || end.surface.is_live_at(extent)
        }),
    decreases outcomes.len(),
{
    let size = Input::Message(Message::Size { minimized: false, extent });
    if outcomes.len() == 0 {
        host.lemma_next_keeps_wf(size);
    } else {
        resize_leaves_surface_whole(host, extent, outcomes.drop_last());
        driven(host.next(size).0, outcomes.drop_last()).lemma_next_keeps_wf(
            Input::Outcome(outcomes.last()),
        );
    }
}

/// A teardown, once begun, runs the same course whatever state it found
/// and whatever each release reports: the content's sized resources, then
/// its device resources, then the drawing context, the swapchain and the
/// composition. When the last of them is gone, nothing of the surface
/// stands and the content holds nothing.
pub proof fn teardown_runs_in_order(
    host: OverlayHost,
    first: Outcome,
    second: Outcome,
    third: Outcome,
    fourth: Outcome,
    fifth: Outcome,
)
    requires
        host.phase is ReleaseSized,
    ensures
        ({
            let a = host.next(Input::Outcome(first));
            let b = a.0.next(Input::Outcome(second));
            let c = b.0.next(Input::Outcome(third));
            let d = c.0.next(Input::Outcome(fourth));
            let e = d.0.next(Input::Outcome(fifth));
            &&& a.0.content.sized is None
            &&& a.0.content.device == host.content.device
            &&& a.1 == Command::ReleaseContentResources
            &&& b.0.content.is_empty()
            &&& b.0.surface == host.surface
            &&& b.1 == Command::ReleaseContext
            &&& c.1 == Command::ReleaseSwapchain
            &&& d.1 == Command::ReleaseComposition
            &&& e.0.surface.is_absent()
            &&& e.0.content.is_empty()
        }),
{
}

/// The command that a step issues is the one that the host then waits
/// for; a command that ends the pass leaves no pass under way; and an
/// input that is turned away changes nothing.
pub proof fn issued_command_is_awaited(host: OverlayHost, input: Input)
    requires
        host.wf(),
    ensures
        ({
            let (then, command) = host.next(input);
            &&& command is Busy ==> then == host && !(host.phase is Idle)
            &&& command.ends_pass() && !(command is Busy) ==> then.phase is Idle
            &&& !command.ends_pass() ==> then.awaited() == Some(command)
        }),
{
}

/// The content's device resources are released strictly after its sized
/// resources: the release of the device tier is issued only in answer to
/// the outcome of the release of the sized tier, by which the sized tier
/// is gone. The content never holds sized resources without device
/// resources. And the drawing context outlives both tiers: it goes only
/// when the content holds nothing.
pub proof fn sized_resources_go_first(host: OverlayHost, input: Input)
    requires
        host.wf(),
    ensures
        host.next(input).1 == Command::ReleaseContentResources ==> {
            &&& host.phase is ReleaseSized
            &&& host.awaited() == Some(Command::ReleaseSizedResources)
            &&& input is Outcome
            &&& host.next(input).0.content.sized is None
        },
        host.content.device && !host.next(input).0.content.device ==> host.content.sized is None
            && host.awaited() == Some(Command::ReleaseContentResources),
        host.surface.context && !host.next(input).0.surface.context ==> host.content.is_empty(),
        host.next(input).0.content.ordered(),
{
}

/// Sized resources are never made before device resources, and a frame is
/// drawn only on a surface that stands in full with both tiers populated.
pub proof fn content_is_used_in_order(host: OverlayHost, input: Input)
    requires
        host.wf(),
    ensures
        host.next(input).1 == Command::CreateSizedResources ==> host.next(input).0.content.device
            && host.next(input).0.content.sized is None,
        host.next(input).1 == Command::CreateContentResources ==> host.next(
            input,
        ).0.surface.is_live(),
        host.next(input).1.is_render() ==> {
            let then = host.next(input).0;
            then.surface.is_live_at(then.client) && then.content.is_full_at(then.client)
        },
{
}

/// While the host is occluded no render is attempted: the loop waits for a
/// message, and no input draws or presents a frame. The host stays
/// occluded until the window is activated or the watch has been withdrawn,
/// and the withdrawal is begun only by a presentation test that succeeded
/// or by a clearance message that found no surface to test.
pub proof fn occluded_host_does_not_render(host: OverlayHost, input: Input)
    requires
        host.wf(),
        host.visibility is Occluded,
    ensures
        host.turn_of() == Turn::Wait,
        !host.next(input).1.is_render(),
        !(host.next(input).0.visibility is Occluded) ==> {
            ||| host.phase is Unwatch && input is Outcome
            ||| host.phase is Idle && input == Input::Message(Message::Activate)
        },
        host.next(input).0.phase is Unwatch && !(host.phase is Unwatch) ==> {
            ||| host.phase is Probe && input is Outcome && presented(input->Outcome_0.code())
                is Shown
            ||| host.phase is Idle && input == Input::Message(Message::OcclusionCleared)
                && !host.surface.context
        },
{
}

/// Activation makes the host visible, whatever it was before, and changes
/// nothing else: surface, content, client area and a registered watch stay
/// as they were, and nothing is rendered in answer to the message.
pub proof fn activation_only_shows(host: OverlayHost)
    requires
        host.phase is Idle,
    ensures
        host.next(Input::Message(Message::Activate)) == (
            OverlayHost { visibility: Visibility::Visible, ..host },
            Command::Done,
        ),
{
}

/// A watch is withdrawn only on the clearance message: after its
/// presentation test has succeeded, or at once where no surface stands to
/// test. The host is visible afterwards.
pub proof fn watch_is_withdrawn_on_clearance(host: OverlayHost, input: Input)
    requires
        host.wf(),
        host.watch is Some,
        host.next(input).0.watch is None,
    ensures
        host.phase is Unwatch,
        input is Outcome,
        host.next(input).0.visibility is Visible,
        host.next(input).1 == Command::Done,
{
}

/// The host becomes occluded in one way only: a presentation reported the
/// occlusion, and the watch for its clearance was registered.
pub proof fn occlusion_comes_from_presentation(host: OverlayHost, input: Input)
    requires
        host.wf(),
        !(host.visibility is Occluded),
        host.next(input).0.visibility is Occluded,
    ensures
        host.phase is Watch,
        input is Outcome,
        input->Outcome_0 is Watching,
        host.next(input).0.watch == Some(input->Outcome_0->Watching_0),
        host.next(input).1 == Command::Done,
{
}

/// A surface that stands is not built again: a frame on a live surface
/// goes straight to drawing.
pub proof fn live_surface_is_kept(host: OverlayHost)
    requires
        host.wf(),
        host.phase is Idle,
        host.surface.is_live(),
        !(host.visibility is Occluded),
    ensures
        host.next(Input::Frame) == (host.at(Phase::Draw), Command::Draw),
{
}

/// An upper bound on the number of outcomes that a pass still takes.
pub open spec fn steps_left(host: OverlayHost) -> nat {
    match host.phase {
        Phase::Idle => 0,
        Phase::Unwatch => 1,
        Phase::Probe => 2,
        Phase::Watch => 1,
        Phase::Present => 6,
        Phase::Draw => 7,
        Phase::ContentSized => 8,
        Phase::ContentDevice => 9,
        Phase::Composition => 10,
        Phase::Backbuffer => 11,
        Phase::Context => 12,
        Phase::Swapchain => 13,
        Phase::Device(adapter) => if adapter is Software {
            14
        } else {
            15
        },
        Phase::ReleaseComposition(after) => 1 + rebuild_steps(after),
        Phase::ReleaseSwapchain(after) => 2 + rebuild_steps(after),
        Phase::ReleaseContext(after) => 3 + rebuild_steps(after),
        Phase::ReleaseDevice(after) => 4 + rebuild_steps(after),
        Phase::ReleaseSized(after) => 5 + rebuild_steps(after),
        Phase::Recreate => 21,
        Phase::Discard => 22,
        Phase::Reattach => 23,
        Phase::Resize => 24,
        Phase::Detach => 25,
    }
}

/// The steps that follow a teardown: a whole frame on a new surface where
/// one is to be rendered, and none otherwise.
pub open spec fn rebuild_steps(after: After) -> nat {
    if after is Render {
        15
    } else {
        0
    }
}

/// Every pass ends. Each outcome brings a pass closer to its end, so that
/// the driver's exchange with the host, command for outcome, is over after
/// at most 25 outcomes, whatever they are.
pub proof fn every_pass_ends(host: OverlayHost, outcome: Outcome)
    requires
        host.wf(),
        !(host.phase is Idle),
    ensures
        steps_left(host.next(Input::Outcome(outcome)).0) < steps_left(host) <= 25,
        steps_left(host.next(Input::Outcome(outcome)).0) == 0 <==> host.next(
            Input::Outcome(outcome),
        ).1.ends_pass(),
{
}

/// A presentation that fails is never reported upward: an occluded one
/// leads to the watch, and any other failure to a teardown after which the
/// pass simply ends, with visibility as it was.
pub proof fn presentation_failures_are_recovered(host: OverlayHost, outcome: Outcome)
    requires
        host.wf(),
        host.phase is Present,
    ensures
        ({
            let (then, command) = host.next(Input::Outcome(outcome));
            &&& !(command is Fatal)
            &&& then.visibility == host.visibility
            &&& match presented(outcome.code()) {
                Presented::Shown => command == Command::Done && then == host.at(Phase::Idle),
                Presented::Occluded => command == Command::WatchOcclusion,
                Presented::Lost => command == Command::ReleaseSizedResources && then.phase
                    == Phase::ReleaseSized(After::Done),
            }
        }),
{
}

} // verus!
