use overlay_host::geometry::Extent;
use overlay_host::host::{Adapter, After, Command, Input, OverlayHost, Phase, Turn, Visibility};
use overlay_host::message::Message;
use overlay_host::status::{Outcome, ERROR_UNSUPPORTED, STATUS_OCCLUDED};

const DEVICE_REMOVED: i32 = -2005270523;
const GENERIC_FAILURE: i32 = -2147467259;

fn client() -> Extent {
    Extent::new(300, 300)
}

/// Feeds an input and then one outcome per command until the pass is over
/// or the outcomes run out; returns every command that was issued.
fn drive(host: &mut OverlayHost, input: Input, outcomes: &[Outcome]) -> Vec<Command> {
    let mut issued = vec![host.step(input)];
    for outcome in outcomes {
        if issued.last().unwrap().is_final() {
            break;
        }
        issued.push(host.step(Input::Outcome(*outcome)));
    }
    issued
}

fn ok(count: usize) -> Vec<Outcome> {
    vec![Outcome::ok(); count]
}

/// A host whose surface stands and which has been activated.
fn visible_host() -> OverlayHost {
    let mut host = OverlayHost::new(client());
    assert_eq!(host.step(Input::Message(Message::Activate)), Command::Done);
    let issued = drive(&mut host, Input::Frame, &ok(9));
    assert_eq!(issued.last(), Some(&Command::Done));
    host
}

/// A host on which a presentation was reported occluded, watched under
/// cookie 7.
fn occluded_host() -> OverlayHost {
    let mut host = visible_host();
    assert_eq!(host.step(Input::Frame), Command::Draw);
    assert_eq!(host.step(Input::Outcome(Outcome::ok())), Command::Present);
    assert_eq!(
        host.step(Input::Outcome(Outcome::Status(STATUS_OCCLUDED))),
        Command::WatchOcclusion
    );
    assert_eq!(host.step(Input::Outcome(Outcome::Watching(7))), Command::Done);
    host
}

#[test]
fn new_host_is_hidden_and_empty() {
    let host = OverlayHost::new(client());
    assert_eq!(host.visibility, Visibility::Hidden);
    assert_eq!(host.watch, None);
    assert_eq!(host.client, client());
    assert!(host.surface.torn_down());
    assert!(!host.content.drawable());
    assert!(host.is_idle());
    assert_eq!(host.turn(), Turn::Wait);
}

#[test]
fn first_frame_builds_the_surface_in_order() {
    let mut host = OverlayHost::new(client());
    let issued = drive(&mut host, Input::Frame, &ok(9));
    assert_eq!(
        issued,
        vec![
            Command::CreateDevice(Adapter::Hardware),
            Command::CreateSwapchain(client()),
            Command::CreateContext,
            Command::AttachBackbuffer,
            Command::Compose,
            Command::CreateContentResources,
            Command::CreateSizedResources,
            Command::Draw,
            Command::Present,
            Command::Done,
        ]
    );
    assert!(host.is_idle());
    assert!(host.surface.live());
    assert_eq!(host.surface.backbuffer, Some(client()));
    assert!(host.content.device);
    assert_eq!(host.content.sized, Some(client()));
}

#[test]
fn frame_on_live_surface_builds_nothing() {
    let mut host = visible_host();
    let issued = drive(&mut host, Input::Frame, &ok(2));
    assert_eq!(issued, vec![Command::Draw, Command::Present, Command::Done]);
}

#[test]
fn unsupported_hardware_falls_back_to_software() {
    let mut host = OverlayHost::new(client());
    assert_eq!(host.step(Input::Frame), Command::CreateDevice(Adapter::Hardware));
    assert_eq!(
        host.step(Input::Outcome(Outcome::Status(ERROR_UNSUPPORTED))),
        Command::CreateDevice(Adapter::Software)
    );
    assert_eq!(host.phase, Phase::Device(Adapter::Software));
    assert_eq!(host.step(Input::Outcome(Outcome::ok())), Command::CreateSwapchain(client()));
}

#[test]
fn unsupported_software_is_fatal() {
    let mut host = OverlayHost::new(client());
    host.step(Input::Frame);
    host.step(Input::Outcome(Outcome::Status(ERROR_UNSUPPORTED)));
    assert_eq!(host.step(Input::Outcome(Outcome::Status(ERROR_UNSUPPORTED))), Command::Fatal);
    assert!(host.is_idle());
    assert!(host.surface.torn_down());
}

#[test]
fn other_device_failure_is_fatal_without_fallback() {
    let mut host = OverlayHost::new(client());
    host.step(Input::Frame);
    assert_eq!(host.step(Input::Outcome(Outcome::Status(GENERIC_FAILURE))), Command::Fatal);
    assert!(host.is_idle());
}

#[test]
fn failure_while_building_releases_what_was_built_and_is_fatal() {
    let mut host = OverlayHost::new(client());
    let mut outcomes = ok(3);
    outcomes.push(Outcome::Status(GENERIC_FAILURE));
    outcomes.extend(ok(5));
    let issued = drive(&mut host, Input::Frame, &outcomes);
    assert_eq!(
        issued,
        vec![
            Command::CreateDevice(Adapter::Hardware),
            Command::CreateSwapchain(client()),
            Command::CreateContext,
            Command::AttachBackbuffer,
            Command::ReleaseSizedResources,
            Command::ReleaseContentResources,
            Command::ReleaseContext,
            Command::ReleaseSwapchain,
            Command::ReleaseComposition,
            Command::Fatal,
        ]
    );
    assert!(host.is_idle());
    assert!(host.surface.torn_down());
}

#[test]
fn content_failure_counts_as_device_loss() {
    let mut host = OverlayHost::new(client());
    let mut outcomes = ok(6);
    outcomes.push(Outcome::Status(GENERIC_FAILURE));
    outcomes.extend(ok(5));
    let issued = drive(&mut host, Input::Frame, &outcomes);
    assert_eq!(
        &issued[6..],
        &[
            Command::CreateSizedResources,
            Command::ReleaseSizedResources,
            Command::ReleaseContentResources,
            Command::ReleaseContext,
            Command::ReleaseSwapchain,
            Command::ReleaseComposition,
            Command::Done,
        ]
    );
    assert!(host.surface.torn_down());
    assert!(!host.content.device);
    assert_eq!(host.content.sized, None);
}

#[test]
fn draw_failure_is_fatal() {
    let mut host = visible_host();
    assert_eq!(host.step(Input::Frame), Command::Draw);
    assert_eq!(host.step(Input::Outcome(Outcome::Status(GENERIC_FAILURE))), Command::Fatal);
    assert!(host.is_idle());
}

#[test]
fn occluded_presentation_stops_rendering_until_cleared() {
    let mut host = occluded_host();
    assert_eq!(host.visibility, Visibility::Occluded);
    assert_eq!(host.watch, Some(7));
    assert!(host.is_idle());
    assert!(host.surface.live());

    // No render is attempted, whatever arrives.
    assert_eq!(host.turn(), Turn::Wait);
    assert_eq!(host.step(Input::Frame), Command::Done);
    assert_eq!(host.step(Input::Message(Message::Paint)), Command::Done);
    assert_eq!(host.step(Input::Message(Message::DisplayChange)), Command::Done);
    assert_eq!(host.visibility, Visibility::Occluded);

    // A test that still reports the occlusion changes nothing.
    assert_eq!(host.step(Input::Message(Message::OcclusionCleared)), Command::TestPresent);
    assert_eq!(host.step(Input::Outcome(Outcome::Status(STATUS_OCCLUDED))), Command::Done);
    assert_eq!(host.visibility, Visibility::Occluded);
    assert_eq!(host.step(Input::Frame), Command::Done);

    // Nor does a test that fails.
    assert_eq!(host.step(Input::Message(Message::OcclusionCleared)), Command::TestPresent);
    assert_eq!(host.step(Input::Outcome(Outcome::Status(DEVICE_REMOVED))), Command::Done);
    assert_eq!(host.visibility, Visibility::Occluded);

    // A test that succeeds withdraws the watch and makes the host visible.
    assert_eq!(host.step(Input::Message(Message::OcclusionCleared)), Command::TestPresent);
    assert_eq!(host.step(Input::Outcome(Outcome::ok())), Command::UnwatchOcclusion(7));
    assert_eq!(host.visibility, Visibility::Occluded);
    assert_eq!(host.step(Input::Outcome(Outcome::ok())), Command::Done);
    assert_eq!(host.visibility, Visibility::Visible);
    assert_eq!(host.watch, None);
    assert_eq!(host.turn(), Turn::Render);
    assert_eq!(host.step(Input::Frame), Command::Draw);
}

#[test]
fn failed_watch_registration_is_fatal() {
    let mut host = visible_host();
    host.step(Input::Frame);
    host.step(Input::Outcome(Outcome::ok()));
    assert_eq!(
        host.step(Input::Outcome(Outcome::Status(STATUS_OCCLUDED))),
        Command::WatchOcclusion
    );
    assert_eq!(host.step(Input::Outcome(Outcome::Status(GENERIC_FAILURE))), Command::Fatal);
    assert_eq!(host.visibility, Visibility::Visible);
    assert_eq!(host.watch, None);
}

#[test]
fn activation_while_occluded_only_makes_the_host_visible() {
    let mut host = occluded_host();
    let before = host;
    assert_eq!(host.step(Input::Message(Message::Activate)), Command::Done);
    assert_eq!(host.visibility, Visibility::Visible);
    assert_eq!(host.watch, Some(7));
    assert_eq!(host.surface, before.surface);
    assert_eq!(host.content, before.content);
    assert_eq!(host.client, before.client);
    assert!(host.is_idle());
    assert_eq!(host.turn(), Turn::Render);

    // The watch is withdrawn when the clearance message's test succeeds.
    assert_eq!(host.step(Input::Message(Message::OcclusionCleared)), Command::TestPresent);
    assert_eq!(host.step(Input::Outcome(Outcome::ok())), Command::UnwatchOcclusion(7));
    assert_eq!(host.step(Input::Outcome(Outcome::ok())), Command::Done);
    assert_eq!(host.visibility, Visibility::Visible);
    assert_eq!(host.watch, None);
}

#[test]
fn activation_changes_only_the_visibility_in_every_state() {
    for mut host in [OverlayHost::new(client()), visible_host(), occluded_host()] {
        let before = host;
        assert_eq!(host.step(Input::Message(Message::Activate)), Command::Done);
        assert_eq!(host, OverlayHost { visibility: Visibility::Visible, ..before });
    }
}

#[test]
fn a_new_occlusion_registers_a_new_watch() {
    let mut host = occluded_host();
    host.step(Input::Message(Message::Activate));
    assert_eq!(host.step(Input::Frame), Command::Draw);
    assert_eq!(host.step(Input::Outcome(Outcome::ok())), Command::Present);
    assert_eq!(
        host.step(Input::Outcome(Outcome::Status(STATUS_OCCLUDED))),
        Command::WatchOcclusion
    );
    assert_eq!(host.step(Input::Outcome(Outcome::Watching(8))), Command::Done);
    assert_eq!(host.visibility, Visibility::Occluded);
    assert_eq!(host.watch, Some(8));
}

#[test]
fn clearance_without_a_watch_is_ignored() {
    let mut host = visible_host();
    assert_eq!(host.step(Input::Message(Message::OcclusionCleared)), Command::Done);
    assert_eq!(host.visibility, Visibility::Visible);
    let mut hidden = OverlayHost::new(client());
    assert_eq!(hidden.step(Input::Message(Message::OcclusionCleared)), Command::Done);
    assert_eq!(hidden.visibility, Visibility::Hidden);
}

#[test]
fn device_loss_releases_everything_and_next_frame_rebuilds_once() {
    let mut host = visible_host();
    let mut outcomes = vec![Outcome::ok(), Outcome::Status(DEVICE_REMOVED)];
    outcomes.extend(ok(5));
    let issued = drive(&mut host, Input::Frame, &outcomes);
    assert_eq!(
        issued,
        vec![
            Command::Draw,
            Command::Present,
            Command::ReleaseSizedResources,
            Command::ReleaseContentResources,
            Command::ReleaseContext,
            Command::ReleaseSwapchain,
            Command::ReleaseComposition,
            Command::Done,
        ]
    );
    assert!(host.is_idle());
    assert!(host.surface.torn_down());
    assert!(!host.content.device);
    assert_eq!(host.content.sized, None);
    assert_eq!(host.visibility, Visibility::Visible);

    let rebuilt = drive(&mut host, Input::Frame, &ok(9));
    assert_eq!(
        rebuilt,
        vec![
            Command::CreateDevice(Adapter::Hardware),
            Command::CreateSwapchain(client()),
            Command::CreateContext,
            Command::AttachBackbuffer,
            Command::Compose,
            Command::CreateContentResources,
            Command::CreateSizedResources,
            Command::Draw,
            Command::Present,
            Command::Done,
        ]
    );
    let count = |wanted: Command| rebuilt.iter().filter(|c| **c == wanted).count();
    assert_eq!(count(Command::CreateSwapchain(client())), 1);
    assert_eq!(count(Command::CreateContentResources), 1);
    assert_eq!(count(Command::CreateSizedResources), 1);
    assert!(host.surface.live());

    // And the frame after that builds nothing.
    assert_eq!(drive(&mut host, Input::Frame, &ok(2)), vec![
        Command::Draw,
        Command::Present,
        Command::Done
    ]);
}

#[test]
fn teardown_releases_sized_before_device_resources() {
    let mut host = visible_host();
    let issued = drive(&mut host, Input::Shutdown, &ok(5));
    assert_eq!(
        issued,
        vec![
            Command::ReleaseSizedResources,
            Command::ReleaseContentResources,
            Command::ReleaseContext,
            Command::ReleaseSwapchain,
            Command::ReleaseComposition,
            Command::Done,
        ]
    );
    assert!(host.surface.torn_down());
}

#[test]
fn teardown_goes_on_whatever_the_releases_report() {
    let mut host = visible_host();
    let failures = vec![Outcome::Status(GENERIC_FAILURE); 5];
    let issued = drive(&mut host, Input::Shutdown, &failures);
    assert_eq!(issued.len(), 6);
    assert_eq!(issued[1], Command::ReleaseContentResources);
    assert_eq!(issued[5], Command::Done);
    assert!(host.surface.torn_down());
    assert!(!host.content.device);
}

#[test]
fn teardown_tiers_go_one_after_the_other() {
    let mut host = visible_host();
    assert_eq!(host.step(Input::Shutdown), Command::ReleaseSizedResources);
    assert_eq!(host.phase, Phase::ReleaseSized(After::Done));
    assert!(host.content.device && host.content.sized.is_some());
    assert_eq!(host.step(Input::Outcome(Outcome::ok())), Command::ReleaseContentResources);
    assert!(host.content.device && host.content.sized.is_none());
    assert!(host.surface.context);
    assert_eq!(host.step(Input::Outcome(Outcome::ok())), Command::ReleaseContext);
    assert!(!host.content.device);
    assert!(host.surface.context);
    assert_eq!(host.step(Input::Outcome(Outcome::ok())), Command::ReleaseSwapchain);
    assert!(!host.surface.context && host.surface.swapchain);
}

#[test]
fn resize_in_place_rebinds_and_renders() {
    let mut host = visible_host();
    let larger = Extent::new(640, 480);
    let size = Input::Message(Message::Size { minimized: false, extent: larger });
    let issued = drive(&mut host, size, &ok(7));
    assert_eq!(
        issued,
        vec![
            Command::DetachBackbuffer,
            Command::ResizeBuffers(larger),
            Command::AttachBackbuffer,
            Command::ReleaseSizedResources,
            Command::CreateSizedResources,
            Command::Draw,
            Command::Present,
            Command::Done,
        ]
    );
    assert_eq!(host.client, larger);
    assert!(host.surface.live());
    assert_eq!(host.surface.backbuffer, Some(larger));
    assert_eq!(host.content.sized, Some(larger));
}

#[test]
fn failed_buffer_resize_tears_down_and_rebuilds() {
    let mut host = visible_host();
    let larger = Extent::new(640, 480);
    let size = Input::Message(Message::Size { minimized: false, extent: larger });
    let mut outcomes = vec![Outcome::ok(), Outcome::Status(GENERIC_FAILURE)];
    outcomes.extend(ok(14));
    let issued = drive(&mut host, size, &outcomes);
    assert_eq!(
        issued,
        vec![
            Command::DetachBackbuffer,
            Command::ResizeBuffers(larger),
            Command::ReleaseSizedResources,
            Command::ReleaseContentResources,
            Command::ReleaseContext,
            Command::ReleaseSwapchain,
            Command::ReleaseComposition,
            Command::CreateDevice(Adapter::Hardware),
            Command::CreateSwapchain(larger),
            Command::CreateContext,
            Command::AttachBackbuffer,
            Command::Compose,
            Command::CreateContentResources,
            Command::CreateSizedResources,
            Command::Draw,
            Command::Present,
            Command::Done,
        ]
    );
    assert_eq!(host.surface.backbuffer, Some(larger));
}

#[test]
fn every_way_a_resize_can_fail_leaves_the_surface_whole() {
    let larger = Extent::new(800, 600);
    let size = Input::Message(Message::Size { minimized: false, extent: larger });
    for failing in 0..17 {
        let mut host = visible_host();
        let mut command = host.step(size);
        let mut reported = 0;
        while !command.is_final() {
            let outcome = if reported == failing {
                Outcome::Status(GENERIC_FAILURE)
            } else {
                Outcome::ok()
            };
            command = host.step(Input::Outcome(outcome));
            reported += 1;
            assert!(reported <= 25);
        }
        assert!(host.is_idle());
        assert_eq!(host.client, larger);
        assert!(
            host.surface.torn_down()
                || (host.surface.live() && host.surface.backbuffer == Some(larger))
        );
    }
}

#[test]
fn minimizing_changes_nothing() {
    let mut host = visible_host();
    let before = host;
    let size = Message::Size { minimized: true, extent: Extent::new(0, 0) };
    assert_eq!(host.step(Input::Message(size)), Command::Done);
    assert_eq!(host, before);
}

#[test]
fn resize_without_a_surface_renders_at_the_new_size() {
    let mut host = OverlayHost::new(client());
    let larger = Extent::new(640, 480);
    let size = Input::Message(Message::Size { minimized: false, extent: larger });
    assert_eq!(host.step(size), Command::CreateDevice(Adapter::Hardware));
    assert_eq!(host.step(Input::Outcome(Outcome::ok())), Command::CreateSwapchain(larger));
}

#[test]
fn resize_while_occluded_does_not_render() {
    let mut host = occluded_host();
    let larger = Extent::new(640, 480);
    let size = Input::Message(Message::Size { minimized: false, extent: larger });
    let issued = drive(&mut host, size, &ok(7));
    assert_eq!(
        issued,
        vec![
            Command::DetachBackbuffer,
            Command::ResizeBuffers(larger),
            Command::AttachBackbuffer,
            Command::ReleaseSizedResources,
            Command::CreateSizedResources,
            Command::Done,
        ]
    );
    assert!(issued.iter().all(|command| !command.renders()));
    assert_eq!(host.visibility, Visibility::Occluded);
}

#[test]
fn clearance_with_no_surface_to_test_withdraws_the_watch() {
    let mut host = occluded_host();
    let size = Input::Message(Message::Size { minimized: false, extent: Extent::new(1, 1) });
    let mut outcomes = vec![Outcome::ok(), Outcome::Status(GENERIC_FAILURE)];
    outcomes.extend(ok(5));
    let issued = drive(&mut host, size, &outcomes);
    assert_eq!(issued.last(), Some(&Command::Done));
    assert!(host.surface.torn_down());
    assert_eq!(host.visibility, Visibility::Occluded);
    assert_eq!(host.step(Input::Message(Message::OcclusionCleared)), Command::UnwatchOcclusion(7));
    assert_eq!(host.step(Input::Outcome(Outcome::ok())), Command::Done);
    assert_eq!(host.visibility, Visibility::Visible);
}

#[test]
fn paint_renders_while_hidden() {
    let mut host = OverlayHost::new(client());
    assert_eq!(host.step(Input::Message(Message::Paint)), Command::CreateDevice(Adapter::Hardware));
    let mut other = OverlayHost::new(client());
    assert_eq!(
        other.step(Input::Message(Message::DisplayChange)),
        Command::CreateDevice(Adapter::Hardware)
    );
}

#[test]
fn activation_makes_the_host_visible() {
    let mut host = OverlayHost::new(client());
    assert_eq!(host.turn(), Turn::Wait);
    assert_eq!(host.step(Input::Message(Message::Activate)), Command::Done);
    assert_eq!(host.visibility, Visibility::Visible);
    assert_eq!(host.turn(), Turn::Render);
}

#[test]
fn destroy_posts_quit_and_other_messages_get_default_processing() {
    let mut host = visible_host();
    let before = host;
    assert_eq!(host.step(Input::Message(Message::Destroy)), Command::PostQuit);
    assert_eq!(host.step(Input::Message(Message::Other)), Command::DefaultProcessing);
    assert_eq!(host, before);
}

#[test]
fn inputs_during_a_pass_are_turned_away() {
    let mut host = OverlayHost::new(client());
    host.step(Input::Frame);
    let during = host;
    assert_eq!(host.step(Input::Frame), Command::Busy);
    assert_eq!(host.step(Input::Message(Message::Paint)), Command::Busy);
    assert_eq!(host.step(Input::Message(Message::Destroy)), Command::Busy);
    assert_eq!(host.step(Input::Shutdown), Command::Busy);
    assert_eq!(host, during);
}

#[test]
fn outcome_without_a_pass_is_ignored() {
    let mut host = visible_host();
    let before = host;
    assert_eq!(host.step(Input::Outcome(Outcome::Status(GENERIC_FAILURE))), Command::Done);
    assert_eq!(host, before);
}

#[test]
fn commands_that_end_a_pass() {
    assert!(Command::Done.is_final());
    assert!(Command::Fatal.is_final());
    assert!(Command::Busy.is_final());
    assert!(Command::PostQuit.is_final());
    assert!(Command::DefaultProcessing.is_final());
    assert!(!Command::Draw.is_final());
    assert!(!Command::UnwatchOcclusion(1).is_final());
    assert!(Command::Draw.renders());
    assert!(Command::Present.renders());
    assert!(!Command::TestPresent.renders());
}

#[test]
fn the_host_names_the_command_it_waits_for() {
    let mut host = OverlayHost::new(client());
    assert_eq!(host.awaiting(), None);
    let mut command = host.step(Input::Frame);
    let mut steps = 0;
    while !command.is_final() {
        assert_eq!(host.awaiting(), Some(command));
        command = host.step(Input::Outcome(Outcome::ok()));
        steps += 1;
    }
    assert_eq!(steps, 9);
    assert_eq!(host.awaiting(), None);

    let mut occluded = occluded_host();
    occluded.step(Input::Message(Message::OcclusionCleared));
    assert_eq!(occluded.awaiting(), Some(Command::TestPresent));
    occluded.step(Input::Outcome(Outcome::ok()));
    assert_eq!(occluded.awaiting(), Some(Command::UnwatchOcclusion(7)));
}

#[test]
fn device_resources_are_released_only_in_answer_to_the_sized_release() {
    let larger = Extent::new(800, 600);
    let size = Input::Message(Message::Size { minimized: false, extent: larger });
    for failing in 0..17 {
        let mut host = visible_host();
        let mut last = host.step(size);
        let mut reported = 0;
        while !last.is_final() {
            let outcome = if reported == failing {
                Outcome::Status(GENERIC_FAILURE)
            } else {
                Outcome::ok()
            };
            let had_sized = host.content.sized.is_some();
            let command = host.step(Input::Outcome(outcome));
            if command == Command::ReleaseContentResources {
                assert_eq!(last, Command::ReleaseSizedResources);
                assert_eq!(host.content.sized, None);
            }
            if command == Command::ReleaseContext {
                assert!(!host.content.device);
                assert!(!had_sized);
            }
            assert!(host.content.sized.is_none() || host.content.device);
            assert!(!host.content.device || host.surface.context);
            last = command;
            reported += 1;
        }
    }
}

#[test]
fn the_longest_pass_takes_twenty_five_outcomes() {
    // A resize whose last step fails, a rebuild that has to fall back to
    // software, and a presentation that loses the device again.
    let mut host = visible_host();
    let size = Input::Message(Message::Size { minimized: false, extent: Extent::new(9, 9) });
    let mut command = host.step(size);
    let mut reported = 0;
    while !command.is_final() {
        let outcome = match command {
            Command::CreateSizedResources if reported == 4 => Outcome::Status(GENERIC_FAILURE),
            Command::CreateDevice(Adapter::Hardware) => Outcome::Status(ERROR_UNSUPPORTED),
            Command::Present => Outcome::Status(DEVICE_REMOVED),
            _ => Outcome::ok(),
        };
        command = host.step(Input::Outcome(outcome));
        reported += 1;
    }
    assert_eq!(command, Command::Done);
    assert_eq!(reported, 25);
    assert!(host.surface.torn_down());
}
