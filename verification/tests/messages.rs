use overlay_host::geometry::Extent;
use overlay_host::message::{pump, route, Message, Pump, Route};
use overlay_host::status::{
    classify_device, classify_present, DeviceAnswer, Outcome, Presented, ERROR_UNSUPPORTED,
    STATUS_OCCLUDED,
};

#[test]
fn decodes_the_messages_the_host_reacts_to() {
    assert_eq!(Message::decode(0x000F, 0, 0), Message::Paint);
    assert_eq!(Message::decode(0x007E, 32, 0x0438_0780), Message::DisplayChange);
    assert_eq!(Message::decode(0x0400, 0, 0), Message::OcclusionCleared);
    assert_eq!(Message::decode(0x0006, 1, 0), Message::Activate);
    assert_eq!(Message::decode(0x0002, 0, 0), Message::Destroy);
    assert_eq!(Message::decode(0x0001, 0, 0), Message::Other);
    assert_eq!(Message::decode(0x0012, 0, 0), Message::Other);
}

#[test]
fn size_message_carries_the_client_extent() {
    let lparam: isize = (200 << 16) | 300;
    assert_eq!(
        Message::decode(0x0005, 0, lparam),
        Message::Size { minimized: false, extent: Extent::new(300, 200) }
    );
    assert_eq!(
        Message::decode(0x0005, 2, lparam),
        Message::Size { minimized: false, extent: Extent::new(300, 200) }
    );
    assert_eq!(
        Message::decode(0x0005, 1, 0),
        Message::Size { minimized: true, extent: Extent::new(0, 0) }
    );
}

#[test]
fn size_message_reads_a_negative_parameter_bit_by_bit() {
    assert_eq!(
        Message::decode(0x0005, 0, -1),
        Message::Size { minimized: false, extent: Extent::new(0xFFFF, 0xFFFF) }
    );
    let lparam: isize = -((1 << 16) + 2);
    assert_eq!(
        Message::decode(0x0005, 0, lparam),
        Message::Size { minimized: false, extent: Extent::new(0xFFFE, 0xFFFE) }
    );
    assert_eq!(
        Message::decode(0x0005, 0, 0x7FFF_FFFF),
        Message::Size { minimized: false, extent: Extent::new(0xFFFF, 0x7FFF) }
    );
}

#[test]
fn only_the_quit_message_ends_the_loop() {
    assert_eq!(pump(0x0012), Pump::Quit);
    assert_eq!(pump(0x000F), Pump::Dispatch);
    assert_eq!(pump(0x0002), Pump::Dispatch);
    assert_eq!(pump(0), Pump::Dispatch);
}

#[test]
fn window_procedure_routes_by_creation_and_attachment() {
    assert_eq!(route(0x0081, false), Route::Attach);
    assert_eq!(route(0x0081, true), Route::Attach);
    assert_eq!(route(0x000F, true), Route::Deliver);
    assert_eq!(route(0x000F, false), Route::Default);
}

#[test]
fn presentation_status_is_classified() {
    assert_eq!(classify_present(0), Presented::Shown);
    assert_eq!(classify_present(1), Presented::Shown);
    assert_eq!(classify_present(STATUS_OCCLUDED), Presented::Occluded);
    assert_eq!(classify_present(0x087A_0001), Presented::Occluded);
    assert_eq!(classify_present(-2005270523), Presented::Lost);
    assert_eq!(classify_present(ERROR_UNSUPPORTED), Presented::Lost);
    assert_eq!(classify_present(i32::MIN), Presented::Lost);
}

#[test]
fn device_status_is_classified() {
    assert_eq!(classify_device(0), DeviceAnswer::Created);
    assert_eq!(classify_device(ERROR_UNSUPPORTED), DeviceAnswer::Unsupported);
    assert_eq!(classify_device(0x887A_0004_u32 as i32), DeviceAnswer::Unsupported);
    assert_eq!(classify_device(-2147467259), DeviceAnswer::Failed);
}

#[test]
fn outcome_status_and_success() {
    assert_eq!(Outcome::ok(), Outcome::Status(0));
    assert_eq!(Outcome::Status(-5).status(), -5);
    assert_eq!(Outcome::Watching(9).status(), 0);
    assert!(Outcome::Status(0).is_success());
    assert!(Outcome::Status(STATUS_OCCLUDED).is_success());
    assert!(Outcome::Watching(9).is_success());
    assert!(!Outcome::Status(-1).is_success());
}
