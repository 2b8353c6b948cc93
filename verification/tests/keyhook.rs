use overlay_host::keyhook::{classify, Direction, HookMessage, KeyData};

fn key() -> KeyData {
    KeyData { vk_code: 0x41, scan_code: 0x1E, flags: 0x80, time: 123_456, extra_info: 7 }
}

#[test]
fn key_messages_are_classified() {
    assert_eq!(
        classify(0x0100, key()),
        HookMessage::Key { direction: Direction::Down, sys: false, data: key() }
    );
    assert_eq!(
        classify(0x0101, key()),
        HookMessage::Key { direction: Direction::Up, sys: false, data: key() }
    );
    assert_eq!(
        classify(0x0104, key()),
        HookMessage::Key { direction: Direction::Down, sys: true, data: key() }
    );
    assert_eq!(
        classify(0x0105, key()),
        HookMessage::Key { direction: Direction::Up, sys: true, data: key() }
    );
}

#[test]
fn any_other_message_counts_as_a_plain_release() {
    for message in [0, 0x0102, 0x0103, 0x0106, u32::MAX] {
        assert_eq!(
            classify(message, key()),
            HookMessage::Key { direction: Direction::Up, sys: false, data: key() }
        );
    }
}
