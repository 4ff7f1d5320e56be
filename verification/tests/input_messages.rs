use desktop_pet::input::handler::{decode_message, WindowEvent, MENU_FEED};

#[test]
fn mouse_coordinates_from_lparam() {
    assert_eq!(decode_message(0x0200, 0, 0x0032_0064), WindowEvent::MouseMove { x: 0x64, y: 0x32 });
    assert_eq!(decode_message(0x0204, 0, 0x0010_0020), WindowEvent::RightButtonDown { x: 0x20, y: 0x10 });
    // a negative coordinate comes out as its 16-bit pattern
    assert_eq!(decode_message(0x0200, 0, 0x0005_FFFF), WindowEvent::MouseMove { x: 0xFFFF, y: 5 });
    assert_eq!(decode_message(0x0200, 0, -1), WindowEvent::MouseMove { x: 0xFFFF, y: 0xFFFF });
}

#[test]
fn command_takes_low_word() {
    assert_eq!(decode_message(0x0111, 0x0001_0000 + MENU_FEED as usize, 0), WindowEvent::Command { menu_id: MENU_FEED });
}

#[test]
fn other_messages() {
    assert_eq!(decode_message(0x0001, 0, 0), WindowEvent::Create);
    assert_eq!(decode_message(0x0002, 0, 0), WindowEvent::Destroy);
    assert_eq!(decode_message(0x000F, 0, 0), WindowEvent::Paint);
    assert_eq!(decode_message(0x0201, 0, 7), WindowEvent::LeftButtonDown);
    assert_eq!(decode_message(0x02A3, 0, 0), WindowEvent::MouseLeave);
    assert_eq!(decode_message(0x0312, 1, 0), WindowEvent::Hotkey);
    assert_eq!(decode_message(0x0100, 0, 0), WindowEvent::Other);
}
