use simtools::color::Color;
use simtools::devices::brows::BrowsFrame;
use simtools::devices::buttons::{calculate_checksum, color_package};
use simtools::devices::display::{
    next_address, pixel_address, wrap_length_command, write_command, write_commands,
    write_pixel_command, DeviceDetails,
};
use simtools::devices::rpm_leds::{commit_command, LedNumber, RpmLedsFrame};
use simtools::devices::span_on_device;
use simtools::led::effects::{LedConfiguration, LedGroup};
use simtools::positive::Positive;

fn group(start_position: usize, leds: Vec<LedConfiguration>) -> LedGroup {
    LedGroup { start_position: Positive::new(start_position).unwrap(), leds }
}

fn on(r: u8, g: u8, b: u8) -> LedConfiguration {
    LedConfiguration::On { color: Color { r, g, b, a: 255 } }
}

#[test]
fn checksum() {
    const EXAMPLE_PAYLOAD: &[u8] = b"\xff\xaaC\x01\x02\xe3\xff\x05\xff\x00\x01\xd6";

    let checksum = calculate_checksum(&EXAMPLE_PAYLOAD[..EXAMPLE_PAYLOAD.len() - 1]);

    assert_eq!(
        checksum,
        EXAMPLE_PAYLOAD[EXAMPLE_PAYLOAD.len() - 1],
        "The calculated checksum should match the one from the example"
    );
}

#[test]
fn checksums_wrap() {
    assert_eq!(calculate_checksum(&[]), 0);
    assert_eq!(calculate_checksum(&[255]), 255);
    assert_eq!(calculate_checksum(&[255, 1]), 0);
    assert_eq!(calculate_checksum(&[200, 100, 7]), 51);
    assert_eq!(calculate_checksum(&vec![255; 1000]), ((255 * 1000) % 256) as u8);
}

#[test]
fn button_color_package() {
    assert_eq!(
        color_package(0x11, 0x22, 0x33),
        vec![0x00, 0xff, 0xaa, 0x43, 0x01, 0x02, 0xe1, 0x33, 0x22, 0x11, 0x00, 0x00, 0x36]
    );
    let package = color_package(255, 255, 255);
    assert_eq!(package.len(), 13);
    assert_eq!(package[12], calculate_checksum(&package[..12]));
}

#[test]
fn spans_on_a_device() {
    let three = vec![LedConfiguration::Off; 3];
    assert_eq!(span_on_device(&group(1, three.clone()), 18), (0, 3));
    assert_eq!(span_on_device(&group(16, three.clone()), 18), (15, 3));
    assert_eq!(span_on_device(&group(17, three.clone()), 18), (16, 2));
    assert_eq!(span_on_device(&group(18, three.clone()), 18), (17, 1));
    assert_eq!(span_on_device(&group(19, three.clone()), 18), (18, 0));
    assert_eq!(span_on_device(&group(usize::MAX, three), 18), (usize::MAX - 1, 0));
}

#[test]
fn brows_frame() {
    let mut frame = BrowsFrame::new();
    assert_eq!(frame, BrowsFrame::default());
    assert_eq!(frame.buffer.len(), 72);
    for led in 0..18 {
        assert_eq!(frame.led_command(led), &[0, 0, 0, led as u8]);
    }

    frame.apply_led_state(&group(2, vec![on(1, 2, 3), LedConfiguration::Off, on(4, 5, 6)]));
    assert_eq!(frame.led_command(0), &[0, 0, 0, 0]);
    assert_eq!(frame.led_command(1), &[1, 2, 3, 1]);
    assert_eq!(frame.led_command(2), &[0, 0, 0, 2]);
    assert_eq!(frame.led_command(3), &[4, 5, 6, 3]);
    assert_eq!(frame.led_command(4), &[0, 0, 0, 4]);

    frame.apply_led_state(&group(3, vec![on(9, 9, 9)]));
    assert_eq!(frame.led_command(1), &[1, 2, 3, 1], "LEDs outside the group stay as they are");
    assert_eq!(frame.led_command(2), &[9, 9, 9, 2]);

    frame.apply_led_state(&group(17, vec![on(7, 7, 7); 5]));
    assert_eq!(frame.led_command(15), &[0, 0, 0, 15]);
    assert_eq!(frame.led_command(16), &[7, 7, 7, 16]);
    assert_eq!(frame.led_command(17), &[7, 7, 7, 17]);

    let before = frame.clone();
    frame.apply_led_state(&group(19, vec![on(8, 8, 8); 2]));
    assert_eq!(frame, before, "A group behind the last LED changes nothing");

    frame.set_color(0, Color { r: 10, g: 20, b: 30, a: 0 });
    assert_eq!(frame.led_command(0), &[10, 20, 30, 0]);
    frame.turn_off();
    assert_eq!(frame, BrowsFrame::new());
}

#[test]
fn rpm_leds_frame() {
    let mut frame = RpmLedsFrame::new();
    assert_eq!(frame, RpmLedsFrame::default());
    assert_eq!(frame.leds.len(), 84);
    let mut dark = vec![0u8; 21];
    for (segment, id) in [(0, 0x02), (1, 0x03), (2, 0x07), (3, 0x08)] {
        dark[1] = id;
        assert_eq!(frame.segment_bytes(segment), &dark[..]);
    }

    frame.apply_led_state(&group(4, vec![on(1, 2, 3), on(4, 5, 6), LedConfiguration::Off]));
    let first = frame.segment_bytes(0);
    assert_eq!(&first[..2], &[0, 0x02]);
    assert_eq!(&first[2..14], &[0; 12]);
    assert_eq!(&first[14..18], &[1, 2, 3, 2]);
    assert_eq!(&first[18..], &[0, 0, 0]);
    let second = frame.segment_bytes(1);
    assert_eq!(&second[..10], &[0, 0x03, 4, 5, 6, 2, 0, 0, 0, 0]);

    frame.apply_led_state(&group(5, vec![LedConfiguration::Off]));
    assert_eq!(
        &frame.segment_bytes(1)[..6],
        &[0, 0x03, 4, 5, 6, 0],
        "An LED that is turned off keeps its color and loses its brightness"
    );

    frame.apply_led_state(&group(16, vec![on(9, 8, 7); 4]));
    assert_eq!(&frame.segment_bytes(3)[14..18], &[9, 8, 7, 2]);
    let before = frame.clone();
    frame.apply_led_state(&group(17, vec![on(9, 8, 7); 4]));
    assert_eq!(frame, before);

    frame.set_color(0, Color { r: 1, g: 1, b: 1, a: 0 });
    frame.set_brightness(0, 4);
    assert_eq!(&frame.segment_bytes(0)[2..6], &[1, 1, 1, 4]);
    frame.turn_off();
    assert_eq!(frame, RpmLedsFrame::new());

    assert_eq!(
        LedNumber::all().map(|led| led.offset()),
        [2, 6, 10, 14],
        "The LEDs of a segment follow its two first bytes"
    );
    let mut commit = vec![0u8; 21];
    commit[1] = 0x09;
    assert_eq!(commit_command(), commit);
}

#[test]
fn display_commands() {
    assert_eq!(wrap_length_command(480), vec![0x43, 0x5b, 0xdf, 0x01]);
    assert_eq!(wrap_length_command(1), vec![0x43, 0x5b, 0x00, 0x00]);
    assert_eq!(wrap_length_command(u16::MAX), vec![0x43, 0x5b, 0xfe, 0xff]);

    assert_eq!(pixel_address(0, 0), 0);
    assert_eq!(pixel_address(479, 271), 130_559);
    assert_eq!(pixel_address(3, 2), 963);

    assert_eq!(
        write_pixel_command(0x0102_0304, 0xf800),
        vec![0x41, 0x5b, 0x04, 0x03, 0x02, 0x01, 0, 0, 0, 0, 0x00, 0xf8]
    );
    assert_eq!(
        write_command(963, &[1, 2, 3, 4, 5, 6]),
        vec![0x41, 0x5b, 0xc3, 0x03, 0, 0, 2, 0, 0, 0, 1, 2, 3, 4, 5, 6]
    );
    assert_eq!(
        write_command(0, &[1, 2, 3]),
        vec![0x41, 0x5b, 0, 0, 0, 0, 0, 0, 0, 0, 1, 2, 3],
        "Half a pixel at the end does not count"
    );
}

#[test]
fn display_write_commands() {
    assert_eq!(write_commands(7, &[]), Vec::<Vec<u8>>::new());
    assert_eq!(write_commands(7, &[1, 2]), vec![write_command(7, &[1, 2])]);

    let pixels: Vec<u8> = (0..10_000u32).map(|byte| (byte % 251) as u8).collect();
    let commands = write_commands(100, &pixels);
    assert_eq!(commands.len(), 3);
    assert_eq!(commands[0], write_command(100, &pixels[..4096]));
    assert_eq!(commands[1], write_command(100 + 2048, &pixels[4096..8192]));
    assert_eq!(commands[2], write_command(100 + 4096, &pixels[8192..]));
    assert_eq!(&commands[2][6..10], &[0x87, 0x03, 0, 0], "904 pixels are left");

    let commands = write_commands(0, &pixels[..8192]);
    assert_eq!(commands.len(), 2);
}

#[test]
fn display_addresses() {
    assert_eq!(next_address(0, 250, 480), 251);
    assert_eq!(next_address(0, 479, 480), 480);
    assert_eq!(next_address(470, 19, 480), 490);
    // An area 100 pixels wide that begins in column 0: 251 pixels fill two
    // rows and 51 pixels of the third.
    assert_eq!(next_address(0, 250, 100), 2 * 480 + 51);
    // The column of an address is what is left of it when it is divided by
    // the width of the area: 11 for the address 1011.
    assert_eq!(next_address(2 * 480 + 51, 250, 100), 1000 + 2 * 480 + 62);
    assert_eq!(next_address(300, 99, 100), 300 + 480);
    assert_eq!(next_address(99, 0, 100), 480);
    assert_eq!(next_address(5, 0, 1), 485);
}

#[test]
fn display_details() {
    let mut bytes = [0u8; 64];
    bytes[..7].copy_from_slice(b"USBD480");
    bytes[20..26].copy_from_slice(&[0xe0, 0x01, 0x10, 0x01, 0x05, 0x03]);
    bytes[26..36].copy_from_slice(b"0123456789");
    let details = DeviceDetails::from_bytes(&bytes).expect("The name ends within 20 bytes");
    assert_eq!(details.name, b"USBD480");
    assert_eq!(details.display_width, 480);
    assert_eq!(details.display_height, 272);
    assert_eq!(details.version, 0x0305);
    assert_eq!(details.serial_number, b"0123456789");

    bytes[..20].copy_from_slice(&[b'x'; 20]);
    assert_eq!(DeviceDetails::from_bytes(&bytes), None, "The name has no end");
    bytes[19] = 0;
    assert_eq!(DeviceDetails::from_bytes(&bytes).unwrap().name, vec![b'x'; 19]);
    bytes[0] = 0;
    assert_eq!(DeviceDetails::from_bytes(&bytes).unwrap().name, Vec::<u8>::new());
}
