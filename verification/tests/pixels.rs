use mipidsi::color::Rgb565Color;
use mipidsi::dcs::Dcs;
use mipidsi::error::{BusFault, Error};
use mipidsi::ili9488::ILI9488Rgb565;
use mipidsi::record::RecordingTransport;

#[test]
fn channel_packing() {
    assert_eq!(Rgb565Color::new(31, 0, 0).storage(), 0xf800);
    assert_eq!(Rgb565Color::new(0, 63, 0).storage(), 0x07e0);
    assert_eq!(Rgb565Color::new(0, 0, 31).storage(), 0x001f);
    assert_eq!(Rgb565Color::new(31, 63, 31).storage(), 0xffff);
    assert_eq!(Rgb565Color::new(1, 2, 3).storage(), 0x0843);
}

#[test]
fn pixel_stream_is_memory_write_then_big_endian_bytes() {
    let mut model = ILI9488Rgb565;
    let mut dcs = Dcs::from_interface(RecordingTransport::new());
    let pixels = [
        Rgb565Color::new(31, 0, 0),
        Rgb565Color::new(0, 63, 0),
        Rgb565Color::new(0, 0, 31),
    ];
    let r = model.write_pixels(&mut dcs, &pixels);
    assert!(r.is_ok());
    let transport = dcs.release();
    assert_eq!(transport.sent.len(), 2);
    assert!(transport.sent[0].is_command());
    assert_eq!(transport.sent[0].opcode(), 0x2c);
    // three pixels, two bytes each, big-endian
    assert_eq!(
        transport.sent[1].payload().as_slice(),
        &[0xf8, 0x00, 0x07, 0xe0, 0x00, 0x1f]
    );
}

#[test]
fn empty_pixel_stream_sends_empty_payload() {
    let mut model = ILI9488Rgb565;
    let mut dcs = Dcs::from_interface(RecordingTransport::new());
    let pixels: [Rgb565Color; 0] = [];
    let r = model.write_pixels(&mut dcs, &pixels);
    assert!(r.is_ok());
    let transport = dcs.release();
    assert_eq!(transport.sent.len(), 2);
    assert_eq!(transport.sent[0].opcode(), 0x2c);
    assert_eq!(transport.sent[1].payload().len(), 0);
}

#[test]
fn pixel_stream_failure_is_wrapped() {
    let mut model = ILI9488Rgb565;
    let mut dcs = Dcs::from_interface(RecordingTransport::failing_from(0, 5));
    let pixels = [Rgb565Color::new(1, 2, 3)];
    let r = model.write_pixels(&mut dcs, &pixels);
    assert_eq!(r, Err(Error::CommandFailure(BusFault { code: 5 })));
    assert_eq!(dcs.release().sent.len(), 0);

    let mut dcs2 = Dcs::from_interface(RecordingTransport::failing_from(1, 6));
    let r2 = model.write_pixels(&mut dcs2, &pixels);
    assert_eq!(r2, Err(Error::CommandFailure(BusFault { code: 6 })));
    let transport = dcs2.release();
    assert_eq!(transport.sent.len(), 1);
    assert!(transport.sent[0].is_command());
}
