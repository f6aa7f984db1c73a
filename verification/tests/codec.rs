use mipidsi::dcs::{self, DcsCommand};
use mipidsi::error::Error;

#[test]
fn cm_struct() {
    let cm1 = [0x2a, 0x00, 0x00, 0x00, 0x05];
    let cm2 = [0x2b, 0x00, 0x00, 0x00, 0x05];
    let cm3 = [0x2c, 0xff, 0xff, 0xff, 0xff];
    let sx = 0;
    let sy = 0;
    let ex = 5;
    let ey = 5;
    let res1 = dcs::SetColumnAddress::new(sx, ex);
    let res2 = dcs::SetPageAddress::new(sy, ey);
    let mut param_bytes: [u8; 16] = [0; 16];
    let n = res1.fill_params_buf(&mut param_bytes).unwrap();
    let ins = res1.instruction();

    assert_eq!(cm1[0], ins);
    assert_eq!(cm1[1..4], param_bytes[0..3]);
    let _ = (cm2, cm3, res2, n);
}

#[test]
fn column_address_round_trip() {
    // instruction 0x2a with start 0, end 5 encodes four parameter bytes,
    // big-endian, and a five-byte buffer accepts them
    let cmd = dcs::SetColumnAddress::new(0, 5);
    assert_eq!(cmd.instruction(), 0x2a);
    let mut buf: [u8; 5] = [0xaa; 5];
    let n = cmd.fill_params_buf(&mut buf).unwrap();
    assert_eq!(n, 4);
    assert_eq!(buf[0..4], [0x00, 0x00, 0x00, 0x05]);
    assert_eq!(buf[4], 0xaa);
}

#[test]
fn page_address_round_trip() {
    let cmd = dcs::SetPageAddress::new(0x0102, 0x0304);
    assert_eq!(cmd.instruction(), 0x2b);
    let mut buf: [u8; 16] = [0; 16];
    let n = cmd.fill_params_buf(&mut buf).unwrap();
    assert_eq!(n, 4);
    assert_eq!(buf[0..4], [0x01, 0x02, 0x03, 0x04]);
}

#[test]
fn too_small_buffer_fails_and_writes_nothing() {
    let cmd = dcs::SetColumnAddress::new(0, 5);
    let mut buf: [u8; 3] = [0x77, 0x77, 0x77];
    let r = cmd.fill_params_buf(&mut buf);
    assert_eq!(r, Err(Error::BufferTooSmall));
    assert_eq!(buf, [0x77, 0x77, 0x77]);
}

#[test]
fn pixel_format_register_byte() {
    let pf = dcs::PixelFormat::with_all(dcs::BitsPerPixel::Sixteen);
    assert_eq!(pf.byte(), 0x55);
    let cmd = dcs::SetPixelFormat::new(pf);
    assert_eq!(cmd.instruction(), 0x3a);
    let mut buf: [u8; 16] = [0; 16];
    let n = cmd.fill_params_buf(&mut buf).unwrap();
    assert_eq!(n, 1);
    assert_eq!(buf[0], 0x55);
}

#[test]
fn invert_mode_parameter() {
    let on = dcs::SetInvertMode::new(true);
    let off = dcs::SetInvertMode::new(false);
    assert_eq!(on.instruction(), off.instruction());
    let mut buf: [u8; 16] = [0; 16];
    assert_eq!(on.fill_params_buf(&mut buf).unwrap(), 1);
    assert_eq!(buf[0], 1);
    assert_eq!(off.fill_params_buf(&mut buf).unwrap(), 1);
    assert_eq!(buf[0], 0);
}
