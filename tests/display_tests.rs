use rust_nes::display::{Pixel, ScreenBuffer};

#[test]
fn new_screen_is_black() {
    let buf = ScreenBuffer::new();
    assert_eq!(buf.read_pixel(0, 0), Pixel::new(0, 0, 0));
    assert_eq!(buf.read_pixel(239, 255), Pixel::new(0, 0, 0));
}

#[test]
fn written_pixel_reads_back() {
    let mut buf = ScreenBuffer::new();
    buf.write_pixel(50, 100, Pixel::new(100, 150, 120));
    assert_eq!(buf.read_pixel(50, 100), Pixel::new(100, 150, 120));
    assert_eq!(buf.read_pixel(50, 101), Pixel::new(0, 0, 0));
    assert_eq!(buf.read_pixel(51, 100), Pixel::new(0, 0, 0));
    let p = Pixel::new(1, 2, 3);
    assert_eq!((p.r, p.g, p.b), (1, 2, 3));
}
