use ganzhe::image::MemImage;

#[test]
fn mem_image_read_back_what_was_written() {
    let mut img = MemImage::new(16).unwrap();
    assert_eq!(img.write(4, b"abcd").unwrap(), 4);
    let mut buf = [0u8; 4];
    assert_eq!(img.read(4, &mut buf).unwrap(), 4);
    assert_eq!(&buf, b"abcd");
}

#[test]
fn mem_image_accesses_stop_at_the_end() {
    let mut img = MemImage::new(8).unwrap();
    assert_eq!(img.write(6, b"xyz").unwrap(), 2);
    let mut buf = [9u8; 5];
    assert_eq!(img.read(5, &mut buf).unwrap(), 3);
    assert_eq!(buf, [0, b'x', b'y', 9, 9]);
    assert_eq!(img.read(8, &mut buf).unwrap(), 0);
}

#[test]
fn mem_image_zero_and_trim() {
    let mut img = MemImage::new(6).unwrap();
    img.write(0, b"abcdef").unwrap();
    assert_eq!(img.write_zero(1, 2).unwrap(), 2);
    img.trim(4, 10).unwrap();
    img.flush().unwrap();
    let mut buf = [0xffu8; 6];
    assert_eq!(img.read(0, &mut buf).unwrap(), 6);
    assert_eq!(&buf, b"a\0\0d\0\0");
}

#[test]
fn mem_image_starts_zeroed() {
    let img = MemImage::new(3).unwrap();
    let mut buf = [1u8; 3];
    assert_eq!(img.read(0, &mut buf).unwrap(), 3);
    assert_eq!(buf, [0, 0, 0]);
}
