use vokselis::utils::ImageDimentions;

#[test]
fn rows_are_padded_to_the_alignment() {
    let d = ImageDimentions::new(1280, 720, 256);
    assert_eq!(d.width, 1280);
    assert_eq!(d.height, 720);
    assert_eq!(d.unpadded_bytes_per_row, 5120);
    assert_eq!(d.padded_bytes_per_row, 5120);
    assert_eq!(d.linear_size(), 5120 * 720);

    let d = ImageDimentions::new(1001, 601, 256);
    assert_eq!(d.width, 1000);
    assert_eq!(d.height, 600);
    assert_eq!(d.unpadded_bytes_per_row, 4000);
    assert_eq!(d.padded_bytes_per_row, 4096);
    assert_eq!(d.linear_size(), 4096 * 600);
}

#[test]
fn smallest_images() {
    let d = ImageDimentions::new(0, 0, 256);
    assert_eq!((d.width, d.height, d.unpadded_bytes_per_row, d.padded_bytes_per_row), (0, 0, 0, 0));
    assert_eq!(d.linear_size(), 0);
    let d = ImageDimentions::new(1, 1, 1);
    assert_eq!((d.width, d.height, d.unpadded_bytes_per_row, d.padded_bytes_per_row), (0, 0, 0, 0));
    let d = ImageDimentions::new(3, 5, 7);
    assert_eq!((d.width, d.height, d.unpadded_bytes_per_row, d.padded_bytes_per_row), (2, 4, 8, 14));
    assert_eq!(d.linear_size(), 56);
}

#[test]
fn linear_size_does_not_wrap() {
    let d = ImageDimentions {
        width: 0,
        height: u32::MAX,
        unpadded_bytes_per_row: 0,
        padded_bytes_per_row: u32::MAX,
    };
    assert_eq!(d.linear_size(), 18446744065119617025);
}

#[test]
fn rows_that_cannot_be_measured() {
    assert!(ImageDimentions::measurable(1280, 256));
    assert!(ImageDimentions::measurable(0, 1));
    assert!(!ImageDimentions::measurable(1280, 0));
    assert!(ImageDimentions::measurable(1073741823, 4));
    assert!(ImageDimentions::measurable(1073741823, 8));
    assert!(!ImageDimentions::measurable(1073741824, 4));
    assert!(!ImageDimentions::measurable(u32::MAX, 256));
    assert!(ImageDimentions::measurable(1073741822, 4294967295));
    assert!(!ImageDimentions::measurable(1073741822, 3000000000));
    let d = ImageDimentions::new(1073741823, 3, 8);
    assert_eq!((d.width, d.unpadded_bytes_per_row, d.padded_bytes_per_row), (1073741822, 4294967288, 4294967288));
}
