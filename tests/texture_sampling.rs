use diorama::color::Color;
use diorama::texture::Texture;

fn numbered(width: usize, height: usize) -> Texture {
    let mut data = Vec::new();
    for i in 0..width * height {
        let k = i as u8;
        data.extend_from_slice(&[k, k.wrapping_add(100), k.wrapping_add(200), 255]);
    }
    Texture::new(data, width, height).unwrap()
}

#[test]
fn new_rejects_wrong_length() {
    assert!(Texture::new(vec![0; 15], 2, 2).is_none());
    assert!(Texture::new(vec![0; 17], 2, 2).is_none());
    assert!(Texture::new(vec![0; 16], 2, 2).is_some());
}

#[test]
fn new_rejects_empty_image() {
    assert!(Texture::new(Vec::new(), 0, 3).is_none());
    assert!(Texture::new(Vec::new(), 3, 0).is_none());
    assert!(Texture::new(Vec::new(), 0, 0).is_none());
}

#[test]
fn new_rejects_overflowing_size() {
    assert!(Texture::new(Vec::new(), usize::MAX, 2).is_none());
    assert!(Texture::new(Vec::new(), usize::MAX / 2, 1).is_none());
}

#[test]
fn clamp_coord_limits_to_last_index() {
    assert_eq!(Texture::clamp_coord(0, 4), 0);
    assert_eq!(Texture::clamp_coord(3, 4), 3);
    assert_eq!(Texture::clamp_coord(4, 4), 3);
    assert_eq!(Texture::clamp_coord(usize::MAX, 4), 3);
    assert_eq!(Texture::clamp_coord(7, 1), 0);
}

#[test]
fn sample_origin_is_first_texel() {
    let t = numbered(3, 2);
    assert_eq!(t.sample(0, 0), Color::new(0, 100, 200));
}

#[test]
fn sample_full_extent_is_last_texel() {
    let t = numbered(3, 2);
    assert_eq!(t.sample(3, 2), Color::new(5, 105, 205));
}

#[test]
fn sample_reads_row_major() {
    let t = numbered(3, 2);
    assert_eq!(t.sample(1, 0), Color::new(1, 101, 201));
    assert_eq!(t.sample(0, 1), Color::new(3, 103, 203));
    assert_eq!(t.sample(2, 1), Color::new(5, 105, 205));
}

#[test]
fn sample_single_texel_image() {
    let t = Texture::new(vec![10, 20, 30, 40], 1, 1).unwrap();
    assert_eq!(t.sample(0, 0), Color::new(10, 20, 30));
    assert_eq!(t.sample(1, 1), Color::new(10, 20, 30));
    assert_eq!(t.sample(1000, 5), Color::new(10, 20, 30));
}

#[test]
fn sample_far_out_of_range_stays_in_bounds() {
    let t = numbered(4, 4);
    assert_eq!(t.sample(usize::MAX, usize::MAX), Color::new(15, 115, 215));
    assert_eq!(t.sample(usize::MAX, 0), Color::new(3, 103, 203));
}
