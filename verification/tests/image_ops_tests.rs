use hinjaku::image_ops::{apply_rotation, RgbaPixels};
use hinjaku::rotation::Rotation;

fn two_by_one() -> RgbaPixels {
    RgbaPixels { width: 2, height: 1, data: vec![1, 1, 1, 1, 2, 2, 2, 2] }
}

#[test]
fn quarter_turn_moves_pixels() {
    let r = apply_rotation(two_by_one(), Rotation::R90);
    assert_eq!((r.width, r.height), (1, 2));
    assert_eq!(r.data, vec![1, 1, 1, 1, 2, 2, 2, 2]);
    let r = apply_rotation(two_by_one(), Rotation::R270);
    assert_eq!((r.width, r.height), (1, 2));
    assert_eq!(r.data, vec![2, 2, 2, 2, 1, 1, 1, 1]);
}

#[test]
fn half_turn_and_none() {
    let r = apply_rotation(two_by_one(), Rotation::R180);
    assert_eq!((r.width, r.height), (2, 1));
    assert_eq!(r.data, vec![2, 2, 2, 2, 1, 1, 1, 1]);
    let r = apply_rotation(two_by_one(), Rotation::R0);
    assert_eq!(r.data, vec![1, 1, 1, 1, 2, 2, 2, 2]);
}

#[test]
fn window_icon_is_a_white_h() {
    let icon = hinjaku::image_ops::window_icon();
    assert_eq!((icon.width, icon.height), (32, 32));
    assert_eq!(icon.data.len(), 32 * 32 * 4);
    let px = |x: usize, y: usize| icon.data[(y * 32 + x) * 4];
    assert_eq!(px(6, 5), 255);
    assert_eq!(px(25, 26), 255);
    assert_eq!(px(15, 15), 255);
    assert_eq!(px(15, 13), 0);
    assert_eq!(px(0, 0), 0);
    assert_eq!(px(10, 27), 0);
    assert_eq!(icon.data[(15 * 32 + 15) * 4 + 3], 255);
}

#[test]
fn rotation_and_its_inverse_give_the_image_back() {
    let img = || RgbaPixels { width: 3, height: 2, data: (0u8..24).collect() };
    for (r, inv) in [
        (Rotation::R0, Rotation::R0),
        (Rotation::R90, Rotation::R270),
        (Rotation::R180, Rotation::R180),
        (Rotation::R270, Rotation::R90),
    ] {
        let back = apply_rotation(apply_rotation(img(), r), inv);
        assert_eq!((back.width, back.height), (3, 2));
        assert_eq!(back.data, img().data);
    }
}
