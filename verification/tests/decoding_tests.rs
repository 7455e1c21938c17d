use hinjaku::decoding::{animation_kind, decode_entry, plan_frames, MAX_ANIM_DECODE_SIZE};
use hinjaku::image_ops::RgbaPixels;

fn px(w: u32, h: u32, v: u8) -> RgbaPixels {
    RgbaPixels { width: w, height: h, data: vec![v; (w * h * 4) as usize] }
}

#[test]
fn only_gif_and_webp_within_the_limit_animate() {
    assert_eq!(animation_kind("a/b.gif", 10), Some(false));
    assert_eq!(animation_kind("B.GiF", 10), Some(false));
    assert_eq!(animation_kind("c.WEBP", 10), Some(true));
    assert_eq!(animation_kind("c.png", 10), None);
    assert_eq!(animation_kind("gif", 10), None);
    assert_eq!(animation_kind("a.gif", MAX_ANIM_DECODE_SIZE), Some(false));
    assert_eq!(animation_kind("a.gif", MAX_ANIM_DECODE_SIZE + 1), None);
}

#[test]
fn frames_get_their_delays() {
    let frames = vec![(px(1, 1, 1), 50, 1), (px(1, 1, 2), 0, 0), (px(1, 1, 3), 10, 1), (px(1, 1, 4), 250, 10)];
    let out = plan_frames("x.gif", 4, Some(frames)).unwrap();
    let delays: Vec<u32> = out.iter().map(|f| f.delay_ms).collect();
    assert_eq!(delays, vec![50, 100, 100, 25]);
    assert_eq!(out[2].image.data, vec![3, 3, 3, 3]);
}

#[test]
fn too_many_frames_leave_the_first_as_a_still() {
    let frames: Vec<(RgbaPixels, u32, u32)> = (0..201).map(|i| (px(1, 1, i as u8), 40, 1)).collect();
    let out = plan_frames("x.webp", 4, Some(frames)).unwrap();
    assert_eq!(out.len(), 1);
    assert_eq!(out[0].delay_ms, 0);
    assert_eq!(out[0].image.data, vec![0, 0, 0, 0]);
    let frames: Vec<(RgbaPixels, u32, u32)> = (0..200).map(|i| (px(1, 1, i as u8), 40, 1)).collect();
    assert_eq!(plan_frames("x.webp", 4, Some(frames)).unwrap().len(), 200);
}

#[test]
fn no_plan_for_stills_or_failed_decodes() {
    assert!(plan_frames("x.png", 4, Some(vec![(px(1, 1, 1), 50, 1)])).is_none());
    assert!(plan_frames("x.gif", 4, None).is_none());
}

#[test]
fn a_png_entry_decodes_to_one_still_frame() {
    let img = image::RgbaImage::from_raw(2, 1, vec![255, 0, 0, 255, 0, 0, 255, 128]).unwrap();
    let mut bytes: Vec<u8> = Vec::new();
    img.write_to(&mut std::io::Cursor::new(&mut bytes), image::ImageFormat::Png).unwrap();
    let frames = decode_entry("p.png", &bytes).unwrap();
    assert_eq!(frames.len(), 1);
    assert_eq!((frames[0].image.width, frames[0].image.height), (2, 1));
    assert_eq!(frames[0].image.data, vec![255, 0, 0, 255, 0, 0, 255, 128]);
    assert_eq!(frames[0].delay_ms, 0);
}

#[test]
fn a_gif_entry_decodes_to_timed_frames() {
    let mut bytes: Vec<u8> = Vec::new();
    {
        let mut enc = image::codecs::gif::GifEncoder::new(&mut bytes);
        for v in [0u8, 255u8] {
            let buf = image::RgbaImage::from_raw(1, 1, vec![v, v, v, 255]).unwrap();
            let frame = image::Frame::from_parts(buf, 0, 0, image::Delay::from_numer_denom_ms(70, 1));
            enc.encode_frame(frame).unwrap();
        }
    }
    let frames = decode_entry("anim.gif", &bytes).unwrap();
    assert_eq!(frames.len(), 2);
    assert_eq!(frames[0].delay_ms, 70);
    assert_eq!(frames[1].image.data, vec![255, 255, 255, 255]);
    let still = decode_entry("anim.dat", &bytes).unwrap();
    assert_eq!(still.len(), 1);
    assert_eq!(still[0].delay_ms, 0);
}

#[test]
fn undecodable_bytes_give_an_error() {
    assert!(decode_entry("x.png", &vec![1, 2, 3]).is_err());
    assert!(decode_entry("x.gif", &vec![1, 2, 3]).is_err());
}

#[test]
fn a_still_webp_entry_decodes_to_one_frame() {
    let img = image::RgbaImage::from_raw(1, 2, vec![10, 20, 30, 255, 40, 50, 60, 255]).unwrap();
    let mut bytes: Vec<u8> = Vec::new();
    img.write_to(&mut std::io::Cursor::new(&mut bytes), image::ImageFormat::WebP).unwrap();
    let frames = decode_entry("s.webp", &bytes).unwrap();
    assert_eq!(frames.len(), 1);
    assert_eq!((frames[0].image.width, frames[0].image.height), (1, 2));
    assert_eq!(frames[0].image.data, vec![10, 20, 30, 255, 40, 50, 60, 255]);
    assert_eq!(frames[0].delay_ms, 0);
}
