use vstd::prelude::*;
use image::AnimationDecoder;
use crate::image_ops::RgbaPixels;
use crate::animation::{FrameData, delay_of, frame_delay_ms, MAX_ANIMATION_FRAMES};
use crate::natural::{ends_with_ignoring_case, ends_with_ignoring_case_chars};
use crate::text::str_chars;

verus! {

/// Entries larger than this many bytes are not decoded as animations.
pub const MAX_ANIM_DECODE_SIZE: usize = 52428800;

/// A decoded frame as plain values: width, height, RGBA bytes, and the delay as the
/// fraction `numer / denom` milliseconds.
pub type FrameParts = (u32, u32, Seq<u8>, u32, u32);

/// The frames `image`'s GIF decoder gives for `bytes`, or `None` where it fails.
pub uninterp spec fn decoded_gif(bytes: Seq<u8>) -> Option<Seq<(u32, u32, Seq<u8>, u32, u32)>>;

/// Whether `image`'s WebP decoder finds an animation in `bytes`, or `None` where it cannot
/// read them.
pub uninterp spec fn webp_animated(bytes: Seq<u8>) -> Option<bool>;

/// The frames `image`'s WebP decoder gives for `bytes`, or `None` where it fails.
pub uninterp spec fn decoded_webp(bytes: Seq<u8>) -> Option<Seq<(u32, u32, Seq<u8>, u32, u32)>>;

/// What `image::load_from_memory(..).into_rgba8()` gives for `bytes`: width, height and
/// RGBA bytes, or the text of its error.
pub uninterp spec fn decoded_still(bytes: Seq<u8>) -> Result<(u32, u32, Seq<u8>), Seq<char>>;

pub open spec fn frame_parts(f: (RgbaPixels, u32, u32)) -> FrameParts {
    (f.0.width, f.0.height, f.0.data@, f.1, f.2)
}

pub open spec fn frames_parts(v: Seq<(RgbaPixels, u32, u32)>) -> Seq<FrameParts> {
    v.map_values(|f: (RgbaPixels, u32, u32)| frame_parts(f))
}

pub open spec fn opt_frames_parts(v: Option<Vec<(RgbaPixels, u32, u32)>>) -> Option<Seq<FrameParts>> {
    match v {
        Some(fs) => Some(frames_parts(fs@)),
        None => None,
    }
}

/// A frame ready to show, as plain values: width, height, RGBA bytes, delay in ms.
pub open spec fn shown_parts(f: FrameData) -> (u32, u32, Seq<u8>, u32) {
    (f.image.width, f.image.height, f.image.data@, f.delay_ms)
}

pub open spec fn all_shown_parts(v: Seq<FrameData>) -> Seq<(u32, u32, Seq<u8>, u32)> {
    v.map_values(|f: FrameData| shown_parts(f))
}

/// Calls `GifDecoder::new` on the bytes and collects `into_frames()`, each frame as its
/// buffer and `delay().numer_denom_ms()`; any error gives `None`. The result is named by
/// `decoded_gif`.
#[verifier::external_body]
fn gif_frames(bytes: &Vec<u8>) -> (r: Option<Vec<(RgbaPixels, u32, u32)>>)
    ensures
        opt_frames_parts(r) == decoded_gif(bytes@),
{
    let d = image::codecs::gif::GifDecoder::new(std::io::Cursor::new(bytes.as_slice())).ok()?;
    let frames = d.into_frames().collect::<image::ImageResult<Vec<image::Frame>>>().ok()?;
    Some(frames.into_iter().map(|f| {
        let (n, d) = f.delay().numer_denom_ms();
        let b = f.into_buffer();
        (RgbaPixels { width: b.width(), height: b.height(), data: b.into_raw() }, n, d)
    }).collect())
}

/// Calls `WebPDecoder::new` on the bytes and asks `has_animation()`; a decoder error gives
/// `None`. The result is named by `webp_animated`.
#[verifier::external_body]
fn webp_has_animation(bytes: &Vec<u8>) -> (r: Option<bool>)
    ensures
        r == webp_animated(bytes@),
{
    let d = image::codecs::webp::WebPDecoder::new(std::io::Cursor::new(bytes.as_slice())).ok()?;
    Some(d.has_animation())
}

/// Calls `WebPDecoder::new` on the bytes and collects `into_frames()`, each frame as its
/// buffer and `delay().numer_denom_ms()`; any error gives `None`. The result is named by
/// `decoded_webp`.
#[verifier::external_body]
fn webp_frames(bytes: &Vec<u8>) -> (r: Option<Vec<(RgbaPixels, u32, u32)>>)
    ensures
        opt_frames_parts(r) == decoded_webp(bytes@),
{
    let d = image::codecs::webp::WebPDecoder::new(std::io::Cursor::new(bytes.as_slice())).ok()?;
    let frames = d.into_frames().collect::<image::ImageResult<Vec<image::Frame>>>().ok()?;
    Some(frames.into_iter().map(|f| {
        let (n, d) = f.delay().numer_denom_ms();
        let b = f.into_buffer();
        (RgbaPixels { width: b.width(), height: b.height(), data: b.into_raw() }, n, d)
    }).collect())
}

/// What the animation decoders make of `bytes`: for GIF the decoded frames; for WebP the
/// decoded frames where the data holds an animation, else `None`.
pub open spec fn decoded_frames(bytes: Seq<u8>, webp: bool) -> Option<Seq<FrameParts>> {
    if webp {
        if webp_animated(bytes) == Some(true) {
            decoded_webp(bytes)
        } else {
            None
        }
    } else {
        decoded_gif(bytes)
    }
}

/// Runs the animation decoder for the kind of entry: GIF, or WebP where it holds an
/// animation.
pub fn decode_animation(bytes: &Vec<u8>, webp: bool) -> (r: Option<Vec<(RgbaPixels, u32, u32)>>)
    ensures
        opt_frames_parts(r) == decoded_frames(bytes@, webp),
{
    if webp {
        match webp_has_animation(bytes) {
            Some(true) => webp_frames(bytes),
            _ => None,
        }
    } else {
        gif_frames(bytes)
    }
}

/// Calls `image::load_from_memory` and `into_rgba8` on the bytes; an error is handed on
/// as its text. The result is named by `decoded_still`.
#[verifier::external_body]
fn decode_still(bytes: &Vec<u8>) -> (r: Result<RgbaPixels, String>)
    ensures
        match r {
            Ok(p) => decoded_still(bytes@) == Ok::<(u32, u32, Seq<u8>), Seq<char>>((p.width, p.height, p.data@)),
            Err(e) => decoded_still(bytes@) == Err::<(u32, u32, Seq<u8>), Seq<char>>(e@),
        },
{
    match image::load_from_memory(bytes.as_slice()) {
        Ok(img) => {
            let b = img.into_rgba8();
            Ok(RgbaPixels { width: b.width(), height: b.height(), data: b.into_raw() })
        },
        Err(e) => Err(e.to_string()),
    }
}

/// Whether an entry is decoded as an animation, and by which decoder: `.gif` by the GIF
/// decoder (`Some(false)`), `.webp` by the WebP decoder (`Some(true)`), in any case, and
/// only when it holds at most `MAX_ANIM_DECODE_SIZE` bytes.
pub open spec fn animation_kind_of(name: Seq<char>, byte_len: nat) -> Option<bool> {
    if byte_len > MAX_ANIM_DECODE_SIZE {
        None
    } else if ends_with_ignoring_case(name, seq!['.', 'g', 'i', 'f']) {
        Some(false)
    } else if ends_with_ignoring_case(name, seq!['.', 'w', 'e', 'b', 'p']) {
        Some(true)
    } else {
        None
    }
}

/// The frames shown for a decoded animation: past `MAX_ANIMATION_FRAMES` frames only the
/// first, as a still with no delay; otherwise every frame with its delay.
pub open spec fn planned(frames: Seq<FrameParts>) -> Seq<(u32, u32, Seq<u8>, u32)> {
    if frames.len() > MAX_ANIMATION_FRAMES {
        seq![(frames[0].0, frames[0].1, frames[0].2, 0u32)]
    } else {
        frames.map_values(|f: FrameParts| (f.0, f.1, f.2, delay_of(f.3, f.4)))
    }
}

/// Whether an entry of `byte_len` bytes named `entry_name` is decoded as an animation,
/// and by which decoder (see `animation_kind_of`).
pub fn animation_kind(entry_name: &str, byte_len: usize) -> (r: Option<bool>)
    ensures
        r == animation_kind_of(entry_name@, byte_len as nat),
{
    if byte_len > MAX_ANIM_DECODE_SIZE {
        return None;
    }
    let v = str_chars(entry_name);
    let gif = vec!['.', 'g', 'i', 'f'];
    let webp = vec!['.', 'w', 'e', 'b', 'p'];
    assert(gif@ == seq!['.', 'g', 'i', 'f']);
    assert(webp@ == seq!['.', 'w', 'e', 'b', 'p']);
    if ends_with_ignoring_case_chars(&v, &gif) {
        Some(false)
    } else if ends_with_ignoring_case_chars(&v, &webp) {
        Some(true)
    } else {
        None
    }
}

/// The frames to show for an entry, given what the animation decoder made of it: `None`
/// where the entry is not decoded as an animation (see `animation_kind_of`) or the decoder
/// failed, so that it is decoded as a still image; otherwise the frames of `planned`.
pub fn plan_frames(
    entry_name: &str,
    byte_len: usize,
    frames: Option<Vec<(RgbaPixels, u32, u32)>>,
) -> (r: Option<Vec<FrameData>>)
    ensures
        r is None <==> (animation_kind_of(entry_name@, byte_len as nat) is None || frames is None),
        r matches Some(v) ==> all_shown_parts(v@) == planned(frames_parts(frames->0@)),
{
    if animation_kind(entry_name, byte_len).is_none() {
        return None;
    }
    let mut fs = match frames {
        Some(fs) => fs,
        None => return None,
    };
    let ghost orig = fs@;
    if fs.len() > MAX_ANIMATION_FRAMES {
        let first = fs.swap_remove(0);
        let mut out: Vec<FrameData> = Vec::new();
        out.push(FrameData { image: first.0, delay_ms: 0 });
        assert(all_shown_parts(out@) =~= planned(frames_parts(orig)));
        return Some(out);
    }
    let mut out: Vec<FrameData> = Vec::new();
    let mut k: usize = 0;
    let n = fs.len();
    while fs.len() > 0
        invariant
            n == orig.len(),
            n <= MAX_ANIMATION_FRAMES,
            k + fs@.len() == n,
            fs@ == orig.skip(k as int),
            all_shown_parts(out@) == planned(frames_parts(orig)).take(k as int),
        decreases fs.len(),
    {
        let f = fs.remove(0);
        assert(f == orig[k as int]);
        let ghost before = out@;
        assert(planned(frames_parts(orig)).len() == n);
        assert(all_shown_parts(before).len() == before.len());
        assert(before.len() == k);
        let d = frame_delay_ms(f.1, f.2);
        out.push(FrameData { image: f.0, delay_ms: d });
        assert(fs@ =~= orig.skip(k + 1));
        assert(frames_parts(orig).len() == n);
        assert(frames_parts(orig)[k as int] == frame_parts(orig[k as int]));
        assert(planned(frames_parts(orig))[k as int] == (f.0.width, f.0.height, f.0.data@, d));
        assert(out@[k as int] == FrameData { image: f.0, delay_ms: d });
        assert(all_shown_parts(out@)[k as int] == (f.0.width, f.0.height, f.0.data@, d));
        k = k + 1;
        assert(all_shown_parts(out@) =~= planned(frames_parts(orig)).take(k as int));
    }
    assert(planned(frames_parts(orig)).take(k as int) =~= planned(frames_parts(orig)));
    Some(out)
}

/// The exact frames `plan_frames` gives for an entry once `decode_animation` has run.
pub open spec fn entry_frames(name: Seq<char>, bytes: Seq<u8>) -> Option<Seq<(u32, u32, Seq<u8>, u32)>> {
    match animation_kind_of(name, bytes.len()) {
        Some(webp) => match decoded_frames(bytes, webp) {
            Some(fs) => Some(planned(fs)),
            None => None,
        },
        None => None,
    }
}

/// Decodes the bytes of an entry named `entry_name` into the frames to show: an animation
/// where the name and size allow it and the decoder succeeds, else a still image with no
/// delay, else the still decoder's error text.
pub fn decode_entry(entry_name: &str, bytes: &Vec<u8>) -> (r: Result<Vec<FrameData>, String>)
    ensures
        entry_frames(entry_name@, bytes@) matches Some(fs) ==> (r matches Ok(v) && all_shown_parts(v@)
            == fs),
        entry_frames(entry_name@, bytes@) is None ==> match decoded_still(bytes@) {
            Ok(p) => r matches Ok(v) && all_shown_parts(v@) == seq![(p.0, p.1, p.2, 0u32)],
            Err(e) => r matches Err(m) && m@ == e,
        },
{
    let kind = animation_kind(entry_name, bytes.len());
    let frames = match kind {
        Some(webp) => decode_animation(bytes, webp),
        None => None,
    };
    let planned_frames = plan_frames(entry_name, bytes.len(), frames);
    match planned_frames {
        Some(v) => Ok(v),
        None => match decode_still(bytes) {
            Ok(p) => {
                let mut v: Vec<FrameData> = Vec::new();
                v.push(FrameData { image: p, delay_ms: 0 });
                assert(all_shown_parts(v@) =~= seq![(v@[0].image.width, v@[0].image.height, v@[0].image.data@, 0u32)]);
                Ok(v)
            },
            Err(e) => Err(e),
        },
    }
}

} // verus!
