//! PNG encoding and image decoding through the `image` crate, and the pixel
//! crop that region captures apply to an RGBA8 buffer.
use vstd::prelude::*;

use image::codecs::png::PngEncoder;
use image::ImageEncoder;

verus! {

/// The bytes `image`'s PNG encoder produces for an RGBA8 buffer.
pub uninterp spec fn png_encoding(rgba: Seq<u8>, width: u32, height: u32) -> Seq<u8>;

/// What `image::load_from_memory(..).to_rgba8()` yields for `bytes`:
/// width, height and RGBA8 pixels, or nothing when the bytes do not decode.
pub uninterp spec fn rgba8_decoding(bytes: Seq<u8>) -> Option<(u32, u32, Seq<u8>)>;

/// The eight-byte signature every PNG stream starts with.
pub open spec fn png_signature() -> Seq<u8> {
    seq![0x89u8, 0x50u8, 0x4Eu8, 0x47u8, 0x0Du8, 0x0Au8, 0x1Au8, 0x0Au8]
}

/// `PngEncoder::write_image` with `ExtendedColorType::Rgba8` into a fresh
/// buffer. The encoder asserts that the buffer holds exactly
/// `width * height * 4` bytes, hence the precondition. Writing into memory
/// cannot fail, and the `png` encoder refuses only a zero width or height,
/// so encoding succeeds whenever both are positive. On success the output
/// is a PNG stream, which begins with the PNG signature.
#[verifier::external_body]
pub(crate) fn png_encode_rgba8(rgba: &[u8], width: u32, height: u32) -> (r: Result<Vec<u8>, String>)
    requires
        rgba@.len() == width * height * 4,
    ensures
        width > 0 && height > 0 ==> r is Ok,
        r matches Ok(b) ==> b@ == png_encoding(rgba@, width, height) && b@.len() >= 8
            && b@.take(8) == png_signature(),
{
    let mut out: Vec<u8> = Vec::new();
    match PngEncoder::new(&mut out).write_image(rgba, width, height, image::ExtendedColorType::Rgba8) {
        Ok(()) => Ok(out),
        Err(e) => Err(e.to_string()),
    }
}

/// `image::load_from_memory` followed by `to_rgba8`: the decoded width,
/// height and RGBA8 pixels, `width * height * 4` bytes; on failure the
/// decoder's error text.
#[verifier::external_body]
pub(crate) fn decode_rgba8(bytes: &[u8]) -> (r: Result<(u32, u32, Vec<u8>), String>)
    ensures
        match r {
            Ok((w, h, px)) => rgba8_decoding(bytes@) == Some((w, h, px@)) && px@.len() == w * h
                * 4,
            Err(_) => rgba8_decoding(bytes@) is None,
        },
{
    match image::load_from_memory(bytes) {
        Ok(img) => {
            let rgba = img.to_rgba8();
            let (w, h) = rgba.dimensions();
            Ok((w, h, rgba.into_raw()))
        },
        Err(e) => Err(e.to_string()),
    }
}

/// Row `r` of the crop window: pixels `x .. x + w` of source row `r`.
pub open spec fn crop_row(src: Seq<u8>, img_w: nat, x: nat, w: nat, r: nat) -> Seq<u8> {
    src.subrange(((r * img_w + x) * 4) as int, ((r * img_w + x + w) * 4) as int)
}

/// The `w` x `h` window at (`x`, `y`) of an RGBA8 image `img_w` pixels wide,
/// row after row.
pub open spec fn spec_crop(src: Seq<u8>, img_w: nat, x: nat, y: nat, w: nat, h: nat) -> Seq<u8>
    decreases h,
{
    if h == 0 {
        Seq::empty()
    } else {
        spec_crop(src, img_w, x, y, w, (h - 1) as nat) + crop_row(src, img_w, x, w, (y + h - 1) as nat)
    }
}

pub(crate) proof fn lemma_row_in_bounds(img_w: nat, img_h: nat, x: nat, w: nat, r: nat)
    requires
        x + w <= img_w,
        r < img_h,
    ensures
        (r * img_w + x + w) * 4 <= img_w * img_h * 4,
        r * img_w + x <= r * img_w + x + w,
{
    assert(r * img_w + img_w <= img_h * img_w) by (nonlinear_arith)
        requires
            r < img_h,
    ;
    assert(img_h * img_w == img_w * img_h) by (nonlinear_arith);
}

/// The `w` x `h` window at (`x`, `y`) of an RGBA8 image of `img_w` x `img_h`.
pub fn crop_rgba(src: &Vec<u8>, img_w: u32, img_h: u32, x: u32, y: u32, w: u32, h: u32) -> (r: Vec<
    u8,
>)
    requires
        src@.len() == img_w * img_h * 4,
        x + w <= img_w,
        y + h <= img_h,
    ensures
        r@ == spec_crop(src@, img_w as nat, x as nat, y as nat, w as nat, h as nat),
        r@.len() == w * h * 4,
        forall|k: int, i: int|
            0 <= k < h && 0 <= i < w * 4 ==> #[trigger] r@[crop_index(w as int, k, i)] == src@[((y + k)
                * img_w + x) * 4 + i],
{
    proof {
        lemma_crop_len(src@, img_w as nat, img_h as nat, x as nat, y as nat, w as nat, h as nat);
        lemma_crop_takes_rows(src@, img_w as nat, img_h as nat, x as nat, y as nat, w as nat, h as nat);
    }
    let mut out: Vec<u8> = Vec::new();
    let n: usize = src.len();
    let mut j: u32 = 0;
    while j < h
        invariant
            j <= h,
            n == src@.len(),
            src@.len() == img_w * img_h * 4,
            x + w <= img_w,
            y + h <= img_h,
            out@ == spec_crop(src@, img_w as nat, x as nat, y as nat, w as nat, j as nat),
        decreases h - j,
    {
        let row: u32 = y + j;
        proof {
            lemma_row_in_bounds(img_w as nat, img_h as nat, x as nat, w as nat, row as nat);
            assert((row as nat) * (img_w as nat) <= (row as nat) * (img_w as nat) + x + w);
            assert((row as nat) * (img_w as nat) + x + w <= ((row as nat) * (img_w as nat) + x + w) * 4);
        }
        let start: usize = ((row as usize) * (img_w as usize) + (x as usize)) * 4;
        let end: usize = start + (w as usize) * 4;
        let ghost before = out@;
        let mut k: usize = start;
        while k < end
            invariant
                start <= k <= end,
                end <= src@.len(),
                out@ == before + src@.subrange(start as int, k as int),
            decreases end - k,
        {
            out.push(src[k]);
            proof {
                assert(src@.subrange(start as int, k + 1) == src@.subrange(start as int, k as int).push(
                    src@[k as int],
                ));
            }
            k = k + 1;
        }
        proof {
            assert(start as nat == (row as nat * img_w as nat + x as nat) * 4);
            assert(end as nat == (row as nat * img_w as nat + x as nat + w as nat) * 4);
            assert(out@ == before + crop_row(src@, img_w as nat, x as nat, w as nat, row as nat));
            assert(spec_crop(src@, img_w as nat, x as nat, y as nat, w as nat, (j + 1) as nat)
                == spec_crop(src@, img_w as nat, x as nat, y as nat, w as nat, j as nat) + crop_row(
                src@,
                img_w as nat,
                x as nat,
                w as nat,
                (y + j) as nat,
            ));
        }
        j = j + 1;
    }
    out
}

/// Where byte `i` of row `k` sits in an RGBA8 image `width` pixels wide.
pub open spec fn crop_index(width: int, k: int, i: int) -> int {
    k * width * 4 + i
}

/// A crop is made of whole rows of the source, top to bottom: byte `i` of
/// the crop's row `k` is byte `i` of the window on source row `y + k`,
/// that is source byte `((y + k) * img_w + x) * 4 + i`.
pub proof fn lemma_crop_takes_rows(src: Seq<u8>, img_w: nat, img_h: nat, x: nat, y: nat, w: nat, h: nat)
    requires
        src.len() == img_w * img_h * 4,
        x + w <= img_w,
        y + h <= img_h,
    ensures
        forall|k: int, i: int|
            0 <= k < h && 0 <= i < w * 4 ==> #[trigger] spec_crop(src, img_w, x, y, w, h)[crop_index(
                w as int,
                k,
                i,
            )] == src[((y + k) * img_w + x) * 4 + i],
    decreases h,
{
    if h > 0 {
        let h1 = (h - 1) as nat;
        lemma_crop_takes_rows(src, img_w, img_h, x, y, w, h1);
        lemma_crop_len(src, img_w, img_h, x, y, w, h1);
        let r = (y + h - 1) as nat;
        lemma_row_in_bounds(img_w, img_h, x, w, r);
        let pre = spec_crop(src, img_w, x, y, w, h1);
        let row = crop_row(src, img_w, x, w, r);
        assert(row.len() == w * 4) by {
            assert((r * img_w + x + w) * 4 - (r * img_w + x) * 4 == w * 4) by (nonlinear_arith);
            assert(0 <= (r * img_w + x) * 4) by (nonlinear_arith);
        }
        assert(spec_crop(src, img_w, x, y, w, h) == pre + row);
        assert forall|k: int, i: int| 0 <= k < h && 0 <= i < w * 4 implies #[trigger] spec_crop(
            src,
            img_w,
            x,
            y,
            w,
            h,
        )[crop_index(w as int, k, i)] == src[((y + k) * img_w + x) * 4 + i] by {
            if k < h1 {
                assert(crop_index(w as int, k, i) < h1 * w * 4) by (nonlinear_arith)
                    requires
                        0 <= k < h1,
                        0 <= i < w * 4,
                ;
                assert(0 <= crop_index(w as int, k, i)) by (nonlinear_arith)
                    requires
                        0 <= k,
                        0 <= i,
                ;
                assert(pre[crop_index(w as int, k, i)] == src[((y + k) * img_w + x) * 4 + i]);
            } else {
                assert(k == h1);
                assert(crop_index(w as int, k, i) == h1 * w * 4 + i) by (nonlinear_arith)
                    requires
                        k == h1,
                ;
                assert(h1 * w * 4 == w * h1 * 4) by (nonlinear_arith);
                assert((pre + row)[crop_index(w as int, k, i)] == row[i]);
                assert(((r * img_w + x) * 4) + i == ((y + k) * img_w + x) * 4 + i);
                assert(0 <= (r * img_w + x) * 4) by (nonlinear_arith);
            }
        }
    }
}

/// A crop window of `w` x `h` pixels holds `w * h * 4` bytes.
pub proof fn lemma_crop_len(src: Seq<u8>, img_w: nat, img_h: nat, x: nat, y: nat, w: nat, h: nat)
    requires
        src.len() == img_w * img_h * 4,
        x + w <= img_w,
        y + h <= img_h,
    ensures
        spec_crop(src, img_w, x, y, w, h).len() == w * h * 4,
    decreases h,
{
    if h > 0 {
        lemma_crop_len(src, img_w, img_h, x, y, w, (h - 1) as nat);
        let r = (y + h - 1) as nat;
        lemma_row_in_bounds(img_w, img_h, x, w, r);
        assert(crop_row(src, img_w, x, w, r).len() == w * 4) by {
            assert((r * img_w + x + w) * 4 - (r * img_w + x) * 4 == w * 4) by (nonlinear_arith);
            assert(0 <= (r * img_w + x) * 4) by (nonlinear_arith);
        }
        assert(spec_crop(src, img_w, x, y, w, h) == spec_crop(src, img_w, x, y, w, (h - 1) as nat)
            + crop_row(src, img_w, x, w, r));
        assert(w * h * 4 == w * (h - 1) * 4 + w * 4) by (nonlinear_arith)
            requires
                h > 0,
        ;
    } else {
        assert(w * h * 4 == 0) by (nonlinear_arith)
            requires
                h == 0,
        ;
    }
}

} // verus!
