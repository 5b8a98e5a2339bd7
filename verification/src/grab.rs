//! Screen grabs: the grabbed image, the capturable-window listing, monitor
//! selection and region clamping.
use vstd::prelude::*;

use crate::capture_error::CaptureError;
use crate::image_codec::{crop_rgba, png_encode_rgba8, png_encoding, png_signature, spec_crop};

verus! {

/// An encoded grab of a monitor, window or region.
#[derive(Debug, Clone)]
pub struct GrabResult {
    pub png_bytes: Vec<u8>,
    pub width: u32,
    pub height: u32,
    pub monitor_name: String,
}

/// A window the user may capture.
#[derive(Debug, Clone, PartialEq, Eq)]
pub struct WindowInfo {
    pub id: u32,
    pub app_name: String,
    pub title: String,
    pub width: u32,
    pub height: u32,
}

/// What the platform reports about one open window. Attributes the platform
/// cannot read are given defaults: id 0, empty names, size 0, minimized.
#[derive(Debug, Clone)]
pub struct WindowSnapshot {
    pub id: u32,
    pub app_name: String,
    pub title: String,
    pub width: u32,
    pub height: u32,
    pub minimized: bool,
}

/// What the platform reports about one monitor.
#[derive(Debug, Clone, Copy, PartialEq, Eq)]
pub struct MonitorSummary {
    /// Native display identity.
    pub id: u32,
    pub is_primary: bool,
}

/// The position of the monitor whose native id is `requested`. The
/// argument is a native identity, never an enumeration index.
pub fn resolve_requested_monitor_position(monitor_ids: &[u32], requested: u32) -> (r: Option<usize>)
    ensures
        match r {
            Some(i) => i < monitor_ids@.len() && monitor_ids@[i as int] == requested && forall|j: int|
                0 <= j < i ==> monitor_ids@[j] != requested,
            None => forall|j: int| 0 <= j < monitor_ids@.len() ==> monitor_ids@[j] != requested,
        },
{
    let mut i: usize = 0;
    while i < monitor_ids.len()
        invariant
            i <= monitor_ids@.len(),
            forall|j: int| 0 <= j < i ==> monitor_ids@[j] != requested,
        decreases monitor_ids@.len() - i,
    {
        if monitor_ids[i] == requested {
            return Some(i);
        }
        i = i + 1;
    }
    None
}

/// Which monitor to grab: with a requested id, the monitor with that
/// native id (or `MonitorNotFound`); without, the first primary monitor,
/// else the last one listed. An empty listing is `NoMonitors`.
pub fn select_monitor(monitors: &Vec<MonitorSummary>, monitor_id: Option<u32>) -> (r: Result<
    usize,
    CaptureError,
>)
    ensures
        monitors@.len() == 0 ==> r == Err::<usize, CaptureError>(CaptureError::NoMonitors),
        monitors@.len() > 0 ==> match monitor_id {
            Some(id) => match r {
                Ok(i) => i < monitors@.len() && monitors@[i as int].id == id && forall|j: int|
                    0 <= j < i ==> monitors@[j].id != id,
                Err(e) => e == CaptureError::MonitorNotFound { id } && forall|j: int|
                    0 <= j < monitors@.len() ==> monitors@[j].id != id,
            },
            None => match r {
                Ok(i) => i < monitors@.len() && if exists|j: int|
                    0 <= j < monitors@.len() && monitors@[j].is_primary {
                    monitors@[i as int].is_primary && forall|j: int|
                        0 <= j < i ==> !monitors@[j].is_primary
                } else {
                    i == monitors@.len() - 1
                },
                Err(_) => false,
            },
        },
{
    if monitors.len() == 0 {
        return Err(CaptureError::NoMonitors);
    }
    match monitor_id {
        Some(id) => {
            let mut i: usize = 0;
            while i < monitors.len()
                invariant
                    i <= monitors@.len(),
                    monitor_id == Some(id),
                    forall|j: int| 0 <= j < i ==> monitors@[j].id != id,
                decreases monitors@.len() - i,
            {
                if monitors[i].id == id {
                    return Ok(i);
                }
                i = i + 1;
            }
            Err(CaptureError::MonitorNotFound { id })
        },
        None => {
            let mut i: usize = 0;
            while i < monitors.len()
                invariant
                    i <= monitors@.len(),
                    monitor_id is None,
                    forall|j: int| 0 <= j < i ==> !monitors@[j].is_primary,
                decreases monitors@.len() - i,
            {
                if monitors[i].is_primary {
                    return Ok(i);
                }
                i = i + 1;
            }
            Ok(monitors.len() - 1)
        },
    }
}

/// `a` minus `b`, or zero.
pub open spec fn sat_sub(a: u32, b: u32) -> u32 {
    if a >= b {
        (a - b) as u32
    } else {
        0
    }
}

/// The smaller of `a` and `b`.
pub open spec fn min_u32(a: u32, b: u32) -> u32 {
    if a <= b {
        a
    } else {
        b
    }
}

/// The requested region clamped to an `img_w` x `img_h` image: the origin
/// is pulled inside the image, the size cut to what remains; no region when
/// the result has zero area.
pub open spec fn spec_clamp_region(img_w: u32, img_h: u32, x: u32, y: u32, w: u32, h: u32) -> Option<
    (u32, u32, u32, u32),
> {
    let cx = min_u32(x, sat_sub(img_w, 1));
    let cy = min_u32(y, sat_sub(img_h, 1));
    let cw = min_u32(w, sat_sub(img_w, cx));
    let ch = min_u32(h, sat_sub(img_h, cy));
    if cw == 0 || ch == 0 {
        None
    } else {
        Some((cx, cy, cw, ch))
    }
}

/// Clamp a requested capture region against an image's bounds. `None` when
/// the resulting region would have zero area.
pub fn clamp_region(img_w: u32, img_h: u32, x: u32, y: u32, w: u32, h: u32) -> (r: Option<
    (u32, u32, u32, u32),
>)
    ensures
        r == spec_clamp_region(img_w, img_h, x, y, w, h),
{
    let mw: u32 = if img_w >= 1 { img_w - 1 } else { 0 };
    let mh: u32 = if img_h >= 1 { img_h - 1 } else { 0 };
    let cx: u32 = if x <= mw { x } else { mw };
    let cy: u32 = if y <= mh { y } else { mh };
    let rw: u32 = if img_w >= cx { img_w - cx } else { 0 };
    let rh: u32 = if img_h >= cy { img_h - cy } else { 0 };
    let cw: u32 = if w <= rw { w } else { rw };
    let ch: u32 = if h <= rh { h } else { rh };
    if cw == 0 || ch == 0 {
        None
    } else {
        Some((cx, cy, cw, ch))
    }
}

/// A clamped region lies inside the image and is never empty.
pub proof fn lemma_clamped_region_inside(img_w: u32, img_h: u32, x: u32, y: u32, w: u32, h: u32)
    ensures
        spec_clamp_region(img_w, img_h, x, y, w, h) matches Some((cx, cy, cw, ch)) ==> cx + cw
            <= img_w && cy + ch <= img_h && cw > 0 && ch > 0 && cw <= w && ch <= h,
{
}

/// A region already inside the image is left as it is.
pub proof fn lemma_inside_region_unchanged(img_w: u32, img_h: u32, x: u32, y: u32, w: u32, h: u32)
    requires
        w > 0,
        h > 0,
        x + w <= img_w,
        y + h <= img_h,
    ensures
        spec_clamp_region(img_w, img_h, x, y, w, h) == Some((x, y, w, h)),
{
}

/// Encode RGBA8 pixels into a PNG byte stream.
pub fn encode_rgba_to_png(rgba: &[u8], w: u32, h: u32) -> (r: Result<Vec<u8>, CaptureError>)
    requires
        rgba@.len() == w * h * 4,
    ensures
        w > 0 && h > 0 ==> r is Ok,
        match r {
            Ok(b) => b@ == png_encoding(rgba@, w, h) && b@.len() >= 8 && b@.take(8)
                == png_signature(),
            Err(e) => e is Encode,
        },
{
    match png_encode_rgba8(rgba, w, h) {
        Ok(b) => Ok(b),
        Err(message) => Err(CaptureError::Encode { message }),
    }
}

/// A grab of a whole monitor or window from its captured RGBA8 pixels: the
/// PNG encoding of all of them, with their size and the monitor's name.
pub fn grab_from_pixels(rgba: &[u8], width: u32, height: u32, monitor_name: String) -> (r: Result<
    GrabResult,
    CaptureError,
>)
    requires
        rgba@.len() == width * height * 4,
    ensures
        width > 0 && height > 0 ==> r is Ok,
        match r {
            Ok(g) => g.png_bytes@ == png_encoding(rgba@, width, height) && g.width == width
                && g.height == height && g.monitor_name == monitor_name,
            Err(e) => e is Encode,
        },
{
    let png_bytes = encode_rgba_to_png(rgba, width, height)?;
    Ok(GrabResult { png_bytes, width, height, monitor_name })
}

/// A region grab from a monitor's captured RGBA8 pixels: the requested
/// region is clamped to the image, an empty result is an `Os` error, and
/// otherwise the clamped window is cropped out and PNG-encoded.
pub fn grab_region_from_pixels(
    rgba: &Vec<u8>,
    img_w: u32,
    img_h: u32,
    x: u32,
    y: u32,
    w: u32,
    h: u32,
    monitor_name: String,
) -> (r: Result<GrabResult, CaptureError>)
    requires
        rgba@.len() == img_w * img_h * 4,
    ensures
        match spec_clamp_region(img_w, img_h, x, y, w, h) {
            None => r matches Err(CaptureError::Os { message }) && message@
                == "region has zero area"@,
            Some((cx, cy, cw, ch)) => r is Ok && match r {
                Ok(g) => g.png_bytes@ == png_encoding(
                    spec_crop(rgba@, img_w as nat, cx as nat, cy as nat, cw as nat, ch as nat),
                    cw,
                    ch,
                ) && g.width == cw && g.height == ch && g.monitor_name == monitor_name,
                Err(e) => e is Encode,
            },
        },
{
    let (cx, cy, cw, ch) = match clamp_region(img_w, img_h, x, y, w, h) {
        Some(region) => region,
        None => {
            return Err(CaptureError::Os { message: crate::text::owned("region has zero area") });
        },
    };
    proof {
        lemma_clamped_region_inside(img_w, img_h, x, y, w, h);
        crate::image_codec::lemma_crop_len(
            rgba@,
            img_w as nat,
            img_h as nat,
            cx as nat,
            cy as nat,
            cw as nat,
            ch as nat,
        );
    }
    let cropped = crop_rgba(rgba, img_w, img_h, cx, cy, cw, ch);
    let png_bytes = encode_rgba_to_png(cropped.as_slice(), cw, ch)?;
    Ok(GrabResult { png_bytes, width: cw, height: ch, monitor_name })
}

/// A window is capturable when it is not minimized and has a non-empty size.
pub open spec fn is_capturable(w: WindowSnapshot) -> bool {
    !w.minimized && w.width > 0 && w.height > 0
}

/// The listing entry of a window.
pub open spec fn info_of(w: WindowSnapshot) -> WindowInfo {
    WindowInfo { id: w.id, app_name: w.app_name, title: w.title, width: w.width, height: w.height }
}

/// The capturable windows of `s`, in order.
pub open spec fn spec_capturable(s: Seq<WindowSnapshot>) -> Seq<WindowInfo>
    decreases s.len(),
{
    if s.len() == 0 {
        Seq::empty()
    } else {
        let rest = spec_capturable(s.drop_last());
        if is_capturable(s.last()) {
            rest.push(info_of(s.last()))
        } else {
            rest
        }
    }
}

/// The windows offered for capture: every window that is not minimized and
/// has a non-empty size, in the platform's order.
pub fn capturable_windows(windows: Vec<WindowSnapshot>) -> (r: Vec<WindowInfo>)
    ensures
        r@ == spec_capturable(windows@),
{
    let mut out: Vec<WindowInfo> = Vec::new();
    let mut i: usize = 0;
    while i < windows.len()
        invariant
            i <= windows@.len(),
            out@ == spec_capturable(windows@.take(i as int)),
        decreases windows@.len() - i,
    {
        let w = &windows[i];
        proof {
            let t = windows@.take(i + 1);
            assert(t.drop_last() == windows@.take(i as int));
            assert(t.last() == windows@[i as int]);
        }
        if !w.minimized && w.width > 0 && w.height > 0 {
            out.push(
                WindowInfo {
                    id: w.id,
                    app_name: w.app_name.clone(),
                    title: w.title.clone(),
                    width: w.width,
                    height: w.height,
                },
            );
        }
        i = i + 1;
    }
    proof {
        assert(windows@.take(windows@.len() as int) == windows@);
    }
    out
}

/// The window with id `window_id`, first in listing order.
pub fn find_window(windows: &Vec<WindowSnapshot>, window_id: u32) -> (r: Result<usize, CaptureError>)
    ensures
        match r {
            Ok(i) => i < windows@.len() && windows@[i as int].id == window_id && forall|j: int|
                0 <= j < i ==> windows@[j].id != window_id,
            Err(e) => e == CaptureError::WindowNotFound { id: window_id } && forall|j: int|
                0 <= j < windows@.len() ==> windows@[j].id != window_id,
        },
{
    let mut i: usize = 0;
    while i < windows.len()
        invariant
            i <= windows@.len(),
            forall|j: int| 0 <= j < i ==> windows@[j].id != window_id,
        decreases windows@.len() - i,
    {
        if windows[i].id == window_id {
            return Ok(i);
        }
        i = i + 1;
    }
    Err(CaptureError::WindowNotFound { id: window_id })
}

} // verus!
