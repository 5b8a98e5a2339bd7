//! The screen preview a region capture is cut from. One snapshot is held at
//! a time, under a token; cropping it with the current token consumes it.
use vstd::prelude::*;

use crate::capture_error::CaptureError;
use crate::display::Display;
use crate::foreground::ForegroundInfo;
use crate::grab::{clamp_region, spec_clamp_region, GrabResult};
use crate::image_codec::{crop_rgba, decode_rgba8, png_encode_rgba8, png_encoding, rgba8_decoding, spec_crop};
use crate::capture_permissions::require_screen_recording;
use crate::display::{describe, spec_coordinate_space};
use crate::grab::grab_from_pixels;
use crate::platform::Platform;
use crate::text::{owned, push_str, str_eq};
use crate::window_hider::{WindowManager, WindowVisibilityGuard, HIDE_SETTLE_DELAY_MS};
use crate::call_record::{extends, lemma_chain, lemma_extends_itself, lemma_one_call_more, one_call_more, since};

use uuid::Uuid;

verus! {

/// What the frontend receives for a preview: where the image was written,
/// its pixel size, the token that names it and the native display geometry.
#[derive(Debug, Clone)]
pub struct ScreenPreview {
    pub path: String,
    pub width: u32,
    pub height: u32,
    pub token: String,
    pub display: Display,
}

/// A held preview: its token, pixels and the foreground app at grab time.
#[derive(Debug, Clone)]
pub struct Snapshot {
    pub token: String,
    pub pixels: GrabResult,
    pub foreground: Option<ForegroundInfo>,
}

/// A single bounded snapshot slot.
pub struct PreviewSession {
    snapshot: Option<Snapshot>,
}

impl Default for PreviewSession {
    fn default() -> (r: Self)
        ensures
            r.held() is None,
    {
        PreviewSession { snapshot: None }
    }
}

/// How a crop of a matching snapshot proceeds: `None` when its pixels do
/// not decode, `Some(None)` when the clamped region is empty, otherwise the
/// clamped width, height and cropped RGBA8 pixels.
pub open spec fn crop_plan(s: Snapshot, x: u32, y: u32, w: u32, h: u32) -> Option<
    Option<(u32, u32, Seq<u8>)>,
> {
    match rgba8_decoding(s.pixels.png_bytes@) {
        None => None,
        Some((iw, ih, px)) => match spec_clamp_region(iw, ih, x, y, w, h) {
            None => Some(None),
            Some((cx, cy, cw, ch)) => Some(
                Some((cw, ch, spec_crop(px, iw as nat, cx as nat, cy as nat, cw as nat, ch as nat))),
            ),
        },
    }
}

/// A crop request under `token` is stale when no snapshot is held under it.
pub open spec fn crop_is_stale(held: Option<Snapshot>, token: Seq<char>) -> bool {
    !(held matches Some(s) && s.token@ == token)
}

/// A preview superseded by a newer one is stale, and the newer one is not:
/// after `replace` under `newer.token`, a crop under any other token is
/// refused as stale (and leaves the newer snapshot held), while a crop under
/// the newer token proceeds.
pub proof fn lemma_superseded_preview_is_stale(newer: Snapshot, older_token: Seq<char>)
    requires
        older_token != newer.token@,
    ensures
        crop_is_stale(Some(newer), older_token),
        !crop_is_stale(Some(newer), newer.token@),
{
}

/// A snapshot whose pixels decode can be cropped to any region that clamps
/// to a non-empty one, so a fresh preview can be cut from.
pub proof fn lemma_decodable_snapshot_crops(s: Snapshot, iw: u32, ih: u32, px: Seq<u8>, x: u32, y: u32, w: u32, h: u32)
    requires
        rgba8_decoding(s.pixels.png_bytes@) == Some((iw, ih, px)),
        spec_clamp_region(iw, ih, x, y, w, h) is Some,
    ensures
        crop_plan(s, x, y, w, h) matches Some(Some(_)),
{
}

impl PreviewSession {
    /// The snapshot currently held.
    pub closed spec fn held(&self) -> Option<Snapshot> {
        self.snapshot
    }

    /// An empty session.
    pub fn new() -> (r: Self)
        ensures
            r.held() is None,
    {
        PreviewSession { snapshot: None }
    }

    /// Hold a new snapshot under `token`, superseding any previous one.
    pub fn replace(&mut self, token: String, pixels: GrabResult, foreground: Option<ForegroundInfo>)
        ensures
            final(self).held() == Some(Snapshot { token, pixels, foreground }),
    {
        self.snapshot = Some(Snapshot { token, pixels, foreground });
    }

    /// Cut the region (`x`, `y`, `w`, `h`) out of the snapshot held under
    /// `token`. A missing or superseded token is `StalePreview` and leaves
    /// the held snapshot alone; a region clamped to zero area is an `Os`
    /// error; decoding and encoding failures are `Encode` errors. Only a
    /// successful crop consumes the snapshot.
    pub fn crop(&mut self, token: &str, x: u32, y: u32, w: u32, h: u32) -> (r: Result<
        (GrabResult, Option<ForegroundInfo>),
        CaptureError,
    >)
        ensures
            (r == Err::<(GrabResult, Option<ForegroundInfo>), CaptureError>(CaptureError::StalePreview))
                <==> crop_is_stale(old(self).held(), token@),
            old(self).held() matches Some(s) ==> (s.token@ == token@ && (crop_plan(s, x, y, w, h) matches Some(
                Some(_),
            )) ==> r is Ok),
            match old(self).held() {
                Some(s) if s.token@ == token@ => match r {
                    Ok((g, fg)) => {
                        &&& final(self).held() is None
                        &&& crop_plan(s, x, y, w, h) matches Some(Some((cw, ch, px)))
                        &&& g.width == cw
                        &&& g.height == ch
                        &&& g.png_bytes@ == png_encoding(px, cw, ch)
                        &&& g.monitor_name == s.pixels.monitor_name
                        &&& fg == s.foreground
                    },
                    Err(e) => {
                        &&& final(self).held() == old(self).held()
                        &&& match crop_plan(s, x, y, w, h) {
                            Some(None) => e matches CaptureError::Os { message } && message@
                                == "region has zero area"@,
                            _ => e is Encode,
                        }
                    },
                },
                _ => r == Err::<(GrabResult, Option<ForegroundInfo>), CaptureError>(
                    CaptureError::StalePreview,
                ) && final(self).held() == old(self).held(),
            },
    {
        let matches = match &self.snapshot {
            Some(s) => str_eq(s.token.as_str(), token),
            None => false,
        };
        if !matches {
            return Err(CaptureError::StalePreview);
        }
        let snapshot = self.snapshot.take().unwrap();
        let decoded = decode_rgba8(snapshot.pixels.png_bytes.as_slice());
        let (iw, ih, px) = match decoded {
            Ok(d) => d,
            Err(message) => {
                self.snapshot = Some(snapshot);
                return Err(CaptureError::Encode { message });
            },
        };
        let region = clamp_region(iw, ih, x, y, w, h);
        let (cx, cy, cw, ch) = match region {
            Some(r) => r,
            None => {
                self.snapshot = Some(snapshot);
                return Err(CaptureError::Os { message: owned("region has zero area") });
            },
        };
        proof {
            crate::grab::lemma_clamped_region_inside(iw, ih, x, y, w, h);
            crate::image_codec::lemma_crop_len(px@, iw as nat, ih as nat, cx as nat, cy as nat, cw as nat, ch as nat);
        }
        let cropped = crop_rgba(&px, iw, ih, cx, cy, cw, ch);
        match png_encode_rgba8(cropped.as_slice(), cw, ch) {
            Ok(png_bytes) => {
                let Snapshot { token: _, pixels, foreground } = snapshot;
                Ok((GrabResult { png_bytes, width: cw, height: ch, monitor_name: pixels.monitor_name }, foreground))
            },
            Err(message) => {
                self.snapshot = Some(snapshot);
                Err(CaptureError::Encode { message })
            },
        }
    }
}

/// `Uuid::now_v7().to_string()`: a fresh time-ordered UUID in its
/// hyphenated lower-case form, which is always 36 characters long. Its
/// value depends on the clock and a random source, so nothing else is
/// stated.
#[verifier::external_body]
fn new_preview_token() -> (r: String)
    ensures
        r@.len() == 36,
{
    Uuid::now_v7().to_string()
}

/// Whether an RGBA8 buffer of `len` bytes holds exactly `width` x `height`
/// pixels.
fn pixels_match(len: usize, width: u32, height: u32) -> (r: bool)
    ensures
        r == (len == width * height * 4),
{
    proof {
        assert((width as int) * (height as int) <= 0xFFFF_FFFFint * 0xFFFF_FFFFint) by (nonlinear_arith)
            requires
                width <= 0xFFFF_FFFFint,
                height <= 0xFFFF_FFFFint,
        ;
    }
    let wh: u64 = (width as u64) * (height as u64);
    if wh > u64::MAX / 4 {
        return false;
    }
    (len as u64) == wh * 4
}

/// The monitor a preview is grabbed from: its native id, geometry and name.
#[derive(Debug, Clone, PartialEq, Eq)]
pub struct MonitorGeometry {
    pub id: u32,
    pub x: i32,
    pub y: i32,
    pub width: u32,
    pub height: u32,
    pub name: String,
}

/// One call grabbing a preview made on its host, with the host's answer.
#[derive(Debug)]
pub enum PreviewCall {
    ScreenRecordingGranted { answer: Result<bool, CaptureError> },
    SelectMonitor { requested: Option<u32>, answer: Result<MonitorGeometry, CaptureError> },
    Foreground { answer: Option<ForegroundInfo> },
    HideOwnWindows { answer: bool },
    Settle { ms: u64 },
    Capture { monitor: MonitorGeometry, answer: Result<(Vec<u8>, u32, u32), CaptureError> },
    WritePreview { png: Vec<u8>, answer: Result<String, CaptureError> },
}

/// What grabbing a preview needs from the application around it. A host
/// keeps the record of the calls made on it, each with the answer it gave.
pub trait PreviewHost {
    /// Every call made on this host so far, with its answer, oldest first.
    spec fn calls(&self) -> Vec<PreviewCall>;

    /// Whether the process holds the Screen Recording grant, raising the
    /// OS prompt when it does not (asked on macOS only).
    fn screen_recording_granted(&mut self) -> (r: Result<bool, CaptureError>)
        ensures
            one_call_more(old(self).calls()@, final(self).calls()@),
            final(self).calls()@.last() matches PreviewCall::ScreenRecordingGranted { answer } && answer
                == r,
    ;

    /// The monitor to grab: the requested one, else the one under the cursor.
    fn select_monitor(&mut self, monitor_id: Option<u32>) -> (r: Result<MonitorGeometry, CaptureError>)
        ensures
            one_call_more(old(self).calls()@, final(self).calls()@),
            final(self).calls()@.last() matches PreviewCall::SelectMonitor { requested, answer } && requested
                == monitor_id && answer == r,
    ;

    /// The application in front, when it can be guessed.
    fn foreground(&mut self) -> (r: Option<ForegroundInfo>)
        ensures
            one_call_more(old(self).calls()@, final(self).calls()@),
            final(self).calls()@.last() matches PreviewCall::Foreground { answer } && answer == r,
    ;

    /// Whether the app's own windows are hidden during a grab.
    fn hide_own_windows(&mut self) -> (r: bool)
        ensures
            one_call_more(old(self).calls()@, final(self).calls()@),
            final(self).calls()@.last() matches PreviewCall::HideOwnWindows { answer } && answer == r,
    ;

    /// Wait `ms` milliseconds.
    fn settle(&mut self, ms: u64)
        ensures
            one_call_more(old(self).calls()@, final(self).calls()@),
            final(self).calls()@.last() matches PreviewCall::Settle { ms: m } && m == ms,
    ;

    /// The monitor's pixels as RGBA8, with their width and height.
    fn capture(&mut self, monitor: &MonitorGeometry) -> (r: Result<(Vec<u8>, u32, u32), CaptureError>)
        ensures
            one_call_more(old(self).calls()@, final(self).calls()@),
            final(self).calls()@.last() matches PreviewCall::Capture { monitor: m, answer } && m == *monitor
                && answer == r,
    ;

    /// Store the preview PNG; where it was written.
    fn write_preview(&mut self, png: &[u8]) -> (r: Result<String, CaptureError>)
        ensures
            one_call_more(old(self).calls()@, final(self).calls()@),
            final(self).calls()@.last() matches PreviewCall::WritePreview { png: bytes, answer } && bytes@
                == png@ && answer == r,
    ;
}

/// `p` is the preview of pixels `rgba` (`width` x `height`) grabbed from
/// `monitor` and written to `path`, and `held` the snapshot then held: the
/// preview names its pixel size, a fresh token and that same monitor's
/// native geometry; the snapshot holds the PNG encoding of the pixels under
/// the preview's token, with the monitor's name and the foreground app.
pub open spec fn is_preview_of(
    p: ScreenPreview,
    held: Option<Snapshot>,
    platform: Platform,
    monitor: MonitorGeometry,
    rgba: Seq<u8>,
    width: u32,
    height: u32,
    path: String,
    foreground: Option<ForegroundInfo>,
) -> bool {
    &&& p.path == path
    &&& p.width == width
    &&& p.height == height
    &&& p.token@.len() == 36
    &&& p.display.id == monitor.id
    &&& p.display.frame.coordinate_space@ == spec_coordinate_space(platform)
    &&& p.display.frame.x == monitor.x
    &&& p.display.frame.y == monitor.y
    &&& p.display.frame.width == monitor.width
    &&& p.display.frame.height == monitor.height
    &&& held matches Some(s)
    &&& s.token@ == p.token@
    &&& s.pixels.png_bytes@ == png_encoding(rgba, width, height)
    &&& s.pixels.width == width
    &&& s.pixels.height == height
    &&& s.pixels.monitor_name == monitor.name
    &&& s.foreground == foreground
}

/// The host calls `u` after the capture answered `captured`, and what they
/// leave: a failed capture is the result; pixels that do not fill their
/// size are an `Encode` error; otherwise their PNG encoding is written, and
/// a written preview is held under a fresh token. Every failure leaves the
/// session as it was.
pub open spec fn after_capture(
    u: Seq<PreviewCall>,
    captured: Result<(Vec<u8>, u32, u32), CaptureError>,
    platform: Platform,
    monitor: MonitorGeometry,
    foreground: Option<ForegroundInfo>,
    r: Result<ScreenPreview, CaptureError>,
    held0: Option<Snapshot>,
    held1: Option<Snapshot>,
) -> bool {
    match captured {
        Err(e) => u.len() == 0 && r == Err::<ScreenPreview, CaptureError>(e) && held1 == held0,
        Ok((rgba, w, h)) => if rgba@.len() != w * h * 4 {
            &&& u.len() == 0
            &&& held1 == held0
            &&& r matches Err(CaptureError::Encode { message })
            &&& message@ == "captured pixels do not match the image size"@
        } else {
            ||| {
                &&& !(w > 0 && h > 0)
                &&& u.len() == 0
                &&& held1 == held0
                &&& r matches Err(CaptureError::Encode { .. })
            }
            ||| {
                &&& u.len() == 1
                &&& u[0] matches PreviewCall::WritePreview { png, answer }
                &&& png@ == png_encoding(rgba@, w, h)
                &&& match answer {
                    Err(e) => r == Err::<ScreenPreview, CaptureError>(e) && held1 == held0,
                    Ok(path) => r matches Ok(p) && is_preview_of(
                        p,
                        held1,
                        platform,
                        monitor,
                        rgba@,
                        w,
                        h,
                        path,
                        foreground,
                    ),
                }
            }
        },
    }
}

/// The host calls `u` from the monitor selection on: a failed selection is
/// the result; otherwise the foreground app is asked, then whether to hide
/// the app's windows (and if so the settling wait is taken), then the
/// selected monitor is captured.
pub open spec fn select_run(
    u: Seq<PreviewCall>,
    platform: Platform,
    monitor_id: Option<u32>,
    r: Result<ScreenPreview, CaptureError>,
    held0: Option<Snapshot>,
    held1: Option<Snapshot>,
) -> bool {
    &&& u.len() >= 1
    &&& u[0] matches PreviewCall::SelectMonitor { requested, answer }
    &&& requested == monitor_id
    &&& match answer {
        Err(e) => u.len() == 1 && r == Err::<ScreenPreview, CaptureError>(e) && held1 == held0,
        Ok(m) => {
            let c: int = if u[2] matches PreviewCall::HideOwnWindows { answer: true } {
                4
            } else {
                3
            };
            &&& u.len() >= c + 1
            &&& u[1] matches PreviewCall::Foreground { answer: fg }
            &&& u[2] matches PreviewCall::HideOwnWindows { .. }
            &&& c == 4 ==> u[3] == (PreviewCall::Settle { ms: HIDE_SETTLE_DELAY_MS })
            &&& u[c] matches PreviewCall::Capture { monitor, answer: captured }
            &&& monitor == m
            &&& after_capture(u.skip(c + 1), captured, platform, m, fg, r, held0, held1)
        },
    }
}

/// The host calls `u` of grabbing a preview: on macOS the Screen Recording
/// grant is asked first, and a failed or negative answer ends the grab.
pub open spec fn grab_run(
    u: Seq<PreviewCall>,
    platform: Platform,
    monitor_id: Option<u32>,
    r: Result<ScreenPreview, CaptureError>,
    held0: Option<Snapshot>,
    held1: Option<Snapshot>,
) -> bool {
    if platform == Platform::MacOs {
        &&& u.len() >= 1
        &&& u[0] matches PreviewCall::ScreenRecordingGranted { answer }
        &&& match answer {
            Err(e) => u.len() == 1 && r == Err::<ScreenPreview, CaptureError>(e) && held1 == held0,
            Ok(granted) => if granted {
                select_run(u.skip(1), platform, monitor_id, r, held0, held1)
            } else {
                &&& u.len() == 1
                &&& r == Err::<ScreenPreview, CaptureError>(CaptureError::ScreenRecordingPermissionDenied)
                &&& held1 == held0
            },
        }
    } else {
        select_run(u, platform, monitor_id, r, held0, held1)
    }
}

/// The preview pixels from a monitor grab: RGBA8 bytes that do not fill
/// `width` x `height` exactly are an `Encode` error; otherwise the PNG
/// encoding of them, with their size and the monitor's name.
pub fn preview_pixels(rgba: &Vec<u8>, width: u32, height: u32, monitor_name: String) -> (r: Result<
    GrabResult,
    CaptureError,
>)
    ensures
        rgba@.len() != width * height * 4 ==> (r matches Err(CaptureError::Encode { message })
            && message@ == "captured pixels do not match the image size"@),
        rgba@.len() == width * height * 4 && width > 0 && height > 0 ==> r is Ok,
        rgba@.len() == width * height * 4 ==> match r {
            Ok(g) => g.png_bytes@ == png_encoding(rgba@, width, height) && g.width == width
                && g.height == height && g.monitor_name == monitor_name,
            Err(e) => e is Encode,
        },
{
    if !pixels_match(rgba.len(), width, height) {
        let mut message = String::new();
        push_str(&mut message, "captured pixels do not match the image size");
        return Err(CaptureError::Encode { message });
    }
    grab_from_pixels(rgba.as_slice(), width, height, monitor_name)
}

/// Holds the pixels grabbed from `monitor` under `token` and describes the
/// preview handed to the frontend: where the PNG was written, the pixel
/// size, the token, and the native geometry of that same monitor.
pub fn hold_preview(
    session: &mut PreviewSession,
    platform: Platform,
    monitor: &MonitorGeometry,
    pixels: GrabResult,
    path: String,
    token: String,
    foreground: Option<ForegroundInfo>,
) -> (r: ScreenPreview)
    ensures
        r.path == path,
        r.token@ == token@,
        r.width == pixels.width,
        r.height == pixels.height,
        r.display.id == monitor.id,
        r.display.frame.coordinate_space@ == spec_coordinate_space(platform),
        r.display.frame.x == monitor.x,
        r.display.frame.y == monitor.y,
        r.display.frame.width == monitor.width,
        r.display.frame.height == monitor.height,
        final(session).held() == Some(Snapshot { token, pixels, foreground }),
{
    let display = describe(platform, monitor.id, monitor.x, monitor.y, monitor.width, monitor.height);
    let preview = ScreenPreview {
        path,
        width: pixels.width,
        height: pixels.height,
        token: token.clone(),
        display,
    };
    session.replace(token, pixels, foreground);
    preview
}

/// Grabs a screen preview for region selection and holds it in `session`.
///
/// On macOS the Screen Recording grant is checked first. The monitor, its
/// geometry and the foreground app are resolved before any window is
/// hidden; the pixels are grabbed with the app's own windows hidden when
/// the setting says so (the capture overlay stays), encoded as PNG and
/// written out. The preview returned is named by a fresh token, under which
/// the session now holds the grabbed pixels; on any failure the session
/// keeps what it held.
pub fn grab_screen_preview_with<H: PreviewHost, W: WindowManager>(
    host: &mut H,
    manager: &W,
    session: &mut PreviewSession,
    platform: Platform,
    monitor_id: Option<u32>,
) -> (r: Result<ScreenPreview, CaptureError>)
    ensures
        extends(old(host).calls()@, final(host).calls()@),
        grab_run(
            since(old(host).calls()@, final(host).calls()@),
            platform,
            monitor_id,
            r,
            old(session).held(),
            final(session).held(),
        ),
{
    let ghost log0 = host.calls()@;
    proof {
        lemma_extends_itself(log0);
    }
    if platform == Platform::MacOs {
        let granted = host.screen_recording_granted();
        proof {
            lemma_one_call_more(log0, log0, host.calls()@);
        }
        let granted = match granted {
            Ok(granted) => granted,
            Err(e) => {
                return Err(e);
            },
        };
        if let Err(e) = require_screen_recording(platform, granted) {
            return Err(e);
        }
    }
    let ghost log1 = host.calls()@;
    let r = grab_selected(host, manager, session, platform, monitor_id);
    proof {
        lemma_chain(log0, log1, host.calls()@);
        if platform == Platform::MacOs {
            assert(since(log0, host.calls()@).skip(1) =~= since(log1, host.calls()@));
        }
    }
    r
}

/// Selects the monitor, grabs it (with the app's windows hidden when the
/// setting says so) and holds the preview.
fn grab_selected<H: PreviewHost, W: WindowManager>(
    host: &mut H,
    manager: &W,
    session: &mut PreviewSession,
    platform: Platform,
    monitor_id: Option<u32>,
) -> (r: Result<ScreenPreview, CaptureError>)
    ensures
        extends(old(host).calls()@, final(host).calls()@),
        select_run(
            since(old(host).calls()@, final(host).calls()@),
            platform,
            monitor_id,
            r,
            old(session).held(),
            final(session).held(),
        ),
{
    let ghost log0 = host.calls()@;
    proof {
        lemma_extends_itself(log0);
    }
    let selected = host.select_monitor(monitor_id);
    let ghost log1 = host.calls()@;
    proof {
        lemma_one_call_more(log0, log0, log1);
    }
    let monitor = match selected {
        Ok(monitor) => monitor,
        Err(e) => {
            return Err(e);
        },
    };
    let foreground = host.foreground();
    let ghost log2 = host.calls()@;
    proof {
        lemma_one_call_more(log0, log1, log2);
    }
    let hide = host.hide_own_windows();
    let ghost log3 = host.calls()@;
    proof {
        lemma_one_call_more(log0, log2, log3);
    }
    let captured = if hide {
        let exclude: [&str; 1] = ["capture-overlay"];
        let guard = WindowVisibilityGuard::hide_all(manager, exclude.as_slice());
        host.settle(HIDE_SETTLE_DELAY_MS);
        let ghost log4 = host.calls()@;
        proof {
            lemma_one_call_more(log0, log3, log4);
        }
        let captured = host.capture(&monitor);
        proof {
            lemma_one_call_more(log0, log4, host.calls()@);
        }
        guard.restore();
        captured
    } else {
        let captured = host.capture(&monitor);
        proof {
            lemma_one_call_more(log0, log3, host.calls()@);
        }
        captured
    };
    let ghost logc = host.calls()@;
    let r = finish_preview(host, session, platform, &monitor, foreground, captured);
    proof {
        let t = since(log0, host.calls()@);
        lemma_chain(log0, logc, host.calls()@);
        let c: int = if hide {
            4
        } else {
            3
        };
        assert(t.skip(c + 1) =~= since(logc, host.calls()@));
    }
    r
}

/// Encodes the captured pixels, writes the preview and holds it.
fn finish_preview<H: PreviewHost>(
    host: &mut H,
    session: &mut PreviewSession,
    platform: Platform,
    monitor: &MonitorGeometry,
    foreground: Option<ForegroundInfo>,
    captured: Result<(Vec<u8>, u32, u32), CaptureError>,
) -> (r: Result<ScreenPreview, CaptureError>)
    ensures
        extends(old(host).calls()@, final(host).calls()@),
        after_capture(
            since(old(host).calls()@, final(host).calls()@),
            captured,
            platform,
            *monitor,
            foreground,
            r,
            old(session).held(),
            final(session).held(),
        ),
{
    let ghost log0 = host.calls()@;
    proof {
        lemma_extends_itself(log0);
    }
    let (rgba, width, height) = match captured {
        Ok(c) => c,
        Err(e) => {
            return Err(e);
        },
    };
    let pixels = match preview_pixels(&rgba, width, height, monitor.name.clone()) {
        Ok(pixels) => pixels,
        Err(e) => {
            return Err(e);
        },
    };
    let written = host.write_preview(pixels.png_bytes.as_slice());
    proof {
        lemma_one_call_more(log0, log0, host.calls()@);
    }
    let path = match written {
        Ok(path) => path,
        Err(e) => {
            return Err(e);
        },
    };
    let token = new_preview_token();
    Ok(hold_preview(session, platform, monitor, pixels, path, token, foreground))
}

} // verus!
