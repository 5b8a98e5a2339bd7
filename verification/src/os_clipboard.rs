//! The OS clipboard, through `arboard`: opening it with health reporting
//! and backoff, reading payloads for the watcher, and writing pasted items.
use vstd::prelude::*;

use arboard::{Clipboard, ImageData};

use crate::health::{spec_next_backoff, next_backoff, HealthSink};
use crate::observation::PayloadReader;
use crate::watcher::ClipboardEvent;

verus! {

#[verifier::external_type_specification]
#[verifier::external_body]
pub struct ExClipboard(Clipboard);

/// `Clipboard::new`: opens the OS clipboard. Whether it opens depends on
/// the desktop session, so nothing is stated of the outcome; on failure the
/// error's text is returned.
#[verifier::external_body]
pub(crate) fn open_os_clipboard() -> Result<Clipboard, String> {
    match Clipboard::new() {
        Ok(c) => Ok(c),
        Err(e) => Err(e.to_string()),
    }
}

/// `Clipboard::get_text`: the clipboard's text, or nothing when it holds
/// none. What it holds is outside the program, so nothing is stated.
#[verifier::external_body]
fn read_os_text(clipboard: &mut Clipboard) -> Option<String> {
    match clipboard.get_text() {
        Ok(t) => Some(t),
        Err(_) => None,
    }
}

/// `Clipboard::get_image`: the clipboard's image as RGBA8 bytes with its
/// width and height, or nothing when it holds none. Nothing is stated of
/// the content.
#[verifier::external_body]
fn read_os_image(clipboard: &mut Clipboard) -> Option<(Vec<u8>, usize, usize)> {
    match clipboard.get_image() {
        Ok(img) => Some((img.bytes.into_owned(), img.width, img.height)),
        Err(_) => None,
    }
}

/// `Clipboard::set_text`: places `text` on the clipboard; on failure the
/// error's text. Whether the OS accepts it is not stated.
#[verifier::external_body]
pub(crate) fn write_os_text(clipboard: &mut Clipboard, text: &str) -> Result<(), String> {
    match clipboard.set_text(text) {
        Ok(()) => Ok(()),
        Err(e) => Err(e.to_string()),
    }
}

/// The OS clipboard opened for pasting, with the record of the image last
/// handed to it.
pub struct PasteClipboard {
    clipboard: Clipboard,
    image: Ghost<Option<(usize, usize, Seq<u8>)>>,
}

impl PasteClipboard {
    /// The image last handed to the clipboard: its width, its height and its
    /// RGBA8 bytes, in that order.
    pub closed spec fn handed_image(&self) -> Option<(usize, usize, Seq<u8>)> {
        self.image@
    }
}

/// Opens the OS clipboard for pasting; no image has been handed to it yet.
pub(crate) fn open_paste_clipboard() -> (r: Result<PasteClipboard, String>)
    ensures
        r matches Ok(c) ==> c.handed_image() is None,
{
    match open_os_clipboard() {
        Ok(clipboard) => Ok(PasteClipboard { clipboard, image: Ghost(None) }),
        Err(message) => Err(message),
    }
}

/// Places `text` on the clipboard opened for pasting.
pub(crate) fn write_paste_text(clipboard: &mut PasteClipboard, text: &str) -> (r: Result<(), String>)
    ensures
        final(clipboard).handed_image() == old(clipboard).handed_image(),
{
    write_os_text(&mut clipboard.clipboard, text)
}

/// `Clipboard::set_image`: hands RGBA8 pixels of `width` x `height` to the
/// clipboard, as `ImageData { width, height, bytes }`; on failure the
/// error's text. The record of the clipboard then names exactly that
/// image; whether the OS accepts it is not stated. Some platforms re-encode
/// the pixels as PNG, whose encoder asserts that the buffer holds exactly
/// `width * height * 4` bytes with 32-bit dimensions, hence the
/// precondition.
#[verifier::external_body]
pub(crate) fn write_os_image(
    clipboard: &mut PasteClipboard,
    width: usize,
    height: usize,
    bytes: Vec<u8>,
) -> (r: Result<(), String>)
    requires
        bytes@.len() == width * height * 4,
        width <= u32::MAX,
        height <= u32::MAX,
    ensures
        final(clipboard).handed_image() == Some((width, height, bytes@)),
{
    let data = ImageData { width, height, bytes: std::borrow::Cow::Owned(bytes) };
    match clipboard.clipboard.set_image(data) {
        Ok(()) => Ok(()),
        Err(e) => Err(e.to_string()),
    }
}

/// One attempt at opening the OS clipboard. Success is reported available
/// and returns the clipboard; failure is reported unavailable with the
/// error's text and returns the delay to wait before the next attempt, the
/// backoff after `delay_ms`.
pub fn open_clipboard_attempt<S: HealthSink>(sink: &S, delay_ms: u64) -> (r: Result<Clipboard, u64>)
    ensures
        r matches Err(next) ==> next == spec_next_backoff(delay_ms),
{
    match open_os_clipboard() {
        Ok(c) => {
            sink.report_available();
            Ok(c)
        },
        Err(message) => {
            sink.report_unavailable(message);
            Err(next_backoff(delay_ms))
        },
    }
}

/// The watcher's image event for what the clipboard's image read gave:
/// its bytes, width and height exactly, in that order; nothing when it held
/// no image.
pub fn image_event(read: Option<(Vec<u8>, usize, usize)>) -> (r: Option<ClipboardEvent>)
    ensures
        match read {
            Some((bytes, width, height)) => r matches Some(ClipboardEvent::Image { bytes: b, width: w, height: h })
                && b@ == bytes@ && w == width && h == height,
            None => r is None,
        },
{
    match read {
        Some((bytes, width, height)) => Some(ClipboardEvent::Image { bytes, width, height }),
        None => None,
    }
}

impl PayloadReader for Clipboard {
    fn text(&mut self) -> Option<String> {
        read_os_text(self)
    }

    fn image(&mut self) -> (r: Option<ClipboardEvent>)
        ensures
            r matches Some(e) ==> e is Image,
    {
        image_event(read_os_image(self))
    }
}

} // verus!
