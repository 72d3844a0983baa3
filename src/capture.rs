//! Capture events, the hot-key state that triggers a capture, and the PNG
//! form of a captured frame.
use vstd::prelude::*;
use image::ImageEncoder;

verus! {

/// Pixels of a captured frame: four bytes (red, green, blue, alpha) per
/// pixel, row after row.
#[derive(Clone, Debug)]
pub struct RgbaFrame {
    pub width: u32,
    pub height: u32,
    pub data: Vec<u8>,
}

impl RgbaFrame {
    /// The buffer holds exactly the frame's pixels.
    pub open spec fn wf(&self) -> bool {
        self.data@.len() == 4 * self.width * self.height
    }

    /// Whether the buffer holds exactly the frame's pixels.
    pub fn is_complete(&self) -> (r: bool)
        ensures
            r == self.wf(),
    {
        let w: u64 = self.width as u64;
        let h: u64 = self.height as u64;
        assert(w * h <= 0xFFFF_FFFFu64 * 0xFFFF_FFFFu64) by (nonlinear_arith)
            requires
                w <= 0xFFFF_FFFFu64,
                h <= 0xFFFF_FFFFu64,
        ;
        let pixels: u64 = w * h;
        assert(pixels * 4 == 4 * self.width * self.height) by (nonlinear_arith)
            requires
                pixels == w * h,
                w == self.width,
                h == self.height,
        ;
        let len: usize = self.data.len();
        match pixels.checked_mul(4) {
            None => false,
            Some(n) => len as u64 == n,
        }
    }
}

/// A rectangle of the screen, in pixels.
#[derive(Clone, Copy, Debug, PartialEq, Eq, Structural)]
pub struct Region {
    pub x: u32,
    pub y: u32,
    pub width: u32,
    pub height: u32,
}

/// One capture: the frame, the captured region and where the capture was
/// saved, if anywhere.
#[derive(Clone, Debug)]
pub struct CaptureEvent {
    pub image: RgbaFrame,
    pub region: Region,
    pub path: Option<String>,
}

#[verifier::external_type_specification]
#[verifier::external_body]
pub struct ExImageError(image::ImageError);

/// What the PNG encoder produces for a frame.
pub uninterp spec fn png_of(width: u32, height: u32, rgba: Seq<u8>) -> Seq<u8>;

/// Relies on `image::codecs::png::PngEncoder::write_image` with eight-bit RGBA
/// samples: it panics unless the buffer holds exactly the frame's pixels; the
/// PNG encoder refuses a zero width or height and nothing else, and writing
/// into a `Vec` cannot fail.
#[verifier::external_body]
fn encode_png(width: u32, height: u32, rgba: &Vec<u8>) -> (r: Result<Vec<u8>, image::ImageError>)
    requires
        rgba@.len() == 4 * width * height,
    ensures
        r matches Ok(png) ==> png@ == png_of(width, height, rgba@),
        width > 0 && height > 0 ==> r is Ok,
        width == 0 || height == 0 ==> r is Err,
{
    let mut out: Vec<u8> = Vec::new();
    image::codecs::png::PngEncoder::new(&mut out).write_image(
        rgba,
        width,
        height,
        image::ExtendedColorType::Rgba8,
    )?;
    Ok(out)
}

impl RgbaFrame {
    /// The frame as a PNG file, or `None` where its buffer does not match its
    /// size or the frame is empty.
    pub fn to_png(&self) -> (r: Option<Vec<u8>>)
        ensures
            !self.wf() ==> r is None,
            self.wf() && self.width > 0 && self.height > 0 ==> r is Some,
            self.width == 0 || self.height == 0 ==> r is None,
            r matches Some(png) ==> png@ == png_of(self.width, self.height, self.data@),
    {
        if !self.is_complete() || self.width == 0 || self.height == 0 {
            return None;
        }
        match encode_png(self.width, self.height, &self.data) {
            Ok(png) => Some(png),
            Err(_) => None,
        }
    }
}

/// The keys that the capture hot-key is made of.
#[derive(Clone, Copy, Debug, PartialEq, Eq, Structural)]
pub enum Key {
    Meta,
    Shift,
    Comma,
    Other,
}

#[derive(Clone, Copy, Debug, PartialEq, Eq, Structural)]
pub enum KeyEvent {
    Press(Key),
    Release(Key),
}

/// Which modifiers are held down. The hot-key is Meta+Shift+Comma.
#[derive(Clone, Copy, Debug, PartialEq, Eq, Structural)]
pub struct ModState {
    pub meta: bool,
    pub shift: bool,
}

/// The modifier state after `ev`.
pub open spec fn mods_after(s: ModState, ev: KeyEvent) -> ModState {
    match ev {
        KeyEvent::Press(Key::Meta) => ModState { meta: true, ..s },
        KeyEvent::Press(Key::Shift) => ModState { shift: true, ..s },
        KeyEvent::Release(Key::Meta) => ModState { meta: false, ..s },
        KeyEvent::Release(Key::Shift) => ModState { shift: false, ..s },
        _ => s,
    }
}

/// Whether `ev` completes the hot-key in state `s`.
pub open spec fn fires(s: ModState, ev: KeyEvent) -> bool {
    ev == KeyEvent::Press(Key::Comma) && s.meta && s.shift
}

impl ModState {
    /// No modifier held.
    pub fn new() -> (r: ModState)
        ensures
            !r.meta && !r.shift,
    {
        ModState { meta: false, shift: false }
    }

    /// Records one key event and says whether it triggers a capture.
    pub fn on_event(&mut self, ev: KeyEvent) -> (fire: bool)
        ensures
            *final(self) == mods_after(*old(self), ev),
            fire == fires(*old(self), ev),
    {
        match ev {
            KeyEvent::Press(k) => match k {
                Key::Meta => {
                    self.meta = true;
                    false
                },
                Key::Shift => {
                    self.shift = true;
                    false
                },
                Key::Comma => self.meta && self.shift,
                Key::Other => false,
            },
            KeyEvent::Release(k) => {
                match k {
                    Key::Meta => self.meta = false,
                    Key::Shift => self.shift = false,
                    _ => {},
                }
                false
            },
        }
    }
}

} // verus!
