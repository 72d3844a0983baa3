//! The built-in stand-in text extractor. It takes an image like an OCR engine
//! and always reads the same text, for development without one.
use vstd::prelude::*;
use crate::capture::RgbaFrame;
use crate::card::{trim_of, trim_str};
use crate::error::PipelineError;

verus! {

/// The text that the stand-in engine reads from every image.
pub open spec fn engine_text() -> Seq<char> {
    "Mock OCR text from Tesseract"@
}

/// A stand-in OCR engine. It keeps nothing: every image reads the same.
#[derive(Clone, Copy, Debug, PartialEq, Eq, Structural)]
pub struct LepTess {}

impl LepTess {
    /// An engine, for any data path and language.
    pub fn new(datapath: Option<&str>, lang: &str) -> (r: Result<LepTess, PipelineError>)
        ensures
            r is Ok,
    {
        Ok(LepTess {})
    }

    /// Gives the engine an image, which the stand-in ignores.
    pub fn set_image_from_mem(&mut self, img_data: &[u8]) -> (r: Result<(), PipelineError>)
        ensures
            r is Ok,
            *final(self) == *old(self),
    {
        Ok(())
    }

    /// The text read from the image.
    pub fn get_utf8_text(&self) -> (r: Result<String, PipelineError>)
        ensures
            r matches Ok(s) && s@ == engine_text(),
    {
        Ok(String::from_str("Mock OCR text from Tesseract"))
    }
}

/// The text in a frame, as the engine reads it, without surrounding white
/// space.
pub fn extract_text(img: &RgbaFrame) -> (r: Result<String, PipelineError>)
    ensures
        r matches Ok(s) && s@ == trim_of(engine_text()),
{
    let mut tess = match LepTess::new(None, "eng") {
        Ok(t) => t,
        Err(e) => return Err(e),
    };
    match tess.set_image_from_mem(img.data.as_slice()) {
        Ok(()) => {},
        Err(e) => return Err(e),
    }
    let text = match tess.get_utf8_text() {
        Ok(s) => s,
        Err(e) => return Err(e),
    };
    Ok(tidy_text(text.as_str()))
}

/// Text read by an extractor, without surrounding white space.
pub fn tidy_text(text: &str) -> (r: String)
    ensures
        r@ == trim_of(text@),
{
    trim_str(text)
}

/// The text that the simplest stand-in extractor reads from every image.
pub open spec fn stub_text() -> Seq<char> {
    "stub OCR text for testing with more content to process"@
}

/// The simplest stand-in extractor: the same text for every frame, with no
/// engine behind it.
pub fn extract_text_stub(img: &RgbaFrame) -> (r: Result<String, PipelineError>)
    ensures
        r matches Ok(s) && s@ == stub_text(),
{
    Ok(String::from_str("stub OCR text for testing with more content to process"))
}

} // verus!
