use vstd::prelude::*;

verus! {

/// The shared render settings the producer reads once per iteration. In the
/// running system the interactive layer owns a second handle and may write
/// at any time; the producer copies the whole value out under the sharing
/// layer's lock and computes from the copy only (see
/// `PathTracerRenderContext::settings_snapshot`). The background components
/// are raw 32-bit encodings of single-precision values, like every color in
/// the pipeline.
#[derive(Clone, Copy, Debug, PartialEq, Eq, Structural)]
pub struct Settings {
    pub red: u32,
    pub green: u32,
    pub blue: u32,
}

impl Settings {
    pub fn new(red: u32, green: u32, blue: u32) -> (s: Settings)
        ensures
            s == (Settings { red, green, blue }),
    {
        Settings { red, green, blue }
    }
}

} // verus!
