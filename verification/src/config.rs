//! The pipeline's immutable configuration and the frame record it carries.

use vstd::prelude::*;

verus! {

/// Configuration fixed at pipeline creation.  The four fields are passed
/// through to the processing step unchanged; the pipeline itself does not
/// inspect them.
#[derive(Clone, Debug)]
pub struct EncoderConfig {
    pub width: u32,
    pub height: u32,
    pub fps: u32,
    pub bitrate: u32,
}

/// A frame submitted for processing: an opaque byte payload and a signed
/// 64-bit timestamp.  A record is immutable once constructed; ownership
/// moves from the submitter into the queue and from the queue to the worker.
#[derive(Clone, Debug)]
pub struct FrameData {
    pub data: Vec<u8>,
    pub timestamp: i64,
}

} // verus!
