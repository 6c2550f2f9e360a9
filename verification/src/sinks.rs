//! Video hand-off: a frame value and the sink capability it is pushed into.

use vstd::prelude::*;

verus! {

/// One scanned-out video frame. `argb_data` holds `width * height` pixels,
/// each laid out as `0x00_RR_GG_BB` (top byte zero).
pub struct VideoFrame {
    pub argb_data: Vec<u32>,
    pub width: u32,
    pub height: u32,
}

/// The mathematical image of a `VideoFrame`.
pub ghost struct VideoFrameView {
    pub argb_data: Seq<u32>,
    pub width: u32,
    pub height: u32,
}

impl View for VideoFrame {
    type V = VideoFrameView;

    open spec fn view(&self) -> VideoFrameView {
        VideoFrameView { argb_data: self.argb_data@, width: self.width, height: self.height }
    }
}

/// A consumer of produced values. `sunk()` abstracts the whole history of
/// appended values, so a producer's contract can say exactly what it emitted
/// whatever the sink does with the values.
pub trait Sink<T: View> {
    /// Every value ever appended, oldest first.
    spec fn sunk(&self) -> Seq<T::V>;

    /// Hands one value to the sink.
    fn append(&mut self, value: T)
        ensures
            final(self).sunk() == old(self).sunk().push(value@),
    ;
}

} // verus!
