//! Decoded video frames.

use vstd::prelude::*;

verus! {

/// One decoded picture, as it left the video pipeline.
#[derive(Debug)]
pub struct VideoFrame {
    /// Pixel bytes, row by row.
    pub data: Vec<u8>,
    /// Width in pixels.
    pub width: u32,
    /// Height in pixels.
    pub height: u32,
}

/// What a [`VideoFrame`] holds.
#[verifier::ext_equal]
pub struct FrameModel {
    pub data: Seq<u8>,
    pub width: u32,
    pub height: u32,
}

impl View for VideoFrame {
    type V = FrameModel;

    open spec fn view(&self) -> FrameModel {
        FrameModel { data: self.data@, width: self.width, height: self.height }
    }
}

impl Clone for VideoFrame {
    /// The copy holds the same bytes and has the same size.
    fn clone(&self) -> (copy: Self)
        ensures
            copy@ == self@,
    {
        let data = self.data.clone();
        assert(data@ =~= self.data@);
        VideoFrame { data, width: self.width, height: self.height }
    }
}

/// What an optional frame holds.
pub open spec fn frame_view(frame: Option<VideoFrame>) -> Option<FrameModel> {
    match frame {
        Some(frame) => Some(frame@),
        None => None,
    }
}

} // verus!
