//! What holds of every stamp, stated over the image model that
//! `Stamper::stamp` and `Stamper::embed` promise.
use crate::model::ImageModel;
use vstd::prelude::*;

verus! {

/// Stamping at a valid offset never resizes the pixel buffer.
pub proof fn lemma_stamp_keeps_length(img: ImageModel, msg: Seq<u8>, at: int)
    requires
        img.valid_offset(msg.len() as int, at),
    ensures
        img.stamped(msg, at).pixels.len() == img.pixels.len(),
{
}

/// Every byte outside `[at, at + msg.len())` is left as it was.
pub proof fn lemma_stamp_leaves_other_bytes(img: ImageModel, msg: Seq<u8>, at: int)
    requires
        img.valid_offset(msg.len() as int, at),
    ensures
        forall|i: int|
            0 <= i < img.pixels.len() && !(at <= i < at + msg.len()) ==> #[trigger] img.stamped(
                msg,
                at,
            ).pixels[i] == img.pixels[i],
{
    let out = img.stamped(msg, at).pixels;
    assert forall|i: int| 0 <= i < img.pixels.len() && !(at <= i < at + msg.len()) implies out[i]
        == img.pixels[i] by {
        if i >= at + msg.len() {
            assert(out[i] == img.pixels.subrange(at + msg.len(), img.pixels.len() as int)[i - at
                - msg.len()]);
        }
    }
}

/// The message lands byte for byte at the offset, untransformed.
pub proof fn lemma_stamp_writes_message(img: ImageModel, msg: Seq<u8>, at: int)
    requires
        img.valid_offset(msg.len() as int, at),
    ensures
        forall|i: int| 0 <= i < msg.len() ==> #[trigger] img.stamped(msg, at).pixels[at + i] == msg[i],
{
}

/// Stamping changes no metadata: width, height, color type and container
/// format stay those of the decoded image, and the buffer still fits them.
pub proof fn lemma_stamp_keeps_geometry(img: ImageModel, msg: Seq<u8>, at: int)
    requires
        img.wf(),
        img.valid_offset(msg.len() as int, at),
    ensures
        img.stamped(msg, at).width == img.width,
        img.stamped(msg, at).height == img.height,
        img.stamped(msg, at).color == img.color,
        img.stamped(msg, at).format == img.format,
        img.stamped(msg, at).wf(),
{
}

} // verus!
