use vstd::prelude::*;
use crate::raster::RasterImage;

verus! {

/// How long a viewer holds a frame: `numer_ms / denom_ms` milliseconds.
#[derive(Clone, Copy, Debug, PartialEq, Eq, Structural)]
pub struct FrameDelay {
    pub numer_ms: u32,
    pub denom_ms: u32,
}

impl FrameDelay {
    pub open spec fn wf(&self) -> bool {
        self.denom_ms > 0
    }
}

/// One frame of an animation with its display delay.
#[derive(Debug)]
pub struct AnimatedFrame {
    pub image: RasterImage,
    pub delay: FrameDelay,
}

impl AnimatedFrame {
    pub open spec fn wf(&self) -> bool {
        self.image.wf() && self.delay.wf()
    }
}

/// The frames that decoded, in their original order.
pub open spec fn surviving<T>(decoded: Seq<Option<T>>) -> Seq<T>
    decreases decoded.len(),
{
    if decoded.len() == 0 {
        Seq::empty()
    } else {
        let rest = surviving(decoded.drop_first());
        match decoded[0] {
            Some(f) => seq![f] + rest,
            None => rest,
        }
    }
}

/// How many entries decoded.
pub open spec fn decoded_count<T>(decoded: Seq<Option<T>>) -> nat
    decreases decoded.len(),
{
    if decoded.len() == 0 {
        0
    } else {
        decoded_count(decoded.drop_first()) + if decoded[0] is Some {
            1nat
        } else {
            0nat
        }
    }
}

/// Drops the entries that failed to decode and keeps the rest in order.
pub fn keep_decoded<T>(decoded: Vec<Option<T>>) -> (r: Vec<T>)
    ensures
        r@ == surviving(decoded@),
{
    let ghost whole = decoded@;
    let mut rest = decoded;
    let mut out: Vec<T> = Vec::new();
    while rest.len() > 0
        invariant
            surviving(whole) == out@ + surviving(rest@),
        decreases rest@.len(),
    {
        let ghost before = rest@;
        let entry = rest.remove(0);
        assert(before.drop_first() == rest@);
        match entry {
            Some(f) => {
                out.push(f);
            },
            None => {},
        }
        assert(surviving(whole) =~= out@ + surviving(rest@));
    }
    assert(surviving(rest@) =~= Seq::<T>::empty());
    assert(out@ =~= out@ + surviving(rest@));
    out
}

/// The kept sequence has one entry per decoded input, and each of them is taken, unchanged,
/// from the input.
pub proof fn lemma_surviving_frames<T>(decoded: Seq<Option<T>>)
    ensures
        surviving(decoded).len() == decoded_count(decoded),
        forall|j: int|
            0 <= j < surviving(decoded).len() ==> exists|i: int|
                0 <= i < decoded.len() && #[trigger] decoded[i] == Some(
                    #[trigger] surviving(decoded)[j],
                ),
    decreases decoded.len(),
{
    if decoded.len() > 0 {
        let tail = decoded.drop_first();
        lemma_surviving_frames(tail);
        assert forall|j: int| 0 <= j < surviving(decoded).len() implies exists|i: int|
            0 <= i < decoded.len() && #[trigger] decoded[i] == Some(
                #[trigger] surviving(decoded)[j],
            ) by {
            match decoded[0] {
                Some(f) => {
                    if j == 0 {
                        assert(decoded[0] == Some(surviving(decoded)[j]));
                    } else {
                        let i = choose|i: int|
                            0 <= i < tail.len() && #[trigger] tail[i] == Some(
                                surviving(tail)[j - 1],
                            );
                        assert(decoded[i + 1] == Some(surviving(decoded)[j]));
                    }
                },
                None => {
                    let i = choose|i: int|
                        0 <= i < tail.len() && #[trigger] tail[i] == Some(surviving(tail)[j]);
                    assert(decoded[i + 1] == Some(surviving(decoded)[j]));
                },
            }
        }
    }
}

/// A still image is a one-frame sequence.
pub fn still_sequence(image: RasterImage, delay: FrameDelay) -> (r: Vec<AnimatedFrame>)
    ensures
        r@.len() == 1,
        r@[0] == (AnimatedFrame { image, delay }),
{
    let mut v: Vec<AnimatedFrame> = Vec::new();
    v.push(AnimatedFrame { image, delay });
    v
}

} // verus!
