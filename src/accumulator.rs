//! One unit of accumulation: the bytes of one file, or of all files at once.
use vstd::prelude::*;

use chardetng::EncodingDetector;

use crate::detector::{
    detector_chunks, detector_closed, encoding_label, feed_detector, guess_detector, has_non_ascii, new_detector,
};
use crate::verdict::{verdict_of, Verdict};

verus! {

/// Feeds a detector and, once everything is in, gives the verdict.
pub struct Accumulator {
    detector: EncodingDetector,
}

impl View for Accumulator {
    type V = Seq<Seq<u8>>;

    /// The buffers fed so far, in order.
    closed spec fn view(&self) -> Seq<Seq<u8>> {
        detector_chunks(self.detector)
    }
}

impl Accumulator {
    /// An accumulator still accepts input.
    pub closed spec fn wf(&self) -> bool {
        !detector_closed(self.detector)
    }

    /// An accumulator that has seen nothing.
    pub fn new() -> (r: Accumulator)
        ensures
            r.wf(),
            r@ == Seq::<Seq<u8>>::empty(),
    {
        Accumulator { detector: new_detector() }
    }

    /// Adds `bytes` to the stream as one buffer; tells whether the stream so
    /// far holds a non-ASCII byte.
    pub fn feed(&mut self, bytes: &[u8]) -> (r: bool)
        requires
            old(self).wf(),
        ensures
            final(self).wf(),
            final(self)@ == old(self)@.push(bytes@),
            r == has_non_ascii(final(self)@.flatten()),
    {
        feed_detector(&mut self.detector, bytes, false)
    }

    /// Ends the stream and gives the verdict on all that was fed: "ASCII"
    /// exactly when no byte fed was outside 7-bit ASCII.
    pub fn finish(self) -> (r: Verdict)
        requires
            self.wf(),
        ensures
            r@ == verdict_of(self@),
            has_non_ascii(self@.flatten()) <==> r.name@ != "ASCII"@,
            encoding_label(r.name@),
    {
        let mut detector = self.detector;
        let nothing: Vec<u8> = Vec::new();
        let non_ascii = feed_detector(&mut detector, nothing.as_slice(), true);
        proof {
            self@.lemma_flatten_push(nothing@);
            assert(self@.flatten() + nothing@ =~= self@.flatten());
        }
        if non_ascii {
            let (name, confident) = guess_detector(&detector);
            Verdict { name, confident }
        } else {
            proof {
                reveal_strlit("ASCII");
            }
            Verdict { name: String::from_str("ASCII"), confident: true }
        }
    }
}

/// The verdict on one stream fed in one buffer: "ASCII" exactly when no byte
/// is outside 7-bit ASCII.
pub fn verdict_for(bytes: &[u8]) -> (r: Verdict)
    ensures
        r@ == verdict_of(seq![bytes@]),
        has_non_ascii(bytes@) <==> r.name@ != "ASCII"@,
        encoding_label(r.name@),
{
    let mut acc = Accumulator::new();
    acc.feed(bytes);
    assert(acc@ =~= seq![bytes@]);
    proof {
        seq![bytes@].lemma_flatten_one_element();
    }
    acc.finish()
}

} // verus!
