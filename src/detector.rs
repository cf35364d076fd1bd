//! The statistical detector of `chardetng`, as seen by the rest of the library.
//!
//! A detector is modelled by the buffers it has been fed, in order, and by
//! whether the end of the stream has been signalled. The buffers are kept
//! apart: the detector looks at the few ASCII bytes before the first
//! non-ASCII byte through a window that depends on where the buffers meet,
//! so its guess is a function of the buffers, not only of their
//! concatenation.
use vstd::prelude::*;

use chardetng::EncodingDetector;

verus! {

#[verifier::external_type_specification]
#[verifier::external_body]
pub struct ExEncodingDetector(EncodingDetector);

/// The buffers fed to the detector so far, in order.
pub uninterp spec fn detector_chunks(d: EncodingDetector) -> Seq<Seq<u8>>;

/// Whether the detector has been told that the stream has ended.
pub uninterp spec fn detector_closed(d: EncodingDetector) -> bool;

/// The encoding name and the confidence flag that a closed detector reports
/// after the given buffers (the last one being the one that closed it), when
/// no top-level domain is known and UTF-8 is an admissible answer.
pub uninterp spec fn guess_of(chunks: Seq<Seq<u8>>) -> (Seq<char>, bool);

/// A character allowed in an encoding label: an ASCII letter or digit, `-`
/// or `_`.
pub open spec fn label_char(c: char) -> bool {
    ('a' <= c <= 'z') || ('A' <= c <= 'Z') || ('0' <= c <= '9') || c == '-' || c == '_'
}

/// An encoding label: a non-empty word of label characters.
pub open spec fn encoding_label(n: Seq<char>) -> bool {
    n.len() > 0 && forall|i: int| 0 <= i < n.len() ==> label_char(#[trigger] n[i])
}

/// Whether a byte stream holds a byte outside 7-bit ASCII.
pub open spec fn has_non_ascii(input: Seq<u8>) -> bool {
    exists|i: int| 0 <= i < input.len() && input[i] >= 0x80
}

/// Relies on `EncodingDetector::new`: a fresh detector has seen nothing and
/// is open.
#[verifier::external_body]
pub(crate) fn new_detector() -> (r: EncodingDetector)
    ensures
        detector_chunks(r) == Seq::<Seq<u8>>::empty(),
        !detector_closed(r),
{
    EncodingDetector::new()
}

/// Relies on `EncodingDetector::feed`: the buffer is added to the stream;
/// `last` closes it; the result says whether the stream so far holds a
/// non-ASCII byte. It panics once the detector is closed, hence the
/// precondition.
#[verifier::external_body]
pub(crate) fn feed_detector(d: &mut EncodingDetector, buffer: &[u8], last: bool) -> (r: bool)
    requires
        !detector_closed(*old(d)),
    ensures
        detector_chunks(*final(d)) == detector_chunks(*old(d)).push(buffer@),
        detector_closed(*final(d)) == last,
        r == has_non_ascii(detector_chunks(*final(d)).flatten()),
{
    d.feed(buffer, last)
}

/// Relies on `EncodingDetector::guess_assess` with no top-level domain and
/// UTF-8 allowed, and on `Encoding::name` to hand out the guessed encoding's
/// name: on a closed detector the answer depends on the buffers fed alone,
/// and every encoding that `encoding_rs` defines has a label for a name, none
/// of them "ASCII".
#[verifier::external_body]
pub(crate) fn guess_detector(d: &EncodingDetector) -> (r: (String, bool))
    ensures
        detector_closed(*d) ==> (r.0@, r.1) == guess_of(detector_chunks(*d)),
        r.0@ != "ASCII"@,
        encoding_label(r.0@),
{
    let (encoding, confident) = d.guess_assess(None, true);
    (encoding.name().to_string(), confident)
}

} // verus!
