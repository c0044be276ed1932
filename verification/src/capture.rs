//! Bounded capture of one output stream.
//!
//! A `CaptureBuffer` accumulates the bytes read from one of the child's
//! output streams, never holding more than its byte cap. When a chunk would
//! push the buffer past the cap, exactly the part that fits is kept, the
//! buffer is marked overflowed, and the caller is told to stop reading that
//! stream for good.

use vstd::prelude::*;
use vstd::slice::slice_subrange;

verus! {

/// The captured bytes of one stream, bounded by a fixed cap.
pub struct CaptureBuffer {
    /// Bytes captured so far, in stream order.
    pub data: Vec<u8>,
    /// The most bytes this buffer may ever hold.
    pub cap: usize,
    /// Whether a read has already crossed the cap.
    pub overflowed: bool,
}

impl CaptureBuffer {
    /// The buffer never exceeds its cap, and once it has overflowed it is
    /// full to the cap exactly.
    pub open spec fn wf(self) -> bool {
        &&& self.data@.len() <= self.cap
        &&& (self.overflowed ==> self.data@.len() == self.cap)
    }

    /// An empty buffer with the given cap.
    pub fn new(cap: usize) -> (buf: CaptureBuffer)
        ensures
            buf.wf(),
            buf.data@ == Seq::<u8>::empty(),
            buf.cap == cap,
            !buf.overflowed,
    {
        CaptureBuffer { data: Vec::new(), cap, overflowed: false }
    }

    /// Absorb one chunk read from the stream. If the whole chunk fits under
    /// the cap it is appended and reading may go on; otherwise only the
    /// prefix that fills the buffer to the cap exactly is appended, the
    /// buffer is marked overflowed, and the stream must not be read further.
    /// A buffer that has already overflowed absorbs nothing.
    pub fn absorb(&mut self, chunk: &[u8]) -> (keep_reading: bool)
        requires
            old(self).wf(),
        ensures
            final(self).wf(),
            final(self).cap == old(self).cap,
            old(self).overflowed ==> *final(self) == *old(self) && !keep_reading,
            !old(self).overflowed && old(self).data@.len() + chunk@.len() <= old(self).cap ==> {
                &&& final(self).data@ == old(self).data@ + chunk@
                &&& !final(self).overflowed
                &&& keep_reading
            },
            !old(self).overflowed && old(self).data@.len() + chunk@.len() > old(self).cap ==> {
                &&& final(self).data@ == old(self).data@ + chunk@.take(
                    old(self).cap - old(self).data@.len(),
                )
                &&& final(self).data@.len() == old(self).cap
                &&& final(self).overflowed
                &&& !keep_reading
            },
    {
        if self.overflowed {
            return false;
        }
        let room: usize = self.cap - self.data.len();
        if chunk.len() <= room {
            self.data.extend_from_slice(chunk);
            proof {
                assert(self.data@ =~= old(self).data@ + chunk@);
            }
            true
        } else {
            let fitting: &[u8] = slice_subrange(chunk, 0, room);
            self.data.extend_from_slice(fitting);
            self.overflowed = true;
            proof {
                assert(self.data@ =~= old(self).data@ + chunk@.take(room as int));
            }
            false
        }
    }

    /// How many bytes have been captured.
    pub fn len(&self) -> (n: usize)
        ensures
            n == self.data@.len(),
    {
        self.data.len()
    }

    /// The captured bytes as text, replacement characters standing in for
    /// invalid sequences. A stream of ASCII bytes decodes to exactly those
    /// bytes as characters, so its text is as many bytes long as were
    /// captured: on an overflowed ASCII stream, exactly the cap.
    pub fn text(&self) -> (r: String)
        ensures
            r@ == lossy_text_of(self.data@),
            all_ascii(self.data@) ==> r@ == ascii_chars_of(self.data@),
            all_ascii(self.data@) ==> r@.len() == self.data@.len(),
    {
        bytes_to_text(&self.data)
    }
}

/// Whether every byte is ASCII.
pub open spec fn all_ascii(bytes: Seq<u8>) -> bool {
    forall|i: int| 0 <= i < bytes.len() ==> bytes[i] < 128
}

/// ASCII bytes read as the characters with the same values.
pub open spec fn ascii_chars_of(bytes: Seq<u8>) -> Seq<char> {
    Seq::new(bytes.len(), |i: int| bytes[i] as char)
}

/// The text that lossy decoding yields for a byte sequence.
pub uninterp spec fn lossy_text_of(bytes: Seq<u8>) -> Seq<char>;

/// Relies on String::from_utf8_lossy: the resulting text is a function of
/// the bytes alone; valid text, ASCII in particular, is kept as it is, so
/// ASCII bytes decode to themselves and empty bytes to empty text.
#[verifier::external_body]
fn bytes_to_text(bytes: &Vec<u8>) -> (r: String)
    ensures
        r@ == lossy_text_of(bytes@),
        bytes@.len() == 0 ==> r@.len() == 0,
        all_ascii(bytes@) ==> r@ == ascii_chars_of(bytes@),
{
    String::from_utf8_lossy(bytes).to_string()
}

} // verus!
