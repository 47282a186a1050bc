use vstd::prelude::*;
use crate::error::Error;
use crate::model::filled_after;

verus! {

/// Relies on `<&mut [u8] as embedded_io::Write>::write` applied to the
/// region of `buf` from `at` on: it copies `min(src.len(), room)` leading
/// bytes of `src` to the front of that region and reports how many, or, when
/// the region is empty and `src` is not, fails with `SliceWriteError::Full`
/// and copies nothing.
#[verifier::external_body]
fn slice_write(buf: &mut Vec<u8>, at: usize, src: &[u8]) -> (r: Result<usize, embedded_io::SliceWriteError>)
    requires
        at <= old(buf)@.len(),
    ensures
        final(buf)@.len() == old(buf)@.len(),
        r is Err <==> (src@.len() > 0 && at == old(buf)@.len()),
        r is Err ==> final(buf)@ == old(buf)@,
        r matches Ok(n) ==> {
            &&& n == vstd::math::min(src@.len() as int, old(buf)@.len() - at)
            &&& final(buf)@ == old(buf)@.take(at as int) + src@.take(n as int) + old(buf)@.skip(at + n)
        },
{
    let mut region = &mut buf[at..];
    embedded_io::Write::write(&mut region, src)
}

/// A scratch region of fixed capacity staged in front of a sink.
///
/// The first `pos` bytes of the scratch region are the bytes filled since the
/// last successful flush; the rest are stale.
#[derive(Debug, Clone)]
pub struct AwriteBuf<U> {
    buf: Vec<u8>,
    sink: U,
    pos: usize,
}

impl<U> AwriteBuf<U> {
    /// The cursor never passes the end of the scratch region.
    pub closed spec fn wf(&self) -> bool {
        self.pos <= self.buf@.len()
    }

    /// The whole scratch region, stale bytes included.
    pub closed spec fn scratch(&self) -> Seq<u8> {
        self.buf@
    }

    /// The fixed capacity of the scratch region.
    pub open spec fn capacity_spec(&self) -> nat {
        self.scratch().len()
    }

    /// The bytes filled since the last successful flush.
    pub closed spec fn pending(&self) -> Seq<u8> {
        self.buf@.take(self.pos as int)
    }

    /// The sink the adapter holds.
    pub closed spec fn held_sink(&self) -> U {
        self.sink
    }

    /// Binds a scratch region and a sink, with nothing filled yet.
    pub fn new(buf: Vec<u8>, sink: U) -> (r: Self)
        ensures
            r.wf(),
            r.scratch() == buf@,
            r.pending() == Seq::<u8>::empty(),
            r.held_sink() == sink,
    {
        AwriteBuf { buf, sink, pos: 0 }
    }

    /// Gives the sink back, abandoning whatever was filled but not flushed.
    pub fn into_sink(self) -> (r: U)
        ensures
            r == self.held_sink(),
    {
        self.sink
    }

    /// The capacity of the scratch region.
    pub fn capacity(&self) -> (r: usize)
        ensures
            r == self.capacity_spec(),
    {
        self.buf.len()
    }

    /// How many bytes were filled since the last successful flush.
    pub fn cursor(&self) -> (r: usize)
        requires
            self.wf(),
        ensures
            r == self.pending().len(),
    {
        self.pos
    }

    /// Fills the scratch region from the cursor on with as many leading
    /// bytes of `input` as fit, and reports how many were taken.
    ///
    /// An empty input succeeds with 0. A nonempty input into a full scratch
    /// region fails with `SliceWriteError::Full` and changes nothing. No byte
    /// past the newly filled ones is touched, and the sink is left alone.
    pub fn write(&mut self, input: &[u8]) -> (r: Result<usize, embedded_io::SliceWriteError>)
        requires
            old(self).wf(),
        ensures
            final(self).wf(),
            final(self).capacity_spec() == old(self).capacity_spec(),
            final(self).held_sink() == old(self).held_sink(),
            final(self).pending() == filled_after(
                old(self).pending(),
                old(self).capacity_spec(),
                input@,
            ),
            final(self).scratch().skip(final(self).pending().len() as int) == old(
                self,
            ).scratch().skip(final(self).pending().len() as int),
            r is Err <==> (input@.len() > 0 && old(self).pending().len()
                == old(self).capacity_spec()),
            r matches Ok(n) ==> n == vstd::math::min(
                input@.len() as int,
                old(self).capacity_spec() - old(self).pending().len(),
            ),
            r matches Ok(n) ==> final(self).pending().len() == old(self).pending().len() + n,
    {
        let at = self.pos;
        let cap = self.buf.len();
        let r = slice_write(&mut self.buf, at, input);
        match r {
            Ok(n) => {
                assert(at + n <= cap);
                self.pos = at + n;
                assert(self.buf@.take(self.pos as int) =~= filled_after(
                    old(self).buf@.take(at as int),
                    old(self).buf@.len(),
                    input@,
                ));
                assert(self.buf@.skip(self.pos as int) =~= old(self).buf@.skip(self.pos as int));
                Ok(n)
            },
            Err(e) => {
                assert(input@.take(0) =~= Seq::<u8>::empty());
                assert(old(self).buf@.take(at as int) + Seq::<u8>::empty() =~= old(
                    self,
                ).buf@.take(at as int));
                Err(e)
            },
        }
    }

    /// Hands out what one flush transfers, the bytes filled since the last
    /// successful flush, beside the sink that is to receive them.
    ///
    /// The adapter is unchanged but for what is done through the returned sink.
    pub fn flush_parts(&mut self) -> (r: (&[u8], &mut U))
        requires
            old(self).wf(),
        ensures
            r.0@ == old(self).pending(),
            r.0@ == old(self).scratch().take(old(self).pending().len() as int),
            *r.1 == old(self).held_sink(),
            final(self).wf(),
            final(self).scratch() == old(self).scratch(),
            final(self).pending() == old(self).pending(),
            final(self).held_sink() == *final(r.1),
    {
        let AwriteBuf { buf, sink, pos } = self;
        let bytes = buf.as_slice();
        (&bytes[0..*pos], sink)
    }

    /// Records how the sink took a flush's transfer.
    ///
    /// Where the sink accepted it, the cursor goes back to 0. Where it failed,
    /// its error is passed on as `Error::Async` and the filled bytes stay
    /// pending, so that the flush can be tried again.
    pub fn complete_flush<E>(&mut self, outcome: Result<(), E>) -> (r: Result<(), Error<E>>)
        requires
            old(self).wf(),
        ensures
            final(self).wf(),
            final(self).scratch() == old(self).scratch(),
            final(self).held_sink() == old(self).held_sink(),
            outcome is Ok ==> r is Ok && final(self).pending() == Seq::<u8>::empty(),
            outcome matches Err(e) ==> r == Err::<(), Error<E>>(Error::Async(e))
                && final(self).pending() == old(self).pending(),
    {
        match outcome {
            Ok(()) => {
                self.pos = 0;
                Ok(())
            },
            Err(e) => Err(Error::Async(e)),
        }
    }
}

} // verus!
