//! The fan-out writer: every byte written goes to the compressor first and,
//! once the compressor has taken it, to the digest accumulator.
use vstd::prelude::*;
use crate::compress::{
    Compressor, after_call, buffered, calls, compressor_flush, compressor_settings,
    compressor_take_output, compressor_write, fed,
};
use crate::digest::{Sha256State, absorbed, hasher_update};

verus! {

/// Owns a forwarding sink (the compressor) and an accumulating sink (the
/// hasher).
pub struct TeeWriter {
    fwd: Compressor,
    acc: Sha256State,
}

impl TeeWriter {
    /// The forwarding sink.
    pub closed spec fn sink(&self) -> Compressor {
        self.fwd
    }

    /// The accumulating sink.
    pub closed spec fn accumulator(&self) -> Sha256State {
        self.acc
    }

    /// The bytes the forwarding sink has taken.
    pub open spec fn forwarded(&self) -> Seq<u8> {
        fed(self.sink())
    }

    /// The bytes the accumulating sink has absorbed.
    pub open spec fn hashed(&self) -> Seq<u8> {
        absorbed(self.accumulator())
    }

    /// Both sinks have seen the same bytes, in the same order.
    pub open spec fn wf(&self) -> bool {
        self.forwarded() == self.hashed()
    }

    pub fn new(fwd: Compressor, acc: Sha256State) -> (r: TeeWriter)
        ensures
            r.sink() == fwd,
            r.accumulator() == acc,
    {
        TeeWriter { fwd, acc }
    }

    /// Forwards `data`; only once that succeeded is it also hashed, so the
    /// hasher never sees bytes the compressor did not take.
    pub fn write(&mut self, data: &[u8]) -> (r: Result<(), std::io::Error>)
        ensures
            r is Ok,
            final(self).forwarded() == old(self).forwarded() + data@,
            final(self).hashed() == old(self).hashed() + data@,
            after_call(old(self).sink(), final(self).sink(), Some(data@)),
    {
        match compressor_write(&mut self.fwd, data) {
            Ok(()) => {
                hasher_update(&mut self.acc, data);
                Ok(())
            },
            Err(e) => Err(e),
        }
    }

    /// Moves out the compressed bytes buffered so far; nothing else changes.
    pub fn take_output(&mut self) -> (r: Vec<u8>)
        ensures
            r@ == buffered(old(self).sink()),
            buffered(final(self).sink()) == Seq::<u8>::empty(),
            compressor_settings(final(self).sink()) == compressor_settings(old(self).sink()),
            calls(final(self).sink()) == calls(old(self).sink()),
            final(self).forwarded() == old(self).forwarded(),
            final(self).accumulator() == old(self).accumulator(),
    {
        compressor_take_output(&mut self.fwd)
    }

    /// Flushes the forwarding sink, then hands both sinks back.
    pub fn into_inner(self) -> (r: Result<(Compressor, Sha256State), std::io::Error>)
        ensures
            r is Ok,
            r matches Ok((c, h)) ==> {
                &&& after_call(self.sink(), c, None)
                &&& fed(c) == self.forwarded()
                &&& h == self.accumulator()
            },
    {
        let mut fwd = self.fwd;
        match compressor_flush(&mut fwd) {
            Ok(()) => Ok((fwd, self.acc)),
            Err(e) => Err(e),
        }
    }
}

} // verus!
