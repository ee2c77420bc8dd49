//! The streaming brotli compressor, writing its output into a buffer that
//! the caller drains.
use vstd::prelude::*;

verus! {

#[verifier::external_type_specification]
#[verifier::external_body]
pub struct ExIoError(std::io::Error);

/// A brotli compressor writing into a buffer. Verus does not take
/// `std::io::Write` as a bound, so brotli's generic writer is held here.
#[verifier::external_body]
pub struct Compressor {
    inner: brotli::CompressorWriter<Vec<u8>>,
}

/// The bytes fed into a compressor since it was created.
pub uninterp spec fn fed(c: Compressor) -> Seq<u8>;

/// The buffer size, quality and window a compressor was made with.
pub uninterp spec fn compressor_settings(c: Compressor) -> (usize, u32, u32);

/// The calls made on a compressor since it was created, in order: a write
/// of the given bytes, or `None` for a flush.
pub uninterp spec fn calls(c: Compressor) -> Seq<Option<Seq<u8>>>;

/// The compressed bytes in a compressor's output buffer, not yet taken.
pub uninterp spec fn buffered(c: Compressor) -> Seq<u8>;

/// Everything a brotli compressor made with these settings outputs over
/// these calls.
pub uninterp spec fn brotli_out(
    buffer_size: usize,
    quality: u32,
    lgwin: u32,
    calls: Seq<Option<Seq<u8>>>,
) -> Seq<u8>;

/// Everything such a compressor outputs over these calls and then the end of
/// the stream.
pub uninterp spec fn brotli_done(
    buffer_size: usize,
    quality: u32,
    lgwin: u32,
    calls: Seq<Option<Seq<u8>>>,
) -> Seq<u8>;

/// All the output of a compressor so far, taken or not.
pub open spec fn produced(c: Compressor) -> Seq<u8> {
    let (b, q, w) = compressor_settings(c);
    brotli_out(b, q, w, calls(c))
}

/// `new` is `old` after one more call: same settings, the call recorded, and
/// whatever it output appended to the buffer.
pub open spec fn after_call(old: Compressor, new: Compressor, call: Option<Seq<u8>>) -> bool {
    &&& compressor_settings(new) == compressor_settings(old)
    &&& calls(new) == calls(old).push(call)
    &&& buffered(new).len() >= buffered(old).len()
    &&& buffered(new).take(buffered(old).len() as int) == buffered(old)
    &&& produced(new) == produced(old) + buffered(new).skip(buffered(old).len() as int)
}

/// Relies on brotli::CompressorWriter::new: a compressor with the given
/// internal buffer size, quality and window, which has been fed nothing and
/// has output nothing.
#[verifier::external_body]
pub(crate) fn compressor_new(buffer_size: usize, quality: u32, lgwin: u32) -> (c: Compressor)
    ensures
        fed(c) == Seq::<u8>::empty(),
        compressor_settings(c) == (buffer_size, quality, lgwin),
        calls(c) == Seq::<Option<Seq<u8>>>::empty(),
        buffered(c) == Seq::<u8>::empty(),
        brotli_out(buffer_size, quality, lgwin, calls(c)) == Seq::<u8>::empty(),
{
    Compressor { inner: brotli::CompressorWriter::new(Vec::new(), buffer_size, quality, lgwin) }
}

/// Relies on `Write::write_all` of brotli::CompressorWriter: every byte of
/// `data` is fed after those fed before, and what the encoder emits is
/// appended to the buffer. Writing into a `Vec` does not fail.
#[verifier::external_body]
pub(crate) fn compressor_write(c: &mut Compressor, data: &[u8]) -> (r: Result<(), std::io::Error>)
    ensures
        r is Ok,
        fed(*final(c)) == fed(*old(c)) + data@,
        compressor_settings(*final(c)) == compressor_settings(*old(c)),
        calls(*final(c)) == calls(*old(c)).push(Some(data@)),
        buffered(*final(c)).len() >= buffered(*old(c)).len(),
        buffered(*final(c)).take(buffered(*old(c)).len() as int) == buffered(*old(c)),
        produced(*final(c)) == produced(*old(c)) + buffered(*final(c)).skip(
            buffered(*old(c)).len() as int,
        ),
{
    std::io::Write::write_all(&mut c.inner, data)
}

/// Relies on `Write::flush` of brotli::CompressorWriter: it feeds no input
/// and appends what the encoder held to the buffer. Flushing into a `Vec`
/// does not fail.
#[verifier::external_body]
pub(crate) fn compressor_flush(c: &mut Compressor) -> (r: Result<(), std::io::Error>)
    ensures
        r is Ok,
        fed(*final(c)) == fed(*old(c)),
        compressor_settings(*final(c)) == compressor_settings(*old(c)),
        calls(*final(c)) == calls(*old(c)).push(None),
        buffered(*final(c)).len() >= buffered(*old(c)).len(),
        buffered(*final(c)).take(buffered(*old(c)).len() as int) == buffered(*old(c)),
        produced(*final(c)) == produced(*old(c)) + buffered(*final(c)).skip(
            buffered(*old(c)).len() as int,
        ),
{
    std::io::Write::flush(&mut c.inner)
}

/// Relies on brotli::CompressorWriter::get_mut: the buffered compressed
/// bytes are moved out; nothing else changes.
#[verifier::external_body]
pub(crate) fn compressor_take_output(c: &mut Compressor) -> (r: Vec<u8>)
    ensures
        r@ == buffered(*old(c)),
        buffered(*final(c)) == Seq::<u8>::empty(),
        fed(*final(c)) == fed(*old(c)),
        compressor_settings(*final(c)) == compressor_settings(*old(c)),
        calls(*final(c)) == calls(*old(c)),
{
    std::mem::take(c.inner.get_mut())
}

/// Relies on brotli::CompressorWriter::into_inner: the stream is finished
/// and the buffer is handed back, holding what was buffered followed by the
/// last compressed bytes. brotli discards any error of this last step.
#[verifier::external_body]
pub(crate) fn compressor_finish(c: Compressor) -> (r: Vec<u8>)
    ensures
        r@.len() >= buffered(c).len(),
        r@.take(buffered(c).len() as int) == buffered(c),
        brotli_done(compressor_settings(c).0, compressor_settings(c).1, compressor_settings(c).2, calls(c))
            == produced(c) + r@.skip(buffered(c).len() as int),
{
    c.inner.into_inner()
}

} // verus!
