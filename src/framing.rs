//! Tar framing: entry headers, entry data padded to whole blocks, and the
//! end-of-archive trailer.
use vstd::prelude::*;

verus! {

/// The size of a tar block.
pub const BLOCK: usize = 512;

/// The size of the end-of-archive trailer: two zero blocks.
pub const TRAILER: usize = 1024;

/// A tar builder writing into a buffer. Verus does not take
/// `std::io::Write` as a bound, so tar's generic builder is held here.
#[verifier::external_body]
pub struct Framer {
    inner: tar::Builder<Vec<u8>>,
}

/// `n` zero bytes.
pub open spec fn zeros(n: nat) -> Seq<u8> {
    Seq::new(n, |i: int| 0u8)
}

/// The zero bytes that bring `len` bytes of data up to a whole block.
pub open spec fn padding(len: nat) -> nat {
    if len % (BLOCK as nat) == 0 {
        0
    } else {
        ((BLOCK as nat) - len % (BLOCK as nat)) as nat
    }
}

/// The shape of what stands before an entry's data: one or more whole
/// blocks.
pub open spec fn is_entry_head(head: Seq<u8>) -> bool {
    head.len() > 0 && head.len() % (BLOCK as nat) == 0
}

/// One entry on the wire: head, data, then zeros up to a block boundary.
pub open spec fn entry_frame(head: Seq<u8>, data: Seq<u8>) -> Seq<u8> {
    head + data + zeros(padding(data.len()))
}

/// The end-of-archive trailer.
pub open spec fn trailer() -> Seq<u8> {
    zeros(TRAILER as nat)
}

/// The bytes a builder has written into its buffer and that were not yet
/// taken out.
pub uninterp spec fn framed(b: Framer) -> Seq<u8>;

/// Whether a builder has written its trailer.
pub uninterp spec fn trailer_written(b: Framer) -> bool;

/// Relies on tar::Builder::new: a builder over an empty buffer that has
/// written nothing and no trailer.
#[verifier::external_body]
pub(crate) fn framer_new() -> (b: Framer)
    ensures
        framed(b) == Seq::<u8>::empty(),
        !trailer_written(b),
{
    Framer { inner: tar::Builder::new(Vec::new()) }
}

/// What the header of an entry records besides its name and size.
#[derive(Clone, Copy, Debug, PartialEq, Eq, Structural)]
pub struct EntryMeta {
    pub mode: u32,
    pub mtime: u64,
    pub uid: u64,
    pub gid: u64,
}

/// Whether tar takes `name` as the path of an entry (it refuses, among
/// others, absolute names and names with a `..` component).
pub uninterp spec fn tar_accepts_name(name: Seq<char>) -> bool;

/// What tar writes before the data of a regular-file entry with this name,
/// size and metadata: a GNU header block, preceded by a long-name entry
/// where the name does not fit the header.
pub uninterp spec fn gnu_entry_head(
    name: Seq<char>,
    size: nat,
    mode: u32,
    mtime: u64,
    uid: u64,
    gid: u64,
) -> Seq<u8>;

/// Relies on tar::Builder::append_data, on a fresh GNU header (tar's
/// Header::new_gnu) holding the size, mode, mtime, uid, gid and the
/// regular-file type: whether it succeeds depends on the name alone; on
/// success it has written the head (long-name entry if needed, header block
/// with name and checksum), the data, and zeros to a block boundary, into a
/// `Vec`, which cannot fail; on error it has written nothing.
#[verifier::external_body]
pub(crate) fn framer_append(b: &mut Framer, name: &str, meta: &EntryMeta, data: &[u8]) -> (r:
    Result<(), std::io::Error>)
    ensures
        trailer_written(*final(b)) == trailer_written(*old(b)),
        r is Ok <==> tar_accepts_name(name@),
        r is Err ==> framed(*final(b)) == framed(*old(b)),
        r is Ok ==> is_entry_head(
            gnu_entry_head(name@, data@.len(), meta.mode, meta.mtime, meta.uid, meta.gid),
        ),
        r is Ok ==> framed(*final(b)) == framed(*old(b)) + entry_frame(
            gnu_entry_head(name@, data@.len(), meta.mode, meta.mtime, meta.uid, meta.gid),
            data@,
        ),
{
    let mut h = tar::Header::new_gnu();
    h.set_mode(meta.mode);
    h.set_mtime(meta.mtime);
    h.set_uid(meta.uid);
    h.set_gid(meta.gid);
    h.set_size(data.len() as u64);
    h.set_entry_type(tar::EntryType::Regular);
    b.inner.append_data(&mut h, name, data)
}

/// Relies on tar::Builder::get_mut: the written bytes are moved out of the
/// buffer.
#[verifier::external_body]
pub(crate) fn framer_take(b: &mut Framer) -> (r: Vec<u8>)
    ensures
        r@ == framed(*old(b)),
        framed(*final(b)) == Seq::<u8>::empty(),
        trailer_written(*final(b)) == trailer_written(*old(b)),
{
    std::mem::take(b.inner.get_mut())
}

/// Relies on tar::Builder::finish: where no trailer was written yet, it
/// writes the two zero blocks into the `Vec`, which cannot fail; either way
/// the trailer counts as written.
#[verifier::external_body]
pub(crate) fn framer_finish(b: &mut Framer) -> (r: Result<(), std::io::Error>)
    ensures
        r is Ok,
        trailer_written(*final(b)),
        !trailer_written(*old(b)) ==> framed(*final(b)) == framed(*old(b)) + trailer(),
{
    b.inner.finish()
}

} // verus!
