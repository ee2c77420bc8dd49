//! The archive driver: tar framing feeds the fan-out writer, which feeds the
//! compressor and the hasher; the digest covers the uncompressed tar stream.
use vstd::prelude::*;
use crate::compress::{
    brotli_done, buffered, calls, compressor_finish, compressor_new, compressor_settings,
    produced,
};
use crate::digest::{hasher_finalize, hasher_new, sha256_of};
pub use crate::framing::EntryMeta;
use crate::framing::{
    BLOCK, Framer, entry_frame, framed, framer_append, framer_finish, framer_new, framer_take,
    gnu_entry_head, is_entry_head, padding, tar_accepts_name, trailer, trailer_written, zeros,
};
use crate::hex::{encode_hex, hex_lower, lemma_hex_lower_len};
use crate::tee::TeeWriter;

verus! {

/// Internal buffer size of the compressor.
pub const BUFFER_SIZE: usize = 4096;

/// Brotli quality (effort) level.
pub const QUALITY: u32 = 11;

/// Brotli window, as a base-two logarithm.
pub const LGWIN: u32 = 20;

/// Why building an archive failed.
#[derive(Clone, Copy, Debug, PartialEq, Eq, Structural)]
pub enum ArchiveError {
    /// The destination could not be created.
    DestinationCreate,
    /// A source file could not be opened, inspected or read.
    SourceRead,
    /// tar refused an entry's name.
    Framing,
    /// The compressor could not flush what it held.
    Flush,
}

/// An entry: its name, its metadata and its data.
pub type Entry = (Seq<char>, EntryMeta, Seq<u8>);

/// What stands before an entry's data.
pub open spec fn entry_head(e: Entry) -> Seq<u8> {
    gnu_entry_head(e.0, e.2.len(), e.1.mode, e.1.mtime, e.1.uid, e.1.gid)
}

/// One entry on the wire.
pub open spec fn entry_bytes(e: Entry) -> Seq<u8> {
    entry_frame(entry_head(e), e.2)
}

/// The tar stream of a sequence of entries, without the trailer.
pub open spec fn tar_stream(entries: Seq<Entry>) -> Seq<u8>
    decreases entries.len(),
{
    if entries.len() == 0 {
        Seq::empty()
    } else {
        tar_stream(entries.drop_last()) + entry_bytes(entries.last())
    }
}

/// The writes made on the compressor for these entries: one per entry.
pub open spec fn entry_calls(entries: Seq<Entry>) -> Seq<Option<Seq<u8>>> {
    Seq::new(entries.len(), |i: int| Some(entry_bytes(entries[i])))
}

/// The calls made on the compressor for a whole archive: one write per
/// entry, one for the trailer, then a flush.
pub open spec fn archive_calls(entries: Seq<Entry>) -> Seq<Option<Seq<u8>>> {
    entry_calls(entries).push(Some(trailer())).push(None)
}

/// The compressed archive of these entries, with these compressor settings.
pub open spec fn archive_output(settings: (usize, u32, u32), entries: Seq<Entry>) -> Seq<u8> {
    brotli_done(settings.0, settings.1, settings.2, archive_calls(entries))
}

/// The digest of the archive of these entries: lowercase hex SHA-256 of the
/// uncompressed tar stream with its trailer.
pub open spec fn archive_digest(entries: Seq<Entry>) -> Seq<char> {
    hex_lower(sha256_of(tar_stream(entries) + trailer()))
}

proof fn lemma_push(entries: Seq<Entry>, e: Entry)
    ensures
        tar_stream(entries.push(e)) == tar_stream(entries) + entry_bytes(e),
        entry_calls(entries.push(e)) == entry_calls(entries).push(Some(entry_bytes(e))),
{
    assert(entries.push(e).drop_last() =~= entries);
    assert(entry_calls(entries.push(e)) =~= entry_calls(entries).push(Some(entry_bytes(e))));
}

/// Every entry frame fills whole blocks.
proof fn lemma_entry_frame_blocks(head: Seq<u8>, data: Seq<u8>)
    requires
        is_entry_head(head),
    ensures
        entry_frame(head, data).len() % (BLOCK as nat) == 0,
{
    let n = data.len();
    assert((n + padding(n)) % 512 == 0) by {
        if n % 512 != 0 {
            assert(n + padding(n) == (n / 512 + 1) * 512);
        }
    }
    assert(entry_frame(head, data).len() == head.len() + (n + padding(n)));
}

/// The tar stream of the first `k` entries begins the tar stream of all of
/// them, and fills whole blocks.
proof fn lemma_stream_prefix(entries: Seq<Entry>, k: int)
    requires
        0 <= k <= entries.len(),
        forall|j: int| 0 <= j < entries.len() ==> is_entry_head(entry_head(#[trigger] entries[j])),
    ensures
        tar_stream(entries.take(k)).len() <= tar_stream(entries).len(),
        tar_stream(entries).take(tar_stream(entries.take(k)).len() as int) == tar_stream(
            entries.take(k),
        ),
        tar_stream(entries).len() % (BLOCK as nat) == 0,
    decreases entries.len(),
{
    if entries.len() == 0 {
        assert(entries.take(k) =~= entries);
        assert(tar_stream(entries).take(0) =~= Seq::<u8>::empty());
    } else {
        let es = entries.drop_last();
        lemma_entry_frame_blocks(entry_head(entries.last()), entries.last().2);
        if k == entries.len() {
            assert(entries.take(k) =~= entries);
            lemma_stream_prefix(es, 0);
            assert(tar_stream(entries).take(tar_stream(entries).len() as int) =~= tar_stream(
                entries,
            ));
        } else {
            lemma_stream_prefix(es, k);
            assert(es.take(k) =~= entries.take(k));
            let p = tar_stream(entries.take(k));
            assert(tar_stream(entries).take(p.len() as int) =~= tar_stream(es).take(
                p.len() as int,
            ));
        }
    }
}

/// Each entry stands in the tar stream in order, unchanged: after the frames
/// of all earlier entries comes its head (made from its name, size and
/// metadata), then its data, beginning on a block boundary. So reading the
/// stream back yields every entry's name and exact bytes, in order.
pub proof fn lemma_entry_in_stream(w: ArchiveWriter, i: int)
    requires
        w.wf(),
        0 <= i < w.entries().len(),
    ensures
        ({
            let stream = tar_stream(w.entries());
            let e = w.entries()[i];
            let at = tar_stream(w.entries().take(i)).len();
            let start = at + entry_head(e).len();
            &&& start % (BLOCK as nat) == 0
            &&& start + e.2.len() <= stream.len()
            &&& stream.subrange(at as int, start as int) == entry_head(e)
            &&& stream.subrange(start as int, (start + e.2.len()) as int) == e.2
        }),
{
    let entries = w.entries();
    assert forall|j: int| 0 <= j < entries.len() implies is_entry_head(
        entry_head(#[trigger] entries[j]),
    ) by {
        assert(tar_accepts_name(entries[j].0));
    }
    let es = entries.take(i + 1);
    assert(forall|j: int| 0 <= j < es.len() ==> es[j] == entries[j]);
    lemma_stream_prefix(entries, i + 1);
    lemma_stream_prefix(es, i);
    assert(es.take(i) =~= entries.take(i));
    assert(es.drop_last() =~= entries.take(i));
    let e = entries[i];
    let before = tar_stream(entries.take(i));
    let upto = tar_stream(es);
    assert(upto == before + entry_bytes(e));
    let at = before.len();
    let start = at + entry_head(e).len();
    let stream = tar_stream(entries);
    assert(stream.take(upto.len() as int) == upto);
    assert(upto.subrange(start as int, (start + e.2.len()) as int) =~= e.2);
    assert(upto.subrange(at as int, start as int) =~= entry_head(e));
    assert(stream.subrange(start as int, (start + e.2.len()) as int) =~= upto.subrange(
        start as int,
        (start + e.2.len()) as int,
    ));
    assert(stream.subrange(at as int, start as int) =~= upto.subrange(at as int, start as int));
    lemma_stream_prefix(entries.take(i), 0);
}

/// Two writers with the same settings that were given the same entries
/// finish with the same compressed bytes and the same digest.
pub proof fn lemma_archive_deterministic(a: ArchiveWriter, b: ArchiveWriter)
    requires
        a.wf(),
        b.wf(),
        a.settings() == b.settings(),
        a.entries() == b.entries(),
    ensures
        archive_output(a.settings(), a.entries()) == archive_output(b.settings(), b.entries()),
        archive_digest(a.entries()) == archive_digest(b.entries()),
{
}

/// The digest is taken over the uncompressed tar stream: two writers given
/// the same entries finish with the same digest, whatever compression
/// settings each was made with.
pub proof fn lemma_digest_ignores_compression(a: ArchiveWriter, b: ArchiveWriter)
    requires
        a.wf(),
        b.wf(),
        a.entries() == b.entries(),
    ensures
        archive_digest(a.entries()) == archive_digest(b.entries()),
{
}

/// An archive of no entries is the trailer alone, two zero blocks, written
/// to the compressor once and then flushed.
pub proof fn lemma_empty_archive()
    ensures
        tar_stream(Seq::<Entry>::empty()) + trailer() == zeros(1024),
        archive_calls(Seq::<Entry>::empty()) == seq![Some(zeros(1024)), None],
{
    assert(tar_stream(Seq::<Entry>::empty()) + trailer() =~= zeros(1024));
    assert(entry_calls(Seq::<Entry>::empty()) =~= Seq::<Option<Seq<u8>>>::empty());
    assert(archive_calls(Seq::<Entry>::empty()) =~= seq![Some(zeros(1024)), None]);
}

/// Builds one archive in a single pass. Each appended entry is framed,
/// then compressed and hashed; compressed bytes are handed back as they
/// are produced.
pub struct ArchiveWriter {
    framer: Framer,
    tee: TeeWriter,
    entries: Ghost<Seq<Entry>>,
    emitted: Ghost<Seq<u8>>,
}

impl ArchiveWriter {
    /// The entries appended so far, in order.
    pub closed spec fn entries(&self) -> Seq<Entry> {
        self.entries@
    }

    /// The compressed bytes handed back so far.
    pub closed spec fn emitted(&self) -> Seq<u8> {
        self.emitted@
    }

    /// The compressor's buffer size, quality and window.
    pub closed spec fn settings(&self) -> (usize, u32, u32) {
        compressor_settings(self.tee.sink())
    }

    /// The internal state between entries: nothing framed is pending, no
    /// trailer yet, both sinks have seen the tar stream of the entries, the
    /// compressor has had one write per entry, and what it output is what
    /// was handed back followed by what it still buffers.
    pub closed spec fn inv(&self) -> bool {
        &&& framed(self.framer) == Seq::<u8>::empty()
        &&& !trailer_written(self.framer)
        &&& self.tee.wf()
        &&& self.tee.hashed() == tar_stream(self.entries@)
        &&& calls(self.tee.sink()) == entry_calls(self.entries@)
        &&& produced(self.tee.sink()) == self.emitted@ + buffered(self.tee.sink())
    }

    /// Ready for the next entry; every entry so far has a name tar took and
    /// a head of whole blocks.
    pub open spec fn wf(&self) -> bool {
        &&& self.inv()
        &&& forall|i: int|
            0 <= i < self.entries().len() ==> tar_accepts_name(#[trigger] self.entries()[i].0)
                && is_entry_head(entry_head(self.entries()[i]))
    }

    /// A writer with the fixed compression settings.
    pub fn new() -> (r: ArchiveWriter)
        ensures
            r.wf(),
            r.entries() == Seq::<Entry>::empty(),
            r.emitted() == Seq::<u8>::empty(),
            r.settings() == (BUFFER_SIZE, QUALITY, LGWIN),
    {
        ArchiveWriter::with_settings(BUFFER_SIZE, QUALITY, LGWIN)
    }

    /// A writer whose compressor uses the given buffer size, quality and
    /// window.
    pub fn with_settings(buffer_size: usize, quality: u32, lgwin: u32) -> (r: ArchiveWriter)
        ensures
            r.wf(),
            r.entries() == Seq::<Entry>::empty(),
            r.emitted() == Seq::<u8>::empty(),
            r.settings() == (buffer_size, quality, lgwin),
    {
        let tee = TeeWriter::new(compressor_new(buffer_size, quality, lgwin), hasher_new());
        assert(entry_calls(Seq::<Entry>::empty()) =~= Seq::<Option<Seq<u8>>>::empty());
        ArchiveWriter {
            framer: framer_new(),
            tee,
            entries: Ghost(Seq::empty()),
            emitted: Ghost(Seq::empty()),
        }
    }

    /// Appends a regular file named `name` holding `data`, and returns the
    /// compressed bytes that became available. Fails, changing nothing,
    /// exactly when tar refuses the name.
    pub fn append(&mut self, name: &str, meta: &EntryMeta, data: &[u8]) -> (r: Result<
        Vec<u8>,
        ArchiveError,
    >)
        requires
            old(self).wf(),
        ensures
            final(self).wf(),
            final(self).settings() == old(self).settings(),
            r is Ok <==> tar_accepts_name(name@),
            r is Err ==> r == Err::<Vec<u8>, ArchiveError>(ArchiveError::Framing),
            r is Err ==> final(self).entries() == old(self).entries() && final(self).emitted()
                == old(self).emitted(),
            r matches Ok(chunk) ==> final(self).entries() == old(self).entries().push(
                (name@, *meta, data@),
            ) && final(self).emitted() == old(self).emitted() + chunk@,
    {
        match framer_append(&mut self.framer, name, meta, data) {
            Ok(()) => {},
            Err(_) => {
                assert(self.entries() == old(self).entries());
                assert forall|i: int| 0 <= i < self.entries().len() implies tar_accepts_name(
                    #[trigger] self.entries()[i].0,
                ) && is_entry_head(entry_head(self.entries()[i])) by {
                    assert(self.entries()[i] == old(self).entries()[i]);
                }
                return Err(ArchiveError::Framing);
            },
        }
        let ghost e: Entry = (name@, *meta, data@);
        let bytes = framer_take(&mut self.framer);
        assert(bytes@ == entry_bytes(e));
        let ghost before = self.tee.sink();
        let _ = self.tee.write(bytes.as_slice());
        proof {
            lemma_push(self.entries@, e);
            let b0 = buffered(before);
            let b1 = buffered(self.tee.sink());
            assert(b1 =~= b0 + b1.skip(b0.len() as int));
        }
        let chunk = self.tee.take_output();
        self.entries = Ghost(self.entries@.push(e));
        self.emitted = Ghost(self.emitted@ + chunk@);
        proof {
            assert(produced(self.tee.sink()) =~= self.emitted@ + buffered(self.tee.sink()));
            assert forall|i: int| 0 <= i < self.entries().len() implies tar_accepts_name(
                #[trigger] self.entries()[i].0,
            ) && is_entry_head(entry_head(self.entries()[i])) by {
                if i < self.entries().len() - 1 {
                    assert(self.entries()[i] == old(self).entries()[i]);
                }
            }
        }
        Ok(chunk)
    }

    /// Writes the trailer, flushes and finishes the compressor, and returns
    /// the last compressed bytes with the lowercase hex SHA-256 digest of the
    /// whole uncompressed tar stream.
    pub fn finish(self) -> (r: Result<(Vec<u8>, String), ArchiveError>)
        requires
            self.wf(),
        ensures
            r is Ok,
            r matches Ok((tail, hex)) ==> {
                &&& self.emitted() + tail@ == archive_output(self.settings(), self.entries())
                &&& hex@ == archive_digest(self.entries())
                &&& hex@.len() == 64
            },
    {
        let mut framer = self.framer;
        let mut tee = self.tee;
        let _ = framer_finish(&mut framer);
        let bytes = framer_take(&mut framer);
        let ghost s0 = tee.sink();
        let _ = tee.write(bytes.as_slice());
        let ghost s1 = tee.sink();
        match tee.into_inner() {
            Ok((compressor, hasher)) => {
                let tail = compressor_finish(compressor);
                let digest = hasher_finalize(hasher);
                let hex = encode_hex(digest.as_slice());
                proof {
                    lemma_hex_lower_len(digest@);
                    let (b0, b1, b2) = (buffered(s0), buffered(s1), buffered(compressor));
                    assert(b1 =~= b0 + b1.skip(b0.len() as int));
                    assert(b2 =~= b1 + b2.skip(b1.len() as int));
                    assert(tail@ =~= b2 + tail@.skip(b2.len() as int));
                    assert(self.emitted() + tail@ =~= produced(compressor) + tail@.skip(
                        b2.len() as int,
                    ));
                }
                Ok((tail, hex))
            },
            Err(_) => Err(ArchiveError::Flush),
        }
    }
}

} // verus!
