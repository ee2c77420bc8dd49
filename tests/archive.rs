use build_tar::archive::{ArchiveError, ArchiveWriter, EntryMeta};
use sha2::Digest;
use std::io::Read;

fn meta() -> EntryMeta {
    EntryMeta { mode: 0o100644, mtime: 1_700_000_000, uid: 1000, gid: 1000 }
}

/// Runs the writer over the entries; returns the whole compressed output and
/// the digest.
fn build(w: ArchiveWriter, entries: &[(&str, Vec<u8>)]) -> Result<(Vec<u8>, String), ArchiveError> {
    let mut w = w;
    let mut out = Vec::new();
    for (name, data) in entries {
        let chunk = w.append(name, &meta(), data)?;
        out.extend_from_slice(&chunk);
    }
    let (tail, hex) = w.finish()?;
    out.extend_from_slice(&tail);
    Ok((out, hex))
}

fn decompress(bytes: &[u8]) -> Vec<u8> {
    let mut plain = Vec::new();
    brotli::Decompressor::new(bytes, 4096).read_to_end(&mut plain).unwrap();
    plain
}

fn unpack(tar_bytes: &[u8]) -> Vec<(String, Vec<u8>, u32, u64, u64, u64)> {
    let mut ar = tar::Archive::new(tar_bytes);
    let mut found = Vec::new();
    for e in ar.entries().unwrap() {
        let mut e = e.unwrap();
        let name = e.path().unwrap().to_string_lossy().into_owned();
        let h = e.header().clone();
        let mut data = Vec::new();
        e.read_to_end(&mut data).unwrap();
        found.push((name, data, h.mode().unwrap(), h.mtime().unwrap(), h.uid().unwrap(), h.gid().unwrap()));
    }
    found
}

fn sample() -> Vec<(&'static str, Vec<u8>)> {
    vec![
        ("a.txt", b"hello, world\n".to_vec()),
        ("dir/b.bin", (0..2000u32).map(|i| (i * 7 % 251) as u8).collect()),
        ("empty", Vec::new()),
    ]
}

fn sha_hex(data: &[u8]) -> String {
    sha2::Sha256::digest(data).iter().map(|b| format!("{:02x}", b)).collect()
}

#[test]
fn round_trip_reproduces_names_and_bytes_in_order() {
    let entries = sample();
    let (compressed, hex) = build(ArchiveWriter::new(), &entries).unwrap();
    let plain = decompress(&compressed);
    let found = unpack(&plain);
    assert_eq!(found.len(), entries.len());
    for (f, (name, data)) in found.iter().zip(entries.iter()) {
        assert_eq!(f.0, *name);
        assert_eq!(f.1, *data);
        assert_eq!(f.2, 0o100644);
        assert_eq!(f.3, 1_700_000_000);
        assert_eq!(f.4, 1000);
        assert_eq!(f.5, 1000);
    }
    assert_eq!(plain.len() % 512, 0);
    assert_eq!(hex, sha_hex(&plain));
    assert_eq!(hex.len(), 64);
}

#[test]
fn digest_is_over_uncompressed_stream_not_compressed_bytes() {
    let (compressed, hex) = build(ArchiveWriter::new(), &sample()).unwrap();
    assert_ne!(hex, sha_hex(&compressed));
    assert_eq!(hex, sha_hex(&decompress(&compressed)));
}

#[test]
fn repeated_runs_are_identical() {
    let first = build(ArchiveWriter::new(), &sample()).unwrap();
    let second = build(ArchiveWriter::new(), &sample()).unwrap();
    assert_eq!(first.0, second.0);
    assert_eq!(first.1, second.1);
}

#[test]
fn digest_ignores_compression_settings() {
    let entries = sample();
    let (fast, fast_hex) = build(ArchiveWriter::with_settings(1024, 1, 16), &entries).unwrap();
    let (best, best_hex) = build(ArchiveWriter::new(), &entries).unwrap();
    assert_eq!(fast_hex, best_hex);
    assert_eq!(decompress(&fast), decompress(&best));
}

#[test]
fn order_changes_output_and_digest() {
    let entries = sample();
    let mut swapped = entries.clone();
    swapped.swap(0, 1);
    let (a, a_hex) = build(ArchiveWriter::new(), &entries).unwrap();
    let (b, b_hex) = build(ArchiveWriter::new(), &swapped).unwrap();
    assert_ne!(a, b);
    assert_ne!(a_hex, b_hex);
    let found = unpack(&decompress(&b));
    assert_eq!(found[0].0, "dir/b.bin");
    assert_eq!(found[1].0, "a.txt");
}

#[test]
fn empty_archive_is_trailer_only() {
    let (compressed, hex) = build(ArchiveWriter::new(), &[]).unwrap();
    let plain = decompress(&compressed);
    assert_eq!(plain, vec![0u8; 1024]);
    assert_eq!(hex, "5f70bf18a086007016e948b04aed3b82103a36bea41755b6cddfaf10ace3c6ef");
    assert!(unpack(&plain).is_empty());
}

#[test]
fn large_file_survives_small_window() {
    let mut state: u32 = 12345;
    let big: Vec<u8> = (0..3_000_000)
        .map(|_| {
            state = state.wrapping_mul(1_103_515_245).wrapping_add(12345);
            (state >> 16) as u8
        })
        .collect();
    let entries = vec![("big.bin", big.clone())];
    let (compressed, hex) = build(ArchiveWriter::with_settings(4096, 5, 10), &entries).unwrap();
    let plain = decompress(&compressed);
    let found = unpack(&plain);
    assert_eq!(found.len(), 1);
    assert_eq!(found[0].1, big);
    assert_eq!(hex, sha_hex(&plain));
}

#[test]
fn long_name_is_kept() {
    let name = format!("{}/{}.txt", "d".repeat(120), "f".repeat(60));
    let entries = vec![(name.as_str(), b"x".to_vec())];
    let (compressed, _) = build(ArchiveWriter::new(), &entries).unwrap();
    let found = unpack(&decompress(&compressed));
    assert_eq!(found.len(), 1);
    assert_eq!(found[0].0, name);
    assert_eq!(found[0].1, b"x".to_vec());
}

#[test]
fn parent_directory_name_is_a_framing_error() {
    let mut w = ArchiveWriter::new();
    assert_eq!(w.append("../escape", &meta(), b"data"), Err(ArchiveError::Framing));
}

#[test]
fn absolute_name_is_a_framing_error() {
    let mut w = ArchiveWriter::new();
    assert_eq!(w.append("/etc/passwd", &meta(), b"data"), Err(ArchiveError::Framing));
}

#[test]
fn refused_name_leaves_writer_unchanged() {
    let mut w = ArchiveWriter::new();
    assert_eq!(w.append("../escape", &meta(), b"data"), Err(ArchiveError::Framing));
    let mut out = w.append("a.txt", &meta(), b"hello").unwrap();
    let (tail, hex) = w.finish().unwrap();
    out.extend_from_slice(&tail);
    let (clean, clean_hex) = build(ArchiveWriter::new(), &[("a.txt", b"hello".to_vec())]).unwrap();
    assert_eq!(out, clean);
    assert_eq!(hex, clean_hex);
}
