//! The framing of the native `.zcad` file.
//!
//! A file is a 16-byte header followed by the Zstd-compressed MessagePack
//! encoding of the document. The header holds the magic `ZCAD`, the format
//! version, reserved flags and the length of the compressed data, each
//! number as four little-endian bytes.

use vstd::prelude::*;

verus! {

/// Current format version. A file of a later version is refused.
pub const FORMAT_VERSION: u32 = 2;

/// Zstd compression level (1 to 22; 3 is zstd's default).
pub const COMPRESSION_LEVEL: i32 = 3;

/// Length of the header in bytes.
pub const HEADER_LEN: usize = 16;

/// The magic bytes `ZCAD`.
pub open spec fn magic_bytes() -> Seq<u8> {
    seq![0x5Au8, 0x43u8, 0x41u8, 0x44u8]
}

/// The four little-endian bytes of a `u32`.
pub open spec fn le_bytes(x: u32) -> Seq<u8> {
    seq![
        (x & 0xff) as u8,
        ((x >> 8u32) & 0xff) as u8,
        ((x >> 16u32) & 0xff) as u8,
        ((x >> 24u32) & 0xff) as u8,
    ]
}

/// The `u32` whose little-endian bytes these are.
pub open spec fn le_value(b0: u8, b1: u8, b2: u8, b3: u8) -> u32 {
    (b0 as u32) | ((b1 as u32) << 8u32) | ((b2 as u32) << 16u32) | ((b3 as u32) << 24u32)
}

/// Reading the bytes of a number gives the number back.
pub proof fn lemma_le_roundtrip(x: u32)
    ensures
        le_value(le_bytes(x)[0], le_bytes(x)[1], le_bytes(x)[2], le_bytes(x)[3]) == x,
{
    let b0 = (x & 0xff) as u8;
    let b1 = ((x >> 8u32) & 0xff) as u8;
    let b2 = ((x >> 16u32) & 0xff) as u8;
    let b3 = ((x >> 24u32) & 0xff) as u8;
    assert(le_bytes(x)[0] == b0 && le_bytes(x)[1] == b1 && le_bytes(x)[2] == b2 && le_bytes(x)[3]
        == b3);
    assert((b0 as u32) | ((b1 as u32) << 8u32) | ((b2 as u32) << 16u32) | ((b3 as u32) << 24u32)
        == x) by (bit_vector)
        requires
            b0 == (x & 0xff) as u8,
            b1 == ((x >> 8u32) & 0xff) as u8,
            b2 == ((x >> 16u32) & 0xff) as u8,
            b3 == ((x >> 24u32) & 0xff) as u8,
    ;
}

fn push_le(out: &mut Vec<u8>, x: u32)
    ensures
        final(out)@ == old(out)@ + le_bytes(x),
{
    out.push((x & 0xff) as u8);
    out.push(((x >> 8u32) & 0xff) as u8);
    out.push(((x >> 16u32) & 0xff) as u8);
    out.push(((x >> 24u32) & 0xff) as u8);
    assert(out@ =~= old(out)@ + le_bytes(x));
}

fn read_le(b: &[u8], at: usize) -> (x: u32)
    requires
        at + 4 <= b@.len(),
    ensures
        x == le_value(b@[at as int], b@[at + 1], b@[at + 2], b@[at + 3]),
{
    (b[at] as u32) | ((b[at + 1] as u32) << 8u32) | ((b[at + 2] as u32) << 16u32) | ((b[at
        + 3] as u32) << 24u32)
}

/// The 16-byte header of a native file.
#[derive(Debug, Clone, Copy, PartialEq, Eq)]
pub struct FileHeader {
    /// The magic bytes, `ZCAD` in a valid file.
    pub magic: [u8; 4],
    /// Format version the file was written with.
    pub version: u32,
    /// Reserved flags.
    pub flags: u32,
    /// Length of the compressed data that follows.
    pub compressed_size: u32,
}

/// The bytes a header is written as.
pub open spec fn header_bytes(h: FileHeader) -> Seq<u8> {
    h.magic@ + le_bytes(h.version) + le_bytes(h.flags) + le_bytes(h.compressed_size)
}

/// Why native file bytes could not be read or written.
#[derive(Debug, Clone, PartialEq, Eq)]
pub enum NativeError {
    /// The bytes end before the header or the data they announce.
    Truncated,
    /// The first four bytes are not `ZCAD`.
    InvalidMagic,
    /// The file was written by a newer format version.
    UnsupportedVersion(u32),
    /// Zstd failed; its message.
    Compression(String),
}

/// The header read from the front of some bytes, or why there is none:
/// fewer than four bytes, a wrong magic, then fewer than sixteen bytes.
pub open spec fn header_of(b: Seq<u8>) -> Result<FileHeader, NativeError> {
    if b.len() < 4 {
        Err(NativeError::Truncated)
    } else if b.take(4) != magic_bytes() {
        Err(NativeError::InvalidMagic)
    } else if b.len() < 16 {
        Err(NativeError::Truncated)
    } else {
        Ok(
            FileHeader {
                magic: [b[0], b[1], b[2], b[3]],
                version: le_value(b[4], b[5], b[6], b[7]),
                flags: le_value(b[8], b[9], b[10], b[11]),
                compressed_size: le_value(b[12], b[13], b[14], b[15]),
            },
        )
    }
}

impl FileHeader {
    /// A header of the current version for compressed data of this length.
    pub fn new(compressed_size: u32) -> (h: Self)
        ensures
            h.magic@ == magic_bytes(),
            h.version == FORMAT_VERSION,
            h.flags == 0,
            h.compressed_size == compressed_size,
    {
        let h = Self { magic: [0x5A, 0x43, 0x41, 0x44], version: FORMAT_VERSION, flags: 0, compressed_size };
        assert(h.magic@ =~= magic_bytes());
        h
    }

    /// Appends the header's sixteen bytes.
    pub fn write(&self, out: &mut Vec<u8>)
        ensures
            final(out)@ == old(out)@ + header_bytes(*self),
    {
        out.push(self.magic[0]);
        out.push(self.magic[1]);
        out.push(self.magic[2]);
        out.push(self.magic[3]);
        assert(out@ =~= old(out)@ + self.magic@);
        push_le(out, self.version);
        push_le(out, self.flags);
        push_le(out, self.compressed_size);
        assert(out@ =~= old(out)@ + header_bytes(*self));
    }

    /// Reads a header from the front of the bytes.
    pub fn read(bytes: &[u8]) -> (r: Result<Self, NativeError>)
        ensures
            r == header_of(bytes@),
    {
        if bytes.len() < 4 {
            return Err(NativeError::Truncated);
        }
        if !(bytes[0] == 0x5A && bytes[1] == 0x43 && bytes[2] == 0x41 && bytes[3] == 0x44) {
            proof {
                if bytes@.take(4) == magic_bytes() {
                    assert(bytes@.take(4)[0] == bytes@[0]);
                    assert(bytes@.take(4)[1] == bytes@[1]);
                    assert(bytes@.take(4)[2] == bytes@[2]);
                    assert(bytes@.take(4)[3] == bytes@[3]);
                }
            }
            return Err(NativeError::InvalidMagic);
        }
        assert(bytes@.take(4) =~= magic_bytes());
        if bytes.len() < 16 {
            return Err(NativeError::Truncated);
        }
        let magic: [u8; 4] = [bytes[0], bytes[1], bytes[2], bytes[3]];
        let version = read_le(bytes, 4);
        let flags = read_le(bytes, 8);
        let compressed_size = read_le(bytes, 12);
        let h = FileHeader { magic, version, flags, compressed_size };
        proof {
            let want = header_of(bytes@)->Ok_0;
            assert(h.magic@ =~= want.magic@);
        }
        Ok(h)
    }
}

/// The header bytes are read back as the header they were written from.
pub proof fn lemma_header_roundtrip(h: FileHeader, rest: Seq<u8>)
    requires
        h.magic@ == magic_bytes(),
    ensures
        header_of(header_bytes(h) + rest) == Ok::<FileHeader, NativeError>(h),
{
    let b = header_bytes(h) + rest;
    lemma_le_roundtrip(h.version);
    lemma_le_roundtrip(h.flags);
    lemma_le_roundtrip(h.compressed_size);
    assert(b.take(4) =~= magic_bytes());
    let got = header_of(b)->Ok_0;
    assert(got.magic@ =~= h.magic@);
    assert(got.magic =~= h.magic) by {
        assert forall|i: int| 0 <= i < 4 implies got.magic[i] == h.magic[i] by {
            assert(got.magic@[i] == h.magic@[i]);
        }
    }
    assert(b[4] == le_bytes(h.version)[0] && b[5] == le_bytes(h.version)[1] && b[6] == le_bytes(
        h.version,
    )[2] && b[7] == le_bytes(h.version)[3]);
    assert(b[8] == le_bytes(h.flags)[0] && b[9] == le_bytes(h.flags)[1] && b[10] == le_bytes(
        h.flags,
    )[2] && b[11] == le_bytes(h.flags)[3]);
    assert(b[12] == le_bytes(h.compressed_size)[0] && b[13] == le_bytes(h.compressed_size)[1]
        && b[14] == le_bytes(h.compressed_size)[2] && b[15] == le_bytes(h.compressed_size)[3]);
}

/// Name for what `zstd::encode_all` writes for some data at a level.
pub uninterp spec fn zstd_encoded(data: Seq<u8>, level: i32) -> Seq<u8>;

/// Name for what `zstd::decode_all` reads from some bytes: the content of
/// the frames, or nothing when they are not valid Zstd frames.
pub uninterp spec fn zstd_decoded(data: Seq<u8>) -> Option<Seq<u8>>;

/// Compresses with `zstd::encode_all`. Compressing a slice in memory at a
/// level in zstd's range succeeds (it fails only when memory runs out, which
/// aborts); the result is the named encoding, and decoding it gives the data
/// back (Zstd is lossless). For other levels success is not stated.
#[verifier::external_body]
fn zstd_encode(data: &[u8], level: i32) -> (r: Result<Vec<u8>, String>)
    ensures
        1 <= level <= 22 ==> r is Ok,
        r matches Ok(v) ==> v@ == zstd_encoded(data@, level),
        r matches Ok(v) ==> zstd_decoded(v@) == Some(data@),
{
    match zstd::encode_all(data, level) {
        Ok(v) => Ok(v),
        Err(e) => Err(e.to_string()),
    }
}

/// Decompresses with `zstd::decode_all`: the named content when the bytes
/// are valid frames, an error otherwise. The error message is not stated.
#[verifier::external_body]
fn zstd_decode(data: &[u8]) -> (r: Result<Vec<u8>, String>)
    ensures
        match r {
            Ok(v) => zstd_decoded(data@) == Some(v@),
            Err(_) => zstd_decoded(data@) is None,
        },
{
    match zstd::decode_all(data) {
        Ok(v) => Ok(v),
        Err(e) => Err(e.to_string()),
    }
}

/// The length of some data as the header stores it: the low 32 bits.
pub open spec fn stored_len(n: nat) -> u32 {
    (n % 0x1_0000_0000) as u32
}

/// The bytes of a file holding already compressed data.
pub open spec fn frame_bytes(compressed: Seq<u8>) -> Seq<u8> {
    header_bytes(
        FileHeader {
            magic: [0x5Au8, 0x43u8, 0x41u8, 0x44u8],
            version: FORMAT_VERSION,
            flags: 0,
            compressed_size: stored_len(compressed.len()),
        },
    ) + compressed
}

/// The compressed data of a file, or why it cannot be had: a bad header, a
/// newer version, or fewer bytes than the header announces. Bytes after
/// the announced data are ignored.
pub open spec fn frame_payload(b: Seq<u8>) -> Result<Seq<u8>, NativeError> {
    match header_of(b) {
        Err(e) => Err(e),
        Ok(h) => if h.version > FORMAT_VERSION {
            Err(NativeError::UnsupportedVersion(h.version))
        } else if b.len() - 16 < h.compressed_size {
            Err(NativeError::Truncated)
        } else {
            Ok(b.subrange(16, 16 + h.compressed_size))
        },
    }
}

/// Writes the header for some compressed data, then the data.
pub fn frame(compressed: &[u8]) -> (out: Vec<u8>)
    ensures
        out@ == frame_bytes(compressed@),
{
    let n: u64 = compressed.len() as u64;
    #[verifier::truncate]
    let size = n as u32;
    assert(size == (n % 0x1_0000_0000u64) as u32) by (bit_vector)
        requires
            size == n as u32,
    ;
    let header = FileHeader::new(size);
    let mut out: Vec<u8> = Vec::new();
    header.write(&mut out);
    let mut i: usize = 0;
    let ghost head = out@;
    while i < compressed.len()
        invariant
            i <= compressed@.len(),
            out@ == head + compressed@.take(i as int),
        decreases compressed@.len() - i,
    {
        out.push(compressed[i]);
        assert(head + compressed@.take(i as int).push(compressed@[i as int]) =~= head
            + compressed@.take(i + 1));
        i = i + 1;
    }
    proof {
        assert(compressed@.take(compressed@.len() as int) =~= compressed@);
        assert(header.magic@ =~= seq![0x5Au8, 0x43u8, 0x41u8, 0x44u8]);
        let spec_header = FileHeader {
            magic: [0x5Au8, 0x43u8, 0x41u8, 0x44u8],
            version: FORMAT_VERSION,
            flags: 0,
            compressed_size: stored_len(compressed@.len()),
        };
        assert(spec_header.magic@ =~= header.magic@);
        assert(header_bytes(spec_header) =~= header_bytes(header));
    }
    out
}

/// Takes the compressed data out of the bytes of a file.
pub fn unframe(bytes: &[u8]) -> (r: Result<Vec<u8>, NativeError>)
    ensures
        match frame_payload(bytes@) {
            Ok(p) => r matches Ok(v) && v@ == p,
            Err(e) => r == Err::<Vec<u8>, NativeError>(e),
        },
{
    let header = match FileHeader::read(bytes) {
        Ok(h) => h,
        Err(e) => {
            return Err(e);
        },
    };
    if header.version > FORMAT_VERSION {
        return Err(NativeError::UnsupportedVersion(header.version));
    }
    let size = header.compressed_size as usize;
    let len = bytes.len();
    if len - 16 < size {
        return Err(NativeError::Truncated);
    }
    let mut out: Vec<u8> = Vec::new();
    let mut i: usize = 0;
    while i < size
        invariant
            i <= size,
            len == bytes@.len(),
            16 + size <= len,
            out@ == bytes@.subrange(16, 16 + i),
        decreases size - i,
    {
        let at: usize = i + 16;
        out.push(bytes[at]);
        assert(bytes@.subrange(16, 16 + i).push(bytes@[16 + i]) =~= bytes@.subrange(16, 16 + i + 1));
        i = i + 1;
    }
    Ok(out)
}

/// The bytes of a native file holding a serialized document: the payload
/// compressed at the configured level, behind the header.
pub fn encode_file(payload: &[u8]) -> (r: Result<Vec<u8>, NativeError>)
    ensures
        r is Ok,
        match r {
            Ok(v) => v@ == frame_bytes(zstd_encoded(payload@, COMPRESSION_LEVEL)) && zstd_decoded(
                zstd_encoded(payload@, COMPRESSION_LEVEL),
            ) == Some(payload@),
            Err(e) => e is Compression,
        },
{
    match zstd_encode(payload, COMPRESSION_LEVEL) {
        Ok(compressed) => Ok(frame(compressed.as_slice())),
        Err(msg) => Err(NativeError::Compression(msg)),
    }
}

/// The serialized document held in the bytes of a native file.
pub fn decode_file(bytes: &[u8]) -> (r: Result<Vec<u8>, NativeError>)
    ensures
        match frame_payload(bytes@) {
            Err(e) => r == Err::<Vec<u8>, NativeError>(e),
            Ok(c) => match zstd_decoded(c) {
                Some(p) => r matches Ok(v) && v@ == p,
                None => r matches Err(e) && e is Compression,
            },
        },
{
    let compressed = unframe(bytes)?;
    match zstd_decode(compressed.as_slice()) {
        Ok(v) => Ok(v),
        Err(msg) => Err(NativeError::Compression(msg)),
    }
}

/// A file frame gives back the compressed data it was built from, as long
/// as its length fits the header's 32-bit field.
pub proof fn lemma_frame_roundtrip(compressed: Seq<u8>)
    requires
        compressed.len() <= u32::MAX,
    ensures
        frame_payload(frame_bytes(compressed)) == Ok::<Seq<u8>, NativeError>(compressed),
{
    let h = FileHeader {
        magic: [0x5Au8, 0x43u8, 0x41u8, 0x44u8],
        version: FORMAT_VERSION,
        flags: 0,
        compressed_size: stored_len(compressed.len()),
    };
    assert(h.magic@ =~= magic_bytes());
    lemma_header_roundtrip(h, compressed);
    assert(stored_len(compressed.len()) == compressed.len());
    let b = frame_bytes(compressed);
    assert(header_bytes(h).len() == 16);
    assert(b.subrange(16, 16 + compressed.len() as int) =~= compressed);
}

/// Reading a written file gives back the serialized document: the frame
/// holds the compressed data, which decompresses to the payload. It holds
/// whenever the compressed data fits the header's 32-bit length field;
/// `encode_file` guarantees the decompression fact when it succeeds.
pub proof fn lemma_file_roundtrip(payload: Seq<u8>)
    requires
        zstd_decoded(zstd_encoded(payload, COMPRESSION_LEVEL)) == Some(payload),
        zstd_encoded(payload, COMPRESSION_LEVEL).len() <= u32::MAX,
    ensures
        frame_payload(frame_bytes(zstd_encoded(payload, COMPRESSION_LEVEL))) matches Ok(c)
            && zstd_decoded(c) == Some(payload),
{
    lemma_frame_roundtrip(zstd_encoded(payload, COMPRESSION_LEVEL));
}

/// The space a document was last viewed in.
#[derive(Debug, Clone, Copy, PartialEq, Eq)]
pub enum SerializableSpaceType {
    Model,
    Paper(u64),
}

/// The space recorded for files written before layouts were saved.
pub fn default_space_type() -> (s: SerializableSpaceType)
    ensures
        s == SerializableSpaceType::Model,
{
    SerializableSpaceType::Model
}

/// The drawing unit recorded for files written before units were saved.
pub fn default_unit() -> (u: String)
    ensures
        u@ == "Millimeter"@,
{
    "Millimeter".to_string()
}

} // verus!
