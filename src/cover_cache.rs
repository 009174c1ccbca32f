//! Keys of the cover-art cache, and the size bound it is swept down to.
//!
//! A cached cover is keyed by a fingerprint of its music file (size,
//! modification time and file name, not the folder), so a file that moves
//! keeps its cached art.
use sha2::Digest;
use vstd::prelude::*;
use vstd::string::{StringExecFns, StringSliceAdditionalSpecFns};

verus! {

/// The cache is swept down to this many bytes.
pub const COVER_CACHE_LIMIT_BYTES: u64 = 500 * 1024 * 1024;

/// What is known of a music file's metadata when its key is made.
#[derive(Clone, Copy, Debug, PartialEq, Eq, Structural)]
pub enum FileStamp {
    /// Size in bytes and modification time in seconds since the epoch.
    Known { len: u64, modified_secs: u64 },
    /// The metadata could not be read; the time now, in seconds since the epoch.
    Unreadable { now_secs: u64 },
}

/// The eight bytes of `n`, most significant first.
pub open spec fn be_bytes(n: u64) -> Seq<u8> {
    seq![
        (n >> 56u64) as u8, (n >> 48u64) as u8, (n >> 40u64) as u8, (n >> 32u64) as u8,
        (n >> 24u64) as u8, (n >> 16u64) as u8, (n >> 8u64) as u8, n as u8,
    ]
}

/// The bytes that identify a file: its stamp, then the UTF-8 of its name.
pub open spec fn fingerprint(stamp: FileStamp, name: Seq<u8>) -> Seq<u8> {
    match stamp {
        FileStamp::Known { len, modified_secs } => be_bytes(len) + be_bytes(modified_secs) + name,
        FileStamp::Unreadable { now_secs } => be_bytes(now_secs) + name,
    }
}

pub open spec fn hex_digit(d: u8) -> char {
    if d < 10 { ((d + 48) as u8) as char } else { ((d + 87) as u8) as char }
}

/// Two lowercase hexadecimal digits per byte, the high one first.
pub open spec fn hex_lower(b: Seq<u8>) -> Seq<char>
    decreases b.len(),
{
    if b.len() == 0 {
        Seq::empty()
    } else {
        seq![hex_digit(b[0] / 16), hex_digit(b[0] % 16)] + hex_lower(b.subrange(1, b.len() as int))
    }
}

/// The SHA-256 digest of a byte sequence.
pub uninterp spec fn sha256_of(data: Seq<u8>) -> Seq<u8>;

/// Relies on `sha2::Sha256::digest`: the 32-byte SHA-256 digest of `data`.
#[verifier::external_body]
fn sha256(data: &[u8]) -> (r: Vec<u8>)
    ensures
        r@ == sha256_of(data@),
        r@.len() == 32,
{
    sha2::Sha256::digest(data).to_vec()
}

/// Relies on `hex::encode`: two lowercase hexadecimal digits per byte.
#[verifier::external_body]
fn hex_encode(b: &[u8]) -> (r: String)
    ensures
        r@ == hex_lower(b@),
{
    hex::encode(b)
}

fn push_be_bytes(out: &mut Vec<u8>, n: u64)
    ensures
        final(out)@ == old(out)@ + be_bytes(n),
{
    out.push((n >> 56u64) as u8);
    out.push((n >> 48u64) as u8);
    out.push((n >> 40u64) as u8);
    out.push((n >> 32u64) as u8);
    out.push((n >> 24u64) as u8);
    out.push((n >> 16u64) as u8);
    out.push((n >> 8u64) as u8);
    out.push(n as u8);
    assert(final(out)@ =~= old(out)@ + be_bytes(n));
}

/// The fingerprint bytes of a file with this stamp and name.
pub fn fingerprint_bytes(stamp: FileStamp, file_name: &str) -> (r: Vec<u8>)
    ensures
        r@ == fingerprint(stamp, file_name.spec_bytes()),
{
    let mut out: Vec<u8> = Vec::new();
    match stamp {
        FileStamp::Known { len, modified_secs } => {
            push_be_bytes(&mut out, len);
            push_be_bytes(&mut out, modified_secs);
        },
        FileStamp::Unreadable { now_secs } => {
            push_be_bytes(&mut out, now_secs);
        },
    }
    let ghost head = out@;
    let name = file_name.as_bytes();
    let mut i: usize = 0;
    while i < name.len()
        invariant
            i <= name@.len(),
            name@ == file_name.spec_bytes(),
            out@ == head + name@.subrange(0, i as int),
        decreases name.len() - i,
    {
        out.push(name[i]);
        i += 1;
        assert(out@ =~= head + name@.subrange(0, i as int));
    }
    assert(name@.subrange(0, name@.len() as int) =~= name@);
    out
}

/// The cache key of a file: the hexadecimal SHA-256 of its fingerprint.
pub fn cover_key(stamp: FileStamp, file_name: &str) -> (r: String)
    ensures
        r@ == hex_lower(sha256_of(fingerprint(stamp, file_name.spec_bytes()))),
        r@.len() == 64,
{
    let bytes = fingerprint_bytes(stamp, file_name);
    let digest = sha256(bytes.as_slice());
    proof {
        lemma_hex_len(digest@);
    }
    hex_encode(digest.as_slice())
}

proof fn lemma_hex_len(b: Seq<u8>)
    ensures
        hex_lower(b).len() == 2 * b.len(),
    decreases b.len(),
{
    if b.len() > 0 {
        lemma_hex_len(b.subrange(1, b.len() as int));
    }
}

/// Name of the cached thumbnail for the file with key `key`.
pub fn thumbnail_file_name(key: &str) -> (r: String)
    ensures
        r@ == key@ + "_thumb.jpg"@,
{
    let mut r = String::from_str(key);
    r.append("_thumb.jpg");
    r
}

/// Name of the cached full-size cover for the file with key `key`.
pub fn full_cover_file_name(key: &str) -> (r: String)
    ensures
        r@ == key@ + "_full.jpg"@,
{
    let mut r = String::from_str(key);
    r.append("_full.jpg");
    r
}

/// Sum of a sequence of sizes.
pub open spec fn total_of(sizes: Seq<u64>) -> nat
    decreases sizes.len(),
{
    if sizes.len() == 0 { 0 } else { total_of(sizes.drop_last()) + sizes.last() as nat }
}

/// The running state of a sweep over the cache's files, oldest first.
#[derive(Clone, Copy, Debug, PartialEq, Eq, Structural)]
pub struct CacheSweep {
    /// Bytes still held by the cache, as far as the sweep knows.
    pub total: u64,
    pub limit: u64,
}

impl CacheSweep {
    /// A sweep over files of these sizes down to `limit` bytes; a total too
    /// large to count is held as the largest count.
    pub fn start(sizes: &Vec<u64>, limit: u64) -> (r: CacheSweep)
        ensures
            r.limit == limit,
            r.total == (if total_of(sizes@) <= u64::MAX { total_of(sizes@) as u64 } else { u64::MAX }),
    {
        let mut total: u64 = 0;
        let mut exact = true;
        let mut i: usize = 0;
        while i < sizes.len()
            invariant
                i <= sizes.len(),
                exact ==> total == total_of(sizes@.subrange(0, i as int)),
                !exact ==> total == u64::MAX && total_of(sizes@.subrange(0, i as int)) > u64::MAX,
            decreases sizes.len() - i,
        {
            proof {
                assert(sizes@.subrange(0, i + 1).drop_last() =~= sizes@.subrange(0, i as int));
            }
            if exact {
                match total.checked_add(sizes[i]) {
                    Some(t) => total = t,
                    None => {
                        total = u64::MAX;
                        exact = false;
                    },
                }
            }
            i += 1;
        }
        proof {
            assert(sizes@.subrange(0, sizes@.len() as int) =~= sizes@);
        }
        CacheSweep { total, limit }
    }

    /// Whether the next-oldest file must go.
    pub fn over_limit(&self) -> (r: bool)
        ensures
            r == (self.total > self.limit),
    {
        self.total > self.limit
    }

    /// A file of `len` bytes was removed.
    pub fn removed(&mut self, len: u64)
        ensures
            final(self).limit == old(self).limit,
            final(self).total == (if old(self).total >= len { old(self).total - len } else { 0 }),
    {
        self.total = self.total.saturating_sub(len);
    }
}

} // verus!
