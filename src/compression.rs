use vstd::prelude::*;
use vstd::slice::slice_to_vec;

use std::io::Read;
use std::io::Write;

verus! {

/// `std::io::Error`, carried through unopened as the cause of a codec failure.
#[verifier::external_type_specification]
#[verifier::external_body]
pub struct ExIoError(std::io::Error);

/// Errors of the codec.
#[derive(Debug)]
pub enum CompressionError {
    /// The payload could not be encoded or decoded.
    IOError(std::io::Error),
}

/// The supported codecs.
#[derive(Clone, Copy, Debug, PartialEq, Eq, Structural)]
pub enum Compression {
    Gzip,
}

/// The gzip stream that flate2 writes for the given bytes at its default level.
pub uninterp spec fn gzip_of(b: Seq<u8>) -> Seq<u8>;

/// What flate2 decodes from a gzip stream, or `None` where the stream is malformed.
pub uninterp spec fn gunzip_of(b: Seq<u8>) -> Option<Seq<u8>>;

/// Relies on flate2's `write::GzEncoder` at the default level, writing into a `Vec`:
/// the stream it produces depends on the input bytes alone (fixed header), and writing
/// into a `Vec` does not fail.
#[verifier::external_body]
fn gzip_compress(bytes: &[u8]) -> (r: Result<Vec<u8>, std::io::Error>)
    ensures
        r is Ok && r->Ok_0@ == gzip_of(bytes@),
{
    let mut encoder = flate2::write::GzEncoder::new(Vec::new(), flate2::Compression::default());
    encoder.write_all(bytes)?;
    encoder.finish()
}

/// A gzip stream begins with a ten-byte header whose first two bytes are `0x1f 0x8b`.
pub open spec fn has_gzip_header(b: Seq<u8>) -> bool {
    b.len() >= 10 && b[0] == 0x1f && b[1] == 0x8b
}

/// Relies on flate2's `read::GzDecoder` read to the end: it fails exactly on malformed
/// streams (among them those without a full header and the identification bytes), and
/// gives back the bytes that `GzEncoder` encoded.
#[verifier::external_body]
fn gzip_decompress(bytes: &[u8]) -> (r: Result<Vec<u8>, std::io::Error>)
    ensures
        r is Ok <==> gunzip_of(bytes@) is Some,
        r is Ok ==> r->Ok_0@ == gunzip_of(bytes@)->Some_0,
        forall|x: Seq<u8>| #[trigger] gzip_of(x) == bytes@ ==> r is Ok && r->Ok_0@ == x,
        !has_gzip_header(bytes@) ==> r is Err,
{
    let mut decoder = flate2::read::GzDecoder::new(bytes);
    let mut out = Vec::new();
    decoder.read_to_end(&mut out)?;
    Ok(out)
}

/// Strips every trailing separator and every trailing `/.` component, which name
/// no file of their own.
pub open spec fn trim_separators(s: Seq<char>) -> Seq<char>
    decreases s.len(),
{
    if s.len() > 0 && s.last() == '/' {
        trim_separators(s.drop_last())
    } else if ends_with_current_dir(s) {
        trim_separators(s.subrange(0, s.len() - 2))
    } else {
        s
    }
}

/// `s` ends with a `.` component that follows a separator.
pub open spec fn ends_with_current_dir(s: Seq<char>) -> bool {
    s.len() >= 2 && s.last() == '.' && s[s.len() - 2] == '/'
}

/// The last component of the path `s` (trailing separators and `.` components aside)
/// has the extension `e` (which holds no `.` or `/`): it ends with `.` and `e`, and
/// something precedes that dot within the component.
pub open spec fn has_extension(s: Seq<char>, e: Seq<char>) -> bool {
    ends_with_extension(trim_separators(s), e)
}

/// `t` ends with `.` and `e`, and the dot follows something other than a separator.
pub open spec fn ends_with_extension(t: Seq<char>, e: Seq<char>) -> bool {
    &&& t.len() >= e.len() + 2
    &&& t.subrange(t.len() - e.len(), t.len() as int) == e
    &&& t[t.len() - e.len() - 1] == '.'
    &&& t[t.len() - e.len() - 2] != '/'
}

pub open spec fn gz_ext() -> Seq<char> {
    seq!['g', 'z']
}

pub open spec fn gzip_ext() -> Seq<char> {
    seq!['g', 'z', 'i', 'p']
}

impl Compression {
    /// The bytes that compressing `x` yields.
    pub open spec fn encoded(self, x: Seq<u8>) -> Seq<u8> {
        match self {
            Compression::Gzip => gzip_of(x),
        }
    }

    /// The bytes that decompressing `x` yields, or `None` where `x` is malformed.
    pub open spec fn decoded(self, x: Seq<u8>) -> Option<Seq<u8>> {
        match self {
            Compression::Gzip => gunzip_of(x),
        }
    }

    /// Compresses `bytes`.
    pub fn compress(&self, bytes: &[u8]) -> (r: Result<Vec<u8>, CompressionError>)
        ensures
            r is Ok && r->Ok_0@ == self.encoded(bytes@),
    {
        match *self {
            Compression::Gzip => match gzip_compress(bytes) {
                Ok(v) => Ok(v),
                Err(e) => Err(CompressionError::IOError(e)),
            },
        }
    }

    /// Decompresses `bytes`; what `compress` produced comes back unchanged.
    pub fn decompress(&self, bytes: &[u8]) -> (r: Result<Vec<u8>, CompressionError>)
        ensures
            r is Ok <==> self.decoded(bytes@) is Some,
            r is Ok ==> r->Ok_0@ == self.decoded(bytes@)->Some_0,
            forall|x: Seq<u8>| #[trigger] self.encoded(x) == bytes@ ==> r is Ok && r->Ok_0@ == x,
            *self == Compression::Gzip && !has_gzip_header(bytes@) ==> r is Err,
    {
        match *self {
            Compression::Gzip => match gzip_decompress(bytes) {
                Ok(v) => Ok(v),
                Err(e) => Err(CompressionError::IOError(e)),
            },
        }
    }

    /// The codec that the extension of the path's last component names, if any.
    pub fn from_extention(path: &str) -> (r: Option<Compression>)
        ensures
            r is Some <==> has_extension(path@, gz_ext()) || has_extension(path@, gzip_ext()),
            r is Some ==> r->Some_0 == Compression::Gzip,
    {
        let n = path.unicode_len();
        let mut end: usize = n;
        assert(path@.subrange(0, n as int) =~= path@);
        while end > 0 && (path.get_char(end - 1) == '/' || (end >= 2 && path.get_char(end - 1)
            == '.' && path.get_char(end - 2) == '/'))
            invariant
                end <= n,
                n == path@.len(),
                trim_separators(path@.subrange(0, end as int)) == trim_separators(path@),
            decreases end,
        {
            let ghost u = path@.subrange(0, end as int);
            if path.get_char(end - 1) == '/' {
                assert(u.drop_last() =~= path@.subrange(0, end - 1));
                end = end - 1;
            } else {
                assert(ends_with_current_dir(u));
                assert(u.subrange(0, u.len() - 2) =~= path@.subrange(0, end - 2));
                end = end - 2;
            }
        }
        assert(!ends_with_current_dir(path@.subrange(0, end as int)));
        let ghost t = path@.subrange(0, end as int);
        assert(trim_separators(t) == t);
        proof {
            reveal_strlit("gz");
            reveal_strlit("gzip");
            assert("gz"@ =~= gz_ext());
            assert("gzip"@ =~= gzip_ext());
        }
        if Self::prefix_has_extension(path, end, "gz") || Self::prefix_has_extension(path, end, "gzip") {
            Some(Compression::Gzip)
        } else {
            None
        }
    }

    fn prefix_has_extension(path: &str, end: usize, ext: &str) -> (r: bool)
        requires
            end <= path@.len(),
        ensures
            r == ends_with_extension(path@.subrange(0, end as int), ext@),
    {
        let ghost t = path@.subrange(0, end as int);
        let m = ext.unicode_len();
        if end < 2 || end - 2 < m {
            return false;
        }
        let start = end - m;
        let mut i: usize = 0;
        while i < m
            invariant
                i <= m,
                m == ext@.len(),
                start + m == end,
                end <= path@.len(),
                t == path@.subrange(0, end as int),
                forall|j: int| 0 <= j < i ==> path@[start + j] == ext@[j],
            decreases m - i,
        {
            if path.get_char(start + i) != ext.get_char(i) {
                assert(t.subrange(start as int, end as int)[i as int] != ext@[i as int]);
                return false;
            }
            i = i + 1;
        }
        assert(t.subrange(start as int, end as int) =~= ext@);
        path.get_char(start - 1) == '.' && path.get_char(start - 2) != '/'
    }
}

/// Decompresses a present payload with the given codec; an absent payload stays absent
/// and a missing codec leaves the payload as it is.
pub fn decompress_opt(data: Option<Vec<u8>>, decompression: Option<Compression>) -> (r: Result<
    Option<Vec<u8>>,
    CompressionError,
>)
    ensures
        data is None ==> r is Ok && r->Ok_0 is None,
        data is Some && decompression is None ==> r is Ok && r->Ok_0 == data,
        data is Some && decompression is Some ==> {
            let c = decompression->Some_0;
            let x = data->Some_0@;
            &&& r is Ok <==> c.decoded(x) is Some
            &&& r is Ok ==> r->Ok_0 is Some && r->Ok_0->Some_0@ == c.decoded(x)->Some_0
            &&& forall|y: Seq<u8>| #[trigger] c.encoded(y) == x ==> r is Ok && r->Ok_0->Some_0@ == y
        },
{
    match (data, decompression) {
        (None, _) => Ok(None),
        (Some(contents), None) => Ok(Some(contents)),
        (Some(contents), Some(compression)) => match compression.decompress(contents.as_slice()) {
            Ok(v) => Ok(Some(v)),
            Err(e) => Err(e),
        },
    }
}

/// Compresses the payload with the given codec, or copies it where there is none.
pub fn compress_opt(data: &[u8], compression: Option<Compression>) -> (r: Result<
    Vec<u8>,
    CompressionError,
>)
    ensures
        compression is None ==> r is Ok && r->Ok_0@ == data@,
        compression is Some ==> r is Ok && r->Ok_0@ == compression->Some_0.encoded(data@),
{
    match compression {
        None => Ok(slice_to_vec(data)),
        Some(c) => c.compress(data),
    }
}

} // verus!
