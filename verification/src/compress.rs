//! The compressor: a gzip copy of the artifact and the two sizes reported.
//!
//! The stream is made by the `flate2` crate at its default level, with its
//! default header (no name, no time stamp), so that the same artifact always
//! gives the same stream and sizes compare from run to run. The encoder works
//! in memory: whether it succeeds depends on the artifact alone.

use vstd::prelude::*;

verus! {

/// Declares `std::io::Error`, the error of the encoder, as a type that is
/// carried through and never looked into.
#[verifier::external_type_specification]
#[verifier::external_body]
pub struct ExIoError(std::io::Error);

/// What `flate2` makes of `data` at its default compression level and with
/// its default header: the gzip stream, or `None` where its encoder reports
/// an error.
pub uninterp spec fn gzip_stream(data: Seq<u8>) -> Option<Seq<u8>>;

/// Runs `flate2::write::GzEncoder` over `data`: a new encoder at
/// `Compression::default()` on an empty vector, one `write_all` of the data,
/// then `finish`. The contract is not proved. It claims that the encoder's
/// answer is a function of the data alone: a stream that is handed back is
/// the named stream of the data, and an error comes exactly where the data
/// has no such stream. It promises no success.
#[verifier::external_body]
fn gzip_encode(data: &[u8]) -> (encoded: Result<Vec<u8>, std::io::Error>)
    ensures
        match encoded {
            Ok(bytes) => gzip_stream(data@) == Some(bytes@),
            Err(_) => gzip_stream(data@) is None,
        },
{
    let mut encoder = flate2::write::GzEncoder::new(Vec::new(), flate2::Compression::default());
    match std::io::Write::write_all(&mut encoder, data) {
        Ok(()) => encoder.finish(),
        Err(error) => Err(error),
    }
}

/// The compressor failed.
#[derive(Clone, Copy, Debug, PartialEq, Eq, Structural)]
pub enum CompressError {
    /// The encoder reported an error while writing the stream.
    Encoder,
}

/// A compressed artifact and the sizes that go into the report.
#[derive(Clone, Debug, PartialEq, Eq)]
pub struct Compressed {
    /// The gzip stream.
    pub bytes: Vec<u8>,
    /// Size of the artifact, in bytes.
    pub size: u64,
    /// Size of the gzip stream, in bytes.
    pub size_gzipped: u64,
}

/// Puts the encoder's answer for `data` together with the two sizes: of the
/// data and of the stream. An encoder error becomes `CompressError::Encoder`.
pub fn sized(data: &[u8], encoded: Result<Vec<u8>, std::io::Error>) -> (result: Result<
    Compressed,
    CompressError,
>)
    ensures
        match encoded {
            Ok(bytes) => result matches Ok(compressed) && compressed.bytes == bytes
                && compressed.size == data@.len() && compressed.size_gzipped == bytes@.len(),
            Err(_) => result == Err::<Compressed, CompressError>(CompressError::Encoder),
        },
{
    match encoded {
        Ok(bytes) => {
            let size = data.len() as u64;
            let size_gzipped = bytes.len() as u64;
            Ok(Compressed { bytes, size, size_gzipped })
        },
        Err(_) => Err(CompressError::Encoder),
    }
}

/// Compresses the artifact `data` and reports both sizes.
///
/// The compressor succeeds exactly where the encoder has a stream for the
/// data. What comes back is then that stream, and the sizes are the byte
/// counts of the data and of the stream.
pub fn compress(data: &[u8]) -> (result: Result<Compressed, CompressError>)
    ensures
        match result {
            Ok(compressed) => {
                &&& gzip_stream(data@) == Some(compressed.bytes@)
                &&& compressed.size == data@.len()
                &&& compressed.size_gzipped == compressed.bytes@.len()
            },
            Err(error) => error == CompressError::Encoder && gzip_stream(data@) is None,
        },
{
    let encoded = gzip_encode(data);
    sized(data, encoded)
}

} // verus!
