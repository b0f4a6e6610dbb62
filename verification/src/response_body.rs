//! Response bodies of fixed size: their bytes, length and content encoding.
use crate::mime::TiiMimeType;
use crate::tii_error::{TiiError, TiiResult};
use std::io::Read;
use std::io::Write;
use vstd::prelude::*;
use vstd::string::StringSliceAdditionalSpecFns;

verus! {

/// The body of a response.
#[derive(Debug)]
pub struct ResponseBody(ResponseBodyInner);

#[derive(Debug)]
enum ResponseBodyInner {
    /// Fixed length data; the Content-Length header is set from it.
    FixedSizeBinaryData(Vec<u8>),
    /// Fixed length data that is not copied; the Content-Length header is set from it.
    FixedSizeBinaryDataStaticSlice(&'static [u8]),
    /// Fixed length text; the Content-Length header is set from its UTF-8 length.
    FixedSizeTextData(String),
    /// Data that is already in gzip format.
    ExternallyGzippedData(Vec<u8>),
}

/// The model of a body: the bytes that are sent, and whether they are a gzip stream.
pub struct ResponseBodyModel {
    pub gzipped: bool,
    pub bytes: Seq<u8>,
}

impl View for ResponseBody {
    type V = ResponseBodyModel;

    closed spec fn view(&self) -> ResponseBodyModel {
        match self.0 {
            ResponseBodyInner::FixedSizeBinaryData(d) => ResponseBodyModel { gzipped: false, bytes: d@ },
            ResponseBodyInner::FixedSizeBinaryDataStaticSlice(d) => ResponseBodyModel {
                gzipped: false,
                bytes: d@,
            },
            ResponseBodyInner::FixedSizeTextData(t) => ResponseBodyModel {
                gzipped: false,
                bytes: vstd::utf8::encode_utf8(t@),
            },
            ResponseBodyInner::ExternallyGzippedData(d) => ResponseBodyModel { gzipped: true, bytes: d@ },
        }
    }
}

/// What libflate's gzip encoder writes for the data when the header's
/// modification time is zero.
pub uninterp spec fn gzip_compressed(data: Seq<u8>) -> Seq<u8>;

/// Compresses the data into one gzip stream with libflate's `gzip::Encoder`,
/// whose header has modification time zero and no name or comment, so that the
/// output depends on the data alone. The result is named by `gzip_compressed`.
/// The encoder only fails where the writer it writes into fails, and writing
/// into a `Vec` does not fail.
///
/// Decoding what the encoder wrote gives the data back, as the example in the
/// documentation of libflate's `gzip` module shows.
#[verifier::external_body]
fn gzip_in_memory(data: &[u8]) -> (r: Vec<u8>)
    ensures
        r@ == gzip_compressed(data@),
        gzip_decoded(r@) == Some(data@),
{
    let header = libflate::gzip::HeaderBuilder::new().modification_time(0).finish();
    let options = libflate::gzip::EncodeOptions::new().header(header);
    let out = Vec::with_capacity(data.len() + 128);
    let mut encoder = libflate::gzip::Encoder::with_options(out, options).expect("writing into a Vec");
    encoder.write_all(data).expect("writing into a Vec");
    encoder.finish().into_result().expect("writing into a Vec")
}

/// What libflate's `gzip::Decoder` reads from the bytes up to its end, or None
/// where it fails.
pub uninterp spec fn gzip_decoded(data: Seq<u8>) -> Option<Seq<u8>>;

/// Decodes one gzip stream with libflate's `gzip::Decoder`, reading to its end.
/// The error is the one that the decoder gave.
#[verifier::external_body]
fn gunzip(data: &[u8]) -> (r: Result<Vec<u8>, std::io::Error>)
    ensures
        r matches Ok(v) ==> gzip_decoded(data@) == Some(v@),
        r is Err ==> gzip_decoded(data@) is None,
{
    let mut out: Vec<u8> = Vec::new();
    match libflate::gzip::Decoder::new(data) {
        Ok(mut decoder) => match decoder.read_to_end(&mut out) {
            Ok(_) => Ok(out),
            Err(e) => Err(e),
        },
        Err(e) => Err(e),
    }
}

/// The raw bytes of a body, with no content encoding applied: the bytes of a
/// plain body, and what decoding a gzipped body gives (None where that fails).
pub open spec fn raw_bytes_of(b: ResponseBodyModel) -> Option<Seq<u8>> {
    if b.gzipped {
        gzip_decoded(b.bytes)
    } else {
        Some(b.bytes)
    }
}

impl ResponseBody {
    /// A body of the given bytes.
    pub fn from_data(data: Vec<u8>) -> (r: Self)
        ensures
            r@ == (ResponseBodyModel { gzipped: false, bytes: data@ }),
    {
        ResponseBody(ResponseBodyInner::FixedSizeBinaryData(data))
    }

    /// A body of data that is already in gzip format; this is not checked.
    pub fn from_externally_gzipped_data(data_in_gzip_format: Vec<u8>) -> (r: Self)
        ensures
            r@ == (ResponseBodyModel { gzipped: true, bytes: data_in_gzip_format@ }),
    {
        ResponseBody(ResponseBodyInner::ExternallyGzippedData(data_in_gzip_format))
    }

    /// Compresses the data with gzip in memory; the body is the compressed stream,
    /// whose raw bytes are the data.
    pub fn from_data_with_gzip_in_memory(data: &[u8]) -> (r: Self)
        ensures
            r@ == (ResponseBodyModel { gzipped: true, bytes: gzip_compressed(data@) }),
            raw_bytes_of(r@) == Some(data@),
    {
        ResponseBody(ResponseBodyInner::ExternallyGzippedData(gzip_in_memory(data)))
    }

    /// A body of the text, sent as UTF-8.
    pub fn from_string(data: &str) -> (r: Self)
        ensures
            r@ == (ResponseBodyModel { gzipped: false, bytes: data.spec_bytes() }),
    {
        ResponseBody(ResponseBodyInner::FixedSizeTextData(data.to_owned()))
    }

    /// A body of a copy of the bytes.
    pub fn from_slice(data: &[u8]) -> (r: Self)
        ensures
            r@ == (ResponseBodyModel { gzipped: false, bytes: data@ }),
    {
        let mut v: Vec<u8> = Vec::new();
        let mut i: usize = 0;
        while i < data.len()
            invariant
                i <= data@.len(),
                v@ == data@.take(i as int),
            decreases data@.len() - i,
        {
            v.push(data[i]);
            i = i + 1;
            assert(v@ =~= data@.take(i as int));
        }
        assert(data@.take(data@.len() as int) =~= data@);
        ResponseBody(ResponseBodyInner::FixedSizeBinaryData(v))
    }

    /// A body of a static slice, which is not copied.
    pub fn from_static_slice(data: &'static [u8]) -> (r: Self)
        ensures
            r@ == (ResponseBodyModel { gzipped: false, bytes: data@ }),
    {
        ResponseBody(ResponseBodyInner::FixedSizeBinaryDataStaticSlice(data))
    }

    /// Whether the body is a dynamic entity; a fixed body never is.
    pub fn is_entity(&self) -> (r: bool)
        ensures
            !r,
    {
        false
    }

    /// Whether the body is sent in chunked transfer encoding; a fixed body never is.
    pub fn is_chunked(&self) -> (r: bool)
        ensures
            !r,
    {
        false
    }

    /// The Content-Encoding of the body: "gzip" for gzipped data, else none.
    pub fn get_content_encoding(&self) -> (r: Option<&'static str>)
        ensures
            self@.gzipped ==> (r matches Some(s) && s@ == "gzip"@),
            !self@.gzipped ==> r is None,
    {
        match &self.0 {
            ResponseBodyInner::ExternallyGzippedData(_) => Some("gzip"),
            _ => None,
        }
    }

    /// The number of bytes of the body.
    pub fn content_length(&self) -> (r: Option<u64>)
        ensures
            r == Some(self@.bytes.len() as u64),
    {
        Some(self.bytes().len() as u64)
    }

    /// The bytes of the body as they are sent.
    pub fn bytes(&self) -> (r: &[u8])
        ensures
            r@ == self@.bytes,
    {
        match &self.0 {
            ResponseBodyInner::FixedSizeBinaryDataStaticSlice(data) => data,
            ResponseBodyInner::FixedSizeBinaryData(data) => data.as_slice(),
            ResponseBodyInner::FixedSizeTextData(data) => data.as_str().as_bytes(),
            ResponseBodyInner::ExternallyGzippedData(data) => data.as_slice(),
        }
    }
    /// Appends the raw bytes of the body to `out`: the bytes just as the other
    /// side reads them after undoing the content encoding. A gzipped body that
    /// does not decode gives the decoder's IO error, and `out` stays as it was.
    /// The mime type only matters for entities, which a fixed body never is.
    pub fn write_to_raw(self, _mime: &TiiMimeType, out: &mut Vec<u8>) -> (r: TiiResult<()>)
        ensures
            match raw_bytes_of(self@) {
                Some(raw) => r is Ok && final(out)@ == old(out)@ + raw,
                None => r matches Err(e) && e is IO && final(out)@ == old(out)@,
            },
    {
        let decoded: Vec<u8>;
        let raw: &[u8] = match &self.0 {
            ResponseBodyInner::ExternallyGzippedData(data) => {
                match gunzip(data.as_slice()) {
                    Ok(v) => {
                        decoded = v;
                        decoded.as_slice()
                    },
                    Err(e) => return Err(TiiError::IO(e)),
                }
            },
            _ => self.bytes(),
        };
        let ghost start = out@;
        let mut i: usize = 0;
        while i < raw.len()
            invariant
                i <= raw@.len(),
                out@ == start + raw@.take(i as int),
            decreases raw@.len() - i,
        {
            out.push(raw[i]);
            i = i + 1;
            assert(out@ =~= start + raw@.take(i as int));
        }
        assert(raw@.take(raw@.len() as int) =~= raw@);
        Ok(())
    }
}

} // verus!
