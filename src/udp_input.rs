use vstd::prelude::*;
use std::io::Read;
use crate::config::{str_or_absent, Config, ConfigValue};
use crate::record::Record;

verus! {

/// The address a datagram input listens on unless configured otherwise.
pub const DEFAULT_LISTEN: &'static str = "0.0.0.0:514";

/// The largest datagram payload read.
pub const MAX_UDP_PACKET_SIZE: usize = 65_527;

/// Parses one text line into a record.
pub trait Decoder {
    fn decode(&self, line: &str) -> Result<Record, &'static str>;
}

/// Serializes a record into output bytes.
pub trait Encoder {
    fn encode(&self, record: Record) -> Result<Vec<u8>, &'static str>;
}

/// The bytes that the zlib stream `b` inflates to, or none when it is corrupt.
pub uninterp spec fn zlib_inflated(b: Seq<u8>) -> Option<Seq<u8>>;

/// The bytes that the gzip stream `b` inflates to, or none when it is corrupt.
pub uninterp spec fn gzip_inflated(b: Seq<u8>) -> Option<Seq<u8>>;

/// The text that the bytes `b` hold, or none when they are not valid UTF-8.
pub uninterp spec fn utf8_decoded(b: Seq<u8>) -> Option<Seq<char>>;

/// The view of optional bytes.
pub open spec fn opt_bytes(o: Option<Vec<u8>>) -> Option<Seq<u8>> {
    match o {
        Some(v) => Some(v@),
        None => None,
    }
}

/// Relies on `flate2::read::ZlibDecoder` read to the end: the inflated bytes,
/// or none when the stream is corrupt.
#[verifier::external_body]
fn inflate_zlib(b: &[u8]) -> (r: Option<Vec<u8>>)
    ensures
        opt_bytes(r) == zlib_inflated(b@),
{
    let mut out = Vec::new();
    match flate2::read::ZlibDecoder::new(b).read_to_end(&mut out) {
        Ok(_) => Some(out),
        Err(_) => None,
    }
}

/// Relies on `flate2::read::GzDecoder` read to the end: the inflated bytes, or
/// none when the stream is corrupt.
#[verifier::external_body]
fn inflate_gzip(b: &[u8]) -> (r: Option<Vec<u8>>)
    ensures
        opt_bytes(r) == gzip_inflated(b@),
{
    let mut out = Vec::new();
    match flate2::read::GzDecoder::new(b).read_to_end(&mut out) {
        Ok(_) => Some(out),
        Err(_) => None,
    }
}

/// Relies on `std::str::from_utf8`: the text the bytes hold, or none when
/// they are not valid UTF-8.
#[verifier::external_body]
fn utf8_text(b: &[u8]) -> (r: Option<&str>)
    ensures
        match r {
            Some(s) => utf8_decoded(b@) == Some(s@),
            None => utf8_decoded(b@) is None,
        },
{
    std::str::from_utf8(b).ok()
}

/// How a datagram is compressed, as told by its first bytes.
#[derive(Clone, Copy, Debug, PartialEq, Eq)]
pub enum Compression {
    Zlib,
    Gzip,
    Plain,
}

/// A zlib stream of at least 8 bytes opens with 0x78 and then 0x01, 0x9c or
/// 0xda; a gzip stream of at least 24 bytes opens with 0x1f 0x8b 0x08;
/// anything else is plain.
pub open spec fn compression_of(b: Seq<u8>) -> Compression {
    if b.len() >= 8 && b[0] == 0x78 && (b[1] == 0x01 || b[1] == 0x9c || b[1] == 0xda) {
        Compression::Zlib
    } else if b.len() >= 24 && b[0] == 0x1f && b[1] == 0x8b && b[2] == 0x08 {
        Compression::Gzip
    } else {
        Compression::Plain
    }
}

/// The payload a datagram carries: inflated when compressed, as it stands
/// when plain.
pub open spec fn decompressed(b: Seq<u8>) -> Result<Seq<u8>, &'static str> {
    match compression_of(b) {
        Compression::Zlib => match zlib_inflated(b) {
            Some(p) => Ok(p),
            None => Err("Corrupted compressed (zlib) record"),
        },
        Compression::Gzip => match gzip_inflated(b) {
            Some(p) => Ok(p),
            None => Err("Corrupted compressed (gzip) record"),
        },
        Compression::Plain => Ok(b),
    }
}

/// The view of a result holding bytes.
pub open spec fn result_bytes(r: Result<Vec<u8>, &'static str>) -> Result<Seq<u8>, &'static str> {
    match r {
        Ok(v) => Ok(v@),
        Err(e) => Err(e),
    }
}

/// How `line` is compressed.
pub fn detect(line: &[u8]) -> (r: Compression)
    ensures
        r == compression_of(line@),
{
    if line.len() >= 8 && line[0] == 0x78 && (line[1] == 0x01 || line[1] == 0x9c || line[1]
        == 0xda) {
        Compression::Zlib
    } else if line.len() >= 24 && line[0] == 0x1f && line[1] == 0x8b && line[2] == 0x08 {
        Compression::Gzip
    } else {
        Compression::Plain
    }
}

/// The payload of a datagram: inflated when its first bytes mark it as zlib
/// or gzip, as it stands otherwise.
pub fn decompress(line: &[u8]) -> (r: Result<Vec<u8>, &'static str>)
    ensures
        result_bytes(r) == decompressed(line@),
{
    match detect(line) {
        Compression::Zlib => match inflate_zlib(line) {
            Some(p) => Ok(p),
            None => Err("Corrupted compressed (zlib) record"),
        },
        Compression::Gzip => match inflate_gzip(line) {
            Some(p) => Ok(p),
            None => Err("Corrupted compressed (gzip) record"),
        },
        Compression::Plain => {
            let mut v: Vec<u8> = Vec::new();
            let mut i: usize = 0;
            while i < line.len()
                invariant
                    i <= line@.len(),
                    v@ == line@.subrange(0, i as int),
                decreases line@.len() - i,
            {
                v.push(line[i]);
                i = i + 1;
            }
            assert(line@.subrange(0, i as int) =~= line@);
            Ok(v)
        },
    }
}

/// Decodes a text payload and encodes the record: bytes that are not UTF-8
/// give "Invalid UTF-8 input"; otherwise the decoder's error, the encoder's
/// error, or the encoded record.
pub fn handle_record<D: Decoder, E: Encoder>(line: &[u8], decoder: &D, encoder: &E) -> (r: Result<
    Vec<u8>,
    &'static str,
>)
    ensures
        utf8_decoded(line@) is None ==> r == Err::<Vec<u8>, &'static str>("Invalid UTF-8 input"),
{
    let text = match utf8_text(line) {
        None => return Err("Invalid UTF-8 input"),
        Some(t) => t,
    };
    let decoded = decoder.decode(text)?;
    encoder.encode(decoded)
}

/// Decompresses a datagram, then decodes and encodes it as [`handle_record`]
/// does; a corrupt compressed datagram gives the decompression error.
pub fn handle_record_maybe_compressed<D: Decoder, E: Encoder>(
    line: &[u8],
    decoder: &D,
    encoder: &E,
) -> (r: Result<Vec<u8>, &'static str>)
    ensures
        decompressed(line@) is Err ==> r == Err::<Vec<u8>, &'static str>(
            decompressed(line@)->Err_0,
        ),
        decompressed(line@) is Ok && utf8_decoded(decompressed(line@)->Ok_0) is None ==> r == Err::<
            Vec<u8>,
            &'static str,
        >("Invalid UTF-8 input"),
{
    let payload = decompress(line)?;
    handle_record(payload.as_slice(), decoder, encoder)
}

/// A datagram input.
pub struct UdpInput {
    listen: String,
}

impl UdpInput {
    /// The address this input listens on.
    pub closed spec fn spec_listen(&self) -> Seq<char> {
        self.listen@
    }

    /// Reads `input.listen`, a `host:port` string (default "0.0.0.0:514").
    pub fn new(config: &Config) -> (r: UdpInput)
        requires
            str_or_absent(config.spec_lookup("input.listen"@)),
        ensures
            r.spec_listen() == match config.spec_lookup("input.listen"@) {
                Some(ConfigValue::Str(s)) => s@,
                _ => DEFAULT_LISTEN@,
            },
    {
        UdpInput { listen: config.str_or("input.listen", DEFAULT_LISTEN) }
    }

    /// The address this input listens on.
    pub fn listen(&self) -> (r: &str)
        ensures
            r@ == self.spec_listen(),
    {
        self.listen.as_str()
    }
}

/// A datagram without the zlib or gzip opening bytes is handed on as it
/// stands.
pub proof fn lemma_plain_passes_through(p: Seq<u8>)
    requires
        compression_of(p) == Compression::Plain,
    ensures
        decompressed(p) == Ok::<Seq<u8>, &'static str>(p),
{
}

} // verus!
