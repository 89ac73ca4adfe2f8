use flate2::write::{GzEncoder, ZlibEncoder};
use flate2::Compression as Level;
use flowgger::config::{Config, ConfigValue};
use flowgger::record::Record;
use flowgger::udp_input::{
    decompress, detect, handle_record, handle_record_maybe_compressed, Compression, Decoder,
    Encoder, UdpInput,
};
use std::io::Write;

const LINE: &[u8] = b"<13>1 2015-08-05T15:53:45Z host app - - - a syslog line";

fn zlib(p: &[u8]) -> Vec<u8> {
    let mut e = ZlibEncoder::new(Vec::new(), Level::default());
    e.write_all(p).unwrap();
    e.finish().unwrap()
}

fn gzip(p: &[u8]) -> Vec<u8> {
    let mut e = GzEncoder::new(Vec::new(), Level::default());
    e.write_all(p).unwrap();
    e.finish().unwrap()
}

struct LineDecoder;

impl Decoder for LineDecoder {
    fn decode(&self, line: &str) -> Result<Record, &'static str> {
        if line.is_empty() {
            return Err("empty");
        }
        Ok(Record {
            ts: 1.0f64.to_bits(),
            hostname: "h".to_string(),
            facility: None,
            severity: None,
            appname: None,
            procid: None,
            msgid: None,
            msg: Some(line.to_string()),
            full_msg: None,
            sd: None,
        })
    }
}

struct MsgEncoder;

impl Encoder for MsgEncoder {
    fn encode(&self, record: Record) -> Result<Vec<u8>, &'static str> {
        Ok(record.msg.unwrap_or_default().into_bytes())
    }
}

#[test]
fn detect_zlib_decompresses_to_plaintext() {
    let z = zlib(LINE);
    assert_eq!(&z[..2], &[0x78, 0x9c]);
    assert_eq!(detect(&z), Compression::Zlib);
    assert_eq!(decompress(&z).unwrap(), LINE.to_vec());
    assert_eq!(
        handle_record_maybe_compressed(&z, &LineDecoder, &MsgEncoder).unwrap(),
        LINE.to_vec()
    );
}

#[test]
fn detect_gzip_decompresses_to_plaintext() {
    let g = gzip(LINE);
    assert_eq!(detect(&g), Compression::Gzip);
    assert_eq!(decompress(&g).unwrap(), LINE.to_vec());
}

#[test]
fn plaintext_passes_through() {
    assert_eq!(detect(LINE), Compression::Plain);
    assert_eq!(decompress(LINE).unwrap(), LINE.to_vec());
    assert_eq!(decompress(b"").unwrap(), Vec::<u8>::new());
}

#[test]
fn short_magic_is_plain() {
    let short = [0x78, 0x9c, 1, 2, 3, 4, 5];
    assert_eq!(detect(&short), Compression::Plain);
    let gz_short = [0x1f, 0x8b, 0x08, 0, 0, 0, 0, 0, 0, 0, 0, 0, 0, 0, 0, 0, 0, 0, 0, 0, 0, 0, 0];
    assert_eq!(detect(&gz_short), Compression::Plain);
}

#[test]
fn corrupt_streams_are_rejected() {
    let bad = [0x78, 0x01, 0xff, 0xff, 0xff, 0xff, 0xff, 0xff, 0xff];
    assert_eq!(decompress(&bad).unwrap_err(), "Corrupted compressed (zlib) record");
    let mut badgz = vec![0x1f, 0x8b, 0x08];
    badgz.extend(std::iter::repeat(0xffu8).take(30));
    assert_eq!(decompress(&badgz).unwrap_err(), "Corrupted compressed (gzip) record");
}

#[test]
fn invalid_utf8_is_rejected() {
    let bytes = [b'a', 0xff, 0xfe];
    assert_eq!(
        handle_record(&bytes, &LineDecoder, &MsgEncoder).unwrap_err(),
        "Invalid UTF-8 input"
    );
    assert_eq!(handle_record(b"", &LineDecoder, &MsgEncoder).unwrap_err(), "empty");
    assert_eq!(handle_record(b"ok", &LineDecoder, &MsgEncoder).unwrap(), b"ok".to_vec());
}

#[test]
fn udp_listen_default_and_configured() {
    let input = UdpInput::new(&Config { entries: Vec::new() });
    assert_eq!(input.listen(), "0.0.0.0:514");
    let config = Config {
        entries: vec![
            ("input.type".to_string(), ConfigValue::Str("udp".to_string())),
            ("input.listen".to_string(), ConfigValue::Str("127.0.0.1:5514".to_string())),
            ("input.listen".to_string(), ConfigValue::Str("ignored".to_string())),
        ],
    };
    assert_eq!(UdpInput::new(&config).listen(), "127.0.0.1:5514");
}
