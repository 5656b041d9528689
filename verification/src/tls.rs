//! Framing of TLS records by their five-byte header.

use vstd::prelude::*;

verus! {

/// Content type of an alert record.
pub const TLS_ALERT: u8 = 0x15;

/// Content type of an application-data record.
pub const TLS_APPLICATION_CONTENT: u8 = 0x17;

/// Protocol version field of TLS 1.2.
pub const TLS_V_1_2: u16 = 0x0303;

/// Number of bytes in a record header.
pub const TLS_HEADER_SIZE: usize = 5;

/// The unencrypted header that opens every TLS record.
#[derive(Debug, Clone, Copy, PartialEq, Eq, Structural)]
pub struct Header {
    /// Tag of the record's content (offset 0).
    pub content_type: u8,
    /// Protocol version, big-endian on the wire (offsets 1 and 2).
    pub version: u16,
    /// Number of payload bytes that follow the header, big-endian on the wire
    /// (offsets 3 and 4).
    pub content_len: u16,
}

/// The number that two bytes denote in network byte order.
pub open spec fn be16(hi: u8, lo: u8) -> int {
    hi as int * 256 + lo as int
}

/// The header that the first five bytes of `bytes` encode.
pub open spec fn header_of(bytes: Seq<u8>) -> Header
    recommends
        bytes.len() >= TLS_HEADER_SIZE,
{
    Header {
        content_type: bytes[0],
        version: be16(bytes[1], bytes[2]) as u16,
        content_len: be16(bytes[3], bytes[4]) as u16,
    }
}

/// Two bytes in network byte order, as a number.
fn decode_be16(hi: u8, lo: u8) -> (n: u16)
    ensures
        n as int == be16(hi, lo),
{
    let n: u16 = ((hi as u16) << 8) | (lo as u16);
    assert(((hi as u16) << 8) | (lo as u16) == (hi as u16) * 256 + (lo as u16)) by (bit_vector);
    n
}

/// Reads the header at the start of `buffer`.
///
/// The caller has to hold at least five bytes: a shorter buffer has no header,
/// and there is no default to fall back on.
pub fn read_header(buffer: &[u8]) -> (header: Header)
    requires
        buffer@.len() >= TLS_HEADER_SIZE,
    ensures
        header == header_of(buffer@),
        header.content_type == buffer@[0],
        header.version as int == be16(buffer@[1], buffer@[2]),
        header.content_len as int == be16(buffer@[3], buffer@[4]),
{
    Header {
        content_type: buffer[0],
        version: decode_be16(buffer[1], buffer[2]),
        content_len: decode_be16(buffer[3], buffer[4]),
    }
}

impl Header {
    /// Length of the whole record on the wire: the header and its payload.
    pub open spec fn record_size(self) -> nat {
        (TLS_HEADER_SIZE + self.content_len) as nat
    }

    /// Whether the header opens a TLS 1.2 application-data record.
    pub open spec fn opens_application_data(self) -> bool {
        self.version == TLS_V_1_2 && self.content_type == TLS_APPLICATION_CONTENT
    }

    /// Whether the header opens a TLS 1.2 alert record.
    pub open spec fn opens_alert(self) -> bool {
        self.version == TLS_V_1_2 && self.content_type == TLS_ALERT
    }

    /// Number of bytes to pull from the stream to hold the whole record,
    /// header included.
    pub fn record_total_size(&self) -> (size: usize)
        ensures
            size == self.record_size(),
            size == 5 + self.content_len,
    {
        let payload: usize = self.content_len as usize;
        TLS_HEADER_SIZE + payload
    }

    /// Tells whether this is the header of a TLS 1.2 application-data record.
    pub fn is_application_data(&self) -> (yes: bool)
        ensures
            yes == self.opens_application_data(),
    {
        self.version == TLS_V_1_2 && self.content_type == TLS_APPLICATION_CONTENT
    }

    /// Tells whether this is the header of a TLS 1.2 alert record.
    pub fn is_alert(&self) -> (yes: bool)
        ensures
            yes == self.opens_alert(),
    {
        self.version == TLS_V_1_2 && self.content_type == TLS_ALERT
    }
}

/// Whether a chunk is long enough to show a header, and that header opens a
/// TLS 1.2 application-data record.
pub open spec fn opens_application_record(chunk: Seq<u8>) -> bool {
    chunk.len() >= TLS_HEADER_SIZE && header_of(chunk).opens_application_data()
}

/// Whether a chunk is long enough to show a header, and that header opens a
/// TLS 1.2 alert record.
pub open spec fn opens_alert_record(chunk: Seq<u8>) -> bool {
    chunk.len() >= TLS_HEADER_SIZE && header_of(chunk).opens_alert()
}

/// Whether `record` is one whole record: its header and exactly the payload
/// that the header announces.
pub open spec fn is_complete_record(record: Seq<u8>) -> bool {
    record.len() >= TLS_HEADER_SIZE && record.len() == header_of(record).record_size()
}

/// Looks for a header at the start of a chunk of any length.
///
/// A chunk of fewer than five bytes shows no header and is left
/// unclassified; any longer chunk yields the header of its first five bytes.
pub fn peek_header(chunk: &[u8]) -> (seen: Option<Header>)
    ensures
        chunk@.len() < TLS_HEADER_SIZE ==> seen is None,
        chunk@.len() >= TLS_HEADER_SIZE ==> seen == Some(header_of(chunk@)),
{
    if chunk.len() >= TLS_HEADER_SIZE {
        Some(read_header(chunk))
    } else {
        None
    }
}

/// The two-byte fields of a header are read in network byte order, and the
/// record that a header announces is five bytes longer than its payload.
pub proof fn lemma_header_fields(bytes: Seq<u8>)
    requires
        bytes.len() >= TLS_HEADER_SIZE,
    ensures
        header_of(bytes).content_type == bytes[0],
        header_of(bytes).version == bytes[1] * 256 + bytes[2],
        header_of(bytes).content_len == bytes[3] * 256 + bytes[4],
        header_of(bytes).record_size() == 5 + header_of(bytes).content_len,
        5 <= header_of(bytes).record_size() <= 5 + 0xffff,
{
}

} // verus!
