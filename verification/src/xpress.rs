//! Express: a response body with its content type, cache lifetime,
//! compression and streaming choice, and the headers and (compressed) body
//! that it is answered with.
use vstd::prelude::*;
use std::io::Read;
use crate::text::{decimal, push_decimal};

verus! {

/// Seconds a response may be cached unless set otherwise: one hour.
pub const DEFAULT_TTL: usize = 3600;  // 1*60*60 = 1 hour, 43200=1/2 day, 86400=1 day

/// The compression a response body is sent with.
#[derive(Debug, Clone, Copy, PartialEq, Eq, Structural)]
pub enum CompressionEncoding {
    Brotli,
    Gzip,
    Defalte,
    Uncompressed,
}

/// The content type of a response.
#[derive(Debug, Clone, PartialEq, Eq)]
pub enum ContentType {
    /// HTML text.
    HTML,
    /// Plain text.
    Plain,
    /// XML text.
    XML,
    /// Another type, by the text of its `Content-Type` header.
    Media(String),
}

// ---------------------------------------------------------------------------
// What the outside crates compute.

/// The `Content-Type` text of the media type that Rocket associates with a
/// file extension, when it knows one.
pub uninterp spec fn rocket_media_for_extension(ext: Seq<char>) -> Option<Seq<char>>;

/// The extension of the last component of a file path, as
/// `std::path::Path::extension` finds it.
pub uninterp spec fn path_extension(path: Seq<char>) -> Option<Seq<char>>;

/// The Brotli stream that `brotli::CompressorReader` produces from `data`
/// with the given buffer size, quality and window.
pub uninterp spec fn brotli_stream(data: Seq<u8>, buffer_size: usize, quality: u32, lgwin: u32) -> Seq<
    u8,
>;

/// The stream that `zopfli::compress` produces from `data` with default
/// options, in the gzip format when `gzip`, else as raw DEFLATE.
pub uninterp spec fn zopfli_stream(data: Seq<u8>, gzip: bool) -> Seq<u8>;

/// `rocket::http::ContentType::from_extension`, the type's header text
/// taken by `to_string`. The contract claims that the text is Rocket's
/// association for `ext` and says no more of it.
#[verifier::external_body]
fn media_for_extension(ext: &str) -> (r: Option<String>)
    ensures
        match r {
            Some(t) => rocket_media_for_extension(ext@) == Some(t@),
            None => rocket_media_for_extension(ext@) is None,
        },
{
    match rocket::http::ContentType::from_extension(ext) {
        Some(ct) => Some(ct.to_string()),
        None => None,
    }
}

/// `std::path::Path::extension` of `path`, as text. The contract claims
/// only that the result is the path's extension.
#[verifier::external_body]
fn extension_of(path: &str) -> (r: Option<String>)
    ensures
        match r {
            Some(e) => path_extension(path@) == Some(e@),
            None => path_extension(path@) is None,
        },
{
    match std::path::Path::new(path).extension() {
        Some(e) => Some(e.to_string_lossy().into_owned()),
        None => None,
    }
}

/// `rocket::http::ContentType::HTML` as header text; Rocket's source
/// writes it `text/html; charset=utf-8`.
#[verifier::external_body]
fn rocket_html_text() -> (r: String)
    ensures
        r@ == html_media(),
{
    rocket::http::ContentType::HTML.to_string()
}

/// `rocket::http::ContentType::Plain` as header text; Rocket's source
/// writes it `text/plain; charset=utf-8`.
#[verifier::external_body]
fn rocket_plain_text() -> (r: String)
    ensures
        r@ == plain_media(),
{
    rocket::http::ContentType::Plain.to_string()
}

/// `rocket::http::ContentType::XML` as header text; Rocket's source
/// writes it `text/xml; charset=utf-8`.
#[verifier::external_body]
fn rocket_xml_text() -> (r: String)
    ensures
        r@ == xml_media(),
{
    rocket::http::ContentType::XML.to_string()
}

/// Reads `brotli::CompressorReader::new(data, buffer_size, quality, lgwin)`
/// to its end. The contract claims the output is the Brotli stream of those
/// arguments and says nothing of its form.
#[verifier::external_body]
fn brotli_compress(data: &[u8], buffer_size: usize, quality: u32, lgwin: u32) -> (out: Vec<u8>)
    ensures
        out@ == brotli_stream(data@, buffer_size, quality, lgwin),
{
    let mut out: Vec<u8> = Vec::new();
    let mut compressor = brotli::CompressorReader::new(data, buffer_size, quality, lgwin);
    let _ = compressor.read_to_end(&mut out);
    out
}

/// `zopfli::compress` with default options into a vector, in the gzip format
/// when `gzip` and as raw DEFLATE otherwise. The contract claims the output
/// is that stream and, for gzip, that it opens with the fixed header bytes
/// 31, 139, 8 that zopfli writes first.
#[verifier::external_body]
fn zopfli_compress(data: &[u8], gzip: bool) -> (out: Vec<u8>)
    ensures
        out@ == zopfli_stream(data@, gzip),
        gzip ==> out@.len() >= 10 && out@[0] == 31 && out@[1] == 139 && out@[2] == 8,
{
    let format = if gzip {
        zopfli::Format::Gzip
    } else {
        zopfli::Format::Deflate
    };
    let mut out: Vec<u8> = Vec::new();
    let _ = zopfli::compress(zopfli::Options::default(), format, data, &mut out);
    out
}

// ---------------------------------------------------------------------------

pub open spec fn html_media() -> Seq<char> {
    "text/html; charset=utf-8"@
}

pub open spec fn plain_media() -> Seq<char> {
    "text/plain; charset=utf-8"@
}

pub open spec fn xml_media() -> Seq<char> {
    "text/xml; charset=utf-8"@
}

impl ContentType {
    /// The text of the `Content-Type` header.
    pub open spec fn header_text(&self) -> Seq<char> {
        match self {
            ContentType::HTML => html_media(),
            ContentType::Plain => plain_media(),
            ContentType::XML => xml_media(),
            ContentType::Media(t) => t@,
        }
    }

    /// The content type of a file with extension `ext`: Rocket's type for
    /// the extension, or plain text when it knows none.
    pub fn from_extension(ext: &str) -> (r: ContentType)
        ensures
            r.header_text() == match rocket_media_for_extension(ext@) {
                Some(t) => t,
                None => plain_media(),
            },
    {
        match media_for_extension(ext) {
            Some(t) => ContentType::Media(t),
            None => ContentType::Plain,
        }
    }

    /// The text of the `Content-Type` header.
    pub fn to_header(&self) -> (r: String)
        ensures
            r@ == self.header_text(),
    {
        match self {
            ContentType::HTML => rocket_html_text(),
            ContentType::Plain => rocket_plain_text(),
            ContentType::XML => rocket_xml_text(),
            ContentType::Media(t) => t.clone(),
        }
    }
}

/// Bytes to send as they are.
#[derive(Debug, Clone)]
pub struct DataBytes(pub Vec<u8>);

/// A file to read, by its path.
#[derive(Debug, Clone)]
pub struct DataFile(pub String);

/// A file already opened by name, by its path.
#[derive(Debug, Clone)]
pub struct DataNamed(pub String);

/// Text to send as it is.
#[derive(Debug, Clone)]
pub struct DataString(pub String);

/// A rendered template.
#[derive(Debug, Clone)]
pub struct DataTemplate(pub String);

/// The body of a response.
#[derive(Debug, Clone)]
pub enum ExData {
    Bytes(DataBytes),
    File(DataFile),
    Named(DataNamed),
    String(DataString),
    Template(DataTemplate),
}

/// The header text of the content type that a body is sent with unless set
/// otherwise: by the extension for files, HTML for everything else.
pub open spec fn default_media(data: ExData) -> Seq<char> {
    match data {
        ExData::File(DataFile(p)) => file_media(p@),
        ExData::Named(DataNamed(p)) => file_media(p@),
        _ => html_media(),
    }
}

/// The header text of the content type of the file at `path`.
pub open spec fn file_media(path: Seq<char>) -> Seq<char> {
    let ext = match path_extension(path) {
        Some(e) => e,
        None => Seq::empty(),
    };
    match rocket_media_for_extension(ext) {
        Some(t) => t,
        None => plain_media(),
    }
}

/// The content of a body that needs no reading: the bytes, or the UTF-8
/// encoding of the text; `None` for a file.
pub open spec fn memory_contents(data: ExData) -> Option<Seq<u8>> {
    match data {
        ExData::Bytes(DataBytes(b)) => Some(b@),
        ExData::String(DataString(s)) => Some(vstd::utf8::encode_utf8(s@)),
        ExData::Template(DataTemplate(s)) => Some(vstd::utf8::encode_utf8(s@)),
        _ => None,
    }
}

impl ExData {
    /// The content type this body is sent with unless set otherwise.
    pub fn content_type(&self) -> (r: ContentType)
        ensures
            r.header_text() == default_media(*self),
            !(*self is File || *self is Named) ==> r == ContentType::HTML,
    {
        match self {
            ExData::Bytes(_) => ContentType::HTML,
            ExData::File(DataFile(path)) => file_content_type(path.as_str()),
            ExData::Named(DataNamed(path)) => file_content_type(path.as_str()),
            ExData::String(_) => ContentType::HTML,
            ExData::Template(_) => ContentType::HTML,
        }
    }

    /// The content of a body held in memory; `None` for a file, which must
    /// be read.
    pub fn memory_contents(&self) -> (r: Option<Vec<u8>>)
        ensures
            match r {
                Some(v) => memory_contents(*self) == Some(v@),
                None => memory_contents(*self) is None,
            },
    {
        match self {
            ExData::Bytes(DataBytes(b)) => Some(b.clone()),
            ExData::String(DataString(s)) => Some(s.as_str().as_bytes_vec()),
            ExData::Template(DataTemplate(s)) => Some(s.as_str().as_bytes_vec()),
            _ => None,
        }
    }
}

/// The content type of the file at `path`, by its extension.
fn file_content_type(path: &str) -> (r: ContentType)
    ensures
        r.header_text() == file_media(path@),
{
    let ext = match extension_of(path) {
        Some(e) => e,
        None => String::new(),
    };
    ContentType::from_extension(ext.as_str())
}

/// The `Content-Encoding` header a compression method is announced with;
/// the DEFLATE method is announced by the token `defalte`.
pub open spec fn encoding_header(method: CompressionEncoding) -> Option<Seq<char>> {
    match method {
        CompressionEncoding::Brotli => Some("br"@),
        CompressionEncoding::Gzip => Some("gzip"@),
        CompressionEncoding::Defalte => Some("defalte"@),
        CompressionEncoding::Uncompressed => None,
    }
}

/// The body sent for `data` under a compression method.
pub open spec fn encoded_body(method: CompressionEncoding, data: Seq<u8>) -> Seq<u8> {
    match method {
        CompressionEncoding::Brotli => brotli_stream(data, 10240usize, 9u32, 22u32),
        CompressionEncoding::Gzip => zopfli_stream(data, true),
        CompressionEncoding::Defalte => zopfli_stream(data, false),
        CompressionEncoding::Uncompressed => data,
    }
}

/// The `Cache-Control` header for a lifetime of `ttl` seconds.
pub open spec fn cache_control(ttl: nat) -> Seq<char> {
    "max-age="@ + decimal(ttl) + ", must-revalidate"@
}

/// What an Express response is sent as.
#[derive(Debug, Clone)]
pub struct ExpressResponse {
    pub content_type: String,
    pub cache_control: String,
    pub content_encoding: Option<String>,
    pub body: Vec<u8>,
    pub streamed: bool,
}

/// A response body with the way it is to be sent.
#[derive(Debug, Clone)]
pub struct Express {
    data: ExData,
    method: CompressionEncoding,
    content_type: ContentType,
    ttl: usize,
    streamed: bool,
}

impl Express {
    pub closed spec fn data_of(&self) -> ExData {
        self.data
    }

    pub closed spec fn method_of(&self) -> CompressionEncoding {
        self.method
    }

    pub closed spec fn content_type_of(&self) -> ContentType {
        self.content_type
    }

    pub closed spec fn ttl_of(&self) -> usize {
        self.ttl
    }

    pub closed spec fn streamed_of(&self) -> bool {
        self.streamed
    }

    /// Alias for add_comrpession
    #[inline(always)]
    pub fn compress(self, encoding: CompressionEncoding) -> (r: Self)
        ensures
            r.method_of() == encoding,
            r.data_of() == self.data_of(),
            r.content_type_of() == self.content_type_of(),
            r.ttl_of() == self.ttl_of(),
            r.streamed_of() == self.streamed_of(),
    {
        self.add_compression(encoding)
    }

    /// Use the compression method preferred by the client.
    pub fn add_compression(self, encoding: CompressionEncoding) -> (r: Self)
        ensures
            r.method_of() == encoding,
            r.data_of() == self.data_of(),
            r.content_type_of() == self.content_type_of(),
            r.ttl_of() == self.ttl_of(),
            r.streamed_of() == self.streamed_of(),
    {
        Express { method: encoding, ..self }
    }

    /// Set ttl to the number of seconds the content should be cached
    pub fn set_ttl(self, ttl: usize) -> (r: Self)
        ensures
            r.ttl_of() == ttl,
            r.data_of() == self.data_of(),
            r.method_of() == self.method_of(),
            r.content_type_of() == self.content_type_of(),
            r.streamed_of() == self.streamed_of(),
    {
        Express { ttl, ..self }
    }

    /// Set the data to send; the content type stays as it was.
    pub fn set_data(self, data: ExData) -> (r: Self)
        ensures
            r.data_of() == data,
            r.method_of() == self.method_of(),
            r.content_type_of() == self.content_type_of(),
            r.ttl_of() == self.ttl_of(),
            r.streamed_of() == self.streamed_of(),
    {
        Express { data, ..self }
    }

    /// Resets the compression method to None
    pub fn reset_compression(self) -> (r: Self)
        ensures
            r.method_of() == CompressionEncoding::Uncompressed,
            r.data_of() == self.data_of(),
            r.content_type_of() == self.content_type_of(),
            r.ttl_of() == self.ttl_of(),
            r.streamed_of() == self.streamed_of(),
    {
        Express { method: CompressionEncoding::Uncompressed, ..self }
    }

    /// Sets the content type
    pub fn set_content_type(self, cont_type: ContentType) -> (r: Self)
        ensures
            r.content_type_of() == cont_type,
            r.data_of() == self.data_of(),
            r.method_of() == self.method_of(),
            r.ttl_of() == self.ttl_of(),
            r.streamed_of() == self.streamed_of(),
    {
        Express { content_type: cont_type, ..self }
    }

    pub fn set_streamed(self) -> (r: Self)
        ensures
            r.streamed_of(),
            r.data_of() == self.data_of(),
            r.method_of() == self.method_of(),
            r.content_type_of() == self.content_type_of(),
            r.ttl_of() == self.ttl_of(),
    {
        Express { streamed: true, ..self }
    }

    pub fn unset_streamed(self) -> (r: Self)
        ensures
            !r.streamed_of(),
            r.data_of() == self.data_of(),
            r.method_of() == self.method_of(),
            r.content_type_of() == self.content_type_of(),
            r.ttl_of() == self.ttl_of(),
    {
        Express { streamed: false, ..self }
    }

    /// A response for `data`: uncompressed, streamed, cached for an hour,
    /// with the content type that suits the data.
    pub fn new(data: ExData) -> (r: Express)
        ensures
            r.data_of() == data,
            r.method_of() == CompressionEncoding::Uncompressed,
            r.content_type_of().header_text() == default_media(data),
            !(data is File || data is Named) ==> r.content_type_of() == ContentType::HTML,
            r.ttl_of() == DEFAULT_TTL,
            r.streamed_of(),
    {
        let content_type = data.content_type();
        Express {
            data,
            method: CompressionEncoding::Uncompressed,
            content_type,
            ttl: DEFAULT_TTL,
            streamed: true,
        }
    }

    /// The body's content when it needs no reading (see
    /// `ExData::memory_contents`).
    pub fn memory_contents(&self) -> (r: Option<Vec<u8>>)
        ensures
            match r {
                Some(v) => memory_contents(self.data_of()) == Some(v@),
                None => memory_contents(self.data_of()) is None,
            },
    {
        self.data.memory_contents()
    }

    /// The path of the file to read for a file body.
    pub fn file_path(&self) -> (r: Option<String>)
        ensures
            match self.data_of() {
                ExData::File(DataFile(p)) => r == Some(p),
                ExData::Named(DataNamed(p)) => r == Some(p),
                _ => r is None,
            },
    {
        match &self.data {
            ExData::File(DataFile(p)) => Some(p.clone()),
            ExData::Named(DataNamed(p)) => Some(p.clone()),
            _ => None,
        }
    }

    /// The response that sends `contents`, the content of this body: its
    /// content type, cache lifetime, compression and streaming choice.
    pub fn respond_with(self, contents: Vec<u8>) -> (r: ExpressResponse)
        ensures
            r.content_type@ == self.content_type_of().header_text(),
            r.cache_control@ == cache_control(self.ttl_of() as nat),
            match r.content_encoding {
                Some(e) => encoding_header(self.method_of()) == Some(e@),
                None => encoding_header(self.method_of()) is None,
            },
            r.body@ == encoded_body(self.method_of(), contents@),
            r.streamed == self.streamed_of(),
    {
        let content_type = self.content_type.to_header();
        let mut cache = String::new();
        cache.append("max-age=");
        push_decimal(&mut cache, self.ttl as u64);
        cache.append(", must-revalidate");
        assert(cache@ =~= cache_control(self.ttl as nat));

        let (content_encoding, body) = match self.method {
            CompressionEncoding::Brotli => {
                let output = brotli_compress(contents.as_slice(), 10 * 1024, 9, 22);
                (Some(String::from_str("br")), output)
            },
            CompressionEncoding::Gzip => {
                let output = zopfli_compress(contents.as_slice(), true);
                (Some(String::from_str("gzip")), output)
            },
            CompressionEncoding::Defalte => {
                let output = zopfli_compress(contents.as_slice(), false);
                (Some(String::from_str("defalte")), output)
            },
            CompressionEncoding::Uncompressed => (None, contents),
        };
        ExpressResponse {
            content_type,
            cache_control: cache,
            content_encoding,
            body,
            streamed: self.streamed,
        }
    }
}

/// What `Express::from` makes of a text: an HTML response of that text,
/// uncompressed, streamed and cached for `DEFAULT_TTL` seconds.
pub proof fn lemma_from_string(v: String)
    ensures
        ({
            let e = <Express as vstd::std_specs::convert::FromSpec<String>>::from_spec(v);
            &&& e.data_of() == ExData::String(DataString(v))
            &&& e.method_of() == CompressionEncoding::Uncompressed
            &&& e.content_type_of() == ContentType::HTML
            &&& e.ttl_of() == DEFAULT_TTL
            &&& e.streamed_of()
        }),
{
}

/// What `Express::from` makes of bytes: an HTML response of those bytes,
/// uncompressed, streamed and cached for `DEFAULT_TTL` seconds.
pub proof fn lemma_from_bytes(v: Vec<u8>)
    ensures
        ({
            let e = <Express as vstd::std_specs::convert::FromSpec<Vec<u8>>>::from_spec(v);
            &&& e.data_of() == ExData::Bytes(DataBytes(v))
            &&& e.method_of() == CompressionEncoding::Uncompressed
            &&& e.content_type_of() == ContentType::HTML
            &&& e.ttl_of() == DEFAULT_TTL
            &&& e.streamed_of()
        }),
{
}

/// A body sent uncompressed is its content as it is; a compressed body is
/// the stream of the content under the announced encoding.
pub proof fn law_encoding_announced(method: CompressionEncoding, data: Seq<u8>)
    ensures
        encoding_header(method) is None <==> method == CompressionEncoding::Uncompressed,
        method == CompressionEncoding::Uncompressed ==> encoded_body(method, data) == data,
{
}

/// The response for a text: HTML, uncompressed, streamed, cached for an hour.
impl From<String> for Express {
    fn from(original: String) -> (r: Express) {
        Express::new(ExData::String(DataString(original)))
    }
}

/// The response for bytes: HTML, uncompressed, streamed, cached for an hour.
impl From<Vec<u8>> for Express {
    fn from(original: Vec<u8>) -> (r: Express) {
        Express::new(ExData::Bytes(DataBytes(original)))
    }
}

impl vstd::std_specs::convert::FromSpecImpl<Vec<u8>> for Express {
    open spec fn obeys_from_spec() -> bool {
        true
    }

    closed spec fn from_spec(v: Vec<u8>) -> Self {
        Express {
            data: ExData::Bytes(DataBytes(v)),
            method: CompressionEncoding::Uncompressed,
            content_type: ContentType::HTML,
            ttl: DEFAULT_TTL,
            streamed: true,
        }
    }
}

impl vstd::std_specs::convert::FromSpecImpl<String> for Express {
    open spec fn obeys_from_spec() -> bool {
        true
    }

    closed spec fn from_spec(v: String) -> Self {
        Express {
            data: ExData::String(DataString(v)),
            method: CompressionEncoding::Uncompressed,
            content_type: ContentType::HTML,
            ttl: DEFAULT_TTL,
            streamed: true,
        }
    }
}

} // verus!
