use vstd::prelude::*;
use crate::strutil::str_eq;

verus! {

/// The payload formats a tile container can declare or a request can ask
/// for by its extension.
#[derive(Clone, Copy, PartialEq, Eq, Structural, Debug)]
pub enum DataFormat {
    Png,
    Jpg,
    Webp,
    Gif,
    Pbf,
    Json,
    Gzip,
    Zlib,
    Unknown,
}

/// The format a request's extension token names.
pub open spec fn format_of(ext: Seq<char>) -> DataFormat {
    if ext == "png"@ {
        DataFormat::Png
    } else if ext == "jpg"@ || ext == "jpeg"@ {
        DataFormat::Jpg
    } else if ext == "webp"@ {
        DataFormat::Webp
    } else if ext == "gif"@ {
        DataFormat::Gif
    } else if ext == "pbf"@ {
        DataFormat::Pbf
    } else if ext == "json"@ {
        DataFormat::Json
    } else if ext == "gzip"@ {
        DataFormat::Gzip
    } else if ext == "zlib"@ {
        DataFormat::Zlib
    } else {
        DataFormat::Unknown
    }
}

/// The extension token that names each format.
pub open spec fn format_ext(f: DataFormat) -> Seq<char> {
    match f {
        DataFormat::Png => "png"@,
        DataFormat::Jpg => "jpg"@,
        DataFormat::Webp => "webp"@,
        DataFormat::Gif => "gif"@,
        DataFormat::Pbf => "pbf"@,
        DataFormat::Json => "json"@,
        DataFormat::Gzip => "gzip"@,
        DataFormat::Zlib => "zlib"@,
        DataFormat::Unknown => ""@,
    }
}

/// The content type each format is served under; formats this server does
/// not recognize go out as opaque bytes.
pub open spec fn format_content_type(f: DataFormat) -> Seq<char> {
    match f {
        DataFormat::Png => "image/png"@,
        DataFormat::Jpg => "image/jpeg"@,
        DataFormat::Webp => "image/webp"@,
        DataFormat::Gif => "image/gif"@,
        DataFormat::Pbf => "application/x-protobuf"@,
        DataFormat::Json => "application/json"@,
        DataFormat::Gzip => "application/x-gzip"@,
        DataFormat::Zlib => "application/zlib"@,
        DataFormat::Unknown => "application/octet-stream"@,
    }
}

impl DataFormat {
    /// Classifies a request's extension token.
    pub fn new(ext: &str) -> (r: DataFormat)
        ensures
            r == format_of(ext@),
    {
        if str_eq(ext, "png") {
            DataFormat::Png
        } else if str_eq(ext, "jpg") || str_eq(ext, "jpeg") {
            DataFormat::Jpg
        } else if str_eq(ext, "webp") {
            DataFormat::Webp
        } else if str_eq(ext, "gif") {
            DataFormat::Gif
        } else if str_eq(ext, "pbf") {
            DataFormat::Pbf
        } else if str_eq(ext, "json") {
            DataFormat::Json
        } else if str_eq(ext, "gzip") {
            DataFormat::Gzip
        } else if str_eq(ext, "zlib") {
            DataFormat::Zlib
        } else {
            DataFormat::Unknown
        }
    }

    /// The extension token for this format.
    pub fn format(&self) -> (r: &'static str)
        ensures
            r@ == format_ext(*self),
    {
        match self {
            DataFormat::Png => "png",
            DataFormat::Jpg => "jpg",
            DataFormat::Webp => "webp",
            DataFormat::Gif => "gif",
            DataFormat::Pbf => "pbf",
            DataFormat::Json => "json",
            DataFormat::Gzip => "gzip",
            DataFormat::Zlib => "zlib",
            DataFormat::Unknown => "",
        }
    }

    /// The content type this format is served under.
    pub fn content_type(&self) -> (r: &'static str)
        ensures
            r@ == format_content_type(*self),
    {
        match self {
            DataFormat::Png => "image/png",
            DataFormat::Jpg => "image/jpeg",
            DataFormat::Webp => "image/webp",
            DataFormat::Gif => "image/gif",
            DataFormat::Pbf => "application/x-protobuf",
            DataFormat::Json => "application/json",
            DataFormat::Gzip => "application/x-gzip",
            DataFormat::Zlib => "application/zlib",
            DataFormat::Unknown => "application/octet-stream",
        }
    }
}

/// What a response carries: a textual body, raw bytes, or the bundled
/// map preview page, which the serving layer substitutes on its way out.
pub enum ResponseBody {
    Text(String),
    Bytes(Vec<u8>),
    Preview,
}

/// Mathematical image of a response body.
pub enum BodyModel {
    Text(Seq<char>),
    Bytes(Seq<u8>),
    Preview,
}

impl View for ResponseBody {
    type V = BodyModel;

    open spec fn view(&self) -> BodyModel {
        match self {
            ResponseBody::Text(s) => BodyModel::Text(s@),
            ResponseBody::Bytes(b) => BodyModel::Bytes(b@),
            ResponseBody::Preview => BodyModel::Preview,
        }
    }
}

/// One HTTP response, ready for a transport to send: a status code, the
/// headers to attach, and the body.
pub struct HttpResponse {
    pub status: u16,
    pub headers: Vec<(String, String)>,
    pub body: ResponseBody,
}

/// Mathematical image of a response.
pub struct RespModel {
    pub status: int,
    pub headers: Seq<(Seq<char>, Seq<char>)>,
    pub body: BodyModel,
}

impl View for HttpResponse {
    type V = RespModel;

    open spec fn view(&self) -> RespModel {
        RespModel {
            status: self.status as int,
            headers: self.headers@.map_values(|p: (String, String)| (p.0@, p.1@)),
            body: self.body@,
        }
    }
}

/// A plain-text response with no headers beyond what the transport adds.
pub open spec fn text_model(status: int, msg: Seq<char>) -> RespModel {
    RespModel { status, headers: Seq::empty(), body: BodyModel::Text(msg) }
}

/// The fixed route-miss response.
pub open spec fn not_found_model() -> RespModel {
    text_model(404, "Not Found"@)
}

/// The fixed empty response for an expected data miss.
pub open spec fn no_content_model() -> RespModel {
    text_model(204, ""@)
}

/// The fixed response for a host the allow-list rejects.
pub open spec fn forbidden_model() -> RespModel {
    text_model(403, "Forbidden"@)
}

/// The fixed response for a failure of the server's own.
pub open spec fn server_error_model() -> RespModel {
    text_model(500, "Internal Server Error"@)
}

/// The response for a structurally valid route naming an unknown tileset.
pub open spec fn bad_request_model(msg: Seq<char>) -> RespModel {
    text_model(400, msg)
}

pub fn not_found() -> (r: HttpResponse)
    ensures
        r@ == not_found_model(),
{
    let r = HttpResponse {
        status: 404,
        headers: Vec::new(),
        body: ResponseBody::Text(String::from_str("Not Found")),
    };
    proof {
        assert(r@.headers =~= not_found_model().headers);
    }
    r
}

pub fn no_content() -> (r: HttpResponse)
    ensures
        r@ == no_content_model(),
{
    let r = HttpResponse {
        status: 204,
        headers: Vec::new(),
        body: ResponseBody::Text(String::from_str("")),
    };
    proof {
        assert(r@.headers =~= no_content_model().headers);
    }
    r
}

pub fn forbidden() -> (r: HttpResponse)
    ensures
        r@ == forbidden_model(),
{
    let r = HttpResponse {
        status: 403,
        headers: Vec::new(),
        body: ResponseBody::Text(String::from_str("Forbidden")),
    };
    proof {
        assert(r@.headers =~= forbidden_model().headers);
    }
    r
}

pub fn server_error() -> (r: HttpResponse)
    ensures
        r@ == server_error_model(),
{
    let r = HttpResponse {
        status: 500,
        headers: Vec::new(),
        body: ResponseBody::Text(String::from_str("Internal Server Error")),
    };
    proof {
        assert(r@.headers =~= server_error_model().headers);
    }
    r
}

pub fn bad_request(msg: String) -> (r: HttpResponse)
    ensures
        r@ == bad_request_model(msg@),
{
    let ghost m = msg@;
    let r = HttpResponse { status: 400, headers: Vec::new(), body: ResponseBody::Text(msg) };
    proof {
        assert(r@.headers =~= bad_request_model(m).headers);
    }
    r
}

} // verus!
