use vstd::prelude::*;
use crate::catalog::{find_tileset, has_tileset, SharedData, TileMeta};
use crate::coords::row_in_range;
use crate::hosts::{host_allowed, is_host_valid};
use crate::json::{fields_view, json_str, render_field, render_object, object_to_string};
use crate::response::{
    bad_request, bad_request_model, forbidden, forbidden_model, format_content_type, format_of,
    not_found, not_found_model, BodyModel, DataFormat, HttpResponse,
    RespModel, ResponseBody,
};
use crate::routes::{classify, classify_spec, Route, RouteModel};
use crate::storage::{
    bytes_to_string, fetch_grid_blob, fetch_grid_entries, fetch_tile, gzip_compress,
    gzip_decompress, gzip_of, ungzip_of, unzlib_of, utf8_of, zlib_decompress, TilePool,
};
use crate::strutil::{is_prefix_of, is_suffix_of, str_ends_with, str_eq, str_starts_with};
use crate::tilejson::{detail_doc, detail_document, listing_doc, listing_document};

verus! {

/// The view of an optional borrowed text.
pub open spec fn opt_str_view(s: Option<&str>) -> Option<Seq<char>> {
    match s {
        Some(t) => Some(t@),
        None => None,
    }
}

/// The base URL every link in a response is built under: the declared
/// scheme (`https` when the request declared none), the declared host as
/// written, the configured subdomain suffix, and `/services`.
pub open spec fn base_url_of(
    scheme: Option<Seq<char>>,
    host: Seq<char>,
    subdomain: Seq<char>,
) -> Seq<char> {
    (match scheme {
        Some(s) => s + "://"@,
        None => "https://"@,
    }) + host + subdomain + "/services"@
}

/// A request path with the API-gateway prefix stripped.
pub open spec fn normalize_path(p: Seq<char>) -> Seq<char> {
    if is_prefix_of("/api/tileserver/"@, p) {
        "/"@ + p.subrange(16, p.len() as int)
    } else {
        p
    }
}

/// The query-string suffix appended to generated URL templates.
pub open spec fn query_suffix(q: Option<Seq<char>>) -> Seq<char> {
    match q {
        Some(s) => "?"@ + s,
        None => ""@,
    }
}

/// A successful JSON document response: the configured extra headers,
/// then the content type.
pub open spec fn doc_response_model(extra: Seq<(String, String)>, body: Seq<char>) -> RespModel {
    RespModel {
        status: 200,
        headers: fields_view(extra) + seq![("Content-Type"@, "application/json"@)],
        body: BodyModel::Text(body),
    }
}

/// The preview page response: the serving layer substitutes the bundled
/// page for the `Preview` body on its way out.
pub open spec fn preview_model() -> RespModel {
    RespModel { status: 200, headers: Seq::empty(), body: BodyModel::Preview }
}

/// An empty tile-request outcome for an expected data miss. The
/// configured extra headers ride along: they are applied uniformly to
/// every tile-request response, payload or not.
pub open spec fn tile_no_content_model(extra: Seq<(String, String)>) -> RespModel {
    RespModel { status: 204, headers: fields_view(extra), body: BodyModel::Text(""@) }
}

/// The not-found tile-request outcome (a grid asked of a tileset that
/// declares no grid format), again with the configured extra headers.
pub open spec fn tile_not_found_model(extra: Seq<(String, String)>) -> RespModel {
    RespModel { status: 404, headers: fields_view(extra), body: BodyModel::Text("Not Found"@) }
}

/// The outcome of a tileset-detail request, as a function of the snapshot
/// alone: a known identifier gets its TileJSON document; an unknown one
/// whose last segment is the preview page name is resolved against the
/// identifier ahead of it, giving the preview page, its absence, or the
/// unknown-tileset error; any other unknown identifier gets the
/// unknown-tileset error.
pub open spec fn detail_response_model(
    cat: Seq<(String, TileMeta)>,
    id: Seq<char>,
    base: Seq<char>,
    query: Seq<char>,
    disable_preview: bool,
    extra: Seq<(String, String)>,
) -> RespModel {
    if has_tileset(cat, id) {
        doc_response_model(extra, detail_doc(find_tileset(cat, id)->0, base, id, query, disable_preview))
    } else if is_map_path(id) {
        if has_tileset(cat, map_base_id(id)) {
            if disable_preview {
                not_found_model()
            } else {
                preview_model()
            }
        } else {
            bad_request_model(unknown_tileset_message(map_base_id(id)))
        }
    } else {
        bad_request_model(unknown_tileset_message(id))
    }
}

/// A snapshot that a rescan no longer lists a tileset in answers requests
/// for it with the unknown-tileset error, while a reader still holding the
/// prior snapshot keeps getting the document it had: each snapshot is an
/// immutable value, and the outcome is a function of the snapshot alone.
/// (An identifier whose own last segment is the preview page name falls
/// under the preview resolution instead and is left out here.)
pub proof fn lemma_removed_tileset_turns_unknown(
    older: Seq<(String, TileMeta)>,
    newer: Seq<(String, TileMeta)>,
    id: Seq<char>,
    base: Seq<char>,
    query: Seq<char>,
    disable_preview: bool,
    extra: Seq<(String, String)>,
)
    requires
        has_tileset(older, id),
        !has_tileset(newer, id),
        !is_map_path(id),
    ensures
        detail_response_model(newer, id, base, query, disable_preview, extra)
            == bad_request_model(unknown_tileset_message(id)),
        detail_response_model(older, id, base, query, disable_preview, extra)
            == doc_response_model(
            extra,
            detail_doc(find_tileset(older, id)->0, base, id, query, disable_preview),
        ),
{
}

/// Disabling previews turns a known tileset's preview route into the
/// route-miss response, while the tileset's own detail document is still
/// served with success.
pub proof fn lemma_preview_disabled_leaves_detail(
    cat: Seq<(String, TileMeta)>,
    mid: Seq<char>,
    base: Seq<char>,
    query: Seq<char>,
    extra: Seq<(String, String)>,
)
    requires
        !has_tileset(cat, mid),
        is_map_path(mid),
        has_tileset(cat, map_base_id(mid)),
    ensures
        detail_response_model(cat, mid, base, query, true, extra) == not_found_model(),
        detail_response_model(cat, map_base_id(mid), base, query, true, extra).status == 200,
{
}

/// The message a structurally valid route naming an unknown tileset gets.
pub open spec fn unknown_tileset_message(id: Seq<char>) -> Seq<char> {
    "Tileset does not exist: "@ + id
}

/// Whether a detail identifier's last segment is the preview page name.
pub open spec fn is_map_path(id: Seq<char>) -> bool {
    id == "map"@ || is_suffix_of("/map"@, id)
}

/// The tileset identifier a preview path points at: the identifier with
/// its final `map` segment removed.
pub open spec fn map_base_id(id: Seq<char>) -> Seq<char> {
    if id == "map"@ {
        Seq::empty()
    } else {
        id.subrange(0, id.len() - 4)
    }
}

/// Copies the configured extra headers.
fn clone_headers(extra: &Vec<(String, String)>) -> (r: Vec<(String, String)>)
    ensures
        fields_view(r@) == fields_view(extra@),
{
    let mut out: Vec<(String, String)> = Vec::new();
    proof {
        assert(fields_view(out@) =~~= fields_view(extra@.subrange(0, 0)));
    }
    let n = extra.len();
    let mut i: usize = 0;
    while i < n
        invariant
            n == extra@.len(),
            i <= n,
            out@.len() == i,
            fields_view(out@) == fields_view(extra@.subrange(0, i as int)),
        decreases n - i,
    {
        let pair = (extra[i].0.clone(), extra[i].1.clone());
        proof {
            assert(pair.0@ == extra@[i as int].0@ && pair.1@ == extra@[i as int].1@);
        }
        let ghost before = out@;
        out.push(pair);
        proof {
            let t = extra@.subrange(0, i + 1 as int);
            let prev = extra@.subrange(0, i as int);
            assert(fields_view(out@).len() == i + 1 && fields_view(t).len() == i + 1);
            assert forall|j: int| 0 <= j < i + 1 implies fields_view(out@)[j] == fields_view(
                t,
            )[j] by {
                if j < i {
                    assert(fields_view(before)[j] == fields_view(prev)[j]);
                    assert(out@[j] == before[j]);
                    assert(t[j] == prev[j]);
                } else {
                    assert(out@[j] == pair);
                    assert(t[j] == extra@[i as int]);
                }
            }
            assert(fields_view(out@) =~= fields_view(t));
        }
        i += 1;
    }
    proof {
        assert(extra@.subrange(0, n as int) =~= extra@);
    }
    out
}

/// Copies the configured extra headers and lays the content headers after
/// them.
fn build_headers(
    extra: &Vec<(String, String)>,
    content_type: &str,
    encoding: Option<&str>,
) -> (r: Vec<(String, String)>)
    ensures
        fields_view(r@) == fields_view(extra@) + seq![("Content-Type"@, content_type@)] + (
        match encoding {
            Some(e) => seq![("Content-Encoding"@, e@)],
            None => Seq::<(Seq<char>, Seq<char>)>::empty(),
        }),
{
    let mut out = clone_headers(extra);
    out.push((String::from_str("Content-Type"), content_type.to_owned()));
    match encoding {
        Some(e) => {
            out.push((String::from_str("Content-Encoding"), e.to_owned()));
            proof {
                assert(fields_view(out@) =~~= fields_view(extra@) + seq![
                    ("Content-Type"@, content_type@),
                ] + seq![("Content-Encoding"@, e@)]);
            }
        },
        None => {
            proof {
                assert(fields_view(out@) =~~= fields_view(extra@) + seq![
                    ("Content-Type"@, content_type@),
                ] + Seq::<(Seq<char>, Seq<char>)>::empty());
            }
        },
    }
    out
}

/// The empty response for an expected tile-data miss, with the configured
/// extra headers attached.
pub fn tile_no_content(extra: &Vec<(String, String)>) -> (r: HttpResponse)
    ensures
        r@ == tile_no_content_model(extra@),
{
    HttpResponse {
        status: 204,
        headers: clone_headers(extra),
        body: ResponseBody::Text(String::from_str("")),
    }
}

/// The not-found response for a grid request a tileset cannot serve, with
/// the configured extra headers attached.
pub fn tile_not_found(extra: &Vec<(String, String)>) -> (r: HttpResponse)
    ensures
        r@ == tile_not_found_model(extra@),
{
    HttpResponse {
        status: 404,
        headers: clone_headers(extra),
        body: ResponseBody::Text(String::from_str("Not Found")),
    }
}

/// The response for a raster tile lookup: a hit ships the stored blob and
/// a miss the blank placeholder image for the requested format; raster
/// pyramids are sparse by design, so both succeed.
pub fn raster_response(
    lookup: Option<Vec<u8>>,
    fmt: DataFormat,
    blank: &Vec<u8>,
    extra: &Vec<(String, String)>,
) -> (r: HttpResponse)
    ensures
        r@.status == 200,
        r@.headers == fields_view(extra@) + seq![("Content-Type"@, format_content_type(fmt))],
        r@.body == BodyModel::Bytes(
            match lookup {
                Some(d) => d@,
                None => blank@,
            },
        ),
{
    let headers = build_headers(extra, fmt.content_type(), None);
    let body = match lookup {
        Some(d) => d,
        None => blank.clone(),
    };
    proof {
        assert(fields_view(headers@) + Seq::<(Seq<char>, Seq<char>)>::empty() =~= fields_view(
            headers@,
        ));
    }
    HttpResponse { status: 200, headers, body: ResponseBody::Bytes(body) }
}

/// The response for a vector tile lookup: a hit ships the stored blob,
/// which the container already holds gzip-compressed, under its content
/// type; a genuinely absent cell is an expected outcome and answers
/// no-content, never an error. The configured extra headers ride on both.
pub fn pbf_response(lookup: Option<Vec<u8>>, extra: &Vec<(String, String)>) -> (r: HttpResponse)
    ensures
        match lookup {
            Some(d) => r@ == RespModel {
                status: 200,
                headers: fields_view(extra@) + seq![
                    ("Content-Type"@, format_content_type(DataFormat::Pbf)),
                    ("Content-Encoding"@, "gzip"@),
                ],
                body: BodyModel::Bytes(d@),
            },
            None => r@ == tile_no_content_model(extra@),
        },
{
    match lookup {
        Some(d) => {
            let headers = build_headers(extra, "application/x-protobuf", Some("gzip"));
            proof {
                assert(fields_view(extra@) + seq![("Content-Type"@, "application/x-protobuf"@)]
                    + seq![("Content-Encoding"@, "gzip"@)] =~= fields_view(extra@) + seq![
                    ("Content-Type"@, format_content_type(DataFormat::Pbf)),
                    ("Content-Encoding"@, "gzip"@),
                ]);
            }
            HttpResponse { status: 200, headers, body: ResponseBody::Bytes(d) }
        },
        None => tile_no_content(extra),
    }
}

/// The response for a grid lookup: a hit ships the assembled document
/// gzip-compressed — the body is exactly `gzip_of` the document — under
/// the JSON content type; a genuinely absent grid cell is an expected
/// outcome — common at high zoom — and answers no-content, never an
/// error. The configured extra headers ride on both.
pub fn grid_response(assembled: Option<String>, extra: &Vec<(String, String)>) -> (r:
    HttpResponse)
    ensures
        match assembled {
            Some(doc) => r@ == RespModel {
                status: 200,
                headers: fields_view(extra@) + seq![
                    ("Content-Type"@, format_content_type(DataFormat::Json)),
                    ("Content-Encoding"@, "gzip"@),
                ],
                body: BodyModel::Bytes(gzip_of(doc@)),
            },
            None => r@ == tile_no_content_model(extra@),
        },
{
    if assembled.is_some() {
        let doc = assembled.unwrap();
        let headers = build_headers(extra, "application/json", Some("gzip"));
        proof {
            assert(fields_view(extra@) + seq![("Content-Type"@, "application/json"@)] + seq![
                ("Content-Encoding"@, "gzip"@),
            ] =~= fields_view(extra@) + seq![
                ("Content-Type"@, format_content_type(DataFormat::Json)),
                ("Content-Encoding"@, "gzip"@),
            ]);
        }
        let compressed = gzip_compress(doc.as_str());
        HttpResponse { status: 200, headers, body: ResponseBody::Bytes(compressed) }
    } else {
        tile_no_content(extra)
    }
}

/// Whether a decompressed grid blob has the object shape the interaction
/// data can be spliced into.
pub open spec fn grid_shape_ok(g: Seq<char>) -> bool {
    g.len() >= 2 && g[0] == '{' && g.last() == '}'
}

/// A grid blob's JSON object with the interaction rows laid in as one
/// final `data` member mapping each key name to its raw JSON record.
pub open spec fn grid_doc(g: Seq<char>, entries: Seq<(Seq<char>, Seq<char>)>) -> Seq<char> {
    let data_member = render_field("data"@, render_object(entries));
    if g.len() == 2 {
        seq!['{'] + data_member + seq!['}']
    } else {
        g.drop_last() + seq![','] + data_member + seq!['}']
    }
}

/// Splices the interaction rows into a decompressed grid object, exactly
/// as `grid_doc` says; a blob without the object shape is a miss.
pub fn assemble_grid(grid_json: &str, entries: &Vec<(String, String)>) -> (r: Option<String>)
    ensures
        grid_shape_ok(grid_json@) ==> r is Some && r->0@ == grid_doc(
            grid_json@,
            fields_view(entries@),
        ),
        !grid_shape_ok(grid_json@) ==> r is None,
{
    let len = grid_json.unicode_len();
    if len < 2 || grid_json.get_char(0) != '{' || grid_json.get_char(len - 1) != '}' {
        return None;
    }
    let data_obj = object_to_string(entries);
    let mut out: String;
    if len == 2 {
        out = String::from_str("{");
    } else {
        out = grid_json.substring_char(0, len - 1).to_owned();
        out.append(",");
    }
    crate::json::append_json_str(&mut out, "data");
    out.append(":");
    out.append(data_obj.as_str());
    out.append("}");
    proof {
        reveal_strlit("{");
        reveal_strlit("}");
        reveal_strlit(",");
        reveal_strlit(":");
        assert("{"@ =~= seq!['{']);
        assert("}"@ =~= seq!['}']);
        assert(","@ =~= seq![',']);
        assert(":"@ =~= seq![':']);
        if len == 2 {
            assert(out@ =~= grid_doc(grid_json@, fields_view(entries@)));
        } else {
            assert(grid_json@.subrange(0, len - 1) =~= grid_json@.drop_last());
            assert(out@ =~= grid_doc(grid_json@, fields_view(entries@)));
        }
    }
    Some(out)
}

/// The grid document a fetched blob and its interaction rows derive to:
/// the blob decompressed as the declared grid format asks, decoded as
/// UTF-8, and the rows spliced in; nothing when any step fails.
pub open spec fn grid_derivation(
    blob: Seq<u8>,
    grid_format: DataFormat,
    entries: Seq<(Seq<char>, Seq<char>)>,
) -> Option<Seq<char>> {
    let payload = if grid_format == DataFormat::Zlib {
        unzlib_of(blob)
    } else {
        ungzip_of(blob)
    };
    match payload {
        Some(bytes) => match utf8_of(bytes) {
            Some(text) => if grid_shape_ok(text) {
                Some(grid_doc(text, entries))
            } else {
                None
            },
            None => None,
        },
        None => None,
    }
}

/// Derives the grid document from a fetched blob and interaction rows,
/// exactly as `grid_derivation` says.
pub fn grid_document_from(
    blob: &Vec<u8>,
    grid_format: DataFormat,
    entries: &Vec<(String, String)>,
) -> (r: Option<String>)
    ensures
        r is Some <==> grid_derivation(blob@, grid_format, fields_view(entries@)) is Some,
        r is Some ==> r->0@ == grid_derivation(blob@, grid_format, fields_view(entries@))->0,
{
    let decompressed = if grid_format == DataFormat::Zlib {
        zlib_decompress(blob.as_slice())
    } else {
        gzip_decompress(blob.as_slice())
    };
    if decompressed.is_none() {
        return None;
    }
    let bytes = decompressed.unwrap();
    let text_opt = bytes_to_string(&bytes);
    if text_opt.is_none() {
        return None;
    }
    let text = text_opt.unwrap();
    assemble_grid(text.as_str(), entries)
}

/// Fetches and derives the grid document at an XYZ coordinate: the
/// compressed blob and the interaction rows come from storage, the
/// derivation is `grid_derivation`. A missing piece is a plain miss.
pub fn fetch_grid_document(pool: &TilePool, grid_format: DataFormat, z: u32, x: u32, y: u32) -> (r:
    Option<String>)
    ensures
        !row_in_range(z as nat, y as nat) ==> r is None,
{
    let blob = match fetch_grid_blob(pool, z, x, y) {
        Some(b) => b,
        None => {
            return None;
        },
    };
    let entries = match fetch_grid_entries(pool, z, x, y) {
        Some(e) => e,
        None => {
            return None;
        },
    };
    grid_document_from(&blob, grid_format, &entries)
}

/// Serves one request: the allow-list gates it, the path is normalized
/// and classified, and the matching response is assembled against the
/// given catalog snapshot. Every deterministic outcome is stated exactly;
/// a tile or grid lookup's body depends on the container file, so those
/// clauses state what holds of every lookup outcome.
pub fn get_service(
    path: &str,
    host: Option<&str>,
    scheme: Option<&str>,
    query: Option<&str>,
    allowed_hosts: &Vec<String>,
    headers: &Vec<(String, String)>,
    disable_preview: bool,
    shared: &SharedData,
    subdomain: &str,
    blank_image: &Vec<u8>,
) -> (r: HttpResponse)
    ensures
        !host_allowed(opt_str_view(host), allowed_hosts@.map_values(|s: String| s@)) ==> r@
            == forbidden_model(),
        host_allowed(opt_str_view(host), allowed_hosts@.map_values(|s: String| s@)) ==> {
            let base = base_url_of(opt_str_view(scheme), host->0@, subdomain@);
            let cat = shared.tileset@;
            match classify_spec(normalize_path(path@)) {
                RouteModel::NotFound => r@ == not_found_model(),
                RouteModel::Listing => r@ == doc_response_model(headers@, listing_doc(cat, base)),
                RouteModel::Detail { id } => r@ == detail_response_model(
                    cat,
                    id,
                    base,
                    query_suffix(opt_str_view(query)),
                    disable_preview,
                    headers@,
                ),
                RouteModel::Tile { id, z, x, y, ext } => {
                    let fmt = format_of(ext);
                    if fmt == DataFormat::Json {
                        match find_tileset(cat, id) {
                            Some(m) => {
                                &&& m.grid_format is None ==> r@ == tile_not_found_model(
                                    headers@,
                                )
                                &&& m.grid_format is Some ==> (r@ == tile_no_content_model(
                                    headers@,
                                ) || (r@.status == 200 && r@.headers == fields_view(headers@)
                                    + seq![
                                    ("Content-Type"@, format_content_type(DataFormat::Json)),
                                    ("Content-Encoding"@, "gzip"@),
                                ] && r@.body is Bytes))
                                &&& (m.grid_format is Some && !row_in_range(
                                    z as nat,
                                    y as nat,
                                )) ==> r@ == tile_no_content_model(headers@)
                            },
                            None => r@ == tile_not_found_model(headers@),
                        }
                    } else if fmt == DataFormat::Pbf {
                        match find_tileset(cat, id) {
                            Some(m) => {
                                &&& r@ == tile_no_content_model(headers@) || (r@.status == 200
                                    && r@.headers == fields_view(headers@) + seq![
                                    ("Content-Type"@, format_content_type(DataFormat::Pbf)),
                                    ("Content-Encoding"@, "gzip"@),
                                ] && r@.body is Bytes)
                                &&& !row_in_range(z as nat, y as nat) ==> r@
                                    == tile_no_content_model(headers@)
                            },
                            None => r@ == tile_no_content_model(headers@),
                        }
                    } else {
                        &&& r@.status == 200
                        &&& r@.headers == fields_view(headers@) + seq![
                            ("Content-Type"@, format_content_type(fmt)),
                        ]
                        &&& r@.body is Bytes
                        &&& (!has_tileset(cat, id) || !row_in_range(z as nat, y as nat)) ==> r@.body
                            == BodyModel::Bytes(blank_image@)
                    }
                },
            }
        },
{
    if !is_host_valid(host, allowed_hosts) {
        return forbidden();
    }
    let h = host.unwrap();

    let mut base = if scheme.is_some() {
        let mut b = scheme.unwrap().to_owned();
        b.append("://");
        b
    } else {
        String::from_str("https://")
    };
    base.append(h);
    base.append(subdomain);
    base.append("/services");
    proof {
        assert(base@ =~= base_url_of(opt_str_view(scheme), h@, subdomain@));
    }

    let qsuffix = if query.is_some() {
        let mut s = String::from_str("?");
        s.append(query.unwrap());
        s
    } else {
        String::new()
    };
    proof {
        reveal_strlit("");
        assert(qsuffix@ =~= query_suffix(opt_str_view(query)));
    }

    let p: String = if str_starts_with(path, "/api/tileserver/") {
        proof {
            reveal_strlit("/api/tileserver/");
            reveal_strlit("/");
        }
        let mut np = String::from_str("/");
        np.append(path.substring_char(16, path.unicode_len()));
        proof {
            assert(np@ == normalize_path(path@));
        }
        np
    } else {
        proof {
            reveal_strlit("/api/tileserver/");
        }
        path.to_owned()
    };

    match classify(p.as_str()) {
        Route::NotFound => not_found(),
        Route::Listing => {
            let body = listing_document(&shared.tileset, base.as_str());
            let hs = build_headers(headers, "application/json", None);
            let r = HttpResponse { status: 200, headers: hs, body: ResponseBody::Text(body) };
            proof {
                assert(r@.headers =~= fields_view(headers@) + seq![
                    ("Content-Type"@, "application/json"@),
                ]);
            }
            r
        },
        Route::Detail { id } => {
            match shared.get_tileset(id.as_str()) {
                Some(meta) => {
                    let body = detail_document(
                        meta,
                        base.as_str(),
                        id.as_str(),
                        qsuffix.as_str(),
                        disable_preview,
                    );
                    let hs = build_headers(headers, "application/json", None);
                    let r = HttpResponse {
                        status: 200,
                        headers: hs,
                        body: ResponseBody::Text(body),
                    };
                    proof {
                        assert(r@.headers =~= fields_view(headers@) + seq![
                            ("Content-Type"@, "application/json"@),
                        ]);
                    }
                    r
                },
                None => {
                    let id_is_map = str_eq(id.as_str(), "map");
                    let ends_map = str_ends_with(id.as_str(), "/map");
                    proof {
                        reveal_strlit("map");
                        reveal_strlit("/map");
                    }
                    if id_is_map || ends_map {
                        let base_id: String = if id_is_map {
                            String::new()
                        } else {
                            id.as_str().substring_char(0, id.as_str().unicode_len() - 4).to_owned()
                        };
                        proof {
                            assert(base_id@ == map_base_id(id@));
                        }
                        match shared.get_tileset(base_id.as_str()) {
                            Some(_) => {
                                if disable_preview {
                                    not_found()
                                } else {
                                    let r = HttpResponse {
                                        status: 200,
                                        headers: Vec::new(),
                                        body: ResponseBody::Preview,
                                    };
                                    proof {
                                        assert(r@.headers =~= preview_model().headers);
                                    }
                                    r
                                }
                            },
                            None => {
                                let mut msg = String::from_str("Tileset does not exist: ");
                                msg.append(base_id.as_str());
                                bad_request(msg)
                            },
                        }
                    } else {
                        let mut msg = String::from_str("Tileset does not exist: ");
                        msg.append(id.as_str());
                        bad_request(msg)
                    }
                },
            }
        },
        Route::Tile { id, z, x, y, ext } => {
            let fmt = DataFormat::new(ext.as_str());
            match fmt {
                DataFormat::Json => {
                    match shared.get_tileset(id.as_str()) {
                        Some(meta) => {
                            match &meta.grid_format {
                                Some(gf) => {
                                    let doc = fetch_grid_document(
                                        &meta.connection_pool,
                                        *gf,
                                        z,
                                        x,
                                        y,
                                    );
                                    grid_response(doc, headers)
                                },
                                None => tile_not_found(headers),
                            }
                        },
                        None => tile_not_found(headers),
                    }
                },
                DataFormat::Pbf => {
                    match shared.get_tileset(id.as_str()) {
                        Some(meta) => {
                            let lookup = fetch_tile(&meta.connection_pool, z, x, y);
                            pbf_response(lookup, headers)
                        },
                        None => tile_no_content(headers),
                    }
                },
                _ => {
                    let lookup = match shared.get_tileset(id.as_str()) {
                        Some(meta) => fetch_tile(&meta.connection_pool, z, x, y),
                        None => None,
                    };
                    raster_response(lookup, fmt, blank_image, headers)
                },
            }
        },
    }
}

} // verus!
