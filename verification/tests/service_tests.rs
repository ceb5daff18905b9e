use tileserver::catalog::{SharedData, TileMeta};
use tileserver::response::{DataFormat, HttpResponse, ResponseBody};
use tileserver::service::get_service;
use tileserver::storage::TilePool;

use std::io::Read;
use std::io::Write;

fn blank_image() -> Vec<u8> {
    vec![137, 80, 78, 71, 13, 10, 26, 10, 0, 0, 0, 13]
}

fn tile_bytes() -> Vec<u8> {
    vec![1, 2, 3, 4, 5]
}

fn gzip(data: &[u8]) -> Vec<u8> {
    let mut enc = flate2::write::GzEncoder::new(Vec::new(), flate2::Compression::default());
    enc.write_all(data).unwrap();
    enc.finish().unwrap()
}

fn gunzip(data: &[u8]) -> Vec<u8> {
    let mut out = Vec::new();
    let mut dec = flate2::read::GzDecoder::new(data);
    dec.read_to_end(&mut out).unwrap();
    out
}

fn make_db(name: &str) -> String {
    let path = format!("/tmp/tileserver_test_{}.db", name);
    let conn = r2d2_sqlite::rusqlite::Connection::open(&path).unwrap();
    conn.execute_batch(
        "CREATE TABLE IF NOT EXISTS tiles (zoom_level INTEGER, tile_column INTEGER, tile_row INTEGER, tile_data BLOB);
         CREATE TABLE IF NOT EXISTS grids (zoom_level INTEGER, tile_column INTEGER, tile_row INTEGER, grid BLOB);
         CREATE TABLE IF NOT EXISTS grid_data (zoom_level INTEGER, tile_column INTEGER, tile_row INTEGER, key_name TEXT, key_json TEXT);
         DELETE FROM tiles; DELETE FROM grids; DELETE FROM grid_data;",
    )
    .unwrap();
    conn.execute(
        "INSERT INTO tiles (zoom_level, tile_column, tile_row, tile_data) VALUES (0, 0, 0, ?1)",
        (tile_bytes(),),
    )
    .unwrap();
    // Zoom 1, XYZ row 0 is stored under TMS row 1.
    conn.execute(
        "INSERT INTO tiles (zoom_level, tile_column, tile_row, tile_data) VALUES (1, 0, 1, ?1)",
        (vec![7u8, 7, 7],),
    )
    .unwrap();
    let grid_json = b"{\"grid\":[\"!\"],\"keys\":[\"44\"]}";
    conn.execute(
        "INSERT INTO grids (zoom_level, tile_column, tile_row, grid) VALUES (0, 0, 0, ?1)",
        (gzip(grid_json),),
    )
    .unwrap();
    conn.execute(
        "INSERT INTO grid_data (zoom_level, tile_column, tile_row, key_name, key_json) VALUES (0, 0, 0, '44', '{\"ADMIN\":\"Algeria\"}')",
        (),
    )
    .unwrap();
    path
}

fn make_meta(db: &str, grid: bool) -> TileMeta {
    TileMeta {
        connection_pool: TilePool::open(db).unwrap(),
        name: Some(String::from("Geography Class")),
        version: Some(String::from("1.0.0")),
        tilejson: String::from("2.1.0"),
        scheme: String::from("xyz"),
        id: 1,
        tile_format: DataFormat::Png,
        grid_format: if grid { Some(DataFormat::Gzip) } else { None },
        bounds: Some(String::from("[-180.0,-85.0511,180.0,85.0511]")),
        center: Some(String::from("[0.0,0.0,1]")),
        minzoom: 0,
        maxzoom: 1,
        description: Some(String::from("A test tileset")),
        attribution: None,
        layer_type: None,
        legend: None,
        template: None,
        json: None,
    }
}

fn make_catalog(dbname: &str) -> SharedData {
    let db = make_db(dbname);
    let mut shared = SharedData::new();
    shared.insert_tileset(String::from("geography-class-png"), make_meta(&db, true));
    shared
}

fn setup(
    dbname: &str,
    host: &str,
    path: &str,
    allowed_hosts: Option<Vec<String>>,
    headers: Option<Vec<(String, String)>>,
    disable_preview: bool,
) -> HttpResponse {
    let shared = make_catalog(dbname);
    let hosts = allowed_hosts.unwrap_or(vec![String::from("*")]);
    let headers = headers.unwrap_or(vec![]);
    let blank = blank_image();
    get_service(
        path,
        Some(host),
        None,
        None,
        &hosts,
        &headers,
        disable_preview,
        &shared,
        "",
        &blank,
    )
}

fn body_bytes(r: HttpResponse) -> Vec<u8> {
    match r.body {
        ResponseBody::Text(t) => t.into_bytes(),
        ResponseBody::Bytes(b) => b,
        ResponseBody::Preview => panic!("preview body has no bytes"),
    }
}

#[test]
fn get_services() {
    let response = setup("svc", "localhost", "/services", None, None, false);
    assert_eq!(response.status, 200);
}

#[test]
fn forbidden_domain() {
    let response = setup(
        "forb",
        "localhost",
        "/services",
        Some(vec![String::from("example.com")]),
        None,
        false,
    );
    assert_eq!(response.status, 403);
}

#[test]
fn allowed_all_domains() {
    let response = setup(
        "alla",
        "example.com",
        "/services",
        Some(vec![String::from("*")]),
        None,
        false,
    );
    assert_eq!(response.status, 200);
}

#[test]
fn allowed_domain() {
    let response = setup(
        "alld",
        "example.com",
        "/services",
        Some(vec![String::from("example.com")]),
        None,
        false,
    );
    assert_eq!(response.status, 200);
}

#[test]
fn forbidden_subdomain() {
    let response = setup(
        "forbsub",
        "test.example.com",
        "/services",
        Some(vec![String::from("example.com")]),
        None,
        false,
    );
    assert_eq!(response.status, 403);
}

#[test]
fn allowed_subdomain() {
    let response = setup(
        "allsub",
        "test.example.com",
        "/services",
        Some(vec![String::from(".example.com")]),
        None,
        false,
    );
    assert_eq!(response.status, 200);
}

#[test]
fn get_details() {
    let response = setup(
        "det",
        "localhost",
        "/services/geography-class-png",
        None,
        None,
        false,
    );
    assert_eq!(response.status, 200);
}

#[test]
fn get_preview_map() {
    let response = setup(
        "prev",
        "localhost",
        "/services/geography-class-png/map",
        None,
        None,
        false,
    );
    assert_eq!(response.status, 200);
}

#[test]
fn get_existing_tile() {
    let response = setup(
        "extile",
        "localhost",
        "/services/geography-class-png/tiles/0/0/0.png",
        None,
        None,
        false,
    );
    assert_eq!(response.status, 200);
}

#[test]
fn get_non_existing_tile() {
    // The test tileset has no tiles beyond zoom level 1 and must answer
    // with the blank placeholder image.
    let response = setup(
        "notile",
        "localhost",
        "/services/geography-class-png/tiles/2/0/0.png",
        None,
        None,
        false,
    );
    assert_eq!(response.status, 200);
    assert_eq!(body_bytes(response), blank_image());
}

#[test]
fn get_existing_utfgrid_data() {
    let response = setup(
        "exgrid",
        "localhost",
        "/services/geography-class-png/tiles/0/0/0.json",
        None,
        None,
        false,
    );
    assert_eq!(response.status, 200);
    let decoded = gunzip(&body_bytes(response));
    let data: serde_json::Value = serde_json::from_slice(&decoded).unwrap();
    assert_ne!(data.get("data"), None);
    assert_ne!(data.get("grid"), None);
    assert_ne!(data.get("keys"), None);
}

#[test]
fn get_non_existing_utfgrid_data() {
    // An absent grid cell answers empty content under status 204.
    let response = setup(
        "nogrid",
        "localhost",
        "/services/geography-class-png/tiles/2/0/0.json",
        None,
        None,
        false,
    );
    assert_eq!(response.status, 204);
    assert_eq!(body_bytes(response), Vec::<u8>::new());
}

#[test]
fn disable_preview() {
    let response = setup(
        "disprev",
        "localhost",
        "/services/geography-class-png/map",
        None,
        None,
        true,
    );
    assert_eq!(response.status, 404);
}

#[test]
fn existing_tile_body_is_stored_blob() {
    let response = setup(
        "exbody",
        "localhost",
        "/services/geography-class-png/tiles/0/0/0.png",
        None,
        None,
        false,
    );
    assert_eq!(response.status, 200);
    assert_eq!(body_bytes(response), tile_bytes());
}

#[test]
fn tile_row_is_flipped_to_tms_once() {
    // The zoom-1 tile was stored under TMS row 1, which is XYZ row 0.
    let response = setup(
        "flip",
        "localhost",
        "/services/geography-class-png/tiles/1/0/0.png",
        None,
        None,
        false,
    );
    assert_eq!(response.status, 200);
    assert_eq!(body_bytes(response), vec![7u8, 7, 7]);
}

#[test]
fn grid_request_without_grid_format_is_not_found() {
    let db = make_db("nogridfmt");
    let mut shared = SharedData::new();
    shared.insert_tileset(String::from("plain"), make_meta(&db, false));
    let hosts = vec![String::from("*")];
    let blank = blank_image();
    let response = get_service(
        "/services/plain/tiles/0/0/0.json",
        Some("localhost"),
        None,
        None,
        &hosts,
        &vec![],
        false,
        &shared,
        "",
        &blank,
    );
    assert_eq!(response.status, 404);
}

#[test]
fn unknown_tileset_detail_is_bad_request() {
    let response = setup(
        "unk",
        "localhost",
        "/services/no-such-tileset",
        None,
        None,
        false,
    );
    assert_eq!(response.status, 400);
    assert_eq!(
        String::from_utf8(body_bytes(response)).unwrap(),
        "Tileset does not exist: no-such-tileset"
    );
}

#[test]
fn unmatched_path_is_not_found() {
    let response = setup("nf", "localhost", "/other/place", None, None, false);
    assert_eq!(response.status, 404);
    assert_eq!(String::from_utf8(body_bytes(response)).unwrap(), "Not Found");
}

#[test]
fn listing_has_one_entry_per_tileset() {
    let db = make_db("listing");
    let mut shared = SharedData::new();
    shared.insert_tileset(String::from("first"), make_meta(&db, true));
    shared.insert_tileset(String::from("second/nested"), make_meta(&db, false));
    let hosts = vec![String::from("*")];
    let blank = blank_image();
    let response = get_service(
        "/services",
        Some("localhost"),
        None,
        None,
        &hosts,
        &vec![],
        false,
        &shared,
        "",
        &blank,
    );
    assert_eq!(response.status, 200);
    let doc: serde_json::Value =
        serde_json::from_slice(&body_bytes(response)).unwrap();
    let entries = doc.as_array().unwrap();
    assert_eq!(entries.len(), 2);
    for entry in entries {
        let url = entry.get("url").unwrap().as_str().unwrap();
        assert!(url.starts_with("https://localhost/services/"));
    }
    assert_eq!(
        entries[1].get("url").unwrap().as_str().unwrap(),
        "https://localhost/services/second/nested"
    );
}

#[test]
fn detail_document_shape() {
    let response = setup(
        "detshape",
        "localhost",
        "/services/geography-class-png",
        None,
        None,
        false,
    );
    assert_eq!(response.status, 200);
    let doc: serde_json::Value =
        serde_json::from_slice(&body_bytes(response)).unwrap();
    let tiles = doc.get("tiles").unwrap().as_array().unwrap();
    assert_eq!(tiles.len(), 1);
    let template = tiles[0].as_str().unwrap();
    assert!(template.contains("{z}"));
    assert!(template.contains("{x}"));
    assert!(template.contains("{y}"));
    assert!(template.contains(".png"));
    assert_eq!(
        doc.get("map").unwrap().as_str().unwrap(),
        "https://localhost/services/geography-class-png/map"
    );
    assert_eq!(doc.get("minzoom").unwrap().as_i64(), Some(0));
    assert_eq!(doc.get("bounds").unwrap().as_array().unwrap().len(), 4);
}

#[test]
fn detail_document_without_preview_has_no_map_field() {
    let response = setup(
        "detnomap",
        "localhost",
        "/services/geography-class-png",
        None,
        None,
        true,
    );
    assert_eq!(response.status, 200);
    let doc: serde_json::Value =
        serde_json::from_slice(&body_bytes(response)).unwrap();
    assert_eq!(doc.get("map"), None);
}

#[test]
fn extra_metadata_overrides_generated_fields() {
    let db = make_db("extrameta");
    let mut meta = make_meta(&db, false);
    meta.json = Some(vec![
        (String::from("name"), String::from("\"Overridden\"")),
        (String::from("custom"), String::from("42")),
    ]);
    let mut shared = SharedData::new();
    shared.insert_tileset(String::from("x"), meta);
    let hosts = vec![String::from("*")];
    let blank = blank_image();
    let response = get_service(
        "/services/x",
        Some("localhost"),
        None,
        None,
        &hosts,
        &vec![],
        false,
        &shared,
        "",
        &blank,
    );
    let doc: serde_json::Value =
        serde_json::from_slice(&body_bytes(response)).unwrap();
    assert_eq!(doc.get("name").unwrap().as_str(), Some("Overridden"));
    assert_eq!(doc.get("custom").unwrap().as_i64(), Some(42));
}

#[test]
fn rescan_removal_turns_tileset_unknown() {
    let db = make_db("rescan");
    let mut old_snapshot = SharedData::new();
    old_snapshot.insert_tileset(String::from("gone"), make_meta(&db, false));
    let new_snapshot = SharedData::new();
    let hosts = vec![String::from("*")];
    let blank = blank_image();
    let old_response = get_service(
        "/services/gone",
        Some("localhost"),
        None,
        None,
        &hosts,
        &vec![],
        false,
        &old_snapshot,
        "",
        &blank,
    );
    let new_response = get_service(
        "/services/gone",
        Some("localhost"),
        None,
        None,
        &hosts,
        &vec![],
        false,
        &new_snapshot,
        "",
        &blank,
    );
    assert_eq!(old_response.status, 200);
    assert_eq!(new_response.status, 400);
    assert_eq!(
        String::from_utf8(body_bytes(new_response)).unwrap(),
        "Tileset does not exist: gone"
    );
}

#[test]
fn extra_headers_are_attached() {
    let response = setup(
        "hdrs",
        "localhost",
        "/services/geography-class-png/tiles/0/0/0.png",
        None,
        Some(vec![(String::from("Cache-Control"), String::from("no-cache"))]),
        false,
    );
    assert_eq!(response.headers[0].0, "Cache-Control");
    assert_eq!(response.headers[0].1, "no-cache");
    assert_eq!(response.headers[1].0, "Content-Type");
    assert_eq!(response.headers[1].1, "image/png");
}

#[test]
fn grid_miss_carries_extra_headers() {
    // The configured headers are applied uniformly to every tile-request
    // response, the empty 204 for an absent grid cell included.
    let response = setup(
        "gridhdr",
        "localhost",
        "/services/geography-class-png/tiles/2/0/0.json",
        None,
        Some(vec![(String::from("Cache-Control"), String::from("no-cache"))]),
        false,
    );
    assert_eq!(response.status, 204);
    assert_eq!(response.headers.len(), 1);
    assert_eq!(response.headers[0].0, "Cache-Control");
    assert_eq!(response.headers[0].1, "no-cache");
    assert_eq!(body_bytes(response), Vec::<u8>::new());
}

#[test]
fn grid_without_format_carries_extra_headers() {
    let db = make_db("gridhdr404");
    let mut shared = SharedData::new();
    shared.insert_tileset(String::from("plain"), make_meta(&db, false));
    let hosts = vec![String::from("*")];
    let headers = vec![(String::from("X-Served-By"), String::from("tileserver"))];
    let blank = blank_image();
    let response = get_service(
        "/services/plain/tiles/0/0/0.json",
        Some("localhost"),
        None,
        None,
        &hosts,
        &headers,
        false,
        &shared,
        "",
        &blank,
    );
    assert_eq!(response.status, 404);
    assert_eq!(response.headers.len(), 1);
    assert_eq!(response.headers[0].0, "X-Served-By");
    assert_eq!(String::from_utf8(body_bytes(response)).unwrap(), "Not Found");
}

#[test]
fn pbf_miss_carries_extra_headers() {
    let response = setup(
        "pbfhdr",
        "localhost",
        "/services/geography-class-png/tiles/5/1/1.pbf",
        None,
        Some(vec![(String::from("X-Extra"), String::from("yes"))]),
        false,
    );
    assert_eq!(response.status, 204);
    assert_eq!(response.headers.len(), 1);
    assert_eq!(response.headers[0].0, "X-Extra");
}

#[test]
fn utfgrid_served_from_zlib_grid() {
    let path = "/tmp/tileserver_test_zlibgrid.db";
    let conn = r2d2_sqlite::rusqlite::Connection::open(path).unwrap();
    conn.execute_batch(
        "CREATE TABLE IF NOT EXISTS grids (zoom_level INTEGER, tile_column INTEGER, tile_row INTEGER, grid BLOB);
         CREATE TABLE IF NOT EXISTS grid_data (zoom_level INTEGER, tile_column INTEGER, tile_row INTEGER, key_name TEXT, key_json TEXT);
         DELETE FROM grids; DELETE FROM grid_data;",
    )
    .unwrap();
    let mut enc =
        flate2::write::ZlibEncoder::new(Vec::new(), flate2::Compression::default());
    enc.write_all(b"{\"grid\":[\" \"],\"keys\":[\"\"]}").unwrap();
    let blob = enc.finish().unwrap();
    conn.execute(
        "INSERT INTO grids (zoom_level, tile_column, tile_row, grid) VALUES (0, 0, 0, ?1)",
        (blob,),
    )
    .unwrap();
    let mut meta = make_meta(path, true);
    meta.grid_format = Some(DataFormat::Zlib);
    let mut shared = SharedData::new();
    shared.insert_tileset(String::from("z"), meta);
    let hosts = vec![String::from("*")];
    let blank = blank_image();
    let response = get_service(
        "/services/z/tiles/0/0/0.json",
        Some("localhost"),
        None,
        None,
        &hosts,
        &vec![],
        false,
        &shared,
        "",
        &blank,
    );
    assert_eq!(response.status, 200);
    let decoded = gunzip(&body_bytes(response));
    let data: serde_json::Value = serde_json::from_slice(&decoded).unwrap();
    assert_ne!(data.get("grid"), None);
    assert_ne!(data.get("data"), None);
}
