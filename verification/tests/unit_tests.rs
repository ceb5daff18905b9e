use tileserver::catalog::path_to_id;
use tileserver::coords::{flip_row, flip_row_checked};
use tileserver::hosts::is_host_valid;
use tileserver::json::{object_to_string, u32_to_string, u64_to_string};
use tileserver::response::{bad_request, forbidden, no_content, not_found, server_error, DataFormat, ResponseBody};
use tileserver::routes::{classify, Route};
use tileserver::catalog::{build_tile_meta, detect_grid_format, detect_tile_format, RawMetadata};
use tileserver::storage::TilePool;

#[test]
fn flip_row_is_an_involution() {
    assert_eq!(flip_row(0, 0), 0);
    assert_eq!(flip_row(1, 0), 1);
    assert_eq!(flip_row(1, 1), 0);
    assert_eq!(flip_row(3, flip_row(3, 5)), 5);
    assert_eq!(flip_row(2, 0), 3);
    assert_eq!(flip_row(31, 0), 2147483647);
}

#[test]
fn flip_row_checked_rejects_out_of_range() {
    assert_eq!(flip_row_checked(2, 4), None);
    assert_eq!(flip_row_checked(32, 0), None);
    assert_eq!(flip_row_checked(2, 3), Some(0));
}

#[test]
fn wildcard_allows_any_host() {
    let rules = vec![String::from("*")];
    assert!(is_host_valid(Some("anything.example"), &rules));
    assert!(is_host_valid(Some("localhost:8080"), &rules));
}

#[test]
fn dotted_rule_matches_subdomain_only() {
    let rules = vec![String::from(".b.com")];
    assert!(is_host_valid(Some("a.b.com"), &rules));
    assert!(!is_host_valid(Some("b.com"), &rules));
}

#[test]
fn missing_host_is_rejected() {
    assert!(!is_host_valid(None, &vec![String::from("*")]));
    assert!(!is_host_valid(None, &vec![]));
}

#[test]
fn port_is_stripped_before_matching() {
    let rules = vec![String::from("localhost")];
    assert!(is_host_valid(Some("localhost:3000"), &rules));
    assert!(!is_host_valid(Some("localhost3000"), &rules));
}

#[test]
fn decimal_rendering() {
    assert_eq!(u32_to_string(0), "0");
    assert_eq!(u32_to_string(42), "42");
    assert_eq!(u32_to_string(4294967295), "4294967295");
    assert_eq!(u64_to_string(10000000000), "10000000000");
}

#[test]
fn object_rendering_escapes_keys() {
    let fields = vec![
        (String::from("a\"b"), String::from("1")),
        (String::from("line\nbreak"), String::from("null")),
    ];
    assert_eq!(
        object_to_string(&fields),
        "{\"a\\\"b\":1,\"line\\nbreak\":null}"
    );
}

#[test]
fn classify_tile_route() {
    match classify("/services/geography-class-png/tiles/4/3/7.png") {
        Route::Tile { id, z, x, y, ext } => {
            assert_eq!(id, "geography-class-png");
            assert_eq!(z, 4);
            assert_eq!(x, 3);
            assert_eq!(y, 7);
            assert_eq!(ext, "png");
        },
        _ => panic!("expected a tile route"),
    }
}

#[test]
fn classify_takes_longest_tileset_id() {
    match classify("/services/a/tiles/b/tiles/1/2/3.pbf") {
        Route::Tile { id, z, x, y, ext } => {
            assert_eq!(id, "a/tiles/b");
            assert_eq!(z, 1);
            assert_eq!(x, 2);
            assert_eq!(y, 3);
            assert_eq!(ext, "pbf");
        },
        _ => panic!("expected a tile route"),
    }
}

#[test]
fn classify_tile_route_with_query() {
    match classify("/services/base/tiles/0/0/0.json?key=value") {
        Route::Tile { id, ext, .. } => {
            assert_eq!(id, "base");
            assert_eq!(ext, "json");
        },
        _ => panic!("expected a tile route"),
    }
}

#[test]
fn classify_listing_and_detail() {
    assert!(matches!(classify("/services"), Route::Listing));
    assert!(matches!(classify("/services/"), Route::Listing));
    match classify("/services/some/nested/id") {
        Route::Detail { id } => assert_eq!(id, "some/nested/id"),
        _ => panic!("expected a detail route"),
    }
}

#[test]
fn classify_rejects_everything_else() {
    assert!(matches!(classify("/"), Route::NotFound));
    assert!(matches!(classify("/static/app.js"), Route::NotFound));
    assert!(matches!(classify("/servicesfoo"), Route::NotFound));
}

#[test]
fn gateway_prefix_is_stripped() {
    let shared = tileserver::catalog::SharedData::new();
    let hosts = vec![String::from("*")];
    let blank = vec![0u8];
    let response = tileserver::service::get_service(
        "/api/tileserver/services",
        Some("localhost"),
        None,
        None,
        &hosts,
        &vec![],
        false,
        &shared,
        "",
        &blank,
    );
    assert_eq!(response.status, 200);
    match response.body {
        tileserver::response::ResponseBody::Text(t) => assert_eq!(t, "[]"),
        _ => panic!("expected a textual body"),
    }
}

#[test]
fn data_format_round_trip() {
    assert_eq!(DataFormat::new("png").format(), "png");
    assert_eq!(DataFormat::new("jpeg").format(), "jpg");
    assert_eq!(DataFormat::new("png").content_type(), "image/png");
    assert_eq!(DataFormat::new("pbf").content_type(), "application/x-protobuf");
    assert_eq!(DataFormat::new("nope").content_type(), "application/octet-stream");
}

#[test]
fn path_to_id_strips_extension() {
    assert_eq!(path_to_id("world.mbtiles"), "world");
    assert_eq!(path_to_id("nested/dir/map.v2.mbtiles"), "nested/dir/map.v2");
    assert_eq!(path_to_id("no_extension"), "no_extension");
    assert_eq!(path_to_id("dotted.dir/plain"), "dotted.dir/plain");
}

#[test]
fn tile_format_detection_by_magic_bytes() {
    assert_eq!(detect_tile_format(&Some(vec![0x89, 0x50, 0x4e])), DataFormat::Png);
    assert_eq!(detect_tile_format(&Some(vec![0xff, 0xd8, 0xff])), DataFormat::Jpg);
    assert_eq!(detect_tile_format(&Some(vec![0x52, 0x49, 0x46])), DataFormat::Webp);
    assert_eq!(detect_tile_format(&Some(vec![0x1f, 0x8b, 0x08])), DataFormat::Pbf);
    assert_eq!(detect_tile_format(&Some(vec![0x00])), DataFormat::Unknown);
    assert_eq!(detect_tile_format(&None), DataFormat::Unknown);
    assert_eq!(detect_grid_format(&Some(vec![0x1f, 0x8b])), Some(DataFormat::Gzip));
    assert_eq!(detect_grid_format(&Some(vec![0x78, 0x9c])), Some(DataFormat::Zlib));
    assert_eq!(detect_grid_format(&Some(vec![0x7b, 0x22])), None);
    assert_eq!(detect_grid_format(&None), None);
}

#[test]
fn metadata_entry_is_built_from_raw_values() {
    let pool = TilePool::open("/tmp/tileserver_test_buildmeta.db").unwrap();
    let raw = RawMetadata {
        name: Some(String::from("World")),
        version: None,
        description: None,
        attribution: None,
        layer_type: None,
        legend: None,
        template: None,
        bounds: Some(String::from("-180,-85,180,85")),
        center: None,
        minzoom: Some(String::from("3")),
        maxzoom: Some(String::from("oops")),
        json: None,
    };
    let meta = build_tile_meta(pool, 7, raw, &Some(vec![0x89, 0x50]), &None);
    assert_eq!(meta.id, 7);
    assert_eq!(meta.tilejson, "2.1.0");
    assert_eq!(meta.scheme, "xyz");
    assert_eq!(meta.tile_format, DataFormat::Png);
    assert_eq!(meta.grid_format, None);
    assert_eq!(meta.minzoom, 3);
    assert_eq!(meta.maxzoom, 22);
    assert_eq!(meta.bounds.as_deref(), Some("[-180,-85,180,85]"));
    assert_eq!(meta.center, None);
    assert_eq!(meta.name.as_deref(), Some("World"));
}

#[test]
fn fixed_responses() {
    let text = |b: ResponseBody| match b {
        ResponseBody::Text(t) => t,
        _ => panic!("expected a textual body"),
    };
    let r = not_found();
    assert_eq!(r.status, 404);
    assert_eq!(text(r.body), "Not Found");
    let r = no_content();
    assert_eq!(r.status, 204);
    assert_eq!(text(r.body), "");
    let r = forbidden();
    assert_eq!(r.status, 403);
    assert_eq!(text(r.body), "Forbidden");
    let r = server_error();
    assert_eq!(r.status, 500);
    assert_eq!(text(r.body), "Internal Server Error");
    let r = bad_request(String::from("Tileset does not exist: x"));
    assert_eq!(r.status, 400);
    assert_eq!(text(r.body), "Tileset does not exist: x");
    assert!(r.headers.is_empty());
}
