use vstd::prelude::*;
use std::io::Read;
use std::io::Write;
use crate::coords::flip_row_checked;
use crate::coords::row_in_range;

verus! {

/// A pooled set of connections on one tile container file, held behind
/// r2d2's pool of r2d2_sqlite-managed connections. The pool itself is
/// opaque here; the query wrappers below are the only doors to it.
#[verifier::external_body]
pub struct TilePool {
    pool: r2d2::Pool<r2d2_sqlite::SqliteConnectionManager>,
}

impl TilePool {
    /// Relies on r2d2_sqlite's `SqliteConnectionManager::file` and r2d2's
    /// `Pool`: opens a pooled set of connections on one container file,
    /// or fails when no connection can be established.
    #[verifier::external_body]
    pub fn open(path: &str) -> (r: Option<TilePool>) {
        let manager = r2d2_sqlite::SqliteConnectionManager::file(path);
        match r2d2::Pool::builder().max_size(4).build(manager) {
            Ok(pool) => Some(TilePool { pool }),
            Err(_) => None,
        }
    }
}

/// Relies on r2d2's `Pool::get` and rusqlite's `Connection::query_row`:
/// the point lookup of a tile blob at (zoom, column, TMS row). What comes
/// back depends on the container file, so nothing is promised of it; a
/// pool or query failure reads as a miss.
#[verifier::external_body]
fn query_tile_blob(pool: &TilePool, z: u32, x: u32, y_tms: u32) -> (r: Option<Vec<u8>>) {
    let conn = match pool.pool.get() {
        Ok(c) => c,
        Err(_) => return None,
    };
    conn.query_row(
        "SELECT tile_data FROM tiles WHERE zoom_level = ?1 AND tile_column = ?2 AND tile_row = ?3",
        (z, x, y_tms),
        |row| row.get(0),
    ).ok()
}

/// Relies on r2d2's `Pool::get` and rusqlite's `Connection::query_row`:
/// the point lookup of the compressed grid blob at (zoom, column, TMS
/// row). Nothing is promised of the result.
#[verifier::external_body]
fn query_grid_blob(pool: &TilePool, z: u32, x: u32, y_tms: u32) -> (r: Option<Vec<u8>>) {
    let conn = match pool.pool.get() {
        Ok(c) => c,
        Err(_) => return None,
    };
    conn.query_row(
        "SELECT grid FROM grids WHERE zoom_level = ?1 AND tile_column = ?2 AND tile_row = ?3",
        (z, x, y_tms),
        |row| row.get(0),
    ).ok()
}

/// Relies on rusqlite's `Statement::query_map`: the grid interaction rows
/// (key name, key JSON) at (zoom, column, TMS row). Nothing is promised of
/// the result.
#[verifier::external_body]
fn query_grid_entries(pool: &TilePool, z: u32, x: u32, y_tms: u32) -> (r: Option<
    Vec<(String, String)>,
>) {
    let conn = pool.pool.get().ok()?;
    let mut stmt = conn.prepare(
        "SELECT key_name, key_json FROM grid_data WHERE zoom_level = ?1 AND tile_column = ?2 AND tile_row = ?3",
    ).ok()?;
    let rows = stmt.query_map((z, x, y_tms), |row| Ok((row.get(0)?, row.get(1)?))).ok()?;
    let mut out = Vec::new();
    for row in rows {
        out.push(row.ok()?);
    }
    Some(out)
}

/// The gzip stream flate2 writes for a text, at the default level. The
/// result depends on the characters alone: the encoder stamps the header
/// with time zero and a fixed operating-system byte, and the default Rust
/// backend deflates deterministically.
pub uninterp spec fn gzip_of(text: Seq<char>) -> Seq<u8>;

/// What flate2 reads back out of a gzip stream: the payload bytes, or
/// nothing when the stream is malformed. A function of the bytes alone.
pub uninterp spec fn ungzip_of(data: Seq<u8>) -> Option<Seq<u8>>;

/// What flate2 reads back out of a zlib stream, as `ungzip_of`.
pub uninterp spec fn unzlib_of(data: Seq<u8>) -> Option<Seq<u8>>;

/// The characters a byte sequence decodes to as UTF-8, or nothing when it
/// is not well-formed UTF-8. A function of the bytes alone.
pub uninterp spec fn utf8_of(data: Seq<u8>) -> Option<Seq<char>>;

/// Relies on flate2's `write::GzEncoder`: gzip compression of a text, a
/// function of its characters alone (see `gzip_of`).
#[verifier::external_body]
pub fn gzip_compress(text: &str) -> (r: Vec<u8>)
    ensures
        r@ == gzip_of(text@),
{
    let mut encoder = flate2::write::GzEncoder::new(Vec::new(), flate2::Compression::default());
    if encoder.write_all(text.as_bytes()).is_err() {
        return Vec::new();
    }
    encoder.finish().unwrap_or_default()
}

/// Relies on flate2's `read::GzDecoder`: gzip decompression, `None` on a
/// malformed stream, and a function of the bytes alone (see `ungzip_of`).
#[verifier::external_body]
pub fn gzip_decompress(data: &[u8]) -> (r: Option<Vec<u8>>)
    ensures
        r is Some <==> ungzip_of(data@) is Some,
        r is Some ==> r->0@ == ungzip_of(data@)->0,
{
    let mut out = Vec::new();
    let mut decoder = flate2::read::GzDecoder::new(data);
    match decoder.read_to_end(&mut out) {
        Ok(_) => Some(out),
        Err(_) => None,
    }
}

/// Relies on flate2's `read::ZlibDecoder`: zlib decompression, `None` on a
/// malformed stream, and a function of the bytes alone (see `unzlib_of`).
#[verifier::external_body]
pub fn zlib_decompress(data: &[u8]) -> (r: Option<Vec<u8>>)
    ensures
        r is Some <==> unzlib_of(data@) is Some,
        r is Some ==> r->0@ == unzlib_of(data@)->0,
{
    let mut out = Vec::new();
    let mut decoder = flate2::read::ZlibDecoder::new(data);
    match decoder.read_to_end(&mut out) {
        Ok(_) => Some(out),
        Err(_) => None,
    }
}

/// Relies on std's `String::from_utf8`: the bytes as text when they are
/// well-formed UTF-8, `None` otherwise (see `utf8_of`).
#[verifier::external_body]
pub fn bytes_to_string(data: &Vec<u8>) -> (r: Option<String>)
    ensures
        r is Some <==> utf8_of(data@) is Some,
        r is Some ==> r->0@ == utf8_of(data@)->0,
{
    String::from_utf8(data.clone()).ok()
}

/// Looks a tile blob up at an XYZ coordinate: the row is flipped to the
/// TMS order the container keys rows by, exactly once, here at the
/// storage boundary. A coordinate outside the pyramid is a plain miss.
pub fn fetch_tile(pool: &TilePool, z: u32, x: u32, y: u32) -> (r: Option<Vec<u8>>)
    ensures
        !row_in_range(z as nat, y as nat) ==> r is None,
{
    match flip_row_checked(z, y) {
        Some(y_tms) => query_tile_blob(pool, z, x, y_tms),
        None => None,
    }
}

/// Looks the compressed grid blob up at an XYZ coordinate, with the same
/// single row flip as tile lookups.
pub fn fetch_grid_blob(pool: &TilePool, z: u32, x: u32, y: u32) -> (r: Option<Vec<u8>>)
    ensures
        !row_in_range(z as nat, y as nat) ==> r is None,
{
    match flip_row_checked(z, y) {
        Some(y_tms) => query_grid_blob(pool, z, x, y_tms),
        None => None,
    }
}

/// Looks the grid interaction rows up at an XYZ coordinate, with the same
/// single row flip as tile lookups.
pub fn fetch_grid_entries(pool: &TilePool, z: u32, x: u32, y: u32) -> (r: Option<
    Vec<(String, String)>,
>)
    ensures
        !row_in_range(z as nat, y as nat) ==> r is None,
{
    match flip_row_checked(z, y) {
        Some(y_tms) => query_grid_entries(pool, z, x, y_tms),
        None => None,
    }
}

} // verus!
