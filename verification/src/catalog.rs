use vstd::prelude::*;
use crate::response::DataFormat;
use crate::routes::{digit_run_end, digit_run_end_exec, digits_val, lemma_run_all_digits, parse_u32};
use crate::storage::TilePool;
use crate::strutil::str_eq;

verus! {

/// One discovered tileset: the metadata its container declares, held as
/// plain values, and the pooled connection handle bound to the container
/// file. Bounds and center carry floating-point numbers, so they stand
/// here as their already-rendered JSON array text.
pub struct TileMeta {
    pub connection_pool: TilePool,
    pub name: Option<String>,
    pub version: Option<String>,
    pub tilejson: String,
    pub scheme: String,
    pub id: u64,
    pub tile_format: DataFormat,
    pub grid_format: Option<DataFormat>,
    pub bounds: Option<String>,
    pub center: Option<String>,
    pub minzoom: u32,
    pub maxzoom: u32,
    pub description: Option<String>,
    pub attribution: Option<String>,
    pub layer_type: Option<String>,
    pub legend: Option<String>,
    pub template: Option<String>,
    pub json: Option<Vec<(String, String)>>,
}

/// The catalog snapshot requests read: identifier to tileset entry, in
/// discovery order. A snapshot is an owned value; a rescan builds a new
/// one and publishes it whole, so a reader's snapshot never changes under
/// it.
pub struct SharedData {
    pub tileset: Vec<(String, TileMeta)>,
}

/// The first entry keyed `id`, scanning in order.
pub open spec fn find_tileset(entries: Seq<(String, TileMeta)>, id: Seq<char>) -> Option<
    TileMeta,
>
    decreases entries.len(),
{
    if entries.len() == 0 {
        None
    } else if entries[0].0@ == id {
        Some(entries[0].1)
    } else {
        find_tileset(entries.drop_first(), id)
    }
}

/// Whether the catalog holds an entry keyed `id`.
pub open spec fn has_tileset(entries: Seq<(String, TileMeta)>, id: Seq<char>) -> bool {
    find_tileset(entries, id) is Some
}

proof fn lemma_find_tileset_at(entries: Seq<(String, TileMeta)>, id: Seq<char>, i: int)
    requires
        0 <= i <= entries.len(),
        forall|j: int| 0 <= j < i ==> entries[j].0@ != id,
        i == entries.len() || entries[i].0@ == id,
    ensures
        find_tileset(entries, id) == if i < entries.len() {
            Some(entries[i].1)
        } else {
            None::<TileMeta>
        },
    decreases entries.len(),
{
    if entries.len() > 0 && i > 0 {
        lemma_find_tileset_at(entries.drop_first(), id, i - 1);
    }
}

impl SharedData {
    /// An empty catalog.
    pub fn new() -> (r: SharedData)
        ensures
            r.tileset@.len() == 0,
    {
        SharedData { tileset: Vec::new() }
    }

    /// The entry a tileset identifier resolves to, if the catalog holds
    /// one.
    pub fn get_tileset<'a>(&'a self, id: &str) -> (r: Option<&'a TileMeta>)
        ensures
            match r {
                Some(m) => find_tileset(self.tileset@, id@) == Some(*m),
                None => find_tileset(self.tileset@, id@) is None,
            },
    {
        let n = self.tileset.len();
        let mut i: usize = 0;
        while i < n
            invariant
                n == self.tileset@.len(),
                i <= n,
                forall|j: int| 0 <= j < i ==> self.tileset@[j].0@ != id@,
            decreases n - i,
        {
            if str_eq(self.tileset[i].0.as_str(), id) {
                proof {
                    lemma_find_tileset_at(self.tileset@, id@, i as int);
                }
                return Some(&self.tileset[i].1);
            }
            i += 1;
        }
        proof {
            lemma_find_tileset_at(self.tileset@, id@, n as int);
        }
        None
    }

    /// Puts one discovered tileset in the catalog: an entry already keyed
    /// by the same identifier is replaced in place, as a fresh scan's
    /// finding supersedes it; a new identifier goes to the end.
    pub fn insert_tileset(&mut self, id: String, meta: TileMeta)
        ensures
            final(self).tileset@.len() >= old(self).tileset@.len(),
            find_tileset(final(self).tileset@, id@) == Some(meta),
            forall|other: Seq<char>| other != id@ ==> find_tileset(
                final(self).tileset@,
                other,
            ) == find_tileset(old(self).tileset@, other),
    {
        let n = self.tileset.len();
        let mut i: usize = 0;
        while i < n
            invariant
                n == self.tileset@.len(),
                self.tileset@ == old(self).tileset@,
                i <= n,
                forall|j: int| 0 <= j < i ==> self.tileset@[j].0@ != id@,
            decreases n - i,
        {
            if str_eq(self.tileset[i].0.as_str(), id.as_str()) {
                let ghost before = self.tileset@;
                let ghost ii = i as int;
                self.tileset[i] = (id, meta);
                proof {
                    let after = self.tileset@;
                    assert(after =~= before.update(ii, after[ii]));
                    lemma_find_tileset_at(after, after[ii].0@, ii);
                    assert forall|other: Seq<char>| other != after[ii].0@ implies find_tileset(
                        after,
                        other,
                    ) == find_tileset(before, other) by {
                        lemma_find_tileset_same(after, before, other);
                    }
                }
                return;
            }
            i += 1;
        }
        let ghost before = self.tileset@;
        self.tileset.push((id, meta));
        proof {
            let after = self.tileset@;
            let p = after.last();
            assert(after =~= before.push(p));
            lemma_find_tileset_at(after, p.0@, before.len() as int);
            assert forall|other: Seq<char>| other != p.0@ implies find_tileset(after, other)
                == find_tileset(before, other) by {
                lemma_find_tileset_push_other(before, p, other);
            }
        }
    }
}

proof fn lemma_find_tileset_same(
    a: Seq<(String, TileMeta)>,
    b: Seq<(String, TileMeta)>,
    other: Seq<char>,
)
    requires
        a.len() == b.len(),
        forall|j: int| 0 <= j < a.len() ==> a[j].0@ == b[j].0@,
        forall|j: int| 0 <= j < a.len() && a[j].0@ == other ==> a[j].1 == b[j].1,
    ensures
        find_tileset(a, other) == find_tileset(b, other),
    decreases a.len(),
{
    if a.len() > 0 {
        if a[0].0@ == other {
        } else {
            let at = a.drop_first();
            let bt = b.drop_first();
            assert(forall|j: int| 0 <= j < at.len() ==> at[j] == a[j + 1] && bt[j] == b[j + 1]);
            lemma_find_tileset_same(at, bt, other);
        }
    }
}

proof fn lemma_find_tileset_push_other(
    entries: Seq<(String, TileMeta)>,
    p: (String, TileMeta),
    other: Seq<char>,
)
    requires
        p.0@ != other,
    ensures
        find_tileset(entries.push(p), other) == find_tileset(entries, other),
    decreases entries.len(),
{
    let pushed = entries.push(p);
    if entries.len() == 0 {
        assert(pushed[0] == p);
        assert(pushed.drop_first() =~= Seq::<(String, TileMeta)>::empty());
        assert(find_tileset(pushed, other) is None);
    } else {
        assert(pushed[0] == entries[0]);
        assert(pushed.drop_first() =~= entries.drop_first().push(p));
        lemma_find_tileset_push_other(entries.drop_first(), p, other);
        if entries[0].0@ == other {
            assert(find_tileset(pushed, other) == Some(pushed[0].1));
            assert(find_tileset(entries, other) == Some(entries[0].1));
        } else {
            assert(find_tileset(pushed, other) == find_tileset(pushed.drop_first(), other));
            assert(find_tileset(entries, other) == find_tileset(entries.drop_first(), other));
        }
    }
}

/// Where the extension starts in a relative path: the position of the last
/// `.` of the last path segment, or the length when that segment has none.
pub open spec fn ext_cut(s: Seq<char>, i: int) -> int
    decreases i,
{
    if i <= 0 {
        s.len() as int
    } else if s[i - 1] == '.' {
        i - 1
    } else if s[i - 1] == '/' {
        s.len() as int
    } else {
        ext_cut(s, i - 1)
    }
}

/// A tileset identifier derived from a container's path relative to the
/// scan root: the path with its extension stripped.
pub open spec fn id_of_path(s: Seq<char>) -> Seq<char> {
    s.subrange(0, ext_cut(s, s.len() as int))
}

/// Derives the catalog identifier from a container file's path relative
/// to the scan root (already forward-slash separated): the extension of
/// the final segment is stripped.
pub fn path_to_id(s: &str) -> (r: String)
    ensures
        r@ == id_of_path(s@),
{
    let len = s.unicode_len();
    let mut i: usize = len;
    while i > 0
        invariant
            len == s@.len(),
            i <= len,
            ext_cut(s@, len as int) == ext_cut(s@, i as int),
        decreases i,
    {
        let c = s.get_char(i - 1);
        if c == '.' {
            return s.substring_char(0, i - 1).to_owned();
        }
        if c == '/' {
            proof {
                assert(s@.subrange(0, s@.len() as int) =~= s@);
            }
            return s.to_owned();
        }
        i -= 1;
    }
    proof {
        assert(s@.subrange(0, s@.len() as int) =~= s@);
    }
    s.to_owned()
}

/// The view of optional bytes.
pub open spec fn opt_bytes(o: Option<Vec<u8>>) -> Option<Seq<u8>> {
    match o {
        Some(b) => Some(b@),
        None => None,
    }
}

/// The view of an optional text.
pub open spec fn opt_text(o: Option<String>) -> Option<Seq<char>> {
    match o {
        Some(t) => Some(t@),
        None => None,
    }
}

/// The tile format a container's first tile blob declares by its leading
/// magic bytes: PNG, JPEG, WebP (RIFF), or a gzip stream, which holds a
/// vector tile; anything else, or no tile at all, is unclassified.
pub open spec fn tile_format_of(first: Option<Seq<u8>>) -> DataFormat {
    match first {
        Some(b) => if b.len() >= 2 {
            if b[0] == 0x89 && b[1] == 0x50 {
                DataFormat::Png
            } else if b[0] == 0xff && b[1] == 0xd8 {
                DataFormat::Jpg
            } else if b[0] == 0x52 && b[1] == 0x49 {
                DataFormat::Webp
            } else if b[0] == 0x1f && b[1] == 0x8b {
                DataFormat::Pbf
            } else {
                DataFormat::Unknown
            }
        } else {
            DataFormat::Unknown
        },
        None => DataFormat::Unknown,
    }
}

/// The compression a container's first grid blob declares by its leading
/// bytes: a gzip or zlib stream; anything else, or no grid table, means
/// no grid format is declared.
pub open spec fn grid_format_of(first: Option<Seq<u8>>) -> Option<DataFormat> {
    match first {
        Some(b) => if b.len() >= 2 && b[0] == 0x1f && b[1] == 0x8b {
            Some(DataFormat::Gzip)
        } else if b.len() >= 2 && b[0] == 0x78 {
            Some(DataFormat::Zlib)
        } else {
            None
        },
        None => None,
    }
}

/// The zoom level a metadata text writes: a non-empty run of decimal
/// digits that fits 32 bits, and nothing otherwise.
pub open spec fn zoom_value(t: Seq<char>) -> Option<u32> {
    if t.len() > 0 && digit_run_end(t, 0) == t.len() && digits_val(t) <= u32::MAX {
        Some(digits_val(t) as u32)
    } else {
        None
    }
}

/// A zoom metadata field, or the given default where the field is absent
/// or unreadable.
pub open spec fn zoom_or(t: Option<Seq<char>>, default: u32) -> u32 {
    match t {
        Some(s) => match zoom_value(s) {
            Some(v) => v,
            None => default,
        },
        None => default,
    }
}

/// A comma-separated metadata value wrapped as a JSON array text.
pub open spec fn bracketed(t: Seq<char>) -> Seq<char> {
    "["@ + t + "]"@
}

/// Classifies a container's first tile blob, exactly as `tile_format_of`
/// says.
pub fn detect_tile_format(first: &Option<Vec<u8>>) -> (r: DataFormat)
    ensures
        r == tile_format_of(opt_bytes(*first)),
{
    if first.is_none() {
        return DataFormat::Unknown;
    }
    let b = first.as_ref().unwrap();
    if b.len() < 2 {
        return DataFormat::Unknown;
    }
    if b[0] == 0x89 && b[1] == 0x50 {
        DataFormat::Png
    } else if b[0] == 0xff && b[1] == 0xd8 {
        DataFormat::Jpg
    } else if b[0] == 0x52 && b[1] == 0x49 {
        DataFormat::Webp
    } else if b[0] == 0x1f && b[1] == 0x8b {
        DataFormat::Pbf
    } else {
        DataFormat::Unknown
    }
}

/// Classifies a container's first grid blob, exactly as `grid_format_of`
/// says.
pub fn detect_grid_format(first: &Option<Vec<u8>>) -> (r: Option<DataFormat>)
    ensures
        r == grid_format_of(opt_bytes(*first)),
{
    if first.is_none() {
        return None;
    }
    let b = first.as_ref().unwrap();
    if b.len() >= 2 && b[0] == 0x1f && b[1] == 0x8b {
        Some(DataFormat::Gzip)
    } else if b.len() >= 2 && b[0] == 0x78 {
        Some(DataFormat::Zlib)
    } else {
        None
    }
}

/// Reads a zoom metadata field, exactly as `zoom_or` says.
pub fn parse_zoom(text: &Option<String>, default: u32) -> (r: u32)
    ensures
        r == zoom_or(opt_text(*text), default),
{
    if text.is_none() {
        return default;
    }
    let s = text.as_ref().unwrap().as_str();
    let len = s.unicode_len();
    if len == 0 {
        return default;
    }
    let e = digit_run_end_exec(s, 0);
    if e != len {
        return default;
    }
    proof {
        lemma_run_all_digits(s@, 0, len as int);
        assert(s@.subrange(0, len as int) =~= s@);
    }
    match parse_u32(s, 0, len) {
        Some(v) => v,
        None => default,
    }
}

/// Wraps a comma-separated metadata value as a JSON array text.
fn bracket_csv(text: &Option<String>) -> (r: Option<String>)
    ensures
        r is Some <==> text is Some,
        r is Some ==> r->0@ == bracketed(text->0@),
{
    if text.is_none() {
        return None;
    }
    let mut out = String::from_str("[");
    out.append(text.as_ref().unwrap().as_str());
    out.append("]");
    proof {
        assert(out@ =~= bracketed(text->0@));
    }
    Some(out)
}

/// The metadata rows a scan reads out of a container, as plain text, plus
/// the extra free-form fields already rendered as (key, JSON value)
/// pairs.
pub struct RawMetadata {
    pub name: Option<String>,
    pub version: Option<String>,
    pub description: Option<String>,
    pub attribution: Option<String>,
    pub layer_type: Option<String>,
    pub legend: Option<String>,
    pub template: Option<String>,
    pub bounds: Option<String>,
    pub center: Option<String>,
    pub minzoom: Option<String>,
    pub maxzoom: Option<String>,
    pub json: Option<Vec<(String, String)>>,
}

/// Builds one catalog entry from what a scan read out of a container:
/// the metadata rows, the first tile and grid blobs for format
/// classification, and the opened pool. Zoom fields default to 0 and 22;
/// bounds and center are wrapped as JSON array text; the tiling scheme
/// and TileJSON version are the ones this server speaks.
pub fn build_tile_meta(
    pool: TilePool,
    numeric_id: u64,
    raw: RawMetadata,
    first_tile: &Option<Vec<u8>>,
    first_grid: &Option<Vec<u8>>,
) -> (m: TileMeta)
    ensures
        m.id == numeric_id,
        m.tilejson@ == "2.1.0"@,
        m.scheme@ == "xyz"@,
        m.tile_format == tile_format_of(opt_bytes(*first_tile)),
        m.grid_format == grid_format_of(opt_bytes(*first_grid)),
        m.minzoom == zoom_or(opt_text(raw.minzoom), 0),
        m.maxzoom == zoom_or(opt_text(raw.maxzoom), 22),
        m.bounds is Some <==> raw.bounds is Some,
        m.bounds is Some ==> m.bounds->0@ == bracketed(raw.bounds->0@),
        m.center is Some <==> raw.center is Some,
        m.center is Some ==> m.center->0@ == bracketed(raw.center->0@),
        m.name == raw.name,
        m.version == raw.version,
        m.description == raw.description,
        m.attribution == raw.attribution,
        m.layer_type == raw.layer_type,
        m.legend == raw.legend,
        m.template == raw.template,
        m.json == raw.json,
{
    TileMeta {
        connection_pool: pool,
        tile_format: detect_tile_format(first_tile),
        grid_format: detect_grid_format(first_grid),
        tilejson: String::from_str("2.1.0"),
        scheme: String::from_str("xyz"),
        id: numeric_id,
        minzoom: parse_zoom(&raw.minzoom, 0),
        maxzoom: parse_zoom(&raw.maxzoom, 22),
        bounds: bracket_csv(&raw.bounds),
        center: bracket_csv(&raw.center),
        name: raw.name,
        version: raw.version,
        description: raw.description,
        attribution: raw.attribution,
        layer_type: raw.layer_type,
        legend: raw.legend,
        template: raw.template,
        json: raw.json,
    }
}

} // verus!
