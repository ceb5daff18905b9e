use vstd::prelude::*;
use crate::catalog::TileMeta;
use crate::json::{
    append_json_opt_str, append_json_str, dec_str, fields_view, json_opt_str, json_str,
    merge_fields, merge_into, object_to_string, render_object, u32_to_string, u64_to_string,
};
use crate::response::format_ext;
use crate::strutil::contains_seq;

verus! {

/// The view of an optional text.
pub open spec fn opt_view(s: Option<String>) -> Option<Seq<char>> {
    match s {
        Some(t) => Some(t@),
        None => None,
    }
}

/// The one tile URL template of a tileset: base URL, identifier, the
/// `{z}/{x}/{y}` placeholders, the format extension, and the request's
/// query string if it carried one.
pub open spec fn tile_template(
    base: Seq<char>,
    id: Seq<char>,
    ext: Seq<char>,
    query: Seq<char>,
) -> Seq<char> {
    base + "/"@ + id + "/tiles/{z}/{x}/{y}."@ + ext + query
}

/// The grid URL template of a tileset that declares a grid format.
pub open spec fn grid_template(base: Seq<char>, id: Seq<char>, query: Seq<char>) -> Seq<char> {
    base + "/"@ + id + "/tiles/{z}/{x}/{y}.json"@ + query
}

/// The generated fields of a tileset's TileJSON document, in order,
/// before extra metadata is merged in and before the preview link.
pub open spec fn detail_fields(
    m: TileMeta,
    base: Seq<char>,
    id: Seq<char>,
    query: Seq<char>,
) -> Seq<(Seq<char>, Seq<char>)> {
    seq![
        ("name"@, json_opt_str(opt_view(m.name))),
        ("version"@, json_opt_str(opt_view(m.version))),
        ("tiles"@, "["@ + json_str(tile_template(base, id, format_ext(m.tile_format), query)) + "]"@),
        ("tilejson"@, json_str(m.tilejson@)),
        ("scheme"@, json_str(m.scheme@)),
        ("id"@, dec_str(m.id as nat)),
        ("format"@, json_str(format_ext(m.tile_format))),
        ("grids"@, if m.grid_format is Some {
            "["@ + json_str(grid_template(base, id, query)) + "]"@
        } else {
            "null"@
        }),
        ("bounds"@, match m.bounds { Some(b) => b@, None => "null"@ }),
        ("center"@, match m.center { Some(c) => c@, None => "null"@ }),
        ("minzoom"@, dec_str(m.minzoom as nat)),
        ("maxzoom"@, dec_str(m.maxzoom as nat)),
        ("description"@, json_opt_str(opt_view(m.description))),
        ("attribution"@, json_opt_str(opt_view(m.attribution))),
        ("type"@, json_opt_str(opt_view(m.layer_type))),
        ("legend"@, json_opt_str(opt_view(m.legend))),
        ("template"@, json_opt_str(opt_view(m.template))),
    ]
}

/// The extra metadata a tileset carries, as rendered fields.
pub open spec fn extra_fields(m: TileMeta) -> Seq<(Seq<char>, Seq<char>)> {
    match m.json {
        Some(extra) => fields_view(extra@),
        None => Seq::empty(),
    }
}

/// The address of a tileset's preview page.
pub open spec fn map_link(base: Seq<char>, id: Seq<char>) -> Seq<char> {
    base + "/"@ + id + "/map"@
}

/// A tileset's whole TileJSON document: the generated fields, the extra
/// metadata merged over them — an extra field overwrites a generated
/// field of the same name — and, unless previews are disabled, a `map`
/// field laid over the result in the same way.
pub open spec fn detail_doc(
    m: TileMeta,
    base: Seq<char>,
    id: Seq<char>,
    query: Seq<char>,
    disable_preview: bool,
) -> Seq<char> {
    let merged = merge_fields(detail_fields(m, base, id, query), extra_fields(m));
    let with_map = if disable_preview {
        merged
    } else {
        merge_fields(merged, seq![("map"@, json_str(map_link(base, id)))])
    };
    render_object(with_map)
}

/// One entry of the tileset listing: the declared format and the
/// tileset's address under the base URL.
pub open spec fn listing_entry(m: TileMeta, base: Seq<char>, id: Seq<char>) -> Seq<char> {
    render_object(
        seq![("format"@, json_str(format_ext(m.tile_format))), ("url"@, json_str(base + "/"@ + id))],
    )
}

/// The whole tileset listing: one entry per catalog entry, in catalog
/// order, as a JSON array.
pub open spec fn listing_members(
    entries: Seq<(String, TileMeta)>,
    base: Seq<char>,
) -> Seq<char>
    decreases entries.len(),
{
    if entries.len() == 0 {
        Seq::empty()
    } else if entries.len() == 1 {
        listing_entry(entries[0].1, base, entries[0].0@)
    } else {
        listing_members(entries.drop_last(), base) + ","@ + listing_entry(
            entries.last().1,
            base,
            entries.last().0@,
        )
    }
}

pub open spec fn listing_doc(entries: Seq<(String, TileMeta)>, base: Seq<char>) -> Seq<char> {
    "["@ + listing_members(entries, base) + "]"@
}

/// Builds the tile URL template.
fn tile_template_exec(base: &str, id: &str, ext: &str, query: &str) -> (r: String)
    ensures
        r@ == tile_template(base@, id@, ext@, query@),
{
    let mut out = base.to_owned();
    out.append("/");
    out.append(id);
    out.append("/tiles/{z}/{x}/{y}.");
    out.append(ext);
    out.append(query);
    out
}

/// Builds the grid URL template.
fn grid_template_exec(base: &str, id: &str, query: &str) -> (r: String)
    ensures
        r@ == grid_template(base@, id@, query@),
{
    let mut out = base.to_owned();
    out.append("/");
    out.append(id);
    out.append("/tiles/{z}/{x}/{y}.json");
    out.append(query);
    out
}

/// A JSON string literal as an owned value.
fn json_str_exec(s: &str) -> (r: String)
    ensures
        r@ == json_str(s@),
{
    let mut out = String::new();
    append_json_str(&mut out, s);
    out
}

/// A JSON string literal wrapped in a one-element array.
fn json_str_array_exec(s: &str) -> (r: String)
    ensures
        r@ == "["@ + json_str(s@) + "]"@,
{
    let mut out = String::from_str("[");
    append_json_str(&mut out, s);
    out.append("]");
    out
}

/// An optional text as a JSON value.
fn json_opt_str_exec(s: &Option<String>) -> (r: String)
    ensures
        r@ == json_opt_str(opt_view(*s)),
{
    let mut out = String::new();
    append_json_opt_str(&mut out, s);
    out
}

/// An optional raw JSON value, `null` when absent.
fn raw_or_null(s: &Option<String>) -> (r: String)
    ensures
        r@ == match s {
            Some(b) => b@,
            None => "null"@,
        },
{
    match s {
        Some(b) => b.clone(),
        None => String::from_str("null"),
    }
}

/// Assembles a tileset's TileJSON document, exactly as `detail_doc` says.
pub fn detail_document(
    m: &TileMeta,
    base: &str,
    id: &str,
    query: &str,
    disable_preview: bool,
) -> (r: String)
    ensures
        r@ == detail_doc(*m, base@, id@, query@, disable_preview),
{
    let mut fields: Vec<(String, String)> = Vec::new();
    fields.push((String::from_str("name"), json_opt_str_exec(&m.name)));
    fields.push((String::from_str("version"), json_opt_str_exec(&m.version)));
    fields.push(
        (
            String::from_str("tiles"),
            json_str_array_exec(
                tile_template_exec(base, id, m.tile_format.format(), query).as_str(),
            ),
        ),
    );
    fields.push((String::from_str("tilejson"), json_str_exec(m.tilejson.as_str())));
    fields.push((String::from_str("scheme"), json_str_exec(m.scheme.as_str())));
    fields.push((String::from_str("id"), u64_to_string(m.id)));
    fields.push((String::from_str("format"), json_str_exec(m.tile_format.format())));
    let grids_value = if m.grid_format.is_some() {
        json_str_array_exec(grid_template_exec(base, id, query).as_str())
    } else {
        String::from_str("null")
    };
    fields.push((String::from_str("grids"), grids_value));
    fields.push((String::from_str("bounds"), raw_or_null(&m.bounds)));
    fields.push((String::from_str("center"), raw_or_null(&m.center)));
    fields.push((String::from_str("minzoom"), u32_to_string(m.minzoom)));
    fields.push((String::from_str("maxzoom"), u32_to_string(m.maxzoom)));
    fields.push((String::from_str("description"), json_opt_str_exec(&m.description)));
    fields.push((String::from_str("attribution"), json_opt_str_exec(&m.attribution)));
    fields.push((String::from_str("type"), json_opt_str_exec(&m.layer_type)));
    fields.push((String::from_str("legend"), json_opt_str_exec(&m.legend)));
    fields.push((String::from_str("template"), json_opt_str_exec(&m.template)));
    proof {
        assert(fields_view(fields@) =~= detail_fields(*m, base@, id@, query@));
    }
    match &m.json {
        Some(extra) => {
            merge_into(&mut fields, extra);
        },
        None => {
            proof {
                assert(fields_view(fields@) == merge_fields(
                    detail_fields(*m, base@, id@, query@),
                    extra_fields(*m),
                ));
            }
        },
    }
    if !disable_preview {
        let mut link = base.to_owned();
        link.append("/");
        link.append(id);
        link.append("/map");
        let ghost before_map = fields_view(fields@);
        crate::json::apply_field(
            &mut fields,
            &String::from_str("map"),
            &json_str_exec(link.as_str()),
        );
        proof {
            assert(link@ =~= map_link(base@, id@));
            let mseq = seq![("map"@, json_str(map_link(base@, id@)))];
            assert(mseq.drop_last() =~= Seq::<(Seq<char>, Seq<char>)>::empty());
            assert(merge_fields(before_map, mseq.drop_last()) == before_map);
            assert(fields_view(fields@) == merge_fields(before_map, mseq));
        }
    }
    object_to_string(&fields)
}

/// Assembles the tileset listing, exactly as `listing_doc` says: one
/// entry per catalog entry, in catalog order.
pub fn listing_document(entries: &Vec<(String, TileMeta)>, base: &str) -> (r: String)
    ensures
        r@ == listing_doc(entries@, base@),
{
    let mut out = String::from_str("[");
    let n = entries.len();
    let mut i: usize = 0;
    while i < n
        invariant
            n == entries@.len(),
            i <= n,
            out@ == "["@ + listing_members(entries@.subrange(0, i as int), base@),
        decreases n - i,
    {
        if i > 0 {
            out.append(",");
        }
        let mut url = base.to_owned();
        url.append("/");
        url.append(entries[i].0.as_str());
        let mut fields: Vec<(String, String)> = Vec::new();
        fields.push(
            (String::from_str("format"), json_str_exec(entries[i].1.tile_format.format())),
        );
        fields.push((String::from_str("url"), json_str_exec(url.as_str())));
        proof {
            assert(fields_view(fields@) =~= seq![
                ("format"@, json_str(format_ext(entries@[i as int].1.tile_format))),
                ("url"@, json_str(base@ + "/"@ + entries@[i as int].0@)),
            ]);
        }
        let entry = object_to_string(&fields);
        out.append(entry.as_str());
        proof {
            let t = entries@.subrange(0, i + 1 as int);
            assert(t.drop_last() =~= entries@.subrange(0, i as int));
            assert(t.last() == entries@[i as int]);
            assert(entry@ == listing_entry(entries@[i as int].1, base@, entries@[i as int].0@));
            assert(out@ =~= "["@ + listing_members(t, base@));
        }
        i += 1;
    }
    out.append("]");
    proof {
        assert(entries@.subrange(0, entries@.len() as int) =~= entries@);
        assert(out@ =~= listing_doc(entries@, base@));
    }
    out
}

/// Whatever the extra metadata says, a document generated with previews
/// enabled carries the preview link: the `map` field is laid on after the
/// merge, so it overwrites even an extra field of that name.
pub proof fn lemma_preview_link_present(
    m: TileMeta,
    base: Seq<char>,
    id: Seq<char>,
    query: Seq<char>,
)
    ensures
        ({
            let merged = merge_fields(detail_fields(m, base, id, query), extra_fields(m));
            let with_map = merge_fields(merged, seq![("map"@, json_str(map_link(base, id)))]);
            exists|k: int|
                0 <= k < with_map.len() && with_map[k] == (
                "map"@,
                json_str(map_link(base, id)),
                )
        }),
{
    let merged = merge_fields(detail_fields(m, base, id, query), extra_fields(m));
    let mseq = seq![("map"@, json_str(map_link(base, id)))];
    let with_map = merge_fields(merged, mseq);
    assert(mseq.drop_last() =~= Seq::<(Seq<char>, Seq<char>)>::empty());
    assert(merge_fields(merged, mseq.drop_last()) == merged);
    assert(mseq.last() == ("map"@, json_str(map_link(base, id))));
    assert(with_map == crate::json::set_field(merged, "map"@, json_str(map_link(base, id))));
    crate::json::lemma_find_key_bounds(merged, "map"@);
    let i = crate::json::find_key(merged, "map"@);
    if i < merged.len() {
        assert(with_map[i] == ("map"@, json_str(map_link(base, id))));
    } else {
        assert(with_map[merged.len() as int] == ("map"@, json_str(map_link(base, id))));
    }
}

/// With previews disabled the document is rendered from the generated
/// fields and the extra metadata alone, and no `map` member appears
/// unless the extra metadata itself supplies one: none of the generated
/// field names is `map`, and the merge invents no name.
pub proof fn lemma_no_preview_link_when_disabled(
    m: TileMeta,
    base: Seq<char>,
    id: Seq<char>,
    query: Seq<char>,
)
    requires
        forall|j: int|
            0 <= j < extra_fields(m).len() ==> (#[trigger] extra_fields(m)[j]).0 != "map"@,
    ensures
        ({
            let merged = merge_fields(detail_fields(m, base, id, query), extra_fields(m));
            forall|k: int| 0 <= k < merged.len() ==> (#[trigger] merged[k]).0 != "map"@
        }),
{
    reveal_strlit("map");
    reveal_strlit("name");
    reveal_strlit("version");
    reveal_strlit("tiles");
    reveal_strlit("tilejson");
    reveal_strlit("scheme");
    reveal_strlit("id");
    reveal_strlit("format");
    reveal_strlit("grids");
    reveal_strlit("bounds");
    reveal_strlit("center");
    reveal_strlit("minzoom");
    reveal_strlit("maxzoom");
    reveal_strlit("description");
    reveal_strlit("attribution");
    reveal_strlit("type");
    reveal_strlit("legend");
    reveal_strlit("template");
    let df = detail_fields(m, base, id, query);
    assert forall|j: int| 0 <= j < df.len() implies (#[trigger] df[j]).0 != "map"@ by {
        assert("map"@.len() == 3);
    }
    crate::json::lemma_merge_keeps_absence(df, extra_fields(m), "map"@);
}

/// A document's one tile URL template carries each of the `{z}`, `{x}`
/// and `{y}` placeholders and the tileset's declared format extension.
pub proof fn lemma_tile_template_placeholders(
    base: Seq<char>,
    id: Seq<char>,
    ext: Seq<char>,
    query: Seq<char>,
)
    ensures
        contains_seq(tile_template(base, id, ext, query), "{z}"@),
        contains_seq(tile_template(base, id, ext, query), "{x}"@),
        contains_seq(tile_template(base, id, ext, query), "{y}"@),
        contains_seq(tile_template(base, id, ext, query), ext),
{
    reveal_strlit("/");
    reveal_strlit("/tiles/{z}/{x}/{y}.");
    reveal_strlit("{z}");
    reveal_strlit("{x}");
    reveal_strlit("{y}");
    let t = tile_template(base, id, ext, query);
    let off = base.len() as int + 1 + id.len() as int;
    assert(t.subrange(off + 7, (off + 7) + "{z}"@.len()) =~= "{z}"@);
    assert(t.subrange(off + 11, (off + 11) + "{x}"@.len()) =~= "{x}"@);
    assert(t.subrange(off + 15, (off + 15) + "{y}"@.len()) =~= "{y}"@);
    assert(t.subrange(off + 19, (off + 19) + ext.len()) =~= ext);
}

} // verus!
