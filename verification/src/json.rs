use vstd::prelude::*;

verus! {

/// The hexadecimal digit character for a value below 16.
pub open spec fn hex_digit(d: nat) -> char
    recommends
        d < 16,
{
    if d == 0 { '0' } else if d == 1 { '1' } else if d == 2 { '2' } else if d == 3 { '3' }
    else if d == 4 { '4' } else if d == 5 { '5' } else if d == 6 { '6' } else if d == 7 { '7' }
    else if d == 8 { '8' } else if d == 9 { '9' } else if d == 10 { 'a' } else if d == 11 { 'b' }
    else if d == 12 { 'c' } else if d == 13 { 'd' } else if d == 14 { 'e' } else { 'f' }
}

/// How one character is written inside a JSON string literal: quote and
/// backslash get a backslash escape, the common control characters their
/// short escapes, the remaining control characters a `\u00XX` escape, and
/// every other character stands as itself.
pub open spec fn escape_char(c: char) -> Seq<char> {
    if c == '"' {
        seq!['\\', '"']
    } else if c == '\\' {
        seq!['\\', '\\']
    } else if c == '\n' {
        seq!['\\', 'n']
    } else if c == '\r' {
        seq!['\\', 'r']
    } else if c == '\t' {
        seq!['\\', 't']
    } else if (c as nat) < 32 {
        seq!['\\', 'u', '0', '0', hex_digit(c as nat / 16), hex_digit(c as nat % 16)]
    } else {
        seq![c]
    }
}

/// The body of a JSON string literal for `s`: each character escaped.
pub open spec fn json_escaped(s: Seq<char>) -> Seq<char>
    decreases s.len(),
{
    if s.len() == 0 {
        Seq::empty()
    } else {
        json_escaped(s.drop_last()) + escape_char(s.last())
    }
}

/// The JSON string literal for `s`, quotes included.
pub open spec fn json_str(s: Seq<char>) -> Seq<char> {
    seq!['"'] + json_escaped(s) + seq!['"']
}

/// The JSON value for an optional text: the string literal, or `null`.
pub open spec fn json_opt_str(s: Option<Seq<char>>) -> Seq<char> {
    match s {
        Some(t) => json_str(t),
        None => "null"@,
    }
}

/// The decimal digit character for a value below 10.
pub open spec fn dec_digit(d: nat) -> char
    recommends
        d < 10,
{
    hex_digit(d)
}

/// The decimal writing of `n`, most significant digit first, no sign and
/// no leading zero (a single zero for 0).
pub open spec fn dec_str(n: nat) -> Seq<char>
    decreases n,
{
    if n < 10 {
        seq![dec_digit(n)]
    } else {
        dec_str(n / 10) + seq![dec_digit(n % 10)]
    }
}

/// A hexadecimal digit as a one-character string slice.
fn hex_digit_str(d: u32) -> (r: &'static str)
    requires
        d < 16,
    ensures
        r@ == seq![hex_digit(d as nat)],
{
    let r = if d == 0 { "0" } else if d == 1 { "1" } else if d == 2 { "2" }
    else if d == 3 { "3" } else if d == 4 { "4" } else if d == 5 { "5" }
    else if d == 6 { "6" } else if d == 7 { "7" } else if d == 8 { "8" }
    else if d == 9 { "9" } else if d == 10 { "a" } else if d == 11 { "b" }
    else if d == 12 { "c" } else if d == 13 { "d" } else if d == 14 { "e" } else { "f" };
    proof {
        reveal_strlit("0");
        reveal_strlit("1");
        reveal_strlit("2");
        reveal_strlit("3");
        reveal_strlit("4");
        reveal_strlit("5");
        reveal_strlit("6");
        reveal_strlit("7");
        reveal_strlit("8");
        reveal_strlit("9");
        reveal_strlit("a");
        reveal_strlit("b");
        reveal_strlit("c");
        reveal_strlit("d");
        reveal_strlit("e");
        reveal_strlit("f");
        assert(r@ =~= seq![hex_digit(d as nat)]);
    }
    r
}

/// Writes `n` in decimal.
pub fn u64_to_string(n: u64) -> (r: String)
    ensures
        r@ == dec_str(n as nat),
    decreases n,
{
    if n < 10 {
        let r = hex_digit_str(n as u32);
        proof {
            assert(seq![hex_digit(n as nat)] =~= dec_str(n as nat));
        }
        r.to_owned()
    } else {
        let mut r = u64_to_string(n / 10);
        r.append(hex_digit_str((n % 10) as u32));
        r
    }
}

/// Writes `n` in decimal.
pub fn u32_to_string(n: u32) -> (r: String)
    ensures
        r@ == dec_str(n as nat),
{
    u64_to_string(n as u64)
}

/// Appends the escaped form of `s`'s character at `i` to `out`.
fn push_escaped(out: &mut String, s: &str, i: usize)
    requires
        i < s@.len(),
        i < usize::MAX,
    ensures
        final(out)@ == old(out)@ + escape_char(s@[i as int]),
{
    let c = s.get_char(i);
    if c == '"' {
        out.append("\\\"");
        proof {
            reveal_strlit("\\\"");
            assert("\\\""@ =~= escape_char('"'));
        }
    } else if c == '\\' {
        out.append("\\\\");
        proof {
            reveal_strlit("\\\\");
            assert("\\\\"@ =~= escape_char('\\'));
        }
    } else if c == '\n' {
        out.append("\\n");
        proof {
            reveal_strlit("\\n");
            assert("\\n"@ =~= escape_char('\n'));
        }
    } else if c == '\r' {
        out.append("\\r");
        proof {
            reveal_strlit("\\r");
            assert("\\r"@ =~= escape_char('\r'));
        }
    } else if c == '\t' {
        out.append("\\t");
        proof {
            reveal_strlit("\\t");
            assert("\\t"@ =~= escape_char('\t'));
        }
    } else if (c as u32) < 32 {
        let ghost before = out@;
        out.append("\\u00");
        let code = c as u32;
        out.append(hex_digit_str(code / 16));
        out.append(hex_digit_str(code % 16));
        proof {
            reveal_strlit("\\u00");
            assert(out@ =~= before + escape_char(c));
        }
    } else {
        let ghost before = out@;
        out.append(s.substring_char(i, i + 1));
        proof {
            assert(s@.subrange(i as int, i + 1 as int) =~= seq![c]);
            assert(out@ =~= before + escape_char(c));
        }
    }
}

/// Appends the escaped body of `s` (no quotes) to `out`.
pub fn append_escaped(out: &mut String, s: &str)
    ensures
        final(out)@ == old(out)@ + json_escaped(s@),
{
    let len = s.unicode_len();
    let mut i: usize = 0;
    while i < len
        invariant
            len == s@.len(),
            i <= len,
            out@ == old(out)@ + json_escaped(s@.subrange(0, i as int)),
        decreases len - i,
    {
        push_escaped(out, s, i);
        proof {
            let t = s@.subrange(0, i + 1 as int);
            assert(t.drop_last() =~= s@.subrange(0, i as int));
            assert(t.last() == s@[i as int]);
        }
        i += 1;
    }
    proof {
        assert(s@.subrange(0, s@.len() as int) =~= s@);
    }
}

/// Appends the JSON string literal for `s`, quotes included, to `out`.
pub fn append_json_str(out: &mut String, s: &str)
    ensures
        final(out)@ == old(out)@ + json_str(s@),
{
    let ghost before = out@;
    out.append("\"");
    append_escaped(out, s);
    out.append("\"");
    proof {
        reveal_strlit("\"");
        assert("\""@ =~= seq!['"']);
        assert(out@ =~= before + json_str(s@));
    }
}

/// Appends the JSON value for an optional text to `out`.
pub fn append_json_opt_str(out: &mut String, s: &Option<String>)
    ensures
        final(out)@ == old(out)@ + json_opt_str(
            match s {
                Some(t) => Some(t@),
                None => None,
            },
        ),
{
    match s {
        Some(t) => append_json_str(out, t.as_str()),
        None => out.append("null"),
    }
}

/// One rendered member of a JSON object: the escaped key, a colon, and the
/// already-rendered value.
pub open spec fn render_field(key: Seq<char>, value: Seq<char>) -> Seq<char> {
    json_str(key) + seq![':'] + value
}

/// The comma-separated members of a JSON object, in order. Values stand as
/// given: they are already-rendered JSON.
pub open spec fn render_members(fields: Seq<(Seq<char>, Seq<char>)>) -> Seq<char>
    decreases fields.len(),
{
    if fields.len() == 0 {
        Seq::empty()
    } else if fields.len() == 1 {
        render_field(fields[0].0, fields[0].1)
    } else {
        render_members(fields.drop_last()) + seq![','] + render_field(
            fields.last().0,
            fields.last().1,
        )
    }
}

/// A whole JSON object over ordered fields of already-rendered values.
pub open spec fn render_object(fields: Seq<(Seq<char>, Seq<char>)>) -> Seq<char> {
    seq!['{'] + render_members(fields) + seq!['}']
}

/// The view of a field list: each pair as character sequences.
pub open spec fn fields_view(fields: Seq<(String, String)>) -> Seq<(Seq<char>, Seq<char>)> {
    fields.map_values(|p: (String, String)| (p.0@, p.1@))
}

/// Renders a JSON object from ordered (key, rendered value) fields.
pub fn object_to_string(fields: &Vec<(String, String)>) -> (r: String)
    ensures
        r@ == render_object(fields_view(fields@)),
{
    let ghost fv = fields_view(fields@);
    let mut out = String::new();
    out.append("{");
    proof {
        reveal_strlit("{");
        assert(out@ =~= seq!['{'] + render_members(fv.subrange(0, 0)));
    }
    let n = fields.len();
    let mut i: usize = 0;
    while i < n
        invariant
            n == fields@.len(),
            fv == fields_view(fields@),
            fv.len() == n,
            i <= n,
            out@ == seq!['{'] + render_members(fv.subrange(0, i as int)),
        decreases n - i,
    {
        if i > 0 {
            out.append(",");
        }
        append_json_str(&mut out, fields[i].0.as_str());
        out.append(":");
        out.append(fields[i].1.as_str());
        proof {
            reveal_strlit(",");
            reveal_strlit(":");
            assert(","@ =~= seq![',']);
            assert(":"@ =~= seq![':']);
            let t = fv.subrange(0, i + 1 as int);
            assert(t.drop_last() =~= fv.subrange(0, i as int));
            assert(fv[i as int] == (fields@[i as int].0@, fields@[i as int].1@));
            if i == 0 {
                assert(out@ =~= seq!['{'] + render_members(t));
            } else {
                assert(out@ =~= seq!['{'] + render_members(t));
            }
        }
        i += 1;
    }
    out.append("}");
    proof {
        reveal_strlit("{");
        reveal_strlit("}");
        assert("{"@ =~= seq!['{']);
        assert("}"@ =~= seq!['}']);
        assert(fv.subrange(0, fv.len() as int) =~= fv);
        assert(out@ =~= render_object(fv));
    }
    out
}

/// Index of the first field named `key`, or the length when none is.
pub open spec fn find_key(fields: Seq<(Seq<char>, Seq<char>)>, key: Seq<char>) -> int
    decreases fields.len(),
{
    if fields.len() == 0 {
        0
    } else if fields[0].0 == key {
        0
    } else {
        1 + find_key(fields.drop_first(), key)
    }
}

/// `find_key` stays within the field list's bounds.
pub proof fn lemma_find_key_bounds(fields: Seq<(Seq<char>, Seq<char>)>, key: Seq<char>)
    ensures
        0 <= find_key(fields, key) <= fields.len(),
        find_key(fields, key) < fields.len() ==> fields[find_key(fields, key)].0 == key,
    decreases fields.len(),
{
    if fields.len() > 0 && fields[0].0 != key {
        lemma_find_key_bounds(fields.drop_first(), key);
    }
}

/// One overriding field laid over a field list: an existing field of the
/// same name keeps its place but takes the new value; a new name goes to
/// the end.
pub open spec fn set_field(
    fields: Seq<(Seq<char>, Seq<char>)>,
    key: Seq<char>,
    value: Seq<char>,
) -> Seq<(Seq<char>, Seq<char>)> {
    let i = find_key(fields, key);
    if i < fields.len() {
        fields.update(i, (key, value))
    } else {
        fields.push((key, value))
    }
}

/// Extra metadata merged into a generated document: each extra field
/// overwrites a generated field of the same name, or is appended.
pub open spec fn merge_fields(
    base: Seq<(Seq<char>, Seq<char>)>,
    extra: Seq<(Seq<char>, Seq<char>)>,
) -> Seq<(Seq<char>, Seq<char>)>
    decreases extra.len(),
{
    if extra.len() == 0 {
        base
    } else {
        set_field(merge_fields(base, extra.drop_last()), extra.last().0, extra.last().1)
    }
}

/// Laying one field over a list brings in no name but that field's own:
/// every other name stays absent.
pub proof fn lemma_set_field_keeps_absence(
    fields: Seq<(Seq<char>, Seq<char>)>,
    key: Seq<char>,
    value: Seq<char>,
    other: Seq<char>,
)
    requires
        key != other,
        forall|j: int| 0 <= j < fields.len() ==> (#[trigger] fields[j]).0 != other,
    ensures
        forall|j: int|
            0 <= j < set_field(fields, key, value).len() ==> (#[trigger] set_field(
                fields,
                key,
                value,
            )[j]).0 != other,
{
    let updated = set_field(fields, key, value);
    lemma_find_key_bounds(fields, key);
    assert forall|j: int| 0 <= j < updated.len() implies (#[trigger] updated[j]).0 != other by {
        let i = find_key(fields, key);
        if i < fields.len() {
            assert(updated[j] == if j == i {
                (key, value)
            } else {
                fields[j]
            });
        } else {
            if j < fields.len() {
                assert(updated[j] == fields[j]);
            } else {
                assert(updated[j] == (key, value));
            }
        }
    }
}

/// Merging extra fields over a base brings in no name beyond the two
/// lists' own: a name absent from both is absent from the merge.
pub proof fn lemma_merge_keeps_absence(
    base: Seq<(Seq<char>, Seq<char>)>,
    extra: Seq<(Seq<char>, Seq<char>)>,
    other: Seq<char>,
)
    requires
        forall|j: int| 0 <= j < base.len() ==> (#[trigger] base[j]).0 != other,
        forall|j: int| 0 <= j < extra.len() ==> (#[trigger] extra[j]).0 != other,
    ensures
        forall|j: int|
            0 <= j < merge_fields(base, extra).len() ==> (#[trigger] merge_fields(
                base,
                extra,
            )[j]).0 != other,
    decreases extra.len(),
{
    if extra.len() > 0 {
        let front = extra.drop_last();
        assert(forall|j: int| 0 <= j < front.len() ==> (#[trigger] front[j]).0 != other);
        lemma_merge_keeps_absence(base, front, other);
        assert(extra.last().0 != other);
        lemma_set_field_keeps_absence(
            merge_fields(base, front),
            extra.last().0,
            extra.last().1,
            other,
        );
    }
}

proof fn lemma_find_key_from(fields: Seq<(Seq<char>, Seq<char>)>, key: Seq<char>, i: int)
    requires
        0 <= i <= fields.len(),
        forall|j: int| 0 <= j < i ==> fields[j].0 != key,
        i == fields.len() || fields[i].0 == key,
    ensures
        find_key(fields, key) == i,
    decreases fields.len(),
{
    if fields.len() > 0 {
        if fields[0].0 == key {
        } else {
            lemma_find_key_from(fields.drop_first(), key, i - 1);
        }
    }
}

/// Lays one field over a field list in place, as `set_field` says.
pub fn apply_field(fields: &mut Vec<(String, String)>, key: &String, value: &String)
    ensures
        fields_view(final(fields)@) == set_field(fields_view(old(fields)@), key@, value@),
{
    let ghost fv = fields_view(fields@);
    let n = fields.len();
    let mut i: usize = 0;
    while i < n
        invariant
            n == fields@.len(),
            fields@ == old(fields)@,
            fv == fields_view(old(fields)@),
            i <= n,
            forall|j: int| 0 <= j < i ==> fv[j].0 != key@,
        decreases n - i,
    {
        if crate::strutil::str_eq(fields[i].0.as_str(), key.as_str()) {
            fields[i] = (key.clone(), value.clone());
            proof {
                lemma_find_key_from(fv, key@, i as int);
                assert(fields_view(fields@) =~= fv.update(i as int, (key@, value@)));
            }
            return;
        }
        i += 1;
    }
    fields.push((key.clone(), value.clone()));
    proof {
        lemma_find_key_from(fv, key@, n as int);
        assert(fields_view(fields@) =~= fv.push((key@, value@)));
    }
}

/// Merges extra metadata fields into generated fields, each extra field
/// overwriting a generated field of the same name or going to the end.
pub fn merge_into(fields: &mut Vec<(String, String)>, extra: &Vec<(String, String)>)
    ensures
        fields_view(final(fields)@) == merge_fields(
            fields_view(old(fields)@),
            fields_view(extra@),
        ),
{
    let ghost base = fields_view(old(fields)@);
    let ghost ev = fields_view(extra@);
    let n = extra.len();
    let mut i: usize = 0;
    while i < n
        invariant
            n == extra@.len(),
            ev == fields_view(extra@),
            base == fields_view(old(fields)@),
            i <= n,
            fields_view(fields@) == merge_fields(base, ev.subrange(0, i as int)),
        decreases n - i,
    {
        apply_field(fields, &extra[i].0, &extra[i].1);
        proof {
            let t = ev.subrange(0, i + 1 as int);
            assert(t.drop_last() =~= ev.subrange(0, i as int));
            assert(t.last() == (extra@[i as int].0@, extra@[i as int].1@));
        }
        i += 1;
    }
    proof {
        assert(ev.subrange(0, ev.len() as int) =~= ev);
    }
}

} // verus!
