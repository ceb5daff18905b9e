use vstd::prelude::*;
use crate::strutil::{is_prefix_of, str_eq, str_starts_with};

verus! {

pub open spec fn is_digit(c: char) -> bool {
    '0' <= c && c <= '9'
}

pub open spec fn is_alpha(c: char) -> bool {
    ('a' <= c && c <= 'z') || ('A' <= c && c <= 'Z')
}

/// The value of one decimal digit character.
pub open spec fn digit_value(c: char) -> nat
    recommends
        is_digit(c),
{
    (c as int - '0' as int) as nat
}

/// The number a run of decimal digits writes, most significant first.
pub open spec fn digits_val(s: Seq<char>) -> nat
    decreases s.len(),
{
    if s.len() == 0 {
        0
    } else {
        digits_val(s.drop_last()) * 10 + digit_value(s.last())
    }
}

/// First index at or after `i` whose character is no decimal digit, or the
/// length when the digits run to the end.
pub open spec fn digit_run_end(s: Seq<char>, i: int) -> int
    decreases s.len() - i,
{
    if i < 0 || i >= s.len() {
        s.len() as int
    } else if !is_digit(s[i]) {
        i
    } else {
        digit_run_end(s, i + 1)
    }
}

/// First index at or after `i` whose character is no ASCII letter, or the
/// length when the letters run to the end.
pub open spec fn alpha_run_end(s: Seq<char>, i: int) -> int
    decreases s.len() - i,
{
    if i < 0 || i >= s.len() {
        s.len() as int
    } else if !is_alpha(s[i]) {
        i
    } else {
        alpha_run_end(s, i + 1)
    }
}

/// What may follow the format extension of a tile request: nothing, a
/// query string, or one slash before either.
pub open spec fn tile_tail_ok(s: Seq<char>, i: int) -> bool {
    ||| i == s.len()
    ||| s[i] == '?'
    ||| (s[i] == '/' && (i + 1 == s.len() || s[i + 1] == '?'))
}

/// Parses the part of a tile request after `/tiles/`: three non-empty
/// decimal runs separated by slashes, a dot, a non-empty alphabetic
/// format token, and an admissible tail. Coordinates must fit 32 bits.
pub open spec fn tile_parts(s: Seq<char>) -> Option<(nat, nat, nat, Seq<char>)> {
    let e1 = digit_run_end(s, 0);
    let e2 = digit_run_end(s, e1 + 1);
    let e3 = digit_run_end(s, e2 + 1);
    let e4 = alpha_run_end(s, e3 + 1);
    if 0 < e1 && e1 < s.len() && s[e1] == '/' && e1 + 1 < e2 && e2 < s.len() && s[e2] == '/'
        && e2 + 1 < e3 && e3 < s.len() && s[e3] == '.' && e3 + 1 < e4 && tile_tail_ok(s, e4)
        && digits_val(s.subrange(0, e1)) <= u32::MAX && digits_val(s.subrange(e1 + 1, e2))
        <= u32::MAX && digits_val(s.subrange(e2 + 1, e3)) <= u32::MAX {
        Some(
            (
                digits_val(s.subrange(0, e1)),
                digits_val(s.subrange(e1 + 1, e2)),
                digits_val(s.subrange(e2 + 1, e3)),
                s.subrange(e3 + 1, e4),
            ),
        )
    } else {
        None
    }
}

/// Whether a `/tiles/` separator stands at `i` with a well-formed tile
/// request after it.
pub open spec fn tiles_at(p: Seq<char>, i: int) -> bool {
    &&& 0 <= i
    &&& i + 7 <= p.len()
    &&& p.subrange(i, i + 7) == "/tiles/"@
    &&& tile_parts(p.subrange(i + 7, p.len() as int)) is Some
}

/// The rightmost admissible `/tiles/` position at or below `i`, or -1:
/// the tileset identifier is the longest prefix that leaves a well-formed
/// tile request, since identifiers may themselves contain `/tiles/`.
pub open spec fn last_tiles(p: Seq<char>, i: int) -> int
    decreases i + 1,
{
    if i < 10 {
        -1
    } else if tiles_at(p, i) {
        i
    } else {
        last_tiles(p, i - 1)
    }
}

/// Whether `p` is a tile request at all.
pub open spec fn has_tile_route(p: Seq<char>) -> bool {
    is_prefix_of("/services/"@, p) && last_tiles(p, p.len() - 7) >= 10
}

/// First index at or after `i` that is no slash.
pub open spec fn first_non_slash(s: Seq<char>, i: int) -> int
    decreases s.len() - i,
{
    if i < 0 || i >= s.len() {
        s.len() as int
    } else if s[i] != '/' {
        i
    } else {
        first_non_slash(s, i + 1)
    }
}

/// Last index at or below `i` that is no slash, or -1.
pub open spec fn last_non_slash(s: Seq<char>, i: int) -> int
    decreases i + 1,
{
    if i < 0 || i >= s.len() {
        -1
    } else if s[i] != '/' {
        i
    } else {
        last_non_slash(s, i - 1)
    }
}

/// `s` with every leading and trailing slash removed.
pub open spec fn trim_slashes(s: Seq<char>) -> Seq<char> {
    let a = first_non_slash(s, 0);
    let b = last_non_slash(s, s.len() - 1);
    if a > b {
        Seq::empty()
    } else {
        s.subrange(a, b + 1)
    }
}

/// Where a request path leads. A tile request carries its already-parsed
/// coordinates; a detail route carries the tileset identifier as written,
/// resolution against the catalog comes later.
pub enum Route {
    Tile { id: String, z: u32, x: u32, y: u32, ext: String },
    Listing,
    Detail { id: String },
    NotFound,
}

/// Mathematical image of a route.
pub enum RouteModel {
    Tile { id: Seq<char>, z: u32, x: u32, y: u32, ext: Seq<char> },
    Listing,
    Detail { id: Seq<char> },
    NotFound,
}

impl View for Route {
    type V = RouteModel;

    open spec fn view(&self) -> RouteModel {
        match self {
            Route::Tile { id, z, x, y, ext } => RouteModel::Tile {
                id: id@,
                z: *z,
                x: *x,
                y: *y,
                ext: ext@,
            },
            Route::Listing => RouteModel::Listing,
            Route::Detail { id } => RouteModel::Detail { id: id@ },
            Route::NotFound => RouteModel::NotFound,
        }
    }
}

/// What a path classifies to, in priority order: the tile shape first,
/// then the one-segment listing, then a tileset detail path, and
/// otherwise no route. The listing and detail shapes ask for a first
/// trimmed segment that is exactly `services`.
pub open spec fn classify_spec(p: Seq<char>) -> RouteModel {
    if has_tile_route(p) {
        let pos = last_tiles(p, p.len() - 7);
        let parts = tile_parts(p.subrange(pos + 7, p.len() as int))->0;
        RouteModel::Tile {
            id: p.subrange(10, pos),
            z: parts.0 as u32,
            x: parts.1 as u32,
            y: parts.2 as u32,
            ext: parts.3,
        }
    } else if !is_prefix_of("/services"@, p) {
        RouteModel::NotFound
    } else {
        let q = trim_slashes(p);
        if q == "services"@ {
            RouteModel::Listing
        } else if is_prefix_of("services/"@, q) {
            RouteModel::Detail { id: q.subrange(9, q.len() as int) }
        } else {
            RouteModel::NotFound
        }
    }
}

fn is_digit_exec(c: char) -> (r: bool)
    ensures
        r == is_digit(c),
{
    '0' <= c && c <= '9'
}

fn is_alpha_exec(c: char) -> (r: bool)
    ensures
        r == is_alpha(c),
{
    ('a' <= c && c <= 'z') || ('A' <= c && c <= 'Z')
}

pub(crate) fn digit_run_end_exec(s: &str, from: usize) -> (r: usize)
    requires
        from <= s@.len(),
    ensures
        r == digit_run_end(s@, from as int),
        from <= r <= s@.len(),
{
    let len = s.unicode_len();
    let mut i: usize = from;
    while i < len
        invariant
            len == s@.len(),
            from <= i <= len,
            digit_run_end(s@, from as int) == digit_run_end(s@, i as int),
        decreases len - i,
    {
        if !is_digit_exec(s.get_char(i)) {
            return i;
        }
        i += 1;
    }
    i
}

fn alpha_run_end_exec(s: &str, from: usize) -> (r: usize)
    requires
        from <= s@.len(),
    ensures
        r == alpha_run_end(s@, from as int),
        from <= r <= s@.len(),
{
    let len = s.unicode_len();
    let mut i: usize = from;
    while i < len
        invariant
            len == s@.len(),
            from <= i <= len,
            alpha_run_end(s@, from as int) == alpha_run_end(s@, i as int),
        decreases len - i,
    {
        if !is_alpha_exec(s.get_char(i)) {
            return i;
        }
        i += 1;
    }
    i
}

proof fn lemma_digits_val_extend(s: Seq<char>, a: int, b: int, c: int)
    requires
        0 <= a <= b <= c <= s.len(),
    ensures
        digits_val(s.subrange(a, c)) >= digits_val(s.subrange(a, b)),
    decreases c - b,
{
    if b < c {
        lemma_digits_val_extend(s, a, b, c - 1);
        let t = s.subrange(a, c);
        assert(t.drop_last() =~= s.subrange(a, c - 1));
    }
}

/// Reads the number a digit run writes, when it fits 32 bits.
pub(crate) fn parse_u32(s: &str, from: usize, to: usize) -> (r: Option<u32>)
    requires
        from <= to <= s@.len(),
        forall|j: int| from <= j < to ==> is_digit(s@[j]),
    ensures
        digits_val(s@.subrange(from as int, to as int)) <= u32::MAX ==> r == Some(
            digits_val(s@.subrange(from as int, to as int)) as u32,
        ),
        digits_val(s@.subrange(from as int, to as int)) > u32::MAX ==> r is None,
{
    let mut val: u32 = 0;
    let mut i: usize = from;
    while i < to
        invariant
            from <= i <= to <= s@.len(),
            forall|j: int| from <= j < to ==> is_digit(s@[j]),
            val as nat == digits_val(s@.subrange(from as int, i as int)),
        decreases to - i,
    {
        let c = s.get_char(i);
        let d: u32 = (c as u32) - 48;
        proof {
            assert(is_digit(s@[i as int]));
            assert(d == digit_value(s@[i as int]));
            let t = s@.subrange(from as int, i + 1 as int);
            assert(t.drop_last() =~= s@.subrange(from as int, i as int));
            assert(t.last() == s@[i as int]);
        }
        if val > (u32::MAX - d) / 10 {
            proof {
                assert(digits_val(s@.subrange(from as int, i + 1 as int)) > u32::MAX) by {
                    assert(val as nat * 10 + d > u32::MAX) by (nonlinear_arith)
                        requires
                            val > (u32::MAX - d) / 10,
                            d < 10,
                    ;
                };
                lemma_digits_val_extend(s@, from as int, i + 1 as int, to as int);
            }
            return None;
        }
        val = val * 10 + d;
        i += 1;
    }
    proof {
        assert(s@.subrange(from as int, to as int) == s@.subrange(from as int, i as int));
    }
    Some(val)
}

/// Parses what follows a `/tiles/` separator, exactly as `tile_parts`
/// says.
fn try_tile_parts(s: &str) -> (r: Option<(u32, u32, u32, String)>)
    ensures
        match r {
            Some(t) => tile_parts(s@) == Some((t.0 as nat, t.1 as nat, t.2 as nat, t.3@)),
            None => tile_parts(s@) is None,
        },
{
    let len = s.unicode_len();
    let e1 = digit_run_end_exec(s, 0);
    if !(0 < e1 && e1 < len && s.get_char(e1) == '/') {
        return None;
    }
    let e2 = digit_run_end_exec(s, e1 + 1);
    if !(e1 + 1 < e2 && e2 < len && s.get_char(e2) == '/') {
        return None;
    }
    let e3 = digit_run_end_exec(s, e2 + 1);
    if !(e2 + 1 < e3 && e3 < len && s.get_char(e3) == '.') {
        return None;
    }
    let e4 = alpha_run_end_exec(s, e3 + 1);
    if !(e3 + 1 < e4) {
        return None;
    }
    let tail_ok = if e4 == len {
        true
    } else if s.get_char(e4) == '?' {
        true
    } else if s.get_char(e4) == '/' && (e4 + 1 == len || s.get_char(e4 + 1) == '?') {
        true
    } else {
        false
    };
    if !tail_ok {
        proof {
            assert(!tile_tail_ok(s@, e4 as int));
        }
        return None;
    }
    proof {
        lemma_run_all_digits(s@, 0, e1 as int);
        lemma_run_all_digits(s@, e1 + 1 as int, e2 as int);
        lemma_run_all_digits(s@, e2 + 1 as int, e3 as int);
    }
    let z = match parse_u32(s, 0, e1) {
        Some(v) => v,
        None => {
            return None;
        },
    };
    let x = match parse_u32(s, e1 + 1, e2) {
        Some(v) => v,
        None => {
            return None;
        },
    };
    let y = match parse_u32(s, e2 + 1, e3) {
        Some(v) => v,
        None => {
            return None;
        },
    };
    let ext = s.substring_char(e3 + 1, e4).to_owned();
    Some((z, x, y, ext))
}

pub(crate) proof fn lemma_run_all_digits(s: Seq<char>, from: int, end: int)
    requires
        0 <= from,
        end == digit_run_end(s, from),
    ensures
        forall|j: int| from <= j < end ==> is_digit(s[j]),
    decreases s.len() - from,
{
    if from < s.len() && is_digit(s[from]) {
        lemma_run_all_digits(s, from + 1, end);
    }
}

/// Classifies a request path, exactly as `classify_spec` says. The tile
/// shape is sought first, with the longest identifier that leaves a
/// well-formed tile request; then the listing and detail shapes under
/// `services`; everything else is no route.
pub fn classify(path: &str) -> (r: Route)
    ensures
        r@ == classify_spec(path@),
{
    let len = path.unicode_len();
    if str_starts_with(path, "/services/") && len >= 17 {
        proof {
            reveal_strlit("/services/");
        }
        let mut pos: usize = len - 7;
        loop
            invariant
                len == path@.len(),
                len >= 17,
                is_prefix_of("/services/"@, path@),
                10 <= pos <= len - 7,
                last_tiles(path@, (len - 7) as int) == last_tiles(path@, pos as int),
            decreases pos,
        {
            let sep = path.substring_char(pos, pos + 7);
            let mut here = false;
            let mut parsed: Option<(u32, u32, u32, String)> = None;
            if str_eq(sep, "/tiles/") {
                proof {
                    reveal_strlit("/tiles/");
                }
                parsed = try_tile_parts(path.substring_char(pos + 7, len));
                if parsed.is_some() {
                    here = true;
                }
            }
            proof {
                if !here {
                    assert(!tiles_at(path@, pos as int));
                }
            }
            if here {
                proof {
                    assert(tiles_at(path@, pos as int));
                    assert(last_tiles(path@, pos as int) == pos as int);
                }
                let id = path.substring_char(10, pos).to_owned();
                let parts = parsed.unwrap();
                return Route::Tile { id, z: parts.0, x: parts.1, y: parts.2, ext: parts.3 };
            }
            if pos == 10 {
                proof {
                    assert(last_tiles(path@, 9) == -1);
                    assert(last_tiles(path@, 10) == -1);
                    assert(!has_tile_route(path@));
                }
                return classify_non_tile(path);
            }
            pos -= 1;
        }
    } else {
        proof {
            if is_prefix_of("/services/"@, path@) {
                reveal_strlit("/services/");
                lemma_no_room_for_tiles(path@);
            }
        }
        classify_non_tile(path)
    }
}

proof fn lemma_no_room_for_tiles(p: Seq<char>)
    requires
        p.len() < 17,
    ensures
        last_tiles(p, p.len() - 7) == -1,
{
    lemma_last_tiles_below(p, p.len() - 7);
}

proof fn lemma_last_tiles_below(p: Seq<char>, i: int)
    requires
        forall|j: int| 10 <= j <= i ==> !tiles_at(p, j),
    ensures
        last_tiles(p, i) == -1,
    decreases i + 1,
{
    if i >= 10 {
        lemma_last_tiles_below(p, i - 1);
    }
}

/// Classifies a path that has no tile shape.
fn classify_non_tile(path: &str) -> (r: Route)
    requires
        !has_tile_route(path@),
    ensures
        r@ == classify_spec(path@),
{
    if !str_starts_with(path, "/services") {
        proof {
            reveal_strlit("/services");
        }
        return Route::NotFound;
    }
    proof {
        reveal_strlit("/services");
    }
    let len = path.unicode_len();
    let mut a: usize = 0;
    while a < len && path.get_char(a) == '/'
        invariant
            len == path@.len(),
            a <= len,
            first_non_slash(path@, 0) == first_non_slash(path@, a as int),
        decreases len - a,
    {
        a += 1;
    }
    proof {
        assert(first_non_slash(path@, 0) == a as int);
    }
    let mut b: usize = len;
    while b > 0 && path.get_char(b - 1) == '/'
        invariant
            len == path@.len(),
            b <= len,
            last_non_slash(path@, len - 1) == last_non_slash(path@, b - 1),
        decreases b,
    {
        b -= 1;
    }
    proof {
        assert(last_non_slash(path@, len - 1) == b - 1);
    }
    let q: &str = if a >= b {
        proof {
            assert(trim_slashes(path@) =~= ""@) by {
                reveal_strlit("");
            }
        }
        ""
    } else {
        path.substring_char(a, b)
    };
    proof {
        reveal_strlit("");
        assert(q@ == trim_slashes(path@));
    }
    if str_eq(q, "services") {
        return Route::Listing;
    }
    if str_starts_with(q, "services/") {
        proof {
            reveal_strlit("services/");
        }
        let id = q.substring_char(9, q.unicode_len()).to_owned();
        return Route::Detail { id };
    }
    Route::NotFound
}

} // verus!
