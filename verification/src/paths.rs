//! Asset path layout of starter and cached tiles. Paths are `/`-separated strings relative
//! to the asset root (or absolute when they start with `/`).

use vstd::prelude::*;
use crate::coordinate::{AttachmentLabel, TileCoordinate, label_name, tile_relative_path};
use crate::text::{chars_of, push_char, push_chars, string_from_chars};

verus! {

/// `p` is absolute.
pub open spec fn is_absolute(p: Seq<char>) -> bool {
    p.len() > 0 && p[0] == '/'
}

/// Joining `rel` onto `base` (`Path::join`): an absolute `rel` replaces `base`; otherwise
/// `rel` is appended after a separator, unless `base` is empty or already ends in one.
pub open spec fn join(base: Seq<char>, rel: Seq<char>) -> Seq<char> {
    if is_absolute(rel) || base.len() == 0 {
        rel
    } else if base[base.len() - 1] == '/' {
        base + rel
    } else {
        base + seq!['/'] + rel
    }
}

/// Index one past the last `/` among `p[..end]` (0 when there is none).
pub open spec fn slash_after(p: Seq<char>, end: int) -> int
    decreases end,
{
    if end <= 0 {
        0
    } else if p[end - 1] == '/' {
        end
    } else {
        slash_after(p, end - 1)
    }
}

/// Index of the last `.` among `p[from..end]`, or `p.len()` when there is none.
pub open spec fn dot_before(p: Seq<char>, from: int, end: int) -> int
    decreases end - from,
{
    if end <= from {
        p.len() as int
    } else if p[end - 1] == '.' {
        end - 1
    } else {
        dot_before(p, from, end - 1)
    }
}

/// Where the last path segment that is neither empty nor `.` ends among `p[..end]` (0 when
/// there is none): trailing separators and `.` segments are not part of a file name.
pub open spec fn name_end(p: Seq<char>, end: int) -> int
    decreases end,
{
    if end <= 0 {
        0
    } else if p[end - 1] == '/' {
        name_end(p, end - 1)
    } else if p[end - 1] == '.' && slash_after(p, end - 1) == end - 1 {
        name_end(p, end - 1)
    } else {
        end
    }
}

/// Where the file name of `p` ends.
pub open spec fn file_name_end(p: Seq<char>) -> int {
    name_end(p, p.len() as int)
}

/// Where the file name of `p` starts.
pub open spec fn file_name_start(p: Seq<char>) -> int {
    slash_after(p, file_name_end(p))
}

/// `p` has a file name (`Path::file_name` is `Some`): a last segment other than `..`.
pub open spec fn has_file_name(p: Seq<char>) -> bool {
    let fe = file_name_end(p);
    let fs = file_name_start(p);
    fe > 0 && !(fe - fs == 2 && p[fs] == '.' && p[fs + 1] == '.')
}

/// Index of the last `.` of the file name of `p`, or `p.len()` when it has none.
pub open spec fn name_dot(p: Seq<char>) -> int {
    dot_before(p, file_name_start(p), file_name_end(p))
}

/// The file name of `p` has an extension: a last `.` that is not its first character.
pub open spec fn has_extension(p: Seq<char>) -> bool {
    has_file_name(p) && name_dot(p) != p.len() && name_dot(p) != file_name_start(p)
}

/// Where the file stem of `p` ends: at the extension's `.`, or at the file name's end.
pub open spec fn stem_end(p: Seq<char>) -> int {
    if has_extension(p) {
        name_dot(p)
    } else {
        file_name_end(p)
    }
}

/// `PathBuf::set_extension`: a path without a file name is left alone; otherwise everything
/// after the file stem is dropped and `.ext` is appended, unless `ext` is empty.
pub open spec fn set_extension(p: Seq<char>, ext: Seq<char>) -> Seq<char> {
    if !has_file_name(p) {
        p
    } else if ext.len() == 0 {
        p.subrange(0, stem_end(p))
    } else {
        p.subrange(0, stem_end(p)) + seq!['.'] + ext
    }
}

/// How many characters `p` keeps before `set_extension` runs: as many are cut off its end as
/// its extension has (the `.` stays); all of `p` when it has no extension.
pub open spec fn kept_before_extension(p: Seq<char>) -> int {
    if has_extension(p) {
        p.len() - (file_name_end(p) - name_dot(p) - 1)
    } else {
        p.len() as int
    }
}

/// `Path::with_extension` on `/`-separated paths: `set_extension` applied to `p` with its
/// extension's characters cut off its end.
pub open spec fn with_extension(p: Seq<char>, ext: Seq<char>) -> Seq<char> {
    set_extension(p.subrange(0, kept_before_extension(p)), ext)
}

proof fn lemma_slash_after_bounds(p: Seq<char>, end: int)
    requires
        end <= p.len(),
    ensures
        0 <= slash_after(p, end) <= if end < 0 { 0 } else { end },
    decreases end,
{
    if end > 0 && p[end - 1] != '/' {
        lemma_slash_after_bounds(p, end - 1);
    }
}

proof fn lemma_dot_before_bounds(p: Seq<char>, from: int, end: int)
    requires
        0 <= from,
        end <= p.len(),
    ensures
        dot_before(p, from, end) == p.len() || (from <= dot_before(p, from, end) < end),
    decreases end - from,
{
    if end > from && p[end - 1] != '.' {
        lemma_dot_before_bounds(p, from, end - 1);
    }
}

/// Joins `rel` onto `base`.
pub fn join_path(base: &str, rel: &str) -> (r: String)
    ensures
        r@ == join(base@, rel@),
{
    let b = chars_of(base);
    let q = chars_of(rel);
    if (q.len() > 0 && q[0] == '/') || b.len() == 0 {
        return string_from_chars(&q, 0, q.len());
    }
    let mut r = string_from_chars(&b, 0, b.len());
    if b[b.len() - 1] != '/' {
        push_char(&mut r, '/');
    }
    push_chars(&mut r, &q);
    assert(b@.subrange(0, b.len() as int) =~= b@);
    assert(q@.subrange(0, q.len() as int) =~= q@);
    assert(r@ =~= join(base@, rel@));
    r
}

proof fn lemma_name_end_bounds(p: Seq<char>, end: int)
    requires
        end <= p.len(),
    ensures
        0 <= name_end(p, end) <= if end < 0 { 0 } else { end },
        name_end(p, end) > 0 ==> slash_after(p, name_end(p, end)) < name_end(p, end),
    decreases end,
{
    if end > 0 {
        if p[end - 1] == '/' || (p[end - 1] == '.' && slash_after(p, end - 1) == end - 1) {
            lemma_name_end_bounds(p, end - 1);
        } else {
            lemma_slash_after_bounds(p, end - 1);
        }
    }
}

/// Index one past the last `/` among `p[..end]`.
fn find_slash_after(p: &Vec<char>, end: usize) -> (r: usize)
    requires
        end <= p.len(),
    ensures
        r == slash_after(p@, end as int),
        r <= end,
{
    let mut i = end;
    while i > 0
        invariant
            i <= end,
            end <= p.len(),
            slash_after(p@, end as int) == slash_after(p@, i as int),
        decreases i,
    {
        if p[i - 1] == '/' {
            return i;
        }
        i = i - 1;
    }
    0
}

/// Where the file name of `p` ends.
fn find_file_name_end(p: &Vec<char>) -> (r: usize)
    ensures
        r == file_name_end(p@),
        r <= p.len(),
{
    let mut i = p.len();
    while i > 0
        invariant
            i <= p.len(),
            file_name_end(p@) == name_end(p@, i as int),
        decreases i,
    {
        let c = p[i - 1];
        if c == '/' {
            i = i - 1;
        } else if c == '.' && (i == 1 || p[i - 2] == '/') {
            i = i - 1;
        } else {
            proof {
                if i > 1 {
                    lemma_slash_after_bounds(p@, i - 2);
                }
            }
            return i;
        }
    }
    0
}

/// The last `.` among `p[from..end]`, or `p.len()`.
fn find_dot_before(p: &Vec<char>, from: usize, end: usize) -> (r: usize)
    requires
        end <= p.len(),
    ensures
        r == dot_before(p@, from as int, end as int),
        r <= p.len(),
{
    let mut i = end;
    while i > from
        invariant
            i <= end,
            end <= p.len(),
            dot_before(p@, from as int, end as int) == dot_before(p@, from as int, i as int),
        decreases i,
    {
        if p[i - 1] == '.' {
            return i - 1;
        }
        i = i - 1;
    }
    p.len()
}

/// The file name's end and start, whether there is a file name, and where its stem ends.
fn file_name_parts(p: &Vec<char>) -> (r: (usize, usize, bool, usize))
    ensures
        r.0 == file_name_end(p@),
        r.1 == file_name_start(p@),
        r.1 <= r.0 <= p.len(),
        r.2 == has_file_name(p@),
        r.2 ==> r.3 == stem_end(p@) && r.3 <= p.len() && (has_extension(p@) ==> r.3 == name_dot(p@) && r.3 < r.0),
{
    let fe = find_file_name_end(p);
    let fs = find_slash_after(p, fe);
    proof {
        lemma_name_end_bounds(p@, p@.len() as int);
    }
    let has_name = fe > 0 && !(fe - fs == 2 && p[fs] == '.' && p[fs + 1] == '.');
    if !has_name {
        return (fe, fs, false, fe);
    }
    let d = find_dot_before(p, fs, fe);
    proof {
        lemma_dot_before_bounds(p@, fs as int, fe as int);
    }
    let stem = if d != p.len() && d != fs { d } else { fe };
    (fe, fs, true, stem)
}

/// `p` with its extension replaced by `ext`, as `Path::with_extension` does.
pub fn replace_extension(p: &str, ext: &str) -> (r: String)
    ensures
        r@ == with_extension(p@, ext@),
{
    let v = chars_of(p);
    let e = chars_of(ext);
    let (fe, _fs, _has_name, d) = file_name_parts(&v);
    let kept = if has_extension_chars(&v) { v.len() - (fe - d - 1) } else { v.len() };
    let q = chars_of(string_from_chars(&v, 0, kept).as_str());
    let (_qe, _qs, q_has_name, q_stem) = file_name_parts(&q);
    if !q_has_name {
        let r = string_from_chars(&q, 0, q.len());
        assert(q@.subrange(0, q.len() as int) =~= q@);
        return r;
    }
    let mut r = string_from_chars(&q, 0, q_stem);
    if e.len() > 0 {
        push_char(&mut r, '.');
        push_chars(&mut r, &e);
    }
    assert(r@ =~= with_extension(p@, ext@));
    r
}

/// Whether the file name of `p` has an extension.
fn has_extension_chars(p: &Vec<char>) -> (r: bool)
    ensures
        r == has_extension(p@),
{
    let (fe, fs, has_name, stem) = file_name_parts(p);
    has_name && stem != fe
}

/// Joining is associative whenever the last segment is relative and non-empty.
pub proof fn lemma_join_associative(base: Seq<char>, a: Seq<char>, b: Seq<char>)
    requires
        b.len() > 0,
        !is_absolute(b),
    ensures
        join(join(base, a), b) == join(base, join(a, b)),
{
    let ab = join(a, b);
    if is_absolute(a) {
        assert(join(base, a) == a);
        assert(ab[0] == a[0]);
        assert(is_absolute(ab));
    } else if a.len() == 0 {
        assert(ab == b);
        if base.len() == 0 {
        } else if base[base.len() - 1] == '/' {
            assert(join(base, a) =~= base);
        } else {
            let bs = base + seq!['/'];
            assert(join(base, a) =~= bs);
            assert(bs[bs.len() - 1] == '/');
            assert(bs + b =~= base + seq!['/'] + b);
        }
    } else {
        assert(ab[0] == a[0]);
        assert(!is_absolute(ab));
        if base.len() == 0 {
        } else if base[base.len() - 1] == '/' {
            assert(join(base, a) == base + a);
            if a[a.len() - 1] == '/' {
                assert((base + a)[(base + a).len() - 1] == '/');
                assert(base + a + b =~= base + (a + b));
            } else {
                assert((base + a)[(base + a).len() - 1] == a[a.len() - 1]);
                assert(base + a + seq!['/'] + b =~= base + (a + seq!['/'] + b));
            }
        } else {
            let ba = base + seq!['/'] + a;
            assert(join(base, a) == ba);
            assert(ba[ba.len() - 1] == a[a.len() - 1]);
            if a[a.len() - 1] == '/' {
                assert(ba + b =~= base + seq!['/'] + (a + b));
            } else {
                assert(ba + seq!['/'] + b =~= base + seq!['/'] + (a + seq!['/'] + b));
            }
        }
    }
}

/// `terrain_path/<label>`: the directory of an attachment inside a terrain.
pub open spec fn spec_attachment_relative_root(terrain_path: Seq<char>, label: crate::coordinate::AttachmentLabelView) -> Seq<char> {
    join(terrain_path, label_name(label))
}

/// `terrain_path/<label>/<tile path>`: where the starter dataset keeps a tile.
pub open spec fn spec_starter_tile_asset_path(terrain_path: Seq<char>, label: crate::coordinate::AttachmentLabelView, coordinate: TileCoordinate) -> Seq<char> {
    join(spec_attachment_relative_root(terrain_path, label), tile_relative_path(coordinate))
}

/// `cache_root/terrain_path/<label>/<tile path>`: where the streaming cache keeps a tile.
pub open spec fn spec_cache_tile_asset_path(cache_root: Seq<char>, terrain_path: Seq<char>, label: crate::coordinate::AttachmentLabelView, coordinate: TileCoordinate) -> Seq<char> {
    join(join(cache_root, spec_attachment_relative_root(terrain_path, label)), tile_relative_path(coordinate))
}

/// `cache_root/terrain_path`: the cache directory of one terrain.
pub open spec fn spec_cache_terrain_root(cache_root: Seq<char>, terrain_path: Seq<char>) -> Seq<char> {
    join(cache_root, terrain_path)
}

/// The directory of an attachment inside a terrain.
pub fn attachment_relative_root(terrain_path: &str, attachment_label: &AttachmentLabel) -> (r: String)
    ensures
        r@ == spec_attachment_relative_root(terrain_path@, attachment_label@),
{
    let name = attachment_label.name();
    join_path(terrain_path, name.as_str())
}

/// Where the starter dataset keeps a tile.
pub fn starter_tile_asset_path(
    terrain_path: &str,
    attachment_label: &AttachmentLabel,
    coordinate: TileCoordinate,
) -> (r: String)
    ensures
        r@ == spec_starter_tile_asset_path(terrain_path@, attachment_label@, coordinate),
{
    let root = attachment_relative_root(terrain_path, attachment_label);
    let tile = coordinate.relative_path();
    join_path(root.as_str(), tile.as_str())
}

/// Where the streaming cache keeps a tile.
pub fn cache_tile_asset_path(
    cache_root: &str,
    terrain_path: &str,
    attachment_label: &AttachmentLabel,
    coordinate: TileCoordinate,
) -> (r: String)
    ensures
        r@ == spec_cache_tile_asset_path(cache_root@, terrain_path@, attachment_label@, coordinate),
{
    let root = attachment_relative_root(terrain_path, attachment_label);
    let dir = join_path(cache_root, root.as_str());
    let tile = coordinate.relative_path();
    join_path(dir.as_str(), tile.as_str())
}

/// The cache directory of one terrain.
pub fn cache_terrain_root(cache_root: &str, terrain_path: &str) -> (r: String)
    ensures
        r@ == spec_cache_terrain_root(cache_root@, terrain_path@),
{
    join_path(cache_root, terrain_path)
}

/// A cached tile's path is its starter path joined onto the cache root, for every cache
/// root, terrain path, attachment and tile.
pub proof fn lemma_cache_path_prefixes_starter_path(
    cache_root: Seq<char>,
    terrain_path: Seq<char>,
    label: crate::coordinate::AttachmentLabelView,
    coordinate: TileCoordinate,
)
    ensures
        spec_cache_tile_asset_path(cache_root, terrain_path, label, coordinate) == join(
            cache_root,
            spec_starter_tile_asset_path(terrain_path, label, coordinate),
        ),
{
    let root = spec_attachment_relative_root(terrain_path, label);
    let tile = tile_relative_path(coordinate);
    crate::text::lemma_decimal_nonempty(coordinate.lod as nat);
    assert(tile[0] == crate::text::decimal(coordinate.lod as nat)[0]);
    crate::text::lemma_decimal_first_is_digit(coordinate.lod as nat);
    lemma_join_associative(cache_root, root, tile);
}

} // verus!
