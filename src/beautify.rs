//! Icons for names, permission strings and dates.

use chrono::{DateTime, Local};
use vstd::prelude::*;
use vstd::string::*;

use crate::config::{ColorScheme, IconMapping, IconTables, DEFAULT_DIR_ICON, DEFAULT_FILE_ICON};
use crate::entry::{EntryKind, FileMeta};
use crate::text::{joined, paint, paints};

verus! {

/// The lowercase form of a text, as `str::to_lowercase` gives it.
pub uninterp spec fn lower_of(s: Seq<char>) -> Seq<char>;

/// Relies on `str::to_lowercase`: the result depends on the characters alone.
#[verifier::external_body]
fn lowercase(s: &str) -> (r: String)
    ensures
        r@ == lower_of(s@),
{
    s.to_lowercase()
}

/// Index of the last '.' in `s`, or -1 where it has none.
pub open spec fn last_dot(s: Seq<char>) -> int
    decreases s.len(),
{
    if s.len() == 0 {
        -1
    } else if s.last() == '.' {
        s.len() - 1
    } else {
        last_dot(s.drop_last())
    }
}

/// The extension of a name: what follows its last '.', or the whole name
/// where it has no '.'.
pub open spec fn extension(name: Seq<char>) -> Seq<char> {
    name.subrange(last_dot(name) + 1, name.len() as int)
}

proof fn lemma_last_dot_bounds(s: Seq<char>)
    ensures
        -1 <= last_dot(s) < s.len(),
    decreases s.len(),
{
    if s.len() > 0 {
        lemma_last_dot_bounds(s.drop_last());
    }
}

/// The icon that `key` leads to through the alias table, or `fallback`
/// where the canonical key has no icon.
pub open spec fn alias_icon(t: IconMapping, key: Seq<char>, fallback: Seq<char>) -> Seq<char> {
    let target = t.alias_map()[key];
    if t.icon_map().contains_key(target) {
        t.icon_map()[target]
    } else {
        fallback
    }
}

/// The icon of a directory with the (lowercase) name `name`.
pub open spec fn directory_icon(t: IconMapping, name: Seq<char>) -> Seq<char> {
    if t.icon_map().contains_key(name) {
        t.icon_map()[name]
    } else if t.alias_map().contains_key(name) {
        alias_icon(t, name, DEFAULT_DIR_ICON@)
    } else {
        DEFAULT_DIR_ICON@
    }
}

/// The icon of a file with the (lowercase) name `name`: the entry for the
/// whole name, else the one for its extension, else the alias of the name
/// or, lacking one, of the extension, else the default.
pub open spec fn file_icon(t: IconMapping, name: Seq<char>) -> Seq<char> {
    let ext = extension(name);
    if t.icon_map().contains_key(name) {
        t.icon_map()[name]
    } else if t.icon_map().contains_key(ext) {
        t.icon_map()[ext]
    } else if t.alias_map().contains_key(name) {
        alias_icon(t, name, DEFAULT_FILE_ICON@)
    } else if t.alias_map().contains_key(ext) {
        alias_icon(t, ext, DEFAULT_FILE_ICON@)
    } else {
        DEFAULT_FILE_ICON@
    }
}

/// The icon of an entry of kind `kind` whose lowercase name is `lowered`.
/// Symlinks and other objects are looked up as files under the names
/// "symlink" and "unknown".
pub open spec fn classify(t: IconTables, kind: EntryKind, lowered: Seq<char>) -> Seq<char> {
    match kind {
        EntryKind::Directory => directory_icon(t.folders, lowered),
        EntryKind::File => file_icon(t.files, lowered),
        EntryKind::Symlink => file_icon(t.files, "symlink"@),
        EntryKind::Other => file_icon(t.files, "unknown"@),
    }
}

/// The extension of `name` (see `extension`).
pub fn extension_of(name: &str) -> (r: String)
    ensures
        r@ == extension(name@),
{
    let n = name.unicode_len();
    let mut start: usize = 0;
    let mut i: usize = 0;
    while i < n
        invariant
            i <= n,
            n == name@.len(),
            start as int == last_dot(name@.subrange(0, i as int)) + 1,
        decreases n - i,
    {
        proof {
            assert(name@.subrange(0, i + 1).drop_last() =~= name@.subrange(0, i as int));
        }
        if name.get_char(i) == '.' {
            start = i + 1;
        }
        i = i + 1;
    }
    proof {
        assert(name@.subrange(0, n as int) =~= name@);
        lemma_last_dot_bounds(name@);
    }
    name.substring_char(start, n).to_owned()
}

/// The icon of a directory whose name is already lowercase.
pub fn directory_icon_of_lowered(folders: &IconMapping, dir: &str) -> (r: String)
    ensures
        r@ == directory_icon(*folders, dir@),
{
    match folders.icon(dir) {
        Some(icon) => icon,
        None => match folders.alias(dir) {
            Some(key) => match folders.icon(key.as_str()) {
                Some(icon) => icon,
                None => DEFAULT_DIR_ICON.to_owned(),
            },
            None => DEFAULT_DIR_ICON.to_owned(),
        },
    }
}

/// The icon that the alias of `key` leads to, if `key` has an alias.
fn icon_through_alias(files: &IconMapping, key: &str) -> (r: Option<String>)
    ensures
        r is Some <==> files.alias_map().contains_key(key@),
        r is Some ==> r->0@ == alias_icon(*files, key@, DEFAULT_FILE_ICON@),
{
    match files.alias(key) {
        Some(target) => match files.icon(target.as_str()) {
            Some(icon) => Some(icon),
            None => Some(DEFAULT_FILE_ICON.to_owned()),
        },
        None => None,
    }
}

/// The icon of a file whose name is already lowercase.
pub fn file_icon_of_lowered(files: &IconMapping, file: &str) -> (r: String)
    ensures
        r@ == file_icon(*files, file@),
{
    let ext = extension_of(file);
    if let Some(icon) = files.icon(file) {
        icon
    } else if let Some(icon) = files.icon(ext.as_str()) {
        icon
    } else if let Some(icon) = icon_through_alias(files, file) {
        icon
    } else if let Some(icon) = icon_through_alias(files, ext.as_str()) {
        icon
    } else {
        DEFAULT_FILE_ICON.to_owned()
    }
}

/// The icon of a directory; the lookup ignores case.
pub fn get_directory_icon(folders: &IconMapping, dir: &str) -> (r: String)
    ensures
        r@ == directory_icon(*folders, lower_of(dir@)),
{
    let lowered = lowercase(dir);
    directory_icon_of_lowered(folders, lowered.as_str())
}

/// The icon of a file; the lookup ignores case.
pub fn get_file_icon(files: &IconMapping, file: &str) -> (r: String)
    ensures
        r@ == file_icon(*files, lower_of(file@)),
{
    let lowered = lowercase(file);
    file_icon_of_lowered(files, lowered.as_str())
}

/// The icon of an entry with the given metadata and name.
pub fn get_icon_from_metadata(metadata: &FileMeta, file_name: &str, tables: &IconTables) -> (r:
    String)
    ensures
        r@ == classify(*tables, metadata.kind, lower_of(file_name@)),
{
    match metadata.kind {
        EntryKind::Directory => get_directory_icon(&tables.folders, file_name),
        EntryKind::File => get_file_icon(&tables.files, file_name),
        EntryKind::Symlink => file_icon_of_lowered(&tables.files, "symlink"),
        EntryKind::Other => file_icon_of_lowered(&tables.files, "unknown"),
    }
}

/// A lowercase file name that the file table knows neither by the whole
/// name nor by its extension, directly or through an alias, gets the
/// default file icon.
pub proof fn lemma_unknown_file_gets_default(t: IconTables, name: Seq<char>)
    requires
        !t.files.icon_map().contains_key(name),
        !t.files.icon_map().contains_key(extension(name)),
        !t.files.alias_map().contains_key(name),
        !t.files.alias_map().contains_key(extension(name)),
    ensures
        classify(t, EntryKind::File, name) == DEFAULT_FILE_ICON@,
{
}

/// A file name that is a key of the file table gets that key's icon, even
/// where its extension is a key too.
pub proof fn lemma_exact_name_first(t: IconTables, name: Seq<char>)
    requires
        t.files.icon_map().contains_key(name),
    ensures
        classify(t, EntryKind::File, name) == t.files.icon_map()[name],
{
}

/// A file name that is no key of the file table, whose extension is none
/// either, but that is an alias, gets the icon of the key it stands for.
pub proof fn lemma_alias_resolves(t: IconTables, name: Seq<char>)
    requires
        !t.files.icon_map().contains_key(name),
        !t.files.icon_map().contains_key(extension(name)),
        t.files.alias_map().contains_key(name),
        t.files.icon_map().contains_key(t.files.alias_map()[name]),
    ensures
        classify(t, EntryKind::File, name) == t.files.icon_map()[t.files.alias_map()[name]],
{
}

/// Where neither a file name nor its extension is a key and the name is no
/// alias, an alias for the extension gives the icon of the key it stands
/// for.
pub proof fn lemma_extension_alias_resolves(t: IconTables, name: Seq<char>)
    requires
        !t.files.icon_map().contains_key(name),
        !t.files.icon_map().contains_key(extension(name)),
        !t.files.alias_map().contains_key(name),
        t.files.alias_map().contains_key(extension(name)),
        t.files.icon_map().contains_key(t.files.alias_map()[extension(name)]),
    ensures
        classify(t, EntryKind::File, name) == t.files.icon_map()[t.files.alias_map()[extension(
            name,
        )]],
{
}

/// Classification ignores case: two names with the same lowercase form get
/// the same icon, whatever the kind.
pub proof fn lemma_classify_ignores_case(t: IconTables, kind: EntryKind, a: Seq<char>, b: Seq<char>)
    requires
        lower_of(a) == lower_of(b),
    ensures
        classify(t, kind, lower_of(a)) == classify(t, kind, lower_of(b)),
{
}

/// The bit of `st_mode` for permission position `i`: owner read, write,
/// execute, then group, then others.
pub open spec fn permission_mask(i: int) -> u32 {
    if i == 0 {
        0o400
    } else if i == 1 {
        0o200
    } else if i == 2 {
        0o100
    } else if i == 3 {
        0o040
    } else if i == 4 {
        0o020
    } else if i == 5 {
        0o010
    } else if i == 6 {
        0o004
    } else if i == 7 {
        0o002
    } else {
        0o001
    }
}

/// Whether `mode` grants the permission at position `i`.
pub open spec fn permission_granted(mode: u32, i: int) -> bool {
    mode & permission_mask(i) != 0
}

/// The character shown at position `i`: its letter where granted, '-'
/// where not.
pub open spec fn permission_char(mode: u32, i: int) -> char {
    if !permission_granted(mode, i) {
        '-'
    } else if i % 3 == 0 {
        'r'
    } else if i % 3 == 1 {
        'w'
    } else {
        'x'
    }
}

/// The color of position `i`: that of its letter where granted, the
/// no-access color where not.
pub open spec fn permission_color(mode: u32, s: ColorScheme, i: int) -> [u8; 3] {
    if !permission_granted(mode, i) {
        s.no_access
    } else if i % 3 == 0 {
        s.read
    } else if i % 3 == 1 {
        s.write
    } else {
        s.execute
    }
}

/// `pieces` are the nine painted positions of the permissions in `mode`.
pub open spec fn permission_pieces(pieces: Seq<Seq<char>>, mode: u32, s: ColorScheme) -> bool {
    &&& pieces.len() == 9
    &&& forall|i: int|
        0 <= i < 9 ==> #[trigger] paints(
            pieces[i],
            seq![permission_char(mode, i)],
            permission_color(mode, s, i),
        )
}

fn permission_mask_at(i: usize) -> (m: u32)
    requires
        i < 9,
    ensures
        m == permission_mask(i as int),
{
    if i == 0 {
        0o400
    } else if i == 1 {
        0o200
    } else if i == 2 {
        0o100
    } else if i == 3 {
        0o040
    } else if i == 4 {
        0o020
    } else if i == 5 {
        0o010
    } else if i == 6 {
        0o004
    } else if i == 7 {
        0o002
    } else {
        0o001
    }
}

/// 'r' in the read color where granted, '-' in the no-access color where not.
fn colorize_read(read: bool, colors: &ColorScheme) -> (r: String)
    ensures
        paints(r@, seq![if read { 'r' } else { '-' }], if read { colors.read } else { colors.no_access }),
{
    proof {
        reveal_strlit("r");
        reveal_strlit("-");
        assert("r"@ =~= seq!['r']);
        assert("-"@ =~= seq!['-']);
    }
    if read {
        paint("r", colors.read)
    } else {
        paint("-", colors.no_access)
    }
}

/// 'w' in the write color where granted, '-' in the no-access color where not.
fn colorize_write(write: bool, colors: &ColorScheme) -> (r: String)
    ensures
        paints(r@, seq![if write { 'w' } else { '-' }], if write { colors.write } else { colors.no_access }),
{
    proof {
        reveal_strlit("w");
        reveal_strlit("-");
        assert("w"@ =~= seq!['w']);
        assert("-"@ =~= seq!['-']);
    }
    if write {
        paint("w", colors.write)
    } else {
        paint("-", colors.no_access)
    }
}

/// 'x' in the execute color where granted, '-' in the no-access color where not.
fn colorize_exec(exec: bool, colors: &ColorScheme) -> (r: String)
    ensures
        paints(r@, seq![if exec { 'x' } else { '-' }], if exec { colors.execute } else { colors.no_access }),
{
    proof {
        reveal_strlit("x");
        reveal_strlit("-");
        assert("x"@ =~= seq!['x']);
        assert("-"@ =~= seq!['-']);
    }
    if exec {
        paint("x", colors.execute)
    } else {
        paint("-", colors.no_access)
    }
}

/// `out` is the nine painted positions of `mode`, one after the other.
pub open spec fn permission_text(out: Seq<char>, mode: u32, s: ColorScheme) -> bool {
    exists|pieces: Seq<Seq<char>>|
        permission_pieces(pieces, mode, s) && out == joined(pieces, Seq::empty())
}

/// The nine permission positions of `permissions` (owner, group, others;
/// read, write, execute each), each letter or '-' painted in its color.
pub fn format_permissions(permissions: u32, colors: &ColorScheme) -> (r: String)
    ensures
        permission_text(r@, permissions, *colors),
{
    let mut out = String::new();
    let ghost mut pieces: Seq<Seq<char>> = Seq::empty();
    let mut i: usize = 0;
    while i < 9
        invariant
            i <= 9,
            pieces.len() == i,
            out@ == joined(pieces, Seq::empty()),
            forall|j: int|
                0 <= j < i ==> #[trigger] paints(
                    pieces[j],
                    seq![permission_char(permissions, j)],
                    permission_color(permissions, *colors, j),
                ),
        decreases 9 - i,
    {
        let granted = permissions & permission_mask_at(i) != 0;
        let piece = if i % 3 == 0 {
            colorize_read(granted, colors)
        } else if i % 3 == 1 {
            colorize_write(granted, colors)
        } else {
            colorize_exec(granted, colors)
        };
        proof {
            let next = pieces.push(piece@);
            assert(next.drop_last() =~= pieces);
            if pieces.len() == 0 {
                assert(out@ + piece@ =~= piece@);
            } else {
                assert(out@ + piece@ =~= out@ + Seq::<char>::empty() + piece@);
            }
            pieces = next;
        }
        out.append(piece.as_str());
        i = i + 1;
    }
    proof {
        assert(permission_pieces(pieces, permissions, *colors));
    }
    out
}

/// Whether chrono can represent the instant `secs` seconds and `nanos`
/// nanoseconds after the Unix epoch: a day of the years -262143 to 262142,
/// and less than a second of nanoseconds (less than two on the last second
/// of a minute, for a leap second).
pub open spec fn date_in_range(secs: i64, nanos: u32) -> bool {
    &&& -8_334_601_228_800 <= secs <= 8_210_266_876_799
    &&& nanos < 1_000_000_000 || (nanos < 2_000_000_000 && (secs as int % 86_400) % 60 == 59)
}

/// Relies on chrono: `DateTime::from_timestamp`, which is `None` exactly
/// outside `date_in_range`, then the conversion to the local time zone and
/// `format` with "%a %b %e %T %Y". The text depends on the time zone of the
/// machine.
#[verifier::external_body]
pub fn format_date(secs: i64, nanos: u32) -> (r: Option<String>)
    ensures
        r is Some <==> date_in_range(secs, nanos),
{
    match DateTime::from_timestamp(secs, nanos) {
        Some(utc) => Some(utc.with_timezone(&Local).format("%a %b %e %T %Y").to_string()),
        None => None,
    }
}

} // verus!
