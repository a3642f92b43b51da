//! Listed entries: their metadata, classification, filtering and order.

use std::path::PathBuf;
use vstd::prelude::*;
use vstd::string::*;

use crate::beautify::{classify, extension, get_icon_from_metadata, lower_of};
use crate::cli::{Args, ArgsSteroids};
use crate::config::{ColorScheme, IconTables, Rgb, DEFAULT_FILE_ICON};
use crate::errors::{category_of, error_for, exhaustive_io_error_mapping, BetterLsError};
use crate::text::{paint, paints};

verus! {

broadcast use vstd::seq_lib::group_to_multiset_ensures;

/// What kind of file system object an entry is.
#[derive(Clone, Copy, Debug, PartialEq, Eq, Structural)]
pub enum EntryKind {
    Directory,
    File,
    Symlink,
    Other,
}

/// The metadata of an entry that listing reads, as plain values.
#[derive(Clone, Copy, Debug)]
pub struct FileMeta {
    pub kind: EntryKind,
    /// Permission bits and file type bits, as `st_mode`.
    pub mode: u32,
    pub nlink: u64,
    pub uid: u32,
    pub gid: u32,
    /// Size in bytes.
    pub size: u64,
    /// Modification time: seconds since the Unix epoch, and nanoseconds.
    pub modified_secs: i64,
    pub modified_nanos: u32,
}

#[verifier::external_type_specification]
#[verifier::external_body]
pub struct ExPathBuf(std::path::PathBuf);

/// The parent of a path, as `std::path::Path::parent` gives it: the path
/// without its final component, `None` for a root or an empty path.
pub uninterp spec fn parent_of(p: PathBuf) -> Option<PathBuf>;

/// The path `n` levels above `p`, staying where a path has no parent.
pub open spec fn ancestor(p: PathBuf, n: nat) -> PathBuf
    decreases n,
{
    if n == 0 {
        p
    } else {
        let below = ancestor(p, (n - 1) as nat);
        match parent_of(below) {
            Some(q) => q,
            None => below,
        }
    }
}

/// Relies on `std::path::Path::parent` and `Path::to_path_buf`: the parent
/// depends on the path alone.
#[verifier::external_body]
fn parent_path(p: &PathBuf) -> (r: Option<PathBuf>)
    ensures
        r == parent_of(*p),
{
    match p.parent() {
        Some(q) => Some(q.to_path_buf()),
        None => None,
    }
}

/// Whether the owner may execute the object (bit 0o100 of the mode).
pub open spec fn owner_executable(mode: u32) -> bool {
    mode & 0o100 != 0
}

/// The color of an entry: directories in the directory color; regular
/// files that the owner may execute in the executable color, else in the
/// unrecognized color where their icon is the default file icon and in the
/// recognized color otherwise; anything else in the unrecognized color.
pub open spec fn entry_color(kind: EntryKind, mode: u32, icon: Seq<char>, s: ColorScheme) -> Rgb {
    match kind {
        EntryKind::Directory => s.dir,
        EntryKind::File => if owner_executable(mode) {
            s.executable_file
        } else if icon == DEFAULT_FILE_ICON@ {
            s.unrecognized_file
        } else {
            s.recognized_file
        },
        _ => s.unrecognized_file,
    }
}

/// A directory gets the directory color even where its owner-execute bit
/// is set: the directory check comes before the permission check.
pub proof fn lemma_directory_color_first(mode: u32, icon: Seq<char>, s: ColorScheme)
    requires
        owner_executable(mode),
    ensures
        entry_color(EntryKind::Directory, mode, icon, s) == s.dir,
{
}

/// A regular file that its owner may execute gets the executable color
/// even where its name is unknown to the file table: the permission check
/// comes before the recognition check.
pub proof fn lemma_executable_before_recognition(
    t: IconTables,
    name: Seq<char>,
    mode: u32,
    s: ColorScheme,
)
    requires
        owner_executable(mode),
        !t.files.icon_map().contains_key(name),
        !t.files.icon_map().contains_key(extension(name)),
        !t.files.alias_map().contains_key(name),
        !t.files.alias_map().contains_key(extension(name)),
    ensures
        classify(t, EntryKind::File, name) == DEFAULT_FILE_ICON@,
        entry_color(EntryKind::File, mode, classify(t, EntryKind::File, name), s)
            == s.executable_file,
{
}

/// The color of an entry of kind `kind`, mode `mode` and icon `icon`.
pub fn resolve_color(kind: EntryKind, mode: u32, icon: &String, colors: &ColorScheme) -> (r: Rgb)
    ensures
        r == entry_color(kind, mode, icon@, *colors),
{
    match kind {
        EntryKind::Directory => colors.dir,
        EntryKind::File => {
            if mode & 0o100 != 0 {
                colors.executable_file
            } else if *icon == DEFAULT_FILE_ICON.to_owned() {
                colors.unrecognized_file
            } else {
                colors.recognized_file
            }
        },
        _ => colors.unrecognized_file,
    }
}

/// One listed item: its name, path and metadata, with the icon and color
/// resolved when it was built.
#[derive(Debug)]
pub struct Entry {
    pub icon: String,
    pub name: String,
    pub path: PathBuf,
    pub metadata: FileMeta,
    pub color: Rgb,
}

/// The text that shows an entry: icon, two spaces, name, and a '/' after
/// directories.
pub open spec fn label(e: Entry) -> Seq<char> {
    e.icon@ + seq![' ', ' '] + e.name@ + if e.metadata.kind == EntryKind::Directory {
        seq!['/']
    } else {
        Seq::empty()
    }
}

/// A name of `n` dots: "." for the directory itself, ".." for its parent.
pub open spec fn dots(n: nat) -> Seq<char> {
    Seq::new(n, |i: int| '.')
}

impl Entry {
    /// An entry from its parts as they are.
    pub fn new(name: String, path: PathBuf, icon: String, color: Rgb, metadata: FileMeta) -> (r:
        Self)
        ensures
            r == (Entry { icon, name, path, metadata, color }),
    {
        Entry { name, path, metadata, icon, color }
    }

    /// The entry at `path`, named `file_name`, from the outcome of reading
    /// its metadata. `alias`, where given, is shown instead of the name. A
    /// failed read maps to a listing error about `file_name`.
    pub fn from_path(
        path: PathBuf,
        file_name: String,
        metadata: Result<FileMeta, std::io::Error>,
        alias: Option<String>,
        tables: &IconTables,
        colors: &ColorScheme,
    ) -> (r: Result<Entry, BetterLsError>)
        ensures
            metadata matches Err(err) ==> r == Err::<Entry, BetterLsError>(
                error_for(category_of(err), err, file_name),
            ),
            metadata matches Ok(m) ==> (r matches Ok(e) && {
                &&& e.name == (match alias {
                    Some(a) => a,
                    None => file_name,
                })
                &&& e.path == path
                &&& e.metadata == m
                &&& e.icon@ == classify(*tables, m.kind, lower_of(file_name@))
                &&& e.color == entry_color(m.kind, m.mode, e.icon@, *colors)
            }),
    {
        match metadata {
            Err(err) => Err(exhaustive_io_error_mapping(err, file_name)),
            Ok(m) => {
                let icon = get_icon_from_metadata(&m, file_name.as_str(), tables);
                let color = resolve_color(m.kind, m.mode, &icon, colors);
                let name = match alias {
                    Some(a) => a,
                    None => file_name,
                };
                Ok(Entry::new(name, path, icon, color, m))
            },
        }
    }

    /// The path `level` directories above `current_path` (stopping at the
    /// root) and the name of its pseudo-entry: `level + 1` dots.
    pub fn parent_level(current_path: PathBuf, level: u8) -> (r: (PathBuf, String))
        ensures
            r.0 == ancestor(current_path, level as nat),
            r.1@ == dots(level as nat + 1),
    {
        let mut parent = current_path;
        let mut name = ".".to_owned();
        proof {
            reveal_strlit(".");
            assert(name@ =~= dots(1));
        }
        let mut i: u8 = 0;
        while i < level
            invariant
                i <= level,
                name@ == dots(i as nat + 1),
                parent == ancestor(current_path, i as nat),
            decreases level - i,
        {
            parent = match parent_path(&parent) {
                Some(p) => p,
                None => parent,
            };
            name.append(".");
            proof {
                reveal_strlit(".");
                assert(name@ =~= dots(i as nat + 2));
            }
            i = i + 1;
        }
        (parent, name)
    }

    /// The entry painted in its color (see `label`).
    pub fn display(&self) -> (r: String)
        ensures
            paints(r@, label(*self), self.color),
    {
        let mut text = self.icon.clone();
        text.append("  ");
        text.append(self.name.as_str());
        if self.metadata.kind == EntryKind::Directory {
            text.append("/");
        }
        proof {
            reveal_strlit("  ");
            reveal_strlit("/");
            assert(text@ =~= label(*self));
        }
        paint(text.as_str(), self.color)
    }
}

/// Whether a name is hidden: it starts with '.'.
pub open spec fn is_hidden(e: Entry) -> bool {
    e.name@.len() > 0 && e.name@[0] == '.'
}

/// The entries that stay when hidden names are not shown.
pub open spec fn visible() -> spec_fn(Entry) -> bool {
    |e: Entry| !is_hidden(e)
}

/// The entries that the kind options keep: directories only, else regular
/// files only, else all.
pub open spec fn of_kind(directory: bool, files_only: bool) -> spec_fn(Entry) -> bool {
    |e: Entry|
        if directory {
            e.metadata.kind == EntryKind::Directory
        } else if files_only {
            e.metadata.kind == EntryKind::File
        } else {
            true
        }
}

/// The entries to list: those of the selected kind; then, with `all`, the
/// pseudo-entries `parents`; then, unless dot files are shown, only those
/// whose name does not start with '.'.
pub open spec fn filtered(entries: Seq<Entry>, parents: Seq<Entry>, args: Args) -> Seq<Entry> {
    let kept = entries.filter(of_kind(args.directory, args.files_only));
    let with_parents = if args.all {
        kept + parents
    } else {
        kept
    };
    if args.spec_show_dot_files() {
        with_parents
    } else {
        with_parents.filter(visible())
    }
}

/// With dot files hidden (neither `all` nor `almost_all`), no listed entry
/// has a name starting with '.', and every entry of the selected kind whose
/// name does not start with '.' is listed.
pub proof fn lemma_dot_files_hidden(entries: Seq<Entry>, parents: Seq<Entry>, args: Args)
    requires
        !args.all,
        !args.almost_all,
    ensures
        forall|i: int|
            0 <= i < filtered(entries, parents, args).len() ==> !is_hidden(
                #[trigger] filtered(entries, parents, args)[i],
            ),
        forall|i: int|
            0 <= i < entries.len() && of_kind(args.directory, args.files_only)(entries[i])
                && !is_hidden(#[trigger] entries[i]) ==> filtered(entries, parents, args).contains(
                entries[i],
            ),
{
    let kept = entries.filter(of_kind(args.directory, args.files_only));
    assert forall|i: int| 0 <= i < filtered(entries, parents, args).len() implies !is_hidden(
        #[trigger] filtered(entries, parents, args)[i],
    ) by {
        kept.lemma_filter_pred(visible(), i);
    }
    assert forall|i: int|
        0 <= i < entries.len() && of_kind(args.directory, args.files_only)(entries[i]) && !is_hidden(
            #[trigger] entries[i],
        ) implies filtered(entries, parents, args).contains(entries[i]) by {
        entries.lemma_filter_contains(of_kind(args.directory, args.files_only), i);
        let j = choose|j: int| 0 <= j < kept.len() && kept[j] == entries[i];
        kept.lemma_filter_contains(visible(), j);
    }
}

/// With `almost_all` and without `all`, every entry of the selected kind is
/// listed, dot files included, in its order.
pub proof fn lemma_dot_files_shown(entries: Seq<Entry>, parents: Seq<Entry>, args: Args)
    requires
        !args.all,
        args.almost_all,
    ensures
        filtered(entries, parents, args) == entries.filter(of_kind(args.directory, args.files_only)),
{
}

fn starts_with_dot(name: &String) -> (r: bool)
    ensures
        r == (name@.len() > 0 && name@[0] == '.'),
{
    let text = name.as_str();
    !text.is_empty() && text.get_char(0) == '.'
}

/// The entries of the given kind, in their order.
fn keep_kind(entries: Vec<Entry>, directory: bool, files_only: bool) -> (r: Vec<Entry>)
    ensures
        r@ == entries@.filter(of_kind(directory, files_only)),
{
    let ghost all = entries@;
    let mut out: Vec<Entry> = Vec::new();
    for e in it: entries.into_iter()
        invariant
            it.seq() == all,
            out@ == all.take(it.index() as int).filter(of_kind(directory, files_only)),
    {
        proof {
            assert(all.take(it.index() + 1) =~= all.take(it.index() as int).push(e));
            all.take(it.index() as int).lemma_filter_push(e, of_kind(directory, files_only));
        }
        let keep = if directory {
            e.metadata.kind == EntryKind::Directory
        } else if files_only {
            e.metadata.kind == EntryKind::File
        } else {
            true
        };
        if keep {
            out.push(e);
        }
    }
    proof {
        assert(all.take(all.len() as int) =~= all);
    }
    out
}

/// The entries whose name does not start with '.', in their order.
fn drop_hidden(entries: Vec<Entry>) -> (r: Vec<Entry>)
    ensures
        r@ == entries@.filter(visible()),
{
    let ghost all = entries@;
    let mut out: Vec<Entry> = Vec::new();
    for e in it: entries.into_iter()
        invariant
            it.seq() == all,
            out@ == all.take(it.index() as int).filter(visible()),
    {
        proof {
            assert(all.take(it.index() + 1) =~= all.take(it.index() as int).push(e));
            all.take(it.index() as int).lemma_filter_push(e, visible());
        }
        if !starts_with_dot(&e.name) {
            out.push(e);
        }
    }
    proof {
        assert(all.take(all.len() as int) =~= all);
    }
    out
}

/// Filters the entries of a directory as the options ask (see `filtered`).
/// `parents` are the pseudo-entries "." and "..", added only with `all`.
pub fn get_filtered_entries(entries: Vec<Entry>, parents: Vec<Entry>, args: &Args) -> (r: Vec<
    Entry,
>)
    ensures
        r@ == filtered(entries@, parents@, *args),
{
    let mut kept = keep_kind(entries, args.directory, args.files_only);
    if args.all {
        let mut extra = parents;
        kept.append(&mut extra);
    }
    if args.show_dot_files() {
        kept
    } else {
        drop_hidden(kept)
    }
}

/// `a` comes no later than `b` in the lexicographic order of code points
/// (which is the byte order of their UTF-8 forms).
pub open spec fn name_le(a: Seq<char>, b: Seq<char>) -> bool
    decreases a.len(),
{
    if a.len() == 0 {
        true
    } else if b.len() == 0 {
        false
    } else if a[0] != b[0] {
        (a[0] as int) < (b[0] as int)
    } else {
        name_le(a.drop_first(), b.drop_first())
    }
}

/// Any two names are ordered one way or the other.
pub proof fn lemma_name_le_total(a: Seq<char>, b: Seq<char>)
    ensures
        name_le(a, b) || name_le(b, a),
    decreases a.len(),
{
    if a.len() > 0 && b.len() > 0 {
        if a[0] == b[0] {
            lemma_name_le_total(a.drop_first(), b.drop_first());
        } else {
            assert((a[0] as int) != (b[0] as int));
        }
    }
}

/// Each entry's name comes no later than the next one's.
pub open spec fn sorted_by_name(s: Seq<Entry>) -> bool {
    forall|i: int| 0 <= i < s.len() - 1 ==> name_le(#[trigger] s[i].name@, s[i + 1].name@)
}

/// Whether `a` comes no later than `b` (see `name_le`).
pub fn names_in_order(a: &str, b: &str) -> (r: bool)
    ensures
        r == name_le(a@, b@),
{
    let la = a.unicode_len();
    let lb = b.unicode_len();
    let mut i: usize = 0;
    proof {
        assert(a@.skip(0) =~= a@);
        assert(b@.skip(0) =~= b@);
    }
    while i < la && i < lb
        invariant
            i <= la,
            i <= lb,
            la == a@.len(),
            lb == b@.len(),
            name_le(a@, b@) == name_le(a@.skip(i as int), b@.skip(i as int)),
        decreases la - i,
    {
        let ca = a.get_char(i);
        let cb = b.get_char(i);
        if ca != cb {
            return (ca as u32) < (cb as u32);
        }
        proof {
            assert(a@.skip(i as int).drop_first() =~= a@.skip(i + 1));
            assert(b@.skip(i as int).drop_first() =~= b@.skip(i + 1));
        }
        i = i + 1;
    }
    i == la
}

/// The entries named `n`.
pub open spec fn named(n: Seq<char>) -> spec_fn(Entry) -> bool {
    |e: Entry| e.name@ == n
}

proof fn lemma_name_le_reflexive(a: Seq<char>)
    ensures
        name_le(a, a),
    decreases a.len(),
{
    if a.len() > 0 {
        lemma_name_le_reflexive(a.drop_first());
    }
}

/// Inserting an element that `f` rejects leaves the filtered sequence as
/// it was.
proof fn lemma_filter_insert_rejected<A>(s: Seq<A>, p: int, x: A, f: spec_fn(A) -> bool)
    requires
        0 <= p <= s.len(),
        !f(x),
    ensures
        s.insert(p, x).filter(f) == s.filter(f),
    decreases s.len(),
{
    if p == s.len() {
        assert(s.insert(p, x) =~= s.push(x));
        s.lemma_filter_push(x, f);
    } else {
        let init = s.drop_last();
        assert(s.insert(p, x) =~= init.insert(p, x).push(s.last()));
        assert(s =~= init.push(s.last()));
        lemma_filter_insert_rejected(init, p, x, f);
        init.insert(p, x).lemma_filter_push(s.last(), f);
        init.lemma_filter_push(s.last(), f);
    }
}

/// Inserting an element at `p`, where `f` rejects everything from `p` on,
/// adds it at the end of the filtered sequence if `f` accepts it.
proof fn lemma_filter_insert_after<A>(s: Seq<A>, p: int, x: A, f: spec_fn(A) -> bool)
    requires
        0 <= p <= s.len(),
        forall|q: int| p <= q < s.len() ==> !f(#[trigger] s[q]),
    ensures
        s.insert(p, x).filter(f) == if f(x) {
            s.filter(f).push(x)
        } else {
            s.filter(f)
        },
    decreases s.len(),
{
    if p == s.len() {
        assert(s.insert(p, x) =~= s.push(x));
        s.lemma_filter_push(x, f);
    } else {
        let init = s.drop_last();
        assert(s.insert(p, x) =~= init.insert(p, x).push(s.last()));
        assert(s =~= init.push(s.last()));
        assert forall|q: int| p <= q < init.len() implies !f(#[trigger] init[q]) by {
            assert(init[q] == s[q]);
        }
        lemma_filter_insert_after(init, p, x, f);
        init.insert(p, x).lemma_filter_push(s.last(), f);
        init.lemma_filter_push(s.last(), f);
    }
}

/// The entries ordered by name. The sort is stable: for each name, the
/// entries of that name come out in the order they came in.
pub fn sort_by_name(entries: Vec<Entry>) -> (r: Vec<Entry>)
    ensures
        r@.to_multiset() == entries@.to_multiset(),
        sorted_by_name(r@),
        forall|n: Seq<char>| #[trigger] r@.filter(named(n)) == entries@.filter(named(n)),
{
    let ghost all = entries@;
    let mut out: Vec<Entry> = Vec::new();
    for e in it: entries.into_iter()
        invariant
            it.seq() == all,
            out@.to_multiset() == all.take(it.index() as int).to_multiset(),
            sorted_by_name(out@),
            forall|n: Seq<char>|
                #[trigger] out@.filter(named(n)) == all.take(it.index() as int).filter(named(n)),
    {
        let mut p = out.len();
        while p > 0 && !names_in_order(out[p - 1].name.as_str(), e.name.as_str())
            invariant
                p <= out.len(),
                sorted_by_name(out@),
                forall|q: int| p <= q < out.len() ==> !name_le(#[trigger] out@[q].name@, e.name@),
            decreases p,
        {
            p = p - 1;
        }
        proof {
            if p < out.len() {
                lemma_name_le_total(out@[p as int].name@, e.name@);
            }
            assert(all.take(it.index() + 1) =~= all.take(it.index() as int).push(e));
        }
        let ghost before = out@;
        let ghost prefix = all.take(it.index() as int);
        out.insert(p, e);
        proof {
            assert forall|i: int| 0 <= i < out@.len() - 1 implies name_le(
                #[trigger] out@[i].name@,
                out@[i + 1].name@,
            ) by {
                if i + 1 < p {
                    assert(out@[i] == before[i] && out@[i + 1] == before[i + 1]);
                } else if i + 1 == p {
                    assert(out@[i] == before[i] && out@[i + 1] == e);
                } else if i == p {
                    assert(out@[i] == e && out@[i + 1] == before[i]);
                } else {
                    assert(out@[i] == before[i - 1] && out@[i + 1] == before[i]);
                    assert(name_le(before[i - 1].name@, before[i].name@));
                }
            }
            assert forall|n: Seq<char>| #[trigger]
                out@.filter(named(n)) == prefix.push(e).filter(named(n)) by {
                prefix.lemma_filter_push(e, named(n));
                if n == e.name@ {
                    assert forall|q: int| p <= q < before.len() implies !named(n)(
                        #[trigger] before[q],
                    ) by {
                        lemma_name_le_reflexive(e.name@);
                    }
                    lemma_filter_insert_after(before, p as int, e, named(n));
                } else {
                    lemma_filter_insert_rejected(before, p as int, e, named(n));
                }
            }
        }
    }
    proof {
        assert(all.take(all.len() as int) =~= all);
    }
    out
}

} // verus!
