//! The two ways of showing a listing: inline, and one detailed row per entry.

use vstd::prelude::*;

use crate::beautify::{date_in_range, format_date, format_permissions, permission_text};
use crate::cli::{Args, ArgsSteroids};
use crate::config::ColorScheme;
use crate::entry::{label, named, sort_by_name, sorted_by_name, Entry};
use crate::text::{decimal, decimal_text, joined, paints};

verus! {

/// Which columns a detailed row shows before the entry itself.
#[derive(Clone, Copy, Debug)]
pub struct DetailedListOptions {
    pub permissions: bool,
    pub link_count: bool,
    pub owner: bool,
    pub group: bool,
    pub size: bool,
    pub modified_date: bool,
}

impl Default for DetailedListOptions {
    /// Every column shown.
    fn default() -> (r: DetailedListOptions)
        ensures
            r.permissions && r.link_count && r.owner && r.group && r.size && r.modified_date,
    {
        DetailedListOptions {
            permissions: true,
            link_count: true,
            owner: true,
            group: true,
            size: true,
            modified_date: true,
        }
    }
}

/// The separator between entries of an inline listing: five spaces.
pub open spec fn inline_separator() -> Seq<char> {
    seq![' ', ' ', ' ', ' ', ' ']
}

/// The separator between the columns of a detailed row.
pub open spec fn tab() -> Seq<char> {
    seq!['\t']
}

/// `column` where `shown`, nothing otherwise.
pub open spec fn optional(shown: bool, column: Seq<char>) -> Seq<Seq<char>> {
    if shown {
        seq![column]
    } else {
        Seq::empty()
    }
}

/// The columns of the detailed row of `e`, in their fixed order:
/// permissions, link count, owner, group, size, modification date, each
/// where `o` asks for it, and always the entry itself last.
pub open spec fn detail_columns(
    e: Entry,
    o: DetailedListOptions,
    permissions: Seq<char>,
    owner: Seq<char>,
    group: Seq<char>,
    date: Seq<char>,
    shown: Seq<char>,
) -> Seq<Seq<char>> {
    optional(o.permissions, permissions) + optional(o.link_count, decimal(e.metadata.nlink as nat))
        + optional(o.owner, owner) + optional(o.group, group) + optional(
        o.size,
        decimal(e.metadata.size as nat),
    ) + optional(o.modified_date, date) + seq![shown]
}

/// `pieces` show `entries` one by one: each label painted in its entry's
/// color.
pub open spec fn inline_pieces(pieces: Seq<Seq<char>>, entries: Seq<Entry>) -> bool {
    &&& pieces.len() == entries.len()
    &&& forall|i: int|
        0 <= i < entries.len() ==> #[trigger] paints(pieces[i], label(entries[i]), entries[i].color)
}

/// Appends `column` to a row that holds `cols`, with a tab before it unless
/// it is the first.
fn append_column(line: &mut String, Ghost(cols): Ghost<Seq<Seq<char>>>, first: bool, column: &str)
    requires
        old(line)@ == joined(cols, tab()),
        first == (cols.len() == 0),
    ensures
        final(line)@ == joined(cols.push(column@), tab()),
{
    proof {
        assert(cols.push(column@).drop_last() =~= cols);
    }
    if first {
        line.append(column);
        proof {
            assert(final(line)@ =~= column@);
        }
    } else {
        line.append("\t");
        proof {
            reveal_strlit("\t");
        }
        line.append(column);
    }
}

/// The detailed row of `e` from its column texts: the permission text, the
/// owner and group names, the modification date and the painted entry.
pub fn assemble_row(
    e: &Entry,
    options: &DetailedListOptions,
    permissions: &str,
    owner: &str,
    group: &str,
    date: &str,
    shown: &str,
) -> (r: String)
    ensures
        r@ == joined(
            detail_columns(*e, *options, permissions@, owner@, group@, date@, shown@),
            tab(),
        ),
{
    let mut line = String::new();
    let ghost mut cols: Seq<Seq<char>> = Seq::empty();
    let mut first = true;
    if options.permissions {
        append_column(&mut line, Ghost(cols), first, permissions);
        proof {
            cols = cols.push(permissions@);
        }
        first = false;
    }
    if options.link_count {
        let count = decimal_text(e.metadata.nlink);
        append_column(&mut line, Ghost(cols), first, count.as_str());
        proof {
            cols = cols.push(count@);
        }
        first = false;
    }
    if options.owner {
        append_column(&mut line, Ghost(cols), first, owner);
        proof {
            cols = cols.push(owner@);
        }
        first = false;
    }
    if options.group {
        append_column(&mut line, Ghost(cols), first, group);
        proof {
            cols = cols.push(group@);
        }
        first = false;
    }
    if options.size {
        let size = decimal_text(e.metadata.size);
        append_column(&mut line, Ghost(cols), first, size.as_str());
        proof {
            cols = cols.push(size@);
        }
        first = false;
    }
    if options.modified_date {
        append_column(&mut line, Ghost(cols), first, date);
        proof {
            cols = cols.push(date@);
        }
        first = false;
    }
    append_column(&mut line, Ghost(cols), first, shown);
    proof {
        cols = cols.push(shown@);
        assert(cols =~= detail_columns(*e, *options, permissions@, owner@, group@, date@, shown@));
    }
    line
}

/// An inline listing: icons and names on one line.
#[derive(Debug)]
pub struct InlineList {
    entries: Vec<Entry>,
}

impl View for InlineList {
    type V = Seq<Entry>;

    closed spec fn view(&self) -> Seq<Entry> {
        self.entries@
    }
}

impl InlineList {
    pub fn new(entries: Vec<Entry>) -> (r: Self)
        ensures
            r@ == entries@,
    {
        InlineList { entries }
    }

    /// The listed entries.
    pub fn entries(&self) -> (r: &Vec<Entry>)
        ensures
            r@ == self@,
    {
        &self.entries
    }

    /// The listing as one line: each entry painted (see `Entry::display`),
    /// five spaces between two entries.
    pub fn line(&self) -> (r: String)
        ensures
            exists|pieces: Seq<Seq<char>>|
                inline_pieces(pieces, self@) && r@ == joined(pieces, inline_separator()),
    {
        let mut out = String::new();
        let ghost mut pieces: Seq<Seq<char>> = Seq::empty();
        let mut i: usize = 0;
        while i < self.entries.len()
            invariant
                i <= self.entries@.len(),
                pieces.len() == i,
                out@ == joined(pieces, inline_separator()),
                forall|j: int|
                    0 <= j < i ==> #[trigger] paints(
                        pieces[j],
                        label(self.entries@[j]),
                        self.entries@[j].color,
                    ),
            decreases self.entries@.len() - i,
        {
            let shown = self.entries[i].display();
            proof {
                assert(pieces.push(shown@).drop_last() =~= pieces);
            }
            if i > 0 {
                out.append("     ");
                proof {
                    reveal_strlit("     ");
                }
            }
            out.append(shown.as_str());
            proof {
                if i == 0 {
                    assert(out@ =~= shown@);
                }
                pieces = pieces.push(shown@);
            }
            i = i + 1;
        }
        proof {
            assert(inline_pieces(pieces, self@));
        }
        out
    }
}

/// A detailed listing: one row per entry, with the columns that its
/// options select.
#[derive(Debug)]
pub struct DetailedList {
    options: DetailedListOptions,
    entries: Vec<Entry>,
}

impl View for DetailedList {
    type V = Seq<Entry>;

    closed spec fn view(&self) -> Seq<Entry> {
        self.entries@
    }
}

impl DetailedList {
    /// The columns this listing shows.
    pub closed spec fn spec_options(&self) -> DetailedListOptions {
        self.options
    }

    pub fn new(entries: Vec<Entry>, options: DetailedListOptions) -> (r: Self)
        ensures
            r@ == entries@,
            r.spec_options() == options,
    {
        DetailedList { entries, options }
    }

    /// The listed entries.
    pub fn entries(&self) -> (r: &Vec<Entry>)
        ensures
            r@ == self@,
    {
        &self.entries
    }

    /// The columns this listing shows.
    pub fn options(&self) -> (r: DetailedListOptions)
        ensures
            r == self.spec_options(),
    {
        self.options
    }

    /// The row of entry `i`, given the names of its owner and group. `None`
    /// exactly where the modification date is shown and lies outside the
    /// range of dates that can be rendered.
    pub fn row(&self, i: usize, colors: &ColorScheme, owner: &str, group: &str) -> (r: Option<
        String,
    >)
        requires
            i < self@.len(),
        ensures
            r is Some <==> (!self.spec_options().modified_date || date_in_range(
                self@[i as int].metadata.modified_secs,
                self@[i as int].metadata.modified_nanos,
            )),
            r matches Some(line) ==> exists|perms: Seq<char>, date: Seq<char>, shown: Seq<char>|
                {
                    &&& self.spec_options().permissions ==> permission_text(
                        perms,
                        self@[i as int].metadata.mode,
                        *colors,
                    )
                    &&& paints(shown, label(self@[i as int]), self@[i as int].color)
                    &&& line@ == joined(
                        detail_columns(
                            self@[i as int],
                            self.spec_options(),
                            perms,
                            owner@,
                            group@,
                            date,
                            shown,
                        ),
                        tab(),
                    )
                },
    {
        let e = &self.entries[i];
        let perms = if self.options.permissions {
            format_permissions(e.metadata.mode, colors)
        } else {
            String::new()
        };
        let date = if self.options.modified_date {
            match format_date(e.metadata.modified_secs, e.metadata.modified_nanos) {
                Some(d) => d,
                None => return None,
            }
        } else {
            String::new()
        };
        let shown = e.display();
        let line = assemble_row(
            e,
            &self.options,
            perms.as_str(),
            owner,
            group,
            date.as_str(),
            shown.as_str(),
        );
        proof {
            let witness = (perms@, date@, shown@);
            assert({
                &&& self.spec_options().permissions ==> permission_text(
                    witness.0,
                    self@[i as int].metadata.mode,
                    *colors,
                )
                &&& paints(witness.2, label(self@[i as int]), self@[i as int].color)
                &&& line@ == joined(
                    detail_columns(
                        self@[i as int],
                        self.spec_options(),
                        witness.0,
                        owner@,
                        group@,
                        witness.1,
                        witness.2,
                    ),
                    tab(),
                )
            });
        }
        Some(line)
    }
}

/// A listing, shown one way or the other.
#[derive(Debug)]
pub enum List {
    Inline(InlineList),
    Detailed(DetailedList),
}

impl List {
    /// The listed entries.
    pub open spec fn spec_entries(&self) -> Seq<Entry> {
        match self {
            List::Inline(l) => l@,
            List::Detailed(l) => l@,
        }
    }

    /// How many entries the listing holds.
    pub fn size(&self) -> (r: usize)
        ensures
            r == self.spec_entries().len(),
    {
        match self {
            List::Inline(l) => l.entries().len(),
            List::Detailed(l) => l.entries().len(),
        }
    }
}

/// The listing of `entries` that the options ask for: sorted by name (a
/// stable sort); in
/// detailed rows for a long listing (every column, but the owner where it
/// is to be left out and the group unless it is shown), inline otherwise.
pub fn create_list(entries: Vec<Entry>, args: &Args) -> (r: List)
    ensures
        r.spec_entries().to_multiset() == entries@.to_multiset(),
        sorted_by_name(r.spec_entries()),
        forall|n: Seq<char>| #[trigger] r.spec_entries().filter(named(n)) == entries@.filter(named(n)),
        r is Detailed <==> args.spec_is_long_listing(),
        r matches List::Detailed(l) ==> ({
            let o = l.spec_options();
            &&& o.permissions && o.link_count && o.size && o.modified_date
            &&& o.owner == !args.long_listing_no_owner
            &&& o.group == args.spec_show_group()
        }),
{
    let entries = sort_by_name(entries);
    if args.is_long_listing() {
        let mut options = DetailedListOptions::default();
        options.group = args.show_group();
        options.owner = !args.long_listing_no_owner;
        List::Detailed(DetailedList::new(entries, options))
    } else {
        List::Inline(InlineList::new(entries))
    }
}

} // verus!
