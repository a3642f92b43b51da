use std::path::PathBuf;

use better_ls::cli::Args;
use better_ls::config::ColorScheme;
use better_ls::entry::{Entry, EntryKind, FileMeta};
use better_ls::list::{
    assemble_row, create_list, DetailedList, DetailedListOptions, InlineList, List,
};
use colored::Colorize;

fn colors() -> ColorScheme {
    ColorScheme {
        dir: [1, 1, 1],
        recognized_file: [2, 2, 2],
        unrecognized_file: [3, 3, 3],
        executable_file: [4, 4, 4],
        read: [10, 0, 0],
        write: [0, 20, 0],
        execute: [0, 0, 30],
        no_access: [40, 40, 40],
    }
}

fn entry(name: &str, kind: EntryKind, nlink: u64, size: u64) -> Entry {
    Entry::new(
        name.to_string(),
        PathBuf::from(name),
        "I".to_string(),
        [9, 9, 9],
        FileMeta {
            kind,
            mode: 0o750,
            nlink,
            uid: 0,
            gid: 0,
            size,
            modified_secs: 0,
            modified_nanos: 0,
        },
    )
}

fn args() -> Args {
    Args {
        all: false,
        almost_all: false,
        long_listing: false,
        long_listing_no_owner: false,
        no_group: false,
        long_listing_no_group: false,
        directory: false,
        files_only: false,
        dark: false,
        paths: Vec::new(),
    }
}

fn no_columns() -> DetailedListOptions {
    DetailedListOptions {
        permissions: false,
        link_count: false,
        owner: false,
        group: false,
        size: false,
        modified_date: false,
    }
}

#[test]
fn default_options_show_every_column() {
    let o = DetailedListOptions::default();
    assert!(o.permissions && o.link_count && o.owner && o.group && o.size && o.modified_date);
}

#[test]
fn row_columns_in_fixed_order() {
    let e = entry("f", EntryKind::File, 3, 1024);
    let mut o = DetailedListOptions::default();
    o.modified_date = true;
    let row = assemble_row(&e, &o, "PERMS", "alice", "staff", "DATE", "SHOWN");
    assert_eq!(row, "PERMS\t3\talice\tstaff\t1024\tDATE\tSHOWN");
}

#[test]
fn row_with_only_the_entry() {
    let e = entry("f", EntryKind::File, 3, 1024);
    let row = assemble_row(&e, &no_columns(), "PERMS", "alice", "staff", "DATE", "SHOWN");
    assert_eq!(row, "SHOWN");
}

#[test]
fn row_without_owner_and_group() {
    let e = entry("f", EntryKind::File, 12, 0);
    let mut o = DetailedListOptions::default();
    o.owner = false;
    o.group = false;
    o.permissions = false;
    o.modified_date = false;
    let row = assemble_row(&e, &o, "PERMS", "alice", "staff", "DATE", "");
    assert_eq!(row, "12\t0\t");
}

#[test]
fn detailed_row_renders_columns() {
    let c = colors();
    let e = entry("f", EntryKind::File, 2, 77);
    let mut o = no_columns();
    o.link_count = true;
    o.owner = true;
    o.size = true;
    let list = DetailedList::new(vec![e], o);
    let row = list.row(0, &c, "root", "wheel").unwrap();
    let shown = "I  f".truecolor(9, 9, 9).to_string();
    assert_eq!(row, format!("2\troot\t77\t{}", shown));
}

#[test]
fn detailed_row_with_date() {
    let c = colors();
    let list = DetailedList::new(vec![entry("d", EntryKind::Directory, 1, 1)], DetailedListOptions::default());
    let row = list.row(0, &c, "u", "g").unwrap();
    assert_eq!(row.split('\t').count(), 7);
    assert_eq!(row.split('\t').nth(2), Some("u"));
    assert_eq!(row.split('\t').nth(3), Some("g"));
}

#[test]
fn inline_line_joins_entries() {
    let list = InlineList::new(vec![
        entry("a", EntryKind::File, 1, 1),
        entry("d", EntryKind::Directory, 1, 1),
    ]);
    let a = "I  a".truecolor(9, 9, 9).to_string();
    let d = "I  d/".truecolor(9, 9, 9).to_string();
    assert_eq!(list.line(), format!("{}     {}", a, d));
    assert_eq!(InlineList::new(Vec::new()).line(), "");
}

#[test]
fn create_list_inline_sorted() {
    let list = create_list(
        vec![entry("b", EntryKind::File, 1, 1), entry("a", EntryKind::File, 1, 1)],
        &args(),
    );
    assert_eq!(list.size(), 2);
    match list {
        List::Inline(l) => {
            let names: Vec<&str> = l.entries().iter().map(|e| e.name.as_str()).collect();
            assert_eq!(names, vec!["a", "b"]);
        },
        List::Detailed(_) => panic!("expected an inline listing"),
    }
}

#[test]
fn create_list_detailed_options() {
    let mut a = args();
    a.long_listing_no_owner = true;
    a.no_group = true;
    let list = create_list(vec![entry("x", EntryKind::File, 1, 1)], &a);
    match list {
        List::Detailed(l) => {
            let o = l.options();
            assert!(!o.owner);
            assert!(!o.group);
            assert!(o.permissions && o.link_count && o.size && o.modified_date);
        },
        List::Inline(_) => panic!("expected a detailed listing"),
    }
    let mut b = args();
    b.long_listing = true;
    match create_list(Vec::new(), &b) {
        List::Detailed(l) => {
            assert!(l.options().owner);
            assert!(l.options().group);
        },
        List::Inline(_) => panic!("expected a detailed listing"),
    }
}

#[test]
fn detailed_row_none_only_for_unrenderable_date() {
    let c = colors();
    let mut e = entry("f", EntryKind::File, 1, 1);
    e.metadata.modified_secs = i64::MAX;
    let shown = DetailedList::new(vec![e], DetailedListOptions::default());
    assert!(shown.row(0, &c, "u", "g").is_none());
    let mut e = entry("f", EntryKind::File, 1, 1);
    e.metadata.modified_secs = i64::MAX;
    let mut o = DetailedListOptions::default();
    o.modified_date = false;
    let hidden = DetailedList::new(vec![e], o);
    assert!(hidden.row(0, &c, "u", "g").is_some());
}
