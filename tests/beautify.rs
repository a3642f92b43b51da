use better_ls::beautify::{
    extension_of, file_icon_of_lowered, format_date, format_permissions, get_directory_icon, get_file_icon,
    get_icon_from_metadata,
};
use better_ls::config::{ColorScheme, IconMapping, IconTables, Rgb, DEFAULT_DIR_ICON, DEFAULT_FILE_ICON};
use better_ls::entry::{EntryKind, FileMeta};
use colored::{ColoredString, Colorize};

fn get_mocked_colors() -> ColorScheme {
    ColorScheme {
        dir: [255, 255, 255],
        recognized_file: [255, 255, 255],
        unrecognized_file: [255, 255, 255],
        executable_file: [255, 255, 255],
        read: [255, 255, 255],
        write: [255, 255, 255],
        execute: [255, 255, 255],
        no_access: [255, 255, 255],
    }
}

fn distinct_colors() -> ColorScheme {
    ColorScheme {
        dir: [1, 1, 1],
        recognized_file: [2, 2, 2],
        unrecognized_file: [3, 3, 3],
        executable_file: [4, 4, 4],
        read: [10, 0, 0],
        write: [0, 20, 0],
        execute: [0, 0, 30],
        no_access: [40, 40, 40],
    }
}

fn add_true_color(s: &str, color: Rgb) -> ColoredString {
    s.truecolor(color[0], color[1], color[2])
}

fn mapping(yaml: &str) -> serde_yaml::Mapping {
    serde_yaml::from_str(yaml).unwrap()
}

fn file_table() -> IconMapping {
    IconMapping {
        icons: mapping(
            "package-lock.json: L\njson: J\nmd: M\ndocker: D\nrs: R\nreadme.md: RM\nsymlink: S\nunknown: U\n",
        ),
        aliases: mapping("dockerfile: docker\nmarkdown: md\nghost: nowhere\n"),
    }
}

fn folder_table() -> IconMapping {
    IconMapping {
        icons: mapping("src: SRC\n.git: GIT\n"),
        aliases: mapping("source: src\nsources: missing\n"),
    }
}

fn tables() -> IconTables {
    IconTables { folders: folder_table(), files: file_table() }
}

fn meta(kind: EntryKind) -> FileMeta {
    FileMeta {
        kind,
        mode: 0o644,
        nlink: 1,
        uid: 0,
        gid: 0,
        size: 0,
        modified_secs: 0,
        modified_nanos: 0,
    }
}

#[test]
fn test_format_permissions() {
    let colors = get_mocked_colors();
    let formatted = format_permissions(0o777, &colors);

    let expected = format!(
        "{}{}{}{}{}{}{}{}{}",
        add_true_color("r", colors.read),
        add_true_color("w", colors.write),
        add_true_color("x", colors.execute),
        add_true_color("r", colors.read),
        add_true_color("w", colors.write),
        add_true_color("x", colors.execute),
        add_true_color("r", colors.read),
        add_true_color("w", colors.write),
        add_true_color("x", colors.execute),
    );
    assert_eq!(formatted, expected);
}

#[test]
fn test_format_permissions_no_access() {
    let colors = get_mocked_colors();
    let formatted = format_permissions(0o000, &colors);

    let expected = format!(
        "{}{}{}{}{}{}{}{}{}",
        add_true_color("-", colors.no_access),
        add_true_color("-", colors.no_access),
        add_true_color("-", colors.no_access),
        add_true_color("-", colors.no_access),
        add_true_color("-", colors.no_access),
        add_true_color("-", colors.no_access),
        add_true_color("-", colors.no_access),
        add_true_color("-", colors.no_access),
        add_true_color("-", colors.no_access),
    );

    assert_eq!(formatted, expected);
}

#[test]
fn format_permissions_755_segments() {
    let colors = distinct_colors();
    let formatted = format_permissions(0o755, &colors);
    let expected = format!(
        "{}{}{}{}{}{}{}{}{}",
        add_true_color("r", colors.read),
        add_true_color("w", colors.write),
        add_true_color("x", colors.execute),
        add_true_color("r", colors.read),
        add_true_color("-", colors.no_access),
        add_true_color("x", colors.execute),
        add_true_color("r", colors.read),
        add_true_color("-", colors.no_access),
        add_true_color("x", colors.execute),
    );
    assert_eq!(formatted, expected);
}

#[test]
fn format_permissions_plain_text_when_uncolored() {
    colored::control::set_override(false);
    let colors = distinct_colors();
    assert_eq!(format_permissions(0o755, &colors), "rwxr-xr-x");
    assert_eq!(format_permissions(0o000, &colors), "---------");
    assert_eq!(format_permissions(0o640, &colors), "rw-r-----");
    colored::control::unset_override();
}

#[test]
fn extension_is_after_last_dot() {
    assert_eq!(extension_of("archive.tar.gz"), "gz");
    assert_eq!(extension_of("makefile"), "makefile");
    assert_eq!(extension_of(".bashrc"), "bashrc");
    assert_eq!(extension_of("trailing."), "");
    assert_eq!(extension_of(""), "");
}

#[test]
fn exact_name_precedes_extension() {
    let t = file_table();
    assert_eq!(file_icon_of_lowered(&t, "package-lock.json"), "L");
    assert_eq!(file_icon_of_lowered(&t, "other.json"), "J");
}

#[test]
fn alias_resolves_to_canonical_icon() {
    let t = file_table();
    assert_eq!(file_icon_of_lowered(&t, "dockerfile"), "D");
    assert_eq!(file_icon_of_lowered(&t, "notes.markdown"), "M");
}

#[test]
fn alias_to_missing_key_gives_default() {
    let t = file_table();
    assert_eq!(file_icon_of_lowered(&t, "ghost"), DEFAULT_FILE_ICON);
    assert_eq!(get_directory_icon(&folder_table(), "sources"), DEFAULT_DIR_ICON);
}

#[test]
fn unknown_file_gets_default_icon() {
    let t = file_table();
    let first = file_icon_of_lowered(&t, "mystery.zzz");
    let second = file_icon_of_lowered(&t, "mystery.zzz");
    assert_eq!(first, DEFAULT_FILE_ICON);
    assert_eq!(first, second);
    let empty = IconMapping::default();
    assert_eq!(file_icon_of_lowered(&empty, "main.rs"), DEFAULT_FILE_ICON);
}

#[test]
fn file_lookup_ignores_case() {
    let t = file_table();
    assert_eq!(get_file_icon(&t, "README.MD"), get_file_icon(&t, "readme.md"));
    assert_eq!(get_file_icon(&t, "README.MD"), "RM");
    assert_eq!(get_file_icon(&t, "Main.RS"), "R");
}

#[test]
fn directory_icons() {
    let t = folder_table();
    assert_eq!(get_directory_icon(&t, "SRC"), "SRC");
    assert_eq!(get_directory_icon(&t, "Source"), "SRC");
    assert_eq!(get_directory_icon(&t, ".git"), "GIT");
    assert_eq!(get_directory_icon(&t, "docs"), DEFAULT_DIR_ICON);
}

#[test]
fn icon_by_kind() {
    let t = tables();
    assert_eq!(get_icon_from_metadata(&meta(EntryKind::Directory), "Src", &t), "SRC");
    assert_eq!(get_icon_from_metadata(&meta(EntryKind::File), "Src", &t), DEFAULT_FILE_ICON);
    assert_eq!(get_icon_from_metadata(&meta(EntryKind::Symlink), "a.rs", &t), "S");
    assert_eq!(get_icon_from_metadata(&meta(EntryKind::Other), "a.rs", &t), "U");
    assert_eq!(
        get_icon_from_metadata(&meta(EntryKind::File), "README.MD", &t),
        get_icon_from_metadata(&meta(EntryKind::File), "readme.md", &t)
    );
}

#[test]
fn format_date_range() {
    assert!(format_date(0, 0).is_some());
    assert!(format_date(8_210_266_876_799, 999_999_999).is_some());
    assert!(format_date(8_210_266_876_800, 0).is_none());
    assert!(format_date(-8_334_601_228_800, 0).is_some());
    assert!(format_date(-8_334_601_228_801, 0).is_none());
    assert!(format_date(i64::MAX, 0).is_none());
    assert!(format_date(0, 1_000_000_000).is_none());
    assert!(format_date(59, 1_500_000_000).is_some());
    assert!(format_date(59, 2_000_000_000).is_none());
    assert!(format_date(-1, 1_200_000_000).is_some());
}
