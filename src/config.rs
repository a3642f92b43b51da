//! Color schemes and icon tables that the classifier and the renderer read.

use vstd::prelude::*;

verus! {

/// A color as red, green and blue components.
pub type Rgb = [u8; 3];

/// The colors used for each role of the output.
#[derive(Clone, Copy, Debug)]
pub struct ColorScheme {
    pub dir: Rgb,
    pub recognized_file: Rgb,
    pub unrecognized_file: Rgb,
    pub executable_file: Rgb,
    pub read: Rgb,
    pub write: Rgb,
    pub execute: Rgb,
    pub no_access: Rgb,
}

impl ColorScheme {
    /// A scheme that paints every role with one color.
    pub open spec fn is_uniform(self, c: Rgb) -> bool {
        &&& self.dir == c
        &&& self.recognized_file == c
        &&& self.unrecognized_file == c
        &&& self.executable_file == c
        &&& self.read == c
        &&& self.write == c
        &&& self.execute == c
        &&& self.no_access == c
    }
}

/// The color schemes known to the program, one per theme.
#[derive(Clone, Copy, Debug)]
pub struct Colors {
    pub dark: ColorScheme,
}

impl Default for Colors {
    /// All roles white, for when no color configuration could be read.
    fn default() -> (r: Colors)
        ensures
            r.dark.is_uniform([255u8, 255u8, 255u8]),
    {
        let white: Rgb = [255, 255, 255];
        Colors {
            dark: ColorScheme {
                dir: white,
                recognized_file: white,
                unrecognized_file: white,
                executable_file: white,
                read: white,
                write: white,
                execute: white,
                no_access: white,
            },
        }
    }
}

/// The background the output is meant for.
#[derive(Clone, Copy, Debug, PartialEq, Eq, Structural)]
pub enum Theme {
    Dark,
    Light,
}

/// The scheme for a theme. Only the dark scheme is configured, so every
/// theme resolves to it.
pub fn get_colors(colors: &Colors, theme: Theme) -> (r: &ColorScheme)
    ensures
        *r == colors.dark,
{
    match theme {
        Theme::Dark => &colors.dark,
        Theme::Light => &colors.dark,
    }
}

/// Glyph of a directory that no table entry recognizes.
pub const DEFAULT_DIR_ICON: &'static str = "\u{f115}";

/// Glyph of a file that no table entry recognizes.
pub const DEFAULT_FILE_ICON: &'static str = "\u{ea7b}";

#[verifier::external_type_specification]
#[verifier::external_body]
pub struct ExMapping(serde_yaml::Mapping);

/// The entries of a YAML mapping whose key is a YAML string and whose value
/// reads as a string through `serde_yaml::Value::as_str`.
pub uninterp spec fn string_entries(m: serde_yaml::Mapping) -> Map<Seq<char>, Seq<char>>;

/// Relies on `serde_yaml::Mapping::new`: a new mapping is empty.
pub assume_specification[ serde_yaml::Mapping::new ]() -> (r: serde_yaml::Mapping)
    ensures
        string_entries(r).dom().is_empty(),
;

/// Relies on `serde_yaml::Mapping::get` with a `&str` key, which finds the
/// entry whose key is that YAML string, and on `serde_yaml::Value::as_str`,
/// which reads a string value.
#[verifier::external_body]
fn mapping_lookup(m: &serde_yaml::Mapping, key: &str) -> (r: Option<String>)
    ensures
        r is Some <==> string_entries(*m).contains_key(key@),
        r is Some ==> r->0@ == string_entries(*m)[key@],
{
    match m.get(key) {
        Some(v) => v.as_str().map(String::from),
        None => None,
    }
}

/// A classification table: icons by canonical key (a name or an extension)
/// and aliases that lead from another key to a canonical one.
#[derive(Debug)]
pub struct IconMapping {
    pub icons: serde_yaml::Mapping,
    pub aliases: serde_yaml::Mapping,
}

impl IconMapping {
    /// Icon glyphs by canonical key.
    pub open spec fn icon_map(self) -> Map<Seq<char>, Seq<char>> {
        string_entries(self.icons)
    }

    /// Canonical keys by alias.
    pub open spec fn alias_map(self) -> Map<Seq<char>, Seq<char>> {
        string_entries(self.aliases)
    }

    /// The icon stored under `key`, if any.
    pub fn icon(&self, key: &str) -> (r: Option<String>)
        ensures
            r is Some <==> self.icon_map().contains_key(key@),
            r is Some ==> r->0@ == self.icon_map()[key@],
    {
        mapping_lookup(&self.icons, key)
    }

    /// The canonical key that `key` is an alias of, if any.
    pub fn alias(&self, key: &str) -> (r: Option<String>)
        ensures
            r is Some <==> self.alias_map().contains_key(key@),
            r is Some ==> r->0@ == self.alias_map()[key@],
    {
        mapping_lookup(&self.aliases, key)
    }
}

impl Default for IconMapping {
    /// Empty tables, for when no icon configuration could be read.
    fn default() -> (r: IconMapping)
        ensures
            r.icon_map().dom().is_empty(),
            r.alias_map().dom().is_empty(),
    {
        IconMapping { icons: serde_yaml::Mapping::new(), aliases: serde_yaml::Mapping::new() }
    }
}

/// The two classification tables: one for directories, one for files.
#[derive(Debug)]
pub struct IconTables {
    pub folders: IconMapping,
    pub files: IconMapping,
}

} // verus!
