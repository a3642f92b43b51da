//! The listing options as the command line sets them.

use vstd::prelude::*;

use crate::config::{get_colors, ColorScheme, Colors, Theme};

verus! {

/// The command-line options of a listing.
#[derive(Debug)]
pub struct Args {
    /// Do not ignore entries starting with "."; also list "." and "..".
    pub all: bool,
    /// Do not ignore entries starting with ".", but do not list "." and "..".
    pub almost_all: bool,
    /// Use a long listing format.
    pub long_listing: bool,
    /// Like a long listing, but without the owner.
    pub long_listing_no_owner: bool,
    /// In a long listing, do not print group names.
    pub no_group: bool,
    /// Like a long listing, but without the group.
    pub long_listing_no_group: bool,
    /// List directories only.
    pub directory: bool,
    /// List regular files only.
    pub files_only: bool,
    /// The output is meant for a dark background.
    pub dark: bool,
    /// The paths to list.
    pub paths: Vec<String>,
}

/// What the listing derives from its options.
pub trait ArgsSteroids {
    spec fn spec_is_long_listing(&self) -> bool;

    spec fn spec_show_group(&self) -> bool;

    spec fn spec_show_dot_files(&self) -> bool;

    /// Whether entries are shown one per row with detail columns.
    fn is_long_listing(&self) -> (r: bool)
        ensures
            r == self.spec_is_long_listing(),
    ;

    /// Whether a long listing shows the group column.
    fn show_group(&self) -> (r: bool)
        ensures
            r == self.spec_show_group(),
    ;

    /// Whether names starting with "." are listed.
    fn show_dot_files(&self) -> (r: bool)
        ensures
            r == self.spec_show_dot_files(),
    ;

    /// The color scheme among `colors` for the selected theme.
    fn get_theme<'a>(&self, colors: &'a Colors) -> (r: &'a ColorScheme)
        ensures
            *r == colors.dark,
    ;
}

impl ArgsSteroids for Args {
    open spec fn spec_is_long_listing(&self) -> bool {
        self.long_listing || self.long_listing_no_group || self.long_listing_no_owner
    }

    open spec fn spec_show_group(&self) -> bool {
        !(self.long_listing_no_group || self.no_group)
    }

    open spec fn spec_show_dot_files(&self) -> bool {
        self.all || self.almost_all
    }

    fn is_long_listing(&self) -> (r: bool) {
        self.long_listing || self.long_listing_no_group || self.long_listing_no_owner
    }

    fn show_group(&self) -> (r: bool) {
        !(self.long_listing_no_group || self.no_group)
    }

    fn show_dot_files(&self) -> (r: bool) {
        self.all || self.almost_all
    }

    fn get_theme<'a>(&self, colors: &'a Colors) -> (r: &'a ColorScheme) {
        get_colors(colors, if self.dark { Theme::Dark } else { Theme::Light })
    }
}

} // verus!
