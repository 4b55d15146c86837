//! Typography style of a text component.

use vstd::prelude::*;

verus! {
/// Typography style of a text component: its CSS class and automatic tag.
#[derive(Debug, Clone, PartialEq, Eq, Structural)]
pub enum TextStyle {
    /// The `rz-text-display-h1` style.
    DisplayH1,
    /// The `rz-text-display-h2` style.
    DisplayH2,
    /// The `rz-text-display-h3` style.
    DisplayH3,
    /// The `rz-text-display-h4` style.
    DisplayH4,
    /// The `rz-text-display-h5` style.
    DisplayH5,
    /// The `rz-text-display-h6` style.
    DisplayH6,
    /// The `rz-text-h1` style.
    H1,
    /// The `rz-text-h2` style.
    H2,
    /// The `rz-text-h3` style.
    H3,
    /// The `rz-text-h4` style.
    H4,
    /// The `rz-text-h5` style.
    H5,
    /// The `rz-text-h6` style.
    H6,
    /// The `rz-text-subtitle1` style.
    Subtitle1,
    /// The `rz-text-subtitle2` style.
    Subtitle2,
    /// The `rz-text-body1` style.
    Body1,
    /// The `rz-text-body2` style.
    Body2,
    /// The `rz-text-button` style.
    Button,
    /// The `rz-text-caption` style.
    Caption,
    /// The `rz-text-overline` style.
    Overline,
}

impl Default for TextStyle {
    fn default() -> (r: Self)
        ensures
            r == TextStyle::Body1,
    {
        TextStyle::Body1
    }
}

impl TextStyle {
    /// The CSS class of the style.
    pub open spec fn class_of(self) -> Seq<char> {
        match self {
            TextStyle::DisplayH1 => "rz-text-display-h1"@,
            TextStyle::DisplayH2 => "rz-text-display-h2"@,
            TextStyle::DisplayH3 => "rz-text-display-h3"@,
            TextStyle::DisplayH4 => "rz-text-display-h4"@,
            TextStyle::DisplayH5 => "rz-text-display-h5"@,
            TextStyle::DisplayH6 => "rz-text-display-h6"@,
            TextStyle::H1 => "rz-text-h1"@,
            TextStyle::H2 => "rz-text-h2"@,
            TextStyle::H3 => "rz-text-h3"@,
            TextStyle::H4 => "rz-text-h4"@,
            TextStyle::H5 => "rz-text-h5"@,
            TextStyle::H6 => "rz-text-h6"@,
            TextStyle::Subtitle1 => "rz-text-subtitle1"@,
            TextStyle::Subtitle2 => "rz-text-subtitle2"@,
            TextStyle::Body1 => "rz-text-body1"@,
            TextStyle::Body2 => "rz-text-body2"@,
            TextStyle::Button => "rz-text-button"@,
            TextStyle::Caption => "rz-text-caption"@,
            TextStyle::Overline => "rz-text-overline"@,
        }
    }

    /// CSS class emitted for this style.
    pub fn css_class(&self) -> (s: &'static str)
        ensures
            s@ == self.class_of(),
    {
        match self {
            TextStyle::DisplayH1 => "rz-text-display-h1",
            TextStyle::DisplayH2 => "rz-text-display-h2",
            TextStyle::DisplayH3 => "rz-text-display-h3",
            TextStyle::DisplayH4 => "rz-text-display-h4",
            TextStyle::DisplayH5 => "rz-text-display-h5",
            TextStyle::DisplayH6 => "rz-text-display-h6",
            TextStyle::H1 => "rz-text-h1",
            TextStyle::H2 => "rz-text-h2",
            TextStyle::H3 => "rz-text-h3",
            TextStyle::H4 => "rz-text-h4",
            TextStyle::H5 => "rz-text-h5",
            TextStyle::H6 => "rz-text-h6",
            TextStyle::Subtitle1 => "rz-text-subtitle1",
            TextStyle::Subtitle2 => "rz-text-subtitle2",
            TextStyle::Body1 => "rz-text-body1",
            TextStyle::Body2 => "rz-text-body2",
            TextStyle::Button => "rz-text-button",
            TextStyle::Caption => "rz-text-caption",
            TextStyle::Overline => "rz-text-overline",
        }
    }

    /// The automatic tag of the style.
    pub open spec fn tag_of(self) -> Seq<char> {
        match self {
            TextStyle::DisplayH1 => "h1"@,
            TextStyle::DisplayH2 => "h2"@,
            TextStyle::DisplayH3 => "h3"@,
            TextStyle::DisplayH4 => "h4"@,
            TextStyle::DisplayH5 => "h5"@,
            TextStyle::DisplayH6 => "h6"@,
            TextStyle::H1 => "h1"@,
            TextStyle::H2 => "h2"@,
            TextStyle::H3 => "h3"@,
            TextStyle::H4 => "h4"@,
            TextStyle::H5 => "h5"@,
            TextStyle::H6 => "h6"@,
            TextStyle::Subtitle1 => "h6"@,
            TextStyle::Subtitle2 => "h6"@,
            TextStyle::Body1 => "p"@,
            TextStyle::Body2 => "p"@,
            TextStyle::Button => "span"@,
            TextStyle::Caption => "span"@,
            TextStyle::Overline => "span"@,
        }
    }

    /// Default HTML tag for this style when the tag is `Auto`.
    pub fn auto_tag(&self) -> (s: &'static str)
        ensures
            s@ == self.tag_of(),
    {
        match self {
            TextStyle::DisplayH1 => "h1",
            TextStyle::DisplayH2 => "h2",
            TextStyle::DisplayH3 => "h3",
            TextStyle::DisplayH4 => "h4",
            TextStyle::DisplayH5 => "h5",
            TextStyle::DisplayH6 => "h6",
            TextStyle::H1 => "h1",
            TextStyle::H2 => "h2",
            TextStyle::H3 => "h3",
            TextStyle::H4 => "h4",
            TextStyle::H5 => "h5",
            TextStyle::H6 => "h6",
            TextStyle::Subtitle1 => "h6",
            TextStyle::Subtitle2 => "h6",
            TextStyle::Body1 => "p",
            TextStyle::Body2 => "p",
            TextStyle::Button => "span",
            TextStyle::Caption => "span",
            TextStyle::Overline => "span",
        }
    }

}

} // verus!
