//! Defaults for PDF layout.

use vstd::prelude::*;
use vstd::string::StringExecFns;

verus! {

/// Layout defaults. Lengths are decimal text, in inches.
#[derive(Debug, PartialEq, Eq)]
pub struct PdfGlobalConfig {
    /// `portrait` or `landscape`.
    pub default_orientation: String,
    pub default_width: String,
    pub default_height: String,
    pub default_margin_top: String,
    pub default_margin_bottom: String,
    pub default_margin_left: String,
    pub default_margin_right: String,
}

pub struct PdfGlobalConfigView {
    pub default_orientation: Seq<char>,
    pub default_width: Seq<char>,
    pub default_height: Seq<char>,
    pub default_margin_top: Seq<char>,
    pub default_margin_bottom: Seq<char>,
    pub default_margin_left: Seq<char>,
    pub default_margin_right: Seq<char>,
}

impl View for PdfGlobalConfig {
    type V = PdfGlobalConfigView;

    open spec fn view(&self) -> PdfGlobalConfigView {
        PdfGlobalConfigView {
            default_orientation: self.default_orientation@,
            default_width: self.default_width@,
            default_height: self.default_height@,
            default_margin_top: self.default_margin_top@,
            default_margin_bottom: self.default_margin_bottom@,
            default_margin_left: self.default_margin_left@,
            default_margin_right: self.default_margin_right@,
        }
    }
}

impl PdfGlobalConfig {
    /// Portrait US letter, half an inch of margin on every side.
    pub open spec fn standard() -> PdfGlobalConfigView {
        PdfGlobalConfigView {
            default_orientation: "portrait"@,
            default_width: "8.5"@,
            default_height: "11"@,
            default_margin_top: "0.5"@,
            default_margin_bottom: "0.5"@,
            default_margin_left: "0.5"@,
            default_margin_right: "0.5"@,
        }
    }
}

impl Default for PdfGlobalConfig {
    fn default() -> (r: Self)
        ensures
            r@ == PdfGlobalConfig::standard(),
    {
        PdfGlobalConfig {
            default_orientation: String::from_str("portrait"),
            default_width: String::from_str("8.5"),
            default_height: String::from_str("11"),
            default_margin_top: String::from_str("0.5"),
            default_margin_bottom: String::from_str("0.5"),
            default_margin_left: String::from_str("0.5"),
            default_margin_right: String::from_str("0.5"),
        }
    }
}

} // verus!
