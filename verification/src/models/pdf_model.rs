//! What a PDF rendering is asked for.
//!
//! Lengths and the scale are carried as decimal text (`"10"`, `"8.5"`), exactly as
//! they are to appear on the converter's command line.

use vstd::prelude::*;
use vstd::string::StringExecFns;

verus! {

/// Page margins, each a decimal number of millimetres.
#[derive(Debug, PartialEq, Eq)]
pub struct PdfMargins {
    pub top: String,
    pub bottom: String,
    pub left: String,
    pub right: String,
}

pub struct PdfMarginsView {
    pub top: Seq<char>,
    pub bottom: Seq<char>,
    pub left: Seq<char>,
    pub right: Seq<char>,
}

impl View for PdfMargins {
    type V = PdfMarginsView;

    open spec fn view(&self) -> PdfMarginsView {
        PdfMarginsView {
            top: self.top@,
            bottom: self.bottom@,
            left: self.left@,
            right: self.right@,
        }
    }
}

impl DeepView for PdfMargins {
    type V = PdfMarginsView;

    open spec fn deep_view(&self) -> PdfMarginsView {
        self@
    }
}

impl Clone for PdfMargins {
    fn clone(&self) -> (r: Self)
        ensures
            r@ == self@,
    {
        PdfMargins {
            top: self.top.clone(),
            bottom: self.bottom.clone(),
            left: self.left.clone(),
            right: self.right.clone(),
        }
    }
}

impl PdfMargins {
    /// The margins used when a request names none: 10 mm on every side.
    pub open spec fn standard() -> PdfMarginsView {
        PdfMarginsView { top: "10"@, bottom: "10"@, left: "10"@, right: "10"@ }
    }
}

impl Default for PdfMargins {
    fn default() -> (r: Self)
        ensures
            r@ == PdfMargins::standard(),
    {
        PdfMargins {
            top: String::from_str("10"),
            bottom: String::from_str("10"),
            left: String::from_str("10"),
            right: String::from_str("10"),
        }
    }
}

/// A custom page size, each side a decimal number of millimetres.
#[derive(Debug, PartialEq, Eq)]
pub struct PaperSize {
    pub width: String,
    pub height: String,
}

pub struct PaperSizeView {
    pub width: Seq<char>,
    pub height: Seq<char>,
}

impl View for PaperSize {
    type V = PaperSizeView;

    open spec fn view(&self) -> PaperSizeView {
        PaperSizeView { width: self.width@, height: self.height@ }
    }
}

impl DeepView for PaperSize {
    type V = PaperSizeView;

    open spec fn deep_view(&self) -> PaperSizeView {
        self@
    }
}

impl Clone for PaperSize {
    fn clone(&self) -> (r: Self)
        ensures
            r@ == self@,
    {
        PaperSize { width: self.width.clone(), height: self.height.clone() }
    }
}

/// Page orientation.
#[derive(Clone, Copy, Debug, PartialEq, Eq, Structural)]
pub enum PdfOrientation {
    Portrait,
    Landscape,
}

impl PdfOrientation {
    /// The converter's name for the orientation.
    pub open spec fn name(self) -> Seq<char> {
        match self {
            PdfOrientation::Portrait => "Portrait"@,
            PdfOrientation::Landscape => "Landscape"@,
        }
    }

    pub fn as_str(&self) -> (r: &'static str)
        ensures
            r@ == self.name(),
    {
        match self {
            PdfOrientation::Portrait => "Portrait",
            PdfOrientation::Landscape => "Landscape",
        }
    }
}

/// A named page size.
#[derive(Clone, Copy, Debug, PartialEq, Eq, Structural)]
pub enum PdfPagePreset {
    A4,
    Letter,
    Legal,
    A3,
    Tabloid,
}

impl PdfPagePreset {
    /// The converter's name for the page size.
    pub open spec fn name(self) -> Seq<char> {
        match self {
            PdfPagePreset::A4 => "A4"@,
            PdfPagePreset::Letter => "Letter"@,
            PdfPagePreset::Legal => "Legal"@,
            PdfPagePreset::A3 => "A3"@,
            PdfPagePreset::Tabloid => "Tabloid"@,
        }
    }

    pub fn as_str(&self) -> (r: &'static str)
        ensures
            r@ == self.name(),
    {
        match self {
            PdfPagePreset::A4 => "A4",
            PdfPagePreset::Letter => "Letter",
            PdfPagePreset::Legal => "Legal",
            PdfPagePreset::A3 => "A3",
            PdfPagePreset::Tabloid => "Tabloid",
        }
    }
}

/// One rendering job.
#[derive(Debug, PartialEq, Eq)]
pub struct PdfRequest {
    /// Logical file name; it names the temporary files and the retained copy.
    pub file_name: String,
    /// The document to convert.
    pub html: String,
    /// Portrait when absent.
    pub orientation: Option<PdfOrientation>,
    /// Takes precedence over `custom_page_size`.
    pub page_size_preset: Option<PdfPagePreset>,
    /// Used only when no preset is given.
    pub custom_page_size: Option<PaperSize>,
    /// 10 mm on every side when absent.
    pub margins: Option<PdfMargins>,
    /// The zoom factor as decimal text, present only when it is not 1.
    pub scale: Option<String>,
    /// Whether a copy of the result is kept under `files/pdfs/`.
    pub store_local_pdf: Option<bool>,
}

pub struct PdfRequestView {
    pub file_name: Seq<char>,
    pub html: Seq<char>,
    pub orientation: Option<PdfOrientation>,
    pub page_size_preset: Option<PdfPagePreset>,
    pub custom_page_size: Option<PaperSizeView>,
    pub margins: Option<PdfMarginsView>,
    pub scale: Option<Seq<char>>,
    pub store_local_pdf: Option<bool>,
}

impl View for PdfRequest {
    type V = PdfRequestView;

    open spec fn view(&self) -> PdfRequestView {
        PdfRequestView {
            file_name: self.file_name@,
            html: self.html@,
            orientation: self.orientation,
            page_size_preset: self.page_size_preset,
            custom_page_size: self.custom_page_size.deep_view(),
            margins: self.margins.deep_view(),
            scale: self.scale.deep_view(),
            store_local_pdf: self.store_local_pdf,
        }
    }
}

impl DeepView for PdfRequest {
    type V = PdfRequestView;

    open spec fn deep_view(&self) -> PdfRequestView {
        self@
    }
}

impl Clone for PdfRequest {
    fn clone(&self) -> (r: Self)
        ensures
            r@ == self@,
    {
        PdfRequest {
            file_name: self.file_name.clone(),
            html: self.html.clone(),
            orientation: self.orientation,
            page_size_preset: self.page_size_preset,
            custom_page_size: clone_paper_size(&self.custom_page_size),
            margins: clone_margins(&self.margins),
            scale: self.scale.clone(),
            store_local_pdf: self.store_local_pdf,
        }
    }
}

impl PdfRequest {
    /// The request that `default()` builds: an empty portrait A4 document named
    /// `output.pdf`, standard margins, scale 1.
    pub open spec fn standard() -> PdfRequestView {
        PdfRequestView {
            file_name: "output.pdf"@,
            html: Seq::empty(),
            orientation: Some(PdfOrientation::Portrait),
            page_size_preset: Some(PdfPagePreset::A4),
            custom_page_size: None,
            margins: Some(PdfMargins::standard()),
            scale: None,
            store_local_pdf: None,
        }
    }
}

impl Default for PdfRequest {
    fn default() -> (r: Self)
        ensures
            r@ == PdfRequest::standard(),
    {
        PdfRequest {
            file_name: String::from_str("output.pdf"),
            html: String::new(),
            orientation: Some(PdfOrientation::Portrait),
            page_size_preset: Some(PdfPagePreset::A4),
            custom_page_size: None,
            margins: Some(PdfMargins::default()),
            scale: None,
            store_local_pdf: None,
        }
    }
}

/// Copies an optional page size.
pub fn clone_paper_size(size: &Option<PaperSize>) -> (r: Option<PaperSize>)
    ensures
        r.deep_view() == size.deep_view(),
{
    match size {
        Some(s) => Some(s.clone()),
        None => None,
    }
}

/// Copies optional margins.
pub fn clone_margins(margins: &Option<PdfMargins>) -> (r: Option<PdfMargins>)
    ensures
        r.deep_view() == margins.deep_view(),
{
    match margins {
        Some(m) => Some(m.clone()),
        None => None,
    }
}

/// The JSON body of a failed rendering.
#[derive(Debug, PartialEq, Eq)]
pub struct PdfResponse {
    pub success: bool,
    pub message: String,
}

} // verus!
