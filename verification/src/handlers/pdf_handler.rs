//! Answers of the PDF endpoint.

use crate::models::pdf_model::PdfResponse;
use crate::services::pdf_service::{PdfError, PdfErrorView};
use crate::text::{decimal, decimal_text};
use vstd::prelude::*;
use vstd::string::StringExecFns;

verus! {

/// The HTTP status of a failed rendering: 503 when the renderer is busy, 500
/// otherwise.
pub open spec fn failure_status(error: PdfErrorView) -> u16 {
    match error {
        PdfErrorView::Busy => 503,
        _ => 500,
    }
}

/// The message of a failed rendering.
pub open spec fn failure_message(error: PdfErrorView) -> Seq<char> {
    "Failed to generate PDF: "@ + error.message()
}

/// The answer to a failed rendering: status and JSON body.
pub fn pdf_failure_reply(error: &PdfError) -> (r: (u16, PdfResponse))
    ensures
        r.0 == failure_status(error@),
        !r.1.success,
        r.1.message@ == failure_message(error@),
{
    let status: u16 = match error {
        PdfError::Busy => 503,
        _ => 500,
    };
    let mut message = String::from_str("Failed to generate PDF: ");
    let detail = error.message();
    message.append(detail.as_str());
    (status, PdfResponse { success: false, message })
}

/// The `Content-Disposition` of a rendered document: shown inline, under its name.
pub open spec fn disposition(file_name: Seq<char>) -> Seq<char> {
    "inline; filename=\""@ + file_name + "\""@
}

/// The headers of a successful rendering of `length` bytes, in order.
pub open spec fn success_headers(file_name: Seq<char>, length: nat) -> Seq<(Seq<char>, Seq<char>)> {
    seq![
        ("Content-Type"@, "application/pdf"@),
        ("Content-Disposition"@, disposition(file_name)),
        ("Cache-Control"@, "public, must-revalidate, max-age=0"@),
        ("Pragma"@, "public"@),
        ("Content-Length"@, decimal_text(length)),
    ]
}

/// The headers that go with a rendered document.
pub fn pdf_headers(file_name: &str, length: usize) -> (r: Vec<(String, String)>)
    ensures
        r.deep_view() == success_headers(file_name@, length as nat),
{
    let mut shown = String::from_str("inline; filename=\"");
    shown.append(file_name);
    shown.append("\"");
    let mut out: Vec<(String, String)> = Vec::new();
    out.push((String::from_str("Content-Type"), String::from_str("application/pdf")));
    out.push((String::from_str("Content-Disposition"), shown));
    out.push(
        (String::from_str("Cache-Control"), String::from_str("public, must-revalidate, max-age=0")),
    );
    out.push((String::from_str("Pragma"), String::from_str("public")));
    out.push((String::from_str("Content-Length"), decimal(length as u64)));
    assert(out.deep_view() =~= success_headers(file_name@, length as nat));
    out
}

/// Where a retained document named `file_name` lies on disk.
pub fn local_pdf_path(file_name: &str) -> (r: String)
    ensures
        r@ == "files/pdfs/"@ + file_name@,
{
    let mut path = String::from_str("files/pdfs/");
    path.append(file_name);
    path
}

} // verus!
