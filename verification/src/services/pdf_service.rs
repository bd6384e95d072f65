//! The PDF renderer: how the converter is called, which files it works on, and
//! what each outcome means.
//!
//! The converter is an outside program. A [`RenderJob`] says, one step at a time,
//! what to do about one request: wait for a permit, write the document, run the
//! converter, read the result, keep a copy. The caller does it and reports back.

use crate::ident::{format_id, random_id, uuid_text};
use crate::models::pdf_model::{PdfMargins, PdfMarginsView, PdfOrientation, PdfRequest, PdfRequestView};
use vstd::prelude::*;
use vstd::string::StringExecFns;

verus! {

/// How many conversions may run at once.
pub const MAX_CONCURRENT_PROCESSES: usize = 8;

/// How long a request waits for a permit, in seconds.
pub const PERMIT_WAIT_SECONDS: u64 = 5;

/// How long one conversion may take, in seconds.
pub const PDF_GENERATION_TIMEOUT_SECONDS: u64 = 120;

/// Why a rendering failed.
#[derive(Debug, PartialEq, Eq)]
pub enum PdfError {
    /// No permit came free in time.
    Busy,
    /// The converter ran out of time and was killed.
    Timeout,
    /// The converter exited with an error; this is what it wrote to standard error.
    RenderFailure { stderr: String },
    /// A file could not be written or read, or the converter could not be started.
    IoError(String),
    /// A report came that the job had not asked for.
    Unexpected,
}

pub enum PdfErrorView {
    Busy,
    Timeout,
    RenderFailure { stderr: Seq<char> },
    IoError(Seq<char>),
    Unexpected,
}

impl View for PdfError {
    type V = PdfErrorView;

    open spec fn view(&self) -> PdfErrorView {
        match self {
            PdfError::Busy => PdfErrorView::Busy,
            PdfError::Timeout => PdfErrorView::Timeout,
            PdfError::RenderFailure { stderr } => PdfErrorView::RenderFailure { stderr: stderr@ },
            PdfError::IoError(text) => PdfErrorView::IoError(text@),
            PdfError::Unexpected => PdfErrorView::Unexpected,
        }
    }
}

impl PdfErrorView {
    /// The text under which the failure is recorded.
    pub open spec fn message(self) -> Seq<char> {
        match self {
            PdfErrorView::Busy => "PDF renderer busy: no permit within 5 seconds"@,
            PdfErrorView::Timeout => "PDF rendering timed out"@,
            PdfErrorView::RenderFailure { stderr } => "PDF converter failed: "@ + stderr,
            PdfErrorView::IoError(text) => "PDF renderer I/O error: "@ + text,
            PdfErrorView::Unexpected => "report not asked for by the PDF renderer"@,
        }
    }
}

impl PdfError {
    /// The text under which the failure is recorded.
    pub fn message(&self) -> (r: String)
        ensures
            r@ == self@.message(),
    {
        match self {
            PdfError::Busy => String::from_str("PDF renderer busy: no permit within 5 seconds"),
            PdfError::Timeout => String::from_str("PDF rendering timed out"),
            PdfError::RenderFailure { stderr } => {
                let mut s = String::from_str("PDF converter failed: ");
                s.append(stderr.as_str());
                s
            },
            PdfError::IoError(text) => {
                let mut s = String::from_str("PDF renderer I/O error: ");
                s.append(text.as_str());
                s
            },
            PdfError::Unexpected => String::from_str("report not asked for by the PDF renderer"),
        }
    }
}

/// The two temporary files of one rendering.
#[derive(Debug, PartialEq, Eq)]
pub struct TempFiles {
    pub html_path: String,
    pub pdf_path: String,
}

pub struct TempFilesView {
    pub html_path: Seq<char>,
    pub pdf_path: Seq<char>,
}

impl View for TempFiles {
    type V = TempFilesView;

    open spec fn view(&self) -> TempFilesView {
        TempFilesView { html_path: self.html_path@, pdf_path: self.pdf_path@ }
    }
}

impl Clone for TempFiles {
    fn clone(&self) -> (r: Self)
        ensures
            r@ == self@,
    {
        TempFiles { html_path: self.html_path.clone(), pdf_path: self.pdf_path.clone() }
    }
}

/// The files to delete when a rendering is over, however it ended. Whoever holds
/// it removes both files when letting go of it.
#[derive(Debug, PartialEq, Eq)]
pub struct TempCleanup {
    pub files: TempFiles,
}

impl TempCleanup {
    pub fn new(files: TempFiles) -> (r: Self)
        ensures
            r.files@ == files@,
    {
        TempCleanup { files }
    }
}

/// The paths of the temporary files for a document `base_name` under the random
/// identifier `id`: `<dir>/<base_name>_<id>.html` and `.pdf`.
pub open spec fn temp_paths(dir: Seq<char>, base_name: Seq<char>, id: Seq<char>) -> TempFilesView {
    TempFilesView {
        html_path: dir + "/"@ + base_name + "_"@ + id + ".html"@,
        pdf_path: dir + "/"@ + base_name + "_"@ + id + ".pdf"@,
    }
}

/// Where a retained copy goes: `files/pdfs/<file_name>_<id>.pdf`.
pub open spec fn retained_path(file_name: Seq<char>, id: Seq<char>) -> Seq<char> {
    "files/pdfs/"@ + file_name + "_"@ + id + ".pdf"@
}

/// The page-size arguments: the preset if there is one, else the custom size in
/// millimetres, else A4.
pub open spec fn page_arguments(req: PdfRequestView) -> Seq<Seq<char>> {
    match req.page_size_preset {
        Some(preset) => seq!["--page-size"@, preset.name()],
        None => match req.custom_page_size {
            Some(size) => seq![
                "--page-width"@,
                size.width + "mm"@,
                "--page-height"@,
                size.height + "mm"@,
            ],
            None => seq!["--page-size"@, "A4"@],
        },
    }
}

/// The four margin arguments, in millimetres.
pub open spec fn margin_arguments(margins: PdfMarginsView) -> Seq<Seq<char>> {
    seq![
        "--margin-top"@,
        margins.top + "mm"@,
        "--margin-bottom"@,
        margins.bottom + "mm"@,
        "--margin-left"@,
        margins.left + "mm"@,
        "--margin-right"@,
        margins.right + "mm"@,
    ]
}

/// The zoom argument, given only where the request carries a scale.
pub open spec fn zoom_arguments(scale: Option<Seq<char>>) -> Seq<Seq<char>> {
    match scale {
        Some(factor) => seq!["--zoom"@, factor],
        None => Seq::empty(),
    }
}

/// The converter's whole command line after the program name: orientation, page
/// size, margins, zoom, the two flags that are always set, input and output.
pub open spec fn converter_arguments(req: PdfRequestView, files: TempFilesView) -> Seq<Seq<char>> {
    seq![
        "--orientation"@,
        match req.orientation {
            Some(orientation) => orientation.name(),
            None => PdfOrientation::Portrait.name(),
        },
    ] + page_arguments(req) + margin_arguments(
        match req.margins {
            Some(margins) => margins,
            None => PdfMargins::standard(),
        },
    ) + zoom_arguments(req.scale) + seq![
        "--enable-local-file-access"@,
        "--print-media-type"@,
        files.html_path,
        files.pdf_path,
    ]
}

fn push_text(list: &mut Vec<String>, text: &str)
    ensures
        final(list).deep_view() == old(list).deep_view().push(text@),
{
    let ghost before = list.deep_view();
    list.push(String::from_str(text));
    assert(list.deep_view() =~= before.push(text@));
}

fn push_millimetres(list: &mut Vec<String>, amount: &String)
    ensures
        final(list).deep_view() == old(list).deep_view().push(amount@ + "mm"@),
{
    let ghost before = list.deep_view();
    let mut text = amount.clone();
    text.append("mm");
    list.push(text);
    assert(list.deep_view() =~= before.push(amount@ + "mm"@));
}

fn push_page_arguments(list: &mut Vec<String>, req: &PdfRequest)
    ensures
        final(list).deep_view() == old(list).deep_view() + page_arguments(req@),
{
    let ghost before = list.deep_view();
    match req.page_size_preset {
        Some(preset) => {
            push_text(list, "--page-size");
            push_text(list, preset.as_str());
        },
        None => match &req.custom_page_size {
            Some(size) => {
                push_text(list, "--page-width");
                push_millimetres(list, &size.width);
                push_text(list, "--page-height");
                push_millimetres(list, &size.height);
            },
            None => {
                push_text(list, "--page-size");
                push_text(list, "A4");
            },
        },
    }
    assert(list.deep_view() =~= before + page_arguments(req@));
}

fn push_margin_arguments(list: &mut Vec<String>, margins: &PdfMargins)
    ensures
        final(list).deep_view() == old(list).deep_view() + margin_arguments(margins@),
{
    let ghost before = list.deep_view();
    push_text(list, "--margin-top");
    push_millimetres(list, &margins.top);
    push_text(list, "--margin-bottom");
    push_millimetres(list, &margins.bottom);
    push_text(list, "--margin-left");
    push_millimetres(list, &margins.left);
    push_text(list, "--margin-right");
    push_millimetres(list, &margins.right);
    assert(list.deep_view() =~= before + margin_arguments(margins@));
}

fn push_zoom_arguments(list: &mut Vec<String>, scale: &Option<String>)
    ensures
        final(list).deep_view() == old(list).deep_view() + zoom_arguments(scale.deep_view()),
{
    let ghost before = list.deep_view();
    match scale {
        Some(factor) => {
            push_text(list, "--zoom");
            push_text(list, factor.as_str());
        },
        None => {},
    }
    assert(list.deep_view() =~= before + zoom_arguments(scale.deep_view()));
}

fn push_fixed_arguments(list: &mut Vec<String>, files: &TempFiles)
    ensures
        final(list).deep_view() == old(list).deep_view() + seq![
            "--enable-local-file-access"@,
            "--print-media-type"@,
            files@.html_path,
            files@.pdf_path,
        ],
{
    let ghost before = list.deep_view();
    push_text(list, "--enable-local-file-access");
    push_text(list, "--print-media-type");
    push_text(list, files.html_path.as_str());
    push_text(list, files.pdf_path.as_str());
    assert(list.deep_view() =~= before + seq![
        "--enable-local-file-access"@,
        "--print-media-type"@,
        files@.html_path,
        files@.pdf_path,
    ]);
}

/// Builds the converter's command line for `req` working on `files`.
pub fn render_arguments(req: &PdfRequest, files: &TempFiles) -> (r: Vec<String>)
    ensures
        r.deep_view() == converter_arguments(req@, files@),
{
    let mut out: Vec<String> = Vec::new();
    assert(out.deep_view() =~= Seq::empty());
    push_text(&mut out, "--orientation");
    match req.orientation {
        Some(orientation) => push_text(&mut out, orientation.as_str()),
        None => push_text(&mut out, PdfOrientation::Portrait.as_str()),
    }
    assert(out.deep_view() =~= seq![
        "--orientation"@,
        match req@.orientation {
            Some(orientation) => orientation.name(),
            None => PdfOrientation::Portrait.name(),
        },
    ]);
    push_page_arguments(&mut out, req);
    match &req.margins {
        Some(margins) => push_margin_arguments(&mut out, margins),
        None => {
            let standard = PdfMargins::default();
            push_margin_arguments(&mut out, &standard);
        },
    }
    push_zoom_arguments(&mut out, &req.scale);
    push_fixed_arguments(&mut out, files);
    out
}

/// Whether `bytes` begin with the four bytes `%PDF`.
pub open spec fn has_pdf_magic(bytes: Seq<u8>) -> bool {
    bytes.len() >= 4 && bytes[0] == 0x25 && bytes[1] == 0x50 && bytes[2] == 0x44 && bytes[3]
        == 0x46
}

/// Whether `bytes` begin as every PDF does, with `%PDF`.
pub fn starts_with_pdf_magic(bytes: &Vec<u8>) -> (r: bool)
    ensures
        r == has_pdf_magic(bytes@),
{
    bytes.len() >= 4 && bytes[0] == 0x25 && bytes[1] == 0x50 && bytes[2] == 0x44 && bytes[3]
        == 0x46
}

/// What a rendering wants done next.
#[derive(Debug, PartialEq, Eq)]
pub enum RenderAction {
    /// Wait for a permit, but no longer than this.
    AcquirePermit { wait_seconds: u64 },
    /// Write the document to this path.
    WriteHtml { path: String, html: String },
    /// Run the converter with these arguments; kill it after this many seconds.
    Convert { program: String, arguments: Vec<String>, timeout_seconds: u64 },
    /// Read the converter's output from this path.
    ReadPdf { path: String },
    /// Keep a copy of the result at this path.
    KeepCopy { path: String, bytes: Vec<u8> },
    /// Nothing more: the rendering is over.
    Finish(Result<Vec<u8>, PdfError>),
}

pub enum RenderActionView {
    AcquirePermit { wait_seconds: u64 },
    WriteHtml { path: Seq<char>, html: Seq<char> },
    Convert { program: Seq<char>, arguments: Seq<Seq<char>>, timeout_seconds: u64 },
    ReadPdf { path: Seq<char> },
    KeepCopy { path: Seq<char>, bytes: Seq<u8> },
    Finish(Result<Seq<u8>, PdfErrorView>),
}

impl View for RenderAction {
    type V = RenderActionView;

    open spec fn view(&self) -> RenderActionView {
        match self {
            RenderAction::AcquirePermit { wait_seconds } => RenderActionView::AcquirePermit {
                wait_seconds: *wait_seconds,
            },
            RenderAction::WriteHtml { path, html } => RenderActionView::WriteHtml {
                path: path@,
                html: html@,
            },
            RenderAction::Convert {
                program,
                arguments,
                timeout_seconds,
            } => RenderActionView::Convert {
                program: program@,
                arguments: arguments.deep_view(),
                timeout_seconds: *timeout_seconds,
            },
            RenderAction::ReadPdf { path } => RenderActionView::ReadPdf { path: path@ },
            RenderAction::KeepCopy { path, bytes } => RenderActionView::KeepCopy {
                path: path@,
                bytes: bytes@,
            },
            RenderAction::Finish(Ok(bytes)) => RenderActionView::Finish(Ok(bytes@)),
            RenderAction::Finish(Err(error)) => RenderActionView::Finish(Err(error@)),
        }
    }
}

/// What the caller reports after carrying out a [`RenderAction`].
#[derive(Debug, PartialEq, Eq)]
pub enum RenderEvent {
    /// A permit is held.
    PermitGranted,
    /// No permit came free in time.
    PermitTimedOut,
    /// The document is written.
    Written,
    /// A file operation failed, or the converter could not be started.
    IoFailed(String),
    /// The converter ran to its end.
    Exited { success: bool, stderr: String },
    /// The converter ran out of time and was killed.
    TimedOut,
    /// The output, read into memory.
    PdfRead(Vec<u8>),
    /// The copy is written.
    CopyKept,
}

pub enum RenderEventView {
    PermitGranted,
    PermitTimedOut,
    Written,
    IoFailed(Seq<char>),
    Exited { success: bool, stderr: Seq<char> },
    TimedOut,
    PdfRead(Seq<u8>),
    CopyKept,
}

impl View for RenderEvent {
    type V = RenderEventView;

    open spec fn view(&self) -> RenderEventView {
        match self {
            RenderEvent::PermitGranted => RenderEventView::PermitGranted,
            RenderEvent::PermitTimedOut => RenderEventView::PermitTimedOut,
            RenderEvent::Written => RenderEventView::Written,
            RenderEvent::IoFailed(text) => RenderEventView::IoFailed(text@),
            RenderEvent::Exited { success, stderr } => RenderEventView::Exited {
                success: *success,
                stderr: stderr@,
            },
            RenderEvent::TimedOut => RenderEventView::TimedOut,
            RenderEvent::PdfRead(bytes) => RenderEventView::PdfRead(bytes@),
            RenderEvent::CopyKept => RenderEventView::CopyKept,
        }
    }
}

/// Which report a rendering is waiting for.
#[derive(Clone, Copy, Debug, PartialEq, Eq, Structural)]
pub enum RenderPhase {
    AwaitingPermit,
    WritingHtml,
    Converting,
    ReadingPdf,
    KeepingCopy,
    Finished,
}

/// A rendering as the contracts see it.
pub struct RenderJobView {
    pub request: PdfRequestView,
    pub files: TempFilesView,
    /// The converter's path.
    pub program: Seq<char>,
    /// Where a retained copy would go.
    pub copy_path: Seq<char>,
    /// The result, held while its copy is being written.
    pub held: Seq<u8>,
    pub phase: RenderPhase,
}

impl RenderJobView {
    /// A failure ends the rendering.
    pub open spec fn fail(self, error: PdfErrorView) -> (RenderJobView, RenderActionView) {
        (
            RenderJobView { phase: RenderPhase::Finished, ..self },
            RenderActionView::Finish(Err(error)),
        )
    }

    /// The transition function: the rendering after `event`, and what it asks for
    /// next.
    pub open spec fn next(self, event: RenderEventView) -> (RenderJobView, RenderActionView) {
        match (self.phase, event) {
            (RenderPhase::Finished, _) => self.fail(PdfErrorView::Unexpected),
            (_, RenderEventView::IoFailed(text)) => self.fail(PdfErrorView::IoError(text)),
            (RenderPhase::AwaitingPermit, RenderEventView::PermitGranted) => (
                RenderJobView { phase: RenderPhase::WritingHtml, ..self },
                RenderActionView::WriteHtml { path: self.files.html_path, html: self.request.html },
            ),
            (RenderPhase::AwaitingPermit, RenderEventView::PermitTimedOut) => self.fail(
                PdfErrorView::Busy,
            ),
            (RenderPhase::WritingHtml, RenderEventView::Written) => (
                RenderJobView { phase: RenderPhase::Converting, ..self },
                RenderActionView::Convert {
                    program: self.program,
                    arguments: converter_arguments(self.request, self.files),
                    timeout_seconds: PDF_GENERATION_TIMEOUT_SECONDS,
                },
            ),
            (RenderPhase::Converting, RenderEventView::Exited { success, stderr }) => if success {
                (
                    RenderJobView { phase: RenderPhase::ReadingPdf, ..self },
                    RenderActionView::ReadPdf { path: self.files.pdf_path },
                )
            } else {
                self.fail(PdfErrorView::RenderFailure { stderr })
            },
            (RenderPhase::Converting, RenderEventView::TimedOut) => self.fail(PdfErrorView::Timeout),
            (RenderPhase::ReadingPdf, RenderEventView::PdfRead(bytes)) => if self.request.store_local_pdf
                == Some(true) {
                (
                    RenderJobView { phase: RenderPhase::KeepingCopy, held: bytes, ..self },
                    RenderActionView::KeepCopy { path: self.copy_path, bytes },
                )
            } else {
                (
                    RenderJobView { phase: RenderPhase::Finished, ..self },
                    RenderActionView::Finish(Ok(bytes)),
                )
            },
            (RenderPhase::KeepingCopy, RenderEventView::CopyKept) => (
                RenderJobView { phase: RenderPhase::Finished, ..self },
                RenderActionView::Finish(Ok(self.held)),
            ),
            _ => self.fail(PdfErrorView::Unexpected),
        }
    }
}

impl RenderPhase {
    /// Whether a rendering in this phase holds a permit.
    pub open spec fn holds_permit(self) -> bool {
        self == RenderPhase::WritingHtml || self == RenderPhase::Converting || self
            == RenderPhase::ReadingPdf || self == RenderPhase::KeepingCopy
    }
}

/// The converter only ever runs under a permit: a rendering comes to hold one by
/// being granted it and in no other way, and it asks for the converter only while
/// it holds one, giving it no more than 120 seconds.
pub proof fn lemma_converter_runs_under_permit(job: RenderJobView, event: RenderEventView)
    ensures
        job.next(event).0.phase.holds_permit() ==> job.phase.holds_permit() || (job.phase
            == RenderPhase::AwaitingPermit && event == RenderEventView::PermitGranted),
        job.next(event).1 is Convert ==> job.phase.holds_permit() && job.next(
            event,
        ).1->timeout_seconds == 120,
        job.next(event).1 is AcquirePermit ==> false,
{
}

/// A rendering only ever succeeds with what was read from the converter's output
/// file: either the bytes just read, or, where a copy was kept, the bytes read
/// before the copy was written.
pub proof fn lemma_result_is_converter_output(job: RenderJobView, event: RenderEventView)
    requires
        job.next(event).1 is Finish,
        job.next(event).1->Finish_0 is Ok,
    ensures
        match job.phase {
            RenderPhase::ReadingPdf => event == RenderEventView::PdfRead(
                job.next(event).1->Finish_0->Ok_0,
            ) && job.request.store_local_pdf != Some(true),
            RenderPhase::KeepingCopy => event == RenderEventView::CopyKept && job.next(
                event,
            ).1->Finish_0->Ok_0 == job.held,
            _ => false,
        },
{
}

/// One rendering in progress.
pub struct RenderJob {
    request: PdfRequest,
    files: TempFiles,
    program: String,
    copy_path: String,
    held: Vec<u8>,
    phase: RenderPhase,
}

impl View for RenderJob {
    type V = RenderJobView;

    closed spec fn view(&self) -> RenderJobView {
        RenderJobView {
            request: self.request@,
            files: self.files@,
            program: self.program@,
            copy_path: self.copy_path@,
            held: self.held@,
            phase: self.phase,
        }
    }
}

impl RenderJob {
    /// Which report the rendering is waiting for.
    pub fn phase(&self) -> (r: RenderPhase)
        ensures
            r == self@.phase,
    {
        self.phase
    }

    /// The temporary files of this rendering, to be deleted when it is over.
    pub fn cleanup(&self) -> (r: TempCleanup)
        ensures
            r.files@ == self@.files,
    {
        TempCleanup::new(self.files.clone())
    }

    fn fail(&mut self, error: PdfError) -> (action: RenderAction)
        ensures
            (final(self)@, action@) == old(self)@.fail(error@),
    {
        self.phase = RenderPhase::Finished;
        RenderAction::Finish(Err(error))
    }

    /// Takes the report on the action last handed out and says what to do next.
    ///
    /// The order is: permit, write the document, convert, read the output, keep
    /// a copy where the request asks for one. A permit that does not come in time
    /// fails with `Busy`, a converter killed for running too long with `Timeout`,
    /// one that exits with an error with `RenderFailure`, any file trouble with
    /// `IoError`.
    pub fn step(&mut self, event: RenderEvent) -> (action: RenderAction)
        ensures
            (final(self)@, action@) == old(self)@.next(event@),
    {
        match (self.phase, event) {
            (RenderPhase::Finished, _) => self.fail(PdfError::Unexpected),
            (_, RenderEvent::IoFailed(text)) => self.fail(PdfError::IoError(text)),
            (RenderPhase::AwaitingPermit, RenderEvent::PermitGranted) => {
                self.phase = RenderPhase::WritingHtml;
                RenderAction::WriteHtml {
                    path: self.files.html_path.clone(),
                    html: self.request.html.clone(),
                }
            },
            (RenderPhase::AwaitingPermit, RenderEvent::PermitTimedOut) => self.fail(PdfError::Busy),
            (RenderPhase::WritingHtml, RenderEvent::Written) => {
                self.phase = RenderPhase::Converting;
                RenderAction::Convert {
                    program: self.program.clone(),
                    arguments: render_arguments(&self.request, &self.files),
                    timeout_seconds: PDF_GENERATION_TIMEOUT_SECONDS,
                }
            },
            (RenderPhase::Converting, RenderEvent::Exited { success, stderr }) => {
                if success {
                    self.phase = RenderPhase::ReadingPdf;
                    RenderAction::ReadPdf { path: self.files.pdf_path.clone() }
                } else {
                    self.fail(PdfError::RenderFailure { stderr })
                }
            },
            (RenderPhase::Converting, RenderEvent::TimedOut) => self.fail(PdfError::Timeout),
            (RenderPhase::ReadingPdf, RenderEvent::PdfRead(bytes)) => {
                let keep = match self.request.store_local_pdf {
                    Some(flag) => flag,
                    None => false,
                };
                if keep {
                    let copy = bytes.clone();
                    self.held = bytes;
                    self.phase = RenderPhase::KeepingCopy;
                    RenderAction::KeepCopy { path: self.copy_path.clone(), bytes: copy }
                } else {
                    self.phase = RenderPhase::Finished;
                    RenderAction::Finish(Ok(bytes))
                }
            },
            (RenderPhase::KeepingCopy, RenderEvent::CopyKept) => {
                let bytes = self.held.clone();
                self.phase = RenderPhase::Finished;
                RenderAction::Finish(Ok(bytes))
            },
            _ => self.fail(PdfError::Unexpected),
        }
    }
}

/// The renderer's settings: where temporary files go and which program converts.
#[derive(Debug, PartialEq, Eq)]
pub struct PdfService {
    temp_dir: String,
    wkhtmltopdf_path: String,
}

pub struct PdfServiceView {
    pub temp_dir: Seq<char>,
    pub wkhtmltopdf_path: Seq<char>,
}

impl View for PdfService {
    type V = PdfServiceView;

    closed spec fn view(&self) -> PdfServiceView {
        PdfServiceView { temp_dir: self.temp_dir@, wkhtmltopdf_path: self.wkhtmltopdf_path@ }
    }
}

impl Clone for PdfService {
    fn clone(&self) -> (r: Self)
        ensures
            r@ == self@,
    {
        PdfService {
            temp_dir: self.temp_dir.clone(),
            wkhtmltopdf_path: self.wkhtmltopdf_path.clone(),
        }
    }
}

/// The per-process temporary directory under `root` for the random identifier
/// `id`: `<root>/pdf_service_<id>`.
pub open spec fn temp_dir_path(root: Seq<char>, id: Seq<char>) -> Seq<char> {
    root + "/pdf_service_"@ + id
}

/// The state in which a rendering of `req` starts: waiting for a permit, with
/// its temporary files named after `temp_id` and its retained copy after
/// `copy_id`.
pub open spec fn initial_job(
    service: PdfServiceView,
    req: PdfRequestView,
    temp_id: u128,
    copy_id: u128,
) -> RenderJobView {
    RenderJobView {
        request: req,
        files: temp_paths(service.temp_dir, req.file_name, uuid_text(temp_id)),
        program: service.wkhtmltopdf_path,
        copy_path: retained_path(req.file_name, uuid_text(copy_id)),
        held: Seq::empty(),
        phase: RenderPhase::AwaitingPermit,
    }
}

impl PdfService {
    /// A renderer whose temporary directory lies under `temp_root`, named after
    /// `id`, and whose converter is the program at `wkhtmltopdf_path`.
    pub fn with_directory_id(temp_root: &str, id: u128, wkhtmltopdf_path: String) -> (r: Self)
        ensures
            r@ == (PdfServiceView {
                temp_dir: temp_dir_path(temp_root@, uuid_text(id)),
                wkhtmltopdf_path: wkhtmltopdf_path@,
            }),
    {
        let mut temp_dir = String::from_str(temp_root);
        temp_dir.append("/pdf_service_");
        let text = format_id(id);
        temp_dir.append(text.as_str());
        PdfService { temp_dir, wkhtmltopdf_path }
    }

    /// A renderer with a temporary directory of its own under `temp_root`, named
    /// after a fresh random identifier.
    pub fn new(temp_root: &str, wkhtmltopdf_path: String) -> (r: Self)
        ensures
            exists|id: u128|
                r@ == (PdfServiceView {
                    temp_dir: temp_dir_path(temp_root@, #[trigger] uuid_text(id)),
                    wkhtmltopdf_path: wkhtmltopdf_path@,
                }),
    {
        let id = random_id();
        Self::with_directory_id(temp_root, id, wkhtmltopdf_path)
    }

    /// The temporary directory.
    pub fn temp_dir(&self) -> (r: &String)
        ensures
            r@ == self@.temp_dir,
    {
        &self.temp_dir
    }

    /// The temporary files for a document `base_name` under the identifier `id`.
    pub fn temp_files_for(&self, base_name: &str, id: u128) -> (r: TempFiles)
        ensures
            r@ == temp_paths(self@.temp_dir, base_name@, uuid_text(id)),
    {
        let text = format_id(id);
        let mut stem = self.temp_dir.clone();
        stem.append("/");
        stem.append(base_name);
        stem.append("_");
        stem.append(text.as_str());
        let mut html_path = stem.clone();
        html_path.append(".html");
        let mut pdf_path = stem;
        pdf_path.append(".pdf");
        TempFiles { html_path, pdf_path }
    }

    /// The temporary files for a document `base_name` under a fresh random
    /// identifier.
    pub fn create_temp_files(&self, base_name: &str) -> (r: TempFiles)
        ensures
            exists|id: u128| r@ == temp_paths(self@.temp_dir, base_name@, #[trigger] uuid_text(id)),
    {
        let id = random_id();
        self.temp_files_for(base_name, id)
    }

    /// Begins a rendering whose temporary files are named after `temp_id` and whose
    /// retained copy, if one is asked for, after `copy_id`. The first thing to do
    /// is to wait for a permit.
    pub fn start_job(&self, req: PdfRequest, temp_id: u128, copy_id: u128) -> (r: (
        RenderJob,
        RenderAction,
    ))
        ensures
            r.0@ == initial_job(self@, req@, temp_id, copy_id),
            r.1@ == (RenderActionView::AcquirePermit { wait_seconds: PERMIT_WAIT_SECONDS }),
    {
        let files = self.temp_files_for(req.file_name.as_str(), temp_id);
        let text = format_id(copy_id);
        let mut copy_path = String::from_str("files/pdfs/");
        copy_path.append(req.file_name.as_str());
        copy_path.append("_");
        copy_path.append(text.as_str());
        copy_path.append(".pdf");
        let job = RenderJob {
            request: req,
            files,
            program: self.wkhtmltopdf_path.clone(),
            copy_path,
            held: Vec::new(),
            phase: RenderPhase::AwaitingPermit,
        };
        (job, RenderAction::AcquirePermit { wait_seconds: PERMIT_WAIT_SECONDS })
    }

    /// Begins a rendering under fresh random identifiers. Whatever identifiers
    /// were drawn, the rendering starts as [`Self::start_job`] says for them.
    pub fn generate_pdf(&self, req: PdfRequest) -> (r: (RenderJob, RenderAction))
        ensures
            exists|temp_id: u128, copy_id: u128|
                r.0@ == #[trigger] initial_job(self@, req@, temp_id, copy_id),
            r.1@ == (RenderActionView::AcquirePermit { wait_seconds: PERMIT_WAIT_SECONDS }),
    {
        let temp_id = random_id();
        let copy_id = random_id();
        self.start_job(req, temp_id, copy_id)
    }
}

} // verus!
