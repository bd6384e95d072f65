use notification_dispatcher::config::pdf_config::PdfGlobalConfig;
use notification_dispatcher::models::pdf_model::{
    PaperSize, PdfMargins, PdfOrientation, PdfPagePreset, PdfRequest,
};
use notification_dispatcher::services::pdf_service::{
    render_arguments, starts_with_pdf_magic, PdfError, PdfService, RenderAction, RenderEvent,
    RenderJob, RenderPhase, TempCleanup, TempFiles, MAX_CONCURRENT_PROCESSES,
    PDF_GENERATION_TIMEOUT_SECONDS, PERMIT_WAIT_SECONDS,
};

const TEMP_ID: u128 = 0x0a0b0c0d_0000_4000_8000_00000000000f;
const COPY_ID: u128 = 0x01020304_0000_4000_8000_000000000005;
const TEMP_TEXT: &str = "0a0b0c0d-0000-4000-8000-00000000000f";
const COPY_TEXT: &str = "01020304-0000-4000-8000-000000000005";

fn service() -> PdfService {
    PdfService::with_directory_id("/tmp", 1, "/usr/bin/wkhtmltopdf".to_string())
}

fn request(html: &str, orientation: Option<PdfOrientation>) -> PdfRequest {
    PdfRequest {
        file_name: "t.pdf".to_string(),
        html: html.to_string(),
        orientation,
        page_size_preset: None,
        custom_page_size: None,
        margins: None,
        scale: None,
        store_local_pdf: None,
    }
}

fn files() -> TempFiles {
    TempFiles { html_path: "/t/in.html".to_string(), pdf_path: "/t/out.pdf".to_string() }
}

fn text(list: &[&str]) -> Vec<String> {
    list.iter().map(|s| s.to_string()).collect()
}

/// Drives a job through a converter that always succeeds and writes `output`.
fn render(job: &mut RenderJob, output: &[u8]) -> Result<Vec<u8>, PdfError> {
    let mut event = RenderEvent::PermitGranted;
    loop {
        event = match job.step(event) {
            RenderAction::AcquirePermit { .. } => RenderEvent::PermitGranted,
            RenderAction::WriteHtml { .. } => RenderEvent::Written,
            RenderAction::Convert { .. } => {
                RenderEvent::Exited { success: true, stderr: String::new() }
            }
            RenderAction::ReadPdf { .. } => RenderEvent::PdfRead(output.to_vec()),
            RenderAction::KeepCopy { .. } => RenderEvent::CopyKept,
            RenderAction::Finish(result) => return result,
        };
    }
}

#[test]
fn limits_are_the_documented_ones() {
    assert_eq!(MAX_CONCURRENT_PROCESSES, 8);
    assert_eq!(PERMIT_WAIT_SECONDS, 5);
    assert_eq!(PDF_GENERATION_TIMEOUT_SECONDS, 120);
}

#[test]
fn default_arguments_are_portrait_a4_with_ten_millimetre_margins() {
    let args = render_arguments(&request("<h1>hi</h1>", None), &files());
    assert_eq!(
        args,
        text(&[
            "--orientation",
            "Portrait",
            "--page-size",
            "A4",
            "--margin-top",
            "10mm",
            "--margin-bottom",
            "10mm",
            "--margin-left",
            "10mm",
            "--margin-right",
            "10mm",
            "--enable-local-file-access",
            "--print-media-type",
            "/t/in.html",
            "/t/out.pdf",
        ])
    );
}

#[test]
fn preset_takes_precedence_over_custom_size() {
    let mut req = request("x", Some(PdfOrientation::Landscape));
    req.page_size_preset = Some(PdfPagePreset::Letter);
    req.custom_page_size = Some(PaperSize { width: "100".to_string(), height: "200".to_string() });
    let args = render_arguments(&req, &files());
    assert_eq!(&args[..4], &text(&["--orientation", "Landscape", "--page-size", "Letter"])[..]);
    assert!(!args.contains(&"--page-width".to_string()));
}

#[test]
fn custom_size_margins_and_zoom_are_passed_through() {
    let mut req = request("x", Some(PdfOrientation::Portrait));
    req.custom_page_size = Some(PaperSize { width: "215.9".to_string(), height: "279.4".to_string() });
    req.margins = Some(PdfMargins {
        top: "1".to_string(),
        bottom: "2.5".to_string(),
        left: "0".to_string(),
        right: "12.75".to_string(),
    });
    req.scale = Some("0.8".to_string());
    let args = render_arguments(&req, &files());
    assert_eq!(
        args,
        text(&[
            "--orientation",
            "Portrait",
            "--page-width",
            "215.9mm",
            "--page-height",
            "279.4mm",
            "--margin-top",
            "1mm",
            "--margin-bottom",
            "2.5mm",
            "--margin-left",
            "0mm",
            "--margin-right",
            "12.75mm",
            "--zoom",
            "0.8",
            "--enable-local-file-access",
            "--print-media-type",
            "/t/in.html",
            "/t/out.pdf",
        ])
    );
}

#[test]
fn every_preset_has_its_converter_name() {
    let names = [
        (PdfPagePreset::A4, "A4"),
        (PdfPagePreset::Letter, "Letter"),
        (PdfPagePreset::Legal, "Legal"),
        (PdfPagePreset::A3, "A3"),
        (PdfPagePreset::Tabloid, "Tabloid"),
    ];
    for (preset, name) in names {
        assert_eq!(preset.as_str(), name);
        let mut req = request("x", None);
        req.page_size_preset = Some(preset);
        assert_eq!(render_arguments(&req, &files())[3], name);
    }
    assert_eq!(PdfOrientation::Portrait.as_str(), "Portrait");
    assert_eq!(PdfOrientation::Landscape.as_str(), "Landscape");
}

#[test]
fn default_request_is_an_empty_portrait_a4_document() {
    let req = PdfRequest::default();
    assert_eq!(req.file_name, "output.pdf");
    assert_eq!(req.html, "");
    assert_eq!(req.orientation, Some(PdfOrientation::Portrait));
    assert_eq!(req.page_size_preset, Some(PdfPagePreset::A4));
    assert_eq!(req.custom_page_size, None);
    assert_eq!(req.margins, Some(PdfMargins::default()));
    assert_eq!(req.scale, None);
    assert_eq!(PdfMargins::default().top, "10");
    assert_eq!(PdfMargins::default().right, "10");
    let copy = req.clone();
    assert_eq!(copy, req);
}

#[test]
fn global_defaults_are_letter_with_half_inch_margins() {
    let config = PdfGlobalConfig::default();
    assert_eq!(config.default_orientation, "portrait");
    assert_eq!(config.default_width, "8.5");
    assert_eq!(config.default_height, "11");
    assert_eq!(config.default_margin_top, "0.5");
    assert_eq!(config.default_margin_bottom, "0.5");
    assert_eq!(config.default_margin_left, "0.5");
    assert_eq!(config.default_margin_right, "0.5");
}

#[test]
fn temporary_files_carry_the_random_identifier() {
    let service = service();
    assert_eq!(service.temp_dir(), "/tmp/pdf_service_00000000-0000-0000-0000-000000000001");
    let files = service.temp_files_for("invoice", TEMP_ID);
    assert_eq!(
        files.html_path,
        format!("/tmp/pdf_service_00000000-0000-0000-0000-000000000001/invoice_{}.html", TEMP_TEXT)
    );
    assert_eq!(
        files.pdf_path,
        format!("/tmp/pdf_service_00000000-0000-0000-0000-000000000001/invoice_{}.pdf", TEMP_TEXT)
    );
    let first = service.create_temp_files("invoice");
    let second = service.create_temp_files("invoice");
    assert_ne!(first.html_path, second.html_path);
    assert!(first.html_path.ends_with(".html"));
    assert!(first.pdf_path.ends_with(".pdf"));
    assert_eq!(
        first.html_path.trim_end_matches(".html"),
        first.pdf_path.trim_end_matches(".pdf")
    );
    let fresh = PdfService::new("/var/tmp", "wk".to_string());
    assert!(fresh.temp_dir().starts_with("/var/tmp/pdf_service_"));
    assert_eq!(fresh.temp_dir().len(), "/var/tmp/pdf_service_".len() + 36);
    assert_eq!(fresh.clone(), fresh);
}

#[test]
fn cleanup_holds_the_files_it_was_given() {
    let cleanup = TempCleanup::new(files());
    assert_eq!(cleanup.files, files());
    let (job, _) = service().start_job(request("x", None), TEMP_ID, COPY_ID);
    assert_eq!(job.cleanup().files, service().temp_files_for("t.pdf", TEMP_ID));
}

#[test]
fn job_walks_permit_write_convert_read() {
    let (mut job, first) = service().start_job(request("<h1>hi</h1>", None), TEMP_ID, COPY_ID);
    assert_eq!(first, RenderAction::AcquirePermit { wait_seconds: 5 });
    assert_eq!(job.phase(), RenderPhase::AwaitingPermit);
    let files = service().temp_files_for("t.pdf", TEMP_ID);
    assert_eq!(
        job.step(RenderEvent::PermitGranted),
        RenderAction::WriteHtml { path: files.html_path.clone(), html: "<h1>hi</h1>".to_string() }
    );
    assert_eq!(
        job.step(RenderEvent::Written),
        RenderAction::Convert {
            program: "/usr/bin/wkhtmltopdf".to_string(),
            arguments: render_arguments(&request("<h1>hi</h1>", None), &files),
            timeout_seconds: 120,
        }
    );
    assert_eq!(job.phase(), RenderPhase::Converting);
    assert_eq!(
        job.step(RenderEvent::Exited { success: true, stderr: "warning".to_string() }),
        RenderAction::ReadPdf { path: files.pdf_path.clone() }
    );
    assert_eq!(
        job.step(RenderEvent::PdfRead(b"%PDF-1.4 body".to_vec())),
        RenderAction::Finish(Ok(b"%PDF-1.4 body".to_vec()))
    );
    assert_eq!(job.phase(), RenderPhase::Finished);
}

#[test]
fn retained_copy_goes_under_files_pdfs() {
    let mut req = request("x", None);
    req.store_local_pdf = Some(true);
    let (mut job, _) = service().start_job(req, TEMP_ID, COPY_ID);
    job.step(RenderEvent::PermitGranted);
    job.step(RenderEvent::Written);
    job.step(RenderEvent::Exited { success: true, stderr: String::new() });
    assert_eq!(
        job.step(RenderEvent::PdfRead(b"%PDF".to_vec())),
        RenderAction::KeepCopy {
            path: format!("files/pdfs/t.pdf_{}.pdf", COPY_TEXT),
            bytes: b"%PDF".to_vec(),
        }
    );
    assert_eq!(job.phase(), RenderPhase::KeepingCopy);
    assert_eq!(job.step(RenderEvent::CopyKept), RenderAction::Finish(Ok(b"%PDF".to_vec())));
    let mut not_kept = request("x", None);
    not_kept.store_local_pdf = Some(false);
    let (mut plain, _) = service().start_job(not_kept, TEMP_ID, COPY_ID);
    assert_eq!(render(&mut plain, b"%PDF"), Ok(b"%PDF".to_vec()));
}

#[test]
fn permit_that_does_not_come_fails_with_busy() {
    let (mut job, _) = service().start_job(request("x", None), TEMP_ID, COPY_ID);
    assert_eq!(job.step(RenderEvent::PermitTimedOut), RenderAction::Finish(Err(PdfError::Busy)));
    assert_eq!(job.phase(), RenderPhase::Finished);
    assert_eq!(PdfError::Busy.message(), "PDF renderer busy: no permit within 5 seconds");
}

#[test]
fn converter_that_runs_too_long_fails_with_timeout() {
    let (mut job, _) = service().start_job(request("x", None), TEMP_ID, COPY_ID);
    job.step(RenderEvent::PermitGranted);
    job.step(RenderEvent::Written);
    assert_eq!(job.step(RenderEvent::TimedOut), RenderAction::Finish(Err(PdfError::Timeout)));
    assert_eq!(PdfError::Timeout.message(), "PDF rendering timed out");
}

#[test]
fn converter_error_carries_its_standard_error() {
    let (mut job, _) = service().start_job(request("x", None), TEMP_ID, COPY_ID);
    job.step(RenderEvent::PermitGranted);
    job.step(RenderEvent::Written);
    let failed = job.step(RenderEvent::Exited { success: false, stderr: "Exit with code 1".to_string() });
    assert_eq!(
        failed,
        RenderAction::Finish(Err(PdfError::RenderFailure { stderr: "Exit with code 1".to_string() }))
    );
    assert_eq!(
        PdfError::RenderFailure { stderr: "Exit with code 1".to_string() }.message(),
        "PDF converter failed: Exit with code 1"
    );
}

#[test]
fn file_trouble_fails_with_io_error_in_any_phase() {
    for steps in 0..4 {
        let mut req = request("x", None);
        req.store_local_pdf = Some(true);
        let (mut job, _) = service().start_job(req, TEMP_ID, COPY_ID);
        let script = [
            RenderEvent::PermitGranted,
            RenderEvent::Written,
            RenderEvent::Exited { success: true, stderr: String::new() },
            RenderEvent::PdfRead(vec![1]),
        ];
        for event in script.into_iter().take(steps + 1) {
            job.step(event);
        }
        assert_eq!(
            job.step(RenderEvent::IoFailed("no space left".to_string())),
            RenderAction::Finish(Err(PdfError::IoError("no space left".to_string())))
        );
    }
    assert_eq!(
        PdfError::IoError("no space left".to_string()).message(),
        "PDF renderer I/O error: no space left"
    );
}

#[test]
fn reports_out_of_turn_end_the_rendering() {
    let (mut job, _) = service().start_job(request("x", None), TEMP_ID, COPY_ID);
    assert_eq!(job.step(RenderEvent::Written), RenderAction::Finish(Err(PdfError::Unexpected)));
    assert_eq!(job.step(RenderEvent::PermitGranted), RenderAction::Finish(Err(PdfError::Unexpected)));
    let (mut early, _) = service().start_job(request("x", None), TEMP_ID, COPY_ID);
    early.step(RenderEvent::PermitGranted);
    assert_eq!(early.step(RenderEvent::TimedOut), RenderAction::Finish(Err(PdfError::Unexpected)));
}

#[test]
fn pdf_magic_is_the_first_four_bytes() {
    assert!(starts_with_pdf_magic(&vec![0x25, 0x50, 0x44, 0x46]));
    assert!(starts_with_pdf_magic(&b"%PDF-1.7\n".to_vec()));
    assert!(!starts_with_pdf_magic(&b"%PD".to_vec()));
    assert!(!starts_with_pdf_magic(&b" %PDF".to_vec()));
    assert!(!starts_with_pdf_magic(&b"<html>".to_vec()));
    assert!(!starts_with_pdf_magic(&vec![]));
}

#[test]
fn test_generate_pdf_simple() {
    let (mut job, _) = service().generate_pdf(request("<h1>Hola mundo</h1>", Some(PdfOrientation::Portrait)));
    let result = render(&mut job, b"%PDF-1.4\n%%EOF");
    assert!(result.is_ok());
    let pdf_data = result.unwrap();
    assert!(pdf_data.starts_with(b"%PDF"), "No inicia con %PDF");
}

#[test]
fn test_generate_pdf_large() {
    let big_html = "<h1>Linea</h1>".repeat(5000);
    let mut req = request(&big_html, Some(PdfOrientation::Landscape));
    req.custom_page_size = Some(PaperSize { width: "11".to_string(), height: "8.5".to_string() });
    req.margins = Some(PdfMargins {
        top: "1".to_string(),
        bottom: "1".to_string(),
        left: "1".to_string(),
        right: "1".to_string(),
    });
    let (mut job, _) = service().generate_pdf(req);
    match job.step(RenderEvent::PermitGranted) {
        RenderAction::WriteHtml { html, .. } => assert_eq!(html.len(), 14 * 5000),
        other => panic!("{:?}", other),
    }
    match job.step(RenderEvent::Written) {
        RenderAction::Convert { arguments, .. } => {
            assert_eq!(&arguments[..6], &text(&["--orientation", "Landscape", "--page-width", "11mm", "--page-height", "8.5mm"])[..]);
            assert_eq!(&arguments[6..8], &text(&["--margin-top", "1mm"])[..]);
        }
        other => panic!("{:?}", other),
    }
    job.step(RenderEvent::Exited { success: true, stderr: String::new() });
    let res = match job.step(RenderEvent::PdfRead(b"%PDF-1.4 large".to_vec())) {
        RenderAction::Finish(result) => result,
        other => panic!("{:?}", other),
    };
    assert!(res.is_ok(), "No se generó PDF (large)");
    let pdf_data = res.unwrap();
    assert!(pdf_data.starts_with(b"%PDF"));
}

#[test]
fn test_memory_usage_multiple_pdfs() {
    let service = service();
    for i in 0..3 {
        let req = request(&format!("<h1>Iter {}</h1>", i), Some(PdfOrientation::Portrait));
        let (mut job, _) = service.generate_pdf(req);
        let res = render(&mut job, b"%PDF-1.4");
        assert!(res.is_ok());
        let pdf_data = res.unwrap();
        assert!(pdf_data.starts_with(b"%PDF"));
    }
}

#[test]
fn test_pdf_orientations() {
    let service = service();
    for (orient, parsed, name) in [
        ("portrait", PdfOrientation::Portrait, "Portrait"),
        ("landscape", PdfOrientation::Landscape, "Landscape"),
    ] {
        let req = request(&format!("<h1>Orient {}</h1>", orient), Some(parsed));
        let (mut job, _) = service.generate_pdf(req);
        job.step(RenderEvent::PermitGranted);
        match job.step(RenderEvent::Written) {
            RenderAction::Convert { arguments, .. } => assert_eq!(arguments[1], name),
            other => panic!("{:?}", other),
        }
        job.step(RenderEvent::Exited { success: true, stderr: String::new() });
        let res = match job.step(RenderEvent::PdfRead(b"%PDF-1.4".to_vec())) {
            RenderAction::Finish(result) => result,
            other => panic!("{:?}", other),
        };
        assert!(res.is_ok(), "Falló con orientación {}", orient);
        assert!(res.unwrap().starts_with(b"%PDF"));
    }
}

#[test]
fn test_temp_file_cleanup() {
    let service = service();
    let req = request(&"<h1>Temp file test</h1>".repeat(1000), None);
    let (mut job, _) = service.generate_pdf(req);
    let cleanup = job.cleanup();
    let mut touched: Vec<String> = vec![];
    let mut event = RenderEvent::PermitGranted;
    let res = loop {
        event = match job.step(event) {
            RenderAction::WriteHtml { path, .. } => {
                touched.push(path);
                RenderEvent::Written
            }
            RenderAction::Convert { arguments, .. } => {
                let n = arguments.len();
                assert_eq!(arguments[n - 2], cleanup.files.html_path);
                assert_eq!(arguments[n - 1], cleanup.files.pdf_path);
                RenderEvent::Exited { success: true, stderr: String::new() }
            }
            RenderAction::ReadPdf { path } => {
                touched.push(path);
                RenderEvent::PdfRead(b"%PDF".to_vec())
            }
            RenderAction::Finish(result) => break result,
            other => panic!("{:?}", other),
        };
    };
    assert!(res.is_ok());
    assert_eq!(touched, vec![cleanup.files.html_path.clone(), cleanup.files.pdf_path.clone()], "Quedaron archivos en ./tmp");
}

#[test]
fn test_pdf_performance() {
    let req = request("<h1>Performance Test</h1>", Some(PdfOrientation::Portrait));
    let (mut job, first) = service().generate_pdf(req);
    assert_eq!(first, RenderAction::AcquirePermit { wait_seconds: 5 });
    job.step(RenderEvent::PermitGranted);
    match job.step(RenderEvent::Written) {
        RenderAction::Convert { timeout_seconds, .. } => {
            assert!(timeout_seconds >= 10, "Tardó demasiado: {:?}", timeout_seconds)
        }
        other => panic!("{:?}", other),
    }
    job.step(RenderEvent::Exited { success: true, stderr: String::new() });
    let res = job.step(RenderEvent::PdfRead(b"%PDF".to_vec()));
    assert!(matches!(res, RenderAction::Finish(Ok(_))));
}

#[test]
fn test_different_paper_sizes() {
    let sizes = vec![("8.5", "11"), ("11", "17"), ("8.27", "11.69")];
    for (w, h) in sizes {
        let mut req = request(&format!("<h1>Size {}x{}</h1>", w, h), None);
        req.custom_page_size = Some(PaperSize { width: w.to_string(), height: h.to_string() });
        let (mut job, _) = service().generate_pdf(req);
        job.step(RenderEvent::PermitGranted);
        match job.step(RenderEvent::Written) {
            RenderAction::Convert { arguments, .. } => {
                assert_eq!(arguments[2], "--page-width");
                assert_eq!(arguments[3], format!("{}mm", w));
                assert_eq!(arguments[4], "--page-height");
                assert_eq!(arguments[5], format!("{}mm", h));
            }
            other => panic!("{:?}", other),
        }
        job.step(RenderEvent::Exited { success: true, stderr: String::new() });
        let res = match job.step(RenderEvent::PdfRead(b"%PDF-1.4".to_vec())) {
            RenderAction::Finish(result) => result,
            other => panic!("{:?}", other),
        };
        assert!(res.is_ok(), "Falló con tamaño {}x{}", w, h);
        assert!(res.unwrap().starts_with(b"%PDF"));
    }
}
