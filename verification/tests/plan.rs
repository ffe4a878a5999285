use qubes_converter::conversion::FileConversion;
use qubes_converter::document::{DocumentFlow, Report};
use qubes_converter::error::ConvertError;
use qubes_converter::frame::PageSize;
use qubes_converter::plan::{Directive, FilePlan};
use qubes_converter::producer::ProducerError;
use qubes_converter::tools::FileAction;
use qubes_converter::worker_plan::{DocumentPlan, Job};

fn plan(source: Option<&str>, in_place: bool, ocr: Option<&str>) -> FilePlan {
    FilePlan {
        source: source.map(|s| s.to_string()),
        scratch: "/home/user/.temp_x/0".to_string(),
        archive: "/tmp/arc/".to_string(),
        in_place,
        ocr: ocr.map(|l| l.to_string()),
    }
}

#[test]
fn picture_in_place_step_by_step() {
    let plan = plan(Some("/home/user/a.png"), true, None);
    let mut conversion = FileConversion::new(1).unwrap();
    match plan.directive(&conversion) {
        Directive::ReadHeader { length } => assert_eq!(length, 3),
        other => panic!("unexpected directive {:?}", other),
    }
    conversion.on_bytes(&[1, 0, 1]);
    match plan.directive(&conversion) {
        Directive::ReadHeader { length } => assert_eq!(length, 4),
        other => panic!("unexpected directive {:?}", other),
    }
    conversion.on_bytes(&[2, 0, 3, 0]);
    match plan.directive(&conversion) {
        Directive::ReceivePage { page, size, length, png, encoder } => {
            assert_eq!(page, 0);
            assert_eq!(size, PageSize { width: 2, height: 3 });
            assert_eq!(length, 24);
            assert_eq!(png, "/home/user/.temp_x/0.0.png");
            assert!(encoder.is_none());
        }
        other => panic!("unexpected directive {:?}", other),
    }
    conversion.on_page_started();
    match plan.directive(&conversion) {
        Directive::Await { page } => assert_eq!(page, 0),
        other => panic!("unexpected directive {:?}", other),
    }
    conversion.on_polled(&[0]);
    match plan.directive(&conversion) {
        Directive::Assemble { action: FileAction::Copy { from, to } } => {
            assert_eq!(from, "/home/user/.temp_x/0.0.png");
            assert_eq!(to, "/home/user/a.trusted.png");
        }
        other => panic!("unexpected directive {:?}", other),
    }
    conversion.on_assembled(true);
    match plan.directive(&conversion) {
        Directive::Retire { actions } => {
            assert_eq!(actions.len(), 1);
            match &actions[0] {
                FileAction::Remove { path } => assert_eq!(path, "/home/user/a.png"),
                other => panic!("unexpected action {:?}", other),
            }
        }
        other => panic!("unexpected directive {:?}", other),
    }
    conversion.on_retired(true);
    match plan.directive(&conversion) {
        Directive::Finished { remove } => assert_eq!(remove, "/home/user/.temp_x/0"),
        other => panic!("unexpected directive {:?}", other),
    }
}

#[test]
fn document_with_archive_step_by_step() {
    let plan = plan(Some("/home/user/doc.pdf"), false, None);
    let mut conversion = FileConversion::new(1).unwrap();
    conversion.on_bytes(&[3, 0, 0]);
    for page in 0..3u16 {
        conversion.on_bytes(&[1, 0, 1, 0]);
        match plan.directive(&conversion) {
            Directive::ReceivePage { page: asked, length, png, encoder, .. } => {
                assert_eq!(asked, page);
                assert_eq!(length, 4);
                assert_eq!(png, format!("/home/user/.temp_x/0.{}.png", page));
                let encoder = encoder.unwrap();
                assert_eq!(encoder.program, "gm");
                assert_eq!(
                    encoder.arguments,
                    vec![
                        "convert".to_string(),
                        format!("/home/user/.temp_x/0.{}.png", page),
                        format!("/home/user/.temp_x/0.{}.pdf", page),
                    ]
                );
            }
            other => panic!("unexpected directive {:?}", other),
        }
        conversion.on_page_started();
        if page < 2 {
            match plan.directive(&conversion) {
                Directive::Poll { pause_ms, pages } => {
                    assert_eq!(pause_ms, 0);
                    assert_eq!(pages, vec![page]);
                }
                other => panic!("unexpected directive {:?}", other),
            }
            conversion.on_polled(&[]);
            match plan.directive(&conversion) {
                Directive::Poll { pause_ms, pages } => {
                    assert_eq!(pause_ms, 200);
                    assert_eq!(pages, vec![page]);
                }
                other => panic!("unexpected directive {:?}", other),
            }
            conversion.on_polled(&[page]);
        }
    }
    conversion.on_polled(&[2]);
    match plan.directive(&conversion) {
        Directive::Assemble { action: FileAction::Run { command } } => {
            assert_eq!(command.program, "pdftk");
            assert_eq!(
                command.arguments,
                vec![
                    "/home/user/.temp_x/0.0.pdf",
                    "/home/user/.temp_x/0.1.pdf",
                    "/home/user/.temp_x/0.2.pdf",
                    "cat",
                    "output",
                    "/home/user/doc.trusted.pdf"
                ]
            );
        }
        other => panic!("unexpected directive {:?}", other),
    }
    conversion.on_assembled(true);
    match plan.directive(&conversion) {
        Directive::Retire { actions } => {
            assert_eq!(actions.len(), 2);
            match &actions[0] {
                FileAction::Copy { from, to } => {
                    assert_eq!(from, "/home/user/doc.pdf");
                    assert_eq!(to, "/tmp/arc/doc.pdf");
                }
                other => panic!("unexpected action {:?}", other),
            }
            match &actions[1] {
                FileAction::Remove { path } => assert_eq!(path, "/home/user/doc.pdf"),
                other => panic!("unexpected action {:?}", other),
            }
        }
        other => panic!("unexpected directive {:?}", other),
    }
}

#[test]
fn recognised_text_is_asked_of_the_recogniser() {
    let plan = plan(Some("/home/user/doc.pdf"), false, Some("eng"));
    let mut conversion = FileConversion::new(2).unwrap();
    conversion.on_bytes(&[5, 0, 0]);
    conversion.on_bytes(&[1, 0, 1, 0]);
    match plan.directive(&conversion) {
        Directive::ReceivePage { encoder, .. } => {
            let encoder = encoder.unwrap();
            assert_eq!(encoder.program, "tesseract");
            assert_eq!(
                encoder.arguments,
                vec![
                    "/home/user/.temp_x/0.0.png",
                    "/home/user/.temp_x/0.0",
                    "-l",
                    "eng",
                    "--dpi",
                    "70",
                    "pdf"
                ]
            );
        }
        other => panic!("unexpected directive {:?}", other),
    }
}

#[test]
fn source_that_is_not_found_cannot_be_assembled() {
    let plan = plan(None, true, None);
    let mut conversion = FileConversion::new(1).unwrap();
    conversion.on_bytes(&[0, 0, 0]);
    match plan.directive(&conversion) {
        Directive::CannotAssemble => {}
        other => panic!("unexpected directive {:?}", other),
    }
    conversion.on_assembled(false);
    match plan.directive(&conversion) {
        Directive::Abandon { error, fatal, remove } => {
            assert_eq!(error, ConvertError::MergeFailed);
            assert!(!fatal);
            assert_eq!(remove, "/home/user/.temp_x/0");
        }
        other => panic!("unexpected directive {:?}", other),
    }
}

#[test]
fn pages_of_a_failed_file_are_dropped() {
    let plan = plan(Some("/home/user/doc.pdf"), false, None);
    let mut conversion = FileConversion::new(1).unwrap();
    conversion.on_bytes(&[2, 0, 0]);
    conversion.on_bytes(&[1, 0, 1, 0]);
    conversion.on_page_failed();
    conversion.on_bytes(&[3, 0, 2, 0]);
    match plan.directive(&conversion) {
        Directive::DiscardPage { length } => assert_eq!(length, 24),
        other => panic!("unexpected directive {:?}", other),
    }
    conversion.on_page_discarded();
    match plan.directive(&conversion) {
        Directive::Abandon { error, fatal, remove } => {
            assert_eq!(error, ConvertError::PageEncodingFailed);
            assert!(!fatal);
            assert_eq!(remove, "/home/user/.temp_x/0");
        }
        other => panic!("unexpected directive {:?}", other),
    }
}

#[test]
fn cap_breach_is_fatal_in_the_directive() {
    let plan = plan(Some("/home/user/doc.pdf"), false, None);
    let mut conversion = FileConversion::new(1).unwrap();
    conversion.on_bytes(&[0xff, 0xff, 0]);
    match plan.directive(&conversion) {
        Directive::Abandon { error, fatal, remove } => {
            assert_eq!(error, ConvertError::MaxPagesExceeded);
            assert!(fatal);
            assert_eq!(remove, "/home/user/.temp_x/0");
        }
        other => panic!("unexpected directive {:?}", other),
    }
}

fn document(pages: &[&str]) -> DocumentPlan {
    DocumentPlan {
        folder: "/s/0".to_string(),
        default_password: "toor".to_string(),
        entered: "hunter2".to_string(),
        pages: pages.iter().map(|p| p.to_string()).collect(),
    }
}

#[test]
fn jobs_of_a_protected_document() {
    let plan = document(&[]);
    let mut flow = DocumentFlow::office(true, false);
    match plan.job(&flow) {
        Job::ConvertToPdf { command, made, document } => {
            assert_eq!(command.program, "libreoffice");
            assert_eq!(made, "/s/0/to_convert.pdf");
            assert_eq!(document, "/s/0/to_convert");
        }
        other => panic!("unexpected job {:?}", other),
    }
    flow = flow.step(Report::Converted { made: false });
    match plan.job(&flow) {
        Job::StartServer { command, address } => {
            assert_eq!(
                command.arguments,
                vec!["--accept=socket,host=localhost,port=2202;urp", "--headless"]
            );
            assert_eq!(address, "127.0.0.1:2202");
        }
        other => panic!("unexpected job {:?}", other),
    }
    flow = flow.step(Report::Probed { up: true });
    match plan.job(&flow) {
        Job::Decrypt { command } => {
            assert_eq!(command.program, "python3");
            assert!(command.arguments[1].contains("password_property.Value = \"toor\""));
        }
        other => panic!("unexpected job {:?}", other),
    }
    flow = flow.step(Report::Decrypted { opened: false });
    match plan.job(&flow) {
        Job::Prompt { command } => assert_eq!(command.program, "zenity"),
        other => panic!("unexpected job {:?}", other),
    }
    flow = flow.step(Report::Password);
    match plan.job(&flow) {
        Job::Decrypt { command } => {
            assert!(command.arguments[1].contains("password_property.Value = \"hunter2\""));
        }
        other => panic!("unexpected job {:?}", other),
    }
    flow = flow.step(Report::Decrypted { opened: true });
    match plan.job(&flow) {
        Job::Rename { from, to } => {
            assert_eq!(from, "/s/0/to_convert.nopassword");
            assert_eq!(to, "/s/0/to_convert");
        }
        other => panic!("unexpected job {:?}", other),
    }
}

#[test]
fn jobs_of_a_pdf() {
    let plan = document(&["/s/0/pg_0001.pdf", "/s/0/pg_0002.pdf"]);
    let mut flow = DocumentFlow::pdf(true);
    match plan.job(&flow) {
        Job::Split { command, folder } => {
            assert_eq!(command.arguments, vec!["/s/0/to_convert", "input_pw", "toor", "burst"]);
            assert_eq!(folder, "/s/0");
        }
        other => panic!("unexpected job {:?}", other),
    }
    flow = flow.step(Report::Split { done: false });
    flow = flow.step(Report::Password);
    match plan.job(&flow) {
        Job::Split { command, .. } => {
            assert_eq!(command.arguments, vec!["/s/0/to_convert", "input_pw", "hunter2", "burst"]);
        }
        other => panic!("unexpected job {:?}", other),
    }
    flow = flow.step(Report::Split { done: true });
    match plan.job(&flow) {
        Job::ListPages { pattern } => assert_eq!(pattern, "/s/0/pg_*.pdf"),
        other => panic!("unexpected job {:?}", other),
    }
    flow = flow.step(Report::Listed { pages: 2 });
    match plan.job(&flow) {
        Job::StartRasterizer { page, command, folder } => {
            assert_eq!(page, 0);
            assert_eq!(command.arguments, vec!["/s/0/pg_0001.pdf", "-png", "-singlefile"]);
            assert_eq!(folder, "/s/0");
        }
        other => panic!("unexpected job {:?}", other),
    }
    flow = flow.step(Report::Started);
    flow = flow.step(Report::Started);
    match plan.job(&flow) {
        Job::WriteHeader { header } => assert_eq!(header, vec![2, 0, 0]),
        other => panic!("unexpected job {:?}", other),
    }
    flow = flow.step(Report::HeaderWritten);
    match plan.job(&flow) {
        Job::AwaitRasterizer { page } => assert_eq!(page, 0),
        other => panic!("unexpected job {:?}", other),
    }
    flow = flow.step(Report::Drawn { well: true });
    match plan.job(&flow) {
        Job::SendPage { page, image } => {
            assert_eq!(page, 0);
            assert_eq!(image, "/s/0/pg_0001.png");
        }
        other => panic!("unexpected job {:?}", other),
    }
    flow = flow.step(Report::Sent);
    flow = flow.step(Report::Drawn { well: true });
    match plan.job(&flow) {
        Job::SendPage { page, image } => {
            assert_eq!(page, 1);
            assert_eq!(image, "/s/0/pg_0002.png");
        }
        other => panic!("unexpected job {:?}", other),
    }
    flow = flow.step(Report::Sent);
    match plan.job(&flow) {
        Job::Finish => {}
        other => panic!("unexpected job {:?}", other),
    }
}

#[test]
fn page_that_was_not_listed_is_missing() {
    let plan = document(&[]);
    let mut flow = DocumentFlow::pdf(false).step(Report::Split { done: true });
    flow = flow.step(Report::Listed { pages: 1 });
    match plan.job(&flow) {
        Job::Missing => {}
        other => panic!("unexpected job {:?}", other),
    }
    flow = flow.step(Report::HelperFailed);
    match plan.job(&flow) {
        Job::GiveUp { error } => assert_eq!(error, ProducerError::Helper),
        other => panic!("unexpected job {:?}", other),
    }
}

#[test]
fn worker_pauses_before_it_looks_again() {
    let plan = document(&[]);
    let mut flow = DocumentFlow::office(false, true).step(Report::Converted { made: false });
    match plan.job(&flow) {
        Job::ProbeServer { pause_ms, address } => {
            assert_eq!(pause_ms, 0);
            assert_eq!(address, "127.0.0.1:2202");
        }
        other => panic!("unexpected job {:?}", other),
    }
    flow = flow.step(Report::Probed { up: false });
    match plan.job(&flow) {
        Job::ProbeServer { pause_ms, .. } => assert_eq!(pause_ms, 1_000),
        other => panic!("unexpected job {:?}", other),
    }
    let mut flow = DocumentFlow::pdf(false).step(Report::Split { done: true });
    flow = flow.step(Report::Listed { pages: 30 });
    for _ in 0..25 {
        flow = flow.step(Report::Started);
    }
    match plan.job(&flow) {
        Job::CountRasterizers { pause_ms } => assert_eq!(pause_ms, 0),
        other => panic!("unexpected job {:?}", other),
    }
    flow = flow.step(Report::Counted { running: 25 });
    match plan.job(&flow) {
        Job::CountRasterizers { pause_ms } => assert_eq!(pause_ms, 100),
        other => panic!("unexpected job {:?}", other),
    }
}
