use qubes_converter::naming::{
    archive_file_path, archive_folder, archive_folder_in_home, default_archive_in,
    file_scratch_dir, page_artifact,
    page_base, page_pdf_path, page_png_path, session_scratch_dir, split_source_path,
    trusted_output_path,
};
use qubes_converter::output_type::OutputType;
use qubes_converter::tools::{
    assemble_action, encoder_command, list_languages_command, merge_command, page_artifacts,
    retire_actions, worker_command, FileAction,
};

fn parts(path: &str) -> Option<(String, String, String)> {
    split_source_path(path).map(|p| (p.directory, p.stem, p.extension))
}

fn three(a: &str, b: &str, c: &str) -> Option<(String, String, String)> {
    Some((a.to_string(), b.to_string(), c.to_string()))
}

#[test]
fn source_path_is_split_at_the_last_slash_and_dot() {
    assert_eq!(parts("/home/user/doc.pdf"), three("/home/user", "doc", "pdf"));
    assert_eq!(parts("/home/user/archive.tar.gz"), three("/home/user", "archive.tar", "gz"));
    assert_eq!(parts("/home/user/README"), three("/home/user", "README", ""));
    assert_eq!(parts("/home/user/.bashrc"), three("/home/user", ".bashrc", ""));
    assert_eq!(parts("/home/user/name."), three("/home/user", "name", ""));
    assert_eq!(parts("/a.png"), three("/", "a", "png"));
    assert_eq!(parts("/home/us.er/file"), three("/home/us.er", "file", ""));
    assert_eq!(parts("/tmp/r\u{e9}sum\u{e9}.odt"), three("/tmp", "r\u{e9}sum\u{e9}", "odt"));
}

#[test]
fn what_names_no_file_has_no_parts() {
    assert_eq!(parts(""), None);
    assert_eq!(parts("doc.pdf"), None);
    assert_eq!(parts("/home/user/"), None);
    assert_eq!(parts("/"), None);
    assert_eq!(parts("/home/.."), None);
    assert_eq!(parts("/home/."), None);
}

#[test]
fn trusted_output_stands_beside_the_source() {
    let source = split_source_path("/home/user/a.png").unwrap();
    assert_eq!(trusted_output_path(&source, OutputType::Image), "/home/user/a.trusted.png");
    let source = split_source_path("/home/user/doc.pdf").unwrap();
    assert_eq!(trusted_output_path(&source, OutputType::Pdf), "/home/user/doc.trusted.pdf");
    let source = split_source_path("/home/user/enc.odt").unwrap();
    assert_eq!(trusted_output_path(&source, OutputType::Pdf), "/home/user/enc.trusted.pdf");
}

#[test]
fn original_goes_to_the_archive_under_its_name() {
    let source = split_source_path("/home/user/doc.pdf").unwrap();
    assert_eq!(archive_file_path("/tmp/arc/", &source), "/tmp/arc/doc.pdf");
    assert_eq!(archive_folder("/tmp/arc"), "/tmp/arc/");
    assert_eq!(archive_folder_in_home("/home/user"), "/home/user/QubesUntrusted/");
    assert_eq!(
        default_archive_in(Some("/home/user".to_string())),
        Some("/home/user/QubesUntrusted/".to_string())
    );
    assert_eq!(default_archive_in(Some(String::new())), Some("/QubesUntrusted/".to_string()));
    assert_eq!(default_archive_in(None), None);
    let bare = split_source_path("/home/user/README").unwrap();
    assert_eq!(archive_file_path("/tmp/arc/", &bare), "/tmp/arc/README.");
}

#[test]
fn scratch_names() {
    assert_eq!(session_scratch_dir("abc"), "/home/user/.temp_qubes_convert_abc");
    assert_eq!(file_scratch_dir("/home/user/.temp_x", 0), "/home/user/.temp_x/0");
    assert_eq!(file_scratch_dir("/home/user/.temp_x", 12), "/home/user/.temp_x/12");
    assert_eq!(page_base("/s/0", 3), "/s/0.3");
    assert_eq!(page_base("/s/0", 9999), "/s/0.9999");
    assert_eq!(page_png_path("/s/0.3"), "/s/0.3.png");
    assert_eq!(page_pdf_path("/s/0.3"), "/s/0.3.pdf");
    assert_eq!(page_artifact(OutputType::Image, "/s/0", 0), "/s/0.0.png");
    assert_eq!(page_artifact(OutputType::Pdf, "/s/0", 10), "/s/0.10.pdf");
}

#[test]
fn encoder_of_a_page() {
    assert!(encoder_command(OutputType::Image, &None, "/s/0.0").is_none());
    assert!(encoder_command(OutputType::Image, &Some("eng".to_string()), "/s/0.0").is_none());
    let plain = encoder_command(OutputType::Pdf, &None, "/s/0.1").unwrap();
    assert_eq!(plain.program, "gm");
    assert_eq!(plain.arguments, vec!["convert", "/s/0.1.png", "/s/0.1.pdf"]);
    let ocr = encoder_command(OutputType::Pdf, &Some("eng".to_string()), "/s/0.1").unwrap();
    assert_eq!(ocr.program, "tesseract");
    assert_eq!(ocr.arguments, vec!["/s/0.1.png", "/s/0.1", "-l", "eng", "--dpi", "70", "pdf"]);
}

#[test]
fn pages_are_merged_in_the_order_of_their_index() {
    assert_eq!(
        page_artifacts(OutputType::Pdf, "/s/4", 3),
        vec!["/s/4.0.pdf", "/s/4.1.pdf", "/s/4.2.pdf"]
    );
    let merge = merge_command("/s/4", 3, "/home/user/doc.trusted.pdf");
    assert_eq!(merge.program, "pdftk");
    assert_eq!(
        merge.arguments,
        vec![
            "/s/4.0.pdf",
            "/s/4.1.pdf",
            "/s/4.2.pdf",
            "cat",
            "output",
            "/home/user/doc.trusted.pdf"
        ]
    );
    let twelve = page_artifacts(OutputType::Pdf, "/s/0", 12);
    assert_eq!(twelve.len(), 12);
    assert_eq!(twelve[9], "/s/0.9.pdf");
    assert_eq!(twelve[10], "/s/0.10.pdf");
    assert_eq!(twelve[11], "/s/0.11.pdf");
}

#[test]
fn trusted_output_is_a_copy_or_a_merge() {
    match assemble_action(OutputType::Image, "/s/0", 1, "/home/user/a.trusted.png") {
        FileAction::Copy { from, to } => {
            assert_eq!(from, "/s/0.0.png");
            assert_eq!(to, "/home/user/a.trusted.png");
        }
        other => panic!("unexpected action {:?}", other),
    }
    match assemble_action(OutputType::Pdf, "/s/0", 2, "/home/user/d.trusted.pdf") {
        FileAction::Run { command } => {
            assert_eq!(command.program, "pdftk");
            assert_eq!(
                command.arguments,
                vec!["/s/0.0.pdf", "/s/0.1.pdf", "cat", "output", "/home/user/d.trusted.pdf"]
            );
        }
        other => panic!("unexpected action {:?}", other),
    }
}

#[test]
fn source_is_archived_before_it_is_removed() {
    let steps = retire_actions(false, "/home/user/doc.pdf", "/tmp/arc/doc.pdf");
    assert_eq!(steps.len(), 2);
    match &steps[0] {
        FileAction::Copy { from, to } => {
            assert_eq!(from, "/home/user/doc.pdf");
            assert_eq!(to, "/tmp/arc/doc.pdf");
        }
        other => panic!("unexpected action {:?}", other),
    }
    match &steps[1] {
        FileAction::Remove { path } => assert_eq!(path, "/home/user/doc.pdf"),
        other => panic!("unexpected action {:?}", other),
    }
    let steps = retire_actions(true, "/home/user/a.png", "/unused/a.png");
    assert_eq!(steps.len(), 1);
    match &steps[0] {
        FileAction::Remove { path } => assert_eq!(path, "/home/user/a.png"),
        other => panic!("unexpected action {:?}", other),
    }
}

#[test]
fn commands_of_the_client() {
    let worker = worker_command();
    assert_eq!(worker.program, "/usr/bin/qrexec-client-vm");
    assert_eq!(worker.arguments, vec!["@dispvm", "qubes.Convert"]);
    let languages = list_languages_command();
    assert_eq!(languages.program, "tesseract");
    assert_eq!(languages.arguments, vec!["--list-langs"]);
}
