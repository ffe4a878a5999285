use qubes_converter::error::ConvertError;
use qubes_converter::events::{ConvertEvent, ConvertParameters};
use qubes_converter::session::{
    check_parameters, default_archive_folder, machine_page_parallelism, new_session_scratch,
    page_parallelism, ParameterError, Session,
};

fn names(files: &[&str]) -> Vec<String> {
    files.iter().map(|f| f.to_string()).collect()
}

#[test]
fn files_are_begun_in_the_order_of_the_list() {
    let mut session = Session::new(names(&["a.png", "doc.pdf", "enc.odt"]));
    assert_eq!(session.number_files(), 3);
    assert_eq!(session.next_file(), Some((0, "a.png".to_string())));
    // one file at a time
    assert_eq!(session.next_file(), None);
    assert!(session.finish_file(None, false).is_empty());
    assert_eq!(session.next_file(), Some((1, "doc.pdf".to_string())));
    assert!(session.finish_file(None, false).is_empty());
    assert_eq!(session.next_file(), Some((2, "enc.odt".to_string())));
    assert!(session.finish_file(None, false).is_empty());
    assert_eq!(session.next_file(), None);
    assert_eq!(session.exit_code(), 0);
    assert!(session.unconverted_files().is_empty());
    assert!(!session.is_aborted());
}

#[test]
fn failure_of_one_file_lets_the_session_go_on() {
    let mut session = Session::new(names(&["a.pdf", "b.pdf"]));
    session.next_file();
    assert!(session.finish_file(Some(ConvertError::MergeFailed), false).is_empty());
    assert!(!session.is_aborted());
    assert_eq!(session.next_file(), Some((1, "b.pdf".to_string())));
    session.finish_file(None, false);
    assert_eq!(session.exit_code(), 1);
    assert_eq!(session.unconverted_files(), names(&["a.pdf"]));
}

#[test]
fn cap_breach_ends_the_session_for_all_later_files() {
    let mut session = Session::new(names(&["a.pdf", "b.pdf", "c.pdf", "d.pdf"]));
    session.next_file();
    session.finish_file(None, false);
    session.next_file();
    let events = session.finish_file(Some(ConvertError::MaxPagesExceeded), true);
    assert_eq!(
        events,
        vec![
            ConvertEvent::Failure {
                file: "c.pdf".to_string(),
                message: "Max page number exceeded: Probably DOS attempt".to_string()
            },
            ConvertEvent::Failure {
                file: "d.pdf".to_string(),
                message: "Max page number exceeded: Probably DOS attempt".to_string()
            },
        ]
    );
    assert!(session.is_aborted());
    assert_eq!(session.next_file(), None);
    assert_eq!(session.exit_code(), 1);
    assert_eq!(session.unconverted_files(), names(&["b.pdf", "c.pdf", "d.pdf"]));
}

#[test]
fn outcome_without_a_conversion_changes_nothing() {
    let mut session = Session::new(names(&["a.pdf"]));
    assert!(session.finish_file(Some(ConvertError::TransportBroken), true).is_empty());
    assert!(!session.is_aborted());
    assert_eq!(session.next_file(), Some((0, "a.pdf".to_string())));
    session.finish_file(None, false);
    assert!(session.finish_file(Some(ConvertError::TransportBroken), true).is_empty());
    assert_eq!(session.exit_code(), 0);
}

#[test]
fn page_failure_out_of_step_ends_the_session() {
    let mut session = Session::new(names(&["a.pdf", "b.pdf"]));
    session.next_file();
    let events = session.finish_file(Some(ConvertError::PageEncodingFailed), true);
    assert_eq!(
        events,
        vec![ConvertEvent::Failure {
            file: "b.pdf".to_string(),
            message: "Unable to convert a page received from the server".to_string()
        }]
    );
    assert!(session.is_aborted());
    let mut session = Session::new(names(&["a.pdf", "b.pdf"]));
    session.next_file();
    assert!(session.finish_file(Some(ConvertError::PageEncodingFailed), false).is_empty());
    assert!(!session.is_aborted());
}

#[test]
fn session_without_files_succeeds() {
    let mut session = Session::new(Vec::new());
    assert_eq!(session.next_file(), None);
    assert_eq!(session.exit_code(), 0);
}

#[test]
fn unfinished_session_has_not_succeeded() {
    let mut session = Session::new(names(&["a.pdf", "b.pdf"]));
    assert_eq!(session.exit_code(), 1);
    assert_eq!(session.unconverted_files(), names(&["a.pdf", "b.pdf"]));
    session.next_file();
    session.finish_file(None, false);
    assert_eq!(session.exit_code(), 1);
    assert_eq!(session.unconverted_files(), names(&["b.pdf"]));
}

#[test]
fn parallelism_follows_the_machine_unless_text_is_recognised() {
    assert_eq!(page_parallelism(1, true, 16), Some(1));
    assert_eq!(page_parallelism(3, true, 1), Some(3));
    assert_eq!(page_parallelism(0, true, 8), Some(0));
    assert_eq!(page_parallelism(1, false, 16), Some(16));
    assert_eq!(page_parallelism(200, false, 255), Some(255));
    assert_eq!(page_parallelism(1, false, 256), None);
}

fn parameters(ocr: Option<&str>, parallel: u8) -> ConvertParameters {
    ConvertParameters {
        files: Vec::new(),
        in_place: false,
        archive: None,
        default_password: String::new(),
        max_pages_converted_in_parallele: parallel,
        ocr: ocr.map(|l| l.to_string()),
        stderr: false,
    }
}

#[test]
fn parallelism_on_this_machine() {
    assert_eq!(machine_page_parallelism(&parameters(Some("eng"), 2)), Some(2));
    match machine_page_parallelism(&parameters(None, 2)) {
        Some(allowed) => assert!(allowed >= 1),
        None => {}
    }
}

#[test]
fn session_scratch_has_a_fresh_name() {
    let first = new_session_scratch();
    let second = new_session_scratch();
    assert_ne!(first, second);
    let prefix = "/home/user/.temp_qubes_convert_";
    assert!(first.starts_with(prefix));
    let id = &first[prefix.len()..];
    assert_eq!(id.len(), 36);
    for (i, c) in id.chars().enumerate() {
        if i == 8 || i == 13 || i == 18 || i == 23 {
            assert_eq!(c, '-');
        } else {
            assert!(c.is_ascii_digit() || ('a'..='f').contains(&c));
        }
    }
}

#[test]
fn default_archive_is_in_the_home() {
    match default_archive_folder() {
        Some(folder) => {
            assert!(folder.ends_with("/QubesUntrusted/"));
        }
        None => {}
    }
}

#[test]
fn parameters_are_checked_before_a_session() {
    assert_eq!(check_parameters(&parameters(None, 1)), Ok(()));
    assert_eq!(check_parameters(&parameters(None, 0)), Ok(()));
    assert_eq!(check_parameters(&parameters(Some("eng"), 1)), Ok(()));
    assert_eq!(check_parameters(&parameters(Some("eng"), 0)), Err(ParameterError::NoEncoder));
    let mut with_password = parameters(None, 1);
    with_password.default_password = "toor".to_string();
    assert_eq!(check_parameters(&with_password), Ok(()));
    with_password.default_password = "to\nor".to_string();
    assert_eq!(check_parameters(&with_password), Err(ParameterError::PasswordIsNoLine));
    with_password.default_password = "toor\r".to_string();
    assert_eq!(check_parameters(&with_password), Err(ParameterError::PasswordIsNoLine));
    let mut many = parameters(Some("eng"), 0);
    many.files = vec![String::new(); 65_536];
    assert_eq!(check_parameters(&many), Err(ParameterError::TooManyFiles));
    many.files.pop();
    assert_eq!(check_parameters(&many), Err(ParameterError::NoEncoder));
    many.max_pages_converted_in_parallele = 1;
    assert_eq!(check_parameters(&many), Ok(()));
}
