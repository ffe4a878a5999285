use qubes_converter::conversion::{FileConversion, FileEvent, Phase, Request};
use qubes_converter::error::ConvertError;
use qubes_converter::events::ConvertEvent;
use qubes_converter::frame::PageSize;
use qubes_converter::output_type::OutputType;

fn size(width: u16, height: u16) -> PageSize {
    PageSize { width, height }
}

#[test]
fn no_conversion_without_an_encoder() {
    assert!(FileConversion::new(0).is_none());
    assert!(FileConversion::new(1).is_some());
}

#[test]
fn image_in_place_reports_the_four_events() {
    // one picture: header, one page, assembly, retirement
    let mut conversion = FileConversion::new(1).unwrap();
    let mut told = vec![ConvertEvent::queued("a.png")];
    assert_eq!(conversion.request(), Request::ReadFileHeader);
    let events = conversion.on_bytes(&[1, 0, 1]);
    told.extend(ConvertEvent::all_for_file("a.png", &events));
    assert_eq!(conversion.request(), Request::ReadPageHeader);
    let events = conversion.on_bytes(&[2, 0, 3, 0]);
    assert!(events.is_empty());
    assert_eq!(conversion.request(), Request::ReceivePage { page: 0, size: size(2, 3) });
    let events = conversion.on_page_started();
    assert!(events.is_empty());
    assert_eq!(conversion.request(), Request::Await { page: 0 });
    let events = conversion.on_polled(&[0]);
    told.extend(ConvertEvent::all_for_file("a.png", &events));
    assert_eq!(
        conversion.request(),
        Request::Assemble { output_type: OutputType::Image, number_pages: 1 }
    );
    let events = conversion.on_assembled(true);
    told.extend(ConvertEvent::all_for_file("a.png", &events));
    assert_eq!(conversion.request(), Request::Retire);
    let events = conversion.on_retired(true);
    assert!(events.is_empty());
    assert_eq!(conversion.request(), Request::Finished);
    assert_eq!(conversion.phase(), Phase::Done);
    assert_eq!(
        told,
        vec![
            ConvertEvent::FileToConvert { file: "a.png".to_string() },
            ConvertEvent::FileInfo {
                output_type: OutputType::Image,
                number_pages: 1,
                file: "a.png".to_string()
            },
            ConvertEvent::PageConverted { file: "a.png".to_string(), page: 0 },
            ConvertEvent::FileConverted { file: "a.png".to_string() },
        ]
    );
}

#[test]
fn three_page_document_reports_three_pages_then_completion() {
    let mut conversion = FileConversion::new(4).unwrap();
    let mut events = conversion.on_bytes(&[3, 0, 0]);
    for _ in 0..3 {
        assert_eq!(conversion.request(), Request::ReadPageHeader);
        events.extend(conversion.on_bytes(&[10, 0, 10, 0]));
        events.extend(conversion.on_page_started());
    }
    assert_eq!(conversion.encoders_in_flight(), 3);
    assert_eq!(conversion.request(), Request::Await { page: 0 });
    // encoders end in another order than they were started
    events.extend(conversion.on_polled(&[2]));
    assert_eq!(conversion.request(), Request::Await { page: 0 });
    events.extend(conversion.on_polled(&[0, 1]));
    assert_eq!(
        conversion.request(),
        Request::Assemble { output_type: OutputType::Pdf, number_pages: 3 }
    );
    events.extend(conversion.on_assembled(true));
    events.extend(conversion.on_retired(true));
    assert_eq!(
        events,
        vec![
            FileEvent::Info { output_type: OutputType::Pdf, number_pages: 3 },
            FileEvent::PageConverted { page: 2 },
            FileEvent::PageConverted { page: 0 },
            FileEvent::PageConverted { page: 1 },
            FileEvent::Converted,
        ]
    );
    assert_eq!(conversion.converted_pages(), vec![2, 0, 1]);
    assert_eq!(conversion.phase(), Phase::Done);
    assert_eq!(conversion.failure(), None);
}

#[test]
fn page_count_over_the_cap_ends_the_session() {
    let mut conversion = FileConversion::new(2).unwrap();
    let events = conversion.on_bytes(&[0xff, 0xff, 0]);
    assert_eq!(events, vec![FileEvent::Failure { error: ConvertError::MaxPagesExceeded }]);
    assert_eq!(
        conversion.request(),
        Request::Abandon { error: ConvertError::MaxPagesExceeded, fatal: true }
    );
    let told = ConvertEvent::all_for_file("f", &events);
    assert_eq!(
        told,
        vec![ConvertEvent::Failure {
            file: "f".to_string(),
            message: "Max page number exceeded: Probably DOS attempt".to_string()
        }]
    );
    // nothing is asked or reported after the failure
    assert!(conversion.on_bytes(&[1, 0, 0]).is_empty());
    assert!(conversion.on_page_started().is_empty());
    assert!(conversion.on_assembled(true).is_empty());
    assert_eq!(conversion.phase(), Phase::Failed);
}

#[test]
fn page_width_over_the_cap_ends_the_session() {
    let mut conversion = FileConversion::new(2).unwrap();
    conversion.on_bytes(&[2, 0, 0]);
    // width 20000, height 1
    let events = conversion.on_bytes(&[0x20, 0x4e, 1, 0]);
    assert_eq!(events, vec![FileEvent::Failure { error: ConvertError::MaxImageSizeExceeded }]);
    assert_eq!(
        conversion.request(),
        Request::Abandon { error: ConvertError::MaxImageSizeExceeded, fatal: true }
    );
    assert_eq!(
        ConvertEvent::for_file("f", events[0]),
        ConvertEvent::Failure {
            file: "f".to_string(),
            message: "Max image size exceeded: Probably DOS attempt".to_string()
        }
    );
}

#[test]
fn image_with_two_pages_fails_without_output() {
    let mut conversion = FileConversion::new(2).unwrap();
    let events = conversion.on_bytes(&[2, 0, 1]);
    assert_eq!(events, vec![FileEvent::Failure { error: ConvertError::ImageNotOnePage }]);
    assert_eq!(
        conversion.request(),
        Request::Abandon { error: ConvertError::ImageNotOnePage, fatal: true }
    );
    assert!(conversion.on_polled(&[0]).is_empty());
    assert!(conversion.on_assembled(true).is_empty());
    assert_eq!(conversion.phase(), Phase::Failed);
}

#[test]
fn unknown_output_kind_fails_the_file() {
    let mut conversion = FileConversion::new(2).unwrap();
    let events = conversion.on_bytes(&[1, 0, 9]);
    assert_eq!(events, vec![FileEvent::Failure { error: ConvertError::ImpossibleOutputType }]);
}

#[test]
fn never_more_encoders_than_allowed() {
    // five pages, two encoders at most
    let mut conversion = FileConversion::new(2).unwrap();
    let mut events = conversion.on_bytes(&[5, 0, 0]);
    let mut most = 0;
    let mut started = 0;
    let mut polls = 0;
    loop {
        assert!(conversion.encoders_in_flight() <= 2);
        most = most.max(conversion.encoders_in_flight());
        match conversion.request() {
            Request::ReadPageHeader => {
                assert!(conversion.encoders_in_flight() < 2);
                events.extend(conversion.on_bytes(&[1, 0, 1, 0]));
            }
            Request::ReceivePage { page, .. } => {
                assert_eq!(page, started);
                assert!(conversion.encoders_in_flight() < 2);
                started += 1;
                events.extend(conversion.on_page_started());
            }
            Request::Poll { sleep_first } => {
                assert_eq!(conversion.encoders_in_flight(), 2);
                polls += 1;
                if polls % 2 == 1 {
                    // nothing has ended yet: the next poll comes after a pause
                    assert!(!sleep_first);
                    events.extend(conversion.on_polled(&[]));
                    assert_eq!(conversion.request(), Request::Poll { sleep_first: true });
                } else {
                    assert!(sleep_first);
                    let newest = started - 1;
                    events.extend(conversion.on_polled(&[newest]));
                }
            }
            Request::Await { page } => {
                events.extend(conversion.on_polled(&[page]));
            }
            Request::Assemble { output_type, number_pages } => {
                assert_eq!(output_type, OutputType::Pdf);
                assert_eq!(number_pages, 5);
                events.extend(conversion.on_assembled(true));
            }
            Request::Retire => events.extend(conversion.on_retired(true)),
            Request::Finished => break,
            other => panic!("unexpected request {:?}", other),
        }
    }
    assert_eq!(most, 2);
    assert_eq!(started, 5);
    assert_eq!(events.len(), 7);
    assert_eq!(events[0], FileEvent::Info { output_type: OutputType::Pdf, number_pages: 5 });
    assert_eq!(events[6], FileEvent::Converted);
    let mut pages: Vec<u16> = conversion.converted_pages();
    pages.sort();
    assert_eq!(pages, vec![0, 1, 2, 3, 4]);
}

#[test]
fn a_page_is_reported_once() {
    let mut conversion = FileConversion::new(3).unwrap();
    conversion.on_bytes(&[2, 0, 0]);
    conversion.on_bytes(&[1, 0, 1, 0]);
    conversion.on_page_started();
    conversion.on_bytes(&[1, 0, 1, 0]);
    conversion.on_page_started();
    // page 0 twice, and a page that was never started
    let events = conversion.on_polled(&[0, 0, 7]);
    assert_eq!(events, vec![FileEvent::PageConverted { page: 0 }]);
    assert_eq!(conversion.request(), Request::Await { page: 1 });
    let events = conversion.on_polled(&[0]);
    assert!(events.is_empty());
    let events = conversion.on_polled(&[1]);
    assert_eq!(events, vec![FileEvent::PageConverted { page: 1 }]);
}

#[test]
fn document_without_pages_goes_straight_to_assembly() {
    let mut conversion = FileConversion::new(1).unwrap();
    let events = conversion.on_bytes(&[0, 0, 0]);
    assert_eq!(events, vec![FileEvent::Info { output_type: OutputType::Pdf, number_pages: 0 }]);
    assert_eq!(
        conversion.request(),
        Request::Assemble { output_type: OutputType::Pdf, number_pages: 0 }
    );
}

#[test]
fn broken_stream_fails_the_file_and_the_session() {
    let mut conversion = FileConversion::new(1).unwrap();
    let events = conversion.on_transport_error();
    assert_eq!(events, vec![FileEvent::Failure { error: ConvertError::TransportBroken }]);
    let mut conversion = FileConversion::new(1).unwrap();
    conversion.on_bytes(&[1, 0, 0]);
    // a header that comes short
    let events = conversion.on_bytes(&[1, 0]);
    assert_eq!(events, vec![FileEvent::Failure { error: ConvertError::TransportBroken }]);
    let mut conversion = FileConversion::new(1).unwrap();
    conversion.on_bytes(&[1, 0, 0]);
    conversion.on_bytes(&[1, 0, 1, 0]);
    let events = conversion.on_transport_error();
    assert_eq!(events, vec![FileEvent::Failure { error: ConvertError::TransportBroken }]);
    assert_eq!(
        conversion.request(),
        Request::Abandon { error: ConvertError::TransportBroken, fatal: true }
    );
}

#[test]
fn failed_merge_fails_the_file_only() {
    let mut conversion = FileConversion::new(1).unwrap();
    conversion.on_bytes(&[1, 0, 0]);
    conversion.on_bytes(&[1, 0, 1, 0]);
    conversion.on_page_started();
    conversion.on_polled(&[0]);
    let events = conversion.on_assembled(false);
    assert_eq!(events, vec![FileEvent::Failure { error: ConvertError::MergeFailed }]);
    assert_eq!(
        conversion.request(),
        Request::Abandon { error: ConvertError::MergeFailed, fatal: false }
    );
}

#[test]
fn failed_archive_is_reported_after_completion() {
    let mut conversion = FileConversion::new(1).unwrap();
    let mut events = conversion.on_bytes(&[1, 0, 1]);
    events.extend(conversion.on_bytes(&[1, 0, 1, 0]));
    events.extend(conversion.on_page_started());
    events.extend(conversion.on_polled(&[0]));
    events.extend(conversion.on_assembled(true));
    events.extend(conversion.on_retired(false));
    assert_eq!(
        events,
        vec![
            FileEvent::Info { output_type: OutputType::Image, number_pages: 1 },
            FileEvent::PageConverted { page: 0 },
            FileEvent::Converted,
            FileEvent::Failure { error: ConvertError::Filesystem },
        ]
    );
    assert_eq!(
        conversion.request(),
        Request::Abandon { error: ConvertError::Filesystem, fatal: false }
    );
}

#[test]
fn page_that_cannot_be_stored_fails_the_file_only() {
    let mut conversion = FileConversion::new(2).unwrap();
    conversion.on_bytes(&[3, 0, 0]);
    conversion.on_bytes(&[1, 0, 1, 0]);
    conversion.on_page_started();
    conversion.on_bytes(&[1, 0, 1, 0]);
    let events = conversion.on_page_failed();
    assert_eq!(events, vec![FileEvent::Failure { error: ConvertError::PageEncodingFailed }]);
    // the last page is still read, and dropped
    assert_eq!(conversion.phase(), Phase::SkipHeader);
    assert_eq!(conversion.request(), Request::ReadPageHeader);
    assert!(conversion.on_bytes(&[2, 0, 5, 0]).is_empty());
    assert_eq!(
        conversion.request(),
        Request::DiscardPage { size: size(2, 5) }
    );
    // nothing is reported of the file any more
    assert!(conversion.on_polled(&[0]).is_empty());
    assert!(conversion.on_page_started().is_empty());
    assert!(conversion.on_page_discarded().is_empty());
    assert_eq!(
        conversion.request(),
        Request::Abandon { error: ConvertError::PageEncodingFailed, fatal: false }
    );
    assert_eq!(conversion.phase(), Phase::Failed);
}

#[test]
fn last_page_that_cannot_be_stored_fails_at_once() {
    let mut conversion = FileConversion::new(1).unwrap();
    conversion.on_bytes(&[1, 0, 0]);
    conversion.on_bytes(&[1, 0, 1, 0]);
    let events = conversion.on_page_failed();
    assert_eq!(events, vec![FileEvent::Failure { error: ConvertError::PageEncodingFailed }]);
    assert_eq!(
        conversion.request(),
        Request::Abandon { error: ConvertError::PageEncodingFailed, fatal: false }
    );
}

#[test]
fn cap_breach_while_pages_are_passed_over_ends_the_session() {
    let mut conversion = FileConversion::new(1).unwrap();
    conversion.on_bytes(&[4, 0, 0]);
    conversion.on_bytes(&[1, 0, 1, 0]);
    let events = conversion.on_page_failed();
    assert_eq!(events.len(), 1);
    assert!(conversion.on_bytes(&[1, 0, 1, 0]).is_empty());
    assert!(conversion.on_page_discarded().is_empty());
    // the next page breaks the cap: the file has failed already, so nothing
    // more is reported, but the session cannot go on
    assert!(conversion.on_bytes(&[0x20, 0x4e, 1, 0]).is_empty());
    assert_eq!(
        conversion.request(),
        Request::Abandon { error: ConvertError::PageEncodingFailed, fatal: true }
    );
    let mut conversion = FileConversion::new(1).unwrap();
    conversion.on_bytes(&[4, 0, 0]);
    conversion.on_bytes(&[1, 0, 1, 0]);
    conversion.on_page_failed();
    assert!(conversion.on_transport_error().is_empty());
    assert_eq!(
        conversion.request(),
        Request::Abandon { error: ConvertError::PageEncodingFailed, fatal: true }
    );
}

#[test]
fn encoder_that_ends_badly_fails_the_file_only() {
    // while pages are still due
    let mut conversion = FileConversion::new(1).unwrap();
    conversion.on_bytes(&[2, 0, 0]);
    conversion.on_bytes(&[1, 0, 1, 0]);
    conversion.on_page_started();
    assert_eq!(conversion.request(), Request::Poll { sleep_first: false });
    // a page without an encoder in flight changes nothing
    assert!(conversion.on_encoder_failed(1).is_empty());
    assert_eq!(conversion.request(), Request::Poll { sleep_first: false });
    let events = conversion.on_encoder_failed(0);
    assert_eq!(events, vec![FileEvent::Failure { error: ConvertError::PageEncodingFailed }]);
    assert_eq!(conversion.request(), Request::ReadPageHeader);
    conversion.on_bytes(&[1, 0, 1, 0]);
    conversion.on_page_discarded();
    assert_eq!(
        conversion.request(),
        Request::Abandon { error: ConvertError::PageEncodingFailed, fatal: false }
    );
    // after the last page
    let mut conversion = FileConversion::new(2).unwrap();
    conversion.on_bytes(&[1, 0, 0]);
    conversion.on_bytes(&[1, 0, 1, 0]);
    conversion.on_page_started();
    assert_eq!(conversion.request(), Request::Await { page: 0 });
    let events = conversion.on_encoder_failed(0);
    assert_eq!(events, vec![FileEvent::Failure { error: ConvertError::PageEncodingFailed }]);
    assert_eq!(
        conversion.request(),
        Request::Abandon { error: ConvertError::PageEncodingFailed, fatal: false }
    );
}

#[test]
fn reports_out_of_turn_change_nothing() {
    let mut conversion = FileConversion::new(1).unwrap();
    assert!(conversion.on_page_started().is_empty());
    assert!(conversion.on_polled(&[0]).is_empty());
    assert!(conversion.on_assembled(true).is_empty());
    assert!(conversion.on_retired(true).is_empty());
    assert!(conversion.on_page_failed().is_empty());
    assert!(conversion.on_page_discarded().is_empty());
    assert!(conversion.on_encoder_failed(0).is_empty());
    assert_eq!(conversion.request(), Request::ReadFileHeader);
    assert_eq!(conversion.phase(), Phase::Header);
}

/// A small generator of numbers that looks random and is the same at every
/// run.
struct Dice(u64);

impl Dice {
    fn roll(&mut self, sides: u64) -> u64 {
        self.0 = self.0.wrapping_mul(6364136223846793005).wrapping_add(1442695040888963407);
        (self.0 >> 33) % sides
    }
}

fn check_order(events: &[FileEvent]) {
    let mut pages = None;
    let mut converted: Vec<u16> = Vec::new();
    let mut completed = false;
    let mut failed = false;
    for (index, event) in events.iter().enumerate() {
        assert!(!failed, "an event follows a failure");
        match event {
            FileEvent::Info { output_type, number_pages } => {
                assert_eq!(index, 0);
                assert!(*number_pages <= 10_000);
                if *output_type == OutputType::Image {
                    assert_eq!(*number_pages, 1);
                }
                pages = Some(*number_pages);
            }
            FileEvent::PageConverted { page } => {
                assert!(!completed);
                assert!(*page < pages.unwrap());
                assert!(!converted.contains(page));
                converted.push(*page);
            }
            FileEvent::Converted => {
                assert!(!completed);
                assert_eq!(converted.len(), usize::from(pages.unwrap()));
                completed = true;
            }
            FileEvent::Failure { .. } => failed = true,
        }
    }
}

#[test]
fn events_keep_their_order_whatever_is_reported() {
    let mut dice = Dice(2202);
    for round in 0..400 {
        let capacity = 1 + (round % 4) as u8;
        let mut conversion = FileConversion::new(capacity).unwrap();
        let mut events = Vec::new();
        for _ in 0..60 {
            assert!(conversion.encoders_in_flight() <= usize::from(capacity));
            let page = dice.roll(6) as u16;
            let told = match dice.roll(12) {
                0 => conversion.on_bytes(&[dice.roll(5) as u8, 0, dice.roll(3) as u8]),
                1 | 2 => conversion.on_bytes(&[dice.roll(4) as u8, dice.roll(60) as u8, 1, 0]),
                3 | 4 => conversion.on_page_started(),
                5 | 6 => conversion.on_polled(&[page, dice.roll(6) as u16]),
                7 => conversion.on_assembled(dice.roll(4) > 0),
                8 => conversion.on_retired(dice.roll(4) > 0),
                9 => conversion.on_page_discarded(),
                10 => match dice.roll(3) {
                    0 => conversion.on_page_failed(),
                    1 => conversion.on_encoder_failed(page),
                    _ => conversion.on_transport_error(),
                },
                _ => match conversion.request() {
                    Request::ReadFileHeader => conversion.on_bytes(&[3, 0, 0]),
                    Request::ReadPageHeader => conversion.on_bytes(&[2, 0, 2, 0]),
                    Request::ReceivePage { .. } => conversion.on_page_started(),
                    Request::DiscardPage { .. } => conversion.on_page_discarded(),
                    Request::Poll { .. } => conversion.on_polled(&conversion.pages_in_flight()),
                    Request::Await { page } => conversion.on_polled(&[page]),
                    Request::Assemble { .. } => conversion.on_assembled(true),
                    Request::Retire => conversion.on_retired(true),
                    Request::Finished | Request::Abandon { .. } => Vec::new(),
                },
            };
            events.extend(told);
            check_order(&events);
            if let Request::Abandon { error, fatal } = conversion.request() {
                if error.is_fatal() {
                    assert!(fatal);
                }
                assert_eq!(conversion.failure(), Some(error));
            }
        }
        if conversion.phase() == Phase::Done {
            assert_eq!(events.last(), Some(&FileEvent::Converted));
            assert_eq!(conversion.failure(), None);
        }
    }
}
