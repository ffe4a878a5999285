//! What a user interface hands to the converter, and what it is told while
//! the files are converted.

use crate::conversion::FileEvent;
use crate::output_type::OutputType;
use vstd::prelude::*;
use vstd::string::StringExecFns;

verus! {

/// What is to be converted, and how.
#[derive(Debug, Clone, PartialEq, Eq)]
pub struct ConvertParameters {
    /// The files to convert, in the order in which they are sent.
    pub files: Vec<String>,
    /// Whether the sources are removed rather than archived.
    pub in_place: bool,
    /// Where the sources are archived; the default folder if absent.
    pub archive: Option<String>,
    /// Password tried first on protected files; empty for none.
    pub default_password: String,
    /// Most page encoders that may run at once.
    pub max_pages_converted_in_parallele: u8,
    /// Language for text recognition; none to leave it out.
    pub ocr: Option<String>,
    /// Whether the worker's error stream is shown.
    pub stderr: bool,
}

/// Progress or failure of one file, as told to observers.
#[derive(Debug, Clone, PartialEq, Eq)]
pub enum ConvertEvent {
    FileToConvert { file: String },
    FileInfo { output_type: OutputType, number_pages: u16, file: String },
    PageConverted { file: String, page: u16 },
    FileConverted { file: String },
    Failure { file: String, message: String },
}

/// A [`ConvertEvent`] as mathematics sees it.
pub ghost enum EventView {
    FileToConvert { file: Seq<char> },
    FileInfo { output_type: OutputType, number_pages: u16, file: Seq<char> },
    PageConverted { file: Seq<char>, page: u16 },
    FileConverted { file: Seq<char> },
    Failure { file: Seq<char>, message: Seq<char> },
}

impl View for ConvertEvent {
    type V = EventView;

    open spec fn view(&self) -> EventView {
        match *self {
            ConvertEvent::FileToConvert { file } => EventView::FileToConvert { file: file@ },
            ConvertEvent::FileInfo { output_type, number_pages, file } => EventView::FileInfo {
                output_type,
                number_pages,
                file: file@,
            },
            ConvertEvent::PageConverted { file, page } => EventView::PageConverted {
                file: file@,
                page,
            },
            ConvertEvent::FileConverted { file } => EventView::FileConverted { file: file@ },
            ConvertEvent::Failure { file, message } => EventView::Failure {
                file: file@,
                message: message@,
            },
        }
    }
}

/// The event that tells observers of `event` for the file named `file`.
pub open spec fn named(file: Seq<char>, event: FileEvent) -> EventView {
    match event {
        FileEvent::Info { output_type, number_pages } => EventView::FileInfo {
            output_type,
            number_pages,
            file,
        },
        FileEvent::PageConverted { page } => EventView::PageConverted { file, page },
        FileEvent::Converted => EventView::FileConverted { file },
        FileEvent::Failure { error } => EventView::Failure {
            file,
            message: error.spec_message(),
        },
    }
}

/// The events of a vector, each as mathematics sees it.
pub open spec fn views(events: Seq<ConvertEvent>) -> Seq<EventView> {
    Seq::new(events.len(), |i: int| events[i]@)
}

impl ConvertEvent {
    /// The event that announces that `file` is about to be sent.
    pub fn queued(file: &str) -> (event: ConvertEvent)
        ensures
            event@ == (EventView::FileToConvert { file: file@ }),
    {
        ConvertEvent::FileToConvert { file: String::from_str(file) }
    }

    /// The event that tells observers of `event` for the file named `file`.
    pub fn for_file(file: &str, event: FileEvent) -> (told: ConvertEvent)
        ensures
            told@ == named(file@, event),
    {
        match event {
            FileEvent::Info { output_type, number_pages } => ConvertEvent::FileInfo {
                output_type,
                number_pages,
                file: String::from_str(file),
            },
            FileEvent::PageConverted { page } => ConvertEvent::PageConverted {
                file: String::from_str(file),
                page,
            },
            FileEvent::Converted => ConvertEvent::FileConverted { file: String::from_str(file) },
            FileEvent::Failure { error } => ConvertEvent::Failure {
                file: String::from_str(file),
                message: error.message(),
            },
        }
    }

    /// The events that tell observers of `events` for the file named
    /// `file`, in the same order.
    pub fn all_for_file(file: &str, events: &[FileEvent]) -> (told: Vec<ConvertEvent>)
        ensures
            views(told@) == Seq::new(events@.len(), |i: int| named(file@, events@[i])),
    {
        let mut told: Vec<ConvertEvent> = Vec::new();
        let mut i: usize = 0;
        while i < events.len()
            invariant
                i <= events.len(),
                told@.len() == i,
                forall|k: int| 0 <= k < i ==> (#[trigger] told@[k])@ == named(file@, events@[k]),
            decreases events.len() - i,
        {
            told.push(ConvertEvent::for_file(file, events[i]));
            i = i + 1;
        }
        assert(views(told@) =~= Seq::new(events@.len(), |i: int| named(file@, events@[i])));
        told
    }
}

} // verus!
