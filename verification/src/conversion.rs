//! The conversion of one file, as the trusted side sees it: a state machine
//! that is told what came back from the worker and from the page encoders,
//! and that answers with what to do next and which progress to report.
//!
//! The machine holds numbers only. It never reads, writes or waits: the
//! application does that, and reports each outcome with one of the `on_`
//! methods.

use crate::conversion_laws::lemma_position_is;
use crate::error::ConvertError;
use crate::frame::{
    parse_file_header, parse_page_size, spec_parse_file_header, spec_parse_page_size, PageSize,
    MAX_PAGES,
};
use crate::output_type::OutputType;
use vstd::prelude::*;

verus! {

/// What the conversion of a file is waiting for.
#[derive(Eq, PartialEq, Copy, Clone, Debug, Structural)]
pub enum Phase {
    /// The header that opens the worker's reply for this file.
    Header,
    /// A free place among the page encoders: all of them are busy.
    Slot,
    /// The header of the next page.
    PageHeader,
    /// The pixels of the next page, stored and handed to an encoder.
    Page,
    /// The end of the encoders that still run, after the last page.
    Drain,
    /// The trusted output, assembled from the pages.
    Assemble,
    /// The source, archived or removed.
    Retire,
    /// Nothing: the file is converted.
    Done,
    /// The header of the next page of a file that has failed, to be passed
    /// over.
    SkipHeader,
    /// The pixels of the next page of a file that has failed, to be passed
    /// over.
    SkipPage,
    /// Nothing: the file has failed.
    Failed,
}

/// Progress of one file, without the file's name.
#[derive(Eq, PartialEq, Copy, Clone, Debug, Structural)]
pub enum FileEvent {
    Info { output_type: OutputType, number_pages: u16 },
    PageConverted { page: u16 },
    Converted,
    Failure { error: ConvertError },
}

/// What the application is to do next for the file.
#[derive(Eq, PartialEq, Copy, Clone, Debug, Structural)]
pub enum Request {
    /// Read the three bytes of the file header from the worker.
    ReadFileHeader,
    /// Look which encoders have ended, after a pause if `sleep_first`.
    Poll { sleep_first: bool },
    /// Read the four bytes of the next page's header from the worker.
    ReadPageHeader,
    /// Read the pixels of `page` from the worker, store them and start the
    /// page's encoder.
    ReceivePage { page: u16, size: PageSize },
    /// Wait until the encoder of `page` has ended.
    Await { page: u16 },
    /// Read the pixels of a page of this size from the worker and drop
    /// them: the file has failed, and the worker's reply for it is read to
    /// its end so that the next file can be converted.
    DiscardPage { size: PageSize },
    /// Write the trusted output from the pages, in the order of their index.
    Assemble { output_type: OutputType, number_pages: u16 },
    /// Archive or remove the source.
    Retire,
    /// Nothing more: the file is converted.
    Finished,
    /// Nothing more: the file has failed. If `fatal`, so has the session.
    Abandon { error: ConvertError, fatal: bool },
}

/// What the application reports back.
pub ghost enum Stimulus {
    /// Bytes read from the worker where a header was due.
    Bytes(Seq<u8>),
    /// The worker's stream ended or could not be read.
    TransportError,
    /// The page asked for was read, stored and handed to its encoder.
    PageStarted,
    /// The page asked for could not be stored or its encoder not started.
    PageFailed,
    /// The encoders of these pages have ended well.
    Polled(Seq<u16>),
    /// The encoder of this page has ended badly.
    EncoderFailed(u16),
    /// The pixels asked to be dropped were read.
    PageDiscarded,
    /// The trusted output was written, or could not be.
    Assembled(bool),
    /// The source was archived or removed, or could not be.
    Retired(bool),
}

/// The state of a conversion, as mathematics sees it.
pub ghost struct ConversionView {
    pub phase: Phase,
    pub output_type: OutputType,
    /// Pages announced by the file header.
    pub pages: u16,
    /// Pages received from the worker and handed to an encoder.
    pub received: u16,
    /// Pages received from the worker and dropped, after the file failed.
    pub skipped: u16,
    /// Size of the page that is being received.
    pub size: PageSize,
    /// Pages whose encoder has not been seen to end, oldest first.
    pub in_flight: Seq<u16>,
    /// Pages whose encoder has ended, in the order in which that was seen.
    pub converted: Seq<u16>,
    /// Most encoders that may run at once.
    pub capacity: u8,
    /// Whether the encoders were polled and all of them still ran.
    pub waited: bool,
    /// Whether the file's header was accepted and reported.
    pub announced: bool,
    /// Whether the trusted output was written and reported.
    pub completed: bool,
    pub failure: Option<ConvertError>,
}

/// Position of the first `page` in `pages`, or their number if it is not
/// among them.
pub open spec fn position(pages: Seq<u16>, page: u16) -> int
    decreases pages.len(),
{
    if pages.len() == 0 {
        0
    } else if pages[0] == page {
        0
    } else {
        1 + position(pages.drop_first(), page)
    }
}

/// The `PageConverted` events of a run of pages.
pub open spec fn page_events(pages: Seq<u16>) -> Seq<FileEvent> {
    Seq::new(pages.len(), |i: int| FileEvent::PageConverted { page: pages[i] })
}

/// All that a conversion reports from its start, given what it has reached.
pub open spec fn trace(
    info: Option<(OutputType, u16)>,
    converted: Seq<u16>,
    completed: bool,
    failure: Option<ConvertError>,
) -> Seq<FileEvent> {
    (match info {
        Some((output_type, number_pages)) => seq![FileEvent::Info { output_type, number_pages }],
        None => Seq::<FileEvent>::empty(),
    }) + page_events(converted) + (if completed {
        seq![FileEvent::Converted]
    } else {
        Seq::<FileEvent>::empty()
    }) + (match failure {
        Some(error) => seq![FileEvent::Failure { error }],
        None => Seq::<FileEvent>::empty(),
    })
}

/// Whether each of `pages` is below `bound` and none occurs twice.
pub open spec fn distinct_below(pages: Seq<u16>, bound: int) -> bool {
    &&& forall|i: int| 0 <= i < pages.len() ==> (#[trigger] pages[i]) < bound
    &&& forall|i: int, j: int|
        0 <= i < j < pages.len() ==> (#[trigger] pages[i]) != (#[trigger] pages[j])
}

/// The order that the events of one file keep: one `Info` first, then a
/// `PageConverted` for some of the announced pages, each at most once, then
/// `Converted` once all of them are there; a `Failure`, if any, comes last
/// and ends the file. Before `Info` nothing but a `Failure` is reported.
pub open spec fn well_ordered(events: Seq<FileEvent>) -> bool {
    exists|
        info: Option<(OutputType, u16)>,
        converted: Seq<u16>,
        completed: bool,
        failure: Option<ConvertError>,
    |
        {
            &&& events == #[trigger] trace(info, converted, completed, failure)
            &&& info is None ==> converted.len() == 0 && !completed
            &&& info matches Some((output_type, number_pages)) ==> {
                &&& distinct_below(converted, number_pages as int)
                &&& completed ==> converted.len() == number_pages
                &&& output_type == OutputType::Image ==> number_pages == 1
                &&& number_pages <= MAX_PAGES
            }
        }
}

impl ConversionView {
    /// A conversion that has not read anything yet.
    pub open spec fn start(capacity: u8) -> ConversionView {
        ConversionView {
            phase: Phase::Header,
            output_type: OutputType::Pdf,
            pages: 0,
            received: 0,
            skipped: 0,
            size: PageSize { width: 0, height: 0 },
            in_flight: Seq::empty(),
            converted: Seq::empty(),
            capacity,
            waited: false,
            announced: false,
            completed: false,
            failure: None,
        }
    }

    /// What holds of every conversion that was started with a capacity of at
    /// least one and driven by the `on_` methods.
    #[verifier::opaque]
    pub open spec fn wf(self) -> bool {
        &&& self.capacity >= 1
        &&& self.received + self.skipped <= self.pages <= MAX_PAGES
        &&& self.in_flight.len() <= self.capacity
        &&& self.in_flight.len() + self.converted.len() == self.received
        &&& distinct_below(self.in_flight, self.received as int)
        &&& distinct_below(self.converted, self.received as int)
        &&& forall|i: int, j: int|
            0 <= i < self.in_flight.len() && 0 <= j < self.converted.len() ==> (
            #[trigger] self.in_flight[i]) != (#[trigger] self.converted[j])
        &&& self.failure is Some <==> self.phase == Phase::Failed || self.skipping()
        &&& self.skipped > 0 ==> self.failure is Some
        &&& self.announced && self.output_type == OutputType::Image ==> self.pages == 1
        &&& self.completed ==> self.announced && self.converted.len() == self.pages
        &&& !self.announced ==> self.pages == 0
        &&& match self.phase {
            Phase::Header => !self.announced,
            Phase::Slot => self.reading() && self.in_flight.len() >= self.capacity,
            Phase::PageHeader => self.reading() && self.in_flight.len() < self.capacity,
            Phase::Page => self.reading() && self.in_flight.len() < self.capacity
                && self.size.within_caps(),
            Phase::Drain => self.synchronized() && !self.completed && self.in_flight.len() > 0,
            Phase::Assemble => self.synchronized() && !self.completed && self.in_flight.len() == 0,
            Phase::Retire => self.completed,
            Phase::Done => self.completed,
            Phase::SkipHeader => self.reading(),
            Phase::SkipPage => self.reading() && self.size.within_caps(),
            Phase::Failed => true,
        }
    }

    /// Pages are still due from the worker.
    pub open spec fn reading(self) -> bool {
        self.announced && !self.completed && self.received + self.skipped < self.pages
    }

    /// The worker's reply for this file has been read to its end.
    pub open spec fn synchronized(self) -> bool {
        self.announced && self.received + self.skipped == self.pages
    }

    /// The file has failed, and what is left of the worker's reply for it
    /// is being passed over.
    pub open spec fn skipping(self) -> bool {
        self.phase == Phase::SkipHeader || self.phase == Phase::SkipPage
    }

    /// All that the conversion has reported since its start.
    pub open spec fn emitted(self) -> Seq<FileEvent> {
        trace(
            if self.announced {
                Some((self.output_type, self.pages))
            } else {
                None
            },
            self.converted,
            self.completed,
            self.failure,
        )
    }

    /// What the application is to do next.
    pub open spec fn request(self) -> Request {
        match self.phase {
            Phase::Header => Request::ReadFileHeader,
            Phase::Slot => Request::Poll { sleep_first: self.waited },
            Phase::PageHeader => Request::ReadPageHeader,
            Phase::Page => Request::ReceivePage { page: self.received, size: self.size },
            Phase::Drain => Request::Await { page: self.in_flight[0] },
            Phase::Assemble => Request::Assemble {
                output_type: self.output_type,
                number_pages: self.pages,
            },
            Phase::Retire => Request::Retire,
            Phase::Done => Request::Finished,
            Phase::SkipHeader => Request::ReadPageHeader,
            Phase::SkipPage => Request::DiscardPage { size: self.size },
            Phase::Failed => match self.failure {
                Some(error) => Request::Abandon {
                    error,
                    fatal: error.spec_is_fatal() || !self.synchronized(),
                },
                None => Request::Finished,
            },
        }
    }

    /// The conversion after `error` has ended it, and the report of that.
    /// A file fails once: where it had failed before and what was left of
    /// the worker's reply was being passed over, nothing more is reported.
    pub open spec fn fail(self, error: ConvertError) -> (ConversionView, Seq<FileEvent>) {
        match self.failure {
            Some(_) => (
                ConversionView { phase: Phase::Failed, waited: false, ..self },
                Seq::empty(),
            ),
            None => (
                ConversionView {
                    phase: Phase::Failed,
                    failure: Some(error),
                    waited: false,
                    ..self
                },
                seq![FileEvent::Failure { error }],
            ),
        }
    }

    /// The phase of a failed file: over once the worker's reply for it is
    /// read to its end, passing over its next page until then.
    pub open spec fn skip_phase(self) -> Phase {
        if self.received + self.skipped == self.pages {
            Phase::Failed
        } else {
            Phase::SkipHeader
        }
    }

    /// The conversion after a page could not be encoded, and the report of
    /// that: the file fails, and the session goes on once what is left of
    /// the worker's reply for the file is passed over. `skipped` counts the
    /// pages that were read and dropped.
    pub open spec fn falter(self, skipped: u16) -> (ConversionView, Seq<FileEvent>) {
        let failed = ConversionView {
            failure: Some(ConvertError::PageEncodingFailed),
            skipped,
            waited: false,
            ..self
        };
        (
            ConversionView { phase: failed.skip_phase(), ..failed },
            seq![FileEvent::Failure { error: ConvertError::PageEncodingFailed }],
        )
    }

    /// The phase that the page counters call for, once the header is in.
    pub open spec fn due(self) -> Phase {
        if self.received == self.pages {
            if self.in_flight.len() == 0 {
                Phase::Assemble
            } else {
                Phase::Drain
            }
        } else if self.in_flight.len() >= self.capacity {
            Phase::Slot
        } else {
            Phase::PageHeader
        }
    }

    /// The conversion after the encoder of `page` was seen to have ended.
    /// A page that has no encoder in flight changes nothing.
    pub open spec fn reap_one(self, page: u16) -> ConversionView {
        let at = position(self.in_flight, page);
        if at < self.in_flight.len() {
            ConversionView {
                in_flight: self.in_flight.remove(at),
                converted: self.converted.push(page),
                ..self
            }
        } else {
            self
        }
    }

    /// The conversion after the encoders of `pages` were seen to have ended,
    /// one after the other.
    pub open spec fn reap(self, pages: Seq<u16>) -> ConversionView
        decreases pages.len(),
    {
        if pages.len() == 0 {
            self
        } else {
            self.reap(pages.drop_last()).reap_one(pages.last())
        }
    }

    /// Bytes arrive where a header was asked for.
    pub open spec fn on_bytes(self, bytes: Seq<u8>) -> (ConversionView, Seq<FileEvent>) {
        match self.phase {
            Phase::Header => match spec_parse_file_header(bytes) {
                Err(error) => self.fail(error),
                Ok(header) => {
                    let read = ConversionView {
                        output_type: header.output_type,
                        pages: header.number_pages,
                        announced: true,
                        ..self
                    };
                    (
                        ConversionView { phase: read.due(), ..read },
                        seq![
                            FileEvent::Info {
                                output_type: header.output_type,
                                number_pages: header.number_pages,
                            },
                        ],
                    )
                },
            },
            Phase::PageHeader => match spec_parse_page_size(bytes) {
                Err(error) => self.fail(error),
                Ok(size) => (ConversionView { phase: Phase::Page, size, ..self }, Seq::empty()),
            },
            Phase::SkipHeader => match spec_parse_page_size(bytes) {
                Err(error) => self.fail(error),
                Ok(size) => (
                    ConversionView { phase: Phase::SkipPage, size, ..self },
                    Seq::empty(),
                ),
            },
            _ => (self, Seq::empty()),
        }
    }

    /// The worker's stream breaks.
    pub open spec fn on_transport_error(self) -> (ConversionView, Seq<FileEvent>) {
        match self.phase {
            Phase::Header | Phase::PageHeader | Phase::Page | Phase::SkipHeader
            | Phase::SkipPage => self.fail(ConvertError::TransportBroken),
            _ => (self, Seq::empty()),
        }
    }

    /// The page asked for is stored and its encoder runs.
    pub open spec fn on_page_started(self) -> (ConversionView, Seq<FileEvent>) {
        if self.phase == Phase::Page {
            let started = ConversionView {
                in_flight: self.in_flight.push(self.received),
                received: (self.received + 1) as u16,
                ..self
            };
            (ConversionView { phase: started.due(), waited: false, ..started }, Seq::empty())
        } else {
            (self, Seq::empty())
        }
    }

    /// The page asked for was read, but could not be stored or encoded.
    pub open spec fn on_page_failed(self) -> (ConversionView, Seq<FileEvent>) {
        if self.phase == Phase::Page {
            self.falter((self.skipped + 1) as u16)
        } else {
            (self, Seq::empty())
        }
    }

    /// The encoder of `page` has ended badly. A page that has no encoder in
    /// flight changes nothing.
    pub open spec fn on_encoder_failed(self, page: u16) -> (ConversionView, Seq<FileEvent>) {
        if (self.phase == Phase::Slot || self.phase == Phase::Drain) && position(
            self.in_flight,
            page,
        ) < self.in_flight.len() {
            self.falter(self.skipped)
        } else {
            (self, Seq::empty())
        }
    }

    /// The pixels of a page of the failed file are read and dropped.
    pub open spec fn on_page_discarded(self) -> (ConversionView, Seq<FileEvent>) {
        if self.phase == Phase::SkipPage {
            let dropped = ConversionView { skipped: (self.skipped + 1) as u16, ..self };
            (ConversionView { phase: dropped.skip_phase(), ..dropped }, Seq::empty())
        } else {
            (self, Seq::empty())
        }
    }

    /// Encoders are seen to have ended.
    pub open spec fn on_polled(self, pages: Seq<u16>) -> (ConversionView, Seq<FileEvent>) {
        if self.phase == Phase::Slot || self.phase == Phase::Drain {
            let reaped = self.reap(pages);
            (
                ConversionView {
                    phase: reaped.due(),
                    waited: reaped.due() == Phase::Slot,
                    ..reaped
                },
                page_events(
                    reaped.converted.subrange(
                        self.converted.len() as int,
                        reaped.converted.len() as int,
                    ),
                ),
            )
        } else {
            (self, Seq::empty())
        }
    }

    /// The trusted output is written, or could not be.
    pub open spec fn on_assembled(self, success: bool) -> (ConversionView, Seq<FileEvent>) {
        if self.phase == Phase::Assemble {
            if success {
                (
                    ConversionView { phase: Phase::Retire, completed: true, ..self },
                    seq![FileEvent::Converted],
                )
            } else if self.output_type == OutputType::Pdf {
                self.fail(ConvertError::MergeFailed)
            } else {
                self.fail(ConvertError::Filesystem)
            }
        } else {
            (self, Seq::empty())
        }
    }

    /// The source is archived or removed, or could not be.
    pub open spec fn on_retired(self, success: bool) -> (ConversionView, Seq<FileEvent>) {
        if self.phase == Phase::Retire {
            if success {
                (ConversionView { phase: Phase::Done, ..self }, Seq::empty())
            } else {
                self.fail(ConvertError::Filesystem)
            }
        } else {
            (self, Seq::empty())
        }
    }

    /// The conversion after one report, and what it reports in its turn.
    #[verifier::opaque]
    pub open spec fn step(self, stimulus: Stimulus) -> (ConversionView, Seq<FileEvent>) {
        match stimulus {
            Stimulus::Bytes(bytes) => self.on_bytes(bytes),
            Stimulus::TransportError => self.on_transport_error(),
            Stimulus::PageStarted => self.on_page_started(),
            Stimulus::PageFailed => self.on_page_failed(),
            Stimulus::Polled(pages) => self.on_polled(pages),
            Stimulus::EncoderFailed(page) => self.on_encoder_failed(page),
            Stimulus::PageDiscarded => self.on_page_discarded(),
            Stimulus::Assembled(success) => self.on_assembled(success),
            Stimulus::Retired(success) => self.on_retired(success),
        }
    }

    /// The conversion after a run of reports, and all that it reports.
    pub open spec fn run(self, stimuli: Seq<Stimulus>) -> (ConversionView, Seq<FileEvent>)
        decreases stimuli.len(),
    {
        if stimuli.len() == 0 {
            (self, Seq::empty())
        } else {
            let before = self.run(stimuli.drop_last());
            let after = before.0.step(stimuli.last());
            (after.0, before.1 + after.1)
        }
    }
}

/// The conversion of one file: what was announced for it, which pages have
/// come, which encoders run, and what is due next.
pub struct FileConversion {
    phase: Phase,
    output_type: OutputType,
    pages: u16,
    received: u16,
    skipped: u16,
    size: PageSize,
    in_flight: Vec<u16>,
    converted: Vec<u16>,
    capacity: u8,
    waited: bool,
    announced: bool,
    completed: bool,
    failure: Option<ConvertError>,
}

impl View for FileConversion {
    type V = ConversionView;

    closed spec fn view(&self) -> ConversionView {
        ConversionView {
            phase: self.phase,
            output_type: self.output_type,
            pages: self.pages,
            received: self.received,
            skipped: self.skipped,
            size: self.size,
            in_flight: self.in_flight@,
            converted: self.converted@,
            capacity: self.capacity,
            waited: self.waited,
            announced: self.announced,
            completed: self.completed,
            failure: self.failure,
        }
    }
}

impl FileConversion {
    /// Starts the conversion of a file for which nothing has been read yet.
    /// At most `capacity` page encoders will run at once; with a capacity
    /// of zero no page could ever be encoded, and there is no conversion.
    pub fn new(capacity: u8) -> (conversion: Option<FileConversion>)
        ensures
            capacity == 0 <==> conversion is None,
            conversion matches Some(c) ==> c@ == ConversionView::start(capacity) && c@.wf(),
    {
        if capacity == 0 {
            return None;
        }
        let conversion = FileConversion {
            phase: Phase::Header,
            output_type: OutputType::Pdf,
            pages: 0,
            received: 0,
            skipped: 0,
            size: PageSize { width: 0, height: 0 },
            in_flight: Vec::new(),
            converted: Vec::new(),
            capacity,
            waited: false,
            announced: false,
            completed: false,
            failure: None,
        };
        proof {
            reveal(ConversionView::wf);
        }
        Some(conversion)
    }

    /// What the conversion is waiting for.
    pub fn phase(&self) -> (phase: Phase)
        ensures
            phase == self@.phase,
    {
        self.phase
    }

    /// The failure that ended the conversion, if one did.
    pub fn failure(&self) -> (failure: Option<ConvertError>)
        ensures
            failure == self@.failure,
    {
        self.failure
    }

    /// The kind of output that the file's header announced; a PDF before
    /// any header is read.
    pub fn output_type(&self) -> (output_type: OutputType)
        ensures
            output_type == self@.output_type,
    {
        self.output_type
    }

    /// Number of encoders that have been started and not seen to end.
    pub fn encoders_in_flight(&self) -> (count: usize)
        ensures
            count == self@.in_flight.len(),
    {
        self.in_flight.len()
    }

    /// The pages whose encoder has been started and not seen to end, oldest
    /// first.
    pub fn pages_in_flight(&self) -> (pages: Vec<u16>)
        ensures
            pages@ == self@.in_flight,
    {
        self.in_flight.clone()
    }

    /// The pages whose encoder has ended, in the order in which that was
    /// seen.
    pub fn converted_pages(&self) -> (pages: Vec<u16>)
        ensures
            pages@ == self@.converted,
    {
        self.converted.clone()
    }

    /// What the application is to do next for this file.
    pub fn request(&self) -> (request: Request)
        requires
            self@.wf(),
        ensures
            request == self@.request(),
    {
        proof {
            reveal(ConversionView::wf);
        }
        match self.phase {
            Phase::Header => Request::ReadFileHeader,
            Phase::Slot => Request::Poll { sleep_first: self.waited },
            Phase::PageHeader => Request::ReadPageHeader,
            Phase::Page => Request::ReceivePage { page: self.received, size: self.size },
            Phase::Drain => Request::Await { page: self.in_flight[0] },
            Phase::Assemble => Request::Assemble {
                output_type: self.output_type,
                number_pages: self.pages,
            },
            Phase::Retire => Request::Retire,
            Phase::Done => Request::Finished,
            Phase::SkipHeader => Request::ReadPageHeader,
            Phase::SkipPage => Request::DiscardPage { size: self.size },
            Phase::Failed => match self.failure {
                Some(error) => Request::Abandon {
                    error,
                    fatal: error.is_fatal() || !(self.announced && self.received + self.skipped
                        == self.pages),
                },
                None => Request::Finished,
            },
        }
    }

    fn fail(&mut self, error: ConvertError) -> (events: Vec<FileEvent>)
        ensures
            (final(self)@, events@) == old(self)@.fail(error),
    {
        let mut events: Vec<FileEvent> = Vec::new();
        self.phase = Phase::Failed;
        self.waited = false;
        if self.failure.is_none() {
            self.failure = Some(error);
            events.push(FileEvent::Failure { error });
            assert(events@ =~= seq![FileEvent::Failure { error }]);
        }
        events
    }

    fn skip_phase(&self) -> (phase: Phase)
        requires
            self.received + self.skipped <= u16::MAX,
        ensures
            phase == self@.skip_phase(),
    {
        if self.received + self.skipped == self.pages {
            Phase::Failed
        } else {
            Phase::SkipHeader
        }
    }

    fn falter(&mut self, skipped: u16) -> (events: Vec<FileEvent>)
        requires
            old(self).received + skipped <= u16::MAX,
        ensures
            (final(self)@, events@) == old(self)@.falter(skipped),
    {
        self.failure = Some(ConvertError::PageEncodingFailed);
        self.skipped = skipped;
        self.waited = false;
        self.phase = self.skip_phase();
        let mut events: Vec<FileEvent> = Vec::new();
        events.push(FileEvent::Failure { error: ConvertError::PageEncodingFailed });
        assert(events@ =~= seq![FileEvent::Failure { error: ConvertError::PageEncodingFailed }]);
        events
    }

    fn due(&self) -> (phase: Phase)
        ensures
            phase == self@.due(),
    {
        if self.received == self.pages {
            if self.in_flight.len() == 0 {
                Phase::Assemble
            } else {
                Phase::Drain
            }
        } else if self.in_flight.len() >= self.capacity as usize {
            Phase::Slot
        } else {
            Phase::PageHeader
        }
    }

    /// Takes the bytes that were read from the worker where a header was
    /// due: the file's header first, later the header of each page.
    ///
    /// A header that breaks a cap or the format fails the file, and with it
    /// the session. In any other phase the bytes are ignored.
    pub fn on_bytes(&mut self, bytes: &[u8]) -> (events: Vec<FileEvent>)
        requires
            old(self)@.wf(),
        ensures
            (final(self)@, events@) == old(self)@.on_bytes(bytes@),
            final(self)@.wf(),
    {
        proof {
            old(self)@.lemma_on_bytes(bytes@);
            reveal(ConversionView::wf);
        }
        match self.phase {
            Phase::Header => match parse_file_header(bytes) {
                Err(error) => self.fail(error),
                Ok(header) => {
                    self.output_type = header.output_type;
                    self.pages = header.number_pages;
                    self.announced = true;
                    self.phase = self.due();
                    let mut events: Vec<FileEvent> = Vec::new();
                    events.push(
                        FileEvent::Info {
                            output_type: header.output_type,
                            number_pages: header.number_pages,
                        },
                    );
                    assert(events@ =~= old(self)@.on_bytes(bytes@).1);
                    events
                },
            },
            Phase::PageHeader => match parse_page_size(bytes) {
                Err(error) => self.fail(error),
                Ok(size) => {
                    self.size = size;
                    self.phase = Phase::Page;
                    Vec::new()
                },
            },
            Phase::SkipHeader => match parse_page_size(bytes) {
                Err(error) => self.fail(error),
                Ok(size) => {
                    self.size = size;
                    self.phase = Phase::SkipPage;
                    Vec::new()
                },
            },
            _ => Vec::new(),
        }
    }

    /// Takes the news that the worker's stream has ended or cannot be read.
    /// While a header or a page is due this fails the file, and with it the
    /// session.
    pub fn on_transport_error(&mut self) -> (events: Vec<FileEvent>)
        requires
            old(self)@.wf(),
        ensures
            (final(self)@, events@) == old(self)@.on_transport_error(),
            final(self)@.wf(),
    {
        proof {
            old(self)@.lemma_on_transport_error();
        }
        match self.phase {
            Phase::Header | Phase::PageHeader | Phase::Page | Phase::SkipHeader
            | Phase::SkipPage => self.fail(ConvertError::TransportBroken),
            _ => Vec::new(),
        }
    }

    /// Takes the news that the page asked for was read and stored and that
    /// its encoder runs.
    pub fn on_page_started(&mut self) -> (events: Vec<FileEvent>)
        requires
            old(self)@.wf(),
        ensures
            (final(self)@, events@) == old(self)@.on_page_started(),
            final(self)@.wf(),
    {
        proof {
            old(self)@.lemma_on_page_started();
            reveal(ConversionView::wf);
        }
        if self.phase == Phase::Page {
            self.in_flight.push(self.received);
            self.received = self.received + 1;
            self.phase = self.due();
            self.waited = false;
        }
        Vec::new()
    }

    /// Takes the news that the page asked for was read, but could not be
    /// stored, or that its encoder could not be started. This fails the
    /// file; the pages that the worker still sends for it are passed over,
    /// and the session goes on.
    pub fn on_page_failed(&mut self) -> (events: Vec<FileEvent>)
        requires
            old(self)@.wf(),
        ensures
            (final(self)@, events@) == old(self)@.on_page_failed(),
            final(self)@.wf(),
    {
        proof {
            old(self)@.lemma_on_page_failed();
            reveal(ConversionView::wf);
        }
        if self.phase == Phase::Page {
            self.falter(self.skipped + 1)
        } else {
            Vec::new()
        }
    }

    /// Takes the news that the encoder of `page` has ended badly. This
    /// fails the file; the pages that the worker still sends for it are
    /// passed over, and the session goes on. A page that has no encoder in
    /// flight is passed over.
    pub fn on_encoder_failed(&mut self, page: u16) -> (events: Vec<FileEvent>)
        requires
            old(self)@.wf(),
        ensures
            (final(self)@, events@) == old(self)@.on_encoder_failed(page),
            final(self)@.wf(),
    {
        proof {
            old(self)@.lemma_on_encoder_failed(page);
            reveal(ConversionView::wf);
        }
        if (self.phase == Phase::Slot || self.phase == Phase::Drain) && self.has_in_flight(page) {
            self.falter(self.skipped)
        } else {
            Vec::new()
        }
    }

    /// Takes the news that the pixels asked to be dropped were read.
    pub fn on_page_discarded(&mut self) -> (events: Vec<FileEvent>)
        requires
            old(self)@.wf(),
        ensures
            (final(self)@, events@) == old(self)@.on_page_discarded(),
            final(self)@.wf(),
    {
        proof {
            old(self)@.lemma_on_page_discarded();
            reveal(ConversionView::wf);
        }
        if self.phase == Phase::SkipPage {
            self.skipped = self.skipped + 1;
            self.phase = self.skip_phase();
        }
        Vec::new()
    }

    fn find_in_flight(&self, page: u16) -> (at: usize)
        ensures
            at == position(self@.in_flight, page),
            at <= self@.in_flight.len(),
    {
        let mut at: usize = 0;
        while at < self.in_flight.len() && self.in_flight[at] != page
            invariant
                at <= self.in_flight.len(),
                forall|i: int| 0 <= i < at ==> self.in_flight@[i] != page,
            decreases self.in_flight.len() - at,
        {
            at = at + 1;
        }
        proof {
            lemma_position_is(self.in_flight@, page, at as int);
        }
        at
    }

    fn has_in_flight(&self, page: u16) -> (has: bool)
        ensures
            has == (position(self@.in_flight, page) < self@.in_flight.len()),
    {
        self.find_in_flight(page) < self.in_flight.len()
    }

    fn reap_one(&mut self, page: u16) -> (reaped: bool)
        ensures
            final(self)@ == old(self)@.reap_one(page),
            reaped == (position(old(self)@.in_flight, page) < old(self)@.in_flight.len()),
    {
        let at: usize = self.find_in_flight(page);
        if at < self.in_flight.len() {
            self.in_flight.remove(at);
            self.converted.push(page);
            true
        } else {
            false
        }
    }

    /// Takes the pages whose encoder the application has seen to have
    /// ended well, and reports each of them as converted, in the order
    /// given. A page that has no encoder in flight is passed over.
    pub fn on_polled(&mut self, pages: &[u16]) -> (events: Vec<FileEvent>)
        requires
            old(self)@.wf(),
        ensures
            (final(self)@, events@) == old(self)@.on_polled(pages@),
            final(self)@.wf(),
    {
        proof {
            old(self)@.lemma_on_polled(pages@);
        }
        let mut events: Vec<FileEvent> = Vec::new();
        if self.phase == Phase::Slot || self.phase == Phase::Drain {
            let ghost before = self@;
            let mut i: usize = 0;
            proof {
                reveal(ConversionView::wf);
                before.lemma_reap(pages@.take(0));
            }
            while i < pages.len()
                invariant
                    i <= pages.len(),
                    before.pool_ok(),
                    self@ == before.reap(pages@.take(i as int)),
                    before.reaped_to(self@),
                    events@ == page_events(
                        self@.converted.subrange(
                            before.converted.len() as int,
                            self@.converted.len() as int,
                        ),
                    ),
                decreases pages.len() - i,
            {
                let ghost now = self@;
                let page: u16 = pages[i];
                proof {
                    assert(pages@.take(i + 1).drop_last() =~= pages@.take(i as int));
                    assert(pages@.take(i + 1).last() == page);
                    before.lemma_reap(pages@.take(i + 1));
                    now.lemma_reap_one(page);
                }
                if self.reap_one(page) {
                    events.push(FileEvent::PageConverted { page });
                }
                i = i + 1;
                assert(events@ =~= page_events(
                    self@.converted.subrange(
                        before.converted.len() as int,
                        self@.converted.len() as int,
                    ),
                ));
            }
            assert(pages@.take(pages.len() as int) =~= pages@);
            let due = self.due();
            self.phase = due;
            self.waited = due == Phase::Slot;
        }
        events
    }

    /// Takes the news that the trusted output was written, or that it could
    /// not be. Written, the file is reported as converted; otherwise the
    /// file fails and the session goes on.
    pub fn on_assembled(&mut self, success: bool) -> (events: Vec<FileEvent>)
        requires
            old(self)@.wf(),
        ensures
            (final(self)@, events@) == old(self)@.on_assembled(success),
            final(self)@.wf(),
    {
        proof {
            old(self)@.lemma_on_assembled(success);
        }
        if self.phase == Phase::Assemble {
            if success {
                self.phase = Phase::Retire;
                self.completed = true;
                let mut events: Vec<FileEvent> = Vec::new();
                events.push(FileEvent::Converted);
                assert(events@ =~= seq![FileEvent::Converted]);
                events
            } else if self.output_type == OutputType::Pdf {
                self.fail(ConvertError::MergeFailed)
            } else {
                self.fail(ConvertError::Filesystem)
            }
        } else {
            Vec::new()
        }
    }

    /// Takes the news that the source was archived or removed, or that it
    /// could not be. If not, the file fails and the session goes on.
    pub fn on_retired(&mut self, success: bool) -> (events: Vec<FileEvent>)
        requires
            old(self)@.wf(),
        ensures
            (final(self)@, events@) == old(self)@.on_retired(success),
            final(self)@.wf(),
    {
        proof {
            old(self)@.lemma_on_retired(success);
        }
        if self.phase == Phase::Retire {
            if success {
                self.phase = Phase::Done;
                Vec::new()
            } else {
                self.fail(ConvertError::Filesystem)
            }
        } else {
            Vec::new()
        }
    }
}

} // verus!
