//! What holds of the conversion of a file whatever the worker sends and
//! whatever the application reports: the order of the events, the bound on
//! the encoders, the caps on what is read, and what a failure leaves.

use crate::conversion::{
    distinct_below, page_events, position, trace, well_ordered, ConversionView, FileEvent, Phase,
    Request, Stimulus,
};
use crate::error::ConvertError;
use crate::frame::{spec_parse_file_header, spec_parse_page_size, MAX_PAGES};
use crate::output_type::OutputType;
use vstd::prelude::*;

verus! {

/// Where `position` points: at the first occurrence, or past the end.
pub proof fn lemma_position(pages: Seq<u16>, page: u16)
    ensures
        0 <= position(pages, page) <= pages.len(),
        position(pages, page) < pages.len() ==> pages[position(pages, page)] == page,
        forall|i: int| 0 <= i < position(pages, page) ==> pages[i] != page,
    decreases pages.len(),
{
    if pages.len() > 0 && pages[0] != page {
        let rest = pages.drop_first();
        lemma_position(rest, page);
        assert forall|i: int| 0 <= i < position(pages, page) implies pages[i] != page by {
            if i > 0 {
                assert(rest[i - 1] == pages[i]);
            }
        }
    }
}

impl ConversionView {
    /// What the page counters keep whatever is reported.
    pub open spec fn pool_ok(self) -> bool {
        &&& self.in_flight.len() <= self.capacity
        &&& self.in_flight.len() + self.converted.len() == self.received
        &&& distinct_below(self.in_flight, self.received as int)
        &&& distinct_below(self.converted, self.received as int)
        &&& forall|i: int, j: int|
            0 <= i < self.in_flight.len() && 0 <= j < self.converted.len() ==> (
            #[trigger] self.in_flight[i]) != (#[trigger] self.converted[j])
    }

    /// Whether `other` differs from `self` only by encoders that have ended.
    pub open spec fn reaped_to(self, other: ConversionView) -> bool {
        &&& other.pool_ok()
        &&& other.in_flight.len() <= self.in_flight.len()
        &&& self.converted.len() <= other.converted.len()
        &&& other.converted.subrange(0, self.converted.len() as int) == self.converted
        &&& other == ConversionView {
            in_flight: other.in_flight,
            converted: other.converted,
            ..self
        }
    }

    /// Seeing one encoder end keeps the page counters sound.
    pub proof fn lemma_reap_one(self, page: u16)
        requires
            self.pool_ok(),
        ensures
            self.reaped_to(self.reap_one(page)),
    {
        let after = self.reap_one(page);
        let at = position(self.in_flight, page);
        lemma_position(self.in_flight, page);
        if at < self.in_flight.len() {
            assert forall|i: int| 0 <= i < after.in_flight.len() implies (
            #[trigger] after.in_flight[i]) < after.received && after.in_flight[i] != page by {
                if i < at {
                    assert(after.in_flight[i] == self.in_flight[i]);
                } else {
                    assert(after.in_flight[i] == self.in_flight[i + 1]);
                }
            }
            assert forall|i: int, j: int| 0 <= i < j < after.in_flight.len() implies (
            #[trigger] after.in_flight[i]) != (#[trigger] after.in_flight[j]) by {
                let a = if i < at { i } else { i + 1 };
                let b = if j < at { j } else { j + 1 };
                assert(after.in_flight[i] == self.in_flight[a]);
                assert(after.in_flight[j] == self.in_flight[b]);
            }
            assert forall|i: int, j: int| 0 <= i < j < after.converted.len() implies (
            #[trigger] after.converted[i]) != (#[trigger] after.converted[j]) by {
                if j == self.converted.len() {
                    assert(self.in_flight[at] != self.converted[i]);
                }
            }
            assert forall|i: int, j: int|
                0 <= i < after.in_flight.len() && 0 <= j < after.converted.len() implies (
            #[trigger] after.in_flight[i]) != (#[trigger] after.converted[j]) by {
                let a = if i < at { i } else { i + 1 };
                assert(after.in_flight[i] == self.in_flight[a]);
                if j < self.converted.len() {
                    assert(after.converted[j] == self.converted[j]);
                }
            }
            assert(after.converted.subrange(0, self.converted.len() as int) =~= self.converted);
        } else {
            assert(after.converted.subrange(0, self.converted.len() as int) =~= self.converted);
        }
    }

    /// Seeing encoders end keeps the page counters sound.
    pub proof fn lemma_reap(self, pages: Seq<u16>)
        requires
            self.pool_ok(),
        ensures
            self.reaped_to(self.reap(pages)),
        decreases pages.len(),
    {
        if pages.len() == 0 {
            assert(self.converted.subrange(0, self.converted.len() as int) =~= self.converted);
        } else {
            let before = self.reap(pages.drop_last());
            self.lemma_reap(pages.drop_last());
            before.lemma_reap_one(pages.last());
            let after = before.reap_one(pages.last());
            assert(after.converted.subrange(0, self.converted.len() as int) =~= self.converted)
                by {
                assert(after.converted.subrange(0, before.converted.len() as int)
                    == before.converted);
                assert(before.converted.subrange(0, self.converted.len() as int)
                    == self.converted);
                assert forall|i: int| 0 <= i < self.converted.len() implies after.converted[i]
                    == self.converted[i] by {
                    assert(after.converted[i] == after.converted.subrange(
                        0,
                        before.converted.len() as int,
                    )[i]);
                    assert(before.converted[i] == before.converted.subrange(
                        0,
                        self.converted.len() as int,
                    )[i]);
                }
            }
        }
    }

    /// Whether `next` and `events` are a step from `self` that keeps the
    /// conversion well-formed and reports exactly what its record of
    /// reports grows by.
    pub open spec fn steps_to(self, next: ConversionView, events: Seq<FileEvent>) -> bool {
        &&& next.wf()
        &&& next.emitted() == self.emitted() + events
        &&& next.capacity == self.capacity
    }

    /// A step that changes nothing is a step.
    pub proof fn lemma_unchanged(self)
        requires
            self.wf(),
        ensures
            self.steps_to(self, Seq::empty()),
    {
        assert(self.emitted() =~= self.emitted() + Seq::<FileEvent>::empty());
    }

    /// A failure is a step.
    pub proof fn lemma_fail(self, error: ConvertError)
        requires
            self.wf(),
            self.phase != Phase::Done,
        ensures
            self.steps_to(self.fail(error).0, self.fail(error).1),
    {
        reveal(ConversionView::wf);
        assert(self.fail(error).0.emitted() =~= self.emitted() + self.fail(error).1);
    }

    /// The failure of a page is a step.
    pub proof fn lemma_falter(self, skipped: u16)
        requires
            self.wf(),
            self.failure is None,
            self.announced,
            !self.completed,
            self.skipped <= skipped,
            self.received + skipped <= self.pages,
        ensures
            self.steps_to(self.falter(skipped).0, self.falter(skipped).1),
    {
        reveal(ConversionView::wf);
        assert(self.falter(skipped).0.emitted() =~= self.emitted() + self.falter(skipped).1);
    }

    pub proof fn lemma_on_bytes(self, bytes: Seq<u8>)
        requires
            self.wf(),
        ensures
            self.steps_to(self.on_bytes(bytes).0, self.on_bytes(bytes).1),
    {
        let after = self.on_bytes(bytes).0;
        let events = self.on_bytes(bytes).1;
        match self.phase {
            Phase::Header => match spec_parse_file_header(bytes) {
                Err(error) => self.lemma_fail(error),
                Ok(header) => {
                    reveal(ConversionView::wf);
                    assert(after.emitted() =~= self.emitted() + events);
                },
            },
            Phase::PageHeader | Phase::SkipHeader => match spec_parse_page_size(bytes) {
                Err(error) => self.lemma_fail(error),
                Ok(size) => {
                    reveal(ConversionView::wf);
                    assert(after.emitted() =~= self.emitted() + events);
                },
            },
            _ => self.lemma_unchanged(),
        }
    }

    pub proof fn lemma_on_transport_error(self)
        requires
            self.wf(),
        ensures
            self.steps_to(self.on_transport_error().0, self.on_transport_error().1),
    {
        match self.phase {
            Phase::Header | Phase::PageHeader | Phase::Page | Phase::SkipHeader
            | Phase::SkipPage => self.lemma_fail(ConvertError::TransportBroken),
            _ => self.lemma_unchanged(),
        }
    }

    pub proof fn lemma_on_page_started(self)
        requires
            self.wf(),
        ensures
            self.steps_to(self.on_page_started().0, self.on_page_started().1),
    {
        let after = self.on_page_started().0;
        if self.phase == Phase::Page {
            reveal(ConversionView::wf);
            assert forall|i: int, j: int| 0 <= i < j < after.in_flight.len() implies (
            #[trigger] after.in_flight[i]) != (#[trigger] after.in_flight[j]) by {
                assert(after.in_flight[i] == self.in_flight[i]);
            }
            assert(after.emitted() =~= self.emitted() + Seq::<FileEvent>::empty());
        } else {
            self.lemma_unchanged();
        }
    }

    pub proof fn lemma_on_page_failed(self)
        requires
            self.wf(),
        ensures
            self.steps_to(self.on_page_failed().0, self.on_page_failed().1),
    {
        if self.phase == Phase::Page {
            assert(self.failure is None && self.announced && !self.completed && self.received
                + self.skipped + 1 <= self.pages) by {
                reveal(ConversionView::wf);
            }
            self.lemma_falter((self.skipped + 1) as u16);
        } else {
            self.lemma_unchanged();
        }
    }

    pub proof fn lemma_on_encoder_failed(self, page: u16)
        requires
            self.wf(),
        ensures
            self.steps_to(self.on_encoder_failed(page).0, self.on_encoder_failed(page).1),
    {
        if (self.phase == Phase::Slot || self.phase == Phase::Drain) && position(
            self.in_flight,
            page,
        ) < self.in_flight.len() {
            assert(self.failure is None && self.announced && !self.completed && self.received
                + self.skipped <= self.pages) by {
                reveal(ConversionView::wf);
            }
            self.lemma_falter(self.skipped);
        } else {
            self.lemma_unchanged();
        }
    }

    pub proof fn lemma_on_page_discarded(self)
        requires
            self.wf(),
        ensures
            self.steps_to(self.on_page_discarded().0, self.on_page_discarded().1),
    {
        if self.phase == Phase::SkipPage {
            reveal(ConversionView::wf);
            assert(self.on_page_discarded().0.emitted() =~= self.emitted() + Seq::<
                FileEvent,
            >::empty());
        } else {
            self.lemma_unchanged();
        }
    }

    pub proof fn lemma_on_polled(self, pages: Seq<u16>)
        requires
            self.wf(),
        ensures
            self.steps_to(self.on_polled(pages).0, self.on_polled(pages).1),
    {
        let after = self.on_polled(pages).0;
        let events = self.on_polled(pages).1;
        if self.phase == Phase::Slot || self.phase == Phase::Drain {
            reveal(ConversionView::wf);
            self.lemma_reap(pages);
            let reaped = self.reap(pages);
            let fresh = reaped.converted.subrange(
                self.converted.len() as int,
                reaped.converted.len() as int,
            );
            assert(reaped.converted =~= self.converted + fresh) by {
                assert(reaped.converted.subrange(0, self.converted.len() as int)
                    == self.converted);
                assert forall|i: int| 0 <= i < self.converted.len() implies reaped.converted[i]
                    == self.converted[i] by {
                    assert(reaped.converted[i] == reaped.converted.subrange(
                        0,
                        self.converted.len() as int,
                    )[i]);
                }
            }
            assert(page_events(reaped.converted) =~= page_events(self.converted) + page_events(
                fresh,
            ));
            assert(after.emitted() =~= self.emitted() + events);
        } else {
            self.lemma_unchanged();
        }
    }

    pub proof fn lemma_on_assembled(self, success: bool)
        requires
            self.wf(),
        ensures
            self.steps_to(self.on_assembled(success).0, self.on_assembled(success).1),
    {
        if self.phase == Phase::Assemble {
            if success {
                reveal(ConversionView::wf);
                assert(self.on_assembled(success).0.emitted() =~= self.emitted()
                    + self.on_assembled(success).1);
            } else if self.output_type == OutputType::Pdf {
                self.lemma_fail(ConvertError::MergeFailed);
            } else {
                self.lemma_fail(ConvertError::Filesystem);
            }
        } else {
            self.lemma_unchanged();
        }
    }

    pub proof fn lemma_on_retired(self, success: bool)
        requires
            self.wf(),
        ensures
            self.steps_to(self.on_retired(success).0, self.on_retired(success).1),
    {
        if self.phase == Phase::Retire {
            if success {
                reveal(ConversionView::wf);
                assert(self.on_retired(success).0.emitted() =~= self.emitted()
                    + Seq::<FileEvent>::empty());
            } else {
                self.lemma_fail(ConvertError::Filesystem);
            }
        } else {
            self.lemma_unchanged();
        }
    }

    /// Every report keeps the conversion well-formed, and what the
    /// conversion reports in answer is exactly what its record of reports
    /// grows by.
    pub proof fn lemma_step(self, stimulus: Stimulus)
        requires
            self.wf(),
        ensures
            self.step(stimulus).0.wf(),
            self.step(stimulus).0.emitted() == self.emitted() + self.step(stimulus).1,
            self.step(stimulus).0.capacity == self.capacity,
    {
        reveal(ConversionView::step);
        match stimulus {
            Stimulus::Bytes(bytes) => self.lemma_on_bytes(bytes),
            Stimulus::TransportError => self.lemma_on_transport_error(),
            Stimulus::PageStarted => self.lemma_on_page_started(),
            Stimulus::PageFailed => self.lemma_on_page_failed(),
            Stimulus::Polled(pages) => self.lemma_on_polled(pages),
            Stimulus::EncoderFailed(page) => self.lemma_on_encoder_failed(page),
            Stimulus::PageDiscarded => self.lemma_on_page_discarded(),
            Stimulus::Assembled(success) => self.lemma_on_assembled(success),
            Stimulus::Retired(success) => self.lemma_on_retired(success),
        }
    }

    /// What a step can finish: a file becomes converted only by the report
    /// that its trusted output is written, and done only by the report that
    /// its source is archived or removed, which comes when it is converted.
    pub proof fn lemma_step_finishes(self, stimulus: Stimulus)
        requires
            self.wf(),
        ensures
            !self.completed && self.step(stimulus).0.completed ==> stimulus
                == Stimulus::Assembled(true),
            self.phase != Phase::Done && self.step(stimulus).0.phase == Phase::Done ==> stimulus
                == Stimulus::Retired(true) && self.completed,
    {
        reveal(ConversionView::step);
        assert(self.phase == Phase::Retire ==> self.completed) by {
            reveal(ConversionView::wf);
        }
        match stimulus {
            Stimulus::Polled(pages) => {
                assert(self.pool_ok()) by {
                    reveal(ConversionView::wf);
                }
                self.lemma_reap(pages);
            },
            _ => {},
        }
    }

    /// Every run of reports keeps the conversion well-formed, and all that
    /// the conversion reports during the run is exactly what its record of
    /// reports grows by.
    pub proof fn lemma_run(self, stimuli: Seq<Stimulus>)
        requires
            self.wf(),
        ensures
            self.run(stimuli).0.wf(),
            self.run(stimuli).0.emitted() == self.emitted() + self.run(stimuli).1,
            self.run(stimuli).0.capacity == self.capacity,
        decreases stimuli.len(),
    {
        if stimuli.len() == 0 {
            assert(self.emitted() =~= self.emitted() + Seq::<FileEvent>::empty());
        } else {
            self.lemma_run(stimuli.drop_last());
            let before = self.run(stimuli.drop_last());
            before.0.lemma_step(stimuli.last());
            let after = before.0.step(stimuli.last());
            assert(self.emitted() + (before.1 + after.1) =~= (self.emitted() + before.1)
                + after.1);
        }
    }

    /// What a well-formed conversion has reported is in order.
    pub proof fn lemma_emitted_is_ordered(self)
        requires
            self.wf(),
        ensures
            well_ordered(self.emitted()),
    {
        reveal(ConversionView::wf);
        let info = if self.announced {
            Some((self.output_type, self.pages))
        } else {
            None
        };
        assert(self.emitted() == trace(info, self.converted, self.completed, self.failure));
        if self.announced {
            assert(distinct_below(self.converted, self.pages as int));
        }
    }
}

/// Whatever the worker sends and whatever the application reports, in
/// whatever order, the events of one file are in order: one `Info`, then a
/// `PageConverted` for each of some of the announced pages, then `Converted`
/// once every page has had its own; unless a `Failure` ends the file, after
/// which nothing follows.
pub proof fn lemma_events_are_ordered(capacity: u8, stimuli: Seq<Stimulus>)
    requires
        capacity >= 1,
    ensures
        well_ordered(ConversionView::start(capacity).run(stimuli).1),
{
    let start = ConversionView::start(capacity);
    reveal(ConversionView::wf);
    assert(start.wf());
    start.lemma_run(stimuli);
    assert(start.emitted() =~= Seq::<FileEvent>::empty());
    assert(start.emitted() + start.run(stimuli).1 =~= start.run(stimuli).1);
    start.run(stimuli).0.lemma_emitted_is_ordered();
}

/// A conversion that ends well has reported, and nothing else: `Info` with
/// the announced kind and count, one `PageConverted` for each announced page
/// and no page twice, and `Converted` last.
pub proof fn lemma_success_is_complete(capacity: u8, stimuli: Seq<Stimulus>)
    requires
        capacity >= 1,
        ConversionView::start(capacity).run(stimuli).0.phase == Phase::Done,
    ensures
        ({
            let end = ConversionView::start(capacity).run(stimuli);
            &&& end.1 == seq![
                FileEvent::Info { output_type: end.0.output_type, number_pages: end.0.pages },
            ] + page_events(end.0.converted) + seq![FileEvent::Converted]
            &&& end.0.converted.len() == end.0.pages
            &&& distinct_below(end.0.converted, end.0.pages as int)
            &&& end.0.output_type == OutputType::Image ==> end.0.pages == 1
        }),
{
    let start = ConversionView::start(capacity);
    reveal(ConversionView::wf);
    assert(start.wf());
    start.lemma_run(stimuli);
    let end = start.run(stimuli);
    assert(start.emitted() =~= Seq::<FileEvent>::empty());
    assert(start.emitted() + end.1 =~= end.1);
    assert(end.0.emitted() =~= seq![
        FileEvent::Info { output_type: end.0.output_type, number_pages: end.0.pages },
    ] + page_events(end.0.converted) + seq![FileEvent::Converted]);
}

/// At no moment do more encoders run than the capacity allows, and a page
/// is only asked for while one more encoder may run.
pub proof fn lemma_encoders_are_bounded(capacity: u8, stimuli: Seq<Stimulus>)
    requires
        capacity >= 1,
    ensures
        ({
            let now = ConversionView::start(capacity).run(stimuli).0;
            &&& now.in_flight.len() <= capacity
            &&& now.request() is ReceivePage ==> now.in_flight.len() < capacity
        }),
{
    let start = ConversionView::start(capacity);
    reveal(ConversionView::wf);
    assert(start.wf());
    start.lemma_run(stimuli);
}

/// While a page is due, its size is within the caps.
pub proof fn lemma_wf_page(state: ConversionView)
    requires
        state.wf(),
    ensures
        state.request() matches Request::ReceivePage { size, .. } ==> size.within_caps(),
        state.request() matches Request::DiscardPage { size } ==> size.within_caps(),
{
    reveal(ConversionView::wf);
}

/// Whatever the worker announces, the conversion never asks for a page of
/// more bytes than the raster cap, nor for a page beyond the page cap.
pub proof fn lemma_pages_are_capped(capacity: u8, stimuli: Seq<Stimulus>)
    requires
        capacity >= 1,
    ensures
        ({
            let now = ConversionView::start(capacity).run(stimuli).0;
            &&& now.pages <= MAX_PAGES
            &&& now.request() matches Request::ReceivePage { page, size } ==> page < now.pages
                && size.within_caps() && size.spec_byte_len() <= crate::frame::MAX_IMG_SIZE
            &&& now.request() matches Request::DiscardPage { size } ==> size.within_caps()
                && size.spec_byte_len() <= crate::frame::MAX_IMG_SIZE
        }),
{
    let start = ConversionView::start(capacity);
    reveal(ConversionView::wf);
    assert(start.wf());
    start.lemma_run(stimuli);
}

/// An image announced with a page count other than one fails the file at
/// its header: the only report is the failure, and the conversion never
/// asks for a page or for the trusted output to be written.
pub proof fn lemma_image_is_one_page(capacity: u8, header: Seq<u8>, later: Seq<Stimulus>)
    requires
        capacity >= 1,
        header.len() == 3,
        crate::frame::le16(header[0], header[1]) <= MAX_PAGES,
        crate::frame::le16(header[0], header[1]) != 1,
        crate::output_type::kind_of_tag(header[2]) == Some(OutputType::Image),
    ensures
        ({
            let failed = ConversionView::start(capacity).on_bytes(header);
            &&& failed.1 == seq![FileEvent::Failure { error: ConvertError::ImageNotOnePage }]
            &&& failed.0.run(later).1 == Seq::<FileEvent>::empty()
            &&& failed.0.run(later).0.request() == Request::Abandon {
                error: ConvertError::ImageNotOnePage,
                fatal: true,
            }
        }),
{
    let failed = ConversionView::start(capacity).on_bytes(header).0;
    lemma_end_is_final(failed, later);
}

/// Once a conversion has ended, well or not, no report changes it and
/// nothing more is reported.
pub proof fn lemma_end_is_final(ended: ConversionView, later: Seq<Stimulus>)
    requires
        ended.phase == Phase::Failed || ended.phase == Phase::Done,
    ensures
        ended.run(later) == (ended, Seq::<FileEvent>::empty()),
    decreases later.len(),
{
    reveal(ConversionView::step);
    if later.len() > 0 {
        lemma_end_is_final(ended, later.drop_last());
        assert(Seq::<FileEvent>::empty() + Seq::<FileEvent>::empty() =~= Seq::<
            FileEvent,
        >::empty());
    }
}

/// A file is reported as converted only after the application has said
/// that its trusted output is written, and it is done only after the
/// application has said, later, that its source is archived or removed.
pub proof fn lemma_done_after_output_and_retirement(capacity: u8, stimuli: Seq<Stimulus>)
    requires
        capacity >= 1,
    ensures
        ({
            let end = ConversionView::start(capacity).run(stimuli).0;
            &&& end.completed ==> exists|i: int|
                0 <= i < stimuli.len() && #[trigger] stimuli[i] == Stimulus::Assembled(true)
            &&& end.phase == Phase::Done ==> exists|i: int, j: int|
                0 <= i < j < stimuli.len() && #[trigger] stimuli[i] == Stimulus::Assembled(true)
                    && #[trigger] stimuli[j] == Stimulus::Retired(true)
        }),
    decreases stimuli.len(),
{
    let start = ConversionView::start(capacity);
    assert(start.wf()) by {
        reveal(ConversionView::wf);
    }
    if stimuli.len() > 0 {
        let earlier = stimuli.drop_last();
        let before = start.run(earlier).0;
        let end = start.run(stimuli).0;
        lemma_done_after_output_and_retirement(capacity, earlier);
        start.lemma_run(earlier);
        before.lemma_step_finishes(stimuli.last());
        if before.completed {
            let i = choose|i: int|
                0 <= i < earlier.len() && #[trigger] earlier[i] == Stimulus::Assembled(true);
            assert(stimuli[i] == earlier[i]);
            if before.phase == Phase::Done {
                let (i, j) = choose|i: int, j: int|
                    0 <= i < j < earlier.len() && #[trigger] earlier[i] == Stimulus::Assembled(
                        true,
                    ) && #[trigger] earlier[j] == Stimulus::Retired(true);
                assert(stimuli[i] == earlier[i]);
                assert(stimuli[j] == earlier[j]);
            } else if end.phase == Phase::Done {
                assert(stimuli[stimuli.len() - 1] == Stimulus::Retired(true));
            }
        } else if end.completed {
            assert(stimuli[stimuli.len() - 1] == Stimulus::Assembled(true));
        }
    }
}

/// A failure lets the session go on only if the worker's reply for the
/// file has been read to its end: a cap that is broken, a header that
/// cannot be read and a stream that breaks always end the session.
pub proof fn lemma_session_goes_on_only_in_step(capacity: u8, stimuli: Seq<Stimulus>)
    requires
        capacity >= 1,
    ensures
        ({
            let now = ConversionView::start(capacity).run(stimuli).0;
            now.request() matches Request::Abandon { error, fatal } ==> {
                &&& !fatal ==> now.announced && now.received + now.skipped == now.pages
                &&& error.spec_is_fatal() ==> fatal
            }
        }),
{
    let start = ConversionView::start(capacity);
    reveal(ConversionView::wf);
    assert(start.wf());
    start.lemma_run(stimuli);
}

/// The first place where `page` stands is the place before which it does
/// not stand and at which it does.
pub proof fn lemma_position_is(pages: Seq<u16>, page: u16, at: int)
    requires
        0 <= at <= pages.len(),
        forall|i: int| 0 <= i < at ==> pages[i] != page,
        at < pages.len() ==> pages[at] == page,
    ensures
        position(pages, page) == at,
    decreases pages.len(),
{
    if at > 0 {
        let rest = pages.drop_first();
        assert forall|i: int| 0 <= i < at - 1 implies rest[i] != page by {
            assert(rest[i] == pages[i + 1]);
        }
        lemma_position_is(rest, page, at - 1);
    }
}

} // verus!
