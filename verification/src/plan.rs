//! What the client does for a file at each step of its conversion: the
//! request of the state machine, with the names and the commands that
//! belong to this file.

use crate::conversion::{ConversionView, FileConversion, Request};
use crate::error::ConvertError;
use crate::frame::PageSize;
use crate::naming::{
    archive_file_path, page_base, page_png_path, spec_archive_file, spec_page_base, spec_page_png,
    spec_split, spec_trusted_output, split_source_path, trusted_output_path, SourcePath,
};
use crate::output_type::OutputType;
use crate::tools::{
    action_views, assemble_action, encoder_command, retire_actions, spec_assemble,
    spec_encoder_command, spec_retire, Command, CommandView, FileAction, FileActionView,
};
use vstd::prelude::*;
use vstd::string::StringExecFns;

verus! {

/// How long the client waits, in thousandths of a second, before it looks
/// again whether an encoder has ended.
pub const POLL_PAUSE_MS: u64 = 200;

/// What belongs to the conversion of one file besides the worker's reply.
#[derive(Debug)]
pub struct FilePlan {
    /// The path of the source as the file system gives it, if it was found.
    pub source: Option<String>,
    /// The scratch folder of the file.
    pub scratch: String,
    /// The archive folder, with a slash at its end.
    pub archive: String,
    /// Whether the source is removed rather than archived.
    pub in_place: bool,
    /// Language for text recognition; none to leave it out.
    pub ocr: Option<String>,
}

/// A [`FilePlan`] as mathematics sees it.
pub ghost struct PlanView {
    pub source: Option<Seq<char>>,
    pub scratch: Seq<char>,
    pub archive: Seq<char>,
    pub in_place: bool,
    pub ocr: Option<Seq<char>>,
}

impl View for FilePlan {
    type V = PlanView;

    open spec fn view(&self) -> PlanView {
        PlanView {
            source: match self.source {
                Some(path) => Some(path@),
                None => None,
            },
            scratch: self.scratch@,
            archive: self.archive@,
            in_place: self.in_place,
            ocr: match self.ocr {
                Some(language) => Some(language@),
                None => None,
            },
        }
    }
}

/// What the application is to do next, in full.
#[derive(Debug)]
pub enum Directive {
    /// Read exactly `length` bytes from the worker and hand them over.
    ReadHeader { length: usize },
    /// Look which of the encoders of `pages` have ended, after a pause of
    /// `pause_ms` thousandths of a second, and report those that have: the
    /// first that ended badly if there is one, else all that ended well.
    Poll { pause_ms: u64, pages: Vec<u16> },
    /// Read exactly `length` bytes of pixels from the worker, store their
    /// PNG encoding at `png`, and start `encoder` if there is one.
    ReceivePage { page: u16, size: PageSize, length: usize, png: String, encoder: Option<Command> },
    /// Wait until the encoder of `page` has ended, and report how it ended.
    Await { page: u16 },
    /// Read exactly `length` bytes of pixels from the worker and drop them.
    DiscardPage { length: usize },
    /// Write the trusted output, and report whether that went well.
    Assemble { action: FileAction },
    /// Archive or remove the source, one step after the other, and report
    /// whether all went well.
    Retire { actions: Vec<FileAction> },
    /// Report that the trusted output could not be written: the source was
    /// not found, so that there is no place for it.
    CannotAssemble,
    /// Report that the source could not be archived or removed: it was not
    /// found.
    CannotRetire,
    /// Remove the scratch folder `remove` with all that is in it; nothing
    /// more: the file is converted.
    Finished { remove: String },
    /// Stop the encoders that still run and remove the scratch folder
    /// `remove` with all that is in it; nothing more: the file has failed.
    /// If `fatal`, so has the session.
    Abandon { error: ConvertError, fatal: bool, remove: String },
}

/// A [`Directive`] as mathematics sees it.
pub ghost enum DirectiveView {
    ReadHeader { length: usize },
    Poll { pause_ms: u64, pages: Seq<u16> },
    ReceivePage {
        page: u16,
        size: PageSize,
        length: usize,
        png: Seq<char>,
        encoder: Option<CommandView>,
    },
    Await { page: u16 },
    DiscardPage { length: usize },
    Assemble { action: FileActionView },
    Retire { actions: Seq<FileActionView> },
    CannotAssemble,
    CannotRetire,
    Finished { remove: Seq<char> },
    Abandon { error: ConvertError, fatal: bool, remove: Seq<char> },
}

impl View for Directive {
    type V = DirectiveView;

    open spec fn view(&self) -> DirectiveView {
        match *self {
            Directive::ReadHeader { length } => DirectiveView::ReadHeader { length },
            Directive::Poll { pause_ms, pages } => DirectiveView::Poll { pause_ms, pages: pages@ },
            Directive::ReceivePage { page, size, length, png, encoder } => {
                DirectiveView::ReceivePage {
                    page,
                    size,
                    length,
                    png: png@,
                    encoder: match encoder {
                        Some(command) => Some(command@),
                        None => None,
                    },
                }
            },
            Directive::Await { page } => DirectiveView::Await { page },
            Directive::DiscardPage { length } => DirectiveView::DiscardPage { length },
            Directive::Assemble { action } => DirectiveView::Assemble { action: action@ },
            Directive::Retire { actions } => DirectiveView::Retire {
                actions: action_views(actions@),
            },
            Directive::CannotAssemble => DirectiveView::CannotAssemble,
            Directive::CannotRetire => DirectiveView::CannotRetire,
            Directive::Finished { remove } => DirectiveView::Finished { remove: remove@ },
            Directive::Abandon { error, fatal, remove } => DirectiveView::Abandon {
                error,
                fatal,
                remove: remove@,
            },
        }
    }
}

impl PlanView {
    /// What is to be done for the file whose conversion stands at `state`:
    /// the request of the state machine, with the names of this file. The
    /// trusted output goes beside the source, under the source's stem; the
    /// source is archived under its own name. Where the source was not
    /// found, neither can be done. However the conversion ends, its last
    /// directive has the scratch folder of the file removed. Before it
    /// looks a second time whether an encoder has ended, the client waits a
    /// fifth of a second.
    pub open spec fn directive(self, state: ConversionView) -> DirectiveView {
        match state.request() {
            Request::ReadFileHeader => DirectiveView::ReadHeader {
                length: crate::frame::FILE_HEADER_LEN,
            },
            Request::ReadPageHeader => DirectiveView::ReadHeader {
                length: crate::frame::PAGE_HEADER_LEN,
            },
            Request::Poll { sleep_first } => DirectiveView::Poll {
                pause_ms: if sleep_first {
                    POLL_PAUSE_MS
                } else {
                    0
                },
                pages: state.in_flight,
            },
            Request::ReceivePage { page, size } => DirectiveView::ReceivePage {
                page,
                size,
                length: size.spec_byte_len() as usize,
                png: spec_page_png(spec_page_base(self.scratch, page)),
                encoder: spec_encoder_command(
                    state.output_type,
                    self.ocr,
                    spec_page_base(self.scratch, page),
                ),
            },
            Request::Await { page } => DirectiveView::Await { page },
            Request::DiscardPage { size } => DirectiveView::DiscardPage {
                length: size.spec_byte_len() as usize,
            },
            Request::Assemble { output_type, number_pages } => match self.parts() {
                Some(parts) => DirectiveView::Assemble {
                    action: spec_assemble(
                        output_type,
                        self.scratch,
                        number_pages,
                        spec_trusted_output(parts, output_type),
                    ),
                },
                None => DirectiveView::CannotAssemble,
            },
            Request::Retire => match self.parts() {
                Some(parts) => DirectiveView::Retire {
                    actions: spec_retire(
                        self.in_place,
                        self.source.unwrap(),
                        spec_archive_file(self.archive, parts),
                    ),
                },
                None => DirectiveView::CannotRetire,
            },
            Request::Finished => DirectiveView::Finished { remove: self.scratch },
            Request::Abandon { error, fatal } => DirectiveView::Abandon {
                error,
                fatal,
                remove: self.scratch,
            },
        }
    }

    /// The parts of the source's path, if the source was found and its path
    /// names a file.
    pub open spec fn parts(self) -> Option<crate::naming::SourcePathView> {
        match self.source {
            Some(path) => spec_split(path),
            None => None,
        }
    }
}

impl FilePlan {
    fn parts(&self) -> (parts: Option<SourcePath>)
        ensures
            match self@.parts() {
                Some(view) => parts matches Some(found) && found@ == view,
                None => parts is None,
            },
    {
        match &self.source {
            Some(path) => split_source_path(path.as_str()),
            None => None,
        }
    }

    /// What the application is to do next for the file whose conversion is
    /// `conversion`.
    pub fn directive(&self, conversion: &FileConversion) -> (directive: Directive)
        requires
            conversion@.wf(),
        ensures
            directive@ == self@.directive(conversion@),
    {
        proof {
            crate::conversion_laws::lemma_wf_page(conversion@);
        }
        match conversion.request() {
            Request::ReadFileHeader => Directive::ReadHeader {
                length: crate::frame::FILE_HEADER_LEN,
            },
            Request::ReadPageHeader => Directive::ReadHeader {
                length: crate::frame::PAGE_HEADER_LEN,
            },
            Request::Poll { sleep_first } => Directive::Poll {
                pause_ms: if sleep_first {
                    POLL_PAUSE_MS
                } else {
                    0
                },
                pages: conversion.pages_in_flight(),
            },
            Request::ReceivePage { page, size } => {
                let base = page_base(self.scratch.as_str(), page);
                Directive::ReceivePage {
                    page,
                    size,
                    length: size.byte_len(),
                    png: page_png_path(base.as_str()),
                    encoder: encoder_command(conversion.output_type(), &self.ocr, base.as_str()),
                }
            },
            Request::Await { page } => Directive::Await { page },
            Request::DiscardPage { size } => Directive::DiscardPage { length: size.byte_len() },
            Request::Assemble { output_type, number_pages } => match self.parts() {
                Some(parts) => {
                    let output = trusted_output_path(&parts, output_type);
                    Directive::Assemble {
                        action: assemble_action(
                            output_type,
                            self.scratch.as_str(),
                            number_pages,
                            output.as_str(),
                        ),
                    }
                },
                None => Directive::CannotAssemble,
            },
            Request::Retire => match self.parts() {
                Some(parts) => {
                    let archived = archive_file_path(self.archive.as_str(), &parts);
                    match &self.source {
                        Some(path) => Directive::Retire {
                            actions: retire_actions(
                                self.in_place,
                                path.as_str(),
                                archived.as_str(),
                            ),
                        },
                        None => Directive::CannotRetire,
                    }
                },
                None => Directive::CannotRetire,
            },
            Request::Finished => Directive::Finished {
                remove: String::from_str(self.scratch.as_str()),
            },
            Request::Abandon { error, fatal } => Directive::Abandon {
                error,
                fatal,
                remove: String::from_str(self.scratch.as_str()),
            },
        }
    }
}

/// Whatever the worker sends and whatever the application reports, a
/// conversion that has ended, well or not, asks for the scratch folder of
/// its file to be removed, and asks for nothing else any more.
pub proof fn lemma_scratch_is_removed(
    plan: PlanView,
    capacity: u8,
    stimuli: Seq<crate::conversion::Stimulus>,
    later: Seq<crate::conversion::Stimulus>,
)
    requires
        capacity >= 1,
        ({
            let end = ConversionView::start(capacity).run(stimuli).0;
            end.phase == crate::conversion::Phase::Done || end.phase
                == crate::conversion::Phase::Failed
        }),
    ensures
        ({
            let end = ConversionView::start(capacity).run(stimuli).0;
            &&& plan.directive(end) matches DirectiveView::Finished { remove } ==> remove
                == plan.scratch
            &&& plan.directive(end) matches DirectiveView::Abandon { remove, .. } ==> remove
                == plan.scratch
            &&& plan.directive(end) is Finished || plan.directive(end) is Abandon
            &&& plan.directive(end.run(later).0) == plan.directive(end)
        }),
{
    let start = ConversionView::start(capacity);
    let end = start.run(stimuli).0;
    reveal(ConversionView::wf);
    assert(start.wf());
    start.lemma_run(stimuli);
    crate::conversion_laws::lemma_end_is_final(end, later);
}

} // verus!
