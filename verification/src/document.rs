//! The worker's way through a document: an office file is made into a PDF,
//! decrypted first if it must be; a PDF is split into pages; the pages are
//! drawn, a bounded number at a time, and sent in their order.
//!
//! The way is a state machine over numbers. The worker does what the
//! machine asks for and reports how it went.

use crate::producer::ProducerError;
use vstd::prelude::*;

verus! {

/// Most page drawers that run at once.
pub const MAX_RASTERIZERS: usize = 25;

/// The port on which the office suite serves while a document is
/// decrypted.
pub const OFFICE_PORT: u16 = 2202;

/// Which password a helper is given.
#[derive(Eq, PartialEq, Copy, Clone, Debug, Structural)]
pub enum Secret {
    /// The one that came with the request.
    Default,
    /// The one that the user entered last.
    Entered,
}

/// What the worker is waiting for.
#[derive(Eq, PartialEq, Copy, Clone, Debug, Structural)]
pub enum Stage {
    /// The office suite, converting the document as it is.
    Direct,
    /// The office suite's server, to accept connections.
    Server,
    /// An attempt to decrypt the document.
    Decrypt { with: Secret },
    /// The user, to enter the document's password.
    OfficePrompt,
    /// The decrypted copy, to take the document's place.
    Rename,
    /// The office suite, converting the decrypted document.
    Reconvert,
    /// An attempt to split the PDF into pages.
    Split { with: Secret },
    /// The user, to enter the PDF's password.
    SplitPrompt,
    /// The list of the pages that the split left.
    Pages,
    /// The drawers of the pages, to be started or to make room.
    Rasterize,
    /// The header of the reply, to be written.
    Header,
    /// The drawer of the next page to send, to end.
    Await,
    /// The next page, to be sent.
    Send,
    /// Nothing: the document is sent.
    Done,
    /// Nothing: the worker gives up.
    Failed { error: ProducerError },
}

/// What the worker reports.
#[derive(Eq, PartialEq, Copy, Clone, Debug, Structural)]
pub enum Report {
    /// The office suite has run; `made` says whether the PDF is there.
    Converted { made: bool },
    /// The server was tried; `up` says whether it answered.
    Probed { up: bool },
    /// A decryption was attempted; `opened` says whether it succeeded.
    Decrypted { opened: bool },
    /// The user has entered a password.
    Password,
    /// The decrypted copy was moved, or could not be.
    Renamed { moved: bool },
    /// A split was attempted; `done` says whether it succeeded.
    Split { done: bool },
    /// The split left this many pages.
    Listed { pages: usize },
    /// The drawer asked for runs.
    Started,
    /// The drawers were counted: this many still run.
    Counted { running: usize },
    /// The header is written.
    HeaderWritten,
    /// The drawer awaited has ended, well or not.
    Drawn { well: bool },
    /// The page asked for is sent.
    Sent,
    /// The page asked for cannot be sent.
    Unsendable { error: ProducerError },
    /// A helper could not be started.
    HelperFailed,
}

/// What the worker is to do next.
#[derive(Eq, PartialEq, Copy, Clone, Debug, Structural)]
pub enum Task {
    /// Run the office suite on the document, to make a PDF of it.
    ConvertToPdf,
    /// Start the office suite's server and try to connect to it.
    StartServer,
    /// Try to connect to the server, after a second's pause if
    /// `sleep_first`.
    ProbeServer { sleep_first: bool },
    /// Have the document decrypted with the password named.
    Decrypt { with: Secret },
    /// Ask the user for a password.
    Prompt,
    /// Move the decrypted copy to the document's place.
    Rename,
    /// Have the PDF split with the password named.
    Split { with: Secret },
    /// List the pages that the split left, in the order of their names.
    ListPages,
    /// Start the drawer of `page`.
    StartRasterizer { page: u16 },
    /// Count the drawers that still run, after a pause if `sleep_first`.
    CountRasterizers { sleep_first: bool },
    /// Write the header of the reply, which announces `pages` pages.
    WriteHeader { pages: u16 },
    /// Wait for the drawer of `page` to end.
    AwaitRasterizer { page: u16 },
    /// Send `page`.
    SendPage { page: u16 },
    /// Nothing more: the document is sent.
    Finish,
    /// Nothing more: end with this error.
    GiveUp { error: ProducerError },
}

/// The worker's place on its way through a document.
#[derive(Eq, PartialEq, Copy, Clone, Debug, Structural)]
pub struct DocumentFlow {
    pub stage: Stage,
    /// Whether the request came with a password.
    pub has_default_password: bool,
    /// Whether the office suite's server has been started in this session.
    pub server_started: bool,
    /// Whether the server was tried and did not answer, or the drawers were
    /// counted and none had ended.
    pub waited: bool,
    /// Pages that the split left.
    pub pages: u16,
    /// Pages whose drawer was started.
    pub started: u16,
    /// Drawers that ran when they were last counted or started.
    pub running: usize,
    /// Whether the header of the reply is written.
    pub header_written: bool,
    /// Pages sent.
    pub sent: u16,
}

impl DocumentFlow {
    /// The start of the way for an office document. Only one server of the
    /// office suite runs in a session: `server_started` says whether an
    /// earlier document has had it started.
    pub open spec fn spec_office(has_default_password: bool, server_started: bool)
        -> DocumentFlow {
        DocumentFlow {
            stage: Stage::Direct,
            has_default_password,
            server_started,
            waited: false,
            pages: 0,
            started: 0,
            running: 0,
            header_written: false,
            sent: 0,
        }
    }

    /// The start of the way for a PDF.
    pub open spec fn spec_pdf(has_default_password: bool) -> DocumentFlow {
        DocumentFlow {
            stage: Stage::Split { with: Secret::Default },
            ..DocumentFlow::spec_office(has_default_password, false)
        }
    }

    /// What holds at every place on the way.
    pub open spec fn wf(self) -> bool {
        &&& self.sent <= self.started <= self.pages
        &&& self.running <= MAX_RASTERIZERS
        &&& self.running <= self.started
        &&& self.header_written ==> self.started == self.pages
        &&& self.sent > 0 ==> self.header_written
        &&& match self.stage {
            Stage::Rasterize => self.started < self.pages && !self.header_written,
            Stage::Header => self.started == self.pages && !self.header_written,
            Stage::Await => self.header_written && self.sent < self.pages,
            Stage::Send => self.header_written && self.sent < self.pages,
            Stage::Done => self.header_written && self.sent == self.pages,
            Stage::Failed { .. } => true,
            _ => self.pages == 0 && !self.header_written && self.running == 0,
        }
    }

    /// What the worker is to do next.
    pub open spec fn spec_task(self) -> Task {
        match self.stage {
            Stage::Direct => Task::ConvertToPdf,
            Stage::Server => if self.server_started {
                Task::ProbeServer { sleep_first: self.waited }
            } else {
                Task::StartServer
            },
            Stage::Decrypt { with } => Task::Decrypt { with },
            Stage::OfficePrompt => Task::Prompt,
            Stage::Rename => Task::Rename,
            Stage::Reconvert => Task::ConvertToPdf,
            Stage::Split { with } => Task::Split { with },
            Stage::SplitPrompt => Task::Prompt,
            Stage::Pages => Task::ListPages,
            Stage::Rasterize => if self.running >= MAX_RASTERIZERS {
                Task::CountRasterizers { sleep_first: self.waited }
            } else {
                Task::StartRasterizer { page: self.started }
            },
            Stage::Header => Task::WriteHeader { pages: self.pages },
            Stage::Await => Task::AwaitRasterizer { page: self.sent },
            Stage::Send => Task::SendPage { page: self.sent },
            Stage::Done => Task::Finish,
            Stage::Failed { error } => Task::GiveUp { error },
        }
    }

    /// The way after a failure.
    pub open spec fn fail(self, error: ProducerError) -> DocumentFlow {
        DocumentFlow { stage: Stage::Failed { error }, waited: false, ..self }
    }

    /// The way from `stage` on, with nothing waited for yet.
    pub open spec fn at(self, stage: Stage) -> DocumentFlow {
        DocumentFlow { stage, waited: false, ..self }
    }

    /// The way after one report. A report that does not answer what was
    /// asked changes nothing.
    pub open spec fn spec_step(self, report: Report) -> DocumentFlow {
        match (self.stage, report) {
            (Stage::Done, _) => self,
            (Stage::Failed { .. }, _) => self,
            (_, Report::HelperFailed) => self.fail(ProducerError::Helper),
            (Stage::Direct, Report::Converted { made }) => if made {
                self.at(Stage::Split { with: Secret::Default })
            } else {
                self.at(Stage::Server)
            },
            (Stage::Server, Report::Probed { up }) => {
                let served = DocumentFlow { server_started: true, ..self };
                if !up {
                    DocumentFlow { waited: true, ..served }
                } else if self.has_default_password {
                    served.at(Stage::Decrypt { with: Secret::Default })
                } else {
                    served.at(Stage::OfficePrompt)
                }
            },
            (Stage::Decrypt { .. }, Report::Decrypted { opened }) => if opened {
                self.at(Stage::Rename)
            } else {
                self.at(Stage::OfficePrompt)
            },
            (Stage::OfficePrompt, Report::Password) => self.at(
                Stage::Decrypt { with: Secret::Entered },
            ),
            (Stage::Rename, Report::Renamed { moved }) => if moved {
                self.at(Stage::Reconvert)
            } else {
                self.fail(ProducerError::Helper)
            },
            (Stage::Reconvert, Report::Converted { made }) => if made {
                self.at(Stage::Split { with: Secret::Default })
            } else {
                self.fail(ProducerError::ConversionFailed)
            },
            (Stage::Split { .. }, Report::Split { done }) => if done {
                self.at(Stage::Pages)
            } else {
                self.at(Stage::SplitPrompt)
            },
            (Stage::SplitPrompt, Report::Password) => self.at(
                Stage::Split { with: Secret::Entered },
            ),
            (Stage::Pages, Report::Listed { pages }) => if pages > 0xffff {
                self.fail(ProducerError::TooManyPages)
            } else if pages == 0 {
                self.at(Stage::Header)
            } else {
                DocumentFlow { pages: pages as u16, ..self.at(Stage::Rasterize) }
            },
            (Stage::Rasterize, Report::Started) => if self.running >= MAX_RASTERIZERS {
                self
            } else {
                let begun = DocumentFlow {
                    started: (self.started + 1) as u16,
                    running: (self.running + 1) as usize,
                    ..self
                };
                if begun.started == begun.pages {
                    begun.at(Stage::Header)
                } else {
                    begun.at(Stage::Rasterize)
                }
            },
            (Stage::Rasterize, Report::Counted { running }) => if self.running
                < MAX_RASTERIZERS {
                self
            } else if running < MAX_RASTERIZERS {
                DocumentFlow { running, waited: false, ..self }
            } else {
                DocumentFlow { waited: true, ..self }
            },
            (Stage::Header, Report::HeaderWritten) => {
                let announced = DocumentFlow { header_written: true, ..self };
                if announced.pages == 0 {
                    announced.at(Stage::Done)
                } else {
                    announced.at(Stage::Await)
                }
            },
            (Stage::Await, Report::Drawn { well }) => if well {
                self.at(Stage::Send)
            } else {
                self.fail(ProducerError::RasterizerFailed)
            },
            (Stage::Send, Report::Sent) => {
                let sent = DocumentFlow { sent: (self.sent + 1) as u16, ..self };
                if sent.sent == sent.pages {
                    sent.at(Stage::Done)
                } else {
                    sent.at(Stage::Await)
                }
            },
            (Stage::Send, Report::Unsendable { error }) => self.fail(error),
            _ => self,
        }
    }

    /// The way after a run of reports.
    pub open spec fn spec_run(self, reports: Seq<Report>) -> DocumentFlow
        decreases reports.len(),
    {
        if reports.len() == 0 {
            self
        } else {
            self.spec_run(reports.drop_last()).spec_step(reports.last())
        }
    }

    /// What has been written to the client so far, as the pages announced,
    /// if any were, and the pages sent.
    pub open spec fn written(self) -> (Option<u16>, Seq<u16>) {
        (
            if self.header_written {
                Some(self.pages)
            } else {
                None
            },
            Seq::new(self.sent as nat, |page: int| page as u16),
        )
    }

    /// Starts the way for an office document. `server_started` says whether
    /// the office suite's server was started for an earlier document.
    pub fn office(has_default_password: bool, server_started: bool) -> (flow: DocumentFlow)
        ensures
            flow == DocumentFlow::spec_office(has_default_password, server_started),
            flow.wf(),
    {
        DocumentFlow {
            stage: Stage::Direct,
            has_default_password,
            server_started,
            waited: false,
            pages: 0,
            started: 0,
            running: 0,
            header_written: false,
            sent: 0,
        }
    }

    /// Starts the way for a PDF.
    pub fn pdf(has_default_password: bool) -> (flow: DocumentFlow)
        ensures
            flow == DocumentFlow::spec_pdf(has_default_password),
            flow.wf(),
    {
        DocumentFlow {
            stage: Stage::Split { with: Secret::Default },
            has_default_password,
            server_started: false,
            waited: false,
            pages: 0,
            started: 0,
            running: 0,
            header_written: false,
            sent: 0,
        }
    }

    /// What the worker is to do next.
    pub fn task(&self) -> (task: Task)
        ensures
            task == self.spec_task(),
    {
        match self.stage {
            Stage::Direct => Task::ConvertToPdf,
            Stage::Server => if self.server_started {
                Task::ProbeServer { sleep_first: self.waited }
            } else {
                Task::StartServer
            },
            Stage::Decrypt { with } => Task::Decrypt { with },
            Stage::OfficePrompt => Task::Prompt,
            Stage::Rename => Task::Rename,
            Stage::Reconvert => Task::ConvertToPdf,
            Stage::Split { with } => Task::Split { with },
            Stage::SplitPrompt => Task::Prompt,
            Stage::Pages => Task::ListPages,
            Stage::Rasterize => if self.running >= MAX_RASTERIZERS {
                Task::CountRasterizers { sleep_first: self.waited }
            } else {
                Task::StartRasterizer { page: self.started }
            },
            Stage::Header => Task::WriteHeader { pages: self.pages },
            Stage::Await => Task::AwaitRasterizer { page: self.sent },
            Stage::Send => Task::SendPage { page: self.sent },
            Stage::Done => Task::Finish,
            Stage::Failed { error } => Task::GiveUp { error },
        }
    }

    fn to(&self, stage: Stage) -> (flow: DocumentFlow)
        ensures
            flow == self.at(stage),
    {
        let mut flow = *self;
        flow.stage = stage;
        flow.waited = false;
        flow
    }

    fn failed(&self, error: ProducerError) -> (flow: DocumentFlow)
        ensures
            flow == self.fail(error),
    {
        self.to(Stage::Failed { error })
    }

    /// Takes a report of the worker and moves on.
    pub fn step(&self, report: Report) -> (flow: DocumentFlow)
        requires
            self.wf(),
        ensures
            flow == self.spec_step(report),
            flow.wf(),
    {
        let mut flow = *self;
        match (self.stage, report) {
            (Stage::Done, _) => {},
            (Stage::Failed { .. }, _) => {},
            (_, Report::HelperFailed) => {
                flow = self.failed(ProducerError::Helper);
            },
            (Stage::Direct, Report::Converted { made }) => {
                flow = if made {
                    self.to(Stage::Split { with: Secret::Default })
                } else {
                    self.to(Stage::Server)
                };
            },
            (Stage::Server, Report::Probed { up }) => {
                flow.server_started = true;
                if !up {
                    flow.waited = true;
                } else if self.has_default_password {
                    flow = flow.to(Stage::Decrypt { with: Secret::Default });
                } else {
                    flow = flow.to(Stage::OfficePrompt);
                }
            },
            (Stage::Decrypt { .. }, Report::Decrypted { opened }) => {
                flow = if opened {
                    self.to(Stage::Rename)
                } else {
                    self.to(Stage::OfficePrompt)
                };
            },
            (Stage::OfficePrompt, Report::Password) => {
                flow = self.to(Stage::Decrypt { with: Secret::Entered });
            },
            (Stage::Rename, Report::Renamed { moved }) => {
                flow = if moved {
                    self.to(Stage::Reconvert)
                } else {
                    self.failed(ProducerError::Helper)
                };
            },
            (Stage::Reconvert, Report::Converted { made }) => {
                flow = if made {
                    self.to(Stage::Split { with: Secret::Default })
                } else {
                    self.failed(ProducerError::ConversionFailed)
                };
            },
            (Stage::Split { .. }, Report::Split { done }) => {
                flow = if done {
                    self.to(Stage::Pages)
                } else {
                    self.to(Stage::SplitPrompt)
                };
            },
            (Stage::SplitPrompt, Report::Password) => {
                flow = self.to(Stage::Split { with: Secret::Entered });
            },
            (Stage::Pages, Report::Listed { pages }) => {
                if pages > 0xffff {
                    flow = self.failed(ProducerError::TooManyPages);
                } else if pages == 0 {
                    flow = self.to(Stage::Header);
                } else {
                    flow = self.to(Stage::Rasterize);
                    flow.pages = pages as u16;
                }
            },
            (Stage::Rasterize, Report::Started) => {
                if self.running < MAX_RASTERIZERS {
                    flow.started = self.started + 1;
                    flow.running = self.running + 1;
                    flow = if flow.started == flow.pages {
                        flow.to(Stage::Header)
                    } else {
                        flow.to(Stage::Rasterize)
                    };
                }
            },
            (Stage::Rasterize, Report::Counted { running }) => {
                if self.running >= MAX_RASTERIZERS {
                    if running < MAX_RASTERIZERS {
                        flow.running = running;
                        flow.waited = false;
                    } else {
                        flow.waited = true;
                    }
                }
            },
            (Stage::Header, Report::HeaderWritten) => {
                flow.header_written = true;
                flow = if flow.pages == 0 {
                    flow.to(Stage::Done)
                } else {
                    flow.to(Stage::Await)
                };
            },
            (Stage::Await, Report::Drawn { well }) => {
                flow = if well {
                    self.to(Stage::Send)
                } else {
                    self.failed(ProducerError::RasterizerFailed)
                };
            },
            (Stage::Send, Report::Sent) => {
                flow.sent = self.sent + 1;
                flow = if flow.sent == flow.pages {
                    flow.to(Stage::Done)
                } else {
                    flow.to(Stage::Await)
                };
            },
            (Stage::Send, Report::Unsendable { error }) => {
                flow = self.failed(error);
            },
            _ => {},
        }
        flow
    }
}

/// Every report keeps the way well-formed.
pub proof fn lemma_step_keeps_wf(flow: DocumentFlow, report: Report)
    requires
        flow.wf(),
    ensures
        flow.spec_step(report).wf(),
{
}

/// Whatever is reported, in whatever order, at no moment do more than the
/// allowed number of page drawers run, and a drawer is only asked for while
/// one more may run.
pub proof fn lemma_rasterizers_are_bounded(start: DocumentFlow, reports: Seq<Report>)
    requires
        start.wf(),
    ensures
        start.spec_run(reports).wf(),
        start.spec_run(reports).running <= MAX_RASTERIZERS,
        start.spec_run(reports).spec_task() is StartRasterizer ==> start.spec_run(reports).running
            < MAX_RASTERIZERS,
    decreases reports.len(),
{
    if reports.len() > 0 {
        lemma_rasterizers_are_bounded(start, reports.drop_last());
        lemma_step_keeps_wf(start.spec_run(reports.drop_last()), reports.last());
    }
}

/// Whatever is reported, the reply for a document is one header and then
/// the pages in the order of their index: no page is asked to be sent
/// before the header is written, the page asked for is always the one after
/// the last page sent, and a document is done only once as many pages are
/// sent as the header announced.
pub proof fn lemma_reply_is_in_order(start: DocumentFlow, reports: Seq<Report>)
    requires
        start.wf(),
    ensures
        ({
            let now = start.spec_run(reports);
            &&& now.spec_task() matches Task::SendPage { page } ==> now.header_written && page
                == now.sent && page < now.pages
            &&& now.spec_task() matches Task::WriteHeader { pages } ==> !now.header_written
                && now.sent == 0 && pages == now.pages
            &&& now.stage == Stage::Done ==> now.written() == (
                Some(now.pages),
                Seq::new(now.pages as nat, |page: int| page as u16),
            )
        }),
{
    lemma_rasterizers_are_bounded(start, reports);
}

/// One report moves the reply on by at most one item: the header, or the
/// page after the last one sent.
pub proof fn lemma_reply_grows_in_order(flow: DocumentFlow, report: Report)
    requires
        flow.wf(),
    ensures
        ({
            let next = flow.spec_step(report);
            &&& next.sent == flow.sent || (next.sent == flow.sent + 1 && flow.spec_task() == (
            Task::SendPage { page: flow.sent }) && report == Report::Sent)
            &&& next.header_written == flow.header_written || (next.header_written
                && flow.spec_task() == (Task::WriteHeader { pages: flow.pages }) && next.pages
                == flow.pages)
            &&& flow.header_written ==> next.pages == flow.pages
        }),
{
}

/// The office suite's server is started at most once in a session: once it
/// has been tried, it is never asked to be started again.
pub proof fn lemma_one_server(start: DocumentFlow, reports: Seq<Report>)
    requires
        start.server_started,
    ensures
        start.spec_run(reports).server_started,
        start.spec_run(reports).spec_task() != Task::StartServer,
    decreases reports.len(),
{
    if reports.len() > 0 {
        lemma_one_server(start, reports.drop_last());
    }
}

/// A document is decrypted with the password of the request first, and
/// only if there is one; after a password that does not open it, the user
/// is asked, as many times as it takes.
pub proof fn lemma_passwords_in_turn(flow: DocumentFlow, report: Report)
    requires
        flow.wf(),
    ensures
        ({
            let next = flow.spec_step(report);
            &&& next.stage == (Stage::Decrypt { with: Secret::Default }) && flow.stage
                != next.stage ==> flow.stage == Stage::Server && flow.has_default_password
            &&& flow.stage is Decrypt && report == (Report::Decrypted { opened: false })
                ==> next.spec_task() == Task::Prompt
            &&& flow.stage is Split && report == (Report::Split { done: false })
                ==> next.spec_task() == Task::Prompt
            &&& flow.spec_task() == Task::Prompt && report == Report::Password ==> (
            next.spec_task() == (Task::Decrypt { with: Secret::Entered }) || next.spec_task() == (
            Task::Split { with: Secret::Entered }))
        }),
{
}

} // verus!
