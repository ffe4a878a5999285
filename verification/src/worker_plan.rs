//! What the worker does for a document at each step of its way: the task
//! of the state machine, with the names and the commands that belong to
//! this document.

use crate::document::{DocumentFlow, Secret, Task};
use crate::frame::FileHeader;
use crate::output_type::OutputType;
use crate::producer::ProducerError;
use crate::tools::{texts, Command, CommandView};
use crate::worker_tools::{
    converted_document, decrypted_document, decrypter, office_converter, office_server,
    page_image, page_pattern, prompter, rasterizer, server_address, spec_converted_document,
    spec_decrypted_document, spec_decrypter, spec_office_converter, spec_office_server,
    spec_page_image, spec_page_pattern, spec_prompter, spec_rasterizer, spec_server_address,
    spec_splitter, spec_working_file, splitter, working_file,
};
use vstd::prelude::*;
use vstd::string::StringExecFns;

verus! {

/// How long the worker waits, in thousandths of a second, before it tries
/// again to connect to the office suite's server.
pub const SERVER_PAUSE_MS: u64 = 1_000;

/// How long the worker waits, in thousandths of a second, before it counts
/// again the page drawers that run.
pub const RASTERIZER_PAUSE_MS: u64 = 100;

/// What belongs to a document on its way through the worker.
#[derive(Debug)]
pub struct DocumentPlan {
    /// The scratch folder of the document.
    pub folder: String,
    /// The password that came with the request.
    pub default_password: String,
    /// The password that the user entered last.
    pub entered: String,
    /// The pages that the split left, in the order of their names.
    pub pages: Vec<String>,
}

/// A [`DocumentPlan`] as mathematics sees it.
pub ghost struct DocumentPlanView {
    pub folder: Seq<char>,
    pub default_password: Seq<char>,
    pub entered: Seq<char>,
    pub pages: Seq<Seq<char>>,
}

impl View for DocumentPlan {
    type V = DocumentPlanView;

    open spec fn view(&self) -> DocumentPlanView {
        DocumentPlanView {
            folder: self.folder@,
            default_password: self.default_password@,
            entered: self.entered@,
            pages: texts(self.pages@),
        }
    }
}

/// What the worker is to do next, in full.
#[derive(Debug)]
pub enum Job {
    /// Run the command to its end, which must be a good one. The PDF is
    /// made if `made` exists afterwards; it then takes the place of
    /// `document`.
    ConvertToPdf { command: Command, made: String, document: String },
    /// Start the command and leave it running, then try `address`.
    StartServer { command: Command, address: String },
    /// Try to connect to `address`, after a pause of `pause_ms` thousandths
    /// of a second.
    ProbeServer { pause_ms: u64, address: String },
    /// Run the command to its end; the document is opened if it ends well.
    Decrypt { command: Command },
    /// Run the command to its end, which must be a good one; the password
    /// is the first line of what it prints.
    Prompt { command: Command },
    /// Move `from` to `to`.
    Rename { from: String, to: String },
    /// Run the command in `folder` to its end; the split is done if it ends
    /// well.
    Split { command: Command, folder: String },
    /// List the files that match `pattern`, in the order of their names.
    ListPages { pattern: String },
    /// Start the command in `folder` and keep it as the drawer of `page`.
    StartRasterizer { page: u16, command: Command, folder: String },
    /// Count the drawers that still run, after a pause of `pause_ms`
    /// thousandths of a second.
    CountRasterizers { pause_ms: u64 },
    /// Write the bytes to the client.
    WriteHeader { header: Vec<u8> },
    /// Wait for the drawer of `page` to end.
    AwaitRasterizer { page: u16 },
    /// Send the image at `image` as the next page, and remove it.
    SendPage { page: u16, image: String },
    /// Report that a helper failed: the page asked for is not among those
    /// that were listed.
    Missing,
    /// Nothing more: the document is sent.
    Finish,
    /// Nothing more: end with this error.
    GiveUp { error: ProducerError },
}

/// A [`Job`] as mathematics sees it.
pub ghost enum JobView {
    ConvertToPdf { command: CommandView, made: Seq<char>, document: Seq<char> },
    StartServer { command: CommandView, address: Seq<char> },
    ProbeServer { pause_ms: u64, address: Seq<char> },
    Decrypt { command: CommandView },
    Prompt { command: CommandView },
    Rename { from: Seq<char>, to: Seq<char> },
    Split { command: CommandView, folder: Seq<char> },
    ListPages { pattern: Seq<char> },
    StartRasterizer { page: u16, command: CommandView, folder: Seq<char> },
    CountRasterizers { pause_ms: u64 },
    WriteHeader { header: Seq<u8> },
    AwaitRasterizer { page: u16 },
    SendPage { page: u16, image: Seq<char> },
    Missing,
    Finish,
    GiveUp { error: ProducerError },
}

impl View for Job {
    type V = JobView;

    open spec fn view(&self) -> JobView {
        match *self {
            Job::ConvertToPdf { command, made, document } => JobView::ConvertToPdf {
                command: command@,
                made: made@,
                document: document@,
            },
            Job::StartServer { command, address } => JobView::StartServer {
                command: command@,
                address: address@,
            },
            Job::ProbeServer { pause_ms, address } => JobView::ProbeServer {
                pause_ms,
                address: address@,
            },
            Job::Decrypt { command } => JobView::Decrypt { command: command@ },
            Job::Prompt { command } => JobView::Prompt { command: command@ },
            Job::Rename { from, to } => JobView::Rename { from: from@, to: to@ },
            Job::Split { command, folder } => JobView::Split {
                command: command@,
                folder: folder@,
            },
            Job::ListPages { pattern } => JobView::ListPages { pattern: pattern@ },
            Job::StartRasterizer { page, command, folder } => JobView::StartRasterizer {
                page,
                command: command@,
                folder: folder@,
            },
            Job::CountRasterizers { pause_ms } => JobView::CountRasterizers { pause_ms },
            Job::WriteHeader { header } => JobView::WriteHeader { header: header@ },
            Job::AwaitRasterizer { page } => JobView::AwaitRasterizer { page },
            Job::SendPage { page, image } => JobView::SendPage { page, image: image@ },
            Job::Missing => JobView::Missing,
            Job::Finish => JobView::Finish,
            Job::GiveUp { error } => JobView::GiveUp { error },
        }
    }
}

impl DocumentPlanView {
    /// The password that `secret` names.
    pub open spec fn password(self, secret: Secret) -> Seq<char> {
        match secret {
            Secret::Default => self.default_password,
            Secret::Entered => self.entered,
        }
    }

    /// What is to be done for `task`, with the names of this document.
    pub open spec fn job(self, task: Task) -> JobView {
        let document = spec_working_file(self.folder);
        match task {
            Task::ConvertToPdf => JobView::ConvertToPdf {
                command: spec_office_converter(self.folder),
                made: spec_converted_document(document),
                document,
            },
            Task::StartServer => JobView::StartServer {
                command: spec_office_server(),
                address: spec_server_address(),
            },
            Task::ProbeServer { sleep_first } => JobView::ProbeServer {
                pause_ms: if sleep_first {
                    SERVER_PAUSE_MS
                } else {
                    0
                },
                address: spec_server_address(),
            },
            Task::Decrypt { with } => JobView::Decrypt {
                command: spec_decrypter(self.folder, self.password(with)),
            },
            Task::Prompt => JobView::Prompt { command: spec_prompter() },
            Task::Rename => JobView::Rename {
                from: spec_decrypted_document(document),
                to: document,
            },
            Task::Split { with } => JobView::Split {
                command: spec_splitter(self.folder, self.password(with)),
                folder: self.folder,
            },
            Task::ListPages => JobView::ListPages { pattern: spec_page_pattern(self.folder) },
            Task::StartRasterizer { page } => if page < self.pages.len() {
                JobView::StartRasterizer {
                    page,
                    command: spec_rasterizer(self.pages[page as int]),
                    folder: self.folder,
                }
            } else {
                JobView::Missing
            },
            Task::CountRasterizers { sleep_first } => JobView::CountRasterizers {
                pause_ms: if sleep_first {
                    RASTERIZER_PAUSE_MS
                } else {
                    0
                },
            },
            Task::WriteHeader { pages } => JobView::WriteHeader {
                header: (FileHeader { number_pages: pages, output_type: OutputType::Pdf }).wire(),
            },
            Task::AwaitRasterizer { page } => JobView::AwaitRasterizer { page },
            Task::SendPage { page } => if page < self.pages.len() {
                match spec_page_image(self.pages[page as int]) {
                    Some(image) => JobView::SendPage { page, image },
                    None => JobView::Missing,
                }
            } else {
                JobView::Missing
            },
            Task::Finish => JobView::Finish,
            Task::GiveUp { error } => JobView::GiveUp { error },
        }
    }
}

impl DocumentPlan {
    fn password(&self, secret: Secret) -> (password: &str)
        ensures
            password@ == self@.password(secret),
    {
        match secret {
            Secret::Default => self.default_password.as_str(),
            Secret::Entered => self.entered.as_str(),
        }
    }

    /// What the worker is to do next for the document whose way stands at
    /// `flow`.
    pub fn job(&self, flow: &DocumentFlow) -> (job: Job)
        ensures
            job@ == self@.job(flow.spec_task()),
    {
        let folder = self.folder.as_str();
        match flow.task() {
            Task::ConvertToPdf => {
                let document = working_file(folder);
                Job::ConvertToPdf {
                    command: office_converter(folder),
                    made: converted_document(document.as_str()),
                    document,
                }
            },
            Task::StartServer => Job::StartServer {
                command: office_server(),
                address: server_address(),
            },
            Task::ProbeServer { sleep_first } => Job::ProbeServer {
                pause_ms: if sleep_first {
                    SERVER_PAUSE_MS
                } else {
                    0
                },
                address: server_address(),
            },
            Task::Decrypt { with } => Job::Decrypt {
                command: decrypter(folder, self.password(with)),
            },
            Task::Prompt => Job::Prompt { command: prompter() },
            Task::Rename => {
                let document = working_file(folder);
                Job::Rename { from: decrypted_document(document.as_str()), to: document }
            },
            Task::Split { with } => Job::Split {
                command: splitter(folder, self.password(with)),
                folder: String::from_str(folder),
            },
            Task::ListPages => Job::ListPages { pattern: page_pattern(folder) },
            Task::StartRasterizer { page } => if (page as usize) < self.pages.len() {
                Job::StartRasterizer {
                    page,
                    command: rasterizer(self.pages[page as usize].as_str()),
                    folder: String::from_str(folder),
                }
            } else {
                Job::Missing
            },
            Task::CountRasterizers { sleep_first } => Job::CountRasterizers {
                pause_ms: if sleep_first {
                    RASTERIZER_PAUSE_MS
                } else {
                    0
                },
            },
            Task::WriteHeader { pages } => Job::WriteHeader {
                header: FileHeader { number_pages: pages, output_type: OutputType::Pdf }.encode(),
            },
            Task::AwaitRasterizer { page } => Job::AwaitRasterizer { page },
            Task::SendPage { page } => if (page as usize) < self.pages.len() {
                match page_image(self.pages[page as usize].as_str()) {
                    Some(image) => Job::SendPage { page, image },
                    None => Job::Missing,
                }
            } else {
                Job::Missing
            },
            Task::Finish => Job::Finish,
            Task::GiveUp { error } => Job::GiveUp { error },
        }
    }
}

} // verus!
