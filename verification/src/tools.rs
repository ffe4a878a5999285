//! The helper programs that the client starts, each with the arguments it
//! is given, and the steps on disk that end the conversion of a file.

use crate::naming::{
    page_artifact, page_base, page_pdf_path, page_png_path, spec_page_artifact, spec_page_base,
    spec_page_pdf, spec_page_png,
};
use crate::output_type::OutputType;
use vstd::prelude::*;
use vstd::string::StringExecFns;

verus! {

/// What a helper program has printed by the time it ends.
#[derive(Debug)]
pub struct ProcessOutput {
    pub stdout: Vec<u8>,
    pub stderr: Vec<u8>,
}

/// A program and the arguments it is started with.
#[derive(Debug)]
pub struct Command {
    pub program: String,
    pub arguments: Vec<String>,
}

/// A [`Command`] as mathematics sees it.
pub ghost struct CommandView {
    pub program: Seq<char>,
    pub arguments: Seq<Seq<char>>,
}

/// The texts of a vector of strings.
pub open spec fn texts(strings: Seq<String>) -> Seq<Seq<char>> {
    Seq::new(strings.len(), |i: int| strings[i]@)
}

impl View for Command {
    type V = CommandView;

    open spec fn view(&self) -> CommandView {
        CommandView { program: self.program@, arguments: texts(self.arguments@) }
    }
}

/// Something to do on disk or with a helper program.
#[derive(Debug)]
pub enum FileAction {
    /// Copy the file at `from` to `to`.
    Copy { from: String, to: String },
    /// Remove the file at `path`.
    Remove { path: String },
    /// Run the command and wait for its end.
    Run { command: Command },
}

/// A [`FileAction`] as mathematics sees it.
pub ghost enum FileActionView {
    Copy { from: Seq<char>, to: Seq<char> },
    Remove { path: Seq<char> },
    Run { command: CommandView },
}

impl View for FileAction {
    type V = FileActionView;

    open spec fn view(&self) -> FileActionView {
        match *self {
            FileAction::Copy { from, to } => FileActionView::Copy { from: from@, to: to@ },
            FileAction::Remove { path } => FileActionView::Remove { path: path@ },
            FileAction::Run { command } => FileActionView::Run { command: command@ },
        }
    }
}

/// The actions of a vector, each as mathematics sees it.
pub open spec fn action_views(actions: Seq<FileAction>) -> Seq<FileActionView> {
    Seq::new(actions.len(), |i: int| actions[i]@)
}

/// The command that starts the worker in a disposable machine.
pub open spec fn spec_worker_command() -> CommandView {
    CommandView {
        program: "/usr/bin/qrexec-client-vm"@,
        arguments: seq!["@dispvm"@, "qubes.Convert"@],
    }
}

/// The command that asks the text recogniser for its languages.
pub open spec fn spec_list_languages_command() -> CommandView {
    CommandView { program: "tesseract"@, arguments: seq!["--list-langs"@] }
}

/// The command that turns the raster of a page into the page's document:
/// none for an image, whose raster is the page; the text recogniser where a
/// language is given; the plain converter otherwise.
pub open spec fn spec_encoder_command(
    kind: OutputType,
    ocr: Option<Seq<char>>,
    base: Seq<char>,
) -> Option<CommandView> {
    match kind {
        OutputType::Image => None,
        OutputType::Pdf => match ocr {
            Some(language) => Some(
                CommandView {
                    program: "tesseract"@,
                    arguments: seq![
                        spec_page_png(base),
                        base,
                        "-l"@,
                        language,
                        "--dpi"@,
                        "70"@,
                        "pdf"@,
                    ],
                },
            ),
            None => Some(
                CommandView {
                    program: "gm"@,
                    arguments: seq!["convert"@, spec_page_png(base), spec_page_pdf(base)],
                },
            ),
        },
    }
}

/// The documents of the pages of a file, in the order of their index.
pub open spec fn spec_page_artifacts(
    kind: OutputType,
    file_scratch: Seq<char>,
    number_pages: u16,
) -> Seq<Seq<char>> {
    Seq::new(number_pages as nat, |page: int| spec_page_artifact(kind, file_scratch, page as u16))
}

/// The command that joins the documents of the pages of a file, in the
/// order of their index, into the trusted output.
pub open spec fn spec_merge_command(
    file_scratch: Seq<char>,
    number_pages: u16,
    output: Seq<char>,
) -> CommandView {
    CommandView {
        program: "pdftk"@,
        arguments: spec_page_artifacts(OutputType::Pdf, file_scratch, number_pages) + seq![
            "cat"@,
            "output"@,
            output,
        ],
    }
}

/// What writes the trusted output of a file once all its pages are there:
/// a copy of the only page for an image, a merge of the pages otherwise.
pub open spec fn spec_assemble(
    kind: OutputType,
    file_scratch: Seq<char>,
    number_pages: u16,
    output: Seq<char>,
) -> FileActionView {
    match kind {
        OutputType::Image => FileActionView::Copy {
            from: spec_page_artifact(OutputType::Image, file_scratch, 0),
            to: output,
        },
        OutputType::Pdf => FileActionView::Run {
            command: spec_merge_command(file_scratch, number_pages, output),
        },
    }
}

/// What becomes of the source once its trusted output is written: it is
/// removed; unless the conversion is in place, it is copied to the archive
/// first.
pub open spec fn spec_retire(in_place: bool, source: Seq<char>, archived: Seq<char>) -> Seq<
    FileActionView,
> {
    if in_place {
        seq![FileActionView::Remove { path: source }]
    } else {
        seq![
            FileActionView::Copy { from: source, to: archived },
            FileActionView::Remove { path: source },
        ]
    }
}

fn text(literal: &str) -> (owned: String)
    ensures
        owned@ == literal@,
{
    String::from_str(literal)
}

/// The command that starts the worker in a disposable machine.
pub fn worker_command() -> (command: Command)
    ensures
        command@ == spec_worker_command(),
{
    let mut arguments: Vec<String> = Vec::new();
    arguments.push(text("@dispvm"));
    arguments.push(text("qubes.Convert"));
    let command = Command { program: text("/usr/bin/qrexec-client-vm"), arguments };
    assert(command@.arguments =~= spec_worker_command().arguments);
    command
}

/// The command that asks the text recogniser for its languages.
pub fn list_languages_command() -> (command: Command)
    ensures
        command@ == spec_list_languages_command(),
{
    let mut arguments: Vec<String> = Vec::new();
    arguments.push(text("--list-langs"));
    let command = Command { program: text("tesseract"), arguments };
    assert(command@.arguments =~= spec_list_languages_command().arguments);
    command
}

/// The command that encodes the page whose scratch files begin with
/// `base`, if the kind of output has pages to encode.
pub fn encoder_command(kind: OutputType, ocr: &Option<String>, base: &str) -> (command: Option<
    Command,
>)
    ensures
        match spec_encoder_command(
            kind,
            match *ocr {
                Some(language) => Some(language@),
                None => None,
            },
            base@,
        ) {
            None => command is None,
            Some(view) => command matches Some(found) && found@ == view,
        },
{
    match kind {
        OutputType::Image => None,
        OutputType::Pdf => {
            let mut arguments: Vec<String> = Vec::new();
            match ocr {
                Some(language) => {
                    arguments.push(page_png_path(base));
                    arguments.push(text(base));
                    arguments.push(text("-l"));
                    arguments.push(text(language.as_str()));
                    arguments.push(text("--dpi"));
                    arguments.push(text("70"));
                    arguments.push(text("pdf"));
                    let command = Command { program: text("tesseract"), arguments };
                    assert(command@.arguments =~= seq![
                        spec_page_png(base@),
                        base@,
                        "-l"@,
                        language@,
                        "--dpi"@,
                        "70"@,
                        "pdf"@,
                    ]);
                    Some(command)
                },
                None => {
                    arguments.push(text("convert"));
                    arguments.push(page_png_path(base));
                    arguments.push(page_pdf_path(base));
                    let command = Command { program: text("gm"), arguments };
                    assert(command@.arguments =~= seq![
                        "convert"@,
                        spec_page_png(base@),
                        spec_page_pdf(base@),
                    ]);
                    Some(command)
                },
            }
        },
    }
}

/// The documents of the pages of a file, in the order of their index,
/// whatever the order in which their encoders ended.
pub fn page_artifacts(kind: OutputType, file_scratch: &str, number_pages: u16) -> (paths: Vec<
    String,
>)
    ensures
        texts(paths@) == spec_page_artifacts(kind, file_scratch@, number_pages),
{
    let mut paths: Vec<String> = Vec::new();
    let mut page: u16 = 0;
    while page < number_pages
        invariant
            page <= number_pages,
            paths@.len() == page,
            forall|k: int|
                0 <= k < page ==> (#[trigger] paths@[k])@ == spec_page_artifact(
                    kind,
                    file_scratch@,
                    k as u16,
                ),
        decreases number_pages - page,
    {
        paths.push(page_artifact(kind, file_scratch, page));
        page = page + 1;
    }
    assert(texts(paths@) =~= spec_page_artifacts(kind, file_scratch@, number_pages));
    paths
}

/// The command that joins the documents of the pages of a file into the
/// trusted output at `output`.
pub fn merge_command(file_scratch: &str, number_pages: u16, output: &str) -> (command: Command)
    ensures
        command@ == spec_merge_command(file_scratch@, number_pages, output@),
{
    let mut arguments = page_artifacts(OutputType::Pdf, file_scratch, number_pages);
    let ghost pages = texts(arguments@);
    arguments.push(text("cat"));
    arguments.push(text("output"));
    arguments.push(text(output));
    let command = Command { program: text("pdftk"), arguments };
    assert(command@.arguments =~= pages + seq!["cat"@, "output"@, output@]);
    command
}

/// What writes the trusted output of a file at `output`.
pub fn assemble_action(kind: OutputType, file_scratch: &str, number_pages: u16, output: &str) -> (
    action: FileAction
)
    ensures
        action@ == spec_assemble(kind, file_scratch@, number_pages, output@),
{
    match kind {
        OutputType::Image => FileAction::Copy {
            from: page_artifact(OutputType::Image, file_scratch, 0),
            to: text(output),
        },
        OutputType::Pdf => FileAction::Run {
            command: merge_command(file_scratch, number_pages, output),
        },
    }
}

/// What becomes of the source at `source` once its trusted output is
/// written. Where the source is archived, at `archived`, the copy comes
/// before the removal.
pub fn retire_actions(in_place: bool, source: &str, archived: &str) -> (actions: Vec<FileAction>)
    ensures
        action_views(actions@) == spec_retire(in_place, source@, archived@),
{
    let mut actions: Vec<FileAction> = Vec::new();
    if !in_place {
        actions.push(FileAction::Copy { from: text(source), to: text(archived) });
    }
    actions.push(FileAction::Remove { path: text(source) });
    assert(action_views(actions@) =~= spec_retire(in_place, source@, archived@));
    actions
}

/// A source is never removed before it is archived: where a source is
/// copied to the archive, the copy stands before the removal, and the
/// removal is the last step in either mode.
pub proof fn lemma_archive_precedes_removal(in_place: bool, source: Seq<char>, archived: Seq<char>)
    ensures
        ({
            let steps = spec_retire(in_place, source, archived);
            &&& steps.last() == (FileActionView::Remove { path: source })
            &&& forall|i: int| 0 <= i < steps.len() - 1 ==> !(steps[i] is Remove)
            &&& !in_place ==> steps[0] == (FileActionView::Copy { from: source, to: archived })
            &&& in_place ==> steps.len() == 1
        }),
{
}

} // verus!
