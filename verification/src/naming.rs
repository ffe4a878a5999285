//! The names of what a conversion leaves on disk: scratch files, the
//! trusted output and the archived source.

use crate::decimal::{decimal_string, decimal_text};
use crate::output_type::OutputType;
use vstd::prelude::*;
use vstd::string::{StrSliceExecFns, StringExecFns};

verus! {

/// Position of the last `mark` in `text`, or -1 if it holds none.
pub open spec fn last_index_of(text: Seq<char>, mark: char) -> int
    decreases text.len(),
{
    if text.len() == 0 {
        -1
    } else if text.last() == mark {
        text.len() - 1
    } else {
        last_index_of(text.drop_last(), mark)
    }
}

/// Where `last_index_of` points: at the last occurrence.
pub proof fn lemma_last_index_of(text: Seq<char>, mark: char)
    ensures
        -1 <= last_index_of(text, mark) < text.len(),
        last_index_of(text, mark) >= 0 ==> text[last_index_of(text, mark)] == mark,
        forall|i: int| last_index_of(text, mark) < i < text.len() ==> text[i] != mark,
    decreases text.len(),
{
    if text.len() > 0 && text.last() != mark {
        lemma_last_index_of(text.drop_last(), mark);
        assert forall|i: int| last_index_of(text, mark) < i < text.len() implies text[i]
            != mark by {
            if i < text.len() - 1 {
                assert(text.drop_last()[i] == text[i]);
            }
        }
    }
}

proof fn lemma_last_index_is(text: Seq<char>, mark: char, at: int)
    requires
        -1 <= at < text.len(),
        at >= 0 ==> text[at] == mark,
        forall|i: int| at < i < text.len() ==> text[i] != mark,
    ensures
        last_index_of(text, mark) == at,
    decreases text.len(),
{
    if text.len() > 0 && text.last() != mark {
        lemma_last_index_is(text.drop_last(), mark, at);
    }
}

/// The parts of the absolute path of a source file.
pub struct SourcePath {
    /// The folder that holds the file, without a slash at its end unless it
    /// is the root.
    pub directory: String,
    /// The file's name up to its last dot.
    pub stem: String,
    /// What follows the last dot of the file's name; empty without one.
    pub extension: String,
}

/// A [`SourcePath`] as mathematics sees it.
pub ghost struct SourcePathView {
    pub directory: Seq<char>,
    pub stem: Seq<char>,
    pub extension: Seq<char>,
}

impl View for SourcePath {
    type V = SourcePathView;

    open spec fn view(&self) -> SourcePathView {
        SourcePathView {
            directory: self.directory@,
            stem: self.stem@,
            extension: self.extension@,
        }
    }
}

/// The name of the file that `path` leads to: what follows the last slash.
pub open spec fn file_name(path: Seq<char>) -> Seq<char> {
    path.skip(last_index_of(path, '/') + 1)
}

/// Whether `name` names a file rather than a place.
pub open spec fn names_a_file(name: Seq<char>) -> bool {
    name.len() > 0 && name != seq!['.'] && name != seq!['.', '.']
}

/// The parts of an absolute path without `.` and `..` in it, if it leads
/// to a file. A name is cut at its last dot, unless that dot is its first
/// character.
pub open spec fn spec_split(path: Seq<char>) -> Option<SourcePathView> {
    let slash = last_index_of(path, '/');
    let name = file_name(path);
    let dot = last_index_of(name, '.');
    if slash < 0 || !names_a_file(name) {
        None
    } else {
        Some(
            SourcePathView {
                directory: if slash == 0 {
                    seq!['/']
                } else {
                    path.take(slash)
                },
                stem: if dot <= 0 {
                    name
                } else {
                    name.take(dot)
                },
                extension: if dot <= 0 {
                    Seq::empty()
                } else {
                    name.skip(dot + 1)
                },
            },
        )
    }
}

/// Where the trusted output of a source goes: beside the source, under its
/// stem, marked as trusted, with the extension of its kind.
pub open spec fn spec_trusted_output(source: SourcePathView, kind: OutputType) -> Seq<char> {
    source.directory + seq!['/'] + source.stem + ".trusted."@ + kind.spec_extension()
}

/// Where the source goes in an archive folder whose name ends in a
/// slash.
pub open spec fn spec_archive_file(archive: Seq<char>, source: SourcePathView) -> Seq<char> {
    archive + source.stem + seq!['.'] + source.extension
}

/// The scratch folder of a session.
pub open spec fn spec_session_scratch(id: Seq<char>) -> Seq<char> {
    "/home/user/.temp_qubes_convert_"@ + id
}

/// The scratch folder of the file sent at position `index`.
pub open spec fn spec_file_scratch(session: Seq<char>, index: nat) -> Seq<char> {
    session + seq!['/'] + decimal_text(index)
}

/// What the names of the scratch files of a page begin with.
pub open spec fn spec_page_base(file_scratch: Seq<char>, page: u16) -> Seq<char> {
    file_scratch + seq!['.'] + decimal_text(page as nat)
}

/// The raster of a page on disk.
pub open spec fn spec_page_png(base: Seq<char>) -> Seq<char> {
    base + ".png"@
}

/// The encoded page on disk.
pub open spec fn spec_page_pdf(base: Seq<char>) -> Seq<char> {
    base + ".pdf"@
}

/// What a page contributes to the trusted output of its file.
pub open spec fn spec_page_artifact(
    kind: OutputType,
    file_scratch: Seq<char>,
    page: u16,
) -> Seq<char> {
    match kind {
        OutputType::Image => spec_page_png(spec_page_base(file_scratch, page)),
        OutputType::Pdf => spec_page_pdf(spec_page_base(file_scratch, page)),
    }
}

fn count_chars_and_find(text: &str, mark: char) -> (found: (usize, Option<usize>))
    ensures
        found.0 == text@.len(),
        match found.1 {
            Some(at) => at == last_index_of(text@, mark),
            None => last_index_of(text@, mark) == -1,
        },
{
    let length: usize = text.unicode_len();
    let mut at: Option<usize> = None;
    let mut i: usize = 0;
    while i < length
        invariant
            i <= length,
            length == text@.len(),
            match at {
                Some(at) => at < i && text@[at as int] == mark && forall|k: int|
                    at < k < i ==> text@[k] != mark,
                None => forall|k: int| 0 <= k < i ==> text@[k] != mark,
            },
        decreases length - i,
    {
        if text.get_char(i) == mark {
            at = Some(i);
        }
        i = i + 1;
    }
    proof {
        match at {
            Some(at) => lemma_last_index_is(text@, mark, at as int),
            None => lemma_last_index_is(text@, mark, -1),
        }
    }
    (length, at)
}

/// Splits the absolute path of a source file into the folder that holds
/// it, the stem of its name and its extension. The path is one without `.`
/// and `..` in it, such as the file system gives for an existing file.
/// There are no parts where the path holds no slash or names no file.
pub fn split_source_path(path: &str) -> (parts: Option<SourcePath>)
    ensures
        match spec_split(path@) {
            None => parts is None,
            Some(view) => parts matches Some(found) && found@ == view,
        },
{
    let (length, slash) = count_chars_and_find(path, '/');
    let slash: usize = match slash {
        None => {
            return None;
        },
        Some(slash) => slash,
    };
    proof {
        lemma_last_index_of(path@, '/');
    }
    let name = path.substring_char(slash + 1, length);
    assert(name@ =~= file_name(path@));
    let (name_length, dot) = count_chars_and_find(name, '.');
    proof {
        lemma_last_index_of(name@, '.');
    }
    if name_length == 0 {
        return None;
    }
    if name_length == 1 && name.get_char(0) == '.' {
        assert(name@ =~= seq!['.']);
        return None;
    }
    if name_length == 2 && name.get_char(0) == '.' && name.get_char(1) == '.' {
        assert(name@ =~= seq!['.', '.']);
        return None;
    }
    assert(names_a_file(name@)) by {
        if name@ == seq!['.'] {
            assert(name@[0] == '.');
        }
        if name@ == seq!['.', '.'] {
            assert(name@[0] == '.');
            assert(name@[1] == '.');
        }
    }
    let directory = if slash == 0 {
        proof {
            reveal_strlit("/");
        }
        assert("/"@ =~= seq!['/']);
        String::from_str("/")
    } else {
        String::from_str(path.substring_char(0, slash))
    };
    let (stem, extension) = match dot {
        Some(dot) if dot > 0 => (
            String::from_str(name.substring_char(0, dot)),
            String::from_str(name.substring_char(dot + 1, name_length)),
        ),
        _ => (String::from_str(name), String::new()),
    };
    let found = SourcePath { directory, stem, extension };
    assert(found@ =~= spec_split(path@).unwrap()) by {
        assert(found@.directory =~= spec_split(path@).unwrap().directory);
        assert(found@.stem =~= spec_split(path@).unwrap().stem);
        assert(found@.extension =~= spec_split(path@).unwrap().extension);
    }
    Some(found)
}

/// The path of the trusted output of `source`: in the folder of the
/// source, the source's stem, `.trusted.` and the extension of the kind.
pub fn trusted_output_path(source: &SourcePath, kind: OutputType) -> (path: String)
    ensures
        path@ == spec_trusted_output(source@, kind),
{
    proof {
        reveal_strlit("/");
    }
    let mut path = String::from_str(source.directory.as_str());
    path.append("/");
    path.append(source.stem.as_str());
    path.append(".trusted.");
    path.append(kind.extension());
    assert(path@ =~= spec_trusted_output(source@, kind));
    path
}

/// The path under which the file of `source` is kept in `archive`, a
/// folder name that ends in a slash: the stem, a dot and the extension of
/// the source.
pub fn archive_file_path(archive: &str, source: &SourcePath) -> (path: String)
    ensures
        path@ == spec_archive_file(archive@, source@),
{
    proof {
        reveal_strlit(".");
    }
    let mut path = String::from_str(archive);
    path.append(source.stem.as_str());
    path.append(".");
    path.append(source.extension.as_str());
    assert(path@ =~= spec_archive_file(archive@, source@));
    path
}

/// The name of an archive folder as it is used to build paths: the name
/// that the file system gives for the folder, and a slash.
pub fn archive_folder(canonical: &str) -> (folder: String)
    ensures
        folder@ == canonical@.push('/'),
{
    proof {
        reveal_strlit("/");
    }
    let mut folder = String::from_str(canonical);
    folder.append("/");
    assert(folder@ =~= canonical@.push('/'));
    folder
}

/// The archive folder of a user whose home is `home`.
pub fn archive_folder_in_home(home: &str) -> (folder: String)
    ensures
        folder@ == home@ + "/QubesUntrusted/"@,
{
    let mut folder = String::from_str(home);
    folder.append("/QubesUntrusted/");
    folder
}

/// The archive folder of a user whose home is `home`, if the home is
/// known: `QubesUntrusted/` in that home. Without a home there is none.
pub fn default_archive_in(home: Option<String>) -> (folder: Option<String>)
    ensures
        match home {
            Some(known) => folder matches Some(name) && name@ == known@ + "/QubesUntrusted/"@,
            None => folder is None,
        },
{
    match home {
        Some(known) => Some(archive_folder_in_home(known.as_str())),
        None => None,
    }
}

/// The scratch folder of the session that goes by `id`.
pub fn session_scratch_dir(id: &str) -> (folder: String)
    ensures
        folder@ == spec_session_scratch(id@),
{
    let mut folder = String::from_str("/home/user/.temp_qubes_convert_");
    folder.append(id);
    folder
}

/// The scratch folder of the file sent at position `index`, in the scratch
/// folder of its session.
pub fn file_scratch_dir(session: &str, index: usize) -> (folder: String)
    ensures
        folder@ == spec_file_scratch(session@, index as nat),
{
    proof {
        reveal_strlit("/");
    }
    let mut folder = String::from_str(session);
    folder.append("/");
    folder.append(decimal_string(index).as_str());
    assert(folder@ =~= spec_file_scratch(session@, index as nat));
    folder
}

/// What the names of the scratch files of `page` begin with.
pub fn page_base(file_scratch: &str, page: u16) -> (base: String)
    ensures
        base@ == spec_page_base(file_scratch@, page),
{
    proof {
        reveal_strlit(".");
    }
    let mut base = String::from_str(file_scratch);
    base.append(".");
    base.append(decimal_string(page as usize).as_str());
    assert(base@ =~= spec_page_base(file_scratch@, page));
    base
}

/// Where the raster of a page is stored.
pub fn page_png_path(base: &str) -> (path: String)
    ensures
        path@ == spec_page_png(base@),
{
    let mut path = String::from_str(base);
    path.append(".png");
    path
}

/// Where the encoder of a page leaves its document.
pub fn page_pdf_path(base: &str) -> (path: String)
    ensures
        path@ == spec_page_pdf(base@),
{
    let mut path = String::from_str(base);
    path.append(".pdf");
    path
}

/// The file that `page` contributes to the trusted output: its raster for
/// an image, its encoded document otherwise.
pub fn page_artifact(kind: OutputType, file_scratch: &str, page: u16) -> (path: String)
    ensures
        path@ == spec_page_artifact(kind, file_scratch@, page),
{
    let base = page_base(file_scratch, page);
    match kind {
        OutputType::Image => page_png_path(base.as_str()),
        OutputType::Pdf => page_pdf_path(base.as_str()),
    }
}

} // verus!
