//! What a user interface keeps of the events it is told: a row for each
//! file under way, and the list of the files that are not converted yet.

use crate::events::{ConvertEvent, EventView};
use crate::output_type::OutputType;
use crate::tools::texts;
use vstd::prelude::*;
use vstd::string::StringExecFns;

verus! {

/// The progress of one file.
#[derive(Debug)]
pub struct FileProgress {
    pub filename: String,
    pub number_pages: u16,
    /// Pages converted so far.
    pub current_page: u16,
    pub output_type: Option<OutputType>,
    pub failed: bool,
    /// Whether the worker has announced the file's pages.
    pub started: bool,
}

/// A [`FileProgress`] as mathematics sees it.
pub ghost struct ProgressView {
    pub filename: Seq<char>,
    pub number_pages: u16,
    pub current_page: u16,
    pub output_type: Option<OutputType>,
    pub failed: bool,
    pub started: bool,
}

impl View for FileProgress {
    type V = ProgressView;

    open spec fn view(&self) -> ProgressView {
        ProgressView {
            filename: self.filename@,
            number_pages: self.number_pages,
            current_page: self.current_page,
            output_type: self.output_type,
            failed: self.failed,
            started: self.started,
        }
    }
}

impl ProgressView {
    /// The share of the pages that is converted, in hundredths: nothing
    /// before the pages are announced, and nothing of no pages.
    pub open spec fn spec_percent(self) -> int {
        if self.started && self.number_pages > 0 {
            self.current_page as int * 100 / self.number_pages as int
        } else {
            0
        }
    }
}

impl FileProgress {
    /// The share of the pages that is converted, in hundredths.
    pub fn percent(&self) -> (share: u32)
        ensures
            share as int == self@.spec_percent(),
    {
        if self.started && self.number_pages > 0 {
            let done: u32 = self.current_page as u32 * 100;
            done / self.number_pages as u32
        } else {
            0
        }
    }
}

/// The rows of the files under way, in the order in which the files were
/// queued, and the files that are not converted yet.
pub struct ProgressBoard {
    rows: Vec<FileProgress>,
    remaining: Vec<String>,
}

/// A [`ProgressBoard`] as mathematics sees it.
pub ghost struct BoardView {
    pub rows: Seq<ProgressView>,
    pub remaining: Seq<Seq<char>>,
}

/// The rows of a vector, each as mathematics sees it.
pub open spec fn row_views(rows: Seq<FileProgress>) -> Seq<ProgressView> {
    Seq::new(rows.len(), |i: int| rows[i]@)
}

/// Position of the first row of `file`, or the number of rows if it has
/// none.
pub open spec fn row_of(rows: Seq<ProgressView>, file: Seq<char>) -> int
    decreases rows.len(),
{
    if rows.len() == 0 {
        0
    } else if rows[0].filename == file {
        0
    } else {
        1 + row_of(rows.drop_first(), file)
    }
}

/// The files but `file`, in their order.
pub open spec fn without(files: Seq<Seq<char>>, file: Seq<char>) -> Seq<Seq<char>>
    decreases files.len(),
{
    if files.len() == 0 {
        Seq::empty()
    } else if files.last() == file {
        without(files.drop_last(), file)
    } else {
        without(files.drop_last(), file).push(files.last())
    }
}

/// The row after one more page is converted.
pub open spec fn one_more_page(row: ProgressView) -> ProgressView {
    ProgressView {
        current_page: if row.current_page < u16::MAX {
            (row.current_page + 1) as u16
        } else {
            row.current_page
        },
        ..row
    }
}

impl BoardView {
    /// The board after `change` is made to the first row of `file`, if
    /// there is one.
    pub open spec fn change_row(
        self,
        file: Seq<char>,
        change: spec_fn(ProgressView) -> ProgressView,
    ) -> BoardView {
        let at = row_of(self.rows, file);
        if at < self.rows.len() {
            BoardView { rows: self.rows.update(at, change(self.rows[at])), ..self }
        } else {
            self
        }
    }

    /// The board after an event: a queued file gets a row; the row of a
    /// file takes what is announced of it, counts its converted pages and
    /// keeps its failure; a converted file loses its row and leaves the
    /// list of the files that are not converted yet.
    pub open spec fn apply(self, event: EventView) -> BoardView {
        match event {
            EventView::FileToConvert { file } => BoardView {
                rows: self.rows.push(
                    ProgressView {
                        filename: file,
                        number_pages: 0,
                        current_page: 0,
                        output_type: None,
                        failed: false,
                        started: false,
                    },
                ),
                ..self
            },
            EventView::FileInfo { output_type, number_pages, file } => self.change_row(
                file,
                |row: ProgressView|
                    ProgressView {
                        output_type: Some(output_type),
                        number_pages,
                        started: true,
                        ..row
                    },
            ),
            EventView::PageConverted { file, .. } => self.change_row(
                file,
                |row: ProgressView| one_more_page(row),
            ),
            EventView::FileConverted { file } => {
                let at = row_of(self.rows, file);
                BoardView {
                    rows: if at < self.rows.len() {
                        self.rows.remove(at)
                    } else {
                        self.rows
                    },
                    remaining: without(self.remaining, file),
                }
            },
            EventView::Failure { file, .. } => self.change_row(
                file,
                |row: ProgressView| ProgressView { failed: true, ..row },
            ),
        }
    }
}

impl View for ProgressBoard {
    type V = BoardView;

    closed spec fn view(&self) -> BoardView {
        BoardView { rows: row_views(self.rows@), remaining: texts(self.remaining@) }
    }
}

proof fn lemma_row_of(rows: Seq<ProgressView>, file: Seq<char>, at: int)
    requires
        0 <= at <= rows.len(),
        forall|i: int| 0 <= i < at ==> rows[i].filename != file,
        at < rows.len() ==> rows[at].filename == file,
    ensures
        row_of(rows, file) == at,
    decreases rows.len(),
{
    if at > 0 {
        let rest = rows.drop_first();
        assert forall|i: int| 0 <= i < at - 1 implies rest[i].filename != file by {
            assert(rest[i] == rows[i + 1]);
        }
        lemma_row_of(rest, file, at - 1);
    }
}

fn same_text(left: &str, right: &str) -> (same: bool)
    ensures
        same == (left@ == right@),
{
    String::from_str(left) == String::from_str(right)
}

impl ProgressBoard {
    /// A board without rows for a session that is to convert `files`.
    pub fn new(files: Vec<String>) -> (board: ProgressBoard)
        ensures
            board@ == (BoardView { rows: Seq::empty(), remaining: texts(files@) }),
    {
        let board = ProgressBoard { rows: Vec::new(), remaining: files };
        assert(board@.rows =~= Seq::<ProgressView>::empty());
        board
    }

    fn find(&self, file: &str) -> (at: usize)
        ensures
            at == row_of(self@.rows, file@),
            at <= self.rows@.len(),
    {
        let mut at: usize = 0;
        while at < self.rows.len() && !same_text(self.rows[at].filename.as_str(), file)
            invariant
                at <= self.rows.len(),
                forall|i: int| 0 <= i < at ==> row_views(self.rows@)[i].filename != file@,
            decreases self.rows.len() - at,
        {
            at = at + 1;
        }
        proof {
            lemma_row_of(self@.rows, file@, at as int);
        }
        at
    }

    /// Number of rows on the board.
    pub fn number_rows(&self) -> (count: usize)
        ensures
            count == self@.rows.len(),
    {
        self.rows.len()
    }

    /// The row at `index`, if the board has that many rows.
    pub fn row(&self, index: usize) -> (row: Option<&FileProgress>)
        ensures
            index < self@.rows.len() ==> (row matches Some(found) && found@
                == self@.rows[index as int]),
            index >= self@.rows.len() ==> row is None,
    {
        if index < self.rows.len() {
            Some(&self.rows[index])
        } else {
            None
        }
    }

    /// The files that are not converted yet, in the order of the list: at
    /// the end of the session, the files whose conversion failed.
    pub fn remaining(&self) -> (files: &Vec<String>)
        ensures
            texts(files@) == self@.remaining,
    {
        &self.remaining
    }

    /// Takes an event.
    pub fn apply(&mut self, event: &ConvertEvent)
        ensures
            final(self)@ == old(self)@.apply(event@),
    {
        match event {
            ConvertEvent::FileToConvert { file } => {
                self.rows.push(
                    FileProgress {
                        filename: String::from_str(file.as_str()),
                        number_pages: 0,
                        current_page: 0,
                        output_type: None,
                        failed: false,
                        started: false,
                    },
                );
                assert(self@.rows =~= old(self)@.apply(event@).rows);
            },
            ConvertEvent::FileInfo { output_type, number_pages, file } => {
                let at: usize = self.find(file.as_str());
                if at < self.rows.len() {
                    let row = self.rows.remove(at);
                    self.rows.insert(
                        at,
                        FileProgress {
                            output_type: Some(*output_type),
                            number_pages: *number_pages,
                            started: true,
                            filename: row.filename,
                            current_page: row.current_page,
                            failed: row.failed,
                        },
                    );
                    assert(self@.rows =~= old(self)@.apply(event@).rows);
                }
            },
            ConvertEvent::PageConverted { file, .. } => {
                let at: usize = self.find(file.as_str());
                if at < self.rows.len() {
                    let row = self.rows.remove(at);
                    let current_page: u16 = if row.current_page < u16::MAX {
                        row.current_page + 1
                    } else {
                        row.current_page
                    };
                    self.rows.insert(
                        at,
                        FileProgress {
                            current_page,
                            filename: row.filename,
                            number_pages: row.number_pages,
                            output_type: row.output_type,
                            failed: row.failed,
                            started: row.started,
                        },
                    );
                    assert(self@.rows =~= old(self)@.apply(event@).rows);
                }
            },
            ConvertEvent::FileConverted { file } => {
                let at: usize = self.find(file.as_str());
                if at < self.rows.len() {
                    self.rows.remove(at);
                    assert(self@.rows =~= old(self)@.rows.remove(at as int));
                }
                let mut kept: Vec<String> = Vec::new();
                let mut i: usize = 0;
                while i < self.remaining.len()
                    invariant
                        i <= self.remaining.len(),
                        self.remaining == old(self).remaining,
                        texts(kept@) == without(texts(self.remaining@).take(i as int), file@),
                    decreases self.remaining.len() - i,
                {
                    let ghost before = texts(kept@);
                    let ghost all = texts(self.remaining@);
                    assert(all.take(i + 1).drop_last() =~= all.take(i as int));
                    if !same_text(self.remaining[i].as_str(), file.as_str()) {
                        kept.push(String::from_str(self.remaining[i].as_str()));
                        assert(texts(kept@) =~= before.push(all[i as int]));
                    }
                    i = i + 1;
                }
                assert(texts(self.remaining@).take(i as int) =~= texts(self.remaining@));
                self.remaining = kept;
            },
            ConvertEvent::Failure { file, .. } => {
                let at: usize = self.find(file.as_str());
                if at < self.rows.len() {
                    let row = self.rows.remove(at);
                    self.rows.insert(
                        at,
                        FileProgress {
                            failed: true,
                            filename: row.filename,
                            number_pages: row.number_pages,
                            current_page: row.current_page,
                            output_type: row.output_type,
                            started: row.started,
                        },
                    );
                    assert(self@.rows =~= old(self)@.apply(event@).rows);
                }
            },
        }
    }
}

} // verus!
