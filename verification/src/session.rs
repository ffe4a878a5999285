//! One session of the client: the files in the order in which they are
//! sent, what became of each, and what the session takes from the machine
//! it runs on.

use crate::error::ConvertError;
use crate::events::{views, ConvertEvent, ConvertParameters, EventView};
use crate::naming::{default_archive_in, session_scratch_dir, spec_session_scratch};
use crate::request::{fits_a_line, password_fits_a_line};
use crate::tools::texts;
use vstd::prelude::*;
use vstd::string::{StringExecFns, StringSliceAdditionalSpecFns};

verus! {

/// Whether `c` is a digit of a lower-case hexadecimal number.
pub open spec fn is_lower_hex(c: char) -> bool {
    ('0' <= c && c <= '9') || ('a' <= c && c <= 'f')
}

/// Whether `text` has the shape of a session's identifier: 36 characters,
/// hyphens at the positions 8, 13, 18 and 23, lower-case hexadecimal digits
/// everywhere else.
pub open spec fn is_session_id(text: Seq<char>) -> bool {
    &&& text.len() == 36
    &&& forall|i: int|
        0 <= i < 36 ==> if i == 8 || i == 13 || i == 18 || i == 23 {
            (#[trigger] text[i]) == '-'
        } else {
            is_lower_hex(text[i])
        }
}

/// `uuid::Uuid::new_v4` followed by the identifier's `to_string`: a fresh
/// random identifier in its hyphenated lower-case form. The contract claims
/// the form alone; which identifier comes out differs from call to call.
/// The call fails only where the system cannot supply random bytes.
#[verifier::external_body]
fn fresh_session_id() -> (id: String)
    ensures
        is_session_id(id@),
{
    uuid::Uuid::new_v4().to_string()
}

/// `home::home_dir`: the home folder of the current user as the
/// environment gives it, where there is one and its name is valid text.
/// Nothing is claimed of the name.
#[verifier::external_body]
fn home_folder() -> (home: Option<String>) {
    match home::home_dir() {
        Some(path) => match path.to_str() {
            Some(text) => Some(text.to_string()),
            None => None,
        },
        None => None,
    }
}

/// `num_cpus::get`: the number of logical processors that this process may
/// use, which the crate documents to be at least one.
#[verifier::external_body]
fn logical_cpus() -> (count: usize)
    ensures
        count >= 1,
{
    num_cpus::get()
}

/// Whether `folder` is the archive folder of some home.
pub open spec fn is_default_archive(folder: Seq<char>) -> bool {
    exists|home: Seq<char>| folder == home + "/QubesUntrusted/"@
}

/// The folder that keeps the sources where the user names none:
/// `QubesUntrusted/` in the user's home. There is none where the home is
/// unknown.
pub fn default_archive_folder() -> (folder: Option<String>)
    ensures
        folder matches Some(name) ==> is_default_archive(name@),
{
    let home = home_folder();
    let ghost known = home;
    let folder = default_archive_in(home);
    assert(folder matches Some(name) ==> name@ == known.unwrap()@ + "/QubesUntrusted/"@);
    folder
}

/// The scratch folder of a new session, under a fresh random name.
pub fn new_session_scratch() -> (folder: String)
    ensures
        exists|id: Seq<char>| is_session_id(id) && folder@ == spec_session_scratch(id),
{
    let id = fresh_session_id();
    let folder = session_scratch_dir(id.as_str());
    assert(is_session_id(id@) && folder@ == spec_session_scratch(id@));
    folder
}

/// How many page encoders may run at once: as many as asked for where text
/// is recognised, which is costly in memory; otherwise as many as the
/// machine has processors, if that number fits in a byte.
pub open spec fn spec_page_parallelism(requested: u8, ocr: bool, cpus: usize) -> Option<u8> {
    if ocr {
        Some(requested)
    } else if cpus <= 255 {
        Some(cpus as u8)
    } else {
        None
    }
}

/// How many page encoders may run at once on a machine with `cpus`
/// processors.
pub fn page_parallelism(requested: u8, ocr: bool, cpus: usize) -> (allowed: Option<u8>)
    ensures
        allowed == spec_page_parallelism(requested, ocr, cpus),
{
    if ocr {
        Some(requested)
    } else if cpus <= 255 {
        Some(cpus as u8)
    } else {
        None
    }
}

/// How many page encoders may run at once for these parameters on this
/// machine.
pub fn machine_page_parallelism(parameters: &ConvertParameters) -> (allowed: Option<u8>)
    ensures
        parameters.ocr is Some ==> allowed == Some(parameters.max_pages_converted_in_parallele),
        parameters.ocr is None ==> (allowed matches Some(n) ==> n >= 1),
{
    let cpus: usize = logical_cpus();
    page_parallelism(
        parameters.max_pages_converted_in_parallele,
        parameters.ocr.is_some(),
        cpus,
    )
}

/// Why a session cannot be started with the parameters given.
#[derive(Eq, PartialEq, Copy, Clone, Debug, Structural)]
pub enum ParameterError {
    /// The default password holds a line feed, or ends in a carriage
    /// return: on the wire it is a line.
    PasswordIsNoLine,
    /// There are more files than the worker can count in 16 bits.
    TooManyFiles,
    /// Text is to be recognised, and no page encoder is allowed to run.
    NoEncoder,
}

/// Whether a session can be started with the parameters given, and why not
/// if it cannot: the password is looked at first, then the number of files,
/// then the number of encoders.
pub open spec fn spec_check_parameters(
    default_password: Seq<u8>,
    number_files: nat,
    encoders: u8,
    ocr: bool,
) -> Result<(), ParameterError> {
    if !fits_a_line(default_password) {
        Err(ParameterError::PasswordIsNoLine)
    } else if number_files > 0xffff {
        Err(ParameterError::TooManyFiles)
    } else if ocr && encoders == 0 {
        Err(ParameterError::NoEncoder)
    } else {
        Ok(())
    }
}

/// Checks that a session can be started with `parameters`.
pub fn check_parameters(parameters: &ConvertParameters) -> (checked: Result<(), ParameterError>)
    ensures
        checked == spec_check_parameters(
            vstd::utf8::encode_utf8(parameters.default_password@),
            parameters.files@.len(),
            parameters.max_pages_converted_in_parallele,
            parameters.ocr is Some,
        ),
{
    if !password_fits_a_line(parameters.default_password.as_str()) {
        Err(ParameterError::PasswordIsNoLine)
    } else if parameters.files.len() > 0xffff {
        Err(ParameterError::TooManyFiles)
    } else if parameters.ocr.is_some() && parameters.max_pages_converted_in_parallele == 0 {
        Err(ParameterError::NoEncoder)
    } else {
        Ok(())
    }
}

/// The files of parameters that pass the check reach the worker as they
/// were listed: none missing, none added, and in the same order.
pub proof fn lemma_checked_files_arrive_in_order(
    default_password: Seq<u8>,
    files: Seq<Seq<u8>>,
    encoders: u8,
    ocr: bool,
)
    requires
        spec_check_parameters(default_password, files.len(), encoders, ocr) is Ok,
        forall|i: int| 0 <= i < files.len() ==> (#[trigger] files[i]).len() <= usize::MAX,
    ensures
        crate::request::spec_parse_request(crate::request::request(default_password, files))
            == Some((default_password, files)),
{
    crate::request::lemma_request_round_trip(default_password, files);
}

/// What became of a file of the session.
#[derive(Eq, PartialEq, Copy, Clone, Debug, Structural)]
pub enum Outcome {
    /// The trusted output is written and the source is archived or removed.
    Converted,
    /// The conversion failed.
    Failed { error: ConvertError },
    /// The session ended before the file's turn came.
    Abandoned { error: ConvertError },
}

/// The files of a session and how far the session has come.
pub struct Session {
    files: Vec<String>,
    outcomes: Vec<Outcome>,
    started: usize,
    aborted: bool,
}

/// A [`Session`] as mathematics sees it.
pub ghost struct SessionView {
    /// The files in the order in which they were listed.
    pub files: Seq<Seq<char>>,
    /// What became of the files whose conversion has ended, in that order.
    pub outcomes: Seq<Outcome>,
    /// Number of files whose conversion has begun.
    pub started: nat,
    /// Whether a failure has ended the session.
    pub aborted: bool,
}

impl SessionView {
    /// What holds of every session.
    pub open spec fn wf(self) -> bool {
        &&& self.outcomes.len() <= self.started <= self.files.len()
        &&& self.started <= self.outcomes.len() + 1
        &&& self.aborted ==> self.outcomes.len() == self.files.len() && self.started
            == self.files.len()
    }

    /// Whether every file was converted.
    pub open spec fn succeeded(self) -> bool {
        &&& self.outcomes.len() == self.files.len()
        &&& forall|i: int| 0 <= i < self.outcomes.len() ==> self.outcomes[i] == Outcome::Converted
    }

    /// The events that mark as failed the files from `from` on.
    pub open spec fn abandon_events(self, from: int, error: ConvertError) -> Seq<EventView> {
        Seq::new(
            (self.files.len() - from) as nat,
            |i: int| EventView::Failure { file: self.files[from + i], message: error.spec_message() },
        )
    }
}

impl View for Session {
    type V = SessionView;

    closed spec fn view(&self) -> SessionView {
        SessionView {
            files: texts(self.files@),
            outcomes: self.outcomes@,
            started: self.started as nat,
            aborted: self.aborted,
        }
    }
}

impl Session {
    /// A session for `files`, none of which has been touched.
    pub fn new(files: Vec<String>) -> (session: Session)
        ensures
            session@.wf(),
            session@.files == texts(files@),
            session@.outcomes.len() == 0,
            session@.started == 0,
            !session@.aborted,
    {
        Session { files, outcomes: Vec::new(), started: 0, aborted: false }
    }

    /// Number of files in the session.
    pub fn number_files(&self) -> (count: usize)
        ensures
            count == self@.files.len(),
    {
        self.files.len()
    }

    /// Begins the conversion of the next file: the files come in the order
    /// in which they were listed, one at a time. There is none while a
    /// conversion has not ended, after the last file, and after a failure
    /// that ended the session.
    pub fn next_file(&mut self) -> (next: Option<(usize, String)>)
        requires
            old(self)@.wf(),
        ensures
            final(self)@.wf(),
            final(self)@.files == old(self)@.files,
            final(self)@.outcomes == old(self)@.outcomes,
            final(self)@.aborted == old(self)@.aborted,
            match next {
                Some((index, file)) => {
                    &&& index == old(self)@.started
                    &&& old(self)@.started == old(self)@.outcomes.len()
                    &&& index < old(self)@.files.len()
                    &&& file@ == old(self)@.files[index as int]
                    &&& final(self)@.started == index + 1
                },
                None => {
                    &&& final(self)@ == old(self)@
                    &&& old(self)@.started == old(self)@.files.len() || old(self)@.started
                        > old(self)@.outcomes.len()
                },
            },
    {
        if self.started >= self.files.len() || self.started > self.outcomes.len() {
            return None;
        }
        let index: usize = self.started;
        let file = String::from_str(self.files[index].as_str());
        self.started = index + 1;
        Some((index, file))
    }

    /// Takes what became of the file whose conversion had begun; where none
    /// had, nothing changes. `fatal` says whether a failure has left the
    /// worker's stream out of step. Such a failure ends the session: every
    /// file that was still to come is marked as failed, in the order of the
    /// list, and none of them will be begun.
    pub fn finish_file(&mut self, failure: Option<ConvertError>, fatal: bool) -> (events: Vec<
        ConvertEvent,
    >)
        requires
            old(self)@.wf(),
        ensures
            final(self)@.wf(),
            final(self)@.files == old(self)@.files,
            old(self)@.started != old(self)@.outcomes.len() + 1 ==> final(self)@ == old(self)@
                && events@.len() == 0,
            old(self)@.started == old(self)@.outcomes.len() + 1 ==> match failure {
                None => {
                    &&& final(self)@.outcomes == old(self)@.outcomes.push(Outcome::Converted)
                    &&& final(self)@.started == old(self)@.started
                    &&& !final(self)@.aborted
                    &&& events@.len() == 0
                },
                Some(error) => if fatal {
                    &&& final(self)@.aborted
                    &&& final(self)@.outcomes.len() == old(self)@.files.len()
                    &&& final(self)@.outcomes.take(old(self)@.started as int) == old(
                        self,
                    )@.outcomes.push(Outcome::Failed { error })
                    &&& forall|i: int|
                        old(self)@.started <= i < old(self)@.files.len() ==> (
                        #[trigger] final(self)@.outcomes[i]) == (Outcome::Abandoned { error })
                    &&& views(events@) == old(self)@.abandon_events(
                        old(self)@.started as int,
                        error,
                    )
                } else {
                    &&& final(self)@.outcomes == old(self)@.outcomes.push(
                        Outcome::Failed { error },
                    )
                    &&& final(self)@.started == old(self)@.started
                    &&& !final(self)@.aborted
                    &&& events@.len() == 0
                },
            },
    {
        let mut events: Vec<ConvertEvent> = Vec::new();
        if self.started == 0 || self.started - 1 != self.outcomes.len() {
            return events;
        }
        match failure {
            None => {
                self.outcomes.push(Outcome::Converted);
            },
            Some(error) => {
                self.outcomes.push(Outcome::Failed { error });
                if fatal {
                    let ghost before = self@;
                    let first: usize = self.started;
                    let mut i: usize = first;
                    while i < self.files.len()
                        invariant
                            first <= i <= self.files.len(),
                            self.files == old(self).files,
                            first == old(self)@.started,
                            self.started == first,
                            self.outcomes@.len() == i,
                            self.outcomes@.take(first as int) == old(self)@.outcomes.push(
                                Outcome::Failed { error },
                            ),
                            forall|k: int|
                                first <= k < i ==> (#[trigger] self.outcomes@[k]) == (
                                Outcome::Abandoned { error }),
                            events@.len() == i - first,
                            forall|k: int|
                                0 <= k < i - first ==> (#[trigger] events@[k])@ == (
                                EventView::Failure {
                                    file: old(self)@.files[first + k],
                                    message: error.spec_message(),
                                }),
                        decreases self.files.len() - i,
                    {
                        let ghost taken = self.outcomes@.take(first as int);
                        events.push(
                            ConvertEvent::Failure {
                                file: String::from_str(self.files[i].as_str()),
                                message: error.message(),
                            },
                        );
                        self.outcomes.push(Outcome::Abandoned { error });
                        assert(self.outcomes@.take(first as int) =~= taken);
                        i = i + 1;
                    }
                    self.started = self.files.len();
                    self.aborted = true;
                    assert(views(events@) =~= old(self)@.abandon_events(
                        old(self)@.started as int,
                        error,
                    ));
                } else {
                }
            },
        }
        events
    }

    /// Whether a failure has ended the session.
    pub fn is_aborted(&self) -> (aborted: bool)
        ensures
            aborted == self@.aborted,
    {
        self.aborted
    }

    /// The code with which the process ends: zero if every file was
    /// converted, one otherwise.
    pub fn exit_code(&self) -> (code: u8)
        ensures
            code == 0 <==> self@.succeeded(),
            code == 0 || code == 1,
    {
        if self.outcomes.len() != self.files.len() {
            return 1;
        }
        let mut i: usize = 0;
        while i < self.outcomes.len()
            invariant
                i <= self.outcomes.len(),
                self.outcomes.len() == self.files.len(),
                forall|k: int| 0 <= k < i ==> self.outcomes@[k] == Outcome::Converted,
            decreases self.outcomes.len() - i,
        {
            if self.outcomes[i] != Outcome::Converted {
                return 1;
            }
            i = i + 1;
        }
        0
    }

    /// The files that were not converted, in the order of the list: those
    /// that failed, those that were abandoned, and those whose turn has not
    /// come.
    pub fn unconverted_files(&self) -> (files: Vec<String>)
        requires
            self@.wf(),
        ensures
            texts(files@) == unconverted(self@, self@.files.len() as int),
    {
        let mut files: Vec<String> = Vec::new();
        let mut i: usize = 0;
        while i < self.files.len()
            invariant
                i <= self.files.len(),
                texts(files@) == unconverted(self@, i as int),
            decreases self.files.len() - i,
        {
            let ghost before = texts(files@);
            if i >= self.outcomes.len() || self.outcomes[i] != Outcome::Converted {
                files.push(String::from_str(self.files[i].as_str()));
                assert(texts(files@) =~= before.push(self@.files[i as int]));
            }
            i = i + 1;
        }
        files
    }
}

/// Of the first `upto` files of a session, those that were not converted,
/// in the order of the list.
pub open spec fn unconverted(session: SessionView, upto: int) -> Seq<Seq<char>>
    decreases upto,
{
    if upto <= 0 {
        Seq::empty()
    } else {
        let before = unconverted(session, upto - 1);
        if upto - 1 < session.outcomes.len() && session.outcomes[upto - 1] == Outcome::Converted {
            before
        } else {
            before.push(session.files[upto - 1])
        }
    }
}

} // verus!
