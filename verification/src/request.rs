//! The request that the client writes to the worker: the default password
//! and the number of files as lines of text, then each file as a line that
//! holds its length, followed by that many bytes.

use crate::decimal::{
    decimal, encode_decimal, lemma_decimal, lemma_decimal_round_trip, parse_decimal_u16,
    parse_decimal_usize, spec_parse_decimal,
};
use vstd::prelude::*;
use vstd::slice::slice_subrange;
use vstd::string::StringSliceAdditionalSpecFns;

verus! {

/// The byte that ends a line.
pub const LINE_FEED: u8 = 10;

/// The byte that a reader drops in front of a line feed.
pub const CARRIAGE_RETURN: u8 = 13;

/// A line of text on the wire.
pub open spec fn line(content: Seq<u8>) -> Seq<u8> {
    content.push(LINE_FEED)
}

/// One file on the wire: its length as a line, then its bytes.
pub open spec fn block(file: Seq<u8>) -> Seq<u8> {
    line(decimal(file.len())) + file
}

/// Files on the wire, one block after the other, in their order.
pub open spec fn blocks(files: Seq<Seq<u8>>) -> Seq<u8>
    decreases files.len(),
{
    if files.len() == 0 {
        Seq::empty()
    } else {
        block(files[0]) + blocks(files.drop_first())
    }
}

/// What comes before the files: the password and the number of files.
pub open spec fn preamble(password: Seq<u8>, count: nat) -> Seq<u8> {
    line(password) + line(decimal(count))
}

/// A whole request on the wire.
pub open spec fn request(password: Seq<u8>, files: Seq<Seq<u8>>) -> Seq<u8> {
    preamble(password, files.len()) + blocks(files)
}

/// Position of the first line feed in `stream`, or its length if it holds
/// none.
pub open spec fn line_end(stream: Seq<u8>) -> int
    decreases stream.len(),
{
    if stream.len() == 0 {
        0
    } else if stream[0] == LINE_FEED {
        0
    } else {
        1 + line_end(stream.drop_first())
    }
}

/// A line without the carriage return that may stand at its end.
pub open spec fn without_carriage_return(text: Seq<u8>) -> Seq<u8> {
    if text.len() > 0 && text.last() == CARRIAGE_RETURN {
        text.drop_last()
    } else {
        text
    }
}

/// The first line of `stream` and what follows it. The line ends at the
/// first line feed, which is dropped together with a carriage return in
/// front of it; without a line feed, all that is left is the line. An empty
/// stream holds no line.
pub open spec fn spec_take_line(stream: Seq<u8>) -> Option<(Seq<u8>, Seq<u8>)> {
    let end = line_end(stream);
    if stream.len() == 0 {
        None
    } else if end < stream.len() {
        Some((without_carriage_return(stream.take(end)), stream.skip(end + 1)))
    } else {
        Some((stream, Seq::empty()))
    }
}

/// The next `count` files of `stream`, each read as a line with its length
/// and that many bytes; nothing if a line is missing, is no length, or
/// fewer bytes are left than it announces.
pub open spec fn spec_read_blocks(stream: Seq<u8>, count: nat) -> Option<Seq<Seq<u8>>>
    decreases count,
{
    if count == 0 {
        Some(Seq::empty())
    } else {
        match spec_take_line(stream) {
            None => None,
            Some((text, rest)) => match spec_parse_decimal(text, usize::MAX as nat) {
                None => None,
                Some(length) => if length > rest.len() {
                    None
                } else {
                    match spec_read_blocks(rest.skip(length as int), (count - 1) as nat) {
                        None => None,
                        Some(files) => Some(seq![rest.take(length as int)] + files),
                    }
                },
            },
        }
    }
}

/// What the worker makes of a request: the password and the files, in the
/// order in which they were sent.
pub open spec fn spec_parse_request(stream: Seq<u8>) -> Option<(Seq<u8>, Seq<Seq<u8>>)> {
    match spec_take_line(stream) {
        None => None,
        Some((password, rest)) => match spec_take_line(rest) {
            None => None,
            Some((text, rest)) => match spec_parse_decimal(text, 0xffff) {
                None => None,
                Some(count) => match spec_read_blocks(rest, count) {
                    None => None,
                    Some(files) => Some((password, files)),
                },
            },
        }
    }
}

/// Whether `text` can travel as a line: it holds no line feed and does not
/// end in a carriage return.
pub open spec fn fits_a_line(text: Seq<u8>) -> bool {
    &&& forall|i: int| 0 <= i < text.len() ==> (#[trigger] text[i]) != LINE_FEED
    &&& text.len() > 0 ==> text.last() != CARRIAGE_RETURN
}

/// A line that is followed by anything is read back as it was written.
pub proof fn lemma_take_line(content: Seq<u8>, rest: Seq<u8>)
    requires
        fits_a_line(content),
    ensures
        spec_take_line(line(content) + rest) == Some((content, rest)),
{
    let stream = line(content) + rest;
    lemma_line_end(content, seq![LINE_FEED] + rest);
    assert(stream =~= content + (seq![LINE_FEED] + rest));
    assert(stream.take(content.len() as int) =~= content);
    assert(stream.skip(content.len() as int + 1) =~= rest);
}

proof fn lemma_line_end(content: Seq<u8>, rest: Seq<u8>)
    requires
        forall|i: int| 0 <= i < content.len() ==> (#[trigger] content[i]) != LINE_FEED,
        rest.len() > 0,
        rest[0] == LINE_FEED,
    ensures
        line_end(content + rest) == content.len(),
    decreases content.len(),
{
    let stream = content + rest;
    if content.len() == 0 {
        assert(stream[0] == rest[0]);
    } else {
        assert(stream[0] == content[0]);
        assert forall|i: int| 0 <= i < content.drop_first().len() implies (
        #[trigger] content.drop_first()[i]) != LINE_FEED by {
            assert(content.drop_first()[i] == content[i + 1]);
        }
        lemma_line_end(content.drop_first(), rest);
        assert(stream.drop_first() =~= content.drop_first() + rest);
    }
}

/// Files that are followed by anything are read back as they were written,
/// and in the order in which they were written.
pub proof fn lemma_read_blocks(files: Seq<Seq<u8>>, rest: Seq<u8>)
    requires
        forall|i: int| 0 <= i < files.len() ==> (#[trigger] files[i]).len() <= usize::MAX,
    ensures
        spec_read_blocks(blocks(files) + rest, files.len()) == Some(files),
    decreases files.len(),
{
    if files.len() == 0 {
        assert(files =~= Seq::<Seq<u8>>::empty());
    } else {
        let first = files[0];
        let others = files.drop_first();
        let text = decimal(first.len());
        let after_line = first + (blocks(others) + rest);
        lemma_decimal(first.len());
        lemma_decimal_round_trip(first.len(), usize::MAX as nat);
        assert(blocks(files) + rest =~= line(text) + after_line);
        lemma_take_line(text, after_line);
        assert(after_line.take(first.len() as int) =~= first);
        assert(after_line.skip(first.len() as int) =~= blocks(others) + rest);
        assert forall|i: int| 0 <= i < others.len() implies (#[trigger] others[i]).len()
            <= usize::MAX by {
            assert(others[i] == files[i + 1]);
        }
        lemma_read_blocks(others, rest);
        assert(seq![first] + others =~= files);
    }
}

/// The worker reads the files of a request as the client wrote them, none
/// missing, none added, and in the order in which they were listed.
pub proof fn lemma_request_round_trip(password: Seq<u8>, files: Seq<Seq<u8>>)
    requires
        fits_a_line(password),
        files.len() <= 0xffff,
        forall|i: int| 0 <= i < files.len() ==> (#[trigger] files[i]).len() <= usize::MAX,
    ensures
        spec_parse_request(request(password, files)) == Some((password, files)),
{
    let count = decimal(files.len());
    lemma_decimal(files.len());
    lemma_decimal_round_trip(files.len(), 0xffff);
    assert(request(password, files) =~= line(password) + (line(count) + blocks(files)));
    lemma_take_line(password, line(count) + blocks(files));
    lemma_take_line(count, blocks(files));
    lemma_read_blocks(files, Seq::empty());
    assert(blocks(files) + Seq::<u8>::empty() =~= blocks(files));
}

fn push_all(target: &mut Vec<u8>, bytes: &[u8])
    ensures
        final(target)@ == old(target)@ + bytes@,
{
    let mut i: usize = 0;
    while i < bytes.len()
        invariant
            i <= bytes.len(),
            target@ == old(target)@ + bytes@.take(i as int),
        decreases bytes.len() - i,
    {
        target.push(bytes[i]);
        i = i + 1;
        assert(bytes@.take(i as int) =~= bytes@.take(i - 1).push(bytes@[i - 1]));
        assert(target@ =~= old(target)@ + bytes@.take(i as int));
    }
    assert(bytes@.take(bytes.len() as int) =~= bytes@);
}

/// What the client writes first: the default password on a line of its
/// own, then the number of files on the next.
pub fn encode_preamble(default_password: &str, number_files: usize) -> (bytes: Vec<u8>)
    ensures
        bytes@ == preamble(default_password.spec_bytes(), number_files as nat),
{
    let mut bytes: Vec<u8> = Vec::new();
    push_all(&mut bytes, default_password.as_bytes());
    bytes.push(LINE_FEED);
    let count = encode_decimal(number_files);
    push_all(&mut bytes, count.as_slice());
    bytes.push(LINE_FEED);
    assert(bytes@ =~= preamble(default_password.spec_bytes(), number_files as nat));
    bytes
}

/// What the client writes in front of the bytes of a file: their number,
/// on a line of its own.
pub fn encode_block_header(length: usize) -> (bytes: Vec<u8>)
    ensures
        bytes@ == line(decimal(length as nat)),
        forall|file: Seq<u8>| file.len() == length ==> bytes@ + file == #[trigger] block(file),
{
    let mut bytes = encode_decimal(length);
    bytes.push(LINE_FEED);
    bytes
}

/// Whether a password can be sent: once on the wire it is a line, so it
/// may hold no line feed, and a carriage return at its end would be lost.
pub fn password_fits_a_line(default_password: &str) -> (fits: bool)
    ensures
        fits == fits_a_line(default_password.spec_bytes()),
{
    let bytes = default_password.as_bytes();
    let mut i: usize = 0;
    while i < bytes.len()
        invariant
            i <= bytes.len(),
            bytes@ == default_password.spec_bytes(),
            forall|k: int| 0 <= k < i ==> (#[trigger] bytes@[k]) != LINE_FEED,
        decreases bytes.len() - i,
    {
        if bytes[i] == LINE_FEED {
            assert(bytes@[i as int] == LINE_FEED);
            return false;
        }
        i = i + 1;
    }
    bytes.len() == 0 || bytes[bytes.len() - 1] != CARRIAGE_RETURN
}

/// A request as the worker has read it.
pub struct ReceivedRequest {
    pub default_password: Vec<u8>,
    pub files: Vec<Vec<u8>>,
}

impl ReceivedRequest {
    /// The files, each as a sequence of bytes.
    pub open spec fn spec_files(self) -> Seq<Seq<u8>> {
        Seq::new(self.files@.len(), |i: int| self.files@[i]@)
    }
}

pub(crate) fn find_line_end(stream: &[u8], from: usize) -> (end: usize)
    requires
        from <= stream.len(),
    ensures
        end == from + line_end(stream@.skip(from as int)),
        from <= end <= stream.len(),
{
    let mut end: usize = from;
    while end < stream.len() && stream[end] != LINE_FEED
        invariant
            from <= end <= stream.len(),
            line_end(stream@.skip(from as int)) == (end - from) + line_end(
                stream@.skip(end as int),
            ),
        decreases stream.len() - end,
    {
        proof {
            let here = stream@.skip(end as int);
            assert(here[0] == stream@[end as int]);
            assert(here.drop_first() =~= stream@.skip(end + 1));
        }
        end = end + 1;
    }
    proof {
        let here = stream@.skip(end as int);
        if end < stream.len() {
            assert(here[0] == stream@[end as int]);
        }
    }
    end
}

/// Takes the line that starts at `from`, and says where the next one
/// starts. There is no line where the stream has ended.
pub fn take_line(stream: &[u8], from: usize) -> (taken: Option<(Vec<u8>, usize)>)
    requires
        from <= stream.len(),
    ensures
        match spec_take_line(stream@.skip(from as int)) {
            None => taken is None,
            Some((content, rest)) => taken matches Some((text, next)) && text@ == content && from
                < next <= stream.len() && stream@.skip(next as int) == rest,
        },
{
    if from == stream.len() {
        return None;
    }
    let ghost here = stream@.skip(from as int);
    let end: usize = find_line_end(stream, from);
    let mut text: Vec<u8> = Vec::new();
    if end < stream.len() {
        let stop: usize = if end > from && stream[end - 1] == CARRIAGE_RETURN {
            (end - 1) as usize
        } else {
            end
        };
        push_all(&mut text, slice_subrange(stream, from, stop));
        proof {
            let raw = here.take(end - from);
            assert(raw =~= stream@.subrange(from as int, end as int));
            if end > from {
                assert(raw.last() == stream@[end - 1]);
            }
            assert(text@ =~= without_carriage_return(raw));
            assert(stream@.skip(end + 1) =~= here.skip(end - from + 1));
        }
        Some((text, end + 1))
    } else {
        push_all(&mut text, slice_subrange(stream, from, end));
        proof {
            assert(text@ =~= here);
            assert(stream@.skip(end as int) =~= Seq::<u8>::empty());
        }
        Some((text, end))
    }
}

/// Reads a whole request: the password, the number of files, and each file
/// behind the line that holds its length. Bytes that follow the last file
/// are left alone.
pub fn parse_request(stream: &[u8]) -> (parsed: Option<ReceivedRequest>)
    ensures
        match spec_parse_request(stream@) {
            None => parsed is None,
            Some((password, files)) => parsed matches Some(received)
                && received.default_password@ == password && received.spec_files() == files,
        },
{
    assert(stream@.skip(0) =~= stream@);
    let (default_password, after_password) = match take_line(stream, 0) {
        None => {
            return None;
        },
        Some(taken) => taken,
    };
    let (count_text, after_count) = match take_line(stream, after_password) {
        None => {
            return None;
        },
        Some(taken) => taken,
    };
    let count: u16 = match parse_decimal_u16(count_text.as_slice()) {
        None => {
            return None;
        },
        Some(count) => count,
    };
    let mut files: Vec<Vec<u8>> = Vec::new();
    let mut at: usize = after_count;
    let mut read: u16 = 0;
    let ghost all = spec_read_blocks(stream@.skip(after_count as int), count as nat);
    let ghost password = default_password@;
    assert(Seq::new(files@.len(), |i: int| files@[i]@) + all.unwrap() =~= all.unwrap());
    while read < count
        invariant
            read <= count,
            spec_parse_request(stream@) == match all {
                None => None::<(Seq<u8>, Seq<Seq<u8>>)>,
                Some(found) => Some((password, found)),
            },
            at <= stream.len(),
            files@.len() == read,
            match spec_read_blocks(stream@.skip(at as int), (count - read) as nat) {
                None => all is None,
                Some(others) => all == Some(
                    Seq::new(files@.len(), |i: int| files@[i]@) + others,
                ),
            },
        decreases count - read,
    {
        let ghost so_far = Seq::new(files@.len(), |i: int| files@[i]@);
        let (length_text, after_length) = match take_line(stream, at) {
            None => {
                return None;
            },
            Some(taken) => taken,
        };
        let length: usize = match parse_decimal_usize(length_text.as_slice()) {
            None => {
                return None;
            },
            Some(length) => length,
        };
        if length > stream.len() - after_length {
            return None;
        }
        let mut file: Vec<u8> = Vec::new();
        push_all(&mut file, slice_subrange(stream, after_length, after_length + length));
        proof {
            let rest = stream@.skip(after_length as int);
            assert(file@ =~= rest.take(length as int));
            assert(rest.skip(length as int) =~= stream@.skip(after_length + length));
            match spec_read_blocks(rest.skip(length as int), (count - read - 1) as nat) {
                None => {},
                Some(others) => {
                    assert(so_far.push(file@) + others =~= so_far + (seq![file@] + others));
                },
            }
        }
        files.push(file);
        assert(Seq::new(files@.len(), |i: int| files@[i]@) =~= so_far.push(file@));
        at = after_length + length;
        read = read + 1;
    }
    let received = ReceivedRequest { default_password, files };
    proof {
        let so_far = Seq::new(files@.len(), |i: int| files@[i]@);
        assert(so_far + Seq::<Seq<u8>>::empty() =~= so_far);
        assert(received.spec_files() =~= so_far);
    }
    Some(received)
}

/// What the worker reads next from a request.
#[derive(Eq, PartialEq, Copy, Clone, Debug, Structural)]
pub enum Expect {
    /// The line that holds the default password.
    Password,
    /// The line that holds the number of files.
    Count,
    /// The line that holds the length of the next file.
    Length,
    /// The bytes of the next file, as many as its line announced.
    Blob { length: usize },
    /// Nothing: every file has been read.
    End,
    /// Nothing: the request is damaged.
    Failed,
}

/// How far the worker has read a request.
#[derive(Eq, PartialEq, Copy, Clone, Debug, Structural)]
pub struct RequestReader {
    pub expect: Expect,
    /// Files that the request announced.
    pub files: u16,
    /// Files that have been read.
    pub read: u16,
}

impl RequestReader {
    /// A reader that has read nothing.
    pub open spec fn spec_new() -> RequestReader {
        RequestReader { expect: Expect::Password, files: 0, read: 0 }
    }

    /// What holds of every reader.
    pub open spec fn wf(self) -> bool {
        &&& self.read <= self.files
        &&& (self.expect == Expect::Password || self.expect == Expect::Count) ==> self.files == 0
        &&& (self.expect == Expect::Length || self.expect is Blob) ==> self.read < self.files
        &&& self.expect == Expect::End ==> self.read == self.files
    }

    /// The reader after a line: the password is any line; the count and
    /// each length must be a number. A line that was not asked for changes
    /// nothing.
    pub open spec fn spec_on_line(self, text: Seq<u8>) -> RequestReader {
        match self.expect {
            Expect::Password => RequestReader { expect: Expect::Count, ..self },
            Expect::Count => match spec_parse_decimal(text, 0xffff) {
                None => RequestReader { expect: Expect::Failed, ..self },
                Some(count) => RequestReader {
                    expect: if count == 0 {
                        Expect::End
                    } else {
                        Expect::Length
                    },
                    files: count as u16,
                    ..self
                },
            },
            Expect::Length => match spec_parse_decimal(text, usize::MAX as nat) {
                None => RequestReader { expect: Expect::Failed, ..self },
                Some(length) => RequestReader {
                    expect: Expect::Blob { length: length as usize },
                    ..self
                },
            },
            _ => self,
        }
    }

    /// The reader after the bytes of a file. Bytes that were not asked for
    /// change nothing.
    pub open spec fn spec_on_blob(self) -> RequestReader {
        match self.expect {
            Expect::Blob { .. } => RequestReader {
                expect: if self.read + 1 == self.files {
                    Expect::End
                } else {
                    Expect::Length
                },
                read: (self.read + 1) as u16,
                ..self
            },
            _ => self,
        }
    }

    /// The reader after the input has ended: a request that ends before its
    /// last file is damaged.
    pub open spec fn spec_on_end(self) -> RequestReader {
        match self.expect {
            Expect::End => self,
            _ => RequestReader { expect: Expect::Failed, ..self },
        }
    }

    /// The reader after the files of a request, each as the line of its
    /// length and its bytes.
    pub open spec fn spec_on_files(self, files: Seq<Seq<u8>>) -> RequestReader
        decreases files.len(),
    {
        if files.len() == 0 {
            self
        } else {
            self.spec_on_files(files.drop_last()).spec_on_line(
                decimal(files.last().len()),
            ).spec_on_blob()
        }
    }

    /// A reader that has read nothing.
    pub fn new() -> (reader: RequestReader)
        ensures
            reader == RequestReader::spec_new(),
            reader.wf(),
    {
        RequestReader { expect: Expect::Password, files: 0, read: 0 }
    }

    /// Takes a line of the request.
    pub fn on_line(&self, text: &[u8]) -> (reader: RequestReader)
        requires
            self.wf(),
        ensures
            reader == self.spec_on_line(text@),
            reader.wf(),
    {
        let mut reader = *self;
        match self.expect {
            Expect::Password => {
                reader.expect = Expect::Count;
            },
            Expect::Count => match parse_decimal_u16(text) {
                None => {
                    reader.expect = Expect::Failed;
                },
                Some(count) => {
                    reader.files = count;
                    reader.expect = if count == 0 {
                        Expect::End
                    } else {
                        Expect::Length
                    };
                },
            },
            Expect::Length => match parse_decimal_usize(text) {
                None => {
                    reader.expect = Expect::Failed;
                },
                Some(length) => {
                    reader.expect = Expect::Blob { length };
                },
            },
            _ => {},
        }
        reader
    }

    /// Takes the news that the bytes of a file have been read.
    pub fn on_blob(&self) -> (reader: RequestReader)
        requires
            self.wf(),
        ensures
            reader == self.spec_on_blob(),
            reader.wf(),
    {
        let mut reader = *self;
        match self.expect {
            Expect::Blob { .. } => {
                reader.read = self.read + 1;
                reader.expect = if reader.read == reader.files {
                    Expect::End
                } else {
                    Expect::Length
                };
            },
            _ => {},
        }
        reader
    }

    /// Takes the news that the input has ended.
    pub fn on_end(&self) -> (reader: RequestReader)
        ensures
            reader == self.spec_on_end(),
    {
        let mut reader = *self;
        match self.expect {
            Expect::End => {},
            _ => {
                reader.expect = Expect::Failed;
            },
        }
        reader
    }
}

/// A worker that reads a request as the client wrote it asks for each file
/// in the order of the list, with the length that the file has, and has
/// read every file when the last one is in.
pub proof fn lemma_reader_follows_request(password: Seq<u8>, files: Seq<Seq<u8>>, read: int)
    requires
        files.len() <= 0xffff,
        forall|i: int| 0 <= i < files.len() ==> (#[trigger] files[i]).len() <= usize::MAX,
        0 <= read <= files.len(),
    ensures
        ({
            let counted = RequestReader::spec_new().spec_on_line(password).spec_on_line(
                decimal(files.len()),
            );
            let now = counted.spec_on_files(files.take(read));
            &&& now.files == files.len()
            &&& now.read == read
            &&& now.expect == if read == files.len() {
                Expect::End
            } else {
                Expect::Length
            }
            &&& read < files.len() ==> now.spec_on_line(decimal(files[read].len())).expect == (
            Expect::Blob { length: files[read].len() as usize })
        }),
    decreases read,
{
    let counted = RequestReader::spec_new().spec_on_line(password).spec_on_line(
        decimal(files.len()),
    );
    lemma_decimal_round_trip(files.len(), 0xffff);
    if read == 0 {
        assert(files.take(0) =~= Seq::<Seq<u8>>::empty());
    } else {
        lemma_reader_follows_request(password, files, read - 1);
        assert(files.take(read).drop_last() =~= files.take(read - 1));
        assert(files.take(read).last() == files[read - 1]);
    }
    if read < files.len() {
        lemma_decimal_round_trip(files[read].len(), usize::MAX as nat);
    }
}

} // verus!
