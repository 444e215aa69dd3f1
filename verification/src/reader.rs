//! The protocol reader: a buffer over an input stream, with markers to go
//! back to, and the three ways a spec reads its placeholder.
//!
//! The stream is described by the bytes it still has to deliver and whether
//! it ends after them. A read that needs more bytes than are buffered fills
//! the buffer with what the stream delivers; when nothing more comes, an
//! ended stream reports an unexpected end of file, and an open one makes the
//! read give up with `EndOfStream`, as a read that timed out does.
use vstd::prelude::*;
use vstd::slice::*;
use vstd::string::*;
use vstd::utf8::*;

use crate::error::{ErrorKind, IoFailure, ParserError, kind_of, token_message_stated};
use crate::text::occurs_at;

verus! {

/// `i` is the first place where `needle` occurs in `haystack`.
pub open spec fn is_first_occurrence(haystack: Seq<u8>, needle: Seq<u8>, i: int) -> bool {
    occurs_at(haystack, needle, i) && forall|j: int| 0 <= j < i ==> !occurs_at(haystack, needle, j)
}

/// The first place where `needle` occurs in `haystack`, if it occurs.
pub open spec fn first_occurrence(haystack: Seq<u8>, needle: Seq<u8>) -> Option<int> {
    if exists|i: int| is_first_occurrence(haystack, needle, i) {
        Some(choose|i: int| is_first_occurrence(haystack, needle, i))
    } else {
        None
    }
}

proof fn lemma_first_occurrence_unique(haystack: Seq<u8>, needle: Seq<u8>, i: int)
    requires
        is_first_occurrence(haystack, needle, i),
    ensures
        first_occurrence(haystack, needle) == Some(i),
{
    let c = choose|k: int| is_first_occurrence(haystack, needle, k);
    assert(is_first_occurrence(haystack, needle, c));
    if c < i {
        assert(!occurs_at(haystack, needle, c));
    } else if i < c {
        assert(!occurs_at(haystack, needle, i));
    }
}

proof fn lemma_no_occurrence(haystack: Seq<u8>, needle: Seq<u8>)
    requires
        forall|i: int| !occurs_at(haystack, needle, i),
    ensures
        first_occurrence(haystack, needle) is None,
{
    if exists|i: int| is_first_occurrence(haystack, needle, i) {
        let c = choose|k: int| is_first_occurrence(haystack, needle, k);
        assert(occurs_at(haystack, needle, c));
    }
}

/// `memchr::memmem::Finder::new(needle).find(haystack)`: the crate documents it
/// as the index of the first occurrence of `needle` in `haystack` (an empty
/// needle occurs at 0); the contract says that and no more.
#[verifier::external_body]
fn find_first(haystack: &[u8], needle: &[u8]) -> (r: Option<usize>)
    ensures
        r matches Some(i) ==> is_first_occurrence(haystack@, needle@, i as int),
        r is None ==> forall|i: int| !occurs_at(haystack@, needle@, i),
{
    memchr::memmem::Finder::new(needle).find(haystack)
}

/// Position of the reader to come back to.
#[derive(Debug, Clone, Copy, PartialEq, Eq)]
pub struct Marker {
    pub pos: usize,
}

impl Marker {
    fn new(pos: usize) -> (r: Self)
        ensures
            r.pos == pos,
    {
        Marker { pos }
    }
}

/// How many bytes a read takes: a fixed number, or all that the stream has.
#[derive(Debug, Clone, Copy, PartialEq, Eq)]
pub enum ReadBytesSize {
    Fixed(u32),
    Full,
}

impl ReadBytesSize {
    /// The number of bytes asked for; `u32::MAX` stands for all of them.
    pub fn get_value(&self) -> (r: u32)
        ensures
            r == size_value(*self),
    {
        match self {
            ReadBytesSize::Fixed(size) => *size,
            ReadBytesSize::Full => u32::MAX,
        }
    }

    pub fn is_full(&self) -> (r: bool)
        ensures
            r == (*self is Full),
    {
        match self {
            ReadBytesSize::Full => true,
            _ => false,
        }
    }
}

pub open spec fn size_value(s: ReadBytesSize) -> u32 {
    match s {
        ReadBytesSize::Fixed(n) => n,
        ReadBytesSize::Full => u32::MAX,
    }
}

/// Mathematical content of a reader.
pub struct ReaderView {
    /// bytes received so far and kept
    pub buf: Seq<u8>,
    /// position of the next unread byte in `buf`
    pub pos: nat,
    /// positions saved by `mark`, innermost last
    pub markers: Seq<nat>,
    /// bytes the stream will still deliver
    pub incoming: Seq<u8>,
    /// whether the stream ends after `incoming`
    pub closed: bool,
}

impl ReaderView {
    pub open spec fn wf(self) -> bool {
        &&& self.pos <= self.buf.len()
        &&& forall|i: int| 0 <= i < self.markers.len() ==> #[trigger] self.markers[i] <= self.buf.len()
    }

    /// The bytes not read yet: the unread part of the buffer, then what the
    /// stream will deliver.
    pub open spec fn remaining(self) -> Seq<u8> {
        self.buf.subrange(self.pos as int, self.buf.len() as int) + self.incoming
    }

    /// The reader after the stream delivered all it has into the buffer.
    pub open spec fn filled(self) -> ReaderView {
        ReaderView { buf: self.buf + self.incoming, incoming: Seq::empty(), ..self }
    }

    /// The reader after `amount` more bytes were read: when no marker is held
    /// and at least half the buffer was read, the read part is dropped.
    pub open spec fn consumed(self, amount: nat) -> ReaderView {
        if self.pos >= self.buf.len() / 2 && self.markers.len() == 0 {
            ReaderView {
                buf: self.buf.subrange((self.pos + amount) as int, self.buf.len() as int),
                pos: 0,
                ..self
            }
        } else {
            ReaderView { pos: self.pos + amount, ..self }
        }
    }

    /// Whether the buffer holds enough for a read of `size` bytes, as the
    /// reader judges it: one byte short counts as enough.
    pub open spec fn has_enough(self, size: ReadBytesSize) -> bool {
        ((self.buf.len() - self.pos + 1) as u32) >= size_value(size)
    }

    /// The error of a read that found no more data.
    pub open spec fn exhausted_kind(self) -> ErrorKind {
        if self.closed {
            ErrorKind::IOError { unexpected_eof: true }
        } else {
            ErrorKind::EndOfStream
        }
    }
}

/// Outcome of a read on the reader: the bytes read, or the kind of the error.
pub enum ReadResult {
    Bytes(Seq<u8>),
    Nothing,
    Failed(ErrorKind),
}

/// The outcome of a read, as the reader reports it.
pub open spec fn outcome_of(r: Result<Option<Vec<u8>>, ParserError>) -> ReadResult {
    match r {
        Ok(Some(v)) => ReadResult::Bytes(v@),
        Ok(None) => ReadResult::Nothing,
        Err(e) => ReadResult::Failed(kind_of(e)),
    }
}

/// The reader after `mark`.
pub open spec fn marked(r: ReaderView) -> ReaderView {
    ReaderView { markers: r.markers.push(r.pos), ..r }
}

/// Whether `marker` is the innermost marker held.
pub open spec fn is_innermost(r: ReaderView, marker: Marker) -> bool {
    r.markers.len() > 0 && r.markers.last() == marker.pos
}

/// The reader after going back to its innermost marker.
pub open spec fn reset_to_marker(r: ReaderView) -> ReaderView {
    ReaderView { pos: r.markers.last(), markers: r.markers.drop_last(), ..r }
}

/// The reader after forgetting its innermost marker.
pub open spec fn unmarked(r: ReaderView) -> ReaderView {
    ReaderView { markers: r.markers.drop_last(), ..r }
}

/// The token error of this reader: it reports line 0, character 1.
pub open spec fn token_kind() -> ErrorKind {
    ErrorKind::TokenExpected { line_index: 0, char_index: 1 }
}

/// Searching for `delimiter` after the position: the index in the buffer
/// where its first occurrence starts, if any, and the reader after the
/// search, which fills the buffer when the delimiter is not buffered yet.
pub open spec fn search(r: ReaderView, delimiter: Seq<u8>) -> (Option<int>, ReaderView) {
    match first_occurrence(r.buf.subrange(r.pos as int, r.buf.len() as int), delimiter) {
        Some(i) => (Some(r.pos + i), r),
        None => {
            if r.incoming.len() > 0 {
                let f = r.filled();
                match first_occurrence(f.buf.subrange(f.pos as int, f.buf.len() as int), delimiter) {
                    Some(i) => (Some(f.pos + i), f),
                    None => (None, f),
                }
            } else {
                (None, r)
            }
        },
    }
}

/// Reading up to `delimiter`: the bytes before its first occurrence, the
/// delimiter being read too.
pub open spec fn read_until(r: ReaderView, delimiter: Seq<u8>) -> (ReadResult, ReaderView) {
    let (found, s) = search(r, delimiter);
    match found {
        Some(k) => (ReadResult::Bytes(s.buf.subrange(s.pos as int, k)), s.consumed((k - s.pos + delimiter.len()) as nat)),
        None => (ReadResult::Failed(s.exhausted_kind()), s),
    }
}

/// The reader with as much buffered as a read of `size` makes it fill, or
/// `None` when the stream could not deliver enough.
pub open spec fn filled_for(r: ReaderView, size: ReadBytesSize) -> Option<ReaderView> {
    if r.buf.len() > 0 && r.has_enough(size) {
        Some(r)
    } else if r.incoming.len() > 0 {
        let f = r.filled();
        if f.buf.len() > 0 && f.has_enough(size) {
            Some(f)
        } else {
            None
        }
    } else {
        None
    }
}

/// Reading the exact text `input`.
pub open spec fn read_exact(r: ReaderView, input: Seq<u8>) -> (ReadResult, ReaderView) {
    let size = ReadBytesSize::Fixed(input.len() as u32);
    match filled_for(r, size) {
        None => (ReadResult::Failed(ErrorKind::EndOfStream), if r.incoming.len() > 0 { r.filled() } else { r }),
        Some(f) => {
            if f.pos + input.len() <= f.buf.len() && f.buf.subrange(f.pos as int, (f.pos + input.len()) as int) == input {
                (ReadResult::Bytes(input), f.consumed(input.len()))
            } else {
                (ReadResult::Failed(token_kind()), f)
            }
        },
    }
}

/// Reading `size` bytes without moving past them.
pub open spec fn read_sized(r: ReaderView, size: ReadBytesSize) -> (ReadResult, ReaderView) {
    let f = if r.buf.len() > 0 && r.has_enough(size) { r } else if r.incoming.len() > 0 { r.filled() } else { r };
    match size {
        ReadBytesSize::Fixed(n) => {
            if !(f.buf.len() > 0 && f.has_enough(size)) {
                (ReadResult::Failed(ErrorKind::EndOfStream), f)
            } else if f.pos + n <= f.buf.len() {
                (ReadResult::Bytes(f.buf.subrange(f.pos as int, (f.pos + n) as int)), f)
            } else {
                (ReadResult::Failed(token_kind()), f)
            }
        },
        ReadBytesSize::Full => (ReadResult::Bytes(f.buf.subrange(f.pos as int, f.buf.len() as int)), f),
    }
}

/// The error of a marker that is not the innermost one.
pub open spec fn marker_kind() -> ErrorKind {
    ErrorKind::InvalidMarker { line_index: 0, char_index: 1 }
}

/// Reading protocol placeholders.
pub trait PlaceHolderRead {
    /// Whether the reader is in a state to read from.
    spec fn read_ready(&self) -> bool;

    /// Reads the exact text `input`.
    fn read_placeholder_as_string(&mut self, input: String) -> (r: Result<Option<Vec<u8>>, ParserError>)
        requires
            old(self).read_ready(),
        ensures
            r matches Err(e) ==> token_message_stated(e),
            final(self).read_ready(),
    ;

    /// Reads up to `delimiter`, which is read too, and gives the bytes before it.
    fn read_placeholder_until(&mut self, delimiter: String) -> (r: Result<Option<Vec<u8>>, ParserError>)
        requires
            old(self).read_ready(),
        ensures
            r matches Err(e) ==> token_message_stated(e),
            final(self).read_ready(),
    ;

    /// Reads `size` bytes, staying before them.
    fn read_bytes(&mut self, size: ReadBytesSize) -> (r: Result<Option<Vec<u8>>, ParserError>)
        requires
            old(self).read_ready(),
        ensures
            r matches Err(e) ==> token_message_stated(e),
            final(self).read_ready(),
    ;
}

/// Marking a position of the reader, to go back to it or forget it.
pub trait MarkAndRead {
    /// Whether the reader is in a state to mark and reset.
    spec fn mark_ready(&self) -> bool;

    fn mark(&mut self) -> (m: Marker)
        requires
            old(self).mark_ready(),
        ensures
            final(self).mark_ready(),
    ;

    fn reset(&mut self, mark: &Marker) -> (r: Result<(), ParserError>)
        requires
            old(self).mark_ready(),
        ensures
            r matches Err(e) ==> token_message_stated(e),
            final(self).mark_ready(),
    ;

    fn unmark(&mut self, mark: &Marker) -> (r: Result<(), ParserError>)
        requires
            old(self).mark_ready(),
        ensures
            r matches Err(e) ==> token_message_stated(e),
            final(self).mark_ready(),
    ;

    fn is_valid_marker(&self, marker: &Marker) -> Result<(), ParserError>;

    fn has_markers(&self) -> bool;
}

/// Marker Trait for reading spec
pub trait SpecRead: PlaceHolderRead + MarkAndRead {
}

/// Buffered reader over the bytes of a stream.
pub struct ProtocolBuffReader {
    buf: Vec<u8>,
    pos: usize,
    markers: Vec<Marker>,
    incoming: Vec<u8>,
    closed: bool,
}

impl View for ProtocolBuffReader {
    type V = ReaderView;

    closed spec fn view(&self) -> ReaderView {
        ReaderView {
            buf: self.buf@,
            pos: self.pos as nat,
            markers: self.markers@.map_values(|m: Marker| m.pos as nat),
            incoming: self.incoming@,
            closed: self.closed,
        }
    }
}

/// The error of a stream that ended: an unexpected end of file.
fn end_of_file_error() -> (e: ParserError)
    ensures
        kind_of(e) == (ErrorKind::IOError { unexpected_eof: true }),
{
    ParserError::IOError { error: IoFailure { unexpected_eof: true, message: String::from_str("End Of file reached") } }
}

/// Turns an input/output failure into a parser error: an unexpected end of
/// file is the end of the stream.
pub fn convert_io_error(error: IoFailure) -> (e: ParserError)
    ensures
        error.unexpected_eof ==> e is EndOfStream,
        !error.unexpected_eof ==> (e matches ParserError::IOError { error: f } && f == error),
{
    if error.unexpected_eof {
        ParserError::EndOfStream
    } else {
        ParserError::IOError { error }
    }
}

/// The error of a token that was not found.
pub fn token_expected_error(line_index: usize, line_char_pos: usize) -> (e: ParserError)
    ensures
        kind_of(e) == (ErrorKind::TokenExpected { line_index, char_index: line_char_pos }),
        e matches ParserError::TokenExpected { message, .. } && message@ == crate::error::token_error_message(),
{
    proof {
        reveal_strlit("Expected token not found, EOF reached");
    }
    ParserError::TokenExpected {
        line_index,
        char_index: line_char_pos,
        message: String::from_str("Expected token not found, EOF reached"),
    }
}

/// Whether an error tells that the stream ended.
pub fn is_eof_error(parse_error: &ParserError) -> (b: bool)
    ensures
        b == (match *parse_error {
            ParserError::IOError { error } => error.unexpected_eof,
            ParserError::EndOfStream => true,
            _ => false,
        }),
{
    match parse_error {
        ParserError::IOError { error } => error.unexpected_eof,
        ParserError::EndOfStream => true,
        _ => false,
    }
}

/// The bytes of `v` from `from` on.
fn tail_from(v: &Vec<u8>, from: usize) -> (r: Vec<u8>)
    requires
        from <= v@.len(),
    ensures
        r@ == v@.subrange(from as int, v@.len() as int),
{
    slice_to_vec(slice_subrange(v.as_slice(), from, v.len()))
}

/// The bytes of `v` from `from` to `to`.
fn part_of(v: &Vec<u8>, from: usize, to: usize) -> (r: Vec<u8>)
    requires
        from <= to <= v@.len(),
    ensures
        r@ == v@.subrange(from as int, to as int),
{
    slice_to_vec(slice_subrange(v.as_slice(), from, to))
}

impl ProtocolBuffReader {
    /// A reader of a stream that will deliver `input`, and ends after it when
    /// `closed`.
    pub fn new(input: Vec<u8>, closed: bool) -> (r: Self)
        ensures
            r@ == (ReaderView { buf: Seq::empty(), pos: 0, markers: Seq::empty(), incoming: input@, closed }),
            r@.wf(),
    {
        let r = ProtocolBuffReader { buf: Vec::new(), pos: 0, markers: Vec::new(), incoming: input, closed };
        assert(r@.markers =~= Seq::<nat>::empty());
        r
    }

    /// Bytes received so far and kept.
    pub fn get_buffer(&self) -> (r: &Vec<u8>)
        ensures
            r@ == self@.buf,
    {
        &self.buf
    }

    /// Position of the next unread byte.
    pub fn position(&self) -> (r: usize)
        ensures
            r == self@.pos,
    {
        self.pos
    }

    /// The unread part of the buffer.
    pub fn get_current_buffer(&self) -> (r: &[u8])
        requires
            self@.wf(),
        ensures
            r@ == self@.buf.subrange(self@.pos as int, self@.buf.len() as int),
    {
        slice_subrange(self.buf.as_slice(), self.pos, self.buf.len())
    }

    /// Number of bytes not read yet, buffered or still to come.
    pub fn unread_count(&self) -> (r: u128)
        requires
            self@.wf(),
        ensures
            r == self@.remaining().len(),
    {
        (self.buf.len() - self.pos) as u128 + self.incoming.len() as u128
    }

    /// Number of unread buffered bytes, plus one.
    pub fn get_buf_unread_size(&self) -> (r: usize)
        requires
            self@.wf(),
            self@.buf.len() < usize::MAX,
        ensures
            r == self@.buf.len() - self@.pos + 1,
    {
        self.buf.len() - self.pos + 1
    }

    /// Moves what the stream delivers into the buffer; with nothing to
    /// deliver, gives the error of the stream's end.
    fn fill_buffer(&mut self) -> (r: Result<usize, ParserError>)
        requires
            old(self)@.wf(),
        ensures
            r matches Err(e) ==> token_message_stated(e),
            final(self)@.wf(),
            old(self)@.incoming.len() > 0 ==> r == Ok::<usize, ParserError>(old(self)@.incoming.len() as usize)
                && final(self)@ == old(self)@.filled(),
            old(self)@.incoming.len() == 0 ==> r is Err && final(self)@ == old(self)@
                && kind_of(r->Err_0) == old(self)@.exhausted_kind(),
    {
        if self.incoming.len() > 0 {
            let n = self.incoming.len();
            self.buf.append(&mut self.incoming);
            proof {
                assert(self@.markers == old(self)@.markers);
                assert(self@.buf =~= old(self)@.buf + old(self)@.incoming);
                assert(self@.incoming =~= Seq::<u8>::empty());
            }
            Ok(n)
        } else if self.closed {
            Err(end_of_file_error())
        } else {
            Err(ParserError::EndOfStream)
        }
    }

    /// Moves past `amount` bytes; the read part of the buffer is dropped when
    /// no marker is held and at least half of it was read.
    fn consume_and_drain(&mut self, amount: usize)
        requires
            old(self)@.wf(),
            old(self)@.pos + amount <= old(self)@.buf.len(),
        ensures
            final(self)@.wf(),
            final(self)@ == old(self)@.consumed(amount as nat),
    {
        if self.pos >= self.buf.len() / 2 && self.markers.len() == 0 {
            let rest = tail_from(&self.buf, self.pos + amount);
            self.buf = rest;
            self.pos = 0;
            proof {
                assert(self@.markers =~= Seq::<nat>::empty());
            }
        } else {
            self.pos = self.pos + amount;
            assert(self@.markers == old(self)@.markers);
        }
    }

    /// Whether the buffer holds enough for a read of `bytes_size` bytes.
    fn buf_has_enough_data(&self, bytes_size: &ReadBytesSize) -> (r: bool)
        requires
            self@.wf(),
        ensures
            r == self@.has_enough(*bytes_size),
    {
        let unread: usize = self.buf.len() - self.pos;
        let room: u128 = unread as u128 + 1;
        (room as u32) >= bytes_size.get_value()
    }
}


/// Whether two byte sequences are equal.
fn bytes_equal(a: &[u8], b: &[u8]) -> (r: bool)
    ensures
        r == (a@ == b@),
{
    if a.len() != b.len() {
        return false;
    }
    let mut i: usize = 0;
    while i < a.len()
        invariant
            a@.len() == b@.len(),
            i <= a@.len(),
            forall|j: int| 0 <= j < i ==> a@[j] == b@[j],
        decreases a@.len() - i,
    {
        if a[i] != b[i] {
            return false;
        }
        i = i + 1;
    }
    assert(a@ =~= b@);
    true
}

impl ProtocolBuffReader {
    /// Index in the buffer where the first occurrence of `delimiter` after the
    /// position starts, filling the buffer when it is not buffered yet.
    fn perform_search(&mut self, delimiter: &[u8]) -> (r: Result<usize, ParserError>)
        requires
            old(self)@.wf(),
        ensures
            r matches Err(e) ==> token_message_stated(e),
            final(self)@.wf(),
            final(self)@ == search(old(self)@, delimiter@).1,
            final(self)@.pos == old(self)@.pos,
            final(self)@.markers == old(self)@.markers,
            r matches Ok(k) ==> search(old(self)@, delimiter@).0 == Some(k as int)
                && old(self)@.pos <= k && k + delimiter@.len() <= final(self)@.buf.len(),
            r matches Err(e) ==> search(old(self)@, delimiter@).0 is None
                && kind_of(e) == final(self)@.exhausted_kind(),
    {
        let ghost r0 = self@;
        let found = find_first(self.get_current_buffer(), delimiter);
        match found {
            Some(i) => {
                proof {
                    lemma_first_occurrence_unique(r0.buf.subrange(r0.pos as int, r0.buf.len() as int), delimiter@, i as int);
                    assert(occurs_at(r0.buf.subrange(r0.pos as int, r0.buf.len() as int), delimiter@, i as int));
                    assert(i + delimiter@.len() <= r0.buf.len() - r0.pos);
                }
                let _n = self.buf.len();
                return Ok(i + self.pos);
            },
            None => {
                proof {
                    lemma_no_occurrence(r0.buf.subrange(r0.pos as int, r0.buf.len() as int), delimiter@);
                }
            },
        }
        match self.fill_buffer() {
            Ok(_) => {},
            Err(e) => {
                return Err(e);
            },
        }
        let found2 = find_first(self.get_current_buffer(), delimiter);
        match found2 {
            Some(i) => {
                proof {
                    lemma_first_occurrence_unique(self@.buf.subrange(self@.pos as int, self@.buf.len() as int), delimiter@, i as int);
                    assert(occurs_at(self@.buf.subrange(self@.pos as int, self@.buf.len() as int), delimiter@, i as int));
                    assert(i + delimiter@.len() <= self@.buf.len() - self@.pos);
                }
                let _n = self.buf.len();
                Ok(i + self.pos)
            },
            None => {
                proof {
                    lemma_no_occurrence(self@.buf.subrange(self@.pos as int, self@.buf.len() as int), delimiter@);
                }
                self.fill_buffer()
            },
        }
    }
}


/// The error of a marker that is not the innermost one.
fn invalid_marker_error() -> (e: ParserError)
    ensures
        kind_of(e) == marker_kind(),
{
    ParserError::InvalidMarker {
        line_index: 0,
        char_index: 1,
        message: String::from_str("Invalid marker received during reset/unmark operation"),
    }
}

impl MarkAndRead for ProtocolBuffReader {
    open spec fn mark_ready(&self) -> bool {
        self@.wf()
    }

    fn is_valid_marker(&self, marker: &Marker) -> (r: Result<(), ParserError>)
        ensures
            r matches Err(e) ==> token_message_stated(e),
            r is Ok <==> is_innermost(self@, *marker),
            r matches Err(e) ==> kind_of(e) == marker_kind(),
    {
        let n = self.markers.len();
        if n == 0 || marker.pos != self.markers[n - 1].pos {
            return Err(invalid_marker_error());
        }
        Ok(())
    }

    fn mark(&mut self) -> (m: Marker)
        ensures
            final(self)@ == marked(old(self)@),
            m.pos == old(self)@.pos,
    {
        let marker = Marker::new(self.pos);
        self.markers.push(marker);
        assert(self@.markers =~= old(self)@.markers.push(old(self)@.pos));
        marker
    }

    fn reset(&mut self, marker: &Marker) -> (r: Result<(), ParserError>)
        ensures
            r matches Err(e) ==> token_message_stated(e),
            r is Ok <==> is_innermost(old(self)@, *marker),
            r is Ok ==> final(self)@ == reset_to_marker(old(self)@),
            r matches Err(e) ==> kind_of(e) == marker_kind() && final(self)@ == old(self)@,
    {
        self.is_valid_marker(marker)?;
        let last = self.markers.pop().unwrap();
        self.pos = last.pos;
        proof {
            assert(self@.markers =~= old(self)@.markers.drop_last());
            assert(old(self)@.markers[old(self)@.markers.len() - 1] <= old(self)@.buf.len());
        }
        Ok(())
    }

    fn unmark(&mut self, marker: &Marker) -> (r: Result<(), ParserError>)
        ensures
            r matches Err(e) ==> token_message_stated(e),
            r is Ok <==> is_innermost(old(self)@, *marker),
            r is Ok ==> final(self)@ == unmarked(old(self)@),
            r matches Err(e) ==> kind_of(e) == marker_kind() && final(self)@ == old(self)@,
    {
        self.is_valid_marker(marker)?;
        let _ = self.markers.pop();
        assert(self@.markers =~= old(self)@.markers.drop_last());
        Ok(())
    }

    fn has_markers(&self) -> (r: bool)
        ensures
            r == (self@.markers.len() > 0),
    {
        self.markers.len() > 0
    }
}

impl PlaceHolderRead for ProtocolBuffReader {
    open spec fn read_ready(&self) -> bool {
        self@.wf()
    }

    fn read_placeholder_as_string(&mut self, input: String) -> (r: Result<Option<Vec<u8>>, ParserError>)
        ensures
            r matches Err(e) ==> token_message_stated(e),
            outcome_of(r) == read_exact(old(self)@, encode_utf8(input@)).0,
            final(self)@ == read_exact(old(self)@, encode_utf8(input@)).1,
    {
        let bytes = input.as_str().as_bytes();
        let n = bytes.len();
        let size = ReadBytesSize::Fixed(n as u32);
        if self.buf.len() == 0 || !self.buf_has_enough_data(&size) {
            if self.fill_buffer().is_err() {
                return Err(ParserError::EndOfStream);
            }
            if self.buf.len() == 0 || !self.buf_has_enough_data(&size) {
                let _ = self.fill_buffer();
                return Err(ParserError::EndOfStream);
            }
        }
        if self.pos <= self.buf.len() && n <= self.buf.len() - self.pos {
            let same = bytes_equal(slice_subrange(self.buf.as_slice(), self.pos, self.pos + n), bytes);
            if same {
                let matched = part_of(&self.buf, self.pos, self.pos + n);
                self.consume_and_drain(n);
                return Ok(Some(matched));
            }
        }
        Err(token_expected_error(0, 1))
    }

    fn read_placeholder_until(&mut self, delimiter: String) -> (r: Result<Option<Vec<u8>>, ParserError>)
        ensures
            r matches Err(e) ==> token_message_stated(e),
            outcome_of(r) == read_until(old(self)@, encode_utf8(delimiter@)).0,
            final(self)@ == read_until(old(self)@, encode_utf8(delimiter@)).1,
    {
        let d = delimiter.as_str().as_bytes();
        match self.perform_search(d) {
            Ok(index) => {
                let matched = part_of(&self.buf, self.pos, index);
                let _n = self.buf.len();
                self.consume_and_drain(index - self.pos + d.len());
                Ok(Some(matched))
            },
            Err(e) => Err(e),
        }
    }

    fn read_bytes(&mut self, size: ReadBytesSize) -> (r: Result<Option<Vec<u8>>, ParserError>)
        ensures
            r matches Err(e) ==> token_message_stated(e),
            outcome_of(r) == read_sized(old(self)@, size).0,
            final(self)@ == read_sized(old(self)@, size).1,
    {
        if !(self.buf.len() > 0 && self.buf_has_enough_data(&size)) && self.incoming.len() > 0 {
            let _ = self.fill_buffer();
        }
        let enough = self.buf.len() > 0 && self.buf_has_enough_data(&size);
        match size {
            ReadBytesSize::Fixed(n) => {
                let n = n as usize;
                if !enough {
                    Err(ParserError::EndOfStream)
                } else if n <= self.buf.len() - self.pos {
                    Ok(Some(part_of(&self.buf, self.pos, self.pos + n)))
                } else {
                    Err(token_expected_error(0, 1))
                }
            },
            ReadBytesSize::Full => Ok(Some(tail_from(&self.buf, self.pos))),
        }
    }
}

impl SpecRead for ProtocolBuffReader {
}

/// The reader moved one byte on, without dropping what was read.
pub open spec fn advanced(r: ReaderView) -> ReaderView {
    ReaderView { pos: r.pos + 1, ..r }
}

/// A reader seen as a stream of bytes, one at a time; it can be turned back
/// into the reader it was made of.
pub struct ProtoStream {
    buff_reader: ProtocolBuffReader,
}

impl ProtoStream {
    /// The reader under the stream.
    pub closed spec fn reader_view(&self) -> ReaderView {
        self.buff_reader@
    }

    /// The stream of the bytes `buff_reader` has not read yet.
    pub fn new(buff_reader: ProtocolBuffReader) -> (r: Self)
        ensures
            r.reader_view() == buff_reader@,
    {
        ProtoStream { buff_reader }
    }

    /// The reader again, at the byte the stream reached.
    pub fn into_buff_reader(self) -> (r: ProtocolBuffReader)
        ensures
            r@ == self.reader_view(),
    {
        self.buff_reader
    }

    /// The next byte: from the buffer, else from what the stream delivers.
    /// When nothing is left, the error of the stream's end: an unexpected end
    /// of file once a closed stream has nothing more, the end of the stream
    /// when an open one has nothing yet.
    pub fn poll_next(&mut self) -> (r: Result<Option<u8>, ParserError>)
        requires
            old(self).reader_view().wf(),
        ensures
            r matches Err(e) ==> token_message_stated(e),
            final(self).reader_view().wf(),
            ({
                let v = old(self).reader_view();
                if v.pos < v.buf.len() {
                    r == Ok::<Option<u8>, ParserError>(Some(v.buf[v.pos as int]))
                        && final(self).reader_view() == advanced(v)
                } else if v.incoming.len() > 0 {
                    r == Ok::<Option<u8>, ParserError>(Some(v.incoming[0]))
                        && final(self).reader_view() == advanced(v.filled())
                } else {
                    r matches Err(e) && kind_of(e) == v.exhausted_kind() && final(self).reader_view() == v
                }
            }),
            r matches Ok(Some(b)) ==> old(self).reader_view().remaining() == seq![b] + final(self).reader_view().remaining(),
            r is Err ==> old(self).reader_view().remaining().len() == 0,
            r matches Ok(x) ==> x is Some,
    {
        let ghost v = self.buff_reader@;
        if self.buff_reader.pos < self.buff_reader.buf.len() {
            let value = self.buff_reader.buf[self.buff_reader.pos];
            self.buff_reader.pos = self.buff_reader.pos + 1;
            proof {
                assert(self.buff_reader@.markers == v.markers);
                assert(v.remaining() =~= seq![value] + self.buff_reader@.remaining());
            }
            Ok(Some(value))
        } else if self.buff_reader.incoming.len() > 0 {
            let _ = self.buff_reader.fill_buffer();
            assert(self.buff_reader@ == v.filled());
            assert(self.buff_reader.pos < self.buff_reader.buf.len());
            let value = self.buff_reader.buf[self.buff_reader.pos];
            self.buff_reader.pos = self.buff_reader.pos + 1;
            proof {
                assert(self.buff_reader@.markers == v.markers);
                assert(v.filled().buf[v.pos as int] == v.incoming[0]);
                assert(v.remaining() =~= seq![value] + self.buff_reader@.remaining());
            }
            Ok(Some(value))
        } else {
            proof {
                assert(v.remaining() =~= Seq::<u8>::empty());
            }
            match self.buff_reader.fill_buffer() {
                Ok(_) => Err(ParserError::EndOfStream),
                Err(e) => Err(e),
            }
        }
    }
}


/// Going back to a marker just set leaves the reader as it was.
pub proof fn lemma_mark_then_reset(r: ReaderView)
    ensures
        reset_to_marker(marked(r)) == r,
{
    assert(marked(r).markers.drop_last() =~= r.markers);
}

/// Forgetting a marker just set leaves the reader as it was.
pub proof fn lemma_mark_then_unmark(r: ReaderView)
    ensures
        unmarked(marked(r)) == r,
{
    assert(marked(r).markers.drop_last() =~= r.markers);
}

proof fn lemma_filled_keeps_remaining(r: ReaderView)
    requires
        r.wf(),
    ensures
        r.filled().remaining() =~= r.remaining(),
        r.filled().wf(),
{
    let f = r.filled();
    assert(f.buf.subrange(r.pos as int, f.buf.len() as int) =~= r.buf.subrange(r.pos as int, r.buf.len() as int) + r.incoming);
}

/// A read with a marker held keeps the bytes of the stream and the markers:
/// going back to the marker reads the same bytes again.
pub proof fn lemma_read_until_then_reset(r: ReaderView, delimiter: Seq<u8>)
    requires
        r.wf(),
    ensures
        reset_to_marker(read_until(marked(r), delimiter).1).remaining() == r.remaining(),
        reset_to_marker(read_until(marked(r), delimiter).1).markers == r.markers,
{
    let m = marked(r);
    lemma_filled_keeps_remaining(m);
    let s = read_until(m, delimiter).1;
    assert(s.markers == m.markers);
    assert(m.markers.drop_last() =~= r.markers);
    let t = reset_to_marker(s);
    assert(t.pos == r.pos);
    if r.incoming.len() > 0 && first_occurrence(m.buf.subrange(m.pos as int, m.buf.len() as int), delimiter) is None {
        assert(t.buf =~= r.buf + r.incoming);
        assert(t.remaining() =~= r.remaining());
    } else {
        assert(t.buf =~= r.buf);
        assert(t.remaining() =~= r.remaining());
    }
}

/// A read of an exact text with a marker held keeps the bytes of the stream
/// and the markers: going back to the marker reads the same bytes again.
pub proof fn lemma_read_exact_then_reset(r: ReaderView, input: Seq<u8>)
    requires
        r.wf(),
    ensures
        reset_to_marker(read_exact(marked(r), input).1).remaining() == r.remaining(),
        reset_to_marker(read_exact(marked(r), input).1).markers == r.markers,
{
    let m = marked(r);
    lemma_filled_keeps_remaining(m);
    let s = read_exact(m, input).1;
    assert(m.markers.drop_last() =~= r.markers);
    let t = reset_to_marker(s);
    assert(t.pos == r.pos);
    if t.buf == r.buf {
        assert(t.remaining() =~= r.remaining());
    } else {
        assert(t.buf =~= r.buf + r.incoming);
        assert(t.remaining() =~= r.remaining());
    }
}

/// A sized read moves nothing: the unread bytes are the same after it.
pub proof fn lemma_read_sized_keeps_remaining(r: ReaderView, size: ReadBytesSize)
    requires
        r.wf(),
    ensures
        read_sized(r, size).1.remaining() == r.remaining(),
        read_sized(r, size).1.markers == r.markers,
        read_sized(r, size).1.pos == r.pos,
{
    lemma_filled_keeps_remaining(r);
}

/// An occurrence of `needle` means there is a first one.
proof fn lemma_first_exists(haystack: Seq<u8>, needle: Seq<u8>, i: int)
    requires
        occurs_at(haystack, needle, i),
    ensures
        first_occurrence(haystack, needle) is Some,
    decreases i,
{
    if forall|j: int| 0 <= j < i ==> !occurs_at(haystack, needle, j) {
        assert(is_first_occurrence(haystack, needle, i));
    } else {
        let j = choose|j: int| 0 <= j < i && occurs_at(haystack, needle, j);
        lemma_first_exists(haystack, needle, j);
    }
}

/// Without a first occurrence, `needle` does not occur at all.
proof fn lemma_none_means_absent(haystack: Seq<u8>, needle: Seq<u8>)
    requires
        first_occurrence(haystack, needle) is None,
    ensures
        forall|i: int| !occurs_at(haystack, needle, i),
{
    assert forall|i: int| !occurs_at(haystack, needle, i) by {
        if occurs_at(haystack, needle, i) {
            lemma_first_exists(haystack, needle, i);
        }
    }
}

/// The first occurrence of `needle` in the start `h` of `u` is its first in `u`.
proof fn lemma_first_in_prefix(h: Seq<u8>, u: Seq<u8>, needle: Seq<u8>, i: int)
    requires
        is_first_occurrence(h, needle, i),
        h.len() <= u.len(),
        u.subrange(0, h.len() as int) == h,
    ensures
        is_first_occurrence(u, needle, i),
{
    assert(u.subrange(i, i + needle.len()) =~= h.subrange(i, i + needle.len()));
    assert forall|j: int| 0 <= j < i implies !occurs_at(u, needle, j) by {
        if occurs_at(u, needle, j) {
            assert(u.subrange(j, j + needle.len()) =~= h.subrange(j, j + needle.len()));
            assert(occurs_at(h, needle, j));
        }
    }
}

/// Reading up to a delimiter splits the unread bytes: the bytes read, the
/// delimiter at its first occurrence, and what stays unread. When the
/// delimiter does not occur in the unread bytes, the read fails and they stay.
pub proof fn lemma_read_until_splits(r: ReaderView, d: Seq<u8>)
    requires
        r.wf(),
    ensures
        read_until(r, d).0 matches ReadResult::Bytes(a) ==> {
            &&& r.remaining() == a + d + read_until(r, d).1.remaining()
            &&& is_first_occurrence(r.remaining(), d, a.len() as int)
        },
        read_until(r, d).0 is Failed ==> {
            &&& read_until(r, d).1.remaining() == r.remaining()
            &&& forall|i: int| !occurs_at(r.remaining(), d, i)
        },
        !(read_until(r, d).0 is Nothing),
{
    let hay = r.buf.subrange(r.pos as int, r.buf.len() as int);
    let u = r.remaining();
    lemma_filled_keeps_remaining(r);
    match first_occurrence(hay, d) {
        Some(i) => {
            let c = choose|k: int| is_first_occurrence(hay, d, k);
            assert(is_first_occurrence(hay, d, c));
            lemma_first_occurrence_unique(hay, d, c);
            assert(u.subrange(0, hay.len() as int) =~= hay);
            lemma_first_in_prefix(hay, u, d, i);
            let k = r.pos + i;
            let a = r.buf.subrange(r.pos as int, k);
            let s = r.consumed((k - r.pos + d.len()) as nat);
            assert(s.remaining() =~= r.buf.subrange(k + d.len(), r.buf.len() as int) + r.incoming);
            assert(hay.subrange(i, i + d.len()) == d);
            assert(u =~= a + d + s.remaining());
        },
        None => {
            if r.incoming.len() > 0 {
                let f = r.filled();
                let fh = f.buf.subrange(f.pos as int, f.buf.len() as int);
                assert(fh =~= u);
                match first_occurrence(fh, d) {
                    Some(i) => {
                        let c = choose|k: int| is_first_occurrence(fh, d, k);
                        assert(is_first_occurrence(fh, d, c));
                        lemma_first_occurrence_unique(fh, d, c);
                        let k = f.pos + i;
                        let a = f.buf.subrange(f.pos as int, k);
                        let s = f.consumed((k - f.pos + d.len()) as nat);
                        assert(s.remaining() =~= f.buf.subrange(k + d.len(), f.buf.len() as int));
                        assert(fh.subrange(i, i + d.len()) == d);
                        assert(u =~= a + d + s.remaining());
                    },
                    None => {
                        lemma_none_means_absent(fh, d);
                    },
                }
            } else {
                assert(u =~= hay);
                lemma_none_means_absent(hay, d);
            }
        },
    }
}

/// Reading an exact text gives that text and moves past it, or fails and
/// moves nothing. On a reader whose stream either delivered all it had or
/// delivered nothing yet, unread bytes that start with the text are read.
pub proof fn lemma_read_exact_splits(r: ReaderView, input: Seq<u8>)
    requires
        r.wf(),
        input.len() <= u32::MAX,
    ensures
        read_exact(r, input).0 matches ReadResult::Bytes(b) ==> {
            &&& b == input
            &&& r.remaining() == input + read_exact(r, input).1.remaining()
        },
        read_exact(r, input).0 is Failed ==> read_exact(r, input).1.remaining() == r.remaining(),
        !(read_exact(r, input).0 is Nothing),
        (r.buf.len() == 0 || r.incoming.len() == 0) && input.len() > 0 && input.len() <= r.remaining().len()
            && r.remaining().len() < u32::MAX && r.remaining().subrange(0, input.len() as int) == input
            ==> read_exact(r, input).0 is Bytes,
{
    let u = r.remaining();
    lemma_filled_keeps_remaining(r);
    let size = ReadBytesSize::Fixed(input.len() as u32);
    match filled_for(r, size) {
        None => {},
        Some(f) => {
            assert(f.remaining() =~= u);
            if f.pos + input.len() <= f.buf.len() && f.buf.subrange(f.pos as int, (f.pos + input.len()) as int) == input {
                let s = f.consumed(input.len());
                assert(s.remaining() =~= f.buf.subrange((f.pos + input.len()) as int, f.buf.len() as int) + f.incoming);
                assert(u =~= input + s.remaining());
            }
        },
    }
    if (r.buf.len() == 0 || r.incoming.len() == 0) && input.len() > 0 && input.len() <= u.len()
        && u.len() < u32::MAX && u.subrange(0, input.len() as int) == input {
        if r.buf.len() == 0 {
            assert(r.remaining() =~= r.incoming);
            assert(r.filled().buf =~= r.incoming);
            let f = r.filled();
            assert(f.buf.len() - f.pos + 1 <= u32::MAX);
            assert(((f.buf.len() - f.pos + 1) as u32) == f.buf.len() - f.pos + 1);
            assert(f.has_enough(size));
        } else {
            assert(u =~= r.buf.subrange(r.pos as int, r.buf.len() as int));
            assert(((r.buf.len() - r.pos + 1) as u32) == r.buf.len() - r.pos + 1);
            assert(r.has_enough(size));
        }
        let f = filled_for(r, size).unwrap();
        assert(f.buf.subrange(f.pos as int, (f.pos + input.len()) as int) =~= u.subrange(0, input.len() as int));
    }
}

/// The bytes of the stream from position `p` of the buffer on: the buffered
/// ones, then those still to come.
pub open spec fn stream_from(r: ReaderView, p: nat) -> Seq<u8> {
    r.buf.subrange(p as int, r.buf.len() as int) + r.incoming
}

/// With a marker held, reads keep the markers and the stream as it was from
/// any position not past the reader's own.
pub proof fn lemma_reads_keep_stream(r: ReaderView, p: nat, d: Seq<u8>, size: ReadBytesSize)
    requires
        r.wf(),
        r.markers.len() > 0,
        p <= r.pos,
    ensures
        read_until(r, d).1.markers == r.markers,
        read_until(r, d).1.wf(),
        p <= read_until(r, d).1.pos,
        stream_from(read_until(r, d).1, p) == stream_from(r, p),
        read_exact(r, d).1.markers == r.markers,
        read_exact(r, d).1.wf(),
        p <= read_exact(r, d).1.pos,
        stream_from(read_exact(r, d).1, p) == stream_from(r, p),
        read_sized(r, size).1.markers == r.markers,
        read_sized(r, size).1.wf(),
        p <= read_sized(r, size).1.pos,
        stream_from(read_sized(r, size).1, p) == stream_from(r, p),
{
    let f = r.filled();
    assert(stream_from(f, p) =~= stream_from(r, p));
    assert(f.wf());
    let (found, s1) = search(r, d);
    if let Some(k) = found {
        let u = s1.buf.subrange(s1.pos as int, s1.buf.len() as int);
        let i = k - s1.pos;
        assert(occurs_at(u, d, i));
    }
}

/// A read a reader can make: up to a delimiter, an exact text, or a number of bytes.
pub enum ReadOp {
    Until(Seq<u8>),
    Exact(Seq<u8>),
    Sized(ReadBytesSize),
}

/// The reader after the read `op`.
pub open spec fn read_op(r: ReaderView, op: ReadOp) -> ReaderView {
    match op {
        ReadOp::Until(d) => read_until(r, d).1,
        ReadOp::Exact(t) => read_exact(r, t).1,
        ReadOp::Sized(size) => read_sized(r, size).1,
    }
}

/// The reader after the reads `ops`, in order.
pub open spec fn reads(r: ReaderView, ops: Seq<ReadOp>) -> ReaderView
    decreases ops.len(),
{
    if ops.len() == 0 {
        r
    } else {
        reads(read_op(r, ops[0]), ops.drop_first())
    }
}

/// With a marker held, any reads keep the markers and the stream from any
/// position not past the reader's own.
proof fn lemma_reads_keep_markers(r: ReaderView, p: nat, ops: Seq<ReadOp>)
    requires
        r.wf(),
        r.markers.len() > 0,
        p <= r.pos,
    ensures
        reads(r, ops).markers == r.markers,
        reads(r, ops).wf(),
        p <= reads(r, ops).pos,
        stream_from(reads(r, ops), p) == stream_from(r, p),
    decreases ops.len(),
{
    if ops.len() > 0 {
        match ops[0] {
            ReadOp::Until(d) => lemma_reads_keep_stream(r, p, d, ReadBytesSize::Full),
            ReadOp::Exact(t) => lemma_reads_keep_stream(r, p, t, ReadBytesSize::Full),
            ReadOp::Sized(size) => lemma_reads_keep_stream(r, p, Seq::empty(), size),
        }
        lemma_reads_keep_markers(read_op(r, ops[0]), p, ops.drop_first());
    }
}

/// Going back to a marker after any reads gives the unread bytes and the
/// markers the reader had when it was marked: the same reads read the same again.
pub proof fn lemma_reset_after_reads(r: ReaderView, ops: Seq<ReadOp>)
    requires
        r.wf(),
    ensures
        reset_to_marker(reads(marked(r), ops)).remaining() == r.remaining(),
        reset_to_marker(reads(marked(r), ops)).markers == r.markers,
{
    let m = marked(r);
    assert(m.wf());
    lemma_reads_keep_markers(m, r.pos, ops);
    let s = reads(m, ops);
    assert(m.markers.drop_last() =~= r.markers);
    let t = reset_to_marker(s);
    assert(t.pos == r.pos);
    assert(t.remaining() =~= stream_from(s, r.pos));
    assert(stream_from(m, r.pos) =~= r.remaining());
}

} // verus!
