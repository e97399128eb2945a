//! Relaying one output stream of a child: every chunk that is read is
//! handed on unchanged for the terminal, and a copy without terminal
//! control sequences is kept for the report.

use vstd::prelude::*;

verus! {

/// What `strip_ansi_escapes::strip` leaves of `bytes`: the text and its
/// line feeds, without the terminal control sequences and the other control
/// characters.
pub uninterp spec fn stripped(bytes: Seq<u8>) -> Seq<u8>;

/// The text that `bytes` hold when read as UTF-8, with the replacement
/// character in place of every invalid sequence, as
/// `String::from_utf8_lossy` computes it.
pub uninterp spec fn lossy_text(bytes: Seq<u8>) -> Seq<char>;

/// Removes terminal control sequences with `strip_ansi_escapes::strip`,
/// which parses the bytes afresh on every call: the result is a function of
/// the bytes alone.
#[verifier::external_body]
fn strip_escapes(bytes: &[u8]) -> (plain: Vec<u8>)
    ensures
        plain@ == stripped(bytes@),
{
    strip_ansi_escapes::strip(bytes)
}

/// Reads bytes as UTF-8 text with `String::from_utf8_lossy`, which replaces
/// invalid sequences instead of failing.
#[verifier::external_body]
fn utf8_lossy(bytes: &[u8]) -> (text: String)
    ensures
        text@ == lossy_text(bytes@),
{
    String::from_utf8_lossy(bytes).into_owned()
}

/// What one read from the child's stream returned.
#[derive(Clone, Copy, Debug)]
pub enum ReadOutcome<'a> {
    /// The bytes that were read; none at the end of the stream.
    Bytes(&'a [u8]),
    /// The read failed.
    Error,
}

impl<'a> ReadOutcome<'a> {
    /// The bytes that were read; none after a failure.
    pub open spec fn bytes(self) -> Seq<u8> {
        match self {
            ReadOutcome::Bytes(chunk) => chunk@,
            ReadOutcome::Error => Seq::empty(),
        }
    }

    /// Whether the read brought data. A read that brings none ends the
    /// relay: the stream is at its end, or it failed.
    pub open spec fn has_data(self) -> bool {
        self.bytes().len() > 0
    }
}

/// What the relay asks for after a read.
#[derive(Clone, Copy, Debug)]
pub enum RelayAction<'a> {
    /// Write these bytes to the sink, flush it, and read again.
    Forward(&'a [u8]),
    /// Read no more.
    Stop,
}

/// The bytes handed on for the terminal over a series of reads: those of
/// every read up to the first that brings no data, unchanged and in order.
pub open spec fn forwarded(reads: Seq<ReadOutcome>) -> Seq<u8>
    decreases reads.len(),
{
    if reads.len() == 0 || !reads[0].has_data() {
        Seq::empty()
    } else {
        reads[0].bytes() + forwarded(reads.skip(1))
    }
}

/// The bytes kept for the report over a series of reads: each chunk that
/// was handed on, stripped by itself, in order.
pub open spec fn captured(reads: Seq<ReadOutcome>) -> Seq<u8>
    decreases reads.len(),
{
    if reads.len() == 0 || !reads[0].has_data() {
        Seq::empty()
    } else {
        stripped(reads[0].bytes()) + captured(reads.skip(1))
    }
}

/// Of a stream that arrives in one read, all bytes are handed on, and the
/// capture is the stream stripped as a whole.
pub proof fn lemma_stream_in_one_read(reads: Seq<ReadOutcome>)
    requires
        reads.len() > 0,
        reads[0].has_data(),
        reads.len() > 1 ==> !reads[1].has_data(),
    ensures
        forwarded(reads) == reads[0].bytes(),
        captured(reads) == stripped(reads[0].bytes()),
{
    let rest = reads.skip(1);
    assert(forwarded(rest) =~= Seq::<u8>::empty());
    assert(captured(rest) =~= Seq::<u8>::empty());
}

/// The relay of one stream. Its view is the capture so far: the stripped
/// bytes of every chunk it has handed on.
pub struct StreamRelay {
    capture: Vec<u8>,
}

impl View for StreamRelay {
    type V = Seq<u8>;

    closed spec fn view(&self) -> Seq<u8> {
        self.capture@
    }
}

impl StreamRelay {
    /// A relay that has captured nothing yet.
    pub fn new() -> (relay: StreamRelay)
        ensures
            relay@ == Seq::<u8>::empty(),
    {
        StreamRelay { capture: Vec::new() }
    }

    /// Adds bytes that were stripped already to the end of the capture, and
    /// leaves `plain` empty.
    pub fn keep(&mut self, plain: &mut Vec<u8>)
        ensures
            final(self)@ == old(self)@ + old(plain)@,
            final(plain)@ == Seq::<u8>::empty(),
    {
        self.capture.append(plain);
    }

    /// Takes in the outcome of one read. A read that brought data is handed
    /// on as it is and its stripped copy joins the capture; the end of the
    /// stream or a failed read stops the relay and leaves the capture as it
    /// was.
    pub fn on_read<'a>(&mut self, outcome: ReadOutcome<'a>) -> (action: RelayAction<'a>)
        ensures
            match action {
                RelayAction::Forward(bytes) => {
                    &&& outcome.has_data()
                    &&& bytes@ == outcome.bytes()
                    &&& final(self)@ == old(self)@ + stripped(outcome.bytes())
                },
                RelayAction::Stop => !outcome.has_data() && final(self)@ == old(self)@,
            },
    {
        match outcome {
            ReadOutcome::Bytes(chunk) => {
                if chunk.len() == 0 {
                    RelayAction::Stop
                } else {
                    let mut plain = strip_escapes(chunk);
                    self.keep(&mut plain);
                    RelayAction::Forward(chunk)
                }
            },
            ReadOutcome::Error => RelayAction::Stop,
        }
    }

    /// Ends the relay and gives the capture as text.
    pub fn finish(self) -> (text: String)
        ensures
            text@ == lossy_text(self@),
    {
        utf8_lossy(self.capture.as_slice())
    }
}

/// Relays a stream whose reads are given: returns the bytes handed on for
/// the terminal and the text captured for the report. The bytes reach the
/// terminal unchanged, control sequences included; the capture holds them
/// stripped, chunk by chunk.
pub fn capture_and_forward(reads: &Vec<ReadOutcome>) -> (result: (Vec<u8>, String))
    ensures
        result.0@ == forwarded(reads@),
        result.1@ == lossy_text(captured(reads@)),
{
    let mut relay = StreamRelay::new();
    let mut sink: Vec<u8> = Vec::new();
    let n: usize = reads.len();
    let mut i: usize = 0;
    assert(reads@.skip(0) =~= reads@);
    while i < n
        invariant_except_break
            i <= n,
            n == reads@.len(),
            forwarded(reads@) == sink@ + forwarded(reads@.skip(i as int)),
            captured(reads@) == relay@ + captured(reads@.skip(i as int)),
        ensures
            forwarded(reads@) == sink@,
            captured(reads@) == relay@,
        decreases n - i,
    {
        assert(reads@.skip(i as int).skip(1) =~= reads@.skip(i + 1));
        match relay.on_read(reads[i]) {
            RelayAction::Forward(bytes) => {
                let mut chunk = vstd::slice::slice_to_vec(bytes);
                sink.append(&mut chunk);
            },
            RelayAction::Stop => {
                break ;
            },
        }
        i = i + 1;
    }
    (sink, relay.finish())
}

} // verus!
