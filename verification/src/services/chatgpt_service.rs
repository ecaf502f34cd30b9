//! The chat-completion service: asking for an answer, and reading a
//! streamed answer piece by piece.

use vstd::prelude::*;
use vstd::string::StringExecFns;
use vstd::string::StringSliceAdditionalSpecFns;
use vstd::utf8::valid_utf8;
use crate::endpoint::{chatgpt_completions_endpoint, chatgpt_completions_url};
use crate::env::{Environment, EnvironmentView};
use crate::json::{parse_json, parsed_json};
use crate::models::chatgpt::chat_completion::{
    ChatCompletionChunkResponse,
    ChatCompletionChunkResponseView,
    ChatCompletionRequest,
    ChatCompletionRequestView,
};
use crate::services::request::{
    HttpMethod,
    OutboundRequest,
    OutboundRequestView,
    Payload,
    PayloadView,
    QueryValue,
};
use crate::text::{append_bytes, is_utf8, same_bytes, spec_split_on, split_on};

verus! {

/// The call that asks the chat-completion service to answer `request`.
pub open spec fn chat_completions_call(
    environment: EnvironmentView,
    request: ChatCompletionRequestView,
) -> OutboundRequestView {
    OutboundRequestView {
        method: HttpMethod::Post,
        url: chatgpt_completions_url(),
        authorization: "Bearer "@ + environment.chatgpt_api_key,
        query: Seq::empty(),
        payload: PayloadView::Completion(request),
    }
}

/// The call that asks the chat-completion service to answer `request`.
pub fn post_chat_completions(environment: &Environment, request: ChatCompletionRequest) -> (call:
    OutboundRequest)
    ensures
        call@ == chat_completions_call(environment@, request@),
{
    let mut authorization = String::from_str("Bearer ");
    authorization.append(environment.chatgpt_api_key.as_str());
    let query: Vec<(String, QueryValue)> = Vec::new();
    assert(query.deep_view() =~= Seq::empty());
    OutboundRequest {
        method: HttpMethod::Post,
        url: chatgpt_completions_endpoint(),
        authorization,
        query,
        payload: Payload::Completion(request),
    }
}

/// Why a streamed answer could not be read any further.
#[derive(Debug, Clone, Copy, PartialEq, Eq)]
pub enum StreamError {
    /// Bytes arrived that are not text.
    InvalidUtf8,
}

/// The bytes that stand before every frame of the stream.
pub open spec fn frame_marker() -> Seq<u8> {
    "data: ".spec_bytes()
}

/// The frame that ends the stream.
pub open spec fn done_frame() -> Seq<u8> {
    "[DONE]\n\n".spec_bytes()
}

/// Raw input shorter than this is dropped unread.
pub const SHORTEST_INPUT: usize = 6;

/// The piece of the answer that `buffer` holds, if it holds a whole one.
pub open spec fn chunk_in(buffer: Seq<u8>) -> Option<ChatCompletionChunkResponseView> {
    match parsed_json(buffer) {
        Some(json) => ChatCompletionChunkResponseView::of_json(json),
        None => None,
    }
}

/// Where the reading of one raw input stands: the bytes gathered that do
/// not yet make a whole piece, the pieces read so far, and whether the end
/// of the stream has been seen.
pub ghost struct Scan {
    pub buffer: Seq<u8>,
    pub chunks: Seq<ChatCompletionChunkResponseView>,
    pub done: bool,
}

impl Scan {
    /// Nothing gathered, nothing read.
    pub open spec fn start() -> Scan {
        Scan { buffer: Seq::empty(), chunks: Seq::empty(), done: false }
    }

    /// Takes in one fragment. After the end of the stream nothing is read.
    /// An empty fragment drops what was gathered; the closing frame drops
    /// it too and ends the stream. Any other fragment is put behind what
    /// was gathered, and where that now makes a whole piece, the piece is
    /// read and the gathering starts afresh.
    pub open spec fn fragment(self, fragment: Seq<u8>) -> Scan {
        if self.done {
            self
        } else if fragment.len() == 0 {
            Scan { buffer: Seq::empty(), ..self }
        } else if fragment == done_frame() {
            Scan { buffer: Seq::empty(), done: true, ..self }
        } else {
            let buffer = self.buffer + fragment;
            match chunk_in(buffer) {
                Some(chunk) => Scan { buffer: Seq::empty(), chunks: self.chunks.push(chunk), ..self },
                None => Scan { buffer, ..self },
            }
        }
    }

    /// Takes in `fragments` one after the other.
    pub open spec fn fragments(self, fragments: Seq<Seq<u8>>) -> Scan
        decreases fragments.len(),
    {
        if fragments.len() == 0 {
            self
        } else {
            self.fragments(fragments.drop_last()).fragment(fragments.last())
        }
    }

    /// What one raw input holds: inputs of fewer than six bytes hold
    /// nothing; any other is cut at the frame marker and its fragments are
    /// taken in.
    pub open spec fn of_input(input: Seq<u8>) -> Scan {
        if input.len() < SHORTEST_INPUT {
            Scan::start()
        } else {
            Scan::start().fragments(spec_split_on(input, frame_marker()))
        }
    }
}

/// Once the end of the stream has been seen, further fragments change
/// nothing: the closing frame and what follows it add no piece.
pub proof fn lemma_done_is_final(scan: Scan, fragments: Seq<Seq<u8>>)
    requires
        scan.done,
    ensures
        scan.fragments(fragments) == scan,
    decreases fragments.len(),
{
    if fragments.len() > 0 {
        lemma_done_is_final(scan, fragments.drop_last());
    }
}

/// Taking in one run of fragments and then another is taking in both.
pub proof fn lemma_fragments_split(scan: Scan, first: Seq<Seq<u8>>, second: Seq<Seq<u8>>)
    ensures
        scan.fragments(first + second) == scan.fragments(first).fragments(second),
    decreases second.len(),
{
    if second.len() == 0 {
        assert(first + second =~= first);
    } else {
        lemma_fragments_split(scan, first, second.drop_last());
        assert((first + second).drop_last() =~= first + second.drop_last());
        assert((first + second).last() == second.last());
    }
}

/// The words that `chunks` add to the answer, in order.
pub open spec fn text_of(chunks: Seq<ChatCompletionChunkResponseView>) -> Seq<char>
    decreases chunks.len(),
{
    if chunks.len() == 0 {
        Seq::empty()
    } else {
        text_of(chunks.drop_last()) + chunks.last().delta_text()
    }
}

/// The words of two runs of pieces are the words of the first, then those
/// of the second.
pub proof fn lemma_text_of_concat(
    first: Seq<ChatCompletionChunkResponseView>,
    second: Seq<ChatCompletionChunkResponseView>,
)
    ensures
        text_of(first + second) == text_of(first) + text_of(second),
    decreases second.len(),
{
    if second.len() == 0 {
        assert(first + second =~= first);
        assert(text_of(first) + text_of(second) =~= text_of(first));
    } else {
        lemma_text_of_concat(first, second.drop_last());
        assert((first + second).drop_last() =~= first + second.drop_last());
        assert((first + second).last() == second.last());
        assert(text_of(first) + text_of(second.drop_last()) + second.last().delta_text()
            =~= text_of(first) + (text_of(second.drop_last()) + second.last().delta_text()));
    }
}

/// Reads the pieces of the answer that one raw input holds and puts them
/// behind `pending`; says whether the input ended the stream.
pub fn scan_input(input: &[u8], pending: &mut Vec<ChatCompletionChunkResponse>) -> (done: bool)
    ensures
        done == Scan::of_input(input@).done,
        final(pending).deep_view() == old(pending).deep_view() + Scan::of_input(input@).chunks,
{
    if input.len() < SHORTEST_INPUT {
        assert(pending.deep_view() + Seq::empty() =~= pending.deep_view());
        return false;
    }
    let fragments = split_on(input, "data: ".as_bytes());
    let closing = "[DONE]\n\n".as_bytes();
    let ghost all = fragments.deep_view();
    let ghost before = pending.deep_view();
    let mut buffer: Vec<u8> = Vec::new();
    let mut i: usize = 0;
    assert(all.take(0) =~= Seq::empty());
    assert(before + Seq::empty() =~= before);
    while i < fragments.len()
        invariant
            i <= fragments.len(),
            all == fragments.deep_view(),
            all == spec_split_on(input@, frame_marker()),
            input.len() >= SHORTEST_INPUT,
            closing@ == done_frame(),
            before == old(pending).deep_view(),
            !Scan::start().fragments(all.take(i as int)).done,
            Scan::start().fragments(all.take(i as int)).buffer == buffer@,
            pending.deep_view() == before + Scan::start().fragments(all.take(i as int)).chunks,
        decreases fragments.len() - i,
    {
        let fragment = &fragments[i];
        let ghost scan = Scan::start().fragments(all.take(i as int));
        proof {
            assert(all.take(i + 1).drop_last() =~= all.take(i as int));
            assert(all.take(i + 1).last() == all[i as int]);
            assert(fragment.deep_view() =~= fragment@);
            assert(all[i as int] == fragment@);
        }
        if fragment.len() == 0 {
            buffer = Vec::new();
        } else if same_bytes(fragment.as_slice(), closing) {
            proof {
                let ended = scan.fragment(fragment@);
                assert(ended == Scan::start().fragments(all.take(i + 1)));
                assert(all =~= all.take(i + 1) + all.skip(i + 1));
                lemma_fragments_split(Scan::start(), all.take(i + 1), all.skip(i + 1));
                lemma_done_is_final(ended, all.skip(i + 1));
            }
            return true;
        } else {
            append_bytes(&mut buffer, fragment.as_slice());
            match parse_json(buffer.as_slice()) {
                Some(json) => match ChatCompletionChunkResponse::from_json(&json) {
                    Some(chunk) => {
                        let ghost kept = pending.deep_view();
                        pending.push(chunk);
                        assert(pending.deep_view() =~= kept.push(chunk@));
                        assert(kept.push(chunk@) =~= before + scan.chunks.push(chunk@));
                        buffer = Vec::new();
                    },
                    None => {},
                },
                None => {},
            }
        }
        i += 1;
    }
    assert(all.take(i as int) =~= all);
    false
}

/// Mathematical model of a [`CompletionStream`].
pub ghost struct CompletionStreamView {
    /// The pieces read and not yet handed out.
    pub pending: Seq<ChatCompletionChunkResponseView>,
    /// Text is handed out once more pieces than this are pending.
    pub count: usize,
    /// Whether the end of the stream has been seen.
    pub done: bool,
}

impl CompletionStreamView {
    /// What one more raw input does: the reader's next state, and the text
    /// it hands out. After the end of the stream, and for an input of
    /// fewer than six bytes, nothing happens. Else the pieces of the input
    /// are put behind the pending ones. If the input ended the stream, all
    /// that is pending is handed out; if not, it is handed out once more
    /// than `count` pieces are pending.
    pub open spec fn push(self, input: Seq<u8>) -> (CompletionStreamView, Option<Seq<char>>) {
        if self.done || input.len() < SHORTEST_INPUT {
            (self, None)
        } else {
            let scan = Scan::of_input(input);
            let pending = self.pending + scan.chunks;
            if scan.done {
                (
                    CompletionStreamView { pending: Seq::empty(), done: true, ..self },
                    if pending.len() > 0 {
                        Some(text_of(pending))
                    } else {
                        None
                    },
                )
            } else if pending.len() > self.count {
                (CompletionStreamView { pending: Seq::empty(), ..self }, Some(text_of(pending)))
            } else {
                (CompletionStreamView { pending, ..self }, None)
            }
        }
    }

    /// What the end of the input does: whatever is pending is handed out.
    pub open spec fn finish(self) -> (CompletionStreamView, Option<Seq<char>>) {
        if self.pending.len() > 0 {
            (CompletionStreamView { pending: Seq::empty(), ..self }, Some(text_of(self.pending)))
        } else {
            (self, None)
        }
    }
}

/// Reads a streamed answer one raw input at a time, and hands its text out
/// in batches.
#[derive(Debug)]
pub struct CompletionStream {
    pending: Vec<ChatCompletionChunkResponse>,
    count: usize,
    done: bool,
}

impl View for CompletionStream {
    type V = CompletionStreamView;

    closed spec fn view(&self) -> CompletionStreamView {
        CompletionStreamView {
            pending: self.pending.deep_view(),
            count: self.count,
            done: self.done,
        }
    }
}

/// The text of `chunks`, in order.
pub fn collect_text(chunks: &Vec<ChatCompletionChunkResponse>) -> (text: String)
    ensures
        text@ == text_of(chunks.deep_view()),
{
    let mut text = String::new();
    let mut i: usize = 0;
    let ghost all = chunks.deep_view();
    assert(all.take(0) =~= Seq::empty());
    while i < chunks.len()
        invariant
            i <= chunks.len(),
            all == chunks.deep_view(),
            text@ == text_of(all.take(i as int)),
        decreases chunks.len() - i,
    {
        assert(all.take(i + 1).drop_last() =~= all.take(i as int));
        assert(all.take(i + 1).last() == chunks[i as int]@);
        text.append(chunks[i].delta_text());
        i += 1;
    }
    assert(all.take(i as int) =~= all);
    text
}

impl CompletionStream {
    /// A reader with nothing pending that hands text out once more than
    /// `count` pieces are pending.
    pub fn new(count: usize) -> (stream: CompletionStream)
        ensures
            stream@ == (CompletionStreamView { pending: Seq::empty(), count, done: false }),
    {
        let pending: Vec<ChatCompletionChunkResponse> = Vec::new();
        assert(pending.deep_view() =~= Seq::empty());
        CompletionStream { pending, count, done: false }
    }

    /// Whether the end of the stream has been seen.
    pub fn is_done(&self) -> (done: bool)
        ensures
            done == self@.done,
    {
        self.done
    }

    /// How many pieces are pending.
    pub fn pending_len(&self) -> (n: usize)
        ensures
            n == self@.pending.len(),
    {
        self.pending.len()
    }

    /// Hands out the text of all that is pending.
    fn flush(&mut self) -> (text: String)
        ensures
            text@ == text_of(old(self)@.pending),
            final(self)@ == (CompletionStreamView { pending: Seq::empty(), ..old(self)@ }),
    {
        let text = collect_text(&self.pending);
        self.pending = Vec::new();
        assert(self.pending.deep_view() =~= Seq::empty());
        text
    }

    /// Takes in one raw input. Fails, and changes nothing, where the
    /// stream is still open and the input is not UTF-8; else does what
    /// [`CompletionStreamView::push`] says and returns the text handed
    /// out.
    pub fn push(&mut self, input: &[u8]) -> (emitted: Result<Option<String>, StreamError>)
        ensures
            match emitted {
                Ok(text) => {
                    &&& old(self)@.done || valid_utf8(input@)
                    &&& final(self)@ == old(self)@.push(input@).0
                    &&& text.deep_view() == old(self)@.push(input@).1
                },
                Err(error) => {
                    &&& !old(self)@.done
                    &&& !valid_utf8(input@)
                    &&& error == StreamError::InvalidUtf8
                    &&& final(self)@ == old(self)@
                },
            },
    {
        if self.done {
            return Ok(None);
        }
        if !is_utf8(input) {
            return Err(StreamError::InvalidUtf8);
        }
        if input.len() < SHORTEST_INPUT {
            return Ok(None);
        }
        let done = scan_input(input, &mut self.pending);
        if done {
            self.done = true;
            if self.pending.len() > 0 {
                Ok(Some(self.flush()))
            } else {
                assert(self.pending.deep_view() =~= Seq::empty());
                Ok(None)
            }
        } else if self.pending.len() > self.count {
            Ok(Some(self.flush()))
        } else {
            Ok(None)
        }
    }

    /// Ends the input: hands out whatever is pending.
    pub fn finish(&mut self) -> (emitted: Option<String>)
        ensures
            final(self)@ == old(self)@.finish().0,
            emitted.deep_view() == old(self)@.finish().1,
    {
        if self.pending.len() > 0 {
            Some(self.flush())
        } else {
            None
        }
    }
}

/// `texts` with `text` behind them where there is one.
pub open spec fn with_optional(texts: Seq<Seq<char>>, text: Option<Seq<char>>) -> Seq<Seq<char>> {
    match text {
        Some(text) => texts.push(text),
        None => texts,
    }
}

/// All of `texts` written one behind the other.
pub open spec fn joined(texts: Seq<Seq<char>>) -> Seq<char>
    decreases texts.len(),
{
    if texts.len() == 0 {
        Seq::empty()
    } else {
        joined(texts.drop_last()) + texts.last()
    }
}

/// The reading of a whole stream: the reader, the texts handed out so
/// far, and whether reading failed.
pub ghost struct Run {
    pub stream: CompletionStreamView,
    pub emitted: Seq<Seq<char>>,
    pub failed: bool,
}

impl Run {
    /// Before the first input.
    pub open spec fn start(count: usize) -> Run {
        Run {
            stream: CompletionStreamView { pending: Seq::empty(), count, done: false },
            emitted: Seq::empty(),
            failed: false,
        }
    }

    /// After one more raw input. A failed run stays as it is; an input
    /// that is not UTF-8 fails a run whose stream is still open.
    pub open spec fn input(self, input: Seq<u8>) -> Run {
        if self.failed {
            self
        } else if !self.stream.done && !valid_utf8(input) {
            Run { failed: true, ..self }
        } else {
            Run {
                stream: self.stream.push(input).0,
                emitted: with_optional(self.emitted, self.stream.push(input).1),
                ..self
            }
        }
    }

    /// After `inputs`, one after the other.
    pub open spec fn inputs(self, inputs: Seq<Seq<u8>>) -> Run
        decreases inputs.len(),
    {
        if inputs.len() == 0 {
            self
        } else {
            self.inputs(inputs.drop_last()).input(inputs.last())
        }
    }

    /// After the end of the input: a run that did not fail hands out what
    /// is pending.
    pub open spec fn end(self) -> Run {
        if self.failed {
            self
        } else {
            Run {
                stream: self.stream.finish().0,
                emitted: with_optional(self.emitted, self.stream.finish().1),
                ..self
            }
        }
    }

    /// The reading of the whole stream `inputs`.
    pub open spec fn of_stream(inputs: Seq<Seq<u8>>, count: usize) -> Run {
        Run::start(count).inputs(inputs).end()
    }
}

/// The pieces that `inputs` hold up to the end of the stream, whatever the
/// batches in which their text is handed out.
pub open spec fn pieces_of(inputs: Seq<Seq<u8>>) -> Scan
    decreases inputs.len(),
{
    if inputs.len() == 0 {
        Scan::start()
    } else {
        let before = pieces_of(inputs.drop_last());
        if before.done {
            before
        } else {
            let scan = Scan::of_input(inputs.last());
            Scan { buffer: Seq::empty(), chunks: before.chunks + scan.chunks, done: scan.done }
        }
    }
}

/// A failed run stays failed, whatever else arrives.
pub proof fn lemma_failed_is_final(run: Run, inputs: Seq<Seq<u8>>)
    requires
        run.failed,
    ensures
        run.inputs(inputs) == run,
    decreases inputs.len(),
{
    if inputs.len() > 0 {
        lemma_failed_is_final(run, inputs.drop_last());
    }
}

/// While a stream is being read, the text handed out so far and the text
/// of the pieces still pending are together the text of every piece that
/// has arrived, in the order of arrival.
pub proof fn lemma_nothing_lost(inputs: Seq<Seq<u8>>, count: usize)
    requires
        !Run::start(count).inputs(inputs).failed,
    ensures
        ({
            let run = Run::start(count).inputs(inputs);
            &&& joined(run.emitted) + text_of(run.stream.pending) == text_of(
                pieces_of(inputs).chunks,
            )
            &&& run.stream.done == pieces_of(inputs).done
            &&& run.stream.count == count
        }),
    decreases inputs.len(),
{
    let run = Run::start(count).inputs(inputs);
    if inputs.len() == 0 {
        assert(joined(run.emitted) + text_of(run.stream.pending) =~= Seq::<char>::empty());
    } else {
        let before = Run::start(count).inputs(inputs.drop_last());
        lemma_nothing_lost(inputs.drop_last(), count);
        let pieces = pieces_of(inputs.drop_last());
        if before.stream.done {
        } else {
            let scan = Scan::of_input(inputs.last());
            let pending = before.stream.pending + scan.chunks;
            lemma_text_of_concat(before.stream.pending, scan.chunks);
            lemma_text_of_concat(pieces.chunks, scan.chunks);
            assert(joined(before.emitted) + text_of(pending) == text_of(pieces_of(inputs).chunks))
                by {
                assert(joined(before.emitted) + (text_of(before.stream.pending) + text_of(
                    scan.chunks,
                )) =~= (joined(before.emitted) + text_of(before.stream.pending)) + text_of(
                    scan.chunks,
                ));
            }
            if run.stream.pending.len() == 0 && pending.len() > 0 {
                assert(run.emitted == before.emitted.push(text_of(pending)));
                assert(run.emitted.drop_last() =~= before.emitted);
                assert(joined(run.emitted) + text_of(run.stream.pending) =~= joined(
                    before.emitted,
                ) + text_of(pending));
            } else if pending.len() == 0 {
                assert(run.stream.pending =~= pending);
                assert(run.emitted == before.emitted);
            }
        }
    }
}

/// The streamed answer is put together again without loss: when reading
/// did not fail, the texts handed out, one behind the other, are the words
/// of every piece that arrived before the end of the stream, in the order
/// of arrival. The closing frame, and anything behind it, adds nothing.
pub proof fn lemma_stream_reconstruction(inputs: Seq<Seq<u8>>, count: usize)
    requires
        !Run::of_stream(inputs, count).failed,
    ensures
        joined(Run::of_stream(inputs, count).emitted) == text_of(pieces_of(inputs).chunks),
        Run::of_stream(inputs, count).stream.pending.len() == 0,
{
    lemma_nothing_lost(inputs, count);
    let run = Run::start(count).inputs(inputs);
    if run.stream.pending.len() > 0 {
        let end = run.end();
        assert(end.emitted.drop_last() =~= run.emitted);
    } else {
        assert(joined(run.emitted) + text_of(run.stream.pending) =~= joined(run.emitted));
    }
}

/// What reading a whole stream gave.
#[derive(Debug, PartialEq)]
pub struct Extraction {
    /// The texts handed out, in order.
    pub emitted: Vec<String>,
    /// Why reading stopped early, if it did.
    pub error: Option<StreamError>,
}

/// Reads a whole streamed answer, given as the raw inputs in the order of
/// their arrival, and returns the texts to show, batch by batch. Text is
/// handed out once more than `count` pieces are pending, at the closing
/// frame, and at the end of the input. Reading stops at the first input
/// that is not UTF-8: what was handed out before it is returned with the
/// error.
pub fn response_extract_stream(inputs: &Vec<Vec<u8>>, count: usize) -> (extraction: Extraction)
    ensures
        extraction.emitted.deep_view() == Run::of_stream(inputs.deep_view(), count).emitted,
        extraction.error is Some == Run::of_stream(inputs.deep_view(), count).failed,
        extraction.error is Some ==> extraction.error == Some(StreamError::InvalidUtf8),
{
    let mut stream = CompletionStream::new(count);
    let mut emitted: Vec<String> = Vec::new();
    let ghost all = inputs.deep_view();
    let mut i: usize = 0;
    assert(all.take(0) =~= Seq::empty());
    assert(emitted.deep_view() =~= Seq::empty());
    while i < inputs.len()
        invariant
            i <= inputs.len(),
            all == inputs.deep_view(),
            !Run::start(count).inputs(all.take(i as int)).failed,
            Run::start(count).inputs(all.take(i as int)).stream == stream@,
            Run::start(count).inputs(all.take(i as int)).emitted == emitted.deep_view(),
        decreases inputs.len() - i,
    {
        let ghost before = Run::start(count).inputs(all.take(i as int));
        proof {
            assert(all.take(i + 1).drop_last() =~= all.take(i as int));
            assert(all.take(i + 1).last() == all[i as int]);
            assert(inputs[i as int].deep_view() =~= inputs[i as int]@);
        }
        match stream.push(inputs[i].as_slice()) {
            Ok(Some(text)) => {
                let ghost kept = emitted.deep_view();
                emitted.push(text);
                assert(emitted.deep_view() =~= kept.push(text@));
            },
            Ok(None) => {},
            Err(error) => {
                proof {
                    let failed = before.input(all[i as int]);
                    assert(failed == Run::start(count).inputs(all.take(i + 1)));
                    assert(all =~= all.take(i + 1) + all.skip(i + 1));
                    lemma_inputs_split(Run::start(count), all.take(i + 1), all.skip(i + 1));
                    lemma_failed_is_final(failed, all.skip(i + 1));
                }
                return Extraction { emitted, error: Some(error) };
            },
        }
        i += 1;
    }
    assert(all.take(i as int) =~= all);
    match stream.finish() {
        Some(text) => {
            let ghost kept = emitted.deep_view();
            emitted.push(text);
            assert(emitted.deep_view() =~= kept.push(text@));
        },
        None => {},
    }
    Extraction { emitted, error: None }
}

/// Reading one run of inputs and then another is reading both.
pub proof fn lemma_inputs_split(run: Run, first: Seq<Seq<u8>>, second: Seq<Seq<u8>>)
    ensures
        run.inputs(first + second) == run.inputs(first).inputs(second),
    decreases second.len(),
{
    if second.len() == 0 {
        assert(first + second =~= first);
    } else {
        lemma_inputs_split(run, first, second.drop_last());
        assert((first + second).drop_last() =~= first + second.drop_last());
        assert((first + second).last() == second.last());
    }
}

} // verus!
