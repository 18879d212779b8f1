//! Streaming aggregator: drives fed bytes through the SSE parser and the
//! provider's event decoder, and accumulates text, usage, finish reason and
//! tool calls into the final result.

use vstd::prelude::*;

use crate::error::{Error, ErrorV};
use crate::providers::{EventDecoder, DecoderV, decoder_chunk_matches};
use crate::sse::{SseParser, sse_next, scratch_event};
use crate::types::{StreamChunk, ChunkV, Usage, zero_usage, spec_merge_usage, FinishReason,
    ToolCallAccumulator, BuilderV, apply_delta, finalize_calls, CompletionResult, ToolCall,
    tool_calls_view};

verus! {

use vstd::string::StringExecFns;

/// What one driving step of the aggregator produced.
pub enum StreamStep {
    /// A chunk was decoded and accumulated.
    Chunk(StreamChunk),
    /// A buffered event was consumed without yielding a chunk.
    Skipped,
    /// No complete event is buffered; more bytes are needed.
    NeedInput,
    /// The stream has ended.
    Done,
    /// The decoder refused the event; the stream is over.
    Failed(Error),
}

/// Model of the aggregator: the unconsumed bytes, the decoder state, and the
/// accumulated result so far.
pub struct StreamV {
    pub buf: Seq<u8>,
    pub dec: DecoderV,
    pub content: Seq<char>,
    pub usage: Usage,
    pub finish: Option<FinishReason>,
    pub calls: Seq<BuilderV>,
    pub model: Seq<char>,
    pub done: bool,
    pub finalized: bool,
}

/// Accumulation of one chunk: text appends, usage merges by field-wise
/// maximum, the latest finish reason wins, and a tool delta is applied to the
/// builder list.
pub open spec fn spec_accumulate(s: StreamV, c: ChunkV) -> StreamV {
    StreamV {
        content: s.content + c.text,
        usage: match c.usage {
            Some(u) => spec_merge_usage(s.usage, u),
            None => s.usage,
        },
        finish: match c.finish_reason {
            Some(f) => Some(f),
            None => s.finish,
        },
        calls: match c.tool_call_delta {
            Some(d) => apply_delta(s.calls, d),
            None => s.calls,
        },
        ..s
    }
}

/// A streaming completion in progress.
pub struct CompletionStream {
    pub parser: SseParser,
    pub provider_parser: EventDecoder,
    pub content: String,
    pub usage: Usage,
    pub finish_reason: Option<FinishReason>,
    pub tool_calls: ToolCallAccumulator,
    pub model: String,
    pub done: bool,
    pub finalized: bool,
}

impl View for CompletionStream {
    type V = StreamV;

    open spec fn view(&self) -> StreamV {
        StreamV {
            buf: self.parser@,
            dec: self.provider_parser@,
            content: self.content@,
            usage: self.usage,
            finish: self.finish_reason,
            calls: self.tool_calls@,
            model: self.model@,
            done: self.done,
            finalized: self.finalized,
        }
    }
}

impl CompletionStream {
    pub open spec fn wf(&self) -> bool {
        self.parser.wf()
    }

    /// A fresh aggregator around a decoder, with nothing accumulated.
    pub fn new(parser: EventDecoder, model: String) -> (r: Self)
        ensures
            r.wf(),
            r@ == (StreamV {
                buf: Seq::<u8>::empty(),
                dec: parser@,
                content: Seq::<char>::empty(),
                usage: zero_usage(),
                finish: None,
                calls: Seq::<BuilderV>::empty(),
                model: model@,
                done: false,
                finalized: false,
            }),
    {
        let r = CompletionStream {
            parser: SseParser::new(),
            provider_parser: parser,
            content: String::new(),
            usage: Usage::new(),
            finish_reason: None,
            tool_calls: ToolCallAccumulator::new(),
            model,
            done: false,
            finalized: false,
        };
        r
    }

    /// Feed bytes from the transport into the aggregator.
    pub fn feed(&mut self, data: &[u8])
        requires
            old(self).wf(),
        ensures
            final(self).wf(),
            final(self)@ == (StreamV { buf: old(self)@.buf + data@, ..old(self)@ }),
    {
        self.parser.feed(data);
    }

    /// Accumulate one chunk into the running result.
    fn accumulate(&mut self, chunk: &StreamChunk)
        ensures
            final(self)@ == spec_accumulate(old(self)@, chunk@),
            final(self).parser == old(self).parser,
    {
        match chunk.text() {
            Some(t) => {
                let t2 = t.clone();
                self.content.append(t2.as_str());
            },
            None => {
                proof {
                    assert(self.content@ =~= self.content@ + chunk@.text);
                }
            },
        }
        if let Some(u) = &chunk.usage {
            self.usage.merge(u);
        }
        if chunk.finish_reason.is_some() {
            self.finish_reason = chunk.finish_reason;
        }
        if let Some(delta) = &chunk.tool_call_delta {
            self.tool_calls.apply(delta);
        }
    }

    /// Drive one buffered event through the decoder. At most one event is
    /// consumed: the result says whether it yielded a chunk (accumulated and
    /// returned), was skipped, ended the stream, failed, or whether no
    /// complete event is buffered yet.
    pub fn next_step(&mut self) -> (r: StreamStep)
        requires
            old(self).wf(),
        ensures
            final(self).wf(),
            old(self)@.done ==> r is Done && final(self)@ == old(self)@,
            !old(self)@.done ==> match sse_next(old(self)@.buf) {
                None => r is NeedInput && final(self)@ == old(self)@,
                Some((sc, c)) => {
                    let data = scratch_event(sc).data;
                    if old(self)@.dec is Cerebras && data == "[DONE]"@ {
                        r is Done && final(self)@ == (StreamV {
                            buf: old(self)@.buf.skip(c),
                            done: true,
                            ..old(self)@
                        })
                    } else {
                        match r {
                            StreamStep::Chunk(ch) => decoder_chunk_matches(
                                old(self)@.dec,
                                final(self)@.dec,
                                data,
                                Ok(Some(ch)),
                            ) && final(self)@ == (StreamV {
                                buf: old(self)@.buf.skip(c),
                                dec: final(self)@.dec,
                                ..spec_accumulate(old(self)@, ch@)
                            }),
                            StreamStep::Skipped => decoder_chunk_matches(
                                old(self)@.dec,
                                final(self)@.dec,
                                data,
                                Ok(None),
                            ) && final(self)@ == (StreamV {
                                buf: old(self)@.buf.skip(c),
                                dec: final(self)@.dec,
                                ..old(self)@
                            }),
                            StreamStep::Failed(e) => decoder_chunk_matches(
                                old(self)@.dec,
                                final(self)@.dec,
                                data,
                                Err(e),
                            ) && final(self)@ == (StreamV {
                                buf: old(self)@.buf.skip(c),
                                dec: final(self)@.dec,
                                done: true,
                                ..old(self)@
                            }),
                            _ => false,
                        }
                    }
                },
            },
    {
        if self.done {
            return StreamStep::Done;
        }
        let ev = match self.parser.next_event() {
            Some(ev) => ev,
            None => {
                return StreamStep::NeedInput;
            },
        };
        if self.provider_parser.is_end_of_stream(ev.data.as_str()) {
            self.done = true;
            return StreamStep::Done;
        }
        match self.provider_parser.parse_chunk(ev.data.as_str()) {
            Ok(Some(chunk)) => {
                self.accumulate(&chunk);
                StreamStep::Chunk(chunk)
            },
            Ok(None) => StreamStep::Skipped,
            Err(e) => {
                self.done = true;
                StreamStep::Failed(e)
            },
        }
    }

    /// Handle the close of the transport: a well-formed final event still
    /// buffered is decoded and accumulated (decoder errors at this point are
    /// swallowed); the stream is done afterwards either way.
    pub fn end_of_input(&mut self) -> (r: Option<StreamChunk>)
        requires
            old(self).wf(),
        ensures
            final(self).wf(),
            final(self)@.done,
            old(self)@.done ==> r is None && final(self)@ == old(self)@,
            !old(self)@.done ==> match sse_next(old(self)@.buf) {
                None => r is None && final(self)@ == (StreamV { done: true, ..old(self)@ }),
                Some((sc, c)) => {
                    let data = scratch_event(sc).data;
                    if old(self)@.dec is Cerebras && data == "[DONE]"@ {
                        r is None && final(self)@ == (StreamV {
                            buf: old(self)@.buf.skip(c),
                            done: true,
                            ..old(self)@
                        })
                    } else {
                        match r {
                            Some(ch) => decoder_chunk_matches(
                                old(self)@.dec,
                                final(self)@.dec,
                                data,
                                Ok(Some(ch)),
                            ) && final(self)@ == (StreamV {
                                buf: old(self)@.buf.skip(c),
                                dec: final(self)@.dec,
                                done: true,
                                ..spec_accumulate(old(self)@, ch@)
                            }),
                            None => (decoder_chunk_matches(
                                old(self)@.dec,
                                final(self)@.dec,
                                data,
                                Ok(None),
                            ) || exists|e: Error|
                                decoder_chunk_matches(
                                    old(self)@.dec,
                                    final(self)@.dec,
                                    data,
                                    Err(e),
                                )) && final(self)@ == (StreamV {
                                buf: old(self)@.buf.skip(c),
                                dec: final(self)@.dec,
                                done: true,
                                ..old(self)@
                            }),
                        }
                    }
                },
            },
    {
        if self.done {
            return None;
        }
        let ev = match self.parser.next_event() {
            Some(ev) => ev,
            None => {
                self.done = true;
                return None;
            },
        };
        if self.provider_parser.is_end_of_stream(ev.data.as_str()) {
            self.done = true;
            return None;
        }
        match self.provider_parser.parse_chunk(ev.data.as_str()) {
            Ok(Some(chunk)) => {
                self.accumulate(&chunk);
                self.done = true;
                Some(chunk)
            },
            Ok(None) => {
                self.done = true;
                None
            },
            Err(e) => {
                self.done = true;
                proof {
                    assert(decoder_chunk_matches(
                        old(self)@.dec,
                        self@.dec,
                        scratch_event((sse_next(old(self)@.buf)->0).0).data,
                        Err(e),
                    ));
                }
                None
            },
        }
    }

    /// Finalize the stream into the accumulated result. The first call
    /// returns it and empties the accumulators; any further call yields the
    /// stream-consumed error.
    pub fn finalize(&mut self) -> (r: Result<CompletionResult, Error>)
        ensures
            old(self)@.finalized ==> final(self)@ == old(self)@ && (r matches Err(e) && e@
                == ErrorV::StreamConsumed),
            !old(self)@.finalized ==> (r matches Ok(res) && res@.content == old(self)@.content
                && res@.usage == old(self)@.usage && res@.model == old(self)@.model
                && res@.finish_reason == (match old(self)@.finish {
                Some(f) => f,
                None => FinishReason::Stop,
            }) && res@.tool_calls == finalize_calls(old(self)@.calls)),
            !old(self)@.finalized ==> final(self)@ == (StreamV {
                finalized: true,
                content: Seq::<char>::empty(),
                usage: zero_usage(),
                model: Seq::<char>::empty(),
                calls: Seq::<BuilderV>::empty(),
                ..old(self)@
            }),
    {
        if self.finalized {
            return Err(Error::StreamConsumed);
        }
        self.finalized = true;
        let mut content = String::new();
        core::mem::swap(&mut content, &mut self.content);
        let mut model = String::new();
        core::mem::swap(&mut model, &mut self.model);
        let usage = self.usage;
        self.usage = Usage::new();
        let mut calls = ToolCallAccumulator::new();
        core::mem::swap(&mut calls, &mut self.tool_calls);
        let finish_reason = match self.finish_reason {
            Some(f) => f,
            None => FinishReason::Stop,
        };
        Ok(
            CompletionResult {
                content,
                usage,
                model,
                finish_reason,
                tool_calls: calls.finalize(),
            },
        )
    }

    /// The text accumulated so far.
    pub fn current_content(&self) -> (r: &String)
        ensures
            r@ == self@.content,
    {
        &self.content
    }

    /// The usage accumulated so far.
    pub fn current_usage(&self) -> (r: &Usage)
        ensures
            *r == self@.usage,
    {
        &self.usage
    }

    /// Whether the stream has ended.
    pub fn is_done(&self) -> (r: bool)
        ensures
            r == self@.done,
    {
        self.done
    }
}

} // verus!
