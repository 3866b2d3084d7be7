//! Stream aggregation: folding a chunk stream into one final response.
//!
//! An aggregator starts accumulating with empty text. Every `Ok` chunk
//! appends its incremental text; an error item abandons the aggregation
//! with that error; the first terminal chunk (`done == true`) completes
//! it with the terminal chunk's metadata and the fully concatenated
//! text. A stream that ends before any terminal chunk fails with
//! `StreamEndedWithoutTerminal` — never with a silent partial result.
//!
//! [`GenerateAccumulator`] and [`ChatAccumulator`] consume one item at a
//! time, so a caller that pulls lazily from a transport can feed them
//! item by item and stop as soon as [`GenerateAccumulator::is_finished`]
//! holds. `collect_generate_response` and `collect_chat_response` fold a
//! fully delivered stream in one call.

use vstd::prelude::*;

use crate::chat::ChatMessage;
use crate::chat::ChatMessageV;
use crate::chat::ChatResponse;
use crate::chat::ChatResponseV;
use crate::decode::StreamChunk;
use crate::error::DecodeError;
use crate::error::DecodeErrorV;
use crate::generation::GenerateResponse;
use crate::generation::GenerateResponseV;

verus! {

/// Ghost-level item of a generate chunk stream.
pub type GenItemV = Result<GenerateResponseV, DecodeErrorV>;

/// Ghost-level model of one generate stream item.
pub open spec fn gen_item_view(it: StreamChunk<GenerateResponse>) -> GenItemV {
    match it {
        Ok(c) => Ok(c@),
        Err(e) => Err(e@),
    }
}

/// Ghost-level model of a sequence of generate stream items.
pub open spec fn gen_items_view(items: Seq<StreamChunk<GenerateResponse>>) -> Seq<GenItemV> {
    items.map_values(|it: StreamChunk<GenerateResponse>| gen_item_view(it))
}

/// The accumulated response: the terminal chunk's metadata with its text
/// replaced by the full concatenation.
pub open spec fn finalize_generate(text: Seq<char>, c: GenerateResponseV) -> GenerateResponseV {
    GenerateResponseV { response: text, ..c }
}

/// What folding the items yields, having already accumulated `acc`:
/// an error item or an exhausted stream fails, a terminal chunk
/// completes with everything accumulated through it.
pub open spec fn collect_generate_from(acc: Seq<char>, items: Seq<GenItemV>) -> Result<
    GenerateResponseV,
    DecodeErrorV,
>
    decreases items.len(),
{
    if items.len() == 0 {
        Err(DecodeErrorV::StreamEndedWithoutTerminal)
    } else {
        match items[0] {
            Err(e) => Err(e),
            Ok(c) => if c.done {
                Ok(finalize_generate(acc + c.response, c))
            } else {
                collect_generate_from(acc + c.response, items.drop_first())
            },
        }
    }
}

/// What folding a whole generate chunk stream yields.
pub open spec fn collect_generate_spec(items: Seq<GenItemV>) -> Result<
    GenerateResponseV,
    DecodeErrorV,
> {
    collect_generate_from(Seq::<char>::empty(), items)
}

/// Ghost-level state of a [`GenerateAccumulator`]: the text accumulated
/// so far, and the outcome once one is reached.
pub struct GenerateAccumulatorV {
    pub text: Seq<char>,
    pub outcome: Option<GenItemV>,
}

/// Incremental aggregator for a generate chunk stream.
#[derive(Debug)]
pub struct GenerateAccumulator {
    text: String,
    outcome: Option<StreamChunk<GenerateResponse>>,
}

impl View for GenerateAccumulator {
    type V = GenerateAccumulatorV;

    closed spec fn view(&self) -> GenerateAccumulatorV {
        GenerateAccumulatorV {
            text: self.text@,
            outcome: match self.outcome {
                Some(r) => Some(gen_item_view(r)),
                None => None,
            },
        }
    }
}

impl GenerateAccumulator {
    /// A fresh aggregator: empty accumulator, still accumulating.
    pub fn new() -> (r: Self)
        ensures
            r@.text == Seq::<char>::empty(),
            r@.outcome is None,
    {
        GenerateAccumulator { text: String::new(), outcome: None }
    }

    /// Whether an outcome has been reached. Once this holds, further
    /// items are ignored and the caller should stop pulling.
    pub fn is_finished(&self) -> (r: bool)
        ensures
            r == (self@.outcome is Some),
    {
        self.outcome.is_some()
    }

    /// Feeds one stream item. While accumulating, an error item settles
    /// the outcome on that error, a non-terminal chunk appends its text,
    /// and a terminal chunk appends its text and completes with its
    /// metadata and the full concatenation. After an outcome the state
    /// no longer changes.
    pub fn push(&mut self, item: StreamChunk<GenerateResponse>)
        ensures
            old(self)@.outcome is Some ==> final(self)@ == old(self)@,
            old(self)@.outcome is None ==> match gen_item_view(item) {
                Err(e) => final(self)@.text == old(self)@.text && final(self)@.outcome == Some(
                    Err::<GenerateResponseV, DecodeErrorV>(e),
                ),
                Ok(c) => final(self)@.text == old(self)@.text + c.response && (if c.done {
                    final(self)@.outcome == Some(
                        Ok::<GenerateResponseV, DecodeErrorV>(
                            finalize_generate(old(self)@.text + c.response, c),
                        ),
                    )
                } else {
                    final(self)@.outcome is None
                }),
            },
    {
        if self.outcome.is_some() {
            return ;
        }
        match item {
            Err(e) => {
                self.outcome = Some(Err(e));
            },
            Ok(c) => {
                self.text.append(c.response.as_str());
                if c.done {
                    let full_text = self.text.clone();
                    self.outcome = Some(Ok(GenerateResponse { response: full_text, ..c }));
                }
            },
        }
    }

    /// Ends the stream: the outcome if one was reached, else the
    /// required failure for a stream that ended without a terminal
    /// chunk.
    pub fn finish(self) -> (r: StreamChunk<GenerateResponse>)
        ensures
            match self@.outcome {
                Some(o) => gen_item_view(r) == o,
                None => gen_item_view(r) == Err::<GenerateResponseV, DecodeErrorV>(
                    DecodeErrorV::StreamEndedWithoutTerminal,
                ),
            },
    {
        match self.outcome {
            Some(r) => r,
            None => Err(DecodeError::StreamEndedWithoutTerminal),
        }
    }
}

/// Folds a fully delivered generate chunk stream into one final
/// response, with the aggregation policy of [`collect_generate_spec`]:
/// all-or-nothing, in arrival order, failing on the first error item and
/// on a stream without a terminal chunk.
pub fn collect_generate_response(items: Vec<StreamChunk<GenerateResponse>>) -> (r: StreamChunk<
    GenerateResponse,
>)
    ensures
        gen_item_view(r) == collect_generate_spec(gen_items_view(items@)),
{
    let ghost all = gen_items_view(items@);
    let mut acc = GenerateAccumulator::new();
    let mut rest = items;
    proof {
        assert(gen_items_view(rest@) =~= all);
    }
    while rest.len() > 0
        invariant
            match acc@.outcome {
                None => collect_generate_from(acc@.text, gen_items_view(rest@))
                    == collect_generate_spec(all),
                Some(o) => o == collect_generate_spec(all),
            },
        decreases rest@.len(),
    {
        let ghost pre = rest@;
        let item = rest.remove(0);
        proof {
            assert(gen_items_view(pre)[0] == gen_item_view(item));
            assert(gen_items_view(pre).drop_first() =~= gen_items_view(rest@));
        }
        acc.push(item);
    }
    proof {
        assert(gen_items_view(rest@) =~= Seq::<GenItemV>::empty());
    }
    acc.finish()
}

/// Concatenation of the incremental texts of the parsed chunks, in
/// arrival order.
pub open spec fn concat_gen_texts(items: Seq<GenItemV>) -> Seq<char>
    decreases items.len(),
{
    if items.len() == 0 {
        Seq::<char>::empty()
    } else {
        match items[0] {
            Ok(c) => c.response + concat_gen_texts(items.drop_first()),
            Err(_) => concat_gen_texts(items.drop_first()),
        }
    }
}

proof fn lemma_collect_generate_from_concatenation(acc: Seq<char>, items: Seq<GenItemV>)
    requires
        items.len() > 0,
        forall|i: int| 0 <= i < items.len() ==> items[i] is Ok,
        forall|i: int| 0 <= i < items.len() - 1 ==> !(#[trigger] items[i])->Ok_0.done,
        items.last()->Ok_0.done,
    ensures
        collect_generate_from(acc, items) == Ok::<GenerateResponseV, DecodeErrorV>(
            finalize_generate(acc + concat_gen_texts(items), items.last()->Ok_0),
        ),
    decreases items.len(),
{
    let c = items[0]->Ok_0;
    if items.len() == 1 {
        assert(acc + (c.response + Seq::<char>::empty()) =~= acc + c.response);
    } else {
        let rest = items.drop_first();
        assert(forall|i: int| 0 <= i < rest.len() ==> rest[i] == items[i + 1]);
        lemma_collect_generate_from_concatenation(acc + c.response, rest);
        assert(items.last() == rest.last());
        assert((acc + c.response) + concat_gen_texts(rest) =~= acc + (c.response
            + concat_gen_texts(rest)));
    }
}

/// Law: for a stream of parsed chunks whose only terminal chunk is the
/// last, aggregation completes, its text is the concatenation of every
/// chunk's incremental text in arrival order, and its remaining fields
/// are the terminal chunk's.
pub proof fn lemma_collect_generate_concatenation(items: Seq<GenItemV>)
    requires
        items.len() > 0,
        forall|i: int| 0 <= i < items.len() ==> items[i] is Ok,
        forall|i: int| 0 <= i < items.len() - 1 ==> !(#[trigger] items[i])->Ok_0.done,
        items.last()->Ok_0.done,
    ensures
        collect_generate_spec(items) == Ok::<GenerateResponseV, DecodeErrorV>(
            finalize_generate(concat_gen_texts(items), items.last()->Ok_0),
        ),
{
    lemma_collect_generate_from_concatenation(Seq::<char>::empty(), items);
    assert(Seq::<char>::empty() + concat_gen_texts(items) =~= concat_gen_texts(items));
}

/// The same law stated over delivered stream items, so that it applies
/// verbatim to the ensures of [`collect_generate_response`]: when only
/// the last delivered item is terminal, the fold completes with the
/// concatenated text and the terminal chunk's remaining fields.
pub proof fn lemma_collect_generate_response_concatenation(
    items: Seq<StreamChunk<GenerateResponse>>,
)
    requires
        items.len() > 0,
        forall|i: int| 0 <= i < items.len() ==> items[i] is Ok,
        forall|i: int| 0 <= i < items.len() - 1 ==> !(#[trigger] items[i])->Ok_0.done,
        items.last()->Ok_0.done,
    ensures
        collect_generate_spec(gen_items_view(items)) == Ok::<GenerateResponseV, DecodeErrorV>(
            finalize_generate(concat_gen_texts(gen_items_view(items)), items.last()->Ok_0@),
        ),
{
    let v = gen_items_view(items);
    assert(forall|i: int| 0 <= i < v.len() ==> #[trigger] v[i] == gen_item_view(items[i]));
    assert(v.last() == gen_item_view(items.last()));
    lemma_collect_generate_concatenation(v);
}

/// Law: an empty stream — one that ends before delivering any item —
/// fails with `StreamEndedWithoutTerminal`, never with a silent empty
/// success.
pub proof fn lemma_collect_generate_empty()
    ensures
        collect_generate_spec(Seq::<GenItemV>::empty()) == Err::<
            GenerateResponseV,
            DecodeErrorV,
        >(DecodeErrorV::StreamEndedWithoutTerminal),
{
}

proof fn lemma_collect_generate_from_error(acc: Seq<char>, items: Seq<GenItemV>, k: int)
    requires
        0 <= k < items.len(),
        items[k] is Err,
        forall|i: int| 0 <= i < k ==> items[i] is Ok && !(#[trigger] items[i])->Ok_0.done,
    ensures
        collect_generate_from(acc, items) == Err::<GenerateResponseV, DecodeErrorV>(
            items[k]->Err_0,
        ),
    decreases k,
{
    if k > 0 {
        let c = items[0]->Ok_0;
        let rest = items.drop_first();
        assert(forall|i: int| 0 <= i < rest.len() ==> rest[i] == items[i + 1]);
        lemma_collect_generate_from_error(acc + c.response, rest, k - 1);
    }
}

/// Law: an error item that arrives before any terminal chunk makes the
/// aggregation fail with exactly that error; whatever text was
/// accumulated before it is discarded, never returned partially.
pub proof fn lemma_collect_generate_error_propagates(items: Seq<GenItemV>, k: int)
    requires
        0 <= k < items.len(),
        items[k] is Err,
        forall|i: int| 0 <= i < k ==> items[i] is Ok && !(#[trigger] items[i])->Ok_0.done,
    ensures
        collect_generate_spec(items) == Err::<GenerateResponseV, DecodeErrorV>(items[k]->Err_0),
{
    lemma_collect_generate_from_error(Seq::<char>::empty(), items, k);
}

proof fn lemma_collect_generate_from_empty_text_noop(
    acc: Seq<char>,
    s1: Seq<GenItemV>,
    c: GenItemV,
    s2: Seq<GenItemV>,
)
    requires
        c matches Ok(ch) && !ch.done && ch.response.len() == 0,
    ensures
        collect_generate_from(acc, s1 + seq![c] + s2) == collect_generate_from(acc, s1 + s2),
    decreases s1.len(),
{
    let ch = c->Ok_0;
    if s1.len() == 0 {
        assert(s1 + seq![c] + s2 =~= seq![c] + s2);
        assert((seq![c] + s2)[0] == c);
        assert((seq![c] + s2).drop_first() =~= s2);
        assert(acc + ch.response =~= acc);
        assert(s1 + s2 =~= s2);
    } else {
        let whole = s1 + seq![c] + s2;
        let short = s1 + s2;
        assert(whole[0] == s1[0]);
        assert(short[0] == s1[0]);
        assert(whole.drop_first() =~= s1.drop_first() + seq![c] + s2);
        assert(short.drop_first() =~= s1.drop_first() + s2);
        match s1[0] {
            Err(_) => {},
            Ok(h) => {
                if !h.done {
                    lemma_collect_generate_from_empty_text_noop(
                        acc + h.response,
                        s1.drop_first(),
                        c,
                        s2,
                    );
                }
            },
        }
    }
}

/// Law: a non-terminal chunk whose incremental text is empty leaves the
/// running concatenation — and the whole aggregation result — unchanged:
/// dropping it from the stream gives the same outcome.
pub proof fn lemma_collect_generate_empty_text_noop(
    s1: Seq<GenItemV>,
    c: GenItemV,
    s2: Seq<GenItemV>,
)
    requires
        c matches Ok(ch) && !ch.done && ch.response.len() == 0,
    ensures
        collect_generate_spec(s1 + seq![c] + s2) == collect_generate_spec(s1 + s2),
{
    lemma_collect_generate_from_empty_text_noop(Seq::<char>::empty(), s1, c, s2);
}

/// The same law stated over delivered stream items, so that it applies
/// verbatim to the ensures of [`collect_generate_response`]: inserting
/// a non-terminal chunk with empty text anywhere leaves the fold's
/// result unchanged.
pub proof fn lemma_collect_generate_response_empty_text_noop(
    s1: Seq<StreamChunk<GenerateResponse>>,
    c: StreamChunk<GenerateResponse>,
    s2: Seq<StreamChunk<GenerateResponse>>,
)
    requires
        c matches Ok(ch) && !ch.done && ch.response@.len() == 0,
    ensures
        collect_generate_spec(gen_items_view(s1 + seq![c] + s2)) == collect_generate_spec(
            gen_items_view(s1 + s2),
        ),
{
    assert(gen_items_view(s1 + seq![c] + s2) =~= gen_items_view(s1) + seq![gen_item_view(c)]
        + gen_items_view(s2));
    assert(gen_items_view(s1 + s2) =~= gen_items_view(s1) + gen_items_view(s2));
    lemma_collect_generate_empty_text_noop(gen_items_view(s1), gen_item_view(c), gen_items_view(s2));
}

/// Ghost-level item of a chat chunk stream.
pub type ChatItemV = Result<ChatResponseV, DecodeErrorV>;

/// Ghost-level model of one chat stream item.
pub open spec fn chat_item_view(it: StreamChunk<ChatResponse>) -> ChatItemV {
    match it {
        Ok(c) => Ok(c@),
        Err(e) => Err(e@),
    }
}

/// Ghost-level model of a sequence of chat stream items.
pub open spec fn chat_items_view(items: Seq<StreamChunk<ChatResponse>>) -> Seq<ChatItemV> {
    items.map_values(|it: StreamChunk<ChatResponse>| chat_item_view(it))
}

/// The accumulated chat response: the terminal chunk's metadata and
/// message, with the message content replaced by the full concatenation.
pub open spec fn finalize_chat(content: Seq<char>, c: ChatResponseV) -> ChatResponseV {
    ChatResponseV { message: ChatMessageV { content, ..c.message }, ..c }
}

/// What folding the chat items yields, having already accumulated
/// `acc`: as for generation, with the incremental text carried in the
/// message content.
pub open spec fn collect_chat_from(acc: Seq<char>, items: Seq<ChatItemV>) -> Result<
    ChatResponseV,
    DecodeErrorV,
>
    decreases items.len(),
{
    if items.len() == 0 {
        Err(DecodeErrorV::StreamEndedWithoutTerminal)
    } else {
        match items[0] {
            Err(e) => Err(e),
            Ok(c) => if c.done {
                Ok(finalize_chat(acc + c.message.content, c))
            } else {
                collect_chat_from(acc + c.message.content, items.drop_first())
            },
        }
    }
}

/// What folding a whole chat chunk stream yields.
pub open spec fn collect_chat_spec(items: Seq<ChatItemV>) -> Result<ChatResponseV, DecodeErrorV> {
    collect_chat_from(Seq::<char>::empty(), items)
}

/// Ghost-level state of a [`ChatAccumulator`].
pub struct ChatAccumulatorV {
    pub text: Seq<char>,
    pub outcome: Option<ChatItemV>,
}

/// Incremental aggregator for a chat chunk stream.
#[derive(Debug)]
pub struct ChatAccumulator {
    text: String,
    outcome: Option<StreamChunk<ChatResponse>>,
}

impl View for ChatAccumulator {
    type V = ChatAccumulatorV;

    closed spec fn view(&self) -> ChatAccumulatorV {
        ChatAccumulatorV {
            text: self.text@,
            outcome: match self.outcome {
                Some(r) => Some(chat_item_view(r)),
                None => None,
            },
        }
    }
}

impl ChatAccumulator {
    /// A fresh aggregator: empty accumulator, still accumulating.
    pub fn new() -> (r: Self)
        ensures
            r@.text == Seq::<char>::empty(),
            r@.outcome is None,
    {
        ChatAccumulator { text: String::new(), outcome: None }
    }

    /// Whether an outcome has been reached. Once this holds, further
    /// items are ignored and the caller should stop pulling.
    pub fn is_finished(&self) -> (r: bool)
        ensures
            r == (self@.outcome is Some),
    {
        self.outcome.is_some()
    }

    /// Feeds one stream item; the transitions mirror
    /// [`GenerateAccumulator::push`], with the incremental text read
    /// from the message content.
    pub fn push(&mut self, item: StreamChunk<ChatResponse>)
        ensures
            old(self)@.outcome is Some ==> final(self)@ == old(self)@,
            old(self)@.outcome is None ==> match chat_item_view(item) {
                Err(e) => final(self)@.text == old(self)@.text && final(self)@.outcome == Some(
                    Err::<ChatResponseV, DecodeErrorV>(e),
                ),
                Ok(c) => final(self)@.text == old(self)@.text + c.message.content && (if c.done {
                    final(self)@.outcome == Some(
                        Ok::<ChatResponseV, DecodeErrorV>(
                            finalize_chat(old(self)@.text + c.message.content, c),
                        ),
                    )
                } else {
                    final(self)@.outcome is None
                }),
            },
    {
        if self.outcome.is_some() {
            return ;
        }
        match item {
            Err(e) => {
                self.outcome = Some(Err(e));
            },
            Ok(c) => {
                self.text.append(c.message.content.as_str());
                if c.done {
                    let full_text = self.text.clone();
                    let ChatResponse {
                        model,
                        message,
                        done,
                        total_duration,
                        load_duration,
                        prompt_eval_count,
                        prompt_eval_duration,
                        eval_count,
                        eval_duration,
                    } = c;
                    let ChatMessage { role, content: _, images, tool_calls, tool_call_id } =
                        message;
                    self.outcome = Some(
                        Ok(
                            ChatResponse {
                                model,
                                message: ChatMessage {
                                    role,
                                    content: full_text,
                                    images,
                                    tool_calls,
                                    tool_call_id,
                                },
                                done,
                                total_duration,
                                load_duration,
                                prompt_eval_count,
                                prompt_eval_duration,
                                eval_count,
                                eval_duration,
                            },
                        ),
                    );
                }
            },
        }
    }

    /// Ends the stream: the outcome if one was reached, else the
    /// required failure for a stream that ended without a terminal
    /// chunk.
    pub fn finish(self) -> (r: StreamChunk<ChatResponse>)
        ensures
            match self@.outcome {
                Some(o) => chat_item_view(r) == o,
                None => chat_item_view(r) == Err::<ChatResponseV, DecodeErrorV>(
                    DecodeErrorV::StreamEndedWithoutTerminal,
                ),
            },
    {
        match self.outcome {
            Some(r) => r,
            None => Err(DecodeError::StreamEndedWithoutTerminal),
        }
    }
}

/// Folds a fully delivered chat chunk stream into one final response,
/// with the aggregation policy of [`collect_chat_spec`].
pub fn collect_chat_response(items: Vec<StreamChunk<ChatResponse>>) -> (r: StreamChunk<
    ChatResponse,
>)
    ensures
        chat_item_view(r) == collect_chat_spec(chat_items_view(items@)),
{
    let ghost all = chat_items_view(items@);
    let mut acc = ChatAccumulator::new();
    let mut rest = items;
    proof {
        assert(chat_items_view(rest@) =~= all);
    }
    while rest.len() > 0
        invariant
            match acc@.outcome {
                None => collect_chat_from(acc@.text, chat_items_view(rest@)) == collect_chat_spec(
                    all,
                ),
                Some(o) => o == collect_chat_spec(all),
            },
        decreases rest@.len(),
    {
        let ghost pre = rest@;
        let item = rest.remove(0);
        proof {
            assert(chat_items_view(pre)[0] == chat_item_view(item));
            assert(chat_items_view(pre).drop_first() =~= chat_items_view(rest@));
        }
        acc.push(item);
    }
    proof {
        assert(chat_items_view(rest@) =~= Seq::<ChatItemV>::empty());
    }
    acc.finish()
}

/// Concatenation of the incremental message contents of the parsed chat
/// chunks, in arrival order.
pub open spec fn concat_chat_texts(items: Seq<ChatItemV>) -> Seq<char>
    decreases items.len(),
{
    if items.len() == 0 {
        Seq::<char>::empty()
    } else {
        match items[0] {
            Ok(c) => c.message.content + concat_chat_texts(items.drop_first()),
            Err(_) => concat_chat_texts(items.drop_first()),
        }
    }
}

proof fn lemma_collect_chat_from_concatenation(acc: Seq<char>, items: Seq<ChatItemV>)
    requires
        items.len() > 0,
        forall|i: int| 0 <= i < items.len() ==> items[i] is Ok,
        forall|i: int| 0 <= i < items.len() - 1 ==> !(#[trigger] items[i])->Ok_0.done,
        items.last()->Ok_0.done,
    ensures
        collect_chat_from(acc, items) == Ok::<ChatResponseV, DecodeErrorV>(
            finalize_chat(acc + concat_chat_texts(items), items.last()->Ok_0),
        ),
    decreases items.len(),
{
    let c = items[0]->Ok_0;
    if items.len() == 1 {
        assert(acc + (c.message.content + Seq::<char>::empty()) =~= acc + c.message.content);
    } else {
        let rest = items.drop_first();
        assert(forall|i: int| 0 <= i < rest.len() ==> rest[i] == items[i + 1]);
        lemma_collect_chat_from_concatenation(acc + c.message.content, rest);
        assert(items.last() == rest.last());
        assert((acc + c.message.content) + concat_chat_texts(rest) =~= acc + (c.message.content
            + concat_chat_texts(rest)));
    }
}

/// Law: for a chat stream of parsed chunks whose only terminal chunk is
/// the last, aggregation completes, the message content is the
/// concatenation of every chunk's incremental content in arrival order,
/// and the remaining fields are the terminal chunk's.
pub proof fn lemma_collect_chat_concatenation(items: Seq<ChatItemV>)
    requires
        items.len() > 0,
        forall|i: int| 0 <= i < items.len() ==> items[i] is Ok,
        forall|i: int| 0 <= i < items.len() - 1 ==> !(#[trigger] items[i])->Ok_0.done,
        items.last()->Ok_0.done,
    ensures
        collect_chat_spec(items) == Ok::<ChatResponseV, DecodeErrorV>(
            finalize_chat(concat_chat_texts(items), items.last()->Ok_0),
        ),
{
    lemma_collect_chat_from_concatenation(Seq::<char>::empty(), items);
    assert(Seq::<char>::empty() + concat_chat_texts(items) =~= concat_chat_texts(items));
}

/// The same law stated over delivered stream items, so that it applies
/// verbatim to the ensures of [`collect_chat_response`]: when only the
/// last delivered item is terminal, the fold completes with the
/// concatenated content, and the message's role, images, tool calls and
/// call identity, like the timing and count fields, are the terminal
/// chunk's.
pub proof fn lemma_collect_chat_response_concatenation(items: Seq<StreamChunk<ChatResponse>>)
    requires
        items.len() > 0,
        forall|i: int| 0 <= i < items.len() ==> items[i] is Ok,
        forall|i: int| 0 <= i < items.len() - 1 ==> !(#[trigger] items[i])->Ok_0.done,
        items.last()->Ok_0.done,
    ensures
        collect_chat_spec(chat_items_view(items)) == Ok::<ChatResponseV, DecodeErrorV>(
            finalize_chat(concat_chat_texts(chat_items_view(items)), items.last()->Ok_0@),
        ),
{
    let v = chat_items_view(items);
    assert(forall|i: int| 0 <= i < v.len() ==> #[trigger] v[i] == chat_item_view(items[i]));
    assert(v.last() == chat_item_view(items.last()));
    lemma_collect_chat_concatenation(v);
}

/// Law: an empty chat stream fails with `StreamEndedWithoutTerminal`.
pub proof fn lemma_collect_chat_empty()
    ensures
        collect_chat_spec(Seq::<ChatItemV>::empty()) == Err::<ChatResponseV, DecodeErrorV>(
            DecodeErrorV::StreamEndedWithoutTerminal,
        ),
{
}

proof fn lemma_collect_chat_from_error(acc: Seq<char>, items: Seq<ChatItemV>, k: int)
    requires
        0 <= k < items.len(),
        items[k] is Err,
        forall|i: int| 0 <= i < k ==> items[i] is Ok && !(#[trigger] items[i])->Ok_0.done,
    ensures
        collect_chat_from(acc, items) == Err::<ChatResponseV, DecodeErrorV>(items[k]->Err_0),
    decreases k,
{
    if k > 0 {
        let c = items[0]->Ok_0;
        let rest = items.drop_first();
        assert(forall|i: int| 0 <= i < rest.len() ==> rest[i] == items[i + 1]);
        lemma_collect_chat_from_error(acc + c.message.content, rest, k - 1);
    }
}

/// Law: an error item that arrives before any terminal chat chunk makes
/// the aggregation fail with exactly that error; nothing accumulated is
/// returned.
pub proof fn lemma_collect_chat_error_propagates(items: Seq<ChatItemV>, k: int)
    requires
        0 <= k < items.len(),
        items[k] is Err,
        forall|i: int| 0 <= i < k ==> items[i] is Ok && !(#[trigger] items[i])->Ok_0.done,
    ensures
        collect_chat_spec(items) == Err::<ChatResponseV, DecodeErrorV>(items[k]->Err_0),
{
    lemma_collect_chat_from_error(Seq::<char>::empty(), items, k);
}

proof fn lemma_collect_chat_from_empty_text_noop(
    acc: Seq<char>,
    s1: Seq<ChatItemV>,
    c: ChatItemV,
    s2: Seq<ChatItemV>,
)
    requires
        c matches Ok(ch) && !ch.done && ch.message.content.len() == 0,
    ensures
        collect_chat_from(acc, s1 + seq![c] + s2) == collect_chat_from(acc, s1 + s2),
    decreases s1.len(),
{
    let ch = c->Ok_0;
    if s1.len() == 0 {
        assert(s1 + seq![c] + s2 =~= seq![c] + s2);
        assert((seq![c] + s2)[0] == c);
        assert((seq![c] + s2).drop_first() =~= s2);
        assert(acc + ch.message.content =~= acc);
        assert(s1 + s2 =~= s2);
    } else {
        let whole = s1 + seq![c] + s2;
        let short = s1 + s2;
        assert(whole[0] == s1[0]);
        assert(short[0] == s1[0]);
        assert(whole.drop_first() =~= s1.drop_first() + seq![c] + s2);
        assert(short.drop_first() =~= s1.drop_first() + s2);
        match s1[0] {
            Err(_) => {},
            Ok(h) => {
                if !h.done {
                    lemma_collect_chat_from_empty_text_noop(
                        acc + h.message.content,
                        s1.drop_first(),
                        c,
                        s2,
                    );
                }
            },
        }
    }
}

/// Law: a non-terminal chat chunk whose incremental content is empty
/// leaves the running concatenation — and the whole aggregation result —
/// unchanged: dropping it from the stream gives the same outcome.
pub proof fn lemma_collect_chat_empty_text_noop(s1: Seq<ChatItemV>, c: ChatItemV, s2: Seq<ChatItemV>)
    requires
        c matches Ok(ch) && !ch.done && ch.message.content.len() == 0,
    ensures
        collect_chat_spec(s1 + seq![c] + s2) == collect_chat_spec(s1 + s2),
{
    lemma_collect_chat_from_empty_text_noop(Seq::<char>::empty(), s1, c, s2);
}

} // verus!

