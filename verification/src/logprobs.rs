//! Log probabilities of generated tokens, with the tokens as text.
use crate::bits::{to_unsigned_32, unsigned_32};
use crate::proto::{OutputLogProbs, TopLogProbs};
use crate::protocol::{ChatLogProbs, ChatLogProbsContent, TopLogProb};
use crate::router::GrpcPDRouter;
use crate::services::{RouterServices, Tokenizer};
use crate::text::{push_signed_decimal, signed_decimal};
use vstd::prelude::*;
use vstd::string::{StrSliceExecFns, StringExecFns};
use vstd::utf8::encode_utf8;

verus! {

/// The text that stands for a token that cannot be decoded.
pub open spec fn placeholder(token_id: i32) -> Seq<char> {
    "<token_"@ + signed_decimal(token_id as int) + ">"@
}

/// The text of a token, given what decoding it gave.
pub open spec fn text_or_placeholder(token_id: i32, decoded: Result<String, String>) -> Seq<char> {
    match decoded {
        Ok(text) => text@,
        Err(_) => placeholder(token_id),
    }
}

/// `text` is what `tokenizer` makes of the token alone, special tokens shown; a token that it
/// cannot decode has a placeholder.
pub open spec fn decodes_to<T: Tokenizer>(tokenizer: &T, token_id: i32, text: Seq<char>) -> bool {
    exists|ids: &[u32], decoded: Result<String, String>| #[trigger]
        call_ensures(T::decode, (tokenizer, ids, false), decoded) && ids@ == seq![
            unsigned_32(token_id) as u32,
        ] && text == text_or_placeholder(token_id, decoded)
}

/// `texts` are the texts of the tokens, one for one.
pub open spec fn decode_to<T: Tokenizer>(
    tokenizer: &T,
    token_ids: Seq<i32>,
    texts: Seq<String>,
) -> bool {
    &&& texts.len() == token_ids.len()
    &&& forall|i: int|
        0 <= i < token_ids.len() ==> decodes_to(tokenizer, #[trigger] token_ids[i], texts[i]@)
}

/// The text of a token, given what decoding it gave.
pub fn token_text(token_id: i32, decoded: Result<String, String>) -> (text: String)
    ensures
        text@ == text_or_placeholder(token_id, decoded),
{
    match decoded {
        Ok(text) => text,
        Err(_) => {
            let mut text: String = "<token_".to_string();
            push_signed_decimal(&mut text, token_id);
            text.append(">");
            text
        },
    }
}

/// Decodes each token alone, special tokens shown.
fn decode_each<T: Tokenizer>(tokenizer: &T, token_ids: &Vec<i32>) -> (texts: Vec<String>)
    ensures
        decode_to(tokenizer, token_ids@, texts@),
{
    let mut texts: Vec<String> = Vec::new();
    let mut i: usize = 0;
    while i < token_ids.len()
        invariant
            i <= token_ids.len(),
            texts.len() == i,
            forall|j: int|
                0 <= j < i ==> decodes_to(tokenizer, #[trigger] token_ids@[j], texts@[j]@),
        decreases token_ids.len() - i,
    {
        let token_id: i32 = token_ids[i];
        let ids: [u32; 1] = [to_unsigned_32(token_id)];
        let ids: &[u32] = &ids;
        assert(ids@ =~= seq![unsigned_32(token_id) as u32]);
        let decoded = tokenizer.decode(ids, false);
        let ghost outcome = decoded;
        let text: String = token_text(token_id, decoded);
        assert(call_ensures(T::decode, (tokenizer, ids, false), outcome));
        texts.push(text);
        i += 1;
    }
    texts
}

/// An alternative token with its text and log probability.
pub open spec fn is_top_entry<L>(entry: TopLogProb<L>, text: Seq<char>, logprob: L) -> bool {
    &&& entry.token@ == text
    &&& entry.logprob == logprob
    &&& entry.bytes matches Some(bytes) && bytes@ == encode_utf8(text)
}

/// How many alternatives a position shows: those that have a value and a text.
pub open spec fn top_count<L>(top: TopLogProbs<L>, texts: Seq<String>) -> nat {
    let pairs = if top.values.len() <= top.token_ids.len() {
        top.values@.len()
    } else {
        top.token_ids@.len()
    };
    if pairs <= texts.len() {
        pairs
    } else {
        texts.len()
    }
}

/// `entries` show the alternatives of one position under the texts given, in their order.
pub open spec fn is_top_list<L>(
    entries: Seq<TopLogProb<L>>,
    top: TopLogProbs<L>,
    texts: Seq<String>,
) -> bool {
    &&& entries.len() == top_count(top, texts)
    &&& forall|j: int|
        0 <= j < entries.len() ==> is_top_entry(#[trigger] entries[j], texts[j]@, top.values@[j])
}

/// A generated token with its text and log probability.
pub open spec fn is_entry<L>(entry: ChatLogProbsContent<L>, text: Seq<char>, logprob: L) -> bool {
    &&& entry.token@ == text
    &&& entry.logprob == logprob
    &&& entry.bytes matches Some(bytes) && bytes@ == encode_utf8(text)
}

/// The text at `i`, or no text where there are fewer.
pub open spec fn text_at(texts: Seq<String>, i: int) -> Seq<char> {
    if i < texts.len() {
        texts[i]@
    } else {
        Seq::empty()
    }
}

/// `content` shows the log probabilities under the texts given: one entry for each log
/// probability, with the alternatives where there are any; none at all is no content.
pub open spec fn is_content<L>(
    content: Option<Vec<ChatLogProbsContent<L>>>,
    logprobs: OutputLogProbs<L>,
    texts: Seq<String>,
    top_texts: Seq<Vec<String>>,
) -> bool {
    match content {
        None => logprobs.token_logprobs.len() == 0,
        Some(entries) => {
            &&& logprobs.token_logprobs.len() > 0
            &&& entries.len() == logprobs.token_logprobs.len()
            &&& forall|i: int|
                0 <= i < entries.len() ==> {
                    &&& is_entry(
                        #[trigger] entries@[i],
                        text_at(texts, i),
                        logprobs.token_logprobs@[i],
                    )
                    &&& if i < logprobs.top_logprobs.len() && i < top_texts.len() {
                        is_top_list(
                            entries@[i].top_logprobs@,
                            logprobs.top_logprobs@[i],
                            top_texts[i]@,
                        )
                    } else {
                        entries@[i].top_logprobs.len() == 0
                    }
                }
        },
    }
}

/// The alternatives of one position under the texts given.
fn top_list<L: Copy>(top: &TopLogProbs<L>, texts: &Vec<String>) -> (entries: Vec<TopLogProb<L>>)
    ensures
        is_top_list(entries@, *top, texts@),
{
    let mut entries: Vec<TopLogProb<L>> = Vec::new();
    let mut j: usize = 0;
    while j < top.values.len() && j < top.token_ids.len() && j < texts.len()
        invariant
            j <= top.values.len(),
            j <= top.token_ids.len(),
            j <= texts.len(),
            entries.len() == j,
            forall|k: int|
                0 <= k < j ==> is_top_entry(#[trigger] entries@[k], texts@[k]@, top.values@[k]),
        decreases top.values.len() - j,
    {
        let token: String = texts[j].clone();
        let bytes: Vec<u8> = token.as_str().as_bytes_vec();
        entries.push(TopLogProb { token, logprob: top.values[j], bytes: Some(bytes) });
        j += 1;
    }
    entries
}

/// Shows log probabilities, given the texts of the tokens and of the alternatives.
pub fn content_of<L: Copy>(
    logprobs: &OutputLogProbs<L>,
    texts: &Vec<String>,
    top_texts: &Vec<Vec<String>>,
) -> (content: Option<Vec<ChatLogProbsContent<L>>>)
    ensures
        is_content(content, *logprobs, texts@, top_texts@),
{
    let mut entries: Vec<ChatLogProbsContent<L>> = Vec::new();
    let mut i: usize = 0;
    while i < logprobs.token_logprobs.len()
        invariant
            i <= logprobs.token_logprobs.len(),
            entries.len() == i,
            forall|k: int|
                0 <= k < i ==> {
                    &&& is_entry(
                        #[trigger] entries@[k],
                        text_at(texts@, k),
                        logprobs.token_logprobs@[k],
                    )
                    &&& if k < logprobs.top_logprobs.len() && k < top_texts.len() {
                        is_top_list(
                            entries@[k].top_logprobs@,
                            logprobs.top_logprobs@[k],
                            top_texts@[k]@,
                        )
                    } else {
                        entries@[k].top_logprobs.len() == 0
                    }
                },
        decreases logprobs.token_logprobs.len() - i,
    {
        let token: String = if i < texts.len() {
            texts[i].clone()
        } else {
            String::new()
        };
        let bytes: Vec<u8> = token.as_str().as_bytes_vec();
        let top_logprobs: Vec<TopLogProb<L>> = if i < logprobs.top_logprobs.len() && i
            < top_texts.len() {
            top_list(&logprobs.top_logprobs[i], &top_texts[i])
        } else {
            Vec::new()
        };
        entries.push(
            ChatLogProbsContent {
                token,
                logprob: logprobs.token_logprobs[i],
                bytes: Some(bytes),
                top_logprobs,
            },
        );
        i += 1;
    }
    if entries.len() == 0 {
        None
    } else {
        Some(entries)
    }
}

/// `shown` is what `tokenizer` makes of the log probabilities: tokens and alternatives are decoded
/// one by one, special tokens shown, and a position without a token has no text.
pub open spec fn shows<T: Tokenizer, L>(
    tokenizer: &T,
    logprobs: OutputLogProbs<L>,
    shown: ChatLogProbs<L>,
) -> bool {
    exists|texts: Seq<String>, top_texts: Seq<Vec<String>>|
        {
            &&& decode_to(tokenizer, logprobs.token_ids@, texts)
            &&& top_texts.len() == if logprobs.top_logprobs.len()
                <= logprobs.token_logprobs.len() {
                logprobs.top_logprobs@.len()
            } else {
                logprobs.token_logprobs@.len()
            }
            &&& forall|i: int|
                0 <= i < top_texts.len() ==> decode_to(
                    tokenizer,
                    logprobs.top_logprobs@[i].token_ids@,
                    #[trigger] top_texts[i]@,
                )
            &&& #[trigger] is_content(shown->content, logprobs, texts, top_texts)
        }
}

impl<S: RouterServices> GrpcPDRouter<S> {
    /// Shows the log probabilities of a generation with their tokens as text. Tokens are always
    /// decoded with special tokens shown, so that the tokens that were generated are seen.
    pub fn convert_proto_to_openai_logprobs<L: Copy>(
        &self,
        proto_logprobs: &OutputLogProbs<L>,
    ) -> (result: Result<ChatLogProbs<L>, String>)
        ensures
            result matches Ok(shown) && shows(&*self.tokenizer, *proto_logprobs, shown),
    {
        let texts: Vec<String> = decode_each(&*self.tokenizer, &proto_logprobs.token_ids);
        let mut top_texts: Vec<Vec<String>> = Vec::new();
        let mut i: usize = 0;
        while i < proto_logprobs.top_logprobs.len() && i < proto_logprobs.token_logprobs.len()
            invariant
                i <= proto_logprobs.top_logprobs.len(),
                i <= proto_logprobs.token_logprobs.len(),
                top_texts.len() == i,
                forall|k: int|
                    0 <= k < i ==> decode_to(
                        &*self.tokenizer,
                        proto_logprobs.top_logprobs@[k].token_ids@,
                        #[trigger] top_texts@[k]@,
                    ),
            decreases proto_logprobs.top_logprobs.len() - i,
        {
            let decoded: Vec<String> = decode_each(
                &*self.tokenizer,
                &proto_logprobs.top_logprobs[i].token_ids,
            );
            top_texts.push(decoded);
            i += 1;
        }
        let content = content_of(proto_logprobs, &texts, &top_texts);
        Ok(ChatLogProbs::Detailed { content })
    }
}

} // verus!
