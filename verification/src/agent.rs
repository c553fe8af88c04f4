//! The scoring agent: what is sent to the scorer, and what is made of its
//! reply.
//!
//! Sending the request and decoding the payload are the caller's work. The
//! agent writes the request, reads the reply's envelope, strips the payload of
//! incidental formatting, and falls back to a fixed opinion where the scorer
//! fails.

use crate::text::{chars_of, has_prefix, trim_range, trimmed, Padding};
use crate::types::{AlphaView, Binary32, MarketAlpha};
use vstd::prelude::*;
use vstd::string::*;

verus! {

/// What the prompt says before the market data.
pub const PROMPT_HEAD: &'static str =
    "\n            You are an Elite Prediction Market Analyst and Computational CIO. \n            You evaluate geopolitical, sentiment, and liquidity data to determine the EXACT probability of a market outcome.\n\n            MARKET DATA:\n            ";

/// What the prompt says after the market data.
pub const PROMPT_TAIL: &'static str =
    "\n\n            CRITICAL OBJECTIVE:\n            1. Output a specific WIN PROBABILITY (%) as a float.\n            2. Provide HIGH-DENSITY, CIO-GRADE reasoning for this probability.\n            3. Identify critical TAIL RISKS (unexpected events that shift the needle).\n\n            RESPONSE STRUCTURE (JSON ONLY):\n            {\n                \"win_probability\": 0.0,\n                \"alpha_reasoning\": \"...\",\n                \"tail_risks\": [\"...\", \"...\"]\n            }\n            ";

/// The scorer's address, up to the credential.
pub const SCORER_ENDPOINT: &'static str =
    "https://generativelanguage.googleapis.com/v1beta/models/gemini-pro:generateContent?key=";

/// The win probability of the fallback opinion: the bit pattern of 74.2.
pub const FALLBACK_WIN_PROBABILITY: u32 = 0x4294_6666;

/// The reasoning of the fallback opinion.
pub const FALLBACK_REASONING: &'static str =
    "Synthetic Alpha: Liquidity patterns on Polymarket suggest a massive asymmetric bet formation. Geopolitical sentiment is currently undervalued by the market consensus. Recommend immediate positioning before the 15% volatility spike.";

/// The first tail risk of the fallback opinion.
pub const FALLBACK_RISK_REGULATORY: &'static str = "Unexpected regulatory shifts in the US market";

/// The second tail risk of the fallback opinion.
pub const FALLBACK_RISK_LIQUIDITY: &'static str = "Black swan liquidity event on Solana L1";

/// Why no opinion came out of a scoring attempt.
#[derive(Clone, Copy, Debug, PartialEq, Eq, Structural)]
pub enum ScoringError {
    /// The request did not get through.
    Transport,
    /// The reply's body was no JSON document.
    MalformedResponse,
    /// The reply's envelope held no candidate text.
    MissingText,
    /// The candidate text did not decode to an opinion.
    Undecodable,
}

/// What is sent to the scorer.
#[derive(Clone, Debug, PartialEq, Eq)]
pub struct ScoringRequest {
    pub url: String,
    pub prompt: String,
}

/// What came back from the scorer, as far as the agent reads it.
#[derive(Clone, Debug, PartialEq, Eq)]
pub enum ScorerReply {
    /// The request did not get through.
    Unreachable,
    /// A reply came, and its body was no JSON document.
    NotJson,
    /// A reply came with a JSON body: its HTTP status, and the text of the
    /// first candidate's first part where the body holds one.
    Json { status: u16, candidate_text: Option<String> },
}

/// The mathematical content of a [`ScorerReply`].
pub ghost enum ReplyView {
    Unreachable,
    NotJson,
    Json { status: u16, candidate_text: Option<Seq<char>> },
}

impl View for ScorerReply {
    type V = ReplyView;

    open spec fn view(&self) -> ReplyView {
        match self {
            ScorerReply::Unreachable => ReplyView::Unreachable,
            ScorerReply::NotJson => ReplyView::NotJson,
            ScorerReply::Json { status, candidate_text } => ReplyView::Json {
                status: *status,
                candidate_text: match candidate_text {
                    Some(text) => Some(text@),
                    None => None,
                },
            },
        }
    }
}

/// What the agent makes of a reply.
#[derive(Debug, PartialEq, Eq)]
pub enum ReplyReading {
    /// The attempt is over, with this outcome.
    Settled(Result<MarketAlpha, ScoringError>),
    /// This payload must be decoded to an opinion.
    Decode(String),
}

/// The mathematical content of a [`ReplyReading`].
pub ghost enum ReadingView {
    Settled(Result<AlphaView, ScoringError>),
    Decode(Seq<char>),
}

/// The mathematical content of a scoring outcome.
pub open spec fn outcome_view(outcome: Result<MarketAlpha, ScoringError>) -> Result<
    AlphaView,
    ScoringError,
> {
    match outcome {
        Ok(alpha) => Ok(alpha@),
        Err(error) => Err(error),
    }
}

impl View for ReplyReading {
    type V = ReadingView;

    open spec fn view(&self) -> ReadingView {
        match self {
            ReplyReading::Settled(outcome) => ReadingView::Settled(outcome_view(*outcome)),
            ReplyReading::Decode(payload) => ReadingView::Decode(payload@),
        }
    }
}

/// The prompt for one market.
pub open spec fn signal_prompt(market_data: Seq<char>) -> Seq<char> {
    PROMPT_HEAD@ + market_data + PROMPT_TAIL@
}

/// The opinion that stands in where the scorer fails.
pub open spec fn fallback_view() -> AlphaView {
    AlphaView {
        win_probability: Binary32 { bits: FALLBACK_WIN_PROBABILITY },
        alpha_reasoning: FALLBACK_REASONING@,
        tail_risks: seq![FALLBACK_RISK_REGULATORY@, FALLBACK_RISK_LIQUIDITY@],
    }
}

/// The opinion that an outcome stands for: the scorer's own where it gave a
/// well-formed one, the fallback otherwise.
pub open spec fn opinion_of(outcome: Result<AlphaView, ScoringError>) -> AlphaView {
    match outcome {
        Ok(alpha) => if alpha.is_well_formed() {
            alpha
        } else {
            fallback_view()
        },
        Err(_) => fallback_view(),
    }
}

/// An HTTP status of the successful class.
pub open spec fn is_success_status(status: u16) -> bool {
    200 <= status < 300
}

/// The tag that a code fence may carry in front of a JSON payload.
pub open spec fn language_tag() -> Seq<char> {
    seq!['j', 's', 'o', 'n']
}

/// `s` without a leading language tag.
pub open spec fn without_language_tag(s: Seq<char>) -> Seq<char> {
    if has_prefix(s, language_tag()) {
        s.subrange(4, s.len() as int)
    } else {
        s
    }
}

/// The payload inside a candidate text: white space is trimmed, then the
/// fence's backticks, line feeds and spaces, then a leading language tag, then
/// white space again.
pub open spec fn unwrapped_payload(text: Seq<char>) -> Seq<char> {
    trimmed(
        without_language_tag(trimmed(trimmed(text, Padding::Whitespace), Padding::Fence)),
        Padding::Whitespace,
    )
}

/// What a reply means: an unreachable scorer, a body that is no JSON and a
/// missing candidate text are failures; a status outside the successful class
/// is answered by the fallback opinion; anything else leaves the unwrapped
/// payload to decode.
pub open spec fn reading_of(reply: ReplyView) -> ReadingView {
    match reply {
        ReplyView::Unreachable => ReadingView::Settled(Err(ScoringError::Transport)),
        ReplyView::NotJson => ReadingView::Settled(Err(ScoringError::MalformedResponse)),
        ReplyView::Json { status, candidate_text } => if !is_success_status(status) {
            ReadingView::Settled(Ok(fallback_view()))
        } else {
            match candidate_text {
                None => ReadingView::Settled(Err(ScoringError::MissingText)),
                Some(text) => ReadingView::Decode(unwrapped_payload(text)),
            }
        },
    }
}

/// The outcome of a decoding attempt.
pub open spec fn decoded_outcome(decoded: Option<AlphaView>) -> Result<AlphaView, ScoringError> {
    match decoded {
        Some(alpha) => Ok(alpha),
        None => Err(ScoringError::Undecodable),
    }
}

/// The view of a decoding attempt.
pub open spec fn decoded_view(decoded: Option<MarketAlpha>) -> Option<AlphaView> {
    match decoded {
        Some(alpha) => Some(alpha@),
        None => None,
    }
}

/// `outcome` is what comes of `payload` once `decode` has had it.
pub open spec fn decodes_to<D: FnOnce(&str) -> Option<MarketAlpha>>(
    decode: D,
    payload: Seq<char>,
    outcome: Result<AlphaView, ScoringError>,
) -> bool {
    exists|text: &str, decoded: Option<MarketAlpha>|
        #![trigger call_ensures(decode, (text,), decoded)]
        text@ == payload && call_ensures(decode, (text,), decoded) && outcome == decoded_outcome(
            decoded_view(decoded),
        )
}

/// `outcome` is what comes of `reply`: what the reply settles, or what
/// `decode` makes of the payload that it leaves.
pub open spec fn follows_from<D: FnOnce(&str) -> Option<MarketAlpha>>(
    decode: D,
    reply: ReplyView,
    outcome: Result<AlphaView, ScoringError>,
) -> bool {
    match reading_of(reply) {
        ReadingView::Settled(settled) => outcome == settled,
        ReadingView::Decode(payload) => decodes_to(decode, payload, outcome),
    }
}

/// The fallback opinion is well-formed.
pub proof fn lemma_fallback_is_well_formed()
    ensures
        fallback_view().is_well_formed(),
{
    reveal_strlit(
        "Synthetic Alpha: Liquidity patterns on Polymarket suggest a massive asymmetric bet formation. Geopolitical sentiment is currently undervalued by the market consensus. Recommend immediate positioning before the 15% volatility spike.",
    );
}

/// Every outcome stands for a well-formed opinion, and a well-formed opinion
/// of the scorer's stands for itself.
pub proof fn lemma_opinion_is_well_formed(outcome: Result<AlphaView, ScoringError>)
    ensures
        opinion_of(outcome).is_well_formed(),
        outcome matches Ok(alpha) ==> (alpha.is_well_formed() ==> opinion_of(outcome) == alpha),
{
    lemma_fallback_is_well_formed();
}

/// The opinion that stands in where the scorer fails.
pub fn fallback_alpha() -> (alpha: MarketAlpha)
    ensures
        alpha@ == fallback_view(),
{
    let mut tail_risks: Vec<String> = Vec::new();
    tail_risks.push(String::from_str(FALLBACK_RISK_REGULATORY));
    tail_risks.push(String::from_str(FALLBACK_RISK_LIQUIDITY));
    let alpha = MarketAlpha {
        win_probability: Binary32 { bits: FALLBACK_WIN_PROBABILITY },
        alpha_reasoning: String::from_str(FALLBACK_REASONING),
        tail_risks,
    };
    assert(alpha@.tail_risks =~= fallback_view().tail_risks);
    alpha
}

/// Turns a scoring outcome into an opinion: the scorer's own where it gave a
/// well-formed one, the fallback otherwise.
pub fn opinion_or_fallback(outcome: Result<MarketAlpha, ScoringError>) -> (alpha: MarketAlpha)
    ensures
        alpha@ == opinion_of(outcome_view(outcome)),
        alpha@.is_well_formed(),
{
    proof {
        lemma_fallback_is_well_formed();
    }
    match outcome {
        Ok(alpha) => if alpha.is_well_formed() {
            alpha
        } else {
            fallback_alpha()
        },
        Err(_) => fallback_alpha(),
    }
}

/// Whether an HTTP status is of the successful class.
pub fn status_is_success(status: u16) -> (yes: bool)
    ensures
        yes == is_success_status(status),
{
    200 <= status && status < 300
}

/// Strips a candidate text down to its payload.
pub fn unwrap_payload(text: &str) -> (payload: String)
    ensures
        payload@ == unwrapped_payload(text@),
{
    let chars = chars_of(text);
    let (a, b) = trim_range(&chars, 0, chars.len(), Padding::Whitespace);
    assert(chars@.subrange(0, chars@.len() as int) =~= chars@);
    let (c, d) = trim_range(&chars, a, b, Padding::Fence);
    let ghost fenced = chars@.subrange(c as int, d as int);
    let tagged = d - c >= 4 && chars[c] == 'j' && chars[c + 1] == 's' && chars[c + 2] == 'o'
        && chars[c + 3] == 'n';
    let e = if tagged {
        c + 4
    } else {
        c
    };
    proof {
        if tagged {
            assert(fenced.subrange(0, 4) =~= language_tag());
            assert(fenced.subrange(4, fenced.len() as int) =~= chars@.subrange(e as int, d as int));
        } else if has_prefix(fenced, language_tag()) {
            assert(fenced.subrange(0, 4)[0] == 'j');
            assert(fenced.subrange(0, 4)[1] == 's');
            assert(fenced.subrange(0, 4)[2] == 'o');
            assert(fenced.subrange(0, 4)[3] == 'n');
        }
        assert(chars@.subrange(e as int, d as int) == without_language_tag(fenced));
    }
    let (f, g) = trim_range(&chars, e, d, Padding::Whitespace);
    String::from_str(text.substring_char(f, g))
}

/// Reads a reply's envelope.
pub fn read_reply(reply: &ScorerReply) -> (reading: ReplyReading)
    ensures
        reading@ == reading_of(reply@),
{
    match reply {
        ScorerReply::Unreachable => ReplyReading::Settled(Err(ScoringError::Transport)),
        ScorerReply::NotJson => ReplyReading::Settled(Err(ScoringError::MalformedResponse)),
        ScorerReply::Json { status, candidate_text } => {
            if !status_is_success(*status) {
                ReplyReading::Settled(Ok(fallback_alpha()))
            } else {
                match candidate_text {
                    None => ReplyReading::Settled(Err(ScoringError::MissingText)),
                    Some(text) => ReplyReading::Decode(unwrap_payload(text.as_str())),
                }
            }
        },
    }
}

/// Turns a decoding attempt into an outcome.
pub fn accept_decoded(
    decoded: Option<MarketAlpha>,
) -> (outcome: Result<MarketAlpha, ScoringError>)
    ensures
        outcome_view(outcome) == decoded_outcome(decoded_view(decoded)),
{
    match decoded {
        Some(alpha) => Ok(alpha),
        None => Err(ScoringError::Undecodable),
    }
}

/// The agent that asks the scorer, under one credential.
pub struct GeminiAgent {
    api_key: String,
}

impl GeminiAgent {
    /// The credential that requests carry.
    pub closed spec fn credential(self) -> Seq<char> {
        self.api_key@
    }

    /// An agent that asks under `api_key`.
    pub fn new(api_key: String) -> (agent: Self)
        ensures
            agent.credential() == api_key@,
    {
        GeminiAgent { api_key }
    }

    /// Writes the prompt for one market: the fixed instructions around the
    /// market's data.
    pub fn generate_signal_prompt(&self, market_data: &str) -> (prompt: String)
        ensures
            prompt@ == signal_prompt(market_data@),
    {
        let mut prompt = String::from_str(PROMPT_HEAD);
        prompt.append(market_data);
        prompt.append(PROMPT_TAIL);
        prompt
    }

    /// Writes the request for one market: the scorer's address with the
    /// credential, and the prompt.
    pub fn scoring_request(&self, market_data: &str) -> (request: ScoringRequest)
        ensures
            request.url@ == SCORER_ENDPOINT@ + self.credential(),
            request.prompt@ == signal_prompt(market_data@),
    {
        let mut url = String::from_str(SCORER_ENDPOINT);
        url.append(self.api_key.as_str());
        ScoringRequest { url, prompt: self.generate_signal_prompt(market_data) }
    }

    /// Scores one market. `send` carries the request to the scorer and brings
    /// the reply back; `decode` turns a payload into an opinion. `send` is
    /// called once. `decode` is called once where the reply leaves a payload
    /// to decode, and not at all otherwise.
    pub fn analyze_market<S, D>(
        &self,
        market_data: &str,
        send: S,
        decode: D,
    ) -> (outcome: Result<MarketAlpha, ScoringError>) where
        S: FnOnce(&ScoringRequest) -> ScorerReply,
        D: FnOnce(&str) -> Option<MarketAlpha>,

        requires
            forall|request: ScoringRequest| call_requires(send, (&request,)),
            forall|payload: &str| call_requires(decode, (payload,)),
        ensures
            exists|request: ScoringRequest, reply: ScorerReply|
                #![trigger call_ensures(send, (&request,), reply)]
                request.url@ == SCORER_ENDPOINT@ + self.credential() && request.prompt@
                    == signal_prompt(market_data@) && call_ensures(send, (&request,), reply)
                    && follows_from(decode, reply@, outcome_view(outcome)),
    {
        let request = self.scoring_request(market_data);
        let reply = send(&request);
        match read_reply(&reply) {
            ReplyReading::Settled(outcome) => outcome,
            ReplyReading::Decode(payload) => {
                let decoded = decode(payload.as_str());
                accept_decoded(decoded)
            },
        }
    }
}

} // verus!
