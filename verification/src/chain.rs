//! The postprocessing chain: an ordered list of optional text-refinement
//! capabilities, tried in priority order. The chain never fails — its
//! worst case is the unmodified input, tagged as unrefined.

use vstd::prelude::*;

use crate::bert::{spec_basic_postprocessing, BertModel};
use crate::chars::trimmed;
use crate::clock::{elapsed_ms, now_millis};
use crate::llm::LlmModel;

verus! {

/// Which capability produced a refinement outcome.
#[derive(Debug, Clone, Copy, PartialEq, Eq, Structural)]
pub enum Stage {
    /// The masked-language-model corrector.
    Bert,
    /// The generative-language-model corrector.
    Llm,
    /// No capability ran; the text is the input itself.
    Identity,
}

impl Stage {
    /// The stage's wire name.
    pub fn name(&self) -> (r: String)
        ensures
            match self {
                Stage::Bert => r@ == "bert"@,
                Stage::Llm => r@ == "llm"@,
                Stage::Identity => r@ == "none"@,
            },
    {
        match self {
            Stage::Bert => "bert".to_owned(),
            Stage::Llm => "llm".to_owned(),
            Stage::Identity => "none".to_owned(),
        }
    }
}

/// The chain's answer for one transcript: exactly one per request.
pub struct RefinementOutcome {
    /// The refined text (or the input, where no capability succeeded).
    pub text: String,
    /// Which capability produced the text.
    pub stage_used: Stage,
    /// Wall-clock time the chain took, in milliseconds.
    pub elapsed_ms: u64,
}

/// Whether the masked-language-model capability would accept the text:
/// it is present, ready, and the text is not blank.
pub open spec fn bert_attempt_succeeds(bert: Option<&BertModel>, t: Seq<char>) -> bool {
    match bert {
        Some(b) => b.ready() && trimmed(t).len() > 0,
        None => false,
    }
}

/// Runs the transcript through the capabilities in priority order: the
/// masked-language-model corrector first, the generative corrector second,
/// identity last. A capability that is absent, not ready, or fails is
/// skipped; the first success wins. This is a total function: with every
/// capability skipped the input comes back unchanged, tagged `Identity`.
pub fn refine(bert: Option<&BertModel>, llm: &LlmModel, text: &str) -> (r: RefinementOutcome)
    ensures
        bert_attempt_succeeds(bert, text@) ==> r.stage_used == Stage::Bert && r.text@
            == spec_basic_postprocessing(text@),
        !bert_attempt_succeeds(bert, text@) && llm.spec_enabled() ==> r.stage_used == Stage::Llm
            && r.text@ == text@,
        !bert_attempt_succeeds(bert, text@) && !llm.spec_enabled() ==> r.stage_used
            == Stage::Identity && r.text@ == text@,
{
    let start = now_millis();
    if let Some(b) = bert {
        if b.is_ready() {
            match b.process_text(text) {
                Ok(res) => {
                    let end = now_millis();
                    return RefinementOutcome {
                        text: res.text,
                        stage_used: Stage::Bert,
                        elapsed_ms: elapsed_ms(start, end),
                    };
                },
                Err(_) => {},
            }
        }
    }
    if llm.is_enabled() {
        match llm.post_process(text) {
            Ok(t) => {
                let end = now_millis();
                return RefinementOutcome {
                    text: t,
                    stage_used: Stage::Llm,
                    elapsed_ms: elapsed_ms(start, end),
                };
            },
            Err(_) => {},
        }
    }
    let end = now_millis();
    RefinementOutcome {
        text: text.to_owned(),
        stage_used: Stage::Identity,
        elapsed_ms: elapsed_ms(start, end),
    }
}

} // verus!
