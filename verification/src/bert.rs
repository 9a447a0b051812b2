//! The masked-language-model text-correction capability.
//!
//! The model backend (weights, device selection) is an outside concern;
//! this component owns the capability's configuration, its readiness
//! state, and the text normalization it applies: sentences are trimmed,
//! their first letter is capitalized, inner whitespace runs are collapsed,
//! and the sentences are joined back with a trailing period.

use vstd::prelude::*;

use crate::chars::{
    char_to_upper,
    chars_to_string,
    join_pieces,
    join_with,
    split_words,
    str_to_chars,
    trim_chars,
    trimmed,
    upper_chars,
    views_of,
    words,
};
use crate::clock::{elapsed_ms, now_millis};

verus! {

/// Errors of the masked-language-model capability.
#[derive(Debug)]
pub enum BertError {
    /// The model backend could not be set up.
    InitializationError(String),
    /// An inference call failed.
    InferenceError(String),
    /// The model was used before it was initialized.
    NotInitialized,
    /// The input text was rejected.
    InvalidInput(String),
    /// The configuration was unusable.
    ConfigError(String),
}

impl BertError {
    /// A human-readable description of the error.
    pub fn message(&self) -> (r: String)
        ensures
            match self {
                BertError::InitializationError(m) => r@ == "Ошибка инициализации модели: "@
                    + m@,
                BertError::InferenceError(m) => r@ == "Ошибка инференса: "@ + m@,
                BertError::NotInitialized => r@ == "Модель не инициализирована"@,
                BertError::InvalidInput(m) => r@ == "Некорректный входной текст: "@ + m@,
                BertError::ConfigError(m) => r@ == "Ошибка конфигурации: "@ + m@,
            },
    {
        match self {
            BertError::InitializationError(m) => {
                let mut s = "Ошибка инициализации модели: ".to_owned();
                s.append(m.as_str());
                s
            },
            BertError::InferenceError(m) => {
                let mut s = "Ошибка инференса: ".to_owned();
                s.append(m.as_str());
                s
            },
            BertError::NotInitialized => "Модель не инициализирована".to_owned(),
            BertError::InvalidInput(m) => {
                let mut s = "Некорректный входной текст: ".to_owned();
                s.append(m.as_str());
                s
            },
            BertError::ConfigError(m) => {
                let mut s = "Ошибка конфигурации: ".to_owned();
                s.append(m.as_str());
                s
            },
        }
    }
}

/// The outcome of one text-processing call.
pub struct ProcessResult {
    /// The processed text.
    pub text: String,
    /// Wall-clock time the call took, in milliseconds.
    pub processing_time_ms: u64,
    /// Whether a GPU performed the work.
    pub used_gpu: bool,
}

/// Configuration of the masked-language-model capability.
pub struct BertConfig {
    /// The model's name.
    pub model_name: String,
    /// Where a local copy of the model lives, if one does.
    pub local_model_path: Option<String>,
    /// Whether to prefer a GPU when one is available.
    pub use_gpu: bool,
    /// The longest input sequence the model accepts.
    pub max_length: usize,
}

impl Default for BertConfig {
    /// The stock configuration: the Russian-language cased BERT model,
    /// fetched remotely, GPU preferred, inputs up to 512 tokens.
    fn default() -> (r: Self)
        ensures
            r.model_name@ == "DeepPavlov/rubert-base-cased"@,
            r.local_model_path is None,
            r.use_gpu,
            r.max_length == 512,
    {
        BertConfig {
            model_name: "DeepPavlov/rubert-base-cased".to_owned(),
            local_model_path: None,
            use_gpu: true,
            max_length: 512,
        }
    }
}

/// Whether a character ends a sentence.
pub open spec fn is_sentence_sep(c: char) -> bool {
    c == '.' || c == '!' || c == '?'
}

/// The pieces of `s` between sentence separators, accumulated left to
/// right; `cur` is the partial piece read so far. Empty pieces are kept.
pub open spec fn sentences_acc(s: Seq<char>, cur: Seq<char>) -> Seq<Seq<char>>
    decreases s.len(),
{
    if s.len() == 0 {
        seq![cur]
    } else if is_sentence_sep(s[0]) {
        seq![cur] + sentences_acc(s.drop_first(), Seq::empty())
    } else {
        sentences_acc(s.drop_first(), cur.push(s[0]))
    }
}

/// The pieces of `s` between sentence separators.
pub open spec fn sentences(s: Seq<char>) -> Seq<Seq<char>> {
    sentences_acc(s, Seq::empty())
}

/// `s` with its first character replaced by its uppercase mapping.
pub open spec fn capitalized(s: Seq<char>) -> Seq<char> {
    if s.len() == 0 {
        s
    } else {
        upper_chars(s[0]) + s.drop_first()
    }
}

/// `s` with every whitespace run replaced by a single space and the ends
/// trimmed.
pub open spec fn collapsed(s: Seq<char>) -> Seq<char> {
    join_with(words(s), seq![' '])
}

/// One sentence after normalization: trimmed, capitalized, whitespace
/// collapsed.
pub open spec fn processed_sentence(s: Seq<char>) -> Seq<char> {
    collapsed(capitalized(trimmed(s)))
}

/// The normalized forms of the pieces whose trimmed text is non-empty, in
/// order.
pub open spec fn kept_processed(pieces: Seq<Seq<char>>) -> Seq<Seq<char>>
    decreases pieces.len(),
{
    if pieces.len() == 0 {
        Seq::empty()
    } else if trimmed(pieces[0]).len() == 0 {
        kept_processed(pieces.drop_first())
    } else {
        seq![processed_sentence(pieces[0])] + kept_processed(pieces.drop_first())
    }
}

/// The text normalization the capability applies: split on sentence
/// separators, drop blank pieces, normalize each sentence, join the
/// sentences with ". ", and end with a period.
pub open spec fn spec_basic_postprocessing(s: Seq<char>) -> Seq<char> {
    join_with(kept_processed(sentences(s)), seq!['.', ' ']) + seq!['.']
}

/// Replaces the first character of a vector by its uppercase mapping.
fn capitalized_chars(v: &Vec<char>) -> (r: Vec<char>)
    ensures
        r@ == capitalized(v@),
{
    if v.len() == 0 {
        let r: Vec<char> = Vec::new();
        return r;
    }
    let mut r = char_to_upper(v[0]);
    let n = v.len();
    let mut k: usize = 1;
    proof {
        assert(upper_chars(v@[0]) + v@.subrange(1, 1) =~= upper_chars(v@[0]));
    }
    while k < n
        invariant
            1 <= k <= n,
            n == v@.len(),
            r@ == upper_chars(v@[0]) + v@.subrange(1, k as int),
        decreases n - k,
    {
        r.push(v[k]);
        k = k + 1;
        proof {
            assert(upper_chars(v@[0]) + v@.subrange(1, k as int) =~= (upper_chars(v@[0])
                + v@.subrange(1, k as int - 1)).push(v@[k as int - 1]));
        }
    }
    proof {
        assert(v@.subrange(1, n as int) =~= v@.drop_first());
    }
    r
}

/// The masked-language-model capability: its configuration and readiness.
pub struct BertModel {
    config: BertConfig,
    is_initialized: bool,
}

impl BertModel {
    /// The capability's configuration, for contracts.
    pub closed spec fn spec_config(&self) -> BertConfig {
        self.config
    }

    /// Whether the backend has been initialized, for contracts.
    pub closed spec fn ready(&self) -> bool {
        self.is_initialized
    }

    /// A capability with the given configuration, not yet initialized.
    pub fn new(config: BertConfig) -> (r: Self)
        ensures
            r.spec_config() == config,
            !r.ready(),
    {
        BertModel { config, is_initialized: false }
    }

    /// A capability with the stock configuration, not yet initialized.
    pub fn with_default_config() -> (r: Self)
        ensures
            !r.ready(),
            r.spec_config().model_name@ == "DeepPavlov/rubert-base-cased"@,
            r.spec_config().local_model_path is None,
            r.spec_config().use_gpu,
            r.spec_config().max_length == 512,
    {
        Self::new(BertConfig::default())
    }

    /// Records the outcome of loading the model backend. The load itself
    /// (fetching resources, binding a device) is an outside concern; the
    /// caller reports whether it succeeded. Readiness is set exactly on
    /// success.
    pub fn initialize(&mut self, backend_loaded: bool) -> (r: Result<(), BertError>)
        ensures
            final(self).spec_config() == old(self).spec_config(),
            final(self).ready() == (old(self).ready() || backend_loaded),
            r is Ok <==> backend_loaded,
            r matches Err(e) ==> e matches BertError::ConfigError(m),
    {
        if backend_loaded {
            self.is_initialized = true;
            Ok(())
        } else {
            Err(BertError::ConfigError("бэкенд модели недоступен".to_owned()))
        }
    }

    /// Normalizes a transcript. Fails with `NotInitialized` before the
    /// backend is ready and with `InvalidInput` on blank text; otherwise
    /// returns the normalized text.
    pub fn process_text(&self, input: &str) -> (r: Result<ProcessResult, BertError>)
        ensures
            r is Ok <==> (self.ready() && trimmed(input@).len() > 0),
            r matches Ok(p) ==> p.text@ == spec_basic_postprocessing(input@) && !p.used_gpu,
            !self.ready() ==> (r matches Err(e) && e matches BertError::NotInitialized),
            self.ready() && trimmed(input@).len() == 0 ==> (r matches Err(e)
                && e matches BertError::InvalidInput(m) && m@ == "Пустой текст"@),
    {
        if !self.is_initialized {
            return Err(BertError::NotInitialized);
        }
        let chars = str_to_chars(input);
        let t = trim_chars(&chars);
        if t.len() == 0 {
            return Err(BertError::InvalidInput("Пустой текст".to_owned()));
        }
        let start = now_millis();
        let processed_text = self.basic_postprocessing(input);
        let end = now_millis();
        Ok(
            ProcessResult {
                text: processed_text,
                processing_time_ms: elapsed_ms(start, end),
                used_gpu: false,
            },
        )
    }

    /// Splits the text on sentence separators, drops blank sentences,
    /// trims and capitalizes each remaining sentence and collapses its
    /// whitespace, then joins the sentences with ". " and a final period.
    pub fn basic_postprocessing(&self, text: &str) -> (r: String)
        ensures
            r@ == spec_basic_postprocessing(text@),
    {
        let chars = str_to_chars(text);
        let n = chars.len();
        let mut pieces: Vec<Vec<char>> = Vec::new();
        let mut cur: Vec<char> = Vec::new();
        let mut i: usize = 0;
        proof {
            assert(chars@.skip(0) =~= chars@);
            assert(views_of(pieces@) =~= Seq::<Seq<char>>::empty());
            assert(views_of(pieces@) + sentences_acc(chars@, Seq::empty()) =~= sentences_acc(
                chars@,
                Seq::empty(),
            ));
        }
        while i < n
            invariant
                n == chars@.len(),
                i <= n,
                sentences(chars@) == views_of(pieces@) + sentences_acc(
                    chars@.skip(i as int),
                    cur@,
                ),
            decreases n - i,
        {
            let ghost rest = chars@.skip(i as int);
            proof {
                assert(rest[0] == chars@[i as int]);
                assert(rest.drop_first() =~= chars@.skip(i as int + 1));
            }
            let c = chars[i];
            if c == '.' || c == '!' || c == '?' {
                let ghost prev = views_of(pieces@);
                let ghost w = cur@;
                proof {
                    assert(sentences_acc(rest, w) == seq![w] + sentences_acc(
                        rest.drop_first(),
                        Seq::empty(),
                    ));
                }
                pieces.push(cur);
                cur = Vec::new();
                proof {
                    assert(views_of(pieces@) =~= prev.push(w));
                    assert(prev + (seq![w] + sentences_acc(rest.drop_first(), Seq::empty()))
                        =~= prev.push(w) + sentences_acc(rest.drop_first(), Seq::empty()));
                }
            } else {
                proof {
                    assert(sentences_acc(rest, cur@) == sentences_acc(
                        rest.drop_first(),
                        cur@.push(rest[0]),
                    ));
                }
                cur.push(c);
            }
            i = i + 1;
        }
        proof {
            assert(chars@.skip(n as int) =~= Seq::<char>::empty());
        }
        let ghost prev = views_of(pieces@);
        let ghost w = cur@;
        pieces.push(cur);
        proof {
            assert(views_of(pieces@) =~= prev.push(w));
            assert(prev + seq![w] =~= prev.push(w));
        }
        // normalize the non-blank pieces
        let ghost all = views_of(pieces@);
        let m = pieces.len();
        let mut processed: Vec<Vec<char>> = Vec::new();
        let mut j: usize = 0;
        proof {
            assert(all.skip(0) =~= all);
            assert(views_of(processed@) =~= Seq::<Seq<char>>::empty());
            assert(views_of(processed@) + kept_processed(all) =~= kept_processed(all));
        }
        while j < m
            invariant
                m == pieces@.len(),
                all == views_of(pieces@),
                j <= m,
                kept_processed(all) == views_of(processed@) + kept_processed(
                    all.skip(j as int),
                ),
            decreases m - j,
        {
            let ghost tail = all.skip(j as int);
            proof {
                assert(tail[0] == pieces@[j as int]@);
                assert(tail.drop_first() =~= all.skip(j as int + 1));
            }
            let t = trim_chars(&pieces[j]);
            if t.len() > 0 {
                let capped = capitalized_chars(&t);
                let the_words = split_words(&capped);
                let mut sep: Vec<char> = Vec::new();
                sep.push(' ');
                proof {
                    assert(sep@ =~= seq![' ']);
                }
                let collapsed_piece = join_pieces(&the_words, &sep);
                let ghost prev2 = views_of(processed@);
                let ghost p = collapsed_piece@;
                proof {
                    assert(p == processed_sentence(tail[0]));
                    assert(kept_processed(tail) == seq![p] + kept_processed(tail.drop_first()));
                }
                processed.push(collapsed_piece);
                proof {
                    assert(views_of(processed@) =~= prev2.push(p));
                    assert(prev2 + (seq![p] + kept_processed(tail.drop_first())) =~= prev2.push(
                        p,
                    ) + kept_processed(tail.drop_first()));
                }
            } else {
                proof {
                    assert(kept_processed(tail) == kept_processed(tail.drop_first()));
                }
            }
            j = j + 1;
        }
        proof {
            assert(all.skip(m as int) =~= Seq::<Seq<char>>::empty());
            assert(views_of(processed@) + Seq::<Seq<char>>::empty() =~= views_of(processed@));
        }
        // join the sentences back
        let mut sep: Vec<char> = Vec::new();
        sep.push('.');
        sep.push(' ');
        proof {
            assert(sep@ =~= seq!['.', ' ']);
        }
        let mut out = join_pieces(&processed, &sep);
        out.push('.');
        proof {
            assert(out@ =~= spec_basic_postprocessing(text@));
        }
        chars_to_string(&out)
    }

    /// Whether the backend has been initialized.
    pub fn is_ready(&self) -> (r: bool)
        ensures
            r == self.ready(),
    {
        self.is_initialized
    }

    /// The capability's configuration.
    pub fn config(&self) -> (r: &BertConfig)
        ensures
            r == self.spec_config(),
    {
        &self.config
    }
}

} // verus!
