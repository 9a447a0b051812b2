//! The transcription engine gateway: it owns the single engine instance's
//! inference configuration and serializes access to the engine.
//!
//! The engine itself (the loaded model context) is an outside concern; the
//! gateway prepares each inference request (sample conversion, decoding
//! parameters), records the exclusive-access discipline, and assembles the
//! engine's segments into one transcript. A ghost log of call intervals
//! witnesses that no two inference calls ever overlap.

use vstd::prelude::*;

use crate::chars::{append_chars, chars_eq, chars_to_string, str_to_chars, trim_chars, trimmed};
use crate::config::WhisperConfig;

verus! {

/// The decoding parameters handed to the engine for one inference call.
pub struct EngineParams {
    /// Number of inference threads.
    pub n_threads: i32,
    /// Beam width for beam search.
    pub beam_size: i32,
    /// Beam search when true, greedy decoding otherwise.
    pub use_beam_search: bool,
    /// The fixed target language.
    pub language: String,
    /// Whether the engine should translate; always off — the service
    /// recognizes speech, it does not translate it.
    pub translate: bool,
}

/// One prepared inference request: the engine's native samples and the
/// decoding parameters.
pub struct InferenceRequest {
    /// The samples, widened to the engine's native integer representation.
    pub samples: Vec<i32>,
    /// The decoding parameters.
    pub params: EngineParams,
}

/// A segment sequence joined the way the engine's output is assembled:
/// each segment trimmed and followed by one space, then the whole trimmed.
pub open spec fn spec_join_segments(segs: Seq<Seq<char>>) -> Seq<char> {
    trimmed(concat_trimmed(segs))
}

/// Each segment trimmed and followed by one space, concatenated.
pub open spec fn concat_trimmed(segs: Seq<Seq<char>>) -> Seq<char>
    decreases segs.len(),
{
    if segs.len() == 0 {
        Seq::empty()
    } else {
        trimmed(segs[0]) + seq![' '] + concat_trimmed(segs.drop_first())
    }
}

/// Joins the engine's output segments with single-space separation and
/// trims the ends.
pub fn join_segments(segments: &Vec<String>) -> (r: String)
    ensures
        r@ == spec_join_segments(segments@.map_values(|s: String| s@)),
{
    let ghost all = segments@.map_values(|s: String| s@);
    let n = segments.len();
    let mut out: Vec<char> = Vec::new();
    let mut i: usize = 0;
    proof {
        assert(all.skip(0) =~= all);
        assert(Seq::<char>::empty() + concat_trimmed(all) =~= concat_trimmed(all));
    }
    while i < n
        invariant
            n == segments@.len(),
            all == segments@.map_values(|s: String| s@),
            i <= n,
            concat_trimmed(all) == out@ + concat_trimmed(all.skip(i as int)),
        decreases n - i,
    {
        let ghost tail = all.skip(i as int);
        proof {
            assert(tail[0] == segments@[i as int]@);
            assert(tail.drop_first() =~= all.skip(i as int + 1));
        }
        let ghost prev_out = out@;
        let seg_chars = str_to_chars(segments[i].as_str());
        let t = trim_chars(&seg_chars);
        append_chars(&mut out, &t);
        out.push(' ');
        proof {
            assert(concat_trimmed(tail) == trimmed(tail[0]) + seq![' '] + concat_trimmed(
                tail.drop_first(),
            ));
            assert(out@ =~= prev_out + trimmed(tail[0]) + seq![' ']);
            assert(prev_out + concat_trimmed(tail) =~= out@ + concat_trimmed(tail.drop_first()));
        }
        i = i + 1;
    }
    proof {
        assert(all.skip(n as int) =~= Seq::<Seq<char>>::empty());
        assert(out@ + Seq::<char>::empty() =~= out@);
    }
    let r = trim_chars(&out);
    chars_to_string(&r)
}

/// The gateway that owns the engine's configuration and serializes access
/// to the single engine instance.
///
/// Ghost state records a logical clock, the interval of every completed
/// inference call, and — while a call is in flight — when it began.
pub struct WhisperModel {
    config: WhisperConfig,
    busy: bool,
    completed: u64,
    clock: Ghost<nat>,
    started_at: Ghost<nat>,
    history: Ghost<Seq<(nat, nat)>>,
}

impl WhisperModel {
    /// The inference configuration, for contracts.
    pub closed spec fn spec_config(&self) -> WhisperConfig {
        self.config
    }

    /// Whether an inference call is in flight, for contracts.
    pub closed spec fn spec_busy(&self) -> bool {
        self.busy
    }

    /// How many inference calls have completed, for contracts.
    pub closed spec fn spec_completed(&self) -> u64 {
        self.completed
    }

    /// The intervals of the completed inference calls, in order.
    pub closed spec fn intervals(&self) -> Seq<(nat, nat)> {
        self.history@
    }

    /// The gateway's invariant: the recorded intervals are well-formed,
    /// in strictly increasing order and pairwise disjoint, and a call in
    /// flight began after every recorded interval ended.
    pub closed spec fn wf(&self) -> bool {
        &&& forall|i: int|
            0 <= i < self.history@.len() ==> (#[trigger] self.history@[i]).0
                <= self.history@[i].1
        &&& forall|i: int|
            0 <= i && i + 1 < self.history@.len() ==> (#[trigger] self.history@[i]).1
                < self.history@[i + 1].0
        &&& self.history@.len() > 0 ==> self.history@.last().1 <= self.clock@
        &&& self.busy ==> self.started_at@ <= self.clock@
        &&& (self.busy && self.history@.len() > 0) ==> self.history@.last().1
            < self.started_at@
        &&& self.history@.len() == self.completed
    }

    /// A gateway over a freshly loaded engine: idle, no calls recorded.
    pub fn new(config: WhisperConfig) -> (r: Self)
        ensures
            r.wf(),
            !r.spec_busy(),
            r.spec_completed() == 0,
            r.spec_config() == config,
            r.intervals() == Seq::<(nat, nat)>::empty(),
    {
        WhisperModel {
            config,
            busy: false,
            completed: 0,
            clock: Ghost(0),
            started_at: Ghost(0),
            history: Ghost(Seq::empty()),
        }
    }

    /// Takes exclusive access to the engine and prepares one inference
    /// request: samples widened to the engine's representation, decoding
    /// parameters taken from the configuration, translation off, the
    /// target language fixed.
    pub fn inference_request(&mut self, audio: &Vec<i16>) -> (r: InferenceRequest)
        requires
            old(self).wf(),
            !old(self).spec_busy(),
        ensures
            final(self).wf(),
            final(self).spec_busy(),
            final(self).spec_config() == old(self).spec_config(),
            final(self).spec_completed() == old(self).spec_completed(),
            final(self).intervals() == old(self).intervals(),
            r.samples@.len() == audio@.len(),
            forall|i: int| 0 <= i < audio@.len() ==> r.samples@[i] == audio@[i] as i32,
            r.params.n_threads == old(self).spec_config().n_threads,
            r.params.beam_size == old(self).spec_config().beam_size,
            r.params.use_beam_search == old(self).spec_config().use_beam_search,
            r.params.language@ == "ru"@,
            !r.params.translate,
    {
        let n = audio.len();
        let mut samples: Vec<i32> = Vec::new();
        let mut i: usize = 0;
        while i < n
            invariant
                n == audio@.len(),
                i <= n,
                samples@.len() == i,
                forall|j: int| 0 <= j < i ==> samples@[j] == audio@[j] as i32,
            decreases n - i,
        {
            samples.push(audio[i] as i32);
            i = i + 1;
        }
        self.busy = true;
        proof {
            self.clock@ = self.clock@ + 1;
            self.started_at@ = self.clock@;
        }
        InferenceRequest {
            samples,
            params: EngineParams {
                n_threads: self.config.n_threads,
                beam_size: self.config.beam_size,
                use_beam_search: self.config.use_beam_search,
                language: "ru".to_owned(),
                translate: false,
            },
        }
    }

    /// Releases exclusive access after the engine answered, recording the
    /// call's interval, and assembles the outcome: segments are joined
    /// with single-space separation and trimmed (an empty transcript is a
    /// valid result), and an engine failure is reported per-request
    /// without tearing the gateway down.
    pub fn inference_response(&mut self, outcome: Result<Vec<String>, String>) -> (r: Result<
        String,
        String,
    >)
        requires
            old(self).wf(),
            old(self).spec_busy(),
            old(self).spec_completed() < u64::MAX,
        ensures
            final(self).wf(),
            !final(self).spec_busy(),
            final(self).spec_config() == old(self).spec_config(),
            final(self).spec_completed() == old(self).spec_completed() + 1,
            final(self).intervals().len() == old(self).intervals().len() + 1,
            forall|i: int|
                0 <= i < old(self).intervals().len() ==> final(self).intervals()[i] == old(
                    self,
                ).intervals()[i],
            outcome matches Ok(segs) ==> (r matches Ok(t) && t@ == spec_join_segments(
                segs@.map_values(|s: String| s@),
            )),
            outcome matches Err(e) ==> (r matches Err(m) && m@
                == "Не удалось выполнить транскрипцию: "@ + e@),
    {
        self.busy = false;
        self.completed = self.completed + 1;
        proof {
            self.clock@ = self.clock@ + 1;
            self.history@ = self.history@.push((self.started_at@, self.clock@));
            let h = self.history@;
            let prev = old(self).history@;
            assert(h.last() == (old(self).started_at@, old(self).clock@ + 1));
            assert forall|i: int| 0 <= i < h.len() implies (#[trigger] h[i]).0 <= h[i].1 by {
                if i < h.len() - 1 {
                    assert(h[i] == prev[i]);
                }
            }
            assert forall|i: int| 0 <= i && i + 1 < h.len() implies (#[trigger] h[i]).1 < h[
                i + 1
            ].0 by {
                if i + 1 < h.len() - 1 {
                    assert(h[i] == prev[i]);
                    assert(h[i + 1] == prev[i + 1]);
                } else {
                    assert(h[i] == prev[prev.len() - 1]);
                    assert(prev.last().1 < old(self).started_at@);
                }
            }
        }
        match outcome {
            Ok(segs) => Ok(join_segments(&segs)),
            Err(e) => {
                let mut m = "Не удалось выполнить транскрипцию: ".to_owned();
                m.append(e.as_str());
                Err(m)
            },
        }
    }

    /// The decision behind loading: from the fact whether the model file is
    /// present, either the fresh idle gateway with the given configuration,
    /// or the missing-model report — success exactly on presence.
    pub fn load_outcome(model_path: &str, present: bool, config: WhisperConfig) -> (r: Result<
        Self,
        String,
    >)
        ensures
            r is Ok <==> present,
            r matches Ok(m) ==> {
                &&& m.wf()
                &&& !m.spec_busy()
                &&& m.spec_completed() == 0
                &&& m.spec_config() == config
                &&& m.intervals() == Seq::<(nat, nat)>::empty()
            },
            r matches Err(e) ==> e@ == spec_load_error_message(model_path@),
    {
        if !present {
            let mut m = "Модель Whisper не найдена по пути: ".to_owned();
            m.append(model_path);
            m.append(
                "\n\nДля работы с Whisper High Quality необходимо:\n1. Создать папку 'models' в корне проекта\n2. Скачать модель ggml-large-v3.bin (около 3GB)\n\nСпособы скачивания:\n- HuggingFace: https://huggingface.co/ggerganov/whisper.cpp/resolve/main/ggml-large-v3.bin\n- Или используйте команду:\n  mkdir -p models && curl -L -o models/ggml-large-v3.bin https://huggingface.co/ggerganov/whisper.cpp/resolve/main/ggml-large-v3.bin\n\nПосле скачивания перезапустите сервер.",
            );
            return Err(m);
        }
        Ok(Self::new(config))
    }

    /// Loads the gateway for the engine at `model_path`: looks for the file
    /// on disk (an outside concern; nothing is promised of what is found)
    /// and decides with `load_outcome`, so success comes exactly where the
    /// file was found. Creating the engine's own context out of the file is
    /// the caller's part.
    pub fn load(model_path: &str, config: WhisperConfig) -> (r: Result<Self, String>)
        ensures
            r matches Ok(m) ==> {
                &&& m.wf()
                &&& !m.spec_busy()
                &&& m.spec_completed() == 0
                &&& m.spec_config() == config
                &&& m.intervals() == Seq::<(nat, nat)>::empty()
            },
            r matches Err(e) ==> e@ == spec_load_error_message(model_path@),
    {
        let present = crate::config::path_exists(model_path);
        Self::load_outcome(model_path, present, config)
    }

    /// Whether an inference call is in flight.
    pub fn is_busy(&self) -> (r: bool)
        ensures
            r == self.spec_busy(),
    {
        self.busy
    }

    /// How many inference calls have completed.
    pub fn completed_calls(&self) -> (r: u64)
        ensures
            r == self.spec_completed(),
    {
        self.completed
    }
}

/// Law: the engine is entered by at most one caller at a time — every two
/// recorded inference calls of a well-formed gateway occupy disjoint
/// intervals, the earlier one ending strictly before the later one begins.
pub proof fn lemma_inference_calls_never_overlap(m: WhisperModel, i: int, j: int)
    requires
        m.wf(),
        0 <= i < j < m.intervals().len(),
    ensures
        m.intervals()[i].1 < m.intervals()[j].0,
    decreases j - i,
{
    if i + 1 == j {
    } else {
        lemma_inference_calls_never_overlap(m, i + 1, j);
    }
}

/// The report given when the engine's model file is absent at load time:
/// the path looked at, and how to provision the file.
pub open spec fn spec_load_error_message(path: Seq<char>) -> Seq<char> {
    "Модель Whisper не найдена по пути: "@ + path
        + "\n\nДля работы с Whisper High Quality необходимо:\n1. Создать папку 'models' в корне проекта\n2. Скачать модель ggml-large-v3.bin (около 3GB)\n\nСпособы скачивания:\n- HuggingFace: https://huggingface.co/ggerganov/whisper.cpp/resolve/main/ggml-large-v3.bin\n- Или используйте команду:\n  mkdir -p models && curl -L -o models/ggml-large-v3.bin https://huggingface.co/ggerganov/whisper.cpp/resolve/main/ggml-large-v3.bin\n\nПосле скачивания перезапустите сервер."@
}

/// Whether the speech-recognition engine should use a GPU, from the value
/// of the device-selection setting: only "gpu" and "cuda" select one; any
/// other value (including the default "cpu") selects the processor.
pub fn use_gpu_for_device(device: &str) -> (r: bool)
    ensures
        r == (device@ == "gpu"@ || device@ == "cuda"@),
{
    let d = str_to_chars(device);
    let gpu = str_to_chars("gpu");
    let cuda = str_to_chars("cuda");
    chars_eq(&d, &gpu) || chars_eq(&d, &cuda)
}

} // verus!
