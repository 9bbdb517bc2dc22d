//! The speech-recognition context: what is loaded, the last error, and the
//! decisions taken between the stages of loading and of transcription.
//!
//! The stages themselves (reading files, running the model) are done by the
//! caller; each function here takes what a stage produced and answers with the
//! next stage to run, or with the status code that ends the request.

use vstd::prelude::*;
use vstd::string::*;
use crate::mel::{too_short_text, mel_grid, mel_major, frame_rows, mel_frames_fit, MelGrid};
use crate::tokens::{filter_text_tokens, text_tokens};
use crate::report::{contains_nul, has_nul, opt_text, stored_error, panic_text, panic_message, store_error, with_detail, PanicPayload};

verus! {

/// The status code of a request that succeeded.
pub const STATUS_OK: i32 = 0;

/// The status code of a request that failed.
pub const STATUS_FAILED: i32 = -1;

/// The sample rate the model listens at.
pub const MODEL_SAMPLE_RATE: u32 = 16000;

/// A speech-recognition context: the model and the text tokenizer once loaded,
/// and the text of the last error.
pub struct VoxtralCtx<M, T> {
    model: Option<M>,
    tokenizer: Option<T>,
    last_error: Option<String>,
}

/// The abstract state of a speech-recognition context.
pub struct AsrState<M, T> {
    pub model: Option<M>,
    pub tokenizer: Option<T>,
    pub last_error: Option<Seq<char>>,
}

impl<M, T> View for VoxtralCtx<M, T> {
    type V = AsrState<M, T>;

    closed spec fn view(&self) -> AsrState<M, T> {
        AsrState { model: self.model, tokenizer: self.tokenizer, last_error: opt_text(self.last_error) }
    }
}

/// A fresh context: nothing loaded, no error.
pub open spec fn asr_initial<M, T>() -> AsrState<M, T> {
    AsrState { model: None, tokenizer: None, last_error: None }
}

/// `s` with `msg` stored as its last error.
pub open spec fn asr_with_error<M, T>(s: AsrState<M, T>, msg: Seq<char>) -> AsrState<M, T> {
    AsrState { last_error: stored_error(msg), ..s }
}

/// The text reported for a panic in the speech-recognition library.
pub open spec fn asr_panic_text(p: PanicPayload) -> Seq<char> {
    panic_text(p, "Unknown panic in voxtral library"@)
}

/// Creates a context with nothing loaded and no error.
pub fn voxtral_create<M, T>() -> (r: VoxtralCtx<M, T>)
    ensures
        r@ == asr_initial::<M, T>(),
{
    VoxtralCtx { model: None, tokenizer: None, last_error: None }
}

impl<M, T> VoxtralCtx<M, T> {
    /// Records `msg` as the last error; a text with a NUL character clears it.
    pub fn set_error(&mut self, msg: String)
        ensures
            final(self)@ == asr_with_error(old(self)@, msg@),
    {
        store_error(&mut self.last_error, msg);
    }

    /// The text of the last error, if any.
    pub fn last_error(&self) -> (r: Option<&String>)
        ensures
            r matches Some(e) ==> self@.last_error == Some(e@),
            r is None ==> self@.last_error is None,
    {
        self.last_error.as_ref()
    }

    /// The loaded model, if any.
    pub fn model(&self) -> (r: Option<&M>)
        ensures
            r matches Some(m) ==> self@.model == Some(*m),
            r is None ==> self@.model is None,
    {
        self.model.as_ref()
    }

    /// The loaded text tokenizer, if any.
    pub fn tokenizer(&self) -> (r: Option<&T>)
        ensures
            r matches Some(t) ==> self@.tokenizer == Some(*t),
            r is None ==> self@.tokenizer is None,
    {
        self.tokenizer.as_ref()
    }
}

/// Records the message of a panic caught in the speech-recognition library.
pub fn set_ctx_error<M, T>(ctx: &mut VoxtralCtx<M, T>, payload: PanicPayload)
    ensures
        final(ctx)@ == asr_with_error(old(ctx)@, asr_panic_text(payload)),
{
    let msg = panic_message(payload, "Unknown panic in voxtral library");
    ctx.set_error(msg);
}

/// The text of the last error of the context, if any.
pub fn voxtral_last_error<M, T>(ctx: &VoxtralCtx<M, T>) -> (r: Option<&String>)
    ensures
        r matches Some(e) ==> ctx@.last_error == Some(e@),
        r is None ==> ctx@.last_error is None,
{
    ctx.last_error()
}

// ---------------------------------------------------------------------
// Loading the model and the tokenizer
// ---------------------------------------------------------------------

/// What a stage of loading produced.
pub enum LoadModelEvent<M, T> {
    /// The text tokenizer was read from its file, or could not be.
    TokenizerLoaded(Result<T, String>),
    /// The GGUF file was opened and its header parsed, or could not be.
    GgufParsed(Result<(), String>),
    /// The quantized weights were loaded onto the device, or could not be.
    WeightsLoaded(Result<M, String>),
    /// A stage panicked.
    Panicked(PanicPayload),
}

/// The next stage of loading, or the end of the request.
pub enum LoadModelAction {
    LoadTokenizer,
    ParseGguf,
    LoadWeights,
    Finish(i32),
}

/// The first stage of a load request: both paths are needed.
pub open spec fn load_model_first(gguf_path_given: bool, tokenizer_path_given: bool) -> LoadModelAction {
    if gguf_path_given && tokenizer_path_given {
        LoadModelAction::LoadTokenizer
    } else {
        LoadModelAction::Finish(STATUS_FAILED)
    }
}

/// The first decision of a load request: both paths are needed; without
/// them the request ends at once, the context untouched.
pub fn voxtral_load_model(gguf_path_given: bool, tokenizer_path_given: bool) -> (a: LoadModelAction)
    ensures
        a == load_model_first(gguf_path_given, tokenizer_path_given),
{
    if gguf_path_given && tokenizer_path_given {
        LoadModelAction::LoadTokenizer
    } else {
        LoadModelAction::Finish(STATUS_FAILED)
    }
}

/// The step of the load request: the new state and what comes next.
pub open spec fn load_model_next<M, T>(s: AsrState<M, T>, ev: LoadModelEvent<M, T>) -> (
    AsrState<M, T>,
    LoadModelAction,
) {
    match ev {
        LoadModelEvent::TokenizerLoaded(Ok(t)) => (
            AsrState { tokenizer: Some(t), ..s },
            LoadModelAction::ParseGguf,
        ),
        LoadModelEvent::TokenizerLoaded(Err(e)) => (
            asr_with_error(s, "Failed to load tokenizer: "@ + e@),
            LoadModelAction::Finish(STATUS_FAILED),
        ),
        LoadModelEvent::GgufParsed(Ok(())) => (s, LoadModelAction::LoadWeights),
        LoadModelEvent::GgufParsed(Err(e)) => (
            asr_with_error(s, "Failed to parse GGUF: "@ + e@),
            LoadModelAction::Finish(STATUS_FAILED),
        ),
        LoadModelEvent::WeightsLoaded(Ok(m)) => (
            AsrState { model: Some(m), ..s },
            LoadModelAction::Finish(STATUS_OK),
        ),
        LoadModelEvent::WeightsLoaded(Err(e)) => (
            asr_with_error(s, "Failed to load Q4 model: "@ + e@),
            LoadModelAction::Finish(STATUS_FAILED),
        ),
        LoadModelEvent::Panicked(p) => (
            asr_with_error(s, asr_panic_text(p)),
            LoadModelAction::Finish(STATUS_FAILED),
        ),
    }
}

/// Takes what a stage of loading produced: a loaded part is kept at once (a
/// tokenizer stays loaded when the model then fails), a failure is recorded
/// with the stage's own lead text.
pub fn load_model_step<M, T>(ctx: &mut VoxtralCtx<M, T>, event: LoadModelEvent<M, T>) -> (a: LoadModelAction)
    ensures
        (final(ctx)@, a) == load_model_next(old(ctx)@, event),
{
    match event {
        LoadModelEvent::TokenizerLoaded(Ok(t)) => {
            ctx.tokenizer = Some(t);
            LoadModelAction::ParseGguf
        },
        LoadModelEvent::TokenizerLoaded(Err(e)) => {
            ctx.set_error(with_detail("Failed to load tokenizer: ", e.as_str()));
            LoadModelAction::Finish(STATUS_FAILED)
        },
        LoadModelEvent::GgufParsed(Ok(())) => LoadModelAction::LoadWeights,
        LoadModelEvent::GgufParsed(Err(e)) => {
            ctx.set_error(with_detail("Failed to parse GGUF: ", e.as_str()));
            LoadModelAction::Finish(STATUS_FAILED)
        },
        LoadModelEvent::WeightsLoaded(Ok(m)) => {
            ctx.model = Some(m);
            LoadModelAction::Finish(STATUS_OK)
        },
        LoadModelEvent::WeightsLoaded(Err(e)) => {
            ctx.set_error(with_detail("Failed to load Q4 model: ", e.as_str()));
            LoadModelAction::Finish(STATUS_FAILED)
        },
        LoadModelEvent::Panicked(p) => {
            set_ctx_error(ctx, p);
            LoadModelAction::Finish(STATUS_FAILED)
        },
    }
}

// ---------------------------------------------------------------------
// Transcription
// ---------------------------------------------------------------------

/// What a stage of transcription produced.
pub enum TranscribeEvent<F> {
    /// The audio is in memory, at this sample rate; or the WAV file could not
    /// be read.
    AudioLoaded(Result<u32, String>),
    /// The audio was resampled to the model's rate, or could not be.
    Resampled(Result<(), String>),
    /// The log-mel frames of the normalized, padded audio, and the value that
    /// stands for a missing bin.
    MelFrames { frames: Vec<Vec<F>>, fill: F },
    /// The ids the streaming decoder generated.
    TokensGenerated(Vec<i32>),
    /// The text the tokenizer decoded, or why it could not.
    Decoded(Result<String, String>),
    /// A stage panicked.
    Panicked(PanicPayload),
}

/// The next stage of transcription, or the end of the request.
pub enum TranscribeAction<F> {
    /// Read the WAV file.
    LoadWav,
    /// Take this many samples at this rate from the caller's buffer.
    UseSamples { count: usize, sample_rate: u32 },
    /// Resample the audio to the model's rate.
    Resample,
    /// Normalize the audio to its peak, pad it, and compute its log-mel frames.
    ComputeMel,
    /// Run the encoder and the streaming decoder on this log-mel input.
    RunModel(MelGrid<F>),
    /// Decode these text tokens.
    Decode(Vec<u32>),
    /// End the request with this status, handing out this text.
    Finish { code: i32, text: Option<String> },
}

/// The abstract next stage of transcription.
pub enum TranscribeStep<F> {
    LoadWav,
    UseSamples { count: usize, sample_rate: u32 },
    Resample,
    ComputeMel,
    RunModel { mel: Seq<F>, n_mels: nat, n_frames: nat },
    Decode(Seq<u32>),
    Finish { code: i32, text: Option<Seq<char>> },
}

impl<F> View for TranscribeAction<F> {
    type V = TranscribeStep<F>;

    open spec fn view(&self) -> TranscribeStep<F> {
        match self {
            TranscribeAction::LoadWav => TranscribeStep::LoadWav,
            TranscribeAction::UseSamples { count, sample_rate } => TranscribeStep::UseSamples {
                count: *count,
                sample_rate: *sample_rate,
            },
            TranscribeAction::Resample => TranscribeStep::Resample,
            TranscribeAction::ComputeMel => TranscribeStep::ComputeMel,
            TranscribeAction::RunModel(g) => TranscribeStep::RunModel {
                mel: g.values@,
                n_mels: g.n_mels as nat,
                n_frames: g.n_frames as nat,
            },
            TranscribeAction::Decode(t) => TranscribeStep::Decode(t@),
            TranscribeAction::Finish { code, text } => TranscribeStep::Finish {
                code: *code,
                text: opt_text(*text),
            },
        }
    }
}

/// A transcription request that ends in failure with `msg` recorded.
pub open spec fn transcribe_fail<M, T, F>(s: AsrState<M, T>, msg: Seq<char>) -> (
    AsrState<M, T>,
    TranscribeStep<F>,
) {
    (asr_with_error(s, msg), TranscribeStep::Finish { code: STATUS_FAILED, text: None })
}

/// Once the audio is at the model's rate: the model and then the tokenizer
/// must be loaded before any work on the audio.
pub open spec fn transcribe_when_ready<M, T, F>(s: AsrState<M, T>) -> (AsrState<M, T>, TranscribeStep<F>) {
    if s.model is None {
        transcribe_fail(s, "Model not loaded. Call voxtral_load_model first."@)
    } else if s.tokenizer is None {
        transcribe_fail(s, "Tokenizer not loaded."@)
    } else {
        (s, TranscribeStep::ComputeMel)
    }
}

/// The first step of transcribing a WAV file.
pub open spec fn transcribe_file_start<M, T, F>(s: AsrState<M, T>, path_given: bool) -> (
    AsrState<M, T>,
    TranscribeStep<F>,
) {
    if path_given {
        (s, TranscribeStep::LoadWav)
    } else {
        transcribe_fail(s, "wav_path is null"@)
    }
}

/// Whether the caller's description of a sample buffer can be used.
pub open spec fn pcm_params_valid(samples_given: bool, num_samples: i32, sample_rate: i32) -> bool {
    samples_given && num_samples > 0 && sample_rate > 0
}

/// The first step of transcribing samples from the caller's buffer.
pub open spec fn transcribe_pcm_start<M, T, F>(
    s: AsrState<M, T>,
    samples_given: bool,
    num_samples: i32,
    sample_rate: i32,
) -> (AsrState<M, T>, TranscribeStep<F>) {
    if pcm_params_valid(samples_given, num_samples, sample_rate) {
        (s, TranscribeStep::UseSamples { count: num_samples as usize, sample_rate: sample_rate as u32 })
    } else {
        transcribe_fail(s, "Invalid PCM parameters"@)
    }
}

/// The step of a transcription request: the new state and what comes next.
pub open spec fn transcribe_next<M, T, F>(s: AsrState<M, T>, ev: TranscribeEvent<F>) -> (
    AsrState<M, T>,
    TranscribeStep<F>,
) {
    match ev {
        TranscribeEvent::AudioLoaded(Ok(rate)) => if rate != MODEL_SAMPLE_RATE {
            (s, TranscribeStep::Resample)
        } else {
            transcribe_when_ready(s)
        },
        TranscribeEvent::AudioLoaded(Err(e)) => transcribe_fail(s, "Failed to load WAV file: "@ + e@),
        TranscribeEvent::Resampled(Ok(())) => transcribe_when_ready(s),
        TranscribeEvent::Resampled(Err(e)) => transcribe_fail(s, "Failed to resample audio: "@ + e@),
        TranscribeEvent::MelFrames { frames, fill } => if frames.len() == 0 {
            transcribe_fail(s, too_short_text())
        } else {
            (s, TranscribeStep::RunModel {
                mel: mel_major(frame_rows(frames@), fill),
                n_mels: frames@[0].len() as nat,
                n_frames: frames.len() as nat,
            })
        },
        TranscribeEvent::TokensGenerated(tokens) => (s, TranscribeStep::Decode(text_tokens(tokens@))),
        TranscribeEvent::Decoded(Ok(text)) => if has_nul(text@) {
            transcribe_fail(s, "Transcription result contains null byte"@)
        } else {
            (s, TranscribeStep::Finish { code: STATUS_OK, text: Some(text@) })
        },
        TranscribeEvent::Decoded(Err(e)) => transcribe_fail(s, "Failed to decode tokens: "@ + e@),
        TranscribeEvent::Panicked(p) => transcribe_fail(s, asr_panic_text(p)),
    }
}

/// Whether the event can be taken: log-mel frames must fit the layout.
pub open spec fn transcribe_event_ok<F>(ev: TranscribeEvent<F>) -> bool {
    ev matches TranscribeEvent::MelFrames { frames, .. } ==> mel_frames_fit(frame_rows(frames@))
}

/// Ends a transcription request in failure, recording `msg`.
fn fail_transcription<M, T, F>(ctx: &mut VoxtralCtx<M, T>, msg: String) -> (a: TranscribeAction<F>)
    ensures
        (final(ctx)@, a@) == transcribe_fail::<M, T, F>(old(ctx)@, msg@),
{
    ctx.set_error(msg);
    TranscribeAction::Finish { code: STATUS_FAILED, text: None }
}

/// Checks that the model and the tokenizer are loaded before the audio is
/// worked on.
fn continue_when_ready<M, T, F>(ctx: &mut VoxtralCtx<M, T>) -> (a: TranscribeAction<F>)
    ensures
        (final(ctx)@, a@) == transcribe_when_ready::<M, T, F>(old(ctx)@),
{
    if ctx.model.is_none() {
        fail_transcription(ctx, String::from_str("Model not loaded. Call voxtral_load_model first."))
    } else if ctx.tokenizer.is_none() {
        fail_transcription(ctx, String::from_str("Tokenizer not loaded."))
    } else {
        TranscribeAction::ComputeMel
    }
}

/// Starts the transcription of a WAV file; without a path the request fails.
pub fn voxtral_transcribe_file<M, T, F>(ctx: &mut VoxtralCtx<M, T>, path_given: bool) -> (a: TranscribeAction<F>)
    ensures
        (final(ctx)@, a@) == transcribe_file_start::<M, T, F>(old(ctx)@, path_given),
{
    if path_given {
        TranscribeAction::LoadWav
    } else {
        fail_transcription(ctx, String::from_str("wav_path is null"))
    }
}

/// Starts the transcription of samples in the caller's buffer: the buffer must
/// be given, and the count and the rate positive.
pub fn voxtral_transcribe_pcm<M, T, F>(
    ctx: &mut VoxtralCtx<M, T>,
    samples_given: bool,
    num_samples: i32,
    sample_rate: i32,
) -> (a: TranscribeAction<F>)
    ensures
        (final(ctx)@, a@) == transcribe_pcm_start::<M, T, F>(
            old(ctx)@,
            samples_given,
            num_samples,
            sample_rate,
        ),
{
    if !samples_given || num_samples <= 0 || sample_rate <= 0 {
        fail_transcription(ctx, String::from_str("Invalid PCM parameters"))
    } else {
        TranscribeAction::UseSamples { count: num_samples as usize, sample_rate: sample_rate as u32 }
    }
}

/// Takes what a stage of transcription produced and answers with the next
/// stage, or ends the request.
pub fn transcribe_step<M, T, F: Copy>(ctx: &mut VoxtralCtx<M, T>, event: TranscribeEvent<F>) -> (a: TranscribeAction<F>)
    requires
        transcribe_event_ok(event),
    ensures
        (final(ctx)@, a@) == transcribe_next(old(ctx)@, event),
{
    match event {
        TranscribeEvent::AudioLoaded(Ok(rate)) => {
            if rate != MODEL_SAMPLE_RATE {
                TranscribeAction::Resample
            } else {
                continue_when_ready(ctx)
            }
        },
        TranscribeEvent::AudioLoaded(Err(e)) => {
            fail_transcription(ctx, with_detail("Failed to load WAV file: ", e.as_str()))
        },
        TranscribeEvent::Resampled(Ok(())) => continue_when_ready(ctx),
        TranscribeEvent::Resampled(Err(e)) => {
            fail_transcription(ctx, with_detail("Failed to resample audio: ", e.as_str()))
        },
        TranscribeEvent::MelFrames { frames, fill } => {
            match mel_grid(&frames, fill) {
                Ok(g) => TranscribeAction::RunModel(g),
                Err(e) => fail_transcription(ctx, e),
            }
        },
        TranscribeEvent::TokensGenerated(tokens) => TranscribeAction::Decode(filter_text_tokens(&tokens)),
        TranscribeEvent::Decoded(Ok(text)) => {
            if contains_nul(text.as_str()) {
                fail_transcription(ctx, String::from_str("Transcription result contains null byte"))
            } else {
                TranscribeAction::Finish { code: STATUS_OK, text: Some(text) }
            }
        },
        TranscribeEvent::Decoded(Err(e)) => {
            fail_transcription(ctx, with_detail("Failed to decode tokens: ", e.as_str()))
        },
        TranscribeEvent::Panicked(p) => {
            let msg = panic_message(p, "Unknown panic in voxtral library");
            fail_transcription(ctx, msg)
        },
    }
}

} // verus!
