//! The speech-synthesis context: the parts of the model, the voice, the
//! tokenizer, the last error, and the decisions taken between the stages of
//! loading and of speaking.

use vstd::prelude::*;
use vstd::string::*;
use crate::asr::{STATUS_OK, STATUS_FAILED};
use crate::prompt::{
    acoustic_codes, codec_codes, prompt_pieces, semantic_codes, speech_prompt, speech_prompt_spec,
    GeneratedFrame, PromptPart, PromptPiece, TtsSpecialTokens,
};
use crate::report::{opt_text, panic_message, panic_text, store_error, stored_error, with_detail, PanicPayload};

verus! {

/// The sample rate of synthesized speech.
pub const TTS_SAMPLE_RATE: i32 = 24000;

/// The most frames one request may generate.
pub const MAX_SPEECH_FRAMES: usize = 750;

/// The acoustic levels the codec reads per frame.
pub const ACOUSTIC_LEVELS_PER_FRAME: usize = 36;

/// The width of a voice embedding.
pub const VOICE_EMBED_DIM: usize = 3072;

/// A speech-synthesis context. The backbone, the flow-matching transformer,
/// the codec and the codebook embeddings come from one model file; the voice
/// and the tokenizer are loaded on their own.
pub struct VoxtralTtsCtx<B, Fm, C, K, V, T> {
    backbone: Option<B>,
    fm: Option<Fm>,
    codec: Option<C>,
    codebook: Option<K>,
    voice_embed: Option<V>,
    tokenizer: Option<T>,
    last_error: Option<String>,
}

/// The abstract state of a speech-synthesis context.
pub struct TtsState<B, Fm, C, K, V, T> {
    pub backbone: Option<B>,
    pub fm: Option<Fm>,
    pub codec: Option<C>,
    pub codebook: Option<K>,
    pub voice_embed: Option<V>,
    pub tokenizer: Option<T>,
    pub last_error: Option<Seq<char>>,
}

impl<B, Fm, C, K, V, T> View for VoxtralTtsCtx<B, Fm, C, K, V, T> {
    type V = TtsState<B, Fm, C, K, V, T>;

    closed spec fn view(&self) -> TtsState<B, Fm, C, K, V, T> {
        TtsState {
            backbone: self.backbone,
            fm: self.fm,
            codec: self.codec,
            codebook: self.codebook,
            voice_embed: self.voice_embed,
            tokenizer: self.tokenizer,
            last_error: opt_text(self.last_error),
        }
    }
}

/// The four parts one model file provides.
pub struct TtsModelParts<B, Fm, C, K> {
    pub backbone: B,
    pub fm: Fm,
    pub codec: C,
    pub codebook: K,
}

/// A fresh context: nothing loaded, no error.
pub open spec fn tts_initial<B, Fm, C, K, V, T>() -> TtsState<B, Fm, C, K, V, T> {
    TtsState {
        backbone: None,
        fm: None,
        codec: None,
        codebook: None,
        voice_embed: None,
        tokenizer: None,
        last_error: None,
    }
}

/// `s` with `msg` stored as its last error.
pub open spec fn tts_with_error<B, Fm, C, K, V, T>(s: TtsState<B, Fm, C, K, V, T>, msg: Seq<char>) -> TtsState<
    B,
    Fm,
    C,
    K,
    V,
    T,
> {
    TtsState { last_error: stored_error(msg), ..s }
}

/// The text reported for a panic in the speech-synthesis library.
pub open spec fn tts_panic_text(p: PanicPayload) -> Seq<char> {
    panic_text(p, "Unknown panic in voxtral TTS library"@)
}

/// Creates a context with nothing loaded and no error.
pub fn voxtral_tts_create<B, Fm, C, K, V, T>() -> (r: VoxtralTtsCtx<B, Fm, C, K, V, T>)
    ensures
        r@ == tts_initial::<B, Fm, C, K, V, T>(),
{
    VoxtralTtsCtx {
        backbone: None,
        fm: None,
        codec: None,
        codebook: None,
        voice_embed: None,
        tokenizer: None,
        last_error: None,
    }
}

impl<B, Fm, C, K, V, T> VoxtralTtsCtx<B, Fm, C, K, V, T> {
    /// Records `msg` as the last error; a text with a NUL character clears it.
    pub fn set_error(&mut self, msg: String)
        ensures
            final(self)@ == tts_with_error(old(self)@, msg@),
    {
        store_error(&mut self.last_error, msg);
    }

    /// The text of the last error, if any.
    pub fn last_error(&self) -> (r: Option<&String>)
        ensures
            r matches Some(e) ==> self@.last_error == Some(e@),
            r is None ==> self@.last_error is None,
    {
        self.last_error.as_ref()
    }

    /// The backbone, if loaded.
    pub fn backbone(&self) -> (r: Option<&B>)
        ensures
            r matches Some(x) ==> self@.backbone == Some(*x),
            r is None ==> self@.backbone is None,
    {
        self.backbone.as_ref()
    }

    /// The flow-matching transformer, if loaded.
    pub fn fm(&self) -> (r: Option<&Fm>)
        ensures
            r matches Some(x) ==> self@.fm == Some(*x),
            r is None ==> self@.fm is None,
    {
        self.fm.as_ref()
    }

    /// The codec, if loaded.
    pub fn codec(&self) -> (r: Option<&C>)
        ensures
            r matches Some(x) ==> self@.codec == Some(*x),
            r is None ==> self@.codec is None,
    {
        self.codec.as_ref()
    }

    /// The codebook embeddings, if loaded.
    pub fn codebook(&self) -> (r: Option<&K>)
        ensures
            r matches Some(x) ==> self@.codebook == Some(*x),
            r is None ==> self@.codebook is None,
    {
        self.codebook.as_ref()
    }

    /// The voice embedding, if loaded.
    pub fn voice_embed(&self) -> (r: Option<&V>)
        ensures
            r matches Some(x) ==> self@.voice_embed == Some(*x),
            r is None ==> self@.voice_embed is None,
    {
        self.voice_embed.as_ref()
    }

    /// The tokenizer, if loaded.
    pub fn tokenizer(&self) -> (r: Option<&T>)
        ensures
            r matches Some(x) ==> self@.tokenizer == Some(*x),
            r is None ==> self@.tokenizer is None,
    {
        self.tokenizer.as_ref()
    }
}

/// Records the message of a panic caught in the speech-synthesis library.
pub fn set_tts_error<B, Fm, C, K, V, T>(ctx: &mut VoxtralTtsCtx<B, Fm, C, K, V, T>, payload: PanicPayload)
    ensures
        final(ctx)@ == tts_with_error(old(ctx)@, tts_panic_text(payload)),
{
    let msg = panic_message(payload, "Unknown panic in voxtral TTS library");
    ctx.set_error(msg);
}

/// The text of the last error of the context, if any.
pub fn voxtral_tts_last_error<B, Fm, C, K, V, T>(ctx: &VoxtralTtsCtx<B, Fm, C, K, V, T>) -> (r: Option<&String>)
    ensures
        r matches Some(e) ==> ctx@.last_error == Some(e@),
        r is None ==> ctx@.last_error is None,
{
    ctx.last_error()
}

// ---------------------------------------------------------------------
// Loading
// ---------------------------------------------------------------------

/// The next stage of a load request, or its end.
pub enum TtsLoadAction {
    /// Open the model file and parse its header.
    ParseGguf,
    /// Load the model's weights and build its four parts.
    LoadWeights,
    /// Read the tokenizer file.
    LoadTokenizer,
    /// Read the voice file.
    ReadVoiceFile,
    /// Decode the voice embedding of this width from the file's bytes.
    DecodeVoice { dim: usize },
    /// End the request with this status.
    Finish(i32),
}

/// The first decision of a request that needs a path: without one it ends at
/// once, the context untouched; with one, `first` is the first stage.
fn tts_load_start(path_given: bool, first: TtsLoadAction) -> (a: TtsLoadAction)
    ensures
        a == (if path_given { first } else { TtsLoadAction::Finish(STATUS_FAILED) }),
{
    if path_given {
        first
    } else {
        TtsLoadAction::Finish(STATUS_FAILED)
    }
}

/// The first stage of a model load request: a path is needed.
pub open spec fn tts_model_first(path_given: bool) -> TtsLoadAction {
    if path_given { TtsLoadAction::ParseGguf } else { TtsLoadAction::Finish(STATUS_FAILED) }
}

/// The first decision of a model load request.
pub fn voxtral_tts_load_model(path_given: bool) -> (a: TtsLoadAction)
    ensures
        a == tts_model_first(path_given),
{
    tts_load_start(path_given, TtsLoadAction::ParseGguf)
}

/// The first stage of a tokenizer load request: a path is needed.
pub open spec fn tts_tokenizer_first(path_given: bool) -> TtsLoadAction {
    if path_given { TtsLoadAction::LoadTokenizer } else { TtsLoadAction::Finish(STATUS_FAILED) }
}

/// The first decision of a tokenizer load request.
pub fn voxtral_tts_load_tokenizer(path_given: bool) -> (a: TtsLoadAction)
    ensures
        a == tts_tokenizer_first(path_given),
{
    tts_load_start(path_given, TtsLoadAction::LoadTokenizer)
}

/// The first stage of a voice load request: a path is needed.
pub open spec fn tts_voice_first(path_given: bool) -> TtsLoadAction {
    if path_given { TtsLoadAction::ReadVoiceFile } else { TtsLoadAction::Finish(STATUS_FAILED) }
}

/// The first decision of a voice load request.
pub fn voxtral_tts_load_voice(path_given: bool) -> (a: TtsLoadAction)
    ensures
        a == tts_voice_first(path_given),
{
    tts_load_start(path_given, TtsLoadAction::ReadVoiceFile)
}

/// What a stage of a load request produced.
pub enum TtsLoadEvent<B, Fm, C, K, V, T> {
    /// The model file's header was parsed, or could not be.
    GgufParsed(Result<(), String>),
    /// The model's four parts were built, or the weights could not be loaded.
    WeightsLoaded(Result<TtsModelParts<B, Fm, C, K>, String>),
    /// The tokenizer was read, or could not be.
    TokenizerLoaded(Result<T, String>),
    /// The voice file was read, or could not be.
    VoiceFileRead(Result<(), String>),
    /// The voice embedding was decoded, or could not be.
    VoiceLoaded(Result<V, String>),
    /// A stage panicked.
    Panicked(PanicPayload),
}

/// A load request that ends in failure with `msg` recorded.
pub open spec fn tts_load_fail<B, Fm, C, K, V, T>(s: TtsState<B, Fm, C, K, V, T>, msg: Seq<char>) -> (
    TtsState<B, Fm, C, K, V, T>,
    TtsLoadAction,
) {
    (tts_with_error(s, msg), TtsLoadAction::Finish(STATUS_FAILED))
}

/// The step of a load request: the new state and what comes next.
pub open spec fn tts_load_next<B, Fm, C, K, V, T>(
    s: TtsState<B, Fm, C, K, V, T>,
    ev: TtsLoadEvent<B, Fm, C, K, V, T>,
) -> (TtsState<B, Fm, C, K, V, T>, TtsLoadAction) {
    match ev {
        TtsLoadEvent::GgufParsed(Ok(())) => (s, TtsLoadAction::LoadWeights),
        TtsLoadEvent::GgufParsed(Err(e)) => tts_load_fail(s, "Failed to parse TTS GGUF: "@ + e@),
        TtsLoadEvent::WeightsLoaded(Ok(parts)) => (
            TtsState {
                backbone: Some(parts.backbone),
                fm: Some(parts.fm),
                codec: Some(parts.codec),
                codebook: Some(parts.codebook),
                ..s
            },
            TtsLoadAction::Finish(STATUS_OK),
        ),
        TtsLoadEvent::WeightsLoaded(Err(e)) => tts_load_fail(s, "Failed to load TTS model: "@ + e@),
        TtsLoadEvent::TokenizerLoaded(Ok(t)) => (
            TtsState { tokenizer: Some(t), ..s },
            TtsLoadAction::Finish(STATUS_OK),
        ),
        TtsLoadEvent::TokenizerLoaded(Err(e)) => tts_load_fail(s, "Failed to load TTS tokenizer: "@ + e@),
        TtsLoadEvent::VoiceFileRead(Ok(())) => (s, TtsLoadAction::DecodeVoice { dim: VOICE_EMBED_DIM }),
        TtsLoadEvent::VoiceFileRead(Err(e)) => tts_load_fail(s, "Failed to read voice file: "@ + e@),
        TtsLoadEvent::VoiceLoaded(Ok(v)) => (
            TtsState { voice_embed: Some(v), ..s },
            TtsLoadAction::Finish(STATUS_OK),
        ),
        TtsLoadEvent::VoiceLoaded(Err(e)) => tts_load_fail(s, "Failed to load voice: "@ + e@),
        TtsLoadEvent::Panicked(p) => tts_load_fail(s, tts_panic_text(p)),
    }
}

/// Ends a load request in failure, recording `msg`.
fn fail_load<B, Fm, C, K, V, T>(ctx: &mut VoxtralTtsCtx<B, Fm, C, K, V, T>, msg: String) -> (a: TtsLoadAction)
    ensures
        (final(ctx)@, a) == tts_load_fail(old(ctx)@, msg@),
{
    ctx.set_error(msg);
    TtsLoadAction::Finish(STATUS_FAILED)
}

/// Takes what a stage of a load request produced: the model's four parts are
/// kept together, a voice or a tokenizer on its own; a failure is recorded
/// with the stage's own lead text.
pub fn tts_load_step<B, Fm, C, K, V, T>(
    ctx: &mut VoxtralTtsCtx<B, Fm, C, K, V, T>,
    event: TtsLoadEvent<B, Fm, C, K, V, T>,
) -> (a: TtsLoadAction)
    ensures
        (final(ctx)@, a) == tts_load_next(old(ctx)@, event),
{
    match event {
        TtsLoadEvent::GgufParsed(Ok(())) => TtsLoadAction::LoadWeights,
        TtsLoadEvent::GgufParsed(Err(e)) => fail_load(ctx, with_detail("Failed to parse TTS GGUF: ", e.as_str())),
        TtsLoadEvent::WeightsLoaded(Ok(parts)) => {
            ctx.backbone = Some(parts.backbone);
            ctx.fm = Some(parts.fm);
            ctx.codec = Some(parts.codec);
            ctx.codebook = Some(parts.codebook);
            TtsLoadAction::Finish(STATUS_OK)
        },
        TtsLoadEvent::WeightsLoaded(Err(e)) => fail_load(ctx, with_detail("Failed to load TTS model: ", e.as_str())),
        TtsLoadEvent::TokenizerLoaded(Ok(t)) => {
            ctx.tokenizer = Some(t);
            TtsLoadAction::Finish(STATUS_OK)
        },
        TtsLoadEvent::TokenizerLoaded(Err(e)) => {
            fail_load(ctx, with_detail("Failed to load TTS tokenizer: ", e.as_str()))
        },
        TtsLoadEvent::VoiceFileRead(Ok(())) => TtsLoadAction::DecodeVoice { dim: VOICE_EMBED_DIM },
        TtsLoadEvent::VoiceFileRead(Err(e)) => fail_load(ctx, with_detail("Failed to read voice file: ", e.as_str())),
        TtsLoadEvent::VoiceLoaded(Ok(v)) => {
            ctx.voice_embed = Some(v);
            TtsLoadAction::Finish(STATUS_OK)
        },
        TtsLoadEvent::VoiceLoaded(Err(e)) => fail_load(ctx, with_detail("Failed to load voice: ", e.as_str())),
        TtsLoadEvent::Panicked(p) => {
            let msg = panic_message(p, "Unknown panic in voxtral TTS library");
            fail_load(ctx, msg)
        },
    }
}

// ---------------------------------------------------------------------
// Speaking
// ---------------------------------------------------------------------

/// The audio handed to the caller: how many samples, at which rate.
pub struct SpeechOutput {
    pub num_samples: i32,
    pub sample_rate: i32,
}

/// What a stage of speaking produced.
pub enum SpeakEvent<L> {
    /// The tokenizer's ids for the text, and the special token ids.
    Encoded { ids: Vec<u32>, special: TtsSpecialTokens },
    /// The frames the backbone generated, or why generation failed.
    Generated(Result<Vec<GeneratedFrame<L>>, String>),
    /// The codec's waveform, normalized, holds this many samples; the C
    /// interface counts them in an `i32`, which keeps the low 32 bits.
    Decoded { n_samples: usize },
    /// A buffer for this many samples was, or was not, allocated.
    OutputAllocated { num_samples: i32, allocated: bool },
    /// A stage panicked.
    Panicked(PanicPayload),
}

/// The next stage of speaking, or the end of the request.
pub enum SpeakAction<L> {
    /// Encode the text with the tokenizer.
    Encode,
    /// Embed this prompt and generate at most this many frames.
    Generate { prompt: Vec<PromptPart>, max_frames: usize },
    /// Decode these codes (`levels_per_frame` acoustic levels for each of the
    /// `n_frames` frames) to a waveform, and normalize it to its peak.
    DecodeAudio { semantic: Vec<usize>, acoustic: Vec<L>, n_frames: usize, levels_per_frame: usize },
    /// Allocate a buffer for this many samples.
    AllocateOutput { num_samples: i32 },
    /// End the request with this status, handing out this audio.
    Finish { code: i32, output: Option<SpeechOutput> },
}

/// The abstract next stage of speaking.
pub enum SpeakStep<L> {
    Encode,
    Generate { prompt: Seq<PromptPiece>, max_frames: usize },
    DecodeAudio { semantic: Seq<usize>, acoustic: Seq<L>, n_frames: nat, levels_per_frame: usize },
    AllocateOutput { num_samples: i32 },
    Finish { code: i32, output: Option<SpeechOutput> },
}

impl<L> View for SpeakAction<L> {
    type V = SpeakStep<L>;

    open spec fn view(&self) -> SpeakStep<L> {
        match self {
            SpeakAction::Encode => SpeakStep::Encode,
            SpeakAction::Generate { prompt, max_frames } => SpeakStep::Generate {
                prompt: prompt_pieces(prompt@),
                max_frames: *max_frames,
            },
            SpeakAction::DecodeAudio { semantic, acoustic, n_frames, levels_per_frame } => SpeakStep::DecodeAudio {
                semantic: semantic@,
                acoustic: acoustic@,
                n_frames: *n_frames as nat,
                levels_per_frame: *levels_per_frame,
            },
            SpeakAction::AllocateOutput { num_samples } => SpeakStep::AllocateOutput { num_samples: *num_samples },
            SpeakAction::Finish { code, output } => SpeakStep::Finish { code: *code, output: *output },
        }
    }
}

/// The first part that speaking needs and the context lacks, as the error
/// that reports it; none when everything is loaded.
pub open spec fn tts_missing<B, Fm, C, K, V, T>(s: TtsState<B, Fm, C, K, V, T>) -> Option<Seq<char>> {
    if s.backbone is None {
        Some("TTS model not loaded. Call voxtral_tts_load_model first."@)
    } else if s.fm is None {
        Some("FM transformer not loaded."@)
    } else if s.codec is None {
        Some("Codec not loaded."@)
    } else if s.codebook is None {
        Some("Codebook not loaded."@)
    } else if s.voice_embed is None {
        Some("No voice loaded. Call voxtral_tts_load_voice first."@)
    } else if s.tokenizer is None {
        Some("Tokenizer not loaded. Call voxtral_tts_load_tokenizer first."@)
    } else {
        None
    }
}

/// A speaking request that ends in failure with `msg` recorded.
pub open spec fn speak_fail<B, Fm, C, K, V, T, L>(s: TtsState<B, Fm, C, K, V, T>, msg: Seq<char>) -> (
    TtsState<B, Fm, C, K, V, T>,
    SpeakStep<L>,
) {
    (tts_with_error(s, msg), SpeakStep::Finish { code: STATUS_FAILED, output: None })
}

/// A speaking request that ends well with `num_samples` samples.
pub open spec fn speak_done<L>(num_samples: i32) -> SpeakStep<L> {
    SpeakStep::Finish {
        code: STATUS_OK,
        output: Some(SpeechOutput { num_samples, sample_rate: TTS_SAMPLE_RATE }),
    }
}

/// The first step of speaking: a text must be given and every part loaded.
pub open spec fn speak_start<B, Fm, C, K, V, T, L>(s: TtsState<B, Fm, C, K, V, T>, text_given: bool) -> (
    TtsState<B, Fm, C, K, V, T>,
    SpeakStep<L>,
) {
    if !text_given {
        speak_fail(s, "text is null"@)
    } else {
        match tts_missing(s) {
            Some(msg) => speak_fail(s, msg),
            None => (s, SpeakStep::Encode),
        }
    }
}

/// The step of a speaking request: the new state and what comes next.
pub open spec fn speak_next<B, Fm, C, K, V, T, L>(s: TtsState<B, Fm, C, K, V, T>, ev: SpeakEvent<L>) -> (
    TtsState<B, Fm, C, K, V, T>,
    SpeakStep<L>,
) {
    match ev {
        SpeakEvent::Encoded { ids, special } => (
            s,
            SpeakStep::Generate { prompt: speech_prompt_spec(ids@, special), max_frames: MAX_SPEECH_FRAMES },
        ),
        SpeakEvent::Generated(Err(e)) => speak_fail(s, "TTS generation failed: "@ + e@),
        SpeakEvent::Generated(Ok(frames)) => if frames.len() == 0 {
            (s, speak_done(0))
        } else {
            (
                s,
                SpeakStep::DecodeAudio {
                    semantic: semantic_codes(frames@),
                    acoustic: acoustic_codes(frames@),
                    n_frames: frames.len() as nat,
                    levels_per_frame: ACOUSTIC_LEVELS_PER_FRAME,
                },
            )
        },
        SpeakEvent::Decoded { n_samples } => if c_sample_count(n_samples) == 0 {
            (s, speak_done(0))
        } else {
            (s, SpeakStep::AllocateOutput { num_samples: c_sample_count(n_samples) })
        },
        SpeakEvent::OutputAllocated { num_samples, allocated } => if allocated {
            (s, speak_done(num_samples))
        } else {
            speak_fail(s, "Failed to allocate audio output buffer"@)
        },
        SpeakEvent::Panicked(p) => speak_fail(s, tts_panic_text(p)),
    }
}

/// A sample count as the C interface's `i32` holds it: the low 32 bits, read
/// as a signed number.
pub open spec fn c_sample_count(n: usize) -> i32 {
    n as i32
}

/// Ends a speaking request in failure, recording `msg`.
fn fail_speak<B, Fm, C, K, V, T, L>(ctx: &mut VoxtralTtsCtx<B, Fm, C, K, V, T>, msg: String) -> (a: SpeakAction<L>)
    ensures
        (final(ctx)@, a@) == speak_fail::<B, Fm, C, K, V, T, L>(old(ctx)@, msg@),
{
    ctx.set_error(msg);
    SpeakAction::Finish { code: STATUS_FAILED, output: None }
}

/// Ends a speaking request well with `num_samples` samples.
fn finish_speak<L>(num_samples: i32) -> (a: SpeakAction<L>)
    ensures
        a@ == speak_done::<L>(num_samples),
{
    SpeakAction::Finish {
        code: STATUS_OK,
        output: Some(SpeechOutput { num_samples, sample_rate: TTS_SAMPLE_RATE }),
    }
}

/// The error that reports the first part speaking needs and the context
/// lacks, checked in the order backbone, flow-matching transformer, codec,
/// codebook, voice, tokenizer.
pub fn missing_part<B, Fm, C, K, V, T>(ctx: &VoxtralTtsCtx<B, Fm, C, K, V, T>) -> (r: Option<String>)
    ensures
        opt_text(r) == tts_missing(ctx@),
{
    if ctx.backbone.is_none() {
        Some(String::from_str("TTS model not loaded. Call voxtral_tts_load_model first."))
    } else if ctx.fm.is_none() {
        Some(String::from_str("FM transformer not loaded."))
    } else if ctx.codec.is_none() {
        Some(String::from_str("Codec not loaded."))
    } else if ctx.codebook.is_none() {
        Some(String::from_str("Codebook not loaded."))
    } else if ctx.voice_embed.is_none() {
        Some(String::from_str("No voice loaded. Call voxtral_tts_load_voice first."))
    } else if ctx.tokenizer.is_none() {
        Some(String::from_str("Tokenizer not loaded. Call voxtral_tts_load_tokenizer first."))
    } else {
        None
    }
}

/// Starts a speaking request: without a text, or with a part missing, it
/// fails at once.
pub fn voxtral_tts_speak<B, Fm, C, K, V, T, L>(ctx: &mut VoxtralTtsCtx<B, Fm, C, K, V, T>, text_given: bool) -> (a:
    SpeakAction<L>)
    ensures
        (final(ctx)@, a@) == speak_start::<B, Fm, C, K, V, T, L>(old(ctx)@, text_given),
{
    if !text_given {
        return fail_speak(ctx, String::from_str("text is null"));
    }
    match missing_part(ctx) {
        Some(msg) => fail_speak(ctx, msg),
        None => SpeakAction::Encode,
    }
}

/// Takes what a stage of speaking produced and answers with the next stage,
/// or ends the request.
pub fn speak_step<B, Fm, C, K, V, T, L: Copy>(
    ctx: &mut VoxtralTtsCtx<B, Fm, C, K, V, T>,
    event: SpeakEvent<L>,
) -> (a: SpeakAction<L>)
    ensures
        (final(ctx)@, a@) == speak_next(old(ctx)@, event),
{
    match event {
        SpeakEvent::Encoded { ids, special } => {
            SpeakAction::Generate { prompt: speech_prompt(&ids, &special), max_frames: MAX_SPEECH_FRAMES }
        },
        SpeakEvent::Generated(Err(e)) => fail_speak(ctx, with_detail("TTS generation failed: ", e.as_str())),
        SpeakEvent::Generated(Ok(frames)) => {
            if frames.len() == 0 {
                finish_speak(0)
            } else {
                let n_frames = frames.len();
                let (semantic, acoustic) = codec_codes(&frames);
                SpeakAction::DecodeAudio {
                    semantic,
                    acoustic,
                    n_frames,
                    levels_per_frame: ACOUSTIC_LEVELS_PER_FRAME,
                }
            }
        },
        SpeakEvent::Decoded { n_samples } => {
            let num_samples = #[verifier::truncate] (n_samples as i32);
            if num_samples == 0 {
                finish_speak(0)
            } else {
                SpeakAction::AllocateOutput { num_samples }
            }
        },
        SpeakEvent::OutputAllocated { num_samples, allocated } => {
            if allocated {
                finish_speak(num_samples)
            } else {
                fail_speak(ctx, String::from_str("Failed to allocate audio output buffer"))
            }
        },
        SpeakEvent::Panicked(p) => {
            let msg = panic_message(p, "Unknown panic in voxtral TTS library");
            fail_speak(ctx, msg)
        },
    }
}

} // verus!
