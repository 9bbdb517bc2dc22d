//! Whole requests and sequences of requests, as a caller of the C interface
//! makes them: each request starts with its first decision and then takes, one
//! after the other, the events that answer the stage the library asked for.
//! The properties here hold over every such sequence.

use vstd::prelude::*;
use crate::asr::{
    asr_initial, load_model_first, load_model_next, transcribe_event_ok, transcribe_file_start, transcribe_next,
    transcribe_pcm_start, transcribe_when_ready, AsrState, LoadModelAction, LoadModelEvent, TranscribeEvent,
    TranscribeStep, STATUS_FAILED, STATUS_OK,
};
use crate::laws::tts_parts_together;
use crate::report::stored_error;
use crate::tts::{
    tts_initial, speak_next, speak_start, tts_load_next, tts_missing, tts_model_first, tts_panic_text, tts_tokenizer_first,
    tts_voice_first, SpeakEvent, SpeakStep, TtsLoadAction, TtsLoadEvent, TtsState,
};

verus! {

// ---------------------------------------------------------------------
// Speech recognition
// ---------------------------------------------------------------------

/// Whether an event answers the stage a load request asked for.
pub open spec fn load_event_fits<M, T>(a: LoadModelAction, ev: LoadModelEvent<M, T>) -> bool {
    match ev {
        LoadModelEvent::TokenizerLoaded(_) => a is LoadTokenizer,
        LoadModelEvent::GgufParsed(_) => a is ParseGguf,
        LoadModelEvent::WeightsLoaded(_) => a is LoadWeights,
        LoadModelEvent::Panicked(_) => !(a is Finish),
    }
}

/// A load request at stage `a` taking the events `evs`, as far as they answer
/// its stages: the state and the stage it ends at.
pub open spec fn load_run<M, T>(s: AsrState<M, T>, a: LoadModelAction, evs: Seq<LoadModelEvent<M, T>>) -> (
    AsrState<M, T>,
    LoadModelAction,
)
    decreases evs.len(),
{
    if evs.len() == 0 || !load_event_fits(a, evs[0]) {
        (s, a)
    } else {
        let (s1, a1) = load_model_next(s, evs[0]);
        load_run(s1, a1, evs.drop_first())
    }
}

/// Whether an event answers the stage a transcription asked for. A buffer of
/// samples is in memory at the rate the caller gave.
pub open spec fn transcribe_event_fits<F>(a: TranscribeStep<F>, ev: TranscribeEvent<F>) -> bool {
    &&& transcribe_event_ok(ev)
    &&& match ev {
        TranscribeEvent::AudioLoaded(r) => a is LoadWav || (a is UseSamples && r == Ok::<u32, String>(
            a->sample_rate,
        )),
        TranscribeEvent::Resampled(_) => a is Resample,
        TranscribeEvent::MelFrames { .. } => a is ComputeMel,
        TranscribeEvent::TokensGenerated(_) => a is RunModel,
        TranscribeEvent::Decoded(_) => a is Decode,
        TranscribeEvent::Panicked(_) => !(a is Finish),
    }
}

/// A transcription at stage `a` taking the events `evs`, as far as they
/// answer its stages: the state and the stage it ends at.
pub open spec fn transcribe_run<M, T, F>(s: AsrState<M, T>, a: TranscribeStep<F>, evs: Seq<TranscribeEvent<F>>) -> (
    AsrState<M, T>,
    TranscribeStep<F>,
)
    decreases evs.len(),
{
    if evs.len() == 0 || !transcribe_event_fits(a, evs[0]) {
        (s, a)
    } else {
        let (s1, a1) = transcribe_next(s, evs[0]);
        transcribe_run(s1, a1, evs.drop_first())
    }
}

/// A call of the speech-recognition interface, with the events its stages
/// produced.
pub enum AsrCall<M, T, F> {
    LoadModel { gguf_path_given: bool, tokenizer_path_given: bool, events: Seq<LoadModelEvent<M, T>> },
    TranscribeFile { path_given: bool, events: Seq<TranscribeEvent<F>> },
    TranscribePcm { samples_given: bool, num_samples: i32, sample_rate: i32, events: Seq<TranscribeEvent<F>> },
    LastError,
}

/// The state after one call.
pub open spec fn asr_call<M, T, F>(s: AsrState<M, T>, c: AsrCall<M, T, F>) -> AsrState<M, T> {
    match c {
        AsrCall::LoadModel { gguf_path_given, tokenizer_path_given, events } => load_run(
            s,
            load_model_first(gguf_path_given, tokenizer_path_given),
            events,
        ).0,
        AsrCall::TranscribeFile { path_given, events } => {
            let (s0, a0) = transcribe_file_start::<M, T, F>(s, path_given);
            transcribe_run(s0, a0, events).0
        },
        AsrCall::TranscribePcm { samples_given, num_samples, sample_rate, events } => {
            let (s0, a0) = transcribe_pcm_start::<M, T, F>(s, samples_given, num_samples, sample_rate);
            transcribe_run(s0, a0, events).0
        },
        AsrCall::LastError => s,
    }
}

/// The state after a sequence of calls.
pub open spec fn asr_session<M, T, F>(s: AsrState<M, T>, calls: Seq<AsrCall<M, T, F>>) -> AsrState<M, T>
    decreases calls.len(),
{
    if calls.len() == 0 {
        s
    } else {
        asr_session(asr_call(s, calls[0]), calls.drop_first())
    }
}

/// A model is loaded only with a tokenizer.
pub open spec fn tokenizer_with_model<M, T>(s: AsrState<M, T>) -> bool {
    s.model is Some ==> s.tokenizer is Some
}

proof fn lemma_load_run<M, T>(s: AsrState<M, T>, a: LoadModelAction, evs: Seq<LoadModelEvent<M, T>>)
    requires
        tokenizer_with_model(s),
        a is ParseGguf || a is LoadWeights ==> s.tokenizer is Some,
    ensures
        tokenizer_with_model(load_run(s, a, evs).0),
        s.model is Some ==> load_run(s, a, evs).0.model is Some,
        s.tokenizer is Some ==> load_run(s, a, evs).0.tokenizer is Some,
    decreases evs.len(),
{
    if evs.len() > 0 && load_event_fits(a, evs[0]) {
        let (s1, a1) = load_model_next(s, evs[0]);
        lemma_load_run(s1, a1, evs.drop_first());
    }
}

proof fn lemma_transcribe_run<M, T, F>(s: AsrState<M, T>, a: TranscribeStep<F>, evs: Seq<TranscribeEvent<F>>)
    ensures
        transcribe_run(s, a, evs).0.model == s.model,
        transcribe_run(s, a, evs).0.tokenizer == s.tokenizer,
    decreases evs.len(),
{
    if evs.len() > 0 && transcribe_event_fits(a, evs[0]) {
        let (s1, a1) = transcribe_next(s, evs[0]);
        lemma_transcribe_run(s1, a1, evs.drop_first());
    }
}

proof fn lemma_asr_call<M, T, F>(s: AsrState<M, T>, c: AsrCall<M, T, F>)
    requires
        tokenizer_with_model(s),
    ensures
        tokenizer_with_model(asr_call(s, c)),
        s.model is Some ==> asr_call(s, c).model is Some,
        s.tokenizer is Some ==> asr_call(s, c).tokenizer is Some,
{
    match c {
        AsrCall::LoadModel { gguf_path_given, tokenizer_path_given, events } => {
            lemma_load_run(s, load_model_first(gguf_path_given, tokenizer_path_given), events);
        },
        AsrCall::TranscribeFile { path_given, events } => {
            let (s0, a0) = transcribe_file_start::<M, T, F>(s, path_given);
            lemma_transcribe_run(s0, a0, events);
        },
        AsrCall::TranscribePcm { samples_given, num_samples, sample_rate, events } => {
            let (s0, a0) = transcribe_pcm_start::<M, T, F>(s, samples_given, num_samples, sample_rate);
            lemma_transcribe_run(s0, a0, events);
        },
        AsrCall::LastError => {},
    }
}

/// Over any sequence of calls, a model is loaded only with a tokenizer (the
/// tokenizer is stored before the model is tried), and a loaded model or
/// tokenizer is never unloaded.
pub proof fn law_asr_session<M, T, F>(s: AsrState<M, T>, calls: Seq<AsrCall<M, T, F>>)
    requires
        tokenizer_with_model(s),
    ensures
        tokenizer_with_model(asr_session(s, calls)),
        s.model is Some ==> asr_session(s, calls).model is Some,
        s.tokenizer is Some ==> asr_session(s, calls).tokenizer is Some,
    decreases calls.len(),
{
    if calls.len() > 0 {
        lemma_asr_call(s, calls[0]);
        law_asr_session(asr_call(s, calls[0]), calls.drop_first());
    }
}

/// From a fresh context, after any sequence of calls, a transcription of audio
/// at the model's rate is never refused for want of a tokenizer: with a model
/// loaded it goes straight to the log-mel stage.
pub proof fn law_no_tokenizer_refusal<M, T, F>(calls: Seq<AsrCall<M, T, F>>)
    ensures
        tokenizer_with_model(asr_session(asr_initial::<M, T>(), calls)),
        asr_session(asr_initial::<M, T>(), calls).model is Some ==> transcribe_when_ready::<M, T, F>(
            asr_session(asr_initial::<M, T>(), calls),
        ) == (asr_session(asr_initial::<M, T>(), calls), TranscribeStep::<F>::ComputeMel),
{
    law_asr_session(asr_initial::<M, T>(), calls);
}

/// Transcribing a WAV file and transcribing a buffer of samples agree: when
/// the file's audio comes in at the buffer's rate and the later stages produce
/// the same events (as they do on the same audio), both requests end in the
/// same state with the same status and text.
pub proof fn law_file_and_pcm_agree<M, T, F>(
    s: AsrState<M, T>,
    num_samples: i32,
    sample_rate: i32,
    evs: Seq<TranscribeEvent<F>>,
)
    requires
        num_samples > 0,
        sample_rate > 0,
    ensures
        ({
            let audio = seq![TranscribeEvent::<F>::AudioLoaded(Ok(sample_rate as u32))] + evs;
            let (sf, af) = transcribe_file_start::<M, T, F>(s, true);
            let (sp, ap) = transcribe_pcm_start::<M, T, F>(s, true, num_samples, sample_rate);
            transcribe_run(sf, af, audio) == transcribe_run(sp, ap, audio)
        }),
{
    let audio = seq![TranscribeEvent::<F>::AudioLoaded(Ok(sample_rate as u32))] + evs;
    assert(audio[0] == TranscribeEvent::<F>::AudioLoaded(Ok(sample_rate as u32)));
    assert(audio.drop_first() =~= evs);
}

// ---------------------------------------------------------------------
// Speech synthesis
// ---------------------------------------------------------------------

/// Whether an event answers the stage a load request asked for.
pub open spec fn tts_load_event_fits<B, Fm, C, K, V, T>(a: TtsLoadAction, ev: TtsLoadEvent<B, Fm, C, K, V, T>) -> bool {
    match ev {
        TtsLoadEvent::GgufParsed(_) => a is ParseGguf,
        TtsLoadEvent::WeightsLoaded(_) => a is LoadWeights,
        TtsLoadEvent::TokenizerLoaded(_) => a is LoadTokenizer,
        TtsLoadEvent::VoiceFileRead(_) => a is ReadVoiceFile,
        TtsLoadEvent::VoiceLoaded(_) => a is DecodeVoice,
        TtsLoadEvent::Panicked(_) => !(a is Finish),
    }
}

/// A load request at stage `a` taking the events `evs`, as far as they answer
/// its stages: the state and the stage it ends at.
pub open spec fn tts_load_run<B, Fm, C, K, V, T>(
    s: TtsState<B, Fm, C, K, V, T>,
    a: TtsLoadAction,
    evs: Seq<TtsLoadEvent<B, Fm, C, K, V, T>>,
) -> (TtsState<B, Fm, C, K, V, T>, TtsLoadAction)
    decreases evs.len(),
{
    if evs.len() == 0 || !tts_load_event_fits(a, evs[0]) {
        (s, a)
    } else {
        let (s1, a1) = tts_load_next(s, evs[0]);
        tts_load_run(s1, a1, evs.drop_first())
    }
}

/// Whether an event answers the stage a speaking request asked for. The
/// allocation is answered for the count it was asked for, and outside the
/// stages that can panic.
pub open spec fn speak_event_fits<L>(a: SpeakStep<L>, ev: SpeakEvent<L>) -> bool {
    match ev {
        SpeakEvent::Encoded { .. } => a is Encode,
        SpeakEvent::Generated(_) => a is Generate,
        SpeakEvent::Decoded { .. } => a is DecodeAudio,
        SpeakEvent::OutputAllocated { num_samples, .. } => a is AllocateOutput && num_samples == a->num_samples,
        SpeakEvent::Panicked(_) => a is Encode || a is Generate || a is DecodeAudio,
    }
}

/// A speaking request at stage `a` taking the events `evs`, as far as they
/// answer its stages: the state, the stage it ends at, and how many events it
/// took.
pub open spec fn speak_run<B, Fm, C, K, V, T, L>(
    s: TtsState<B, Fm, C, K, V, T>,
    a: SpeakStep<L>,
    evs: Seq<SpeakEvent<L>>,
) -> (TtsState<B, Fm, C, K, V, T>, SpeakStep<L>, nat)
    decreases evs.len(),
{
    if evs.len() == 0 || !speak_event_fits(a, evs[0]) {
        (s, a, 0)
    } else {
        let (s1, a1) = speak_next(s, evs[0]);
        let (s2, a2, n) = speak_run(s1, a1, evs.drop_first());
        (s2, a2, n + 1)
    }
}

/// A call of the speech-synthesis interface, with the events its stages
/// produced.
pub enum TtsCall<B, Fm, C, K, V, T, L> {
    LoadModel { path_given: bool, events: Seq<TtsLoadEvent<B, Fm, C, K, V, T>> },
    LoadTokenizer { path_given: bool, events: Seq<TtsLoadEvent<B, Fm, C, K, V, T>> },
    LoadVoice { path_given: bool, events: Seq<TtsLoadEvent<B, Fm, C, K, V, T>> },
    Speak { text_given: bool, events: Seq<SpeakEvent<L>> },
    LastError,
}

/// The state after one call, and whether the call answered with success.
pub open spec fn tts_call<B, Fm, C, K, V, T, L>(s: TtsState<B, Fm, C, K, V, T>, c: TtsCall<B, Fm, C, K, V, T, L>) -> (
    TtsState<B, Fm, C, K, V, T>,
    bool,
) {
    match c {
        TtsCall::LoadModel { path_given, events } => {
            let (s1, a1) = tts_load_run(s, tts_model_first(path_given), events);
            (s1, a1 == TtsLoadAction::Finish(STATUS_OK))
        },
        TtsCall::LoadTokenizer { path_given, events } => {
            let (s1, a1) = tts_load_run(s, tts_tokenizer_first(path_given), events);
            (s1, a1 == TtsLoadAction::Finish(STATUS_OK))
        },
        TtsCall::LoadVoice { path_given, events } => {
            let (s1, a1) = tts_load_run(s, tts_voice_first(path_given), events);
            (s1, a1 == TtsLoadAction::Finish(STATUS_OK))
        },
        TtsCall::Speak { text_given, events } => {
            let (s0, a0) = speak_start::<B, Fm, C, K, V, T, L>(s, text_given);
            let (s1, a1, n) = speak_run(s0, a0, events);
            (s1, a1 is Finish && a1->code == STATUS_OK)
        },
        TtsCall::LastError => (s, false),
    }
}

/// The state after a sequence of calls.
pub open spec fn tts_session<B, Fm, C, K, V, T, L>(
    s: TtsState<B, Fm, C, K, V, T>,
    calls: Seq<TtsCall<B, Fm, C, K, V, T, L>>,
) -> TtsState<B, Fm, C, K, V, T>
    decreases calls.len(),
{
    if calls.len() == 0 {
        s
    } else {
        tts_session(tts_call(s, calls[0]).0, calls.drop_first())
    }
}

/// No part loaded in `s` is missing from `s2`.
pub open spec fn tts_parts_kept<B, Fm, C, K, V, T>(s: TtsState<B, Fm, C, K, V, T>, s2: TtsState<B, Fm, C, K, V, T>) -> bool {
    &&& s.backbone is Some ==> s2.backbone is Some
    &&& s.fm is Some ==> s2.fm is Some
    &&& s.codec is Some ==> s2.codec is Some
    &&& s.codebook is Some ==> s2.codebook is Some
    &&& s.voice_embed is Some ==> s2.voice_embed is Some
    &&& s.tokenizer is Some ==> s2.tokenizer is Some
}

/// The four parts of the model file are loaded.
pub open spec fn tts_model_loaded<B, Fm, C, K, V, T>(s: TtsState<B, Fm, C, K, V, T>) -> bool {
    s.backbone is Some && s.fm is Some && s.codec is Some && s.codebook is Some
}

proof fn lemma_tts_load_run<B, Fm, C, K, V, T>(
    s: TtsState<B, Fm, C, K, V, T>,
    a: TtsLoadAction,
    evs: Seq<TtsLoadEvent<B, Fm, C, K, V, T>>,
)
    ensures
        tts_parts_together(s) ==> tts_parts_together(tts_load_run(s, a, evs).0),
        tts_parts_kept(s, tts_load_run(s, a, evs).0),
    decreases evs.len(),
{
    if evs.len() > 0 && tts_load_event_fits(a, evs[0]) {
        let (s1, a1) = tts_load_next(s, evs[0]);
        lemma_tts_load_run(s1, a1, evs.drop_first());
    }
}

proof fn lemma_speak_run<B, Fm, C, K, V, T, L>(s: TtsState<B, Fm, C, K, V, T>, a: SpeakStep<L>, evs: Seq<SpeakEvent<L>>)
    ensures
        ({
            let s2 = speak_run(s, a, evs).0;
            &&& s2.backbone == s.backbone && s2.fm == s.fm && s2.codec == s.codec
            &&& s2.codebook == s.codebook && s2.voice_embed == s.voice_embed && s2.tokenizer == s.tokenizer
        }),
    decreases evs.len(),
{
    if evs.len() > 0 && speak_event_fits(a, evs[0]) {
        let (s1, a1) = speak_next(s, evs[0]);
        lemma_speak_run(s1, a1, evs.drop_first());
    }
}

proof fn lemma_tts_call<B, Fm, C, K, V, T, L>(s: TtsState<B, Fm, C, K, V, T>, c: TtsCall<B, Fm, C, K, V, T, L>)
    ensures
        tts_parts_together(s) ==> tts_parts_together(tts_call(s, c).0),
        tts_parts_kept(s, tts_call(s, c).0),
{
    match c {
        TtsCall::LoadModel { path_given, events } => lemma_tts_load_run(s, tts_model_first(path_given), events),
        TtsCall::LoadTokenizer { path_given, events } => lemma_tts_load_run(s, tts_tokenizer_first(path_given), events),
        TtsCall::LoadVoice { path_given, events } => lemma_tts_load_run(s, tts_voice_first(path_given), events),
        TtsCall::Speak { text_given, events } => {
            let (s0, a0) = speak_start::<B, Fm, C, K, V, T, L>(s, text_given);
            lemma_speak_run(s0, a0, events);
        },
        TtsCall::LastError => {},
    }
}

/// Over any sequence of calls, the four parts of the model file stay all
/// loaded or all missing, and no loaded part is ever unloaded.
pub proof fn law_tts_session<B, Fm, C, K, V, T, L>(
    s: TtsState<B, Fm, C, K, V, T>,
    calls: Seq<TtsCall<B, Fm, C, K, V, T, L>>,
)
    ensures
        tts_parts_together(s) ==> tts_parts_together(tts_session(s, calls)),
        tts_parts_kept(s, tts_session(s, calls)),
    decreases calls.len(),
{
    if calls.len() > 0 {
        lemma_tts_call(s, calls[0]);
        law_tts_session(tts_call(s, calls[0]).0, calls.drop_first());
    }
}

/// Running a sequence of calls is running its first `i` calls, then the rest.
pub proof fn lemma_tts_session_split<B, Fm, C, K, V, T, L>(
    s: TtsState<B, Fm, C, K, V, T>,
    calls: Seq<TtsCall<B, Fm, C, K, V, T, L>>,
    i: int,
)
    requires
        0 <= i <= calls.len(),
    ensures
        tts_session(s, calls) == tts_session(tts_session(s, calls.take(i)), calls.skip(i)),
    decreases i,
{
    if i > 0 {
        let rest = calls.drop_first();
        lemma_tts_session_split(tts_call(s, calls[0]).0, rest, i - 1);
        assert(calls.take(i).drop_first() =~= rest.take(i - 1));
        assert(calls.take(i)[0] == calls[0]);
        assert(rest.skip(i - 1) =~= calls.skip(i));
    } else {
        assert(calls.take(0) =~= Seq::<TtsCall<B, Fm, C, K, V, T, L>>::empty());
        assert(calls.skip(0) =~= calls);
    }
}

/// What a successful load request of each kind leaves loaded.
proof fn lemma_load_success<B, Fm, C, K, V, T>(
    s: TtsState<B, Fm, C, K, V, T>,
    a: TtsLoadAction,
    evs: Seq<TtsLoadEvent<B, Fm, C, K, V, T>>,
)
    ensures
        (a is ParseGguf || a is LoadWeights || a == TtsLoadAction::Finish(STATUS_FAILED)) && tts_load_run(
            s,
            a,
            evs,
        ).1 == TtsLoadAction::Finish(STATUS_OK) ==> tts_model_loaded(tts_load_run(s, a, evs).0),
        (a is LoadTokenizer || a == TtsLoadAction::Finish(STATUS_FAILED)) && tts_load_run(s, a, evs).1
            == TtsLoadAction::Finish(STATUS_OK) ==> tts_load_run(s, a, evs).0.tokenizer is Some,
        (a is ReadVoiceFile || a is DecodeVoice || a == TtsLoadAction::Finish(STATUS_FAILED)) && tts_load_run(
            s,
            a,
            evs,
        ).1 == TtsLoadAction::Finish(STATUS_OK) ==> tts_load_run(s, a, evs).0.voice_embed is Some,
    decreases evs.len(),
{
    if evs.len() > 0 && tts_load_event_fits(a, evs[0]) {
        let (s1, a1) = tts_load_next(s, evs[0]);
        lemma_load_success(s1, a1, evs.drop_first());
    }
}

/// Which part of the context a call loads when it answers with success.
pub open spec fn call_loads<B, Fm, C, K, V, T, L>(
    c: TtsCall<B, Fm, C, K, V, T, L>,
    s2: TtsState<B, Fm, C, K, V, T>,
) -> bool {
    match c {
        TtsCall::LoadModel { .. } => tts_model_loaded(s2),
        TtsCall::LoadTokenizer { .. } => s2.tokenizer is Some,
        TtsCall::LoadVoice { .. } => s2.voice_embed is Some,
        _ => true,
    }
}

proof fn lemma_call_loads<B, Fm, C, K, V, T, L>(s: TtsState<B, Fm, C, K, V, T>, c: TtsCall<B, Fm, C, K, V, T, L>)
    ensures
        tts_call(s, c).1 ==> call_loads(c, tts_call(s, c).0),
{
    match c {
        TtsCall::LoadModel { path_given, events } => lemma_load_success(s, tts_model_first(path_given), events),
        TtsCall::LoadTokenizer { path_given, events } => lemma_load_success(s, tts_tokenizer_first(path_given), events),
        TtsCall::LoadVoice { path_given, events } => lemma_load_success(s, tts_voice_first(path_given), events),
        _ => {},
    }
}

/// Whether `err` is the error a failing event of a speaking request records:
/// a failed generation, a panic, or a failed allocation.
pub open spec fn speak_failure_recorded<L>(ev: SpeakEvent<L>, err: Option<Seq<char>>) -> bool {
    match ev {
        SpeakEvent::Generated(Err(e)) => err == stored_error("TTS generation failed: "@ + e@),
        SpeakEvent::Panicked(p) => err == stored_error(tts_panic_text(p)),
        SpeakEvent::OutputAllocated { allocated, .. } => !allocated && err == stored_error(
            "Failed to allocate audio output buffer"@,
        ),
        _ => false,
    }
}

proof fn lemma_speak_run_failure<B, Fm, C, K, V, T, L>(
    s: TtsState<B, Fm, C, K, V, T>,
    a: SpeakStep<L>,
    evs: Seq<SpeakEvent<L>>,
)
    requires
        !(a is Finish),
    ensures
        ({
            let (s2, a2, n) = speak_run(s, a, evs);
            a2 is Finish && a2->code == STATUS_FAILED ==> 1 <= n <= evs.len() && speak_failure_recorded(
                evs[n - 1],
                s2.last_error,
            )
        }),
    decreases evs.len(),
{
    if evs.len() > 0 && speak_event_fits(a, evs[0]) {
        let (s1, a1) = speak_next(s, evs[0]);
        let rest = evs.drop_first();
        if a1 is Finish {
            assert(rest.len() == 0 || !speak_event_fits(a1, rest[0]));
        } else {
            lemma_speak_run_failure(s1, a1, rest);
            let (s2, a2, n) = speak_run(s1, a1, rest);
            if a2 is Finish && a2->code == STATUS_FAILED {
                assert(evs[n as int] == rest[n - 1]);
            }
        }
    }
}

/// Once a model file, a voice and a tokenizer have each been loaded with
/// success, in any order and with any other calls between, speaking a given
/// text is never refused for a missing part: it goes straight to encoding,
/// and when the request then fails, the error it records is that of a failed
/// generation, of a panic, or of a failed allocation, from the event that
/// ended it.
pub proof fn law_speak_after_loads<B, Fm, C, K, V, T, L>(
    s: TtsState<B, Fm, C, K, V, T>,
    calls: Seq<TtsCall<B, Fm, C, K, V, T, L>>,
    i: int,
    j: int,
    k: int,
    evs: Seq<SpeakEvent<L>>,
)
    requires
        0 <= i < calls.len(),
        0 <= j < calls.len(),
        0 <= k < calls.len(),
        (calls[i] is LoadModel),
        (calls[j] is LoadVoice),
        (calls[k] is LoadTokenizer),
        tts_call(tts_session(s, calls.take(i)), calls[i]).1,
        tts_call(tts_session(s, calls.take(j)), calls[j]).1,
        tts_call(tts_session(s, calls.take(k)), calls[k]).1,
    ensures
        tts_missing(tts_session(s, calls)) is None,
        speak_start::<B, Fm, C, K, V, T, L>(tts_session(s, calls), true) == (
            tts_session(s, calls),
            SpeakStep::<L>::Encode,
        ),
        ({
            let (s2, a2, n) = speak_run(tts_session(s, calls), SpeakStep::<L>::Encode, evs);
            a2 is Finish && a2->code == STATUS_FAILED ==> 1 <= n <= evs.len() && speak_failure_recorded(
                evs[n - 1],
                s2.last_error,
            )
        }),
{
    let end = tts_session(s, calls);
    assert forall|x: int| 0 <= x < calls.len() && #[trigger] tts_call(tts_session(s, calls.take(x)), calls[x]).1
        implies call_loads(calls[x], end) by {
        let before = tts_session(s, calls.take(x));
        let after = tts_call(before, calls[x]).0;
        lemma_call_loads(before, calls[x]);
        lemma_tts_session_split(s, calls, x);
        assert(calls.skip(x)[0] == calls[x]);
        assert(calls.skip(x).drop_first() =~= calls.skip(x + 1));
        law_tts_session(after, calls.skip(x + 1));
    }
    assert(call_loads(calls[i], end));
    assert(call_loads(calls[j], end));
    assert(call_loads(calls[k], end));
    lemma_speak_run_failure(end, SpeakStep::<L>::Encode, evs);
}

/// From a fresh context, after any sequence of calls, the four parts of the
/// model file are all loaded or all missing.
pub proof fn law_tts_parts_together_from_create<B, Fm, C, K, V, T, L>(calls: Seq<TtsCall<B, Fm, C, K, V, T, L>>)
    ensures
        tts_parts_together(tts_session(tts_initial::<B, Fm, C, K, V, T>(), calls)),
{
    law_tts_session(tts_initial::<B, Fm, C, K, V, T>(), calls);
}

} // verus!
