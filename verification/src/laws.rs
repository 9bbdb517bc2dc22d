//! Properties that hold across the operations of the library.

use vstd::prelude::*;
use crate::report::{has_nul, stored_error};
use crate::asr::{
    asr_initial, load_model_next, transcribe_file_start, transcribe_next, transcribe_pcm_start, AsrState,
    LoadModelAction, LoadModelEvent, TranscribeEvent, TranscribeStep, MODEL_SAMPLE_RATE, STATUS_FAILED,
    STATUS_OK,
};
use crate::tts::{
    speak_next, speak_start, tts_initial, tts_load_next, tts_missing, SpeakEvent, SpeakStep, TtsLoadAction,
    TtsLoadEvent, TtsModelParts, TtsState, ACOUSTIC_LEVELS_PER_FRAME,
};
use crate::mel::{mel_cell, mel_major};
use crate::tokens::{text_tokens, FIRST_TEXT_TOKEN};
use crate::prompt::{acoustic_codes, GeneratedFrame};
use vstd::arithmetic::div_mod::lemma_fundamental_div_mod_converse;

verus! {

/// Whether every error a state holds can be handed out as a C string.
pub open spec fn error_printable(e: Option<Seq<char>>) -> bool {
    e matches Some(t) ==> !has_nul(t)
}

/// A stored error is always printable.
pub proof fn lemma_stored_error_printable(msg: Seq<char>)
    ensures
        error_printable(stored_error(msg)),
{
}

/// The last error of a speech-recognition context is always a valid C
/// string: every step of loading and of transcription keeps it so.
pub proof fn law_asr_error_printable<M, T, F>(
    s: AsrState<M, T>,
    load: LoadModelEvent<M, T>,
    work: TranscribeEvent<F>,
    path_given: bool,
    samples_given: bool,
    num_samples: i32,
    sample_rate: i32,
)
    requires
        error_printable(s.last_error),
    ensures
        error_printable(asr_initial::<M, T>().last_error),
        error_printable(load_model_next(s, load).0.last_error),
        error_printable(transcribe_next(s, work).0.last_error),
        error_printable(transcribe_file_start::<M, T, F>(s, path_given).0.last_error),
        error_printable(transcribe_pcm_start::<M, T, F>(s, samples_given, num_samples, sample_rate).0.last_error),
{
}

/// A load step that does not fail leaves the last error as it was; one that
/// fails leaves the loaded parts as they were.
pub proof fn law_load_error_only_on_failure<M, T>(s: AsrState<M, T>, ev: LoadModelEvent<M, T>)
    ensures
        load_model_next(s, ev).1 != LoadModelAction::Finish(STATUS_FAILED) ==> load_model_next(s, ev).0.last_error
            == s.last_error,
        load_model_next(s, ev).1 == LoadModelAction::Finish(STATUS_FAILED) ==> {
            &&& load_model_next(s, ev).0.model == s.model
            &&& load_model_next(s, ev).0.tokenizer == s.tokenizer
        },
{
}

/// Once loaded, a part stays loaded: no load step unloads the model or the
/// tokenizer, and a tokenizer read before a failing model file stays.
pub proof fn law_loaded_parts_stay<M, T>(s: AsrState<M, T>, ev: LoadModelEvent<M, T>)
    ensures
        s.model is Some ==> load_model_next(s, ev).0.model is Some,
        s.tokenizer is Some ==> load_model_next(s, ev).0.tokenizer is Some,
{
}

/// Transcription reads the context and never changes what is loaded.
pub proof fn law_transcribe_keeps_parts<M, T, F>(
    s: AsrState<M, T>,
    ev: TranscribeEvent<F>,
    path_given: bool,
    samples_given: bool,
    num_samples: i32,
    sample_rate: i32,
)
    ensures
        transcribe_next(s, ev).0.model == s.model,
        transcribe_next(s, ev).0.tokenizer == s.tokenizer,
        transcribe_file_start::<M, T, F>(s, path_given).0.model == s.model,
        transcribe_file_start::<M, T, F>(s, path_given).0.tokenizer == s.tokenizer,
        transcribe_pcm_start::<M, T, F>(s, samples_given, num_samples, sample_rate).0.model == s.model,
        transcribe_pcm_start::<M, T, F>(s, samples_given, num_samples, sample_rate).0.tokenizer == s.tokenizer,
{
}

/// A transcription step that does not end the request in failure leaves the
/// last error as it was.
pub proof fn law_transcribe_error_only_on_failure<M, T, F>(s: AsrState<M, T>, ev: TranscribeEvent<F>)
    ensures
        !(transcribe_next(s, ev).1 is Finish && transcribe_next(s, ev).1->code == STATUS_FAILED)
            ==> transcribe_next(s, ev).0.last_error == s.last_error,
{
}

/// The audio is worked on only when the model and the tokenizer are loaded.
pub proof fn law_work_needs_parts<M, T, F>(s: AsrState<M, T>, ev: TranscribeEvent<F>)
    ensures
        transcribe_next(s, ev).1 is ComputeMel ==> s.model is Some && s.tokenizer is Some,
{
}

/// A transcription that ends well hands out a text that is a valid C string,
/// and leaves the last error as it was.
pub proof fn law_transcript_printable<M, T, F>(s: AsrState<M, T>, ev: TranscribeEvent<F>)
    ensures
        transcribe_next(s, ev).1 is Finish && transcribe_next(s, ev).1->code == STATUS_OK ==> {
            &&& transcribe_next(s, ev).1->text matches Some(t) && !has_nul(t)
            &&& transcribe_next(s, ev).0.last_error == s.last_error
        },
{
}

/// A load request whose stages all succeed leaves the context with the model
/// and the tokenizer it produced, answers with success, and keeps the last
/// error; audio at the model's rate, or audio once resampled, then goes
/// straight to the log-mel stage.
pub proof fn law_load_then_transcribe<M, T, F>(s: AsrState<M, T>, m: M, t: T)
    ensures
        ({
            let (s1, a1) = load_model_next(s, LoadModelEvent::TokenizerLoaded(Ok(t)));
            let (s2, a2) = load_model_next(s1, LoadModelEvent::GgufParsed(Ok(())));
            let (s3, a3) = load_model_next(s2, LoadModelEvent::WeightsLoaded(Ok(m)));
            &&& a1 == LoadModelAction::ParseGguf
            &&& a2 == LoadModelAction::LoadWeights
            &&& a3 == LoadModelAction::Finish(STATUS_OK)
            &&& s3.model == Some(m)
            &&& s3.tokenizer == Some(t)
            &&& s3.last_error == s.last_error
            &&& transcribe_next(s3, TranscribeEvent::<F>::AudioLoaded(Ok(MODEL_SAMPLE_RATE))) == (
                s3,
                TranscribeStep::<F>::ComputeMel,
            )
            &&& transcribe_next(s3, TranscribeEvent::<F>::Resampled(Ok(()))) == (
                s3,
                TranscribeStep::<F>::ComputeMel,
            )
        }),
{
}

/// Without a model, transcription of audio at the model's rate is refused
/// with the error that asks for the model, whatever else is loaded.
pub proof fn law_refused_without_model<M, T, F>(s: AsrState<M, T>)
    requires
        s.model is None,
    ensures
        transcribe_next(s, TranscribeEvent::<F>::AudioLoaded(Ok(MODEL_SAMPLE_RATE))) == (
            AsrState { last_error: Some("Model not loaded. Call voxtral_load_model first."@), ..s },
            TranscribeStep::<F>::Finish { code: STATUS_FAILED, text: None },
        ),
{
    let msg = "Model not loaded. Call voxtral_load_model first."@;
    assert(!has_nul(msg)) by {
        reveal_strlit("Model not loaded. Call voxtral_load_model first.");
    }
}

/// Whether the four parts of the model are all loaded or all missing.
pub open spec fn tts_parts_together<B, Fm, C, K, V, T>(s: TtsState<B, Fm, C, K, V, T>) -> bool {
    &&& (s.backbone is Some) == (s.fm is Some)
    &&& (s.fm is Some) == (s.codec is Some)
    &&& (s.codec is Some) == (s.codebook is Some)
}

/// The backbone, the flow-matching transformer, the codec and the codebook
/// are loaded together: a fresh context has none, and no step of loading or
/// of speaking loads some of them without the others.
pub proof fn law_tts_parts_together<B, Fm, C, K, V, T, L>(
    s: TtsState<B, Fm, C, K, V, T>,
    load: TtsLoadEvent<B, Fm, C, K, V, T>,
    speak: SpeakEvent<L>,
    text_given: bool,
)
    requires
        tts_parts_together(s),
    ensures
        tts_parts_together(tts_initial::<B, Fm, C, K, V, T>()),
        tts_parts_together(tts_load_next(s, load).0),
        tts_parts_together(speak_next(s, speak).0),
        tts_parts_together(speak_start::<B, Fm, C, K, V, T, L>(s, text_given).0),
{
}

/// The last error of a speech-synthesis context is always a valid C string.
pub proof fn law_tts_error_printable<B, Fm, C, K, V, T, L>(
    s: TtsState<B, Fm, C, K, V, T>,
    load: TtsLoadEvent<B, Fm, C, K, V, T>,
    speak: SpeakEvent<L>,
    text_given: bool,
)
    requires
        error_printable(s.last_error),
    ensures
        error_printable(tts_initial::<B, Fm, C, K, V, T>().last_error),
        error_printable(tts_load_next(s, load).0.last_error),
        error_printable(speak_next(s, speak).0.last_error),
        error_printable(speak_start::<B, Fm, C, K, V, T, L>(s, text_given).0.last_error),
{
}

/// Speaking never changes what is loaded, and a load step never unloads.
pub proof fn law_tts_parts_stay<B, Fm, C, K, V, T, L>(
    s: TtsState<B, Fm, C, K, V, T>,
    load: TtsLoadEvent<B, Fm, C, K, V, T>,
    speak: SpeakEvent<L>,
    text_given: bool,
)
    ensures
        ({
            let s1 = speak_next(s, speak).0;
            let s2 = speak_start::<B, Fm, C, K, V, T, L>(s, text_given).0;
            &&& s1.backbone == s.backbone && s1.fm == s.fm && s1.codec == s.codec
            &&& s1.codebook == s.codebook && s1.voice_embed == s.voice_embed && s1.tokenizer == s.tokenizer
            &&& s2.backbone == s.backbone && s2.fm == s.fm && s2.codec == s.codec
            &&& s2.codebook == s.codebook && s2.voice_embed == s.voice_embed && s2.tokenizer == s.tokenizer
        }),
        ({
            let s3 = tts_load_next(s, load).0;
            &&& s.backbone is Some ==> s3.backbone is Some
            &&& s.fm is Some ==> s3.fm is Some
            &&& s.codec is Some ==> s3.codec is Some
            &&& s.codebook is Some ==> s3.codebook is Some
            &&& s.voice_embed is Some ==> s3.voice_embed is Some
            &&& s.tokenizer is Some ==> s3.tokenizer is Some
        }),
{
}

/// A load step that does not fail leaves the last error as it was.
pub proof fn law_tts_error_only_on_failure<B, Fm, C, K, V, T, L>(
    s: TtsState<B, Fm, C, K, V, T>,
    load: TtsLoadEvent<B, Fm, C, K, V, T>,
    speak: SpeakEvent<L>,
)
    ensures
        tts_load_next(s, load).1 != TtsLoadAction::Finish(STATUS_FAILED) ==> tts_load_next(s, load).0.last_error
            == s.last_error,
        !(speak_next(s, speak).1 is Finish && speak_next(s, speak).1->code == STATUS_FAILED)
            ==> speak_next(s, speak).0.last_error == s.last_error,
{
}

/// Once the model file, the tokenizer and a voice have loaded, in this order,
/// speaking a given text goes straight to encoding it, the last error kept.
pub proof fn law_loads_then_speak<B, Fm, C, K, V, T, L>(
    s: TtsState<B, Fm, C, K, V, T>,
    parts: TtsModelParts<B, Fm, C, K>,
    t: T,
    v: V,
)
    ensures
        ({
            let (s1, a1) = tts_load_next(s, TtsLoadEvent::GgufParsed(Ok(())));
            let (s2, a2) = tts_load_next(s1, TtsLoadEvent::WeightsLoaded(Ok(parts)));
            let (s3, a3) = tts_load_next(s2, TtsLoadEvent::TokenizerLoaded(Ok(t)));
            let (s4, a4) = tts_load_next(s3, TtsLoadEvent::VoiceFileRead(Ok(())));
            let (s5, a5) = tts_load_next(s4, TtsLoadEvent::VoiceLoaded(Ok(v)));
            &&& a1 == TtsLoadAction::LoadWeights
            &&& a2 == TtsLoadAction::Finish(STATUS_OK)
            &&& a3 == TtsLoadAction::Finish(STATUS_OK)
            &&& a5 == TtsLoadAction::Finish(STATUS_OK)
            &&& tts_missing(s5) is None
            &&& s5.last_error == s.last_error
            &&& speak_start::<B, Fm, C, K, V, T, L>(s5, true) == (s5, SpeakStep::<L>::Encode)
        }),
{
}

/// With the model loaded and no voice, speaking is refused with the error
/// that asks for a voice, whether or not the tokenizer is loaded.
pub proof fn law_speak_refused_without_voice<B, Fm, C, K, V, T, L>(s: TtsState<B, Fm, C, K, V, T>)
    requires
        s.backbone is Some && s.fm is Some && s.codec is Some && s.codebook is Some,
        (s.voice_embed is None),
    ensures
        speak_start::<B, Fm, C, K, V, T, L>(s, true).0.last_error == Some(
            "No voice loaded. Call voxtral_tts_load_voice first."@,
        ),
        speak_start::<B, Fm, C, K, V, T, L>(s, true).1 == (SpeakStep::<L>::Finish {
            code: STATUS_FAILED,
            output: None,
        }),
{
    assert(!has_nul("No voice loaded. Call voxtral_tts_load_voice first."@)) by {
        reveal_strlit("No voice loaded. Call voxtral_tts_load_voice first.");
    }
}

/// In the mel-major layout, bin `m` of frame `f` stands at `m * n_frames + f`.
pub proof fn law_mel_major_index<F>(frames: Seq<Seq<F>>, fill: F, m: int, f: int)
    requires
        frames.len() > 0,
        0 <= m < frames[0].len(),
        0 <= f < frames.len(),
    ensures
        mel_major(frames, fill).len() == frames[0].len() * frames.len(),
        m * frames.len() + f < mel_major(frames, fill).len(),
        mel_major(frames, fill)[m * frames.len() + f] == mel_cell(frames, fill, m, f),
{
    let nf = frames.len() as int;
    let nm = frames[0].len() as int;
    assert(m * nf + f < nm * nf) by (nonlinear_arith)
        requires 0 <= m < nm, 0 <= f < nf;
    lemma_fundamental_div_mod_converse(m * nf + f, nf, m, f);
}

/// The text tokens of a generated sequence are the ids from the first text
/// id on, in order: each is at least that id, there are no more of them than
/// ids, and a sequence of text ids is kept whole.
pub proof fn law_text_tokens(tokens: Seq<i32>)
    ensures
        text_tokens(tokens).len() <= tokens.len(),
        forall|i: int| 0 <= i < text_tokens(tokens).len() ==> #[trigger] text_tokens(tokens)[i] >= FIRST_TEXT_TOKEN,
        (forall|i: int| 0 <= i < tokens.len() ==> #[trigger] tokens[i] >= FIRST_TEXT_TOKEN) ==> text_tokens(tokens)
            == tokens.map_values(|t: i32| t as u32),
    decreases tokens.len(),
{
    if tokens.len() > 0 {
        let rest = tokens.drop_last();
        law_text_tokens(rest);
        assert(text_tokens(tokens) == tokens.filter_map(|t: i32| crate::tokens::as_text_token(t)));
        if forall|i: int| 0 <= i < tokens.len() ==> #[trigger] tokens[i] >= FIRST_TEXT_TOKEN {
            assert forall|i: int| 0 <= i < rest.len() implies #[trigger] rest[i] >= FIRST_TEXT_TOKEN by {
                assert(rest[i] == tokens[i]);
            }
            assert(tokens.map_values(|t: i32| t as u32) =~= rest.map_values(|t: i32| t as u32).push(
                tokens.last() as u32,
            ));
        }
    } else {
        assert(text_tokens(tokens) =~= Seq::<u32>::empty());
    }
}

/// When every frame carries the codec's number of acoustic levels, the
/// acoustic codes hold exactly that many per frame.
pub proof fn law_acoustic_length<L>(frames: Seq<GeneratedFrame<L>>)
    requires
        forall|i: int| 0 <= i < frames.len() ==> #[trigger] frames[i].acoustic_levels@.len()
            == ACOUSTIC_LEVELS_PER_FRAME,
    ensures
        acoustic_codes(frames).len() == ACOUSTIC_LEVELS_PER_FRAME * frames.len(),
    decreases frames.len(),
{
    if frames.len() > 0 {
        let rest = frames.drop_last();
        assert forall|i: int| 0 <= i < rest.len() implies #[trigger] rest[i].acoustic_levels@.len()
            == ACOUSTIC_LEVELS_PER_FRAME by {
            assert(rest[i] == frames[i]);
        }
        law_acoustic_length(rest);
        let rows = rest.map_values(|f: GeneratedFrame<L>| f.acoustic_levels@);
        assert(frames.map_values(|f: GeneratedFrame<L>| f.acoustic_levels@) =~= rows.push(
            frames.last().acoustic_levels@,
        ));
        rows.lemma_flatten_push(frames.last().acoustic_levels@);
        assert(ACOUSTIC_LEVELS_PER_FRAME * rest.len() + ACOUSTIC_LEVELS_PER_FRAME == ACOUSTIC_LEVELS_PER_FRAME
            * frames.len()) by (nonlinear_arith)
            requires rest.len() + 1 == frames.len();
    } else {
        assert(acoustic_codes(frames) =~= Seq::<L>::empty());
    }
}

} // verus!
