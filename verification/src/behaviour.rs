//! What each operation does, stated over all inputs: the results a step must
//! give, the values a layout must hold, and what a load must leave behind.

use vstd::prelude::*;
use crate::asr::{
    load_model_first, transcribe_file_start, load_model_next, transcribe_next, transcribe_pcm_start, transcribe_when_ready, AsrState, LoadModelAction,
    LoadModelEvent, TranscribeEvent, TranscribeStep,
};
use crate::tts::{tts_missing, tts_model_first, tts_tokenizer_first, tts_voice_first, speak_next, tts_load_next, SpeakEvent, SpeakStep, TtsLoadAction, TtsLoadEvent, TtsModelParts, TtsState};
use crate::mel::{mel_major};
use crate::tokens::{as_text_token, text_tokens};
use crate::prompt::{
    acoustic_codes, embed_id, semantic_codes, speech_prompt_spec, GeneratedFrame, PromptPiece, TtsSpecialTokens,
};
use crate::report::has_nul;
use crate::laws::law_mel_major_index;

verus! {

// ---------------------------------------------------------------------
// Transcription
// ---------------------------------------------------------------------

/// Audio is resampled exactly when it is not at 16 kHz; at 16 kHz a context
/// with its model and tokenizer goes straight to the log-mel stage. Nothing
/// is recorded either way.
pub proof fn law_resample_unless_16k<M, T, F>(s: AsrState<M, T>, rate: u32)
    ensures
        (transcribe_next(s, TranscribeEvent::<F>::AudioLoaded(Ok(rate))).1 is Resample) <==> rate != 16000,
        rate != 16000 ==> transcribe_next(s, TranscribeEvent::<F>::AudioLoaded(Ok(rate))).0 == s,
        rate == 16000 && s.model is Some && s.tokenizer is Some ==> transcribe_next(
            s,
            TranscribeEvent::<F>::AudioLoaded(Ok(rate)),
        ) == (s, TranscribeStep::<F>::ComputeMel),
{
}

/// Once resampled, a context with its model and tokenizer goes straight to
/// the log-mel stage.
pub proof fn law_ready_after_resample<M, T, F>(s: AsrState<M, T>)
    requires
        s.model is Some,
        (s.tokenizer is Some),
    ensures
        transcribe_next(s, TranscribeEvent::<F>::Resampled(Ok(()))) == (s, TranscribeStep::<F>::ComputeMel),
        transcribe_when_ready::<M, T, F>(s) == (s, TranscribeStep::<F>::ComputeMel),
{
}

/// A valid buffer is taken whole, at the caller's rate, with nothing recorded.
pub proof fn law_pcm_takes_every_sample<M, T, F>(s: AsrState<M, T>, num_samples: i32, sample_rate: i32)
    requires
        num_samples > 0,
        sample_rate > 0,
    ensures
        transcribe_pcm_start::<M, T, F>(s, true, num_samples, sample_rate).0 == s,
        transcribe_pcm_start::<M, T, F>(s, true, num_samples, sample_rate).1 is UseSamples,
        transcribe_pcm_start::<M, T, F>(s, true, num_samples, sample_rate).1->count as int == num_samples as int,
        transcribe_pcm_start::<M, T, F>(s, true, num_samples, sample_rate).1->sample_rate as int
            == sample_rate as int,
{
}

/// The model's ids go to the tokenizer as exactly their text tokens; the
/// tokenizer's text is handed out unchanged when it has no NUL.
pub proof fn law_tokens_and_text_pass_through<M, T, F>(s: AsrState<M, T>, tokens: Vec<i32>, text: String)
    ensures
        transcribe_next(s, TranscribeEvent::<F>::TokensGenerated(tokens)) == (
            s,
            TranscribeStep::<F>::Decode(text_tokens(tokens@)),
        ),
        !has_nul(text@) ==> transcribe_next(s, TranscribeEvent::<F>::Decoded(Ok(text))) == (
            s,
            TranscribeStep::<F>::Finish { code: 0, text: Some(text@) },
        ),
{
}

/// The encoder gets the frames laid out mel-major: as many bins as the first
/// frame, as many columns as frames.
pub proof fn law_model_gets_mel_layout<M, T, F>(s: AsrState<M, T>, frames: Vec<Vec<F>>, fill: F)
    requires
        frames.len() > 0,
    ensures
        transcribe_next(s, TranscribeEvent::MelFrames { frames, fill }).0 == s,
        transcribe_next(s, TranscribeEvent::MelFrames { frames, fill }).1 == (TranscribeStep::RunModel {
            mel: mel_major(frames@.map_values(|v: Vec<F>| v@), fill),
            n_mels: frames@[0]@.len(),
            n_frames: frames@.len(),
        }),
{
    assert(frames@.map_values(|v: Vec<F>| v@)[0] == frames@[0]@);
}

/// Bin `m` of frame `f` is laid out at `m * n_frames + f`, holding that very
/// value; a bin a shorter frame lacks holds the fill.
pub proof fn law_mel_values<F>(frames: Seq<Seq<F>>, fill: F, m: int, f: int)
    requires
        frames.len() > 0,
        0 <= m < frames[0].len(),
        0 <= f < frames.len(),
    ensures
        mel_major(frames, fill).len() == frames[0].len() * frames.len(),
        m < frames[f].len() ==> mel_major(frames, fill)[m * frames.len() + f] == frames[f][m],
        m >= frames[f].len() ==> mel_major(frames, fill)[m * frames.len() + f] == fill,
{
    law_mel_major_index(frames, fill, m, f);
}

/// The text tokens of one id: the id itself, as a tokenizer id, from 1000 on;
/// nothing below.
pub proof fn law_text_token_of_one(t: i32)
    ensures
        t >= 1000 ==> text_tokens(seq![t]) == seq![t as u32],
        t < 1000 ==> text_tokens(seq![t]) == Seq::<u32>::empty(),
{
    reveal_with_fuel(Seq::filter_map, 2);
    assert(seq![t].drop_last() =~= Seq::<i32>::empty());
    assert(seq![t].last() == t);
}

/// The text tokens of two pieces of output, one after the other, are those of
/// the first piece followed by those of the second.
pub proof fn law_text_tokens_concat(a: Seq<i32>, b: Seq<i32>)
    ensures
        text_tokens(a + b) == text_tokens(a) + text_tokens(b),
    decreases b.len(),
{
    if b.len() == 0 {
        assert(a + b =~= a);
        assert(text_tokens(b) =~= Seq::<u32>::empty());
        assert(text_tokens(a) + text_tokens(b) =~= text_tokens(a));
    } else {
        let b1 = b.drop_last();
        law_text_tokens_concat(a, b1);
        assert((a + b).drop_last() =~= a + b1);
        assert((a + b).last() == b.last());
        match as_text_token(b.last()) {
            Some(x) => {
                assert(text_tokens(a) + text_tokens(b) =~= text_tokens(a) + text_tokens(b1) + seq![x]);
            },
            None => {},
        }
    }
}

// ---------------------------------------------------------------------
// Loading for transcription
// ---------------------------------------------------------------------

/// A successful load stores exactly what was loaded, replacing what was
/// there, and leaves everything else alone.
pub proof fn law_asr_load_stores<M, T>(s: AsrState<M, T>, m: M, t: T)
    ensures
        load_model_next(s, LoadModelEvent::TokenizerLoaded(Ok(t))).0.tokenizer == Some(t),
        load_model_next(s, LoadModelEvent::TokenizerLoaded(Ok(t))).0.model == s.model,
        load_model_next(s, LoadModelEvent::TokenizerLoaded(Ok(t))).0.last_error == s.last_error,
        load_model_next(s, LoadModelEvent::TokenizerLoaded(Ok(t))).1 == LoadModelAction::ParseGguf,
        load_model_next(s, LoadModelEvent::WeightsLoaded(Ok(m))).0.model == Some(m),
        load_model_next(s, LoadModelEvent::WeightsLoaded(Ok(m))).0.tokenizer == s.tokenizer,
        load_model_next(s, LoadModelEvent::WeightsLoaded(Ok(m))).0.last_error == s.last_error,
        load_model_next(s, LoadModelEvent::WeightsLoaded(Ok(m))).1 == LoadModelAction::Finish(0),
{
}

// ---------------------------------------------------------------------
// Loading for speech synthesis
// ---------------------------------------------------------------------

/// A successful weights load stores exactly the four loaded parts, replacing
/// any loaded before, and leaves the voice, the tokenizer and the error alone.
pub proof fn law_tts_model_load_stores<B, Fm, C, K, V, T>(s: TtsState<B, Fm, C, K, V, T>, p: TtsModelParts<B, Fm, C, K>)
    ensures
        ({
            let (s2, a) = tts_load_next(s, TtsLoadEvent::WeightsLoaded(Ok(p)));
            &&& s2.backbone == Some(p.backbone)
            &&& s2.fm == Some(p.fm)
            &&& s2.codec == Some(p.codec)
            &&& s2.codebook == Some(p.codebook)
            &&& s2.voice_embed == s.voice_embed
            &&& s2.tokenizer == s.tokenizer
            &&& s2.last_error == s.last_error
            &&& a == TtsLoadAction::Finish(0)
        }),
{
}

/// A successful voice load stores exactly the loaded voice, replacing any
/// loaded before, and leaves everything else alone.
pub proof fn law_voice_load_stores<B, Fm, C, K, V, T>(s: TtsState<B, Fm, C, K, V, T>, v: V)
    ensures
        ({
            let (s2, a) = tts_load_next(s, TtsLoadEvent::VoiceLoaded(Ok(v)));
            &&& s2.voice_embed == Some(v)
            &&& s2.backbone == s.backbone && s2.fm == s.fm && s2.codec == s.codec && s2.codebook == s.codebook
            &&& s2.tokenizer == s.tokenizer
            &&& s2.last_error == s.last_error
            &&& a == TtsLoadAction::Finish(0)
        }),
        tts_load_next(s, TtsLoadEvent::VoiceFileRead(Ok(()))) == (s, TtsLoadAction::DecodeVoice { dim: 3072 }),
{
}

/// A successful tokenizer load stores exactly the loaded tokenizer, replacing
/// any loaded before, and leaves everything else alone.
pub proof fn law_tts_tokenizer_load_stores<B, Fm, C, K, V, T>(s: TtsState<B, Fm, C, K, V, T>, t: T)
    ensures
        ({
            let (s2, a) = tts_load_next(s, TtsLoadEvent::TokenizerLoaded(Ok(t)));
            &&& s2.tokenizer == Some(t)
            &&& s2.backbone == s.backbone && s2.fm == s.fm && s2.codec == s.codec && s2.codebook == s.codebook
            &&& s2.voice_embed == s.voice_embed
            &&& s2.last_error == s.last_error
            &&& a == TtsLoadAction::Finish(0)
        }),
{
}

// ---------------------------------------------------------------------
// Speaking
// ---------------------------------------------------------------------

/// The prompt holds seven parts: beginning of sequence, beginning of audio,
/// the voice, the marker before text, every text id in order, the marker that
/// repeats text as audio, and beginning of audio again.
pub proof fn law_prompt_layout(ids: Seq<u32>, special: TtsSpecialTokens)
    ensures
        ({
            let p = speech_prompt_spec(ids, special);
            &&& p.len() == 7
            &&& p[0] == PromptPiece::Token(special.bos_token_id as i32)
            &&& p[1] == PromptPiece::Token(special.begin_audio_token_id as i32)
            &&& p[2] == PromptPiece::Voice
            &&& p[3] == PromptPiece::Token(special.next_audio_text_token_id as i32)
            &&& p[4] is Text
            &&& p[4]->Text_0.len() == ids.len()
            &&& forall|i: int| 0 <= i < ids.len() ==> #[trigger] p[4]->Text_0[i] == ids[i] as i32
            &&& p[5] == PromptPiece::Token(special.repeat_audio_text_token_id as i32)
            &&& p[6] == PromptPiece::Token(special.begin_audio_token_id as i32)
        }),
{
}

/// The frames' codes: one semantic code per frame, in order; the acoustic
/// levels frame after frame.
pub proof fn law_codec_codes<L>(frames: Seq<GeneratedFrame<L>>, last: GeneratedFrame<L>)
    ensures
        semantic_codes(frames).len() == frames.len(),
        forall|i: int| 0 <= i < frames.len() ==> #[trigger] semantic_codes(frames)[i] == frames[i].semantic_idx,
        acoustic_codes(Seq::<GeneratedFrame<L>>::empty()) == Seq::<L>::empty(),
        acoustic_codes(frames.push(last)) == acoustic_codes(frames) + last.acoustic_levels@,
{
    let rows = frames.map_values(|f: GeneratedFrame<L>| f.acoustic_levels@);
    assert(frames.push(last).map_values(|f: GeneratedFrame<L>| f.acoustic_levels@) =~= rows.push(
        last.acoustic_levels@,
    ));
    rows.lemma_flatten_push(last.acoustic_levels@);
    assert(Seq::<GeneratedFrame<L>>::empty().map_values(|f: GeneratedFrame<L>| f.acoustic_levels@) =~= Seq::<
        Seq<L>,
    >::empty());
}

/// Speaking passes the data on: the prompt of the text's ids with at most 750
/// frames; the codes of the generated frames, 36 levels each; a buffer for the
/// samples' count (as the C interface's `i32`); 24 kHz audio at the end.
pub proof fn law_speak_passes_data<B, Fm, C, K, V, T, L>(
    s: TtsState<B, Fm, C, K, V, T>,
    ids: Vec<u32>,
    special: TtsSpecialTokens,
    frames: Vec<GeneratedFrame<L>>,
    n_samples: usize,
    num_samples: i32,
)
    ensures
        speak_next(s, SpeakEvent::<L>::Encoded { ids, special }) == (
            s,
            SpeakStep::<L>::Generate { prompt: speech_prompt_spec(ids@, special), max_frames: 750 },
        ),
        frames.len() > 0 ==> speak_next(s, SpeakEvent::Generated(Ok(frames))) == (
            s,
            SpeakStep::DecodeAudio {
                semantic: semantic_codes(frames@),
                acoustic: acoustic_codes(frames@),
                n_frames: frames.len() as nat,
                levels_per_frame: 36,
            },
        ),
        frames.len() == 0 ==> speak_next(s, SpeakEvent::Generated(Ok(frames))).1 == (SpeakStep::<L>::Finish {
            code: 0,
            output: Some(crate::tts::SpeechOutput { num_samples: 0, sample_rate: 24000 }),
        }),
        0 < n_samples <= i32::MAX ==> speak_next(s, SpeakEvent::<L>::Decoded { n_samples }) == (
            s,
            SpeakStep::<L>::AllocateOutput { num_samples: n_samples as i32 },
        ),
        n_samples == 0 ==> speak_next(s, SpeakEvent::<L>::Decoded { n_samples }).1 == (SpeakStep::<L>::Finish {
            code: 0,
            output: Some(crate::tts::SpeechOutput { num_samples: 0, sample_rate: 24000 }),
        }),
        speak_next(s, SpeakEvent::<L>::OutputAllocated { num_samples, allocated: true }) == (
            s,
            SpeakStep::<L>::Finish {
                code: 0,
                output: Some(crate::tts::SpeechOutput { num_samples, sample_rate: 24000 }),
            },
        ),
{
}

// ---------------------------------------------------------------------
// First decisions
// ---------------------------------------------------------------------

/// Each request goes ahead exactly when its inputs are given (a positive
/// count and rate for a buffer), and otherwise ends at once with -1.
pub proof fn law_first_decisions<M, T, F>(
    s: AsrState<M, T>,
    g: bool,
    t: bool,
    samples_given: bool,
    num_samples: i32,
    sample_rate: i32,
)
    ensures
        (load_model_first(g, t) == LoadModelAction::LoadTokenizer) <==> g && t,
        !(g && t) ==> load_model_first(g, t) == LoadModelAction::Finish(-1i32),
        transcribe_file_start::<M, T, F>(s, true) == (s, TranscribeStep::<F>::LoadWav),
        transcribe_file_start::<M, T, F>(s, false).1 == (TranscribeStep::<F>::Finish { code: -1i32, text: None }),
        (transcribe_pcm_start::<M, T, F>(s, samples_given, num_samples, sample_rate).1 is UseSamples) <==> (
        samples_given && num_samples > 0 && sample_rate > 0),
        !(samples_given && num_samples > 0 && sample_rate > 0) ==> transcribe_pcm_start::<M, T, F>(
            s,
            samples_given,
            num_samples,
            sample_rate,
        ).1 == (TranscribeStep::<F>::Finish { code: -1i32, text: None }),
        tts_model_first(true) == TtsLoadAction::ParseGguf,
        tts_tokenizer_first(true) == TtsLoadAction::LoadTokenizer,
        tts_voice_first(true) == TtsLoadAction::ReadVoiceFile,
        tts_model_first(false) == TtsLoadAction::Finish(-1i32),
        tts_tokenizer_first(false) == TtsLoadAction::Finish(-1i32),
        tts_voice_first(false) == TtsLoadAction::Finish(-1i32),
{
}

/// Speaking reports the first missing part in the order backbone,
/// flow-matching transformer, codec, codebook, voice, tokenizer, and nothing
/// when all are loaded.
pub proof fn law_missing_part_order<B, Fm, C, K, V, T>(s: TtsState<B, Fm, C, K, V, T>)
    ensures
        s.backbone is None ==> tts_missing(s) == Some("TTS model not loaded. Call voxtral_tts_load_model first."@),
        s.backbone is Some && s.fm is None ==> tts_missing(s) == Some("FM transformer not loaded."@),
        s.backbone is Some && s.fm is Some && s.codec is None ==> tts_missing(s) == Some("Codec not loaded."@),
        s.backbone is Some && s.fm is Some && s.codec is Some && s.codebook is None ==> tts_missing(s) == Some(
            "Codebook not loaded."@,
        ),
        s.backbone is Some && s.fm is Some && s.codec is Some && s.codebook is Some && s.voice_embed is None
            ==> tts_missing(s) == Some("No voice loaded. Call voxtral_tts_load_voice first."@),
        s.backbone is Some && s.fm is Some && s.codec is Some && s.codebook is Some && s.voice_embed is Some
            && s.tokenizer is None ==> tts_missing(s) == Some(
            "Tokenizer not loaded. Call voxtral_tts_load_tokenizer first."@,
        ),
        s.backbone is Some && s.fm is Some && s.codec is Some && s.codebook is Some && s.voice_embed is Some
            && s.tokenizer is Some ==> (tts_missing(s) is None),
{
}

} // verus!
