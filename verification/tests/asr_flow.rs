use voxtral::asr::{
    load_model_step, set_ctx_error, transcribe_step, voxtral_create, voxtral_last_error, voxtral_load_model,
    voxtral_transcribe_file, voxtral_transcribe_pcm, LoadModelAction, LoadModelEvent, TranscribeAction,
    TranscribeEvent, VoxtralCtx,
};
use voxtral::report::PanicPayload;

type Ctx = VoxtralCtx<&'static str, &'static str>;

fn err_of(ctx: &Ctx) -> Option<String> {
    voxtral_last_error(ctx).cloned()
}

fn loaded() -> Ctx {
    let mut ctx: Ctx = voxtral_create();
    assert!(matches!(voxtral_load_model(true, true), LoadModelAction::LoadTokenizer));
    assert!(matches!(
        load_model_step(&mut ctx, LoadModelEvent::TokenizerLoaded(Ok("tok"))),
        LoadModelAction::ParseGguf
    ));
    assert!(matches!(load_model_step(&mut ctx, LoadModelEvent::GgufParsed(Ok(()))), LoadModelAction::LoadWeights));
    assert!(matches!(
        load_model_step(&mut ctx, LoadModelEvent::WeightsLoaded(Ok("model"))),
        LoadModelAction::Finish(0)
    ));
    ctx
}

#[test]
fn fresh_context_is_empty() {
    let ctx: Ctx = voxtral_create();
    assert!(ctx.model().is_none());
    assert!(ctx.tokenizer().is_none());
    assert_eq!(err_of(&ctx), None);
}

#[test]
fn load_needs_both_paths() {
    assert!(matches!(voxtral_load_model(false, true), LoadModelAction::Finish(-1)));
    assert!(matches!(voxtral_load_model(true, false), LoadModelAction::Finish(-1)));
    assert!(matches!(voxtral_load_model(true, true), LoadModelAction::LoadTokenizer));
}

#[test]
fn full_load_keeps_parts_and_error() {
    let mut ctx: Ctx = voxtral_create();
    ctx.set_error("earlier".to_string());
    load_model_step(&mut ctx, LoadModelEvent::TokenizerLoaded(Ok("tok")));
    load_model_step(&mut ctx, LoadModelEvent::GgufParsed(Ok(())));
    let a = load_model_step(&mut ctx, LoadModelEvent::WeightsLoaded(Ok("model")));
    assert!(matches!(a, LoadModelAction::Finish(0)));
    assert_eq!(ctx.model(), Some(&"model"));
    assert_eq!(ctx.tokenizer(), Some(&"tok"));
    assert_eq!(err_of(&ctx).as_deref(), Some("earlier"));
}

#[test]
fn tokenizer_failure_is_reported() {
    let mut ctx: Ctx = voxtral_create();
    let a = load_model_step(&mut ctx, LoadModelEvent::TokenizerLoaded(Err("no such file".to_string())));
    assert!(matches!(a, LoadModelAction::Finish(-1)));
    assert_eq!(err_of(&ctx).as_deref(), Some("Failed to load tokenizer: no such file"));
    assert!(ctx.tokenizer().is_none());
}

#[test]
fn gguf_failure_keeps_tokenizer() {
    let mut ctx: Ctx = voxtral_create();
    load_model_step(&mut ctx, LoadModelEvent::TokenizerLoaded(Ok("tok")));
    let a = load_model_step(&mut ctx, LoadModelEvent::GgufParsed(Err("bad magic".to_string())));
    assert!(matches!(a, LoadModelAction::Finish(-1)));
    assert_eq!(err_of(&ctx).as_deref(), Some("Failed to parse GGUF: bad magic"));
    assert_eq!(ctx.tokenizer(), Some(&"tok"));
    assert!(ctx.model().is_none());
}

#[test]
fn weights_failure_is_reported() {
    let mut ctx: Ctx = voxtral_create();
    let a = load_model_step(&mut ctx, LoadModelEvent::WeightsLoaded(Err("out of memory".to_string())));
    assert!(matches!(a, LoadModelAction::Finish(-1)));
    assert_eq!(err_of(&ctx).as_deref(), Some("Failed to load Q4 model: out of memory"));
}

#[test]
fn panic_messages() {
    let mut ctx: Ctx = voxtral_create();
    let a = load_model_step(&mut ctx, LoadModelEvent::Panicked(PanicPayload::Message("boom".to_string())));
    assert!(matches!(a, LoadModelAction::Finish(-1)));
    assert_eq!(err_of(&ctx).as_deref(), Some("boom"));
    set_ctx_error(&mut ctx, PanicPayload::Unknown);
    assert_eq!(err_of(&ctx).as_deref(), Some("Unknown panic in voxtral library"));
}

#[test]
fn error_with_nul_clears_slot() {
    let mut ctx: Ctx = voxtral_create();
    ctx.set_error("first".to_string());
    ctx.set_error("a\0b".to_string());
    assert_eq!(err_of(&ctx), None);
}

#[test]
fn file_without_path() {
    let mut ctx: Ctx = voxtral_create();
    let a: TranscribeAction<f32> = voxtral_transcribe_file(&mut ctx, false);
    assert!(matches!(a, TranscribeAction::Finish { code: -1, text: None }));
    assert_eq!(err_of(&ctx).as_deref(), Some("wav_path is null"));
    let b: TranscribeAction<f32> = voxtral_transcribe_file(&mut ctx, true);
    assert!(matches!(b, TranscribeAction::LoadWav));
}

#[test]
fn pcm_parameters() {
    let mut ctx: Ctx = voxtral_create();
    for (given, n, rate) in [(false, 10, 16000), (true, 0, 16000), (true, 10, 0), (true, -5, 16000), (true, 10, -1)] {
        let a: TranscribeAction<f32> = voxtral_transcribe_pcm(&mut ctx, given, n, rate);
        assert!(matches!(a, TranscribeAction::Finish { code: -1, text: None }));
        assert_eq!(err_of(&ctx).as_deref(), Some("Invalid PCM parameters"));
    }
    let a: TranscribeAction<f32> = voxtral_transcribe_pcm(&mut ctx, true, 480, 44100);
    assert!(matches!(a, TranscribeAction::UseSamples { count: 480, sample_rate: 44100 }));
}

#[test]
fn wav_and_resample_errors() {
    let mut ctx: Ctx = loaded();
    let a: TranscribeAction<f32> = transcribe_step(&mut ctx, TranscribeEvent::AudioLoaded(Err("truncated".to_string())));
    assert!(matches!(a, TranscribeAction::Finish { code: -1, .. }));
    assert_eq!(err_of(&ctx).as_deref(), Some("Failed to load WAV file: truncated"));
    let b: TranscribeAction<f32> = transcribe_step(&mut ctx, TranscribeEvent::Resampled(Err("ratio".to_string())));
    assert!(matches!(b, TranscribeAction::Finish { code: -1, .. }));
    assert_eq!(err_of(&ctx).as_deref(), Some("Failed to resample audio: ratio"));
}

#[test]
fn other_rates_are_resampled() {
    let mut ctx: Ctx = voxtral_create();
    let a: TranscribeAction<f32> = transcribe_step(&mut ctx, TranscribeEvent::AudioLoaded(Ok(44100)));
    assert!(matches!(a, TranscribeAction::Resample));
    assert_eq!(err_of(&ctx), None);
}

#[test]
fn refused_without_model_then_tokenizer() {
    let mut ctx: Ctx = voxtral_create();
    let a: TranscribeAction<f32> = transcribe_step(&mut ctx, TranscribeEvent::AudioLoaded(Ok(16000)));
    assert!(matches!(a, TranscribeAction::Finish { code: -1, text: None }));
    assert_eq!(err_of(&ctx).as_deref(), Some("Model not loaded. Call voxtral_load_model first."));
    load_model_step(&mut ctx, LoadModelEvent::WeightsLoaded(Ok("model")));
    let b: TranscribeAction<f32> = transcribe_step(&mut ctx, TranscribeEvent::Resampled(Ok(())));
    assert!(matches!(b, TranscribeAction::Finish { code: -1, text: None }));
    assert_eq!(err_of(&ctx).as_deref(), Some("Tokenizer not loaded."));
}

#[test]
fn full_transcription() {
    let mut ctx: Ctx = loaded();
    let a: TranscribeAction<f32> = transcribe_step(&mut ctx, TranscribeEvent::AudioLoaded(Ok(16000)));
    assert!(matches!(a, TranscribeAction::ComputeMel));
    let frames = vec![vec![1.0f32, 2.0, 3.0], vec![4.0, 5.0, 6.0]];
    match transcribe_step(&mut ctx, TranscribeEvent::MelFrames { frames, fill: 0.0f32 }) {
        TranscribeAction::RunModel(g) => {
            assert_eq!(g.n_mels, 3);
            assert_eq!(g.n_frames, 2);
            assert_eq!(g.values, vec![1.0, 4.0, 2.0, 5.0, 3.0, 6.0]);
        },
        _ => panic!("expected the model stage"),
    }
    match transcribe_step::<_, _, f32>(&mut ctx, TranscribeEvent::TokensGenerated(vec![32, 1000, 7, 1500, 999])) {
        TranscribeAction::Decode(t) => assert_eq!(t, vec![1000u32, 1500]),
        _ => panic!("expected the decode stage"),
    }
    match transcribe_step::<_, _, f32>(&mut ctx, TranscribeEvent::Decoded(Ok("hello world".to_string()))) {
        TranscribeAction::Finish { code, text } => {
            assert_eq!(code, 0);
            assert_eq!(text.as_deref(), Some("hello world"));
        },
        _ => panic!("expected the end"),
    }
    assert_eq!(err_of(&ctx), None);
}

#[test]
fn too_short_audio() {
    let mut ctx: Ctx = loaded();
    let a = transcribe_step(&mut ctx, TranscribeEvent::<f32>::MelFrames { frames: vec![], fill: 0.0 });
    assert!(matches!(a, TranscribeAction::Finish { code: -1, text: None }));
    assert_eq!(err_of(&ctx).as_deref(), Some("Audio too short to produce mel frames"));
}

#[test]
fn decode_failure_and_nul_in_text() {
    let mut ctx: Ctx = loaded();
    let a = transcribe_step::<_, _, f32>(&mut ctx, TranscribeEvent::Decoded(Err("unknown id 70000".to_string())));
    assert!(matches!(a, TranscribeAction::Finish { code: -1, text: None }));
    assert_eq!(err_of(&ctx).as_deref(), Some("Failed to decode tokens: unknown id 70000"));
    let b = transcribe_step::<_, _, f32>(&mut ctx, TranscribeEvent::Decoded(Ok("a\0b".to_string())));
    assert!(matches!(b, TranscribeAction::Finish { code: -1, text: None }));
    assert_eq!(err_of(&ctx).as_deref(), Some("Transcription result contains null byte"));
}

#[test]
fn transcription_panic() {
    let mut ctx: Ctx = loaded();
    let a = transcribe_step::<_, _, f32>(&mut ctx, TranscribeEvent::Panicked(PanicPayload::Unknown));
    assert!(matches!(a, TranscribeAction::Finish { code: -1, text: None }));
    assert_eq!(err_of(&ctx).as_deref(), Some("Unknown panic in voxtral library"));
    assert_eq!(ctx.model(), Some(&"model"));
}

fn finish_text(a: TranscribeAction<f32>) -> (i32, Option<String>) {
    match a {
        TranscribeAction::Finish { code, text } => (code, text),
        _ => panic!("expected the end"),
    }
}

#[test]
fn file_and_buffer_agree() {
    let events = || {
        vec![
            TranscribeEvent::AudioLoaded(Ok(8000)),
            TranscribeEvent::Resampled(Ok(())),
            TranscribeEvent::MelFrames { frames: vec![vec![0.5f32, 0.25]], fill: 0.0 },
            TranscribeEvent::TokensGenerated(vec![1200, 3]),
            TranscribeEvent::Decoded(Ok("same".to_string())),
        ]
    };
    let mut by_file: Ctx = loaded();
    let mut by_buffer: Ctx = loaded();
    let mut a = voxtral_transcribe_file(&mut by_file, true);
    let mut b = voxtral_transcribe_pcm(&mut by_buffer, true, 8000, 8000);
    for (e1, e2) in events().into_iter().zip(events()) {
        a = transcribe_step(&mut by_file, e1);
        b = transcribe_step(&mut by_buffer, e2);
    }
    let (c1, t1) = finish_text(a);
    let (c2, t2) = finish_text(b);
    assert_eq!((c1, t1.as_deref()), (0, Some("same")));
    assert_eq!((c1, t1), (c2, t2));
    assert_eq!(err_of(&by_file), err_of(&by_buffer));
}
