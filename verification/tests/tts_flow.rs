use voxtral::prompt::{GeneratedFrame, PromptPart, TtsSpecialTokens};
use voxtral::report::PanicPayload;
use voxtral::tts::{
    set_tts_error, speak_step, tts_load_step, voxtral_tts_create, voxtral_tts_last_error, voxtral_tts_load_model,
    voxtral_tts_load_tokenizer, voxtral_tts_load_voice, voxtral_tts_speak, SpeakAction, SpeakEvent, TtsLoadAction,
    TtsLoadEvent, TtsModelParts, VoxtralTtsCtx, ACOUSTIC_LEVELS_PER_FRAME, MAX_SPEECH_FRAMES, TTS_SAMPLE_RATE,
};

type Ctx = VoxtralTtsCtx<u8, u16, u32, u64, i8, i16>;

fn err_of(ctx: &Ctx) -> Option<String> {
    voxtral_tts_last_error(ctx).cloned()
}

fn parts() -> TtsModelParts<u8, u16, u32, u64> {
    TtsModelParts { backbone: 1, fm: 2, codec: 3, codebook: 4 }
}

fn ready() -> Ctx {
    let mut ctx: Ctx = voxtral_tts_create();
    assert!(matches!(tts_load_step(&mut ctx, TtsLoadEvent::GgufParsed(Ok(()))), TtsLoadAction::LoadWeights));
    assert!(matches!(tts_load_step(&mut ctx, TtsLoadEvent::WeightsLoaded(Ok(parts()))), TtsLoadAction::Finish(0)));
    assert!(matches!(tts_load_step(&mut ctx, TtsLoadEvent::TokenizerLoaded(Ok(6))), TtsLoadAction::Finish(0)));
    assert!(matches!(
        tts_load_step(&mut ctx, TtsLoadEvent::VoiceFileRead(Ok(()))),
        TtsLoadAction::DecodeVoice { dim: 3072 }
    ));
    assert!(matches!(tts_load_step(&mut ctx, TtsLoadEvent::VoiceLoaded(Ok(5))), TtsLoadAction::Finish(0)));
    ctx
}

fn special() -> TtsSpecialTokens {
    TtsSpecialTokens {
        bos_token_id: 1,
        begin_audio_token_id: 25,
        next_audio_text_token_id: 35,
        repeat_audio_text_token_id: 36,
    }
}

#[test]
fn load_requests_need_a_path() {
    assert!(matches!(voxtral_tts_load_model(false), TtsLoadAction::Finish(-1)));
    assert!(matches!(voxtral_tts_load_model(true), TtsLoadAction::ParseGguf));
    assert!(matches!(voxtral_tts_load_tokenizer(false), TtsLoadAction::Finish(-1)));
    assert!(matches!(voxtral_tts_load_tokenizer(true), TtsLoadAction::LoadTokenizer));
    assert!(matches!(voxtral_tts_load_voice(false), TtsLoadAction::Finish(-1)));
    assert!(matches!(voxtral_tts_load_voice(true), TtsLoadAction::ReadVoiceFile));
}

#[test]
fn model_parts_load_together() {
    let ctx = ready();
    assert_eq!(ctx.backbone(), Some(&1));
    assert_eq!(ctx.fm(), Some(&2));
    assert_eq!(ctx.codec(), Some(&3));
    assert_eq!(ctx.codebook(), Some(&4));
    assert_eq!(ctx.voice_embed(), Some(&5));
    assert_eq!(ctx.tokenizer(), Some(&6));
    assert_eq!(err_of(&ctx), None);
}

#[test]
fn load_errors() {
    let cases: Vec<(TtsLoadEvent<u8, u16, u32, u64, i8, i16>, &str)> = vec![
        (TtsLoadEvent::GgufParsed(Err("x".to_string())), "Failed to parse TTS GGUF: x"),
        (TtsLoadEvent::WeightsLoaded(Err("x".to_string())), "Failed to load TTS model: x"),
        (TtsLoadEvent::TokenizerLoaded(Err("x".to_string())), "Failed to load TTS tokenizer: x"),
        (TtsLoadEvent::VoiceFileRead(Err("x".to_string())), "Failed to read voice file: x"),
        (TtsLoadEvent::VoiceLoaded(Err("x".to_string())), "Failed to load voice: x"),
        (TtsLoadEvent::Panicked(PanicPayload::Unknown), "Unknown panic in voxtral TTS library"),
        (TtsLoadEvent::Panicked(PanicPayload::Message("index out of bounds".to_string())), "index out of bounds"),
    ];
    for (ev, msg) in cases {
        let mut ctx: Ctx = voxtral_tts_create();
        assert!(matches!(tts_load_step(&mut ctx, ev), TtsLoadAction::Finish(-1)));
        assert_eq!(err_of(&ctx).as_deref(), Some(msg));
        assert!(ctx.backbone().is_none() && ctx.fm().is_none() && ctx.codec().is_none() && ctx.codebook().is_none());
    }
}

#[test]
fn failed_voice_keeps_model() {
    let mut ctx = ready();
    tts_load_step(&mut ctx, TtsLoadEvent::VoiceLoaded(Err("shape".to_string())));
    assert_eq!(ctx.voice_embed(), Some(&5));
    assert_eq!(ctx.backbone(), Some(&1));
    assert_eq!(err_of(&ctx).as_deref(), Some("Failed to load voice: shape"));
}

#[test]
fn speak_without_text() {
    let mut ctx = ready();
    let a: SpeakAction<u8> = voxtral_tts_speak(&mut ctx, false);
    assert!(matches!(a, SpeakAction::Finish { code: -1, output: None }));
    assert_eq!(err_of(&ctx).as_deref(), Some("text is null"));
}

#[test]
fn speak_reports_first_missing_part() {
    let mut ctx: Ctx = voxtral_tts_create();
    let _: SpeakAction<u8> = voxtral_tts_speak(&mut ctx, true);
    assert_eq!(err_of(&ctx).as_deref(), Some("TTS model not loaded. Call voxtral_tts_load_model first."));
    tts_load_step(&mut ctx, TtsLoadEvent::WeightsLoaded(Ok(parts())));
    tts_load_step(&mut ctx, TtsLoadEvent::TokenizerLoaded(Ok(6)));
    let _: SpeakAction<u8> = voxtral_tts_speak(&mut ctx, true);
    assert_eq!(err_of(&ctx).as_deref(), Some("No voice loaded. Call voxtral_tts_load_voice first."));
    let mut ctx2: Ctx = voxtral_tts_create();
    tts_load_step(&mut ctx2, TtsLoadEvent::WeightsLoaded(Ok(parts())));
    tts_load_step(&mut ctx2, TtsLoadEvent::VoiceLoaded(Ok(5)));
    let a: SpeakAction<u8> = voxtral_tts_speak(&mut ctx2, true);
    assert!(matches!(a, SpeakAction::Finish { code: -1, output: None }));
    assert_eq!(err_of(&ctx2).as_deref(), Some("Tokenizer not loaded. Call voxtral_tts_load_tokenizer first."));
}

#[test]
fn full_speech() {
    let mut ctx = ready();
    assert!(matches!(voxtral_tts_speak::<_, _, _, _, _, _, u8>(&mut ctx, true), SpeakAction::Encode));
    match speak_step::<_, _, _, _, _, _, u8>(&mut ctx, SpeakEvent::Encoded { ids: vec![100, 200], special: special() }) {
        SpeakAction::Generate { prompt, max_frames } => {
            assert_eq!(max_frames, MAX_SPEECH_FRAMES);
            assert_eq!(max_frames, 750);
            assert_eq!(prompt.len(), 7);
            assert!(matches!(prompt[0], PromptPart::Token(1)));
            assert!(matches!(prompt[1], PromptPart::Token(25)));
            assert!(matches!(prompt[2], PromptPart::Voice));
            assert!(matches!(prompt[3], PromptPart::Token(35)));
            match &prompt[4] {
                PromptPart::Text(ids) => assert_eq!(ids, &vec![100, 200]),
                _ => panic!("expected the text"),
            }
            assert!(matches!(prompt[5], PromptPart::Token(36)));
            assert!(matches!(prompt[6], PromptPart::Token(25)));
        },
        _ => panic!("expected generation"),
    }
    let frames = vec![
        GeneratedFrame { semantic_idx: 7, acoustic_levels: vec![1u8, 2, 3] },
        GeneratedFrame { semantic_idx: 9, acoustic_levels: vec![4u8, 5, 6] },
    ];
    match speak_step(&mut ctx, SpeakEvent::Generated(Ok(frames))) {
        SpeakAction::DecodeAudio { semantic, acoustic, n_frames, levels_per_frame } => {
            assert_eq!(semantic, vec![7, 9]);
            assert_eq!(acoustic, vec![1, 2, 3, 4, 5, 6]);
            assert_eq!(n_frames, 2);
            assert_eq!(levels_per_frame, ACOUSTIC_LEVELS_PER_FRAME);
            assert_eq!(levels_per_frame, 36);
        },
        _ => panic!("expected decoding"),
    }
    match speak_step::<_, _, _, _, _, _, u8>(&mut ctx, SpeakEvent::Decoded { n_samples: 48000 }) {
        SpeakAction::AllocateOutput { num_samples } => assert_eq!(num_samples, 48000),
        _ => panic!("expected allocation"),
    }
    match speak_step::<_, _, _, _, _, _, u8>(&mut ctx, SpeakEvent::OutputAllocated { num_samples: 48000, allocated: true }) {
        SpeakAction::Finish { code, output: Some(out) } => {
            assert_eq!(code, 0);
            assert_eq!(out.num_samples, 48000);
            assert_eq!(out.sample_rate, TTS_SAMPLE_RATE);
            assert_eq!(out.sample_rate, 24000);
        },
        _ => panic!("expected the end"),
    }
    assert_eq!(err_of(&ctx), None);
}

#[test]
fn empty_speech() {
    let mut ctx = ready();
    match speak_step(&mut ctx, SpeakEvent::<u8>::Generated(Ok(vec![]))) {
        SpeakAction::Finish { code: 0, output: Some(out) } => {
            assert_eq!(out.num_samples, 0);
            assert_eq!(out.sample_rate, 24000);
        },
        _ => panic!("expected an empty result"),
    }
    match speak_step(&mut ctx, SpeakEvent::<u8>::Decoded { n_samples: 0 }) {
        SpeakAction::Finish { code: 0, output: Some(out) } => assert_eq!(out.num_samples, 0),
        _ => panic!("expected an empty result"),
    }
}

#[test]
fn speech_failures() {
    let mut ctx = ready();
    let a = speak_step(&mut ctx, SpeakEvent::<u8>::Generated(Err("no frames".to_string())));
    assert!(matches!(a, SpeakAction::Finish { code: -1, output: None }));
    assert_eq!(err_of(&ctx).as_deref(), Some("TTS generation failed: no frames"));
    let b = speak_step(&mut ctx, SpeakEvent::<u8>::OutputAllocated { num_samples: 10, allocated: false });
    assert!(matches!(b, SpeakAction::Finish { code: -1, output: None }));
    assert_eq!(err_of(&ctx).as_deref(), Some("Failed to allocate audio output buffer"));
    let c = speak_step(&mut ctx, SpeakEvent::<u8>::Panicked(PanicPayload::Unknown));
    assert!(matches!(c, SpeakAction::Finish { code: -1, output: None }));
    assert_eq!(err_of(&ctx).as_deref(), Some("Unknown panic in voxtral TTS library"));
    set_tts_error(&mut ctx, PanicPayload::Message("gpu lost".to_string()));
    assert_eq!(err_of(&ctx).as_deref(), Some("gpu lost"));
    assert_eq!(ctx.backbone(), Some(&1));
}

#[test]
fn empty_text_prompt() {
    let mut ctx = ready();
    match speak_step::<_, _, _, _, _, _, u8>(&mut ctx, SpeakEvent::Encoded { ids: vec![], special: special() }) {
        SpeakAction::Generate { prompt, .. } => {
            assert_eq!(prompt.len(), 7);
            match &prompt[4] {
                PromptPart::Text(ids) => assert!(ids.is_empty()),
                _ => panic!("expected the text"),
            }
        },
        _ => panic!("expected generation"),
    }
}

#[test]
fn tts_error_with_nul_clears_slot() {
    let mut ctx: Ctx = voxtral_tts_create();
    tts_load_step(&mut ctx, TtsLoadEvent::TokenizerLoaded(Err("bad".to_string())));
    assert_eq!(err_of(&ctx).as_deref(), Some("Failed to load TTS tokenizer: bad"));
    tts_load_step(&mut ctx, TtsLoadEvent::VoiceFileRead(Err("nul\0inside".to_string())));
    assert_eq!(err_of(&ctx), None);
}

#[test]
fn sample_count_as_c_int() {
    let mut ctx = ready();
    match speak_step(&mut ctx, SpeakEvent::<u8>::Decoded { n_samples: 1usize << 32 }) {
        SpeakAction::Finish { code: 0, output: Some(out) } => assert_eq!(out.num_samples, 0),
        _ => panic!("a count whose low 32 bits are zero ends with no samples"),
    }
    match speak_step(&mut ctx, SpeakEvent::<u8>::Decoded { n_samples: (1usize << 31) + 5 }) {
        SpeakAction::AllocateOutput { num_samples } => assert_eq!(num_samples, i32::MIN + 5),
        _ => panic!("expected allocation"),
    }
    match speak_step(&mut ctx, SpeakEvent::<u8>::Decoded { n_samples: 7 }) {
        SpeakAction::AllocateOutput { num_samples } => assert_eq!(num_samples, 7),
        _ => panic!("expected allocation"),
    }
}

#[test]
fn loads_in_another_order_with_calls_between() {
    let mut ctx: Ctx = voxtral_tts_create();
    assert!(matches!(tts_load_step(&mut ctx, TtsLoadEvent::VoiceFileRead(Ok(()))), TtsLoadAction::DecodeVoice { .. }));
    assert!(matches!(tts_load_step(&mut ctx, TtsLoadEvent::VoiceLoaded(Ok(5))), TtsLoadAction::Finish(0)));
    let refused: SpeakAction<u8> = voxtral_tts_speak(&mut ctx, true);
    assert!(matches!(refused, SpeakAction::Finish { code: -1, .. }));
    assert!(matches!(tts_load_step(&mut ctx, TtsLoadEvent::TokenizerLoaded(Ok(6))), TtsLoadAction::Finish(0)));
    tts_load_step(&mut ctx, TtsLoadEvent::GgufParsed(Err("first try".to_string())));
    tts_load_step(&mut ctx, TtsLoadEvent::GgufParsed(Ok(())));
    assert!(matches!(tts_load_step(&mut ctx, TtsLoadEvent::WeightsLoaded(Ok(parts()))), TtsLoadAction::Finish(0)));
    let a: SpeakAction<u8> = voxtral_tts_speak(&mut ctx, true);
    assert!(matches!(a, SpeakAction::Encode));
}
