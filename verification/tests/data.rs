use voxtral::mel::{mel_grid, MelGrid};
use voxtral::prompt::{codec_codes, speech_prompt, GeneratedFrame, PromptPart, TtsSpecialTokens};
use voxtral::report::{contains_nul, panic_message, with_detail, PanicPayload};
use voxtral::tokens::{filter_text_tokens, FIRST_TEXT_TOKEN};

#[test]
fn mel_layout_is_mel_major() {
    let frames = vec![vec![10u16, 11], vec![20, 21], vec![30, 31]];
    let g: MelGrid<u16> = mel_grid(&frames, 0).ok().unwrap();
    assert_eq!(g.n_mels, 2);
    assert_eq!(g.n_frames, 3);
    assert_eq!(g.values, vec![10, 20, 30, 11, 21, 31]);
    for m in 0..2 {
        for f in 0..3 {
            assert_eq!(g.values[m * 3 + f], frames[f][m]);
        }
    }
}

#[test]
fn mel_short_frame_is_filled() {
    let frames = vec![vec![1.5f32, 2.5, 3.5], vec![4.5]];
    let g = mel_grid(&frames, 0.0f32).ok().unwrap();
    assert_eq!(g.values, vec![1.5, 4.5, 2.5, 0.0, 3.5, 0.0]);
}

#[test]
fn mel_single_frame() {
    let frames = vec![vec![7i8, 8, 9]];
    let g = mel_grid(&frames, 0).ok().unwrap();
    assert_eq!((g.n_mels, g.n_frames), (3, 1));
    assert_eq!(g.values, vec![7, 8, 9]);
}

#[test]
fn mel_no_frames() {
    let frames: Vec<Vec<f32>> = vec![];
    match mel_grid(&frames, 0.0) {
        Err(e) => assert_eq!(e, "Audio too short to produce mel frames"),
        Ok(_) => panic!("expected an error"),
    }
}

#[test]
fn text_tokens_filter() {
    assert_eq!(FIRST_TEXT_TOKEN, 1000);
    assert_eq!(filter_text_tokens(&vec![]), Vec::<u32>::new());
    assert_eq!(filter_text_tokens(&vec![0, 1, 999, -1, i32::MIN]), Vec::<u32>::new());
    assert_eq!(filter_text_tokens(&vec![1000, 999, 1001, i32::MAX, 2]), vec![1000, 1001, i32::MAX as u32]);
    let all_text = vec![1000, 4000, 123456];
    assert_eq!(filter_text_tokens(&all_text), vec![1000u32, 4000, 123456]);
}

#[test]
fn prompt_casts_ids() {
    let sp = TtsSpecialTokens {
        bos_token_id: 1,
        begin_audio_token_id: 2,
        next_audio_text_token_id: 3,
        repeat_audio_text_token_id: 4,
    };
    let p = speech_prompt(&vec![u32::MAX, 5], &sp);
    match &p[4] {
        PromptPart::Text(ids) => assert_eq!(ids, &vec![-1, 5]),
        _ => panic!("expected the text"),
    }
    assert!(matches!(p[0], PromptPart::Token(1)));
    assert!(matches!(p[6], PromptPart::Token(2)));
}

#[test]
fn codec_codes_of_frames() {
    let frames = vec![
        GeneratedFrame { semantic_idx: 3, acoustic_levels: vec![0u32; 36] },
        GeneratedFrame { semantic_idx: 8, acoustic_levels: (0..36u32).collect() },
    ];
    let (semantic, acoustic) = codec_codes(&frames);
    assert_eq!(semantic, vec![3, 8]);
    assert_eq!(acoustic.len(), 72);
    assert_eq!(acoustic[36..], (0..36u32).collect::<Vec<_>>()[..]);
    let (s2, a2) = codec_codes::<u8>(&vec![]);
    assert!(s2.is_empty() && a2.is_empty());
}

#[test]
fn text_helpers() {
    assert!(!contains_nul("plain text"));
    assert!(contains_nul("\0"));
    assert!(contains_nul("héllo\0wörld"));
    assert!(!contains_nul(""));
    assert_eq!(with_detail("Failed to load voice: ", "bad header"), "Failed to load voice: bad header");
    assert_eq!(panic_message(PanicPayload::Message("m".to_string()), "fallback"), "m");
    assert_eq!(panic_message(PanicPayload::Unknown, "fallback"), "fallback");
}
