//! The data shapes of speech synthesis: the prompt the backbone reads and
//! the codec's input made of the generated frames.

use vstd::prelude::*;

verus! {

/// The special token ids of the speech-synthesis vocabulary.
pub struct TtsSpecialTokens {
    pub bos_token_id: u32,
    pub begin_audio_token_id: u32,
    pub next_audio_text_token_id: u32,
    pub repeat_audio_text_token_id: u32,
}

/// One segment of the backbone's prompt, in embedding order.
pub enum PromptPart {
    /// The embedding of one token id.
    Token(i32),
    /// The embedding of the chosen voice.
    Voice,
    /// The embeddings of the text's token ids (none for an empty text).
    Text(Vec<i32>),
}

/// The abstract segment of a prompt.
pub enum PromptPiece {
    Token(i32),
    Voice,
    Text(Seq<i32>),
}

impl View for PromptPart {
    type V = PromptPiece;

    open spec fn view(&self) -> PromptPiece {
        match self {
            PromptPart::Token(t) => PromptPiece::Token(*t),
            PromptPart::Voice => PromptPiece::Voice,
            PromptPart::Text(ids) => PromptPiece::Text(ids@),
        }
    }
}

/// The abstract segments of a prompt.
pub open spec fn prompt_pieces(parts: Seq<PromptPart>) -> Seq<PromptPiece> {
    parts.map_values(|p: PromptPart| p@)
}

/// A text token id as the embedding table is indexed.
pub open spec fn embed_id(id: u32) -> i32 {
    id as i32
}

/// The prompt: beginning of sequence, beginning of audio, the voice, the
/// marker before text, the text, the marker that repeats text as audio, and
/// beginning of audio again.
pub open spec fn speech_prompt_spec(ids: Seq<u32>, special: TtsSpecialTokens) -> Seq<PromptPiece> {
    seq![
        PromptPiece::Token(embed_id(special.bos_token_id)),
        PromptPiece::Token(embed_id(special.begin_audio_token_id)),
        PromptPiece::Voice,
        PromptPiece::Token(embed_id(special.next_audio_text_token_id)),
        PromptPiece::Text(ids.map_values(|id: u32| embed_id(id))),
        PromptPiece::Token(embed_id(special.repeat_audio_text_token_id)),
        PromptPiece::Token(embed_id(special.begin_audio_token_id)),
    ]
}

/// Builds the backbone's prompt for the text's token ids.
pub fn speech_prompt(ids: &Vec<u32>, special: &TtsSpecialTokens) -> (r: Vec<PromptPart>)
    ensures
        prompt_pieces(r@) == speech_prompt_spec(ids@, *special),
{
    let mut text: Vec<i32> = Vec::new();
    let mut i: usize = 0;
    while i < ids.len()
        invariant
            i <= ids.len(),
            text@ == ids@.take(i as int).map_values(|id: u32| embed_id(id)),
        decreases ids.len() - i,
    {
        text.push(ids[i] as i32);
        i = i + 1;
        assert(text@ =~= ids@.take(i as int).map_values(|id: u32| embed_id(id)));
    }
    assert(ids@.take(ids.len() as int) =~= ids@);
    let mut r: Vec<PromptPart> = Vec::new();
    r.push(PromptPart::Token(special.bos_token_id as i32));
    r.push(PromptPart::Token(special.begin_audio_token_id as i32));
    r.push(PromptPart::Voice);
    r.push(PromptPart::Token(special.next_audio_text_token_id as i32));
    r.push(PromptPart::Text(text));
    r.push(PromptPart::Token(special.repeat_audio_text_token_id as i32));
    r.push(PromptPart::Token(special.begin_audio_token_id as i32));
    assert(prompt_pieces(r@) =~= speech_prompt_spec(ids@, *special));
    r
}

/// One frame the backbone generated: a semantic code and the acoustic levels.
pub struct GeneratedFrame<L> {
    pub semantic_idx: usize,
    pub acoustic_levels: Vec<L>,
}

/// The semantic codes of the frames, in order.
pub open spec fn semantic_codes<L>(frames: Seq<GeneratedFrame<L>>) -> Seq<usize> {
    frames.map_values(|f: GeneratedFrame<L>| f.semantic_idx)
}

/// The acoustic levels of the frames, frame after frame.
pub open spec fn acoustic_codes<L>(frames: Seq<GeneratedFrame<L>>) -> Seq<L> {
    frames.map_values(|f: GeneratedFrame<L>| f.acoustic_levels@).flatten()
}

/// The codec's input: the semantic codes and the acoustic levels, frame
/// after frame.
pub fn codec_codes<L: Copy>(frames: &Vec<GeneratedFrame<L>>) -> (r: (Vec<usize>, Vec<L>))
    ensures
        r.0@ == semantic_codes(frames@),
        r.1@ == acoustic_codes(frames@),
{
    let mut semantic: Vec<usize> = Vec::new();
    let mut acoustic: Vec<L> = Vec::new();
    let mut i: usize = 0;
    while i < frames.len()
        invariant
            i <= frames.len(),
            semantic@ == semantic_codes(frames@.take(i as int)),
            acoustic@ == acoustic_codes(frames@.take(i as int)),
        decreases frames.len() - i,
    {
        let frame = &frames[i];
        let ghost before = frames@.take(i as int).map_values(|f: GeneratedFrame<L>| f.acoustic_levels@);
        semantic.push(frame.semantic_idx);
        let mut j: usize = 0;
        let ghost start = acoustic@;
        while j < frame.acoustic_levels.len()
            invariant
                j <= frame.acoustic_levels.len(),
                acoustic@ == start + frame.acoustic_levels@.take(j as int),
            decreases frame.acoustic_levels.len() - j,
        {
            acoustic.push(frame.acoustic_levels[j]);
            j = j + 1;
            assert(acoustic@ =~= start + frame.acoustic_levels@.take(j as int));
        }
        assert(frame.acoustic_levels@.take(j as int) =~= frame.acoustic_levels@);
        proof {
            let after = frames@.take(i + 1).map_values(|f: GeneratedFrame<L>| f.acoustic_levels@);
            assert(after =~= before.push(frame.acoustic_levels@));
            before.lemma_flatten_push(frame.acoustic_levels@);
        }
        i = i + 1;
        assert(semantic@ =~= semantic_codes(frames@.take(i as int)));
    }
    assert(frames@.take(frames.len() as int) =~= frames@);
    (semantic, acoustic)
}

} // verus!
