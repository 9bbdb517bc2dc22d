//! The split between control tokens and text tokens in the decoder's output.

use vstd::prelude::*;

verus! {

/// Ids below this are control tokens of the streaming decoder; the text
/// tokenizer sees only the ids from here on.
pub const FIRST_TEXT_TOKEN: i32 = 1000;

/// A generated id as a text token, when it is one.
pub open spec fn as_text_token(t: i32) -> Option<u32> {
    if t >= FIRST_TEXT_TOKEN {
        Some(t as u32)
    } else {
        None
    }
}

/// The text tokens of a generated sequence, in order.
pub open spec fn text_tokens(tokens: Seq<i32>) -> Seq<u32> {
    tokens.filter_map(|t: i32| as_text_token(t))
}

/// Keeps the text tokens of the decoder's output, in order, as tokenizer ids.
pub fn filter_text_tokens(tokens: &Vec<i32>) -> (r: Vec<u32>)
    ensures
        r@ == text_tokens(tokens@),
{
    let mut out: Vec<u32> = Vec::new();
    let mut i: usize = 0;
    while i < tokens.len()
        invariant
            i <= tokens.len(),
            out@ == text_tokens(tokens@.take(i as int)),
        decreases tokens.len() - i,
    {
        let t = tokens[i];
        assert(tokens@.take(i + 1).drop_last() =~= tokens@.take(i as int));
        if t >= FIRST_TEXT_TOKEN {
            out.push(t as u32);
        }
        i = i + 1;
    }
    assert(tokens@.take(tokens.len() as int) =~= tokens@);
    out
}

} // verus!
