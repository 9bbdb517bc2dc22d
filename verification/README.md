# voxtral

The control logic of the Voxtral C interface, with machine-checked proofs of
its contracts and of the properties that hold across calls.

The C interface offers two contexts: one for streaming speech recognition
(load a quantized model and its tokenizer, transcribe a WAV file or a buffer of
samples) and one for speech synthesis (load the model, a tokenizer and a voice,
then speak a text). Every call answers with a status code (`0` or `-1`) and, on
failure, leaves a readable error in its context.

`src/` holds what decides: which stage of a request runs next, which error a
failure reports and in which order the checks come, what a context keeps
loaded, and the reshaping of data between the stages (the log-mel layout the
encoder reads, the text tokens the tokenizer decodes, the prompt the speech
backbone reads, the codes the codec decodes).

- `report`: error texts, NUL detection, panic messages.
- `mel`: the mel-major layout of log-mel frames.
- `tokens`: the text tokens of the decoder's output.
- `asr`: the speech-recognition context and its loading and transcription steps.
- `prompt`: the speech prompt and the codec's input codes.
- `tts`: the speech-synthesis context and its loading and speaking steps.
- `session`: whole requests and sequences of calls, and the properties that
  hold over every such sequence (a recognition model only ever comes with its
  tokenizer; the synthesis parts load in any order, and once they have,
  speaking is never refused for a missing part; a file and a buffer of the
  same audio give the same result).
- `laws`: properties across operations (errors are always valid C strings,
  loaded parts stay loaded, the model's parts load together, a full load makes
  a context ready, the layout formulas).

Each request is a small state machine: the caller runs the stage the library
names (reading a file, running a model on the GPU), hands back what the stage
produced, and gets the next stage or the final status. `app/` is that caller:
the `extern "C"` functions, pointers and C strings, panics caught at the
boundary, and the numeric work on floating-point tensors.
