# dezleks

The verified core of Dezleks, a reading aid that takes a photo of a page, finds the
text on it and reads it back: the image pipeline, the OCR and language-model request
logic, the model download bookkeeping and the desktop tool setup, each function with a
Verus contract.

- `src/` is the library, checked by Verus.
  - `text`: Unicode white space, trimming, comparison.
  - `filename`: cleaning a model file name and taking one from a URL.
  - `encoding`: standard Base64, specified byte by byte, with its round-trip law.
  - `imaging`: decoded images seen as pixel grids, and the `image` crate's rotations,
    mirrorings, crops, resizing and PNG writing on them.
  - `processing`: payload decoding, EXIF orientation, region of interest, downscaling,
    rotating and re-encoding.
  - `requests`: engine choice, model path, prompts, print and speech settings, tool
    output and error texts.
  - `download`: download progress and when to report it.
  - `setup`: the order in which the `litert-lm` command is looked for and installed,
    as a state machine.
  - `runner`: the Java OCR runner's libraries, class path and output.
- `tests/` runs the library on concrete values.
- `app/` is the Tauri application around it: commands, files, processes, network, and
  the perspective correction, which works in floating point.
