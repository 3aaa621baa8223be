# oxideav-audiotoolbox

A bridge to the codecs of macOS's AudioToolbox: AAC (LC, HE, HE v2, LD, ELD), Apple
Lossless, FLAC, Opus and iLBC in both directions; AMR-NB, AMR-WB and MPEG audio Layers I
to III for decoding.

`src/` is the library, proved with Verus. It holds

* the formats: `adts`, `alac`, `amr`, `amr_wb`, `flac`, `ilbc`, `mp3`, `opus`, with what is
  read and written in them, and `bytes`, `text` and `numeral` underneath;
* the sessions with an AudioConverter: `session` for decoding, `feed` and `encode` for
  encoding, and one module for each decoder and encoder. A session says what to ask of a
  converter next, hands over its input, and takes its answer;
* `status` and `error`: every status of the framework by name, and the error it becomes;
* `converter` and `inventory`: the properties of converters and of the system;
* `registry`: which codecs are registered on a system with a given inventory;
* `sys` and `params`: the descriptions of streams.

`app/` opens the framework at run time, makes the calls that the sessions ask for, and
presents the codecs to `oxideav_core`.

The library never calls the framework. A caller from outside Verus has to keep the
`requires` of the functions it calls: sessions and codecs come out of their `new` sound
and stay so, and an answer is handed to a session only while a fill is under way.
