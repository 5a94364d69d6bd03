# pavilion

The logic of a film distribution platform, written in Verus and proved
against its specifications: signed, time-limited segment tokens and the
HLS/DASH manifests that carry them, the H.264 bitrate ladder and the pieces of
a transcode, the rights chain every playback request passes, licenses and
their pricing, storage billing, checkout and webhook handling, account and
content forms, and TMDB metadata enrichment.

Layout:

- `src/` — the verified library. `text` and `forms` model strings as
  character sequences; `bindings` holds the few calls into std and outside
  crates (base64, HMAC-SHA256) with the contracts they are trusted to meet;
  the other modules are the platform's rules, each public function with a
  contract and the cross-function properties as proof functions.
- `tests/` — executable tests of the library.
- `app/` — a small command-line front end: configuration from the
  environment, JSON Web Tokens, decimal money formatting, the TMDB JSON
  records, and running FFmpeg over the ladder.

Verify with Verus; the tests and the front end build with Cargo.
