# promptogether

The logic of the promptogether backend (prompt gallery API, background job
queue, gallery seeding) and of the `video-to-markdown` transcription tool,
written in Verus with its contracts proved.

- `src/` is the verified library. Each module states its behaviour over
  mathematical models (`Seq<char>` for text, spec functions for formats and
  rules) and proves the executable code against it: slug validation and the
  gallery's visibility rules, job dispatch, retry and backoff, lease expiry,
  the worker's settings and its scheduling decisions (claim, spawn, sleep,
  wait, drain), the log filter check, the curated gallery dataset and the
  plan and counts of a seed run, the Markdown file name and document, the
  calendar arithmetic of timestamps, the audio chunk selection, the response checks of the speech and cleanup
  providers, and every error message.
- `tests/` exercises the library on concrete values.
- `app/` holds the processes around it: the axum server, the SQLite queries,
  the worker's tasks and timers, ffmpeg and whisper-cli invocations, the
  provider clients, argument parsing, and the serialisable copies of the wire
  types.
