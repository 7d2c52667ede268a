# caesura

The verified core of caesura, a tool that verifies FLAC sources, transcodes
them and uploads the transcodes to gazelle based indexers.

- `src/` is the library, written in Verus: option validation and issue
  rendering, torrent metadata rules (piece length, source tags, duplication,
  piece-by-piece content verification), the attribute grammar of the options
  and command derives, transcode and upload planning, batch and queue
  bookkeeping, the sub directory check of a source, and error messages.
  The public functions state what they return in their contracts; a few
  private helpers that only convert or copy carry none. The laws that span
  several functions are public proof functions.
- `tests/` runs the library on concrete values.
- `app/` holds the input and output around it: reading and writing
  `.torrent` files with `lava_torrent`, reading content files, running
  metadata tools, requests to the indexer API and logging.
