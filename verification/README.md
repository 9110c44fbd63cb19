# kvlint

A linter and optimizer for LLM prompt files that keeps the prompt prefix stable,
so that prefix KV-caching (vLLM APC, SGLang RadixAttention, hosted prompt caching)
can reuse it.

- `src/` is the verified library:
  - `text`: line splitting and trimming with the semantics of `str::lines` and `str::trim`;
  - `pattern`: compiled regular expressions (the `regex` crate, behind trusted wrappers);
  - `rules`: the rules KV001–KV010 and what each reports, line by line;
  - `analyzer`: running every rule over a file, and the cache efficiency score;
  - `optimizer`: moving timestamp and session lines to a dynamic tail;
  - `scanner`, `report`, `benchmark`, `config`: file selection, report helpers,
    token volume estimates and settings.
- `app/` is the command-line program (scan, fix, benchmark, rules, interactive menu).
- `tests/` runs the library with the real `regex` crate.
