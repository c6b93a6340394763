# camino-anchored

UTF-8 paths with explicit resolution and base-relative display, verified
with Verus.

* `src/text.rs` — path text: separators (those of the target platform),
  trimming, the spelling-preserving remainder, and the component
  normalization of Unix-like targets, with the lemmas about them; also the
  executable text helpers.
* `src/native.rs` — the calls into `camino` and `std::path`, each with the
  contract the library relies on. What the platform decides (separators,
  absoluteness, Windows prefixes, joining, equality) is a named result of
  the call; `unix_rules` states what those names are on Unix-like targets.
* `src/errors.rs` — error kinds and errors, with their exact messages.
* `src/paths.rs` — `AbsUtf8PathBuf` and `RelUtf8PathBuf`: construction,
  joining, parents, and stripping a base while keeping the spelling.
* `src/resolution.rs` — `PathAnchor`, `AnchoredPath`, `DisplayPath`.
* `src/laws.rs` — properties relating the operations (strip inverts join,
  rejoining a stripped path names the same path, resolution of inputs, ...),
  most of them stated for targets with the Unix path rules.
* `app/` — process-state access: the current directory, `PWD`, and the file
  system check of whether two paths name the same directory.
