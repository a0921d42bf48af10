# tela

The platform-independent core of the tela UI base, written in Verus: the functions in `src/`
carry `requires`/`ensures` contracts that Verus proves. Calls into `sha2`, `hex`,
`serde_json`, `std`'s clock and a few `String` operations sit behind small trusted wrappers
whose contracts state what those functions document.

- `src/` — the verified library, crate `tela`: calendar conversion, semantic
  versions, bundle manifest validation and development-bundle admission, SHA-256 digests
  (through `sha2` and `hex`), keyboard/touch/text-channel normalization for the AppKit, Win32
  and mobile hosts, the session driver that moves frames from candidate to presented,
  presentation-outcome policy, RGBA8 mip chains, pixel rectangles, fonts, icons, device
  provider readings and the log filter.
- `tests/` — executable tests of the library.
- `app/` — unverified host glue: serde forms of the manifest types, the process-wide logger,
  error display texts, environment switches and floating-point helpers.
