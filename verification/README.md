# proc-macro-warning

Emit deprecation warnings from inside procedural macros, with the logic
verified by Verus.

- `src/builder.rs`: `DeprecatedWarningBuilder`, which collects the title,
  index, deprecated and replacing usage, help links and span, and builds a
  `Warning` or says which part is missing.
- `src/warning.rs`: `Warning` and `FormattedWarning`, the item name of a
  warning (title and index) and its note (the message trimmed, each line
  indented, the help links listed).
- `src/text.rs`: whitespace, trimming, lines, joining and decimal numbers
  over characters.
- `src/ident.rs`: which strings can name an item.
- `src/outside.rs`: the items of proc-macro2, unicode-ident and std that
  the library relies on.
- `src/laws.rs`: properties that span several functions.
- `app/lib.rs`: the expansion of warnings into tokens (`quote::ToTokens`)
  and the derive expansions that exercise it.
