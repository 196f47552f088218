# protoschema

Define protobuf packages programmatically, with verified bookkeeping.

A `Package` holds every file, message, enum and service defined in it; the
builders (`FileBuilder`, `MessageBuilder`, `EnumBuilder`, `ServiceBuilder`) are
indices into it, and each of their methods takes the package it works on.
Messages and enums get their full names from the messages they are nested in,
fields are kept sorted by number, and each file collects the imports that its
fields, oneofs, extensions and services need. `Package::build_templates` gathers
the data of each `.proto` file to write.

The `validators` module turns protovalidate rules into the options that carry
them, with checks for contradictory rules.

Layout:

- `src/` — the library, verified with Verus: every public function states what
  it returns or changes, and the laws that tie the functions together (names,
  imports, ordering, escaping) are proved as proof functions.
- `tests/` — tests of the library.
- `app/` — what stays outside the verified library: writing the files to disk,
  rules on floating point fields, and checked constructors that panic on
  contradictory rules.
