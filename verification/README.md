# sekejap_lang

The statement language of a small multi-model database: an SQL subset over
rows, text, places, vectors and graphs, as a verified library.

- `src/parser` reads tokens to a statement. What the language does not have is
  refused by name (`src/refuse.rs`), never skipped.
- `src/compile` turns a statement into a plan: filters that name an index, an
  order, a select list, a write. `compile/rebind.rs` fills a plan's slots from
  new parameters; `compile/again.rs` proves that this is compiling again.
  `compile/slots.rs` that it keeps the plan's shape. `compile/windows.rs` proves
  that a range stands for the predicate it replaced, `compile/constants.rs` what
  a constant condition does, `compile/tight.rs` what a plan reads, and
  `compile/listed.rs` the order of a catalog's rows.
  `compile/run.rs` decides each step of a write from what the last one answered.
- `src/catalog` holds the relations that describe the database itself;
  `catalog/agree.rs` proves that they speak of the same tables.
- `src/json.rs` reads JSON one level at a time, through `serde_json`.
- `src/explain.rs` prints what a plan does and what it cost.
- What only the engine can say is asked of it first and handed in: whether a
  text is a UUID (`parser/namespaces.rs` lists the texts), whether numbers make a
  point or a rectangle (`compile/places.rs` lists the places), and what the inner
  side of a semi-join holds (`compile/reads.rs`).
- `app` runs statements against an engine: the clock, floating point and the
  engine's calls are there.

Every executable type has a ghost view, named with a trailing `V`, and every
contract is stated over those views. A function `x` that computes is specified
by a function on views, most often called `x_of`.
