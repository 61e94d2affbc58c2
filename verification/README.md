# witnessed

Values that carry, in their type, a fact established for them at a construction boundary.

* `Witnessed<T, W>` — a `T` that crossed a boundary producing the witness token `W`
  (`value.witness().by(prove)`), or that `W::attest` accepted (`Witnessed::try_new`), or that a
  `Warrant` rule derived. `W` is not stored at runtime.
* `WitnessedIn<'a, Env, T, W>` — a `T` that `W::verify_in` accepted relative to the borrowed
  environment it keeps. That acceptance is the type invariant.
* `WitnessedInOwned<Env, T, W>` — the same fact relative to an environment of type `Env` that
  is kept only in specifications.

Layout of `src/`:

* `witnessed.rs`, `witnessing.rs`, `witness_ext.rs` — the wrapper, the builder and the
  extension trait that starts `value.witness().by(prove)`.
* `witness.rs`, `intrinsic/warrant.rs` — the `Witness` trait and derivation rules for
  absolute facts.
* `contextual/` — `WitnessIn`, `WarrantIn`, `WitnessedIn`, `WitnessedInOwned`.
* `laws.rs` — equality and ordering of the wrappers follow those of the values.
* `formatting.rs` — declarations of std's formatting types used by the `Debug` impls.

Everything in `src/` is verified; the `Debug`, `Hash` and `Ord::cmp` impls call
std's formatting, hashing and comparison and are trusted.
