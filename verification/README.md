# Type switches, verified

Booleans as types ([`True`], [`False`]) with their logic (`Not`, `And`, `Or`,
`XOr`), and storages that hold a `T` when a type-level condition is true and an
`F` when it is false (`SwitchCell`, `SwitchUnion`).

Layout of `src/`:

- `bools.rs`: the `Bool` trait, `Cond`, `True`/`False`, and one trait per logic
  gate, each with a lemma that states its truth table.
- `switch.rs`: `Branch` (a tagged view of what a switch holds), `BoolEither`
  (the `Switch<B, T, F>` type), the `SwitchStorage` trait (with `SwitchBuild`
  for storages that can be made from a value and `SwitchBorrow` for storages
  whose value can be borrowed in place) and its impls for `SwitchCell`,
  `SwitchUnion`, shared references to them, and pairs of storages with one
  condition. Reference storages can be read but not made, and a mutable
  reference is not a storage: mutable access goes through `as_branch_mut`,
  `into_true_mut`, `into_false_mut` and `switch_match_mut`.
- `bool_macro_help.rs`: reading a storage's condition, taking its value out of
  the side the condition names (by value or through a mutable borrow), and
  storing a value on that side.
- `switch_ops.rs`: `switch_match`, `switch_match_mut`, `switch_map` and
  `switch_new`, which run the closure of the condition's side only.
- `switch_traits.rs`: `PartialEq`, `PartialOrd`, `Clone` and `Default` for the
  storages, each working on the value held; `Ord` is derived for both, and
  `Hash` for `SwitchCell` only (a derived `Hash` on `SwitchUnion` would also
  hash which side is held, so it would not hash like the value it holds).
- `laws.rs`: double negation and the round trips between storages and values.
