# strawberry_fields

`StrawberryFields` lets a struct's fields be read, folded, searched and changed one after
the other, like the items of an iterator, without collecting them anywhere. Its contract
states what each method answers in terms of the struct's field values, in order of
declaration; `samples` holds two structs that implement it.

The attribute macros of the project are code generators from text to text, verified here:

- `fields_macro`: `strawberry_fields`, the implementation of `StrawberryFields` for a struct
  with named fields;
- `variants_macro`: `list_variants`, `test_variants_eq`, `test_variants_ne` and
  `for_each_variant`, with the grammar of their parameters in `arguments`;
- `syntax` recognises Rust syntax with `syn` and lexes with `proc-macro2`; `tokens` and
  `text` hold the token trees and the small text facts the generators need; `error` the
  refusals and their messages.

`app/` turns the macros' token streams into text and back.

An implementation that `strawberry_fields` generates is ordinary Rust: it defines neither
`field_values` nor `lemma_field_count`, so it is not checked against the trait's contract.
What is proved of it is a property of the generated text: every method visits every field
once, in order of declaration (`law_every_field_visited_in_order`).
