//! The code that `strawberry_fields` generates: an implementation of `StrawberryFields`
//! for a struct with named fields, in which every method visits every field once, in
//! order of declaration.
use crate::error::{outcome_view, MacroError, MacroErrorView};
use crate::syntax::{
    lex, lexed, parse_struct, parse_type, parsed_struct, parses_as_type, struct_error, type_error,
    StructItem, StructShape,
};
use crate::text::{
    decimal, lemma_occurs_in_concat, lemma_occurs_in_part, lemma_occurs_in_self,
    lemma_occurs_in_transitive, occurs_in, push_decimal,
};
use vstd::prelude::*;
use vstd::string::StringExecFns;

verus! {

/// `before + name + after` for every name, in order.
pub open spec fn per_field(names: Seq<Seq<char>>, before: Seq<char>, after: Seq<char>) -> Seq<
    char,
>
    decreases names.len(),
{
    if names.len() == 0 {
        Seq::empty()
    } else {
        per_field(names.drop_last(), before, after) + before + names.last() + after
    }
}

/// `before + name + middle + name + after` for every name, in order.
pub open spec fn per_field_twice(
    names: Seq<Seq<char>>,
    before: Seq<char>,
    middle: Seq<char>,
    after: Seq<char>,
) -> Seq<char>
    decreases names.len(),
{
    if names.len() == 0 {
        Seq::empty()
    } else {
        per_field_twice(names.drop_last(), before, middle, after) + before + names.last() + middle
            + names.last() + after
    }
}

/// Appends `before + name + after` for every name to `out`.
fn push_per_field(out: &mut String, names: &Vec<String>, before: &str, after: &str)
    ensures
        final(out)@ == old(out)@ + per_field(names@.map_values(|s: String| s@), before@, after@),
{
    let ghost start = out@;
    let ghost all = names@.map_values(|s: String| s@);
    let mut i: usize = 0;
    while i < names.len()
        invariant
            i <= names.len(),
            all == names@.map_values(|s: String| s@),
            out@ == start + per_field(all.take(i as int), before@, after@),
        decreases names.len() - i,
    {
        out.append(before);
        out.append(names[i].as_str());
        out.append(after);
        assert(all.take(i + 1).drop_last() =~= all.take(i as int));
        assert(out@ =~= start + per_field(all.take(i + 1), before@, after@));
        i = i + 1;
    }
    assert(all.take(names.len() as int) =~= all);
}

/// Appends `before + name + middle + name + after` for every name to `out`.
fn push_per_field_twice(
    out: &mut String,
    names: &Vec<String>,
    before: &str,
    middle: &str,
    after: &str,
)
    ensures
        final(out)@ == old(out)@ + per_field_twice(
            names@.map_values(|s: String| s@),
            before@,
            middle@,
            after@,
        ),
{
    let ghost start = out@;
    let ghost all = names@.map_values(|s: String| s@);
    let mut i: usize = 0;
    while i < names.len()
        invariant
            i <= names.len(),
            all == names@.map_values(|s: String| s@),
            out@ == start + per_field_twice(all.take(i as int), before@, middle@, after@),
        decreases names.len() - i,
    {
        out.append(before);
        out.append(names[i].as_str());
        out.append(middle);
        out.append(names[i].as_str());
        out.append(after);
        assert(all.take(i + 1).drop_last() =~= all.take(i as int));
        assert(out@ =~= start + per_field_twice(all.take(i + 1), before@, middle@, after@));
        i = i + 1;
    }
    assert(all.take(names.len() as int) =~= all);
}

/// Whether every field has a name.
pub open spec fn all_named(fields: Seq<Option<Seq<char>>>) -> bool {
    forall|i: int| 0 <= i < fields.len() ==> #[trigger] fields[i] is Some
}

/// The names of fields that all have one.
pub open spec fn names_of(fields: Seq<Option<Seq<char>>>) -> Seq<Seq<char>> {
    fields.map_values(|o: Option<Seq<char>>| o.unwrap())
}

/// A method whose body visits every field: `head`, then `before + name + after` for every
/// name, then `tail`.
pub open spec fn method_text(
    names: Seq<Seq<char>>,
    head: Seq<char>,
    before: Seq<char>,
    after: Seq<char>,
    tail: Seq<char>,
) -> Seq<char> {
    head + per_field(names, before, after) + tail
}

/// A method whose body names every field twice: `head`, then
/// `before + name + middle + name + after` for every name, then `tail`.
pub open spec fn method_text_twice(
    names: Seq<Seq<char>>,
    head: Seq<char>,
    before: Seq<char>,
    middle: Seq<char>,
    after: Seq<char>,
    tail: Seq<char>,
) -> Seq<char> {
    head + per_field_twice(names, before, middle, after) + tail
}

/// The methods that read the fields with a predicate, for fields named `names`.
pub open spec fn predicate_methods_text(names: Seq<Seq<char>>) -> Seq<char> {
    method_text(
        names,
        "fn all_fields<P: FnMut(Self::Argument) -> bool>(self, mut predicate: P) -> bool { "@,
        "if !predicate(self."@,
        ") { return false; } "@,
        "true } "@,
    ) + method_text(
        names,
        "fn all_fields_ref<P: FnMut(&Self::Argument) -> bool>(&self, mut predicate: P) -> bool { "@,
        "if !predicate(&self."@,
        ") { return false; } "@,
        "true } "@,
    ) + method_text(
        names,
        "fn any_fields<P: FnMut(Self::Argument) -> bool>(self, mut predicate: P) -> bool { "@,
        "if predicate(self."@,
        ") { return true; } "@,
        "false } "@,
    ) + method_text(
        names,
        "fn any_fields_ref<P: FnMut(&Self::Argument) -> bool>(&self, mut predicate: P) -> bool { "@,
        "if predicate(&self."@,
        ") { return true; } "@,
        "false } "@,
    ) + method_text_twice(
        names,
        "fn find_field<P: FnMut(&Self::Argument) -> bool>(self, mut predicate: P) -> Option<Self::Argument> { "@,
        "if predicate(&self."@,
        ") { return Some(self."@,
        "); } "@,
        "None } "@,
    ) + method_text_twice(
        names,
        "fn find_field_ref<P: FnMut(&Self::Argument) -> bool>(&self, mut predicate: P) -> Option<&Self::Argument> { "@,
        "if predicate(&self."@,
        ") { return Some(&self."@,
        "); } "@,
        "None } "@,
    )
}

/// The methods that fold the fields or hand them to a function, for fields named `names`.
pub open spec fn function_methods_text(names: Seq<Seq<char>>) -> Seq<char> {
    method_text(
        names,
        "fn fold_fields<Acc, F: FnMut(Self::Argument, Acc) -> Acc>(self, initial: Acc, mut function: F) -> Acc { let mut accumulator = initial; "@,
        "accumulator = function(self."@,
        ", accumulator); "@,
        "accumulator } "@,
    ) + method_text(
        names,
        "fn fold_fields_ref<Acc, F: FnMut(&Self::Argument, Acc) -> Acc>(&self, initial: Acc, mut function: F) -> Acc { let mut accumulator = initial; "@,
        "accumulator = function(&self."@,
        ", accumulator); "@,
        "accumulator } "@,
    ) + method_text(
        names,
        "fn for_fields<F: FnMut(Self::Argument)>(self, mut function: F) { "@,
        "function(self."@,
        "); "@,
        "} "@,
    ) + method_text(
        names,
        "fn for_fields_ref<F: FnMut(&Self::Argument)>(&self, mut function: F) { "@,
        "function(&self."@,
        "); "@,
        "} "@,
    ) + method_text(
        names,
        "fn for_fields_mut<F: FnMut(&mut Self::Argument)>(&mut self, mut function: F) { "@,
        "function(&mut self."@,
        "); "@,
        "} "@,
    )
}

/// The methods of the generated implementation, for fields named `names`.
pub open spec fn methods_text(names: Seq<Seq<char>>) -> Seq<char> {
    predicate_methods_text(names) + function_methods_text(names)
}

/// The text that `strawberry_fields` generates for the struct `definition`, of shape
/// `shape`, whose fields are named `names`, with `Argument = argument`: the definition,
/// then the implementation.
pub open spec fn fields_impl_text(
    argument: Seq<char>,
    definition: Seq<char>,
    shape: StructShape,
    names: Seq<Seq<char>>,
) -> Seq<char> {
    definition + " impl "@ + shape.impl_generics + " strawberry_fields::StrawberryFields for "@
        + shape.name + " "@ + shape.type_generics + " "@ + shape.where_clause + " { type Argument = "@
        + argument + "; const FIELD_COUNT: usize = "@ + decimal(names.len()) + "usize; "@
        + methods_text(names) + "}"@
}

/// What `fields_impl` answers for a struct of shape `shape`.
pub open spec fn fields_impl_outcome(
    argument: Seq<char>,
    definition: Seq<char>,
    shape: StructShape,
) -> Result<Seq<char>, MacroErrorView> {
    if all_named(shape.field_names) {
        Ok(fields_impl_text(argument, definition, shape, names_of(shape.field_names)))
    } else {
        Err(MacroErrorView::UnnamedField)
    }
}

/// Whether a text holds no token at all: it is empty, or only white space and comments.
pub open spec fn blank(text: Seq<char>) -> bool {
    match lexed(text) {
        Some(t) => t.len() == 0,
        None => false,
    }
}

/// What `strawberry_fields` answers for the type parameter `argument` and the item `input`.
pub open spec fn strawberry_fields_outcome(argument: Seq<char>, input: Seq<char>) -> Result<
    Seq<char>,
    MacroErrorView,
> {
    if blank(argument) {
        Err(MacroErrorView::EmptyTypeParameter)
    } else if !parses_as_type(argument) {
        Err(MacroErrorView::NotAType(type_error(argument)))
    } else {
        match parsed_struct(input) {
            None => Err(MacroErrorView::NotAStruct(struct_error(input))),
            Some(shape) => fields_impl_outcome(argument, input, shape),
        }
    }
}

/// Appends a method whose body visits every field to `out`.
fn push_method(
    out: &mut String,
    names: &Vec<String>,
    head: &str,
    before: &str,
    after: &str,
    tail: &str,
)
    ensures
        final(out)@ == old(out)@ + method_text(
            names@.map_values(|s: String| s@),
            head@,
            before@,
            after@,
            tail@,
        ),
{
    let ghost start = out@;
    out.append(head);
    push_per_field(out, names, before, after);
    out.append(tail);
    assert(out@ =~= start + method_text(
        names@.map_values(|s: String| s@),
        head@,
        before@,
        after@,
        tail@,
    ));
}

/// Appends a method whose body names every field twice to `out`.
fn push_method_twice(
    out: &mut String,
    names: &Vec<String>,
    head: &str,
    before: &str,
    middle: &str,
    after: &str,
    tail: &str,
)
    ensures
        final(out)@ == old(out)@ + method_text_twice(
            names@.map_values(|s: String| s@),
            head@,
            before@,
            middle@,
            after@,
            tail@,
        ),
{
    let ghost start = out@;
    out.append(head);
    push_per_field_twice(out, names, before, middle, after);
    out.append(tail);
    assert(out@ =~= start + method_text_twice(
        names@.map_values(|s: String| s@),
        head@,
        before@,
        middle@,
        after@,
        tail@,
    ));
}

/// Appends the methods that read the fields with a predicate to `out`.
fn push_predicate_methods(out: &mut String, names: &Vec<String>)
    ensures
        final(out)@ == old(out)@ + predicate_methods_text(names@.map_values(|s: String| s@)),
{
    let ghost start = out@;
    push_method(
        out,
        names,
        "fn all_fields<P: FnMut(Self::Argument) -> bool>(self, mut predicate: P) -> bool { ",
        "if !predicate(self.",
        ") { return false; } ",
        "true } ",
    );
    push_method(
        out,
        names,
        "fn all_fields_ref<P: FnMut(&Self::Argument) -> bool>(&self, mut predicate: P) -> bool { ",
        "if !predicate(&self.",
        ") { return false; } ",
        "true } ",
    );
    push_method(
        out,
        names,
        "fn any_fields<P: FnMut(Self::Argument) -> bool>(self, mut predicate: P) -> bool { ",
        "if predicate(self.",
        ") { return true; } ",
        "false } ",
    );
    push_method(
        out,
        names,
        "fn any_fields_ref<P: FnMut(&Self::Argument) -> bool>(&self, mut predicate: P) -> bool { ",
        "if predicate(&self.",
        ") { return true; } ",
        "false } ",
    );
    push_method_twice(
        out,
        names,
        "fn find_field<P: FnMut(&Self::Argument) -> bool>(self, mut predicate: P) -> Option<Self::Argument> { ",
        "if predicate(&self.",
        ") { return Some(self.",
        "); } ",
        "None } ",
    );
    push_method_twice(
        out,
        names,
        "fn find_field_ref<P: FnMut(&Self::Argument) -> bool>(&self, mut predicate: P) -> Option<&Self::Argument> { ",
        "if predicate(&self.",
        ") { return Some(&self.",
        "); } ",
        "None } ",
    );
    assert(out@ =~= start + predicate_methods_text(names@.map_values(|s: String| s@)));
}

/// Appends the methods that fold the fields or hand them to a function to `out`.
fn push_function_methods(out: &mut String, names: &Vec<String>)
    ensures
        final(out)@ == old(out)@ + function_methods_text(names@.map_values(|s: String| s@)),
{
    let ghost start = out@;
    push_method(
        out,
        names,
        "fn fold_fields<Acc, F: FnMut(Self::Argument, Acc) -> Acc>(self, initial: Acc, mut function: F) -> Acc { let mut accumulator = initial; ",
        "accumulator = function(self.",
        ", accumulator); ",
        "accumulator } ",
    );
    push_method(
        out,
        names,
        "fn fold_fields_ref<Acc, F: FnMut(&Self::Argument, Acc) -> Acc>(&self, initial: Acc, mut function: F) -> Acc { let mut accumulator = initial; ",
        "accumulator = function(&self.",
        ", accumulator); ",
        "accumulator } ",
    );
    push_method(
        out,
        names,
        "fn for_fields<F: FnMut(Self::Argument)>(self, mut function: F) { ",
        "function(self.",
        "); ",
        "} ",
    );
    push_method(
        out,
        names,
        "fn for_fields_ref<F: FnMut(&Self::Argument)>(&self, mut function: F) { ",
        "function(&self.",
        "); ",
        "} ",
    );
    push_method(
        out,
        names,
        "fn for_fields_mut<F: FnMut(&mut Self::Argument)>(&mut self, mut function: F) { ",
        "function(&mut self.",
        "); ",
        "} ",
    );
    assert(out@ =~= start + function_methods_text(names@.map_values(|s: String| s@)));
}

/// The implementation of `StrawberryFields` for the struct `definition`, whose parts are
/// `item`, with `Argument = argument`. Refused when a field has no name.
pub fn fields_impl(argument: &str, definition: &str, item: &StructItem) -> (r: Result<
    String,
    MacroError,
>)
    ensures
        outcome_view(r) == fields_impl_outcome(argument@, definition@, item@),
{
    let ghost fields = item@.field_names;
    let mut names: Vec<String> = Vec::new();
    let mut i: usize = 0;
    while i < item.field_names.len()
        invariant
            i <= item.field_names.len(),
            fields == item@.field_names,
            fields.len() == item.field_names.len(),
            names.len() == i,
            forall|j: int| 0 <= j < i ==> #[trigger] fields[j] is Some,
            forall|j: int| 0 <= j < i ==> fields[j] == Some(#[trigger] names@[j]@),
        decreases item.field_names.len() - i,
    {
        match &item.field_names[i] {
            Some(name) => {
                names.push(name.clone());
            },
            None => {
                assert(!(fields[i as int] is Some));
                return Err(MacroError::UnnamedField);
            },
        }
        i = i + 1;
    }
    assert(names@.map_values(|s: String| s@) =~= names_of(fields));
    let mut out = String::from_str(definition);
    out.append(" impl ");
    out.append(item.impl_generics.as_str());
    out.append(" strawberry_fields::StrawberryFields for ");
    out.append(item.name.as_str());
    out.append(" ");
    out.append(item.type_generics.as_str());
    out.append(" ");
    out.append(item.where_clause.as_str());
    out.append(" { type Argument = ");
    out.append(argument);
    out.append("; const FIELD_COUNT: usize = ");
    push_decimal(&mut out, names.len());
    out.append("usize; ");
    push_predicate_methods(&mut out, &names);
    push_function_methods(&mut out, &names);
    out.append("}");
    assert(out@ =~= fields_impl_text(argument@, definition@, item@, names_of(fields)));
    Ok(out)
}

/// Generates an implementation of `StrawberryFields` for the struct `input`, whose fields
/// all have the type `type_parameter`, in a way that is total over all struct fields.
/// `type_parameter` and `input` are the text of the macro's token streams.
pub fn strawberry_fields(type_parameter: &str, input: &str) -> (r: Result<String, MacroError>)
    ensures
        outcome_view(r) == strawberry_fields_outcome(type_parameter@, input@),
{
    let is_blank = match lex(type_parameter) {
        Some(tokens) => tokens.len() == 0,
        None => false,
    };
    if is_blank {
        return Err(MacroError::EmptyTypeParameter);
    }
    if let Err(e) = parse_type(type_parameter) {
        return Err(MacroError::NotAType(e));
    }
    match parse_struct(input) {
        Err(e) => Err(MacroError::NotAStruct(e)),
        Ok(item) => fields_impl(type_parameter, input, &item),
    }
}

/// The pieces of two sequences of fields follow each other.
pub proof fn lemma_per_field_append(
    a: Seq<Seq<char>>,
    b: Seq<Seq<char>>,
    before: Seq<char>,
    after: Seq<char>,
)
    ensures
        per_field(a + b, before, after) == per_field(a, before, after) + per_field(b, before, after),
    decreases b.len(),
{
    if b.len() == 0 {
        assert(a + b =~= a);
        assert(per_field(a, before, after) + Seq::<char>::empty() =~= per_field(a, before, after));
    } else {
        lemma_per_field_append(a, b.drop_last(), before, after);
        assert((a + b).drop_last() =~= a + b.drop_last());
        assert((a + b).last() == b.last());
        assert(per_field(a + b, before, after) =~= per_field(a, before, after) + per_field(
            b,
            before,
            after,
        ));
    }
}

/// Every field is visited once, in order: the generated body of a method is the pieces of
/// the fields before field `i`, the piece of field `i`, then the pieces of the fields after it;
/// a struct without fields gets no piece.
pub proof fn law_every_field_visited_in_order(
    names: Seq<Seq<char>>,
    before: Seq<char>,
    after: Seq<char>,
    i: int,
)
    requires
        0 <= i < names.len(),
    ensures
        per_field(Seq::empty(), before, after) == Seq::<char>::empty(),
        per_field(names, before, after) == per_field(names.take(i), before, after) + before
            + names[i] + after + per_field(names.skip(i + 1), before, after),
{
    let head = names.take(i);
    let one = seq![names[i]];
    let tail = names.skip(i + 1);
    assert(names =~= head + one + tail);
    lemma_per_field_append(head + one, tail, before, after);
    lemma_per_field_append(head, one, before, after);
    assert(one.drop_last().len() == 0);
    assert(one.last() == names[i]);
    assert(per_field(one.drop_last(), before, after) =~= Seq::<char>::empty());
    assert(per_field(one, before, after) =~= before + names[i] + after);
    assert(per_field(names, before, after) =~= per_field(head, before, after) + before + names[i]
        + after + per_field(tail, before, after));
}

/// `strawberry_fields` accepts exactly a type parameter that holds a type, on a
/// struct all of whose fields have a name; then its implementation has one field per
/// field of the struct, and `FIELD_COUNT` is written as that number.
pub proof fn law_strawberry_fields_accepts(argument: Seq<char>, input: Seq<char>)
    ensures
        strawberry_fields_outcome(argument, input) is Ok <==> (!blank(argument) && parses_as_type(
            argument,
        ) && match parsed_struct(input) {
            Some(shape) => all_named(shape.field_names),
            None => false,
        }),
        strawberry_fields_outcome(argument, input) is Ok ==> match parsed_struct(input) {
            Some(shape) => crate::text::numeral_value(decimal(names_of(shape.field_names).len()))
                == shape.field_names.len(),
            None => false,
        },
{
    if let Some(shape) = parsed_struct(input) {
        crate::text::law_decimal_reads_back(names_of(shape.field_names).len());
    }
}

/// The pieces of two sequences of fields, each field named twice, follow each other.
pub proof fn lemma_per_field_twice_append(
    a: Seq<Seq<char>>,
    b: Seq<Seq<char>>,
    before: Seq<char>,
    middle: Seq<char>,
    after: Seq<char>,
)
    ensures
        per_field_twice(a + b, before, middle, after) == per_field_twice(a, before, middle, after)
            + per_field_twice(b, before, middle, after),
    decreases b.len(),
{
    if b.len() == 0 {
        assert(a + b =~= a);
        assert(per_field_twice(a, before, middle, after) + Seq::<char>::empty()
            =~= per_field_twice(a, before, middle, after));
    } else {
        lemma_per_field_twice_append(a, b.drop_last(), before, middle, after);
        assert((a + b).drop_last() =~= a + b.drop_last());
        assert((a + b).last() == b.last());
        assert(per_field_twice(a + b, before, middle, after) =~= per_field_twice(
            a,
            before,
            middle,
            after,
        ) + per_field_twice(b, before, middle, after));
    }
}

/// Every field is tested and handed back once, in order: the generated body of
/// `find_field` (and `find_field_ref`) is the pieces of the fields before field `i`, the
/// piece `before + name + middle + name + after` of field `i`, then the pieces of the fields
/// after it; a struct without fields gets no piece.
pub proof fn law_every_field_found_in_order(
    names: Seq<Seq<char>>,
    before: Seq<char>,
    middle: Seq<char>,
    after: Seq<char>,
    i: int,
)
    requires
        0 <= i < names.len(),
    ensures
        per_field_twice(Seq::empty(), before, middle, after) == Seq::<char>::empty(),
        per_field_twice(names, before, middle, after) == per_field_twice(
            names.take(i),
            before,
            middle,
            after,
        ) + before + names[i] + middle + names[i] + after + per_field_twice(
            names.skip(i + 1),
            before,
            middle,
            after,
        ),
{
    let head = names.take(i);
    let one = seq![names[i]];
    let tail = names.skip(i + 1);
    assert(names =~= head + one + tail);
    lemma_per_field_twice_append(head + one, tail, before, middle, after);
    lemma_per_field_twice_append(head, one, before, middle, after);
    assert(one.drop_last().len() == 0);
    assert(one.last() == names[i]);
    assert(per_field_twice(one.drop_last(), before, middle, after) =~= Seq::<char>::empty());
    assert(per_field_twice(one, before, middle, after) =~= before + names[i] + middle + names[i]
        + after);
    assert(per_field_twice(names, before, middle, after) =~= per_field_twice(
        head,
        before,
        middle,
        after,
    ) + before + names[i] + middle + names[i] + after + per_field_twice(
        tail,
        before,
        middle,
        after,
    ));
}

/// The generated text begins with the struct's own definition, unchanged, and its
/// implementation declares `type Argument` as the whole type parameter and `FIELD_COUNT`
/// as the number of fields.
pub proof fn law_generated_impl_header(argument: Seq<char>, input: Seq<char>)
    ensures
        match strawberry_fields_outcome(argument, input) {
            Ok(text) => match parsed_struct(input) {
                Some(shape) => {
                    &&& text.take(input.len() as int) == input
                    &&& occurs_in(
                        text,
                        " { type Argument = "@ + argument + "; const FIELD_COUNT: usize = "@
                            + decimal(shape.field_names.len()) + "usize; "@,
                    )
                },
                None => false,
            },
            Err(_) => true,
        },
{
    if let Ok(text) = strawberry_fields_outcome(argument, input) {
        let shape = parsed_struct(input).unwrap();
        let names = names_of(shape.field_names);
        let pre = input + " impl "@ + shape.impl_generics + " strawberry_fields::StrawberryFields for "@
            + shape.name + " "@ + shape.type_generics + " "@ + shape.where_clause;
        let needle = " { type Argument = "@ + argument + "; const FIELD_COUNT: usize = "@ + decimal(
            names.len(),
        ) + "usize; "@;
        let rest = methods_text(names) + "}"@;
        assert(text =~= pre + needle + rest);
        lemma_occurs_in_concat(pre, needle, rest);
        assert(text.take(input.len() as int) =~= input);
    }
}

/// Every method of the generated implementation visits the fields in order of declaration:
/// the text of each method is its head, then one piece per field, in order, then its tail.
/// `find_field` and `find_field_ref` name each field twice in their piece: once to test it,
/// once to hand it back.
pub proof fn law_generated_methods(names: Seq<Seq<char>>, text: Seq<char>)
    requires
        occurs_in(text, methods_text(names)),
    ensures
            occurs_in(
                text,
                "fn all_fields<P: FnMut(Self::Argument) -> bool>(self, mut predicate: P) -> bool { "@
                + per_field(names, "if !predicate(self."@, ") { return false; } "@) + "true } "@,
            ),
            occurs_in(
                text,
                "fn all_fields_ref<P: FnMut(&Self::Argument) -> bool>(&self, mut predicate: P) -> bool { "@
                + per_field(names, "if !predicate(&self."@, ") { return false; } "@) + "true } "@,
            ),
            occurs_in(
                text,
                "fn any_fields<P: FnMut(Self::Argument) -> bool>(self, mut predicate: P) -> bool { "@
                + per_field(names, "if predicate(self."@, ") { return true; } "@) + "false } "@,
            ),
            occurs_in(
                text,
                "fn any_fields_ref<P: FnMut(&Self::Argument) -> bool>(&self, mut predicate: P) -> bool { "@
                + per_field(names, "if predicate(&self."@, ") { return true; } "@) + "false } "@,
            ),
            occurs_in(
                text,
                "fn find_field<P: FnMut(&Self::Argument) -> bool>(self, mut predicate: P) -> Option<Self::Argument> { "@
                + per_field_twice(names, "if predicate(&self."@, ") { return Some(self."@, "); } "@) + "None } "@,
            ),
            occurs_in(
                text,
                "fn find_field_ref<P: FnMut(&Self::Argument) -> bool>(&self, mut predicate: P) -> Option<&Self::Argument> { "@
                + per_field_twice(names, "if predicate(&self."@, ") { return Some(&self."@, "); } "@) + "None } "@,
            ),
            occurs_in(
                text,
                "fn fold_fields<Acc, F: FnMut(Self::Argument, Acc) -> Acc>(self, initial: Acc, mut function: F) -> Acc { let mut accumulator = initial; "@
                + per_field(names, "accumulator = function(self."@, ", accumulator); "@) + "accumulator } "@,
            ),
            occurs_in(
                text,
                "fn fold_fields_ref<Acc, F: FnMut(&Self::Argument, Acc) -> Acc>(&self, initial: Acc, mut function: F) -> Acc { let mut accumulator = initial; "@
                + per_field(names, "accumulator = function(&self."@, ", accumulator); "@) + "accumulator } "@,
            ),
            occurs_in(
                text,
                "fn for_fields<F: FnMut(Self::Argument)>(self, mut function: F) { "@
                + per_field(names, "function(self."@, "); "@) + "} "@,
            ),
            occurs_in(
                text,
                "fn for_fields_ref<F: FnMut(&Self::Argument)>(&self, mut function: F) { "@
                + per_field(names, "function(&self."@, "); "@) + "} "@,
            ),
            occurs_in(
                text,
                "fn for_fields_mut<F: FnMut(&mut Self::Argument)>(&mut self, mut function: F) { "@
                + per_field(names, "function(&mut self."@, "); "@) + "} "@,
            ),
{
    let m0 = method_text(names, "fn all_fields<P: FnMut(Self::Argument) -> bool>(self, mut predicate: P) -> bool { "@, "if !predicate(self."@, ") { return false; } "@, "true } "@);
    let m1 = method_text(names, "fn all_fields_ref<P: FnMut(&Self::Argument) -> bool>(&self, mut predicate: P) -> bool { "@, "if !predicate(&self."@, ") { return false; } "@, "true } "@);
    let m2 = method_text(names, "fn any_fields<P: FnMut(Self::Argument) -> bool>(self, mut predicate: P) -> bool { "@, "if predicate(self."@, ") { return true; } "@, "false } "@);
    let m3 = method_text(names, "fn any_fields_ref<P: FnMut(&Self::Argument) -> bool>(&self, mut predicate: P) -> bool { "@, "if predicate(&self."@, ") { return true; } "@, "false } "@);
    let m4 = method_text_twice(names, "fn find_field<P: FnMut(&Self::Argument) -> bool>(self, mut predicate: P) -> Option<Self::Argument> { "@, "if predicate(&self."@, ") { return Some(self."@, "); } "@, "None } "@);
    let m5 = method_text_twice(names, "fn find_field_ref<P: FnMut(&Self::Argument) -> bool>(&self, mut predicate: P) -> Option<&Self::Argument> { "@, "if predicate(&self."@, ") { return Some(&self."@, "); } "@, "None } "@);
    let m6 = method_text(names, "fn fold_fields<Acc, F: FnMut(Self::Argument, Acc) -> Acc>(self, initial: Acc, mut function: F) -> Acc { let mut accumulator = initial; "@, "accumulator = function(self."@, ", accumulator); "@, "accumulator } "@);
    let m7 = method_text(names, "fn fold_fields_ref<Acc, F: FnMut(&Self::Argument, Acc) -> Acc>(&self, initial: Acc, mut function: F) -> Acc { let mut accumulator = initial; "@, "accumulator = function(&self."@, ", accumulator); "@, "accumulator } "@);
    let m8 = method_text(names, "fn for_fields<F: FnMut(Self::Argument)>(self, mut function: F) { "@, "function(self."@, "); "@, "} "@);
    let m9 = method_text(names, "fn for_fields_ref<F: FnMut(&Self::Argument)>(&self, mut function: F) { "@, "function(&self."@, "); "@, "} "@);
    let m10 = method_text(names, "fn for_fields_mut<F: FnMut(&mut Self::Argument)>(&mut self, mut function: F) { "@, "function(&mut self."@, "); "@, "} "@);
    let p = predicate_methods_text(names);
    let f = function_methods_text(names);
    assert(p == m0 + m1 + m2 + m3 + m4 + m5);
    assert(f == m6 + m7 + m8 + m9 + m10);
    assert(methods_text(names) == p + f);
    lemma_occurs_in_self(m0);
    lemma_occurs_in_part(Seq::empty(), m0, m1, m0);
    lemma_occurs_in_part(Seq::empty(), m0 + m1, m2, m0);
    lemma_occurs_in_part(Seq::empty(), m0 + m1 + m2, m3, m0);
    lemma_occurs_in_part(Seq::empty(), m0 + m1 + m2 + m3, m4, m0);
    lemma_occurs_in_part(Seq::empty(), m0 + m1 + m2 + m3 + m4, m5, m0);
    lemma_occurs_in_part(Seq::empty(), p, f, m0);
    lemma_occurs_in_self(m1);
    lemma_occurs_in_part(m0, m1, Seq::empty(), m1);
    lemma_occurs_in_part(Seq::empty(), m0 + m1, m2, m1);
    lemma_occurs_in_part(Seq::empty(), m0 + m1 + m2, m3, m1);
    lemma_occurs_in_part(Seq::empty(), m0 + m1 + m2 + m3, m4, m1);
    lemma_occurs_in_part(Seq::empty(), m0 + m1 + m2 + m3 + m4, m5, m1);
    lemma_occurs_in_part(Seq::empty(), p, f, m1);
    lemma_occurs_in_self(m2);
    lemma_occurs_in_part(m0 + m1, m2, Seq::empty(), m2);
    lemma_occurs_in_part(Seq::empty(), m0 + m1 + m2, m3, m2);
    lemma_occurs_in_part(Seq::empty(), m0 + m1 + m2 + m3, m4, m2);
    lemma_occurs_in_part(Seq::empty(), m0 + m1 + m2 + m3 + m4, m5, m2);
    lemma_occurs_in_part(Seq::empty(), p, f, m2);
    lemma_occurs_in_self(m3);
    lemma_occurs_in_part(m0 + m1 + m2, m3, Seq::empty(), m3);
    lemma_occurs_in_part(Seq::empty(), m0 + m1 + m2 + m3, m4, m3);
    lemma_occurs_in_part(Seq::empty(), m0 + m1 + m2 + m3 + m4, m5, m3);
    lemma_occurs_in_part(Seq::empty(), p, f, m3);
    lemma_occurs_in_self(m4);
    lemma_occurs_in_part(m0 + m1 + m2 + m3, m4, Seq::empty(), m4);
    lemma_occurs_in_part(Seq::empty(), m0 + m1 + m2 + m3 + m4, m5, m4);
    lemma_occurs_in_part(Seq::empty(), p, f, m4);
    lemma_occurs_in_self(m5);
    lemma_occurs_in_part(m0 + m1 + m2 + m3 + m4, m5, Seq::empty(), m5);
    lemma_occurs_in_part(Seq::empty(), p, f, m5);
    lemma_occurs_in_self(m6);
    lemma_occurs_in_part(Seq::empty(), m6, m7, m6);
    lemma_occurs_in_part(Seq::empty(), m6 + m7, m8, m6);
    lemma_occurs_in_part(Seq::empty(), m6 + m7 + m8, m9, m6);
    lemma_occurs_in_part(Seq::empty(), m6 + m7 + m8 + m9, m10, m6);
    lemma_occurs_in_part(p, f, Seq::empty(), m6);
    lemma_occurs_in_self(m7);
    lemma_occurs_in_part(m6, m7, Seq::empty(), m7);
    lemma_occurs_in_part(Seq::empty(), m6 + m7, m8, m7);
    lemma_occurs_in_part(Seq::empty(), m6 + m7 + m8, m9, m7);
    lemma_occurs_in_part(Seq::empty(), m6 + m7 + m8 + m9, m10, m7);
    lemma_occurs_in_part(p, f, Seq::empty(), m7);
    lemma_occurs_in_self(m8);
    lemma_occurs_in_part(m6 + m7, m8, Seq::empty(), m8);
    lemma_occurs_in_part(Seq::empty(), m6 + m7 + m8, m9, m8);
    lemma_occurs_in_part(Seq::empty(), m6 + m7 + m8 + m9, m10, m8);
    lemma_occurs_in_part(p, f, Seq::empty(), m8);
    lemma_occurs_in_self(m9);
    lemma_occurs_in_part(m6 + m7 + m8, m9, Seq::empty(), m9);
    lemma_occurs_in_part(Seq::empty(), m6 + m7 + m8 + m9, m10, m9);
    lemma_occurs_in_part(p, f, Seq::empty(), m9);
    lemma_occurs_in_self(m10);
    lemma_occurs_in_part(m6 + m7 + m8 + m9, m10, Seq::empty(), m10);
    lemma_occurs_in_part(p, f, Seq::empty(), m10);
    lemma_occurs_in_transitive(text, methods_text(names), m0);
    lemma_occurs_in_transitive(text, methods_text(names), m1);
    lemma_occurs_in_transitive(text, methods_text(names), m2);
    lemma_occurs_in_transitive(text, methods_text(names), m3);
    lemma_occurs_in_transitive(text, methods_text(names), m4);
    lemma_occurs_in_transitive(text, methods_text(names), m5);
    lemma_occurs_in_transitive(text, methods_text(names), m6);
    lemma_occurs_in_transitive(text, methods_text(names), m7);
    lemma_occurs_in_transitive(text, methods_text(names), m8);
    lemma_occurs_in_transitive(text, methods_text(names), m9);
    lemma_occurs_in_transitive(text, methods_text(names), m10);
}

/// The methods of the implementation that `strawberry_fields` generates stand in its text,
/// each for the struct's own fields, in order of declaration.
pub proof fn law_strawberry_fields_methods(argument: Seq<char>, input: Seq<char>)
    ensures
        match strawberry_fields_outcome(argument, input) {
            Ok(text) => match parsed_struct(input) {
                Some(shape) => {
                    let names = names_of(shape.field_names);
                    &&& occurs_in(text, methods_text(names))
                    &&& occurs_in(
                        text,
                        "fn all_fields<P: FnMut(Self::Argument) -> bool>(self, mut predicate: P) -> bool { "@
                        + per_field(names, "if !predicate(self."@, ") { return false; } "@) + "true } "@,
                    )
                    &&& occurs_in(
                        text,
                        "fn all_fields_ref<P: FnMut(&Self::Argument) -> bool>(&self, mut predicate: P) -> bool { "@
                        + per_field(names, "if !predicate(&self."@, ") { return false; } "@) + "true } "@,
                    )
                    &&& occurs_in(
                        text,
                        "fn any_fields<P: FnMut(Self::Argument) -> bool>(self, mut predicate: P) -> bool { "@
                        + per_field(names, "if predicate(self."@, ") { return true; } "@) + "false } "@,
                    )
                    &&& occurs_in(
                        text,
                        "fn any_fields_ref<P: FnMut(&Self::Argument) -> bool>(&self, mut predicate: P) -> bool { "@
                        + per_field(names, "if predicate(&self."@, ") { return true; } "@) + "false } "@,
                    )
                    &&& occurs_in(
                        text,
                        "fn find_field<P: FnMut(&Self::Argument) -> bool>(self, mut predicate: P) -> Option<Self::Argument> { "@
                        + per_field_twice(names, "if predicate(&self."@, ") { return Some(self."@, "); } "@) + "None } "@,
                    )
                    &&& occurs_in(
                        text,
                        "fn find_field_ref<P: FnMut(&Self::Argument) -> bool>(&self, mut predicate: P) -> Option<&Self::Argument> { "@
                        + per_field_twice(names, "if predicate(&self."@, ") { return Some(&self."@, "); } "@) + "None } "@,
                    )
                    &&& occurs_in(
                        text,
                        "fn fold_fields<Acc, F: FnMut(Self::Argument, Acc) -> Acc>(self, initial: Acc, mut function: F) -> Acc { let mut accumulator = initial; "@
                        + per_field(names, "accumulator = function(self."@, ", accumulator); "@) + "accumulator } "@,
                    )
                    &&& occurs_in(
                        text,
                        "fn fold_fields_ref<Acc, F: FnMut(&Self::Argument, Acc) -> Acc>(&self, initial: Acc, mut function: F) -> Acc { let mut accumulator = initial; "@
                        + per_field(names, "accumulator = function(&self."@, ", accumulator); "@) + "accumulator } "@,
                    )
                    &&& occurs_in(
                        text,
                        "fn for_fields<F: FnMut(Self::Argument)>(self, mut function: F) { "@
                        + per_field(names, "function(self."@, "); "@) + "} "@,
                    )
                    &&& occurs_in(
                        text,
                        "fn for_fields_ref<F: FnMut(&Self::Argument)>(&self, mut function: F) { "@
                        + per_field(names, "function(&self."@, "); "@) + "} "@,
                    )
                    &&& occurs_in(
                        text,
                        "fn for_fields_mut<F: FnMut(&mut Self::Argument)>(&mut self, mut function: F) { "@
                        + per_field(names, "function(&mut self."@, "); "@) + "} "@,
                    )
                },
                None => false,
            },
            Err(_) => true,
        },
{
    if let Ok(text) = strawberry_fields_outcome(argument, input) {
        let shape = parsed_struct(input).unwrap();
        let names = names_of(shape.field_names);
        let pre = input + " impl "@ + shape.impl_generics + " strawberry_fields::StrawberryFields for "@
            + shape.name + " "@ + shape.type_generics + " "@ + shape.where_clause
            + " { type Argument = "@ + argument + "; const FIELD_COUNT: usize = "@ + decimal(
            names.len(),
        ) + "usize; "@;
        assert(text =~= pre + methods_text(names) + "}"@);
        lemma_occurs_in_concat(pre, methods_text(names), "}"@);
        law_generated_methods(names, text);
    }
}

} // verus!
