//! The field-iteration interface and the outcomes its methods may have.
use vstd::prelude::*;

verus! {

/// `predicate` returned `true` for every value of `values`.
pub open spec fn accepts_each<A, P: FnOnce(A) -> bool>(predicate: P, values: Seq<A>) -> bool {
    forall|i: int| 0 <= i < values.len() ==> #[trigger] call_ensures(predicate, (values[i],), true)
}

/// `predicate` returned `false` for every value of `values`.
pub open spec fn rejects_each<A, P: FnOnce(A) -> bool>(predicate: P, values: Seq<A>) -> bool {
    forall|i: int| 0 <= i < values.len() ==> #[trigger] call_ensures(predicate, (values[i],), false)
}

/// `values[i]` is the first value on which `predicate` returned `verdict`: it returned
/// `!verdict` on every value before it.
pub open spec fn first_verdict_at<A, P: FnOnce(A) -> bool>(
    predicate: P,
    values: Seq<A>,
    i: int,
    verdict: bool,
) -> bool {
    &&& 0 <= i < values.len()
    &&& call_ensures(predicate, (values[i],), verdict)
    &&& forall|j: int| #![trigger values[j]] 0 <= j < i ==> call_ensures(predicate, (values[j],), !verdict)
}

/// Same as [`accepts_each`], for a predicate that borrows its argument.
pub open spec fn accepts_each_ref<A, P: FnOnce(&A) -> bool>(predicate: P, values: Seq<A>) -> bool {
    forall|i: int| 0 <= i < values.len() ==> #[trigger] call_ensures(predicate, (&values[i],), true)
}

/// Same as [`rejects_each`], for a predicate that borrows its argument.
pub open spec fn rejects_each_ref<A, P: FnOnce(&A) -> bool>(predicate: P, values: Seq<A>) -> bool {
    forall|i: int| 0 <= i < values.len() ==> #[trigger] call_ensures(predicate, (&values[i],), false)
}

/// Same as [`first_verdict_at`], for a predicate that borrows its argument.
pub open spec fn first_verdict_at_ref<A, P: FnOnce(&A) -> bool>(
    predicate: P,
    values: Seq<A>,
    i: int,
    verdict: bool,
) -> bool {
    &&& 0 <= i < values.len()
    &&& call_ensures(predicate, (&values[i],), verdict)
    &&& forall|j: int| #![trigger values[j]] 0 <= j < i ==> call_ensures(predicate, (&values[j],), !verdict)
}

/// What `all_fields` may answer: `true` once every value was accepted, `false` at the
/// first value that was rejected.
pub open spec fn all_outcome<A, P: FnOnce(A) -> bool>(predicate: P, values: Seq<A>, r: bool) -> bool {
    &&& r ==> accepts_each(predicate, values)
    &&& !r ==> exists|i: int| first_verdict_at(predicate, values, i, false)
}

/// What `any_fields` may answer: `true` at the first value that was accepted, `false`
/// once every value was rejected.
pub open spec fn any_outcome<A, P: FnOnce(A) -> bool>(predicate: P, values: Seq<A>, r: bool) -> bool {
    &&& r ==> exists|i: int| first_verdict_at(predicate, values, i, true)
    &&& !r ==> rejects_each(predicate, values)
}

/// [`all_outcome`] for a predicate that borrows its argument.
pub open spec fn all_outcome_ref<A, P: FnOnce(&A) -> bool>(predicate: P, values: Seq<A>, r: bool) -> bool {
    &&& r ==> accepts_each_ref(predicate, values)
    &&& !r ==> exists|i: int| first_verdict_at_ref(predicate, values, i, false)
}

/// [`any_outcome`] for a predicate that borrows its argument.
pub open spec fn any_outcome_ref<A, P: FnOnce(&A) -> bool>(predicate: P, values: Seq<A>, r: bool) -> bool {
    &&& r ==> exists|i: int| first_verdict_at_ref(predicate, values, i, true)
    &&& !r ==> rejects_each_ref(predicate, values)
}

/// What `find_field` may answer: the first value that the predicate accepted, or `None`
/// once every value was rejected.
pub open spec fn find_outcome<A, P: FnOnce(&A) -> bool>(predicate: P, values: Seq<A>, r: Option<A>) -> bool {
    match r {
        Some(v) => exists|i: int| first_verdict_at_ref(predicate, values, i, true) && values[i] == v,
        None => rejects_each_ref(predicate, values),
    }
}

/// Folding `values` into `acc` with `function` can end in `result`: each step hands the
/// next value and the accumulator so far to `function`, whose answer is the next accumulator.
pub open spec fn folds_to<A, Acc, F: FnOnce(A, Acc) -> Acc>(
    function: F,
    values: Seq<A>,
    acc: Acc,
    result: Acc,
) -> bool
    decreases values.len(),
{
    if values.len() == 0 {
        result == acc
    } else {
        exists|next: Acc|
            #[trigger] call_ensures(function, (values[0], acc), next) && folds_to(
                function,
                values.drop_first(),
                next,
                result,
            )
    }
}

/// [`folds_to`] for a function that borrows each value.
pub open spec fn folds_to_ref<A, Acc, F: FnOnce(&A, Acc) -> Acc>(
    function: F,
    values: Seq<A>,
    acc: Acc,
    result: Acc,
) -> bool
    decreases values.len(),
{
    if values.len() == 0 {
        result == acc
    } else {
        exists|next: Acc|
            #[trigger] call_ensures(function, (&values[0], acc), next) && folds_to_ref(
                function,
                values.drop_first(),
                next,
                result,
            )
    }
}

/// The fold of `values` with the deterministic step `step`, from `acc`.
pub open spec fn fold_with<A, Acc>(step: spec_fn(A, Acc) -> Acc, values: Seq<A>, acc: Acc) -> Acc
    decreases values.len(),
{
    if values.len() == 0 {
        acc
    } else {
        fold_with(step, values.drop_first(), step(values[0], acc))
    }
}

/// A struct without fields answers `true` to `all_fields`, whatever the predicate.
pub proof fn law_all_fields_of_no_fields<A, P: FnOnce(A) -> bool>(predicate: P, r: bool)
    requires
        all_outcome(predicate, Seq::<A>::empty(), r),
    ensures
        r,
{
}

/// A struct without fields answers `false` to `any_fields`, whatever the predicate.
pub proof fn law_any_fields_of_no_fields<A, P: FnOnce(A) -> bool>(predicate: P, r: bool)
    requires
        any_outcome(predicate, Seq::<A>::empty(), r),
    ensures
        !r,
{
}

/// A struct without fields answers `None` to `find_field`, whatever the predicate.
pub proof fn law_find_field_of_no_fields<A, P: FnOnce(&A) -> bool>(predicate: P, r: Option<A>)
    requires
        find_outcome(predicate, Seq::<A>::empty(), r),
    ensures
        r is None,
{
}

/// Folding a struct without fields gives back the initial accumulator.
pub proof fn law_fold_of_no_fields<A, Acc, F: FnOnce(A, Acc) -> Acc>(
    function: F,
    initial: Acc,
    r: Acc,
)
    requires
        folds_to(function, Seq::<A>::empty(), initial, r),
    ensures
        r == initial,
{
}

/// With a predicate whose answer is fixed by `test`, `all_fields` answers whether every
/// field passes `test`.
pub proof fn law_all_fields_decides<A, P: FnOnce(A) -> bool>(
    predicate: P,
    test: spec_fn(A) -> bool,
    values: Seq<A>,
    r: bool,
)
    requires
        forall|x: A, b: bool| #[trigger] call_ensures(predicate, (x,), b) ==> b == test(x),
        all_outcome(predicate, values, r),
    ensures
        r == (forall|i: int| 0 <= i < values.len() ==> test(#[trigger] values[i])),
{
    if !r {
        let i = choose|i: int| first_verdict_at(predicate, values, i, false);
        assert(!test(values[i]));
    } else {
        assert forall|i: int| 0 <= i < values.len() implies test(#[trigger] values[i]) by {
            assert(call_ensures(predicate, (values[i],), true));
        }
    }
}

/// With a predicate whose answer is fixed by `test`, `any_fields` answers whether some
/// field passes `test`.
pub proof fn law_any_fields_decides<A, P: FnOnce(A) -> bool>(
    predicate: P,
    test: spec_fn(A) -> bool,
    values: Seq<A>,
    r: bool,
)
    requires
        forall|x: A, b: bool| #[trigger] call_ensures(predicate, (x,), b) ==> b == test(x),
        any_outcome(predicate, values, r),
    ensures
        r == (exists|i: int| 0 <= i < values.len() && test(#[trigger] values[i])),
{
    if r {
        let i = choose|i: int| first_verdict_at(predicate, values, i, true);
        assert(test(values[i]));
    } else {
        assert forall|i: int| 0 <= i < values.len() implies !test(#[trigger] values[i]) by {
            assert(call_ensures(predicate, (values[i],), false));
        }
    }
}

/// With a function whose answer is fixed by `step`, `fold_fields` answers the fold of the
/// fields with `step`.
pub proof fn law_fold_fields_decides<A, Acc, F: FnOnce(A, Acc) -> Acc>(
    function: F,
    step: spec_fn(A, Acc) -> Acc,
    values: Seq<A>,
    acc: Acc,
    r: Acc,
)
    requires
        forall|x: A, a: Acc, n: Acc| #[trigger] call_ensures(function, (x, a), n) ==> n == step(x, a),
        folds_to(function, values, acc, r),
    ensures
        r == fold_with(step, values, acc),
    decreases values.len(),
{
    if values.len() > 0 {
        let next = choose|next: Acc|
            #[trigger] call_ensures(function, (values[0], acc), next) && folds_to(
                function,
                values.drop_first(),
                next,
                r,
            );
        law_fold_fields_decides(function, step, values.drop_first(), next, r);
    }
}

/// `all_fields` with a predicate decided by `test` answers the opposite of `any_fields` with
/// a predicate decided by the negation of `test`.
pub proof fn law_all_is_not_any_of_negation<A, P: FnOnce(A) -> bool, Q: FnOnce(A) -> bool>(
    predicate: P,
    negation: Q,
    test: spec_fn(A) -> bool,
    values: Seq<A>,
    all_answer: bool,
    any_answer: bool,
)
    requires
        forall|x: A, b: bool| #[trigger] call_ensures(predicate, (x,), b) ==> b == test(x),
        forall|x: A, b: bool| #[trigger] call_ensures(negation, (x,), b) ==> b == !test(x),
        all_outcome(predicate, values, all_answer),
        any_outcome(negation, values, any_answer),
    ensures
        all_answer == !any_answer,
{
    law_all_fields_decides(predicate, test, values, all_answer);
    law_any_fields_decides(negation, |x: A| !test(x), values, any_answer);
    if all_answer {
        assert forall|i: int| 0 <= i < values.len() implies !(!test(#[trigger] values[i])) by {}
    }
}

/// With a predicate whose answer is fixed by `test`, `find_field` answers the first field
/// that passes `test`, or `None` when none does.
pub proof fn law_find_field_decides<A, P: FnOnce(&A) -> bool>(
    predicate: P,
    test: spec_fn(A) -> bool,
    values: Seq<A>,
    r: Option<A>,
)
    requires
        forall|x: A, b: bool| #[trigger] call_ensures(predicate, (&x,), b) ==> b == test(x),
        find_outcome(predicate, values, r),
    ensures
        match r {
            Some(v) => exists|i: int|
                0 <= i < values.len() && test(values[i]) && values[i] == v && forall|j: int|
                    0 <= j < i ==> !test(#[trigger] values[j]),
            None => forall|i: int| 0 <= i < values.len() ==> !test(#[trigger] values[i]),
        },
{
    match r {
        Some(v) => {
            let i = choose|i: int| first_verdict_at_ref(predicate, values, i, true) && values[i] == v;
            assert forall|j: int| 0 <= j < i implies !test(#[trigger] values[j]) by {
                assert(call_ensures(predicate, (&values[j],), false));
            }
        },
        None => {
            assert forall|i: int| 0 <= i < values.len() implies !test(#[trigger] values[i]) by {
                assert(call_ensures(predicate, (&values[i],), false));
            }
        },
    }
}

/// Provides a `std::iter`-like API for consuming, mutating, and reading the fields of a
/// struct. Every field of the struct is visited, once, in the order of declaration, and
/// all the fields have the type `Argument`. The fields are `field_values()`.
pub trait StrawberryFields: Sized {
    /// The type of the struct fields that methods will be called on.
    type Argument;

    /// The number of fields of this implementor.
    const FIELD_COUNT: usize;

    /// The values of the fields, in order of declaration.
    spec fn field_values(&self) -> Seq<Self::Argument>;

    /// `FIELD_COUNT` is the number of fields.
    proof fn lemma_field_count(&self)
        ensures
            self.field_values().len() == Self::FIELD_COUNT,
    ;

    /// Applies `predicate` to each field of `self`, short-circuiting and returning `false`
    /// if any element fails to satisfy it. A struct without fields returns `true`.
    fn all_fields<P: FnMut(Self::Argument) -> bool>(self, predicate: P) -> (r: bool)
        requires
            forall|i: int|
                0 <= i < self.field_values().len() ==> #[trigger] call_requires(
                    predicate,
                    (self.field_values()[i],),
                ),
        ensures
            all_outcome(predicate, self.field_values(), r),
    ;

    /// Applies `predicate` to each field of `&self`, short-circuiting and returning `false`
    /// if any element fails to satisfy it. A struct without fields returns `true`.
    fn all_fields_ref<P: FnMut(&Self::Argument) -> bool>(&self, predicate: P) -> (r: bool)
        requires
            forall|i: int|
                0 <= i < self.field_values().len() ==> #[trigger] call_requires(
                    predicate,
                    (&self.field_values()[i],),
                ),
        ensures
            all_outcome_ref(predicate, self.field_values(), r),
    ;

    /// Applies `predicate` to each field of `self`, short-circuiting and returning `true`
    /// if any element satisfies it. A struct without fields returns `false`.
    fn any_fields<P: FnMut(Self::Argument) -> bool>(self, predicate: P) -> (r: bool)
        requires
            forall|i: int|
                0 <= i < self.field_values().len() ==> #[trigger] call_requires(
                    predicate,
                    (self.field_values()[i],),
                ),
        ensures
            any_outcome(predicate, self.field_values(), r),
    ;

    /// Applies `predicate` to each field of `&self`, short-circuiting and returning `true`
    /// if any element satisfies it. A struct without fields returns `false`.
    fn any_fields_ref<P: FnMut(&Self::Argument) -> bool>(&self, predicate: P) -> (r: bool)
        requires
            forall|i: int|
                0 <= i < self.field_values().len() ==> #[trigger] call_requires(
                    predicate,
                    (&self.field_values()[i],),
                ),
        ensures
            any_outcome_ref(predicate, self.field_values(), r),
    ;

    /// Returns the first field that satisfies `predicate`, short-circuiting. A struct with
    /// no fields returns `None`.
    fn find_field<P: FnMut(&Self::Argument) -> bool>(self, predicate: P) -> (r: Option<
        Self::Argument,
    >)
        requires
            forall|i: int|
                0 <= i < self.field_values().len() ==> #[trigger] call_requires(
                    predicate,
                    (&self.field_values()[i],),
                ),
        ensures
            find_outcome(predicate, self.field_values(), r),
    ;

    /// Returns a reference to the first field that satisfies `predicate`, short-circuiting.
    /// A struct with no fields returns `None`.
    fn find_field_ref<P: FnMut(&Self::Argument) -> bool>(&self, predicate: P) -> (r: Option<
        &Self::Argument,
    >)
        requires
            forall|i: int|
                0 <= i < self.field_values().len() ==> #[trigger] call_requires(
                    predicate,
                    (&self.field_values()[i],),
                ),
        ensures
            match r {
                Some(v) => find_outcome(predicate, self.field_values(), Some(*v)),
                None => find_outcome(predicate, self.field_values(), None),
            },
    ;

    /// Folds every field into an accumulator, starting from `initial`; `function` takes a
    /// field and the accumulator so far, and returns the next accumulator. Consumes `self`.
    fn fold_fields<Acc, F: FnMut(Self::Argument, Acc) -> Acc>(
        self,
        initial: Acc,
        function: F,
    ) -> (r: Acc)
        requires
            forall|i: int, acc: Acc|
                0 <= i < self.field_values().len() ==> #[trigger] call_requires(
                    function,
                    (self.field_values()[i], acc),
                ),
        ensures
            folds_to(function, self.field_values(), initial, r),
    ;

    /// Folds every field, taken by reference, into an accumulator; see `fold_fields`.
    fn fold_fields_ref<Acc, F: FnMut(&Self::Argument, Acc) -> Acc>(
        &self,
        initial: Acc,
        function: F,
    ) -> (r: Acc)
        requires
            forall|i: int, acc: Acc|
                0 <= i < self.field_values().len() ==> #[trigger] call_requires(
                    function,
                    (&self.field_values()[i], acc),
                ),
        ensures
            folds_to_ref(function, self.field_values(), initial, r),
    ;

    /// Applies `function` to every field of `self`, consuming it.
    fn for_fields<F: FnMut(Self::Argument)>(self, function: F)
        requires
            forall|i: int|
                0 <= i < self.field_values().len() ==> #[trigger] call_requires(
                    function,
                    (self.field_values()[i],),
                ),
        ensures
            forall|i: int|
                0 <= i < self.field_values().len() ==> #[trigger] call_ensures(
                    function,
                    (self.field_values()[i],),
                    (),
                ),
    ;

    /// Applies `function` to every field of `&self`.
    fn for_fields_ref<F: FnMut(&Self::Argument)>(&self, function: F)
        requires
            forall|i: int|
                0 <= i < self.field_values().len() ==> #[trigger] call_requires(
                    function,
                    (&self.field_values()[i],),
                ),
        ensures
            forall|i: int|
                0 <= i < self.field_values().len() ==> #[trigger] call_ensures(
                    function,
                    (&self.field_values()[i],),
                    (),
                ),
    ;

    /// Applies `function` to every field of `&mut self`: each field ends with the value
    /// that the call on it left behind.
    fn for_fields_mut<F: FnMut(&mut Self::Argument)>(&mut self, function: F)
        requires
            forall|x: &mut Self::Argument| #[trigger] call_requires(function, (x,)),
        ensures
            final(self).field_values().len() == old(self).field_values().len(),
            forall|i: int|
                #![trigger final(self).field_values()[i]]
                0 <= i < old(self).field_values().len() ==> exists|m: &mut Self::Argument|
                    #![trigger call_ensures(function, (m,), ())]
                    mut_ref_current(m) == old(self).field_values()[i] && mut_ref_future(m)
                        == final(self).field_values()[i] && call_ensures(function, (m,), ()),
    ;
}

} // verus!
