//! Two structs whose field iteration is written out field by field: one with no
//! fields and one with two `u32` fields.
use crate::fields::{first_verdict_at, first_verdict_at_ref, folds_to, folds_to_ref, StrawberryFields};
use vstd::prelude::*;

verus! {

/// A struct without fields.
#[derive(Copy, Clone)]
pub struct Empty {}

/// A struct with two `u32` fields.
#[derive(Copy, Clone)]
pub struct NotEmpty {
    pub first: u32,
    pub second: u32,
}

impl StrawberryFields for Empty {
    type Argument = u32;

    const FIELD_COUNT: usize = 0;

    open spec fn field_values(&self) -> Seq<u32> {
        seq![]
    }

    proof fn lemma_field_count(&self) {
    }

    fn all_fields<P: FnMut(u32) -> bool>(self, predicate: P) -> (r: bool) {
        true
    }

    fn all_fields_ref<P: FnMut(&u32) -> bool>(&self, predicate: P) -> (r: bool) {
        true
    }

    fn any_fields<P: FnMut(u32) -> bool>(self, predicate: P) -> (r: bool) {
        false
    }

    fn any_fields_ref<P: FnMut(&u32) -> bool>(&self, predicate: P) -> (r: bool) {
        false
    }

    fn find_field<P: FnMut(&u32) -> bool>(self, predicate: P) -> (r: Option<u32>) {
        None
    }

    fn find_field_ref<P: FnMut(&u32) -> bool>(&self, predicate: P) -> (r: Option<&u32>) {
        None
    }

    fn fold_fields<Acc, F: FnMut(u32, Acc) -> Acc>(self, initial: Acc, function: F) -> (r: Acc) {
        initial
    }

    fn fold_fields_ref<Acc, F: FnMut(&u32, Acc) -> Acc>(&self, initial: Acc, function: F) -> (r:
        Acc) {
        initial
    }

    fn for_fields<F: FnMut(u32)>(self, function: F) {
    }

    fn for_fields_ref<F: FnMut(&u32)>(&self, function: F) {
    }

    fn for_fields_mut<F: FnMut(&mut u32)>(&mut self, function: F) {
    }
}

impl StrawberryFields for NotEmpty {
    type Argument = u32;

    const FIELD_COUNT: usize = 2;

    open spec fn field_values(&self) -> Seq<u32> {
        seq![self.first, self.second]
    }

    proof fn lemma_field_count(&self) {
    }

    fn all_fields<P: FnMut(u32) -> bool>(self, predicate: P) -> (r: bool) {
        let mut predicate = predicate;
        let ghost values = self.field_values();
        if !predicate(self.first) {
            assert(first_verdict_at(predicate, values, 0, false));
            return false;
        }
        if !predicate(self.second) {
            assert(first_verdict_at(predicate, values, 1, false));
            return false;
        }
        true
    }

    fn all_fields_ref<P: FnMut(&u32) -> bool>(&self, predicate: P) -> (r: bool) {
        let mut predicate = predicate;
        let ghost values = self.field_values();
        if !predicate(&self.first) {
            assert(first_verdict_at_ref(predicate, values, 0, false));
            return false;
        }
        if !predicate(&self.second) {
            assert(first_verdict_at_ref(predicate, values, 1, false));
            return false;
        }
        true
    }

    fn any_fields<P: FnMut(u32) -> bool>(self, predicate: P) -> (r: bool) {
        let mut predicate = predicate;
        let ghost values = self.field_values();
        if predicate(self.first) {
            assert(first_verdict_at(predicate, values, 0, true));
            return true;
        }
        if predicate(self.second) {
            assert(first_verdict_at(predicate, values, 1, true));
            return true;
        }
        false
    }

    fn any_fields_ref<P: FnMut(&u32) -> bool>(&self, predicate: P) -> (r: bool) {
        let mut predicate = predicate;
        let ghost values = self.field_values();
        if predicate(&self.first) {
            assert(first_verdict_at_ref(predicate, values, 0, true));
            return true;
        }
        if predicate(&self.second) {
            assert(first_verdict_at_ref(predicate, values, 1, true));
            return true;
        }
        false
    }

    fn find_field<P: FnMut(&u32) -> bool>(self, predicate: P) -> (r: Option<u32>) {
        let mut predicate = predicate;
        let ghost values = self.field_values();
        if predicate(&self.first) {
            assert(first_verdict_at_ref(predicate, values, 0, true) && values[0] == self.first);
            return Some(self.first);
        }
        if predicate(&self.second) {
            assert(first_verdict_at_ref(predicate, values, 1, true) && values[1] == self.second);
            return Some(self.second);
        }
        None
    }

    fn find_field_ref<P: FnMut(&u32) -> bool>(&self, predicate: P) -> (r: Option<&u32>) {
        let mut predicate = predicate;
        let ghost values = self.field_values();
        if predicate(&self.first) {
            assert(first_verdict_at_ref(predicate, values, 0, true) && values[0] == self.first);
            return Some(&self.first);
        }
        if predicate(&self.second) {
            assert(first_verdict_at_ref(predicate, values, 1, true) && values[1] == self.second);
            return Some(&self.second);
        }
        None
    }

    fn fold_fields<Acc, F: FnMut(u32, Acc) -> Acc>(self, initial: Acc, function: F) -> (r: Acc) {
        let mut function = function;
        let ghost values = self.field_values();
        let ghost start = initial;
        let accumulator = function(self.first, initial);
        let ghost middle = accumulator;
        let accumulator = function(self.second, accumulator);
        assert(values.drop_first().drop_first().len() == 0);
        assert(folds_to(function, values.drop_first().drop_first(), accumulator, accumulator));
        assert(values.drop_first()[0] == self.second);
        assert(folds_to(function, values.drop_first(), middle, accumulator));
        accumulator
    }

    fn fold_fields_ref<Acc, F: FnMut(&u32, Acc) -> Acc>(&self, initial: Acc, function: F) -> (r:
        Acc) {
        let mut function = function;
        let ghost values = self.field_values();
        let accumulator = function(&self.first, initial);
        let ghost middle = accumulator;
        let accumulator = function(&self.second, accumulator);
        assert(values.drop_first().drop_first().len() == 0);
        assert(folds_to_ref(function, values.drop_first().drop_first(), accumulator, accumulator));
        assert(values.drop_first()[0] == self.second);
        assert(folds_to_ref(function, values.drop_first(), middle, accumulator));
        accumulator
    }

    fn for_fields<F: FnMut(u32)>(self, function: F) {
        let mut function = function;
        assert(call_requires(function, (self.field_values()[0],)));
        assert(call_requires(function, (self.field_values()[1],)));
        function(self.first);
        function(self.second);
    }

    fn for_fields_ref<F: FnMut(&u32)>(&self, function: F) {
        let mut function = function;
        assert(call_requires(function, (&self.field_values()[0],)));
        assert(call_requires(function, (&self.field_values()[1],)));
        function(&self.first);
        function(&self.second);
    }

    fn for_fields_mut<F: FnMut(&mut u32)>(&mut self, function: F) {
        let mut function = function;
        function(&mut self.first);
        function(&mut self.second);
    }
}

} // verus!
