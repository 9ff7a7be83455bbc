//! Two-input logic gates driven by pins.

use crate::pin::Pin;
use vstd::prelude::*;

verus! {

/// A boolean operation of two inputs.
pub trait BinaryOp {
    spec fn spec_op(a: bool, b: bool) -> bool;

    fn op(a: bool, b: bool) -> (r: bool)
        ensures
            r == Self::spec_op(a, b),
    ;
}

pub struct AndOp;

impl BinaryOp for AndOp {
    open spec fn spec_op(a: bool, b: bool) -> bool {
        a && b
    }

    fn op(a: bool, b: bool) -> (r: bool) {
        a && b
    }
}

pub struct OrOp;

impl BinaryOp for OrOp {
    open spec fn spec_op(a: bool, b: bool) -> bool {
        a || b
    }

    fn op(a: bool, b: bool) -> (r: bool) {
        a || b
    }
}

pub struct EorOp;

impl BinaryOp for EorOp {
    open spec fn spec_op(a: bool, b: bool) -> bool {
        a != b
    }

    fn op(a: bool, b: bool) -> (r: bool) {
        a != b
    }
}

pub struct NandOp;

impl BinaryOp for NandOp {
    open spec fn spec_op(a: bool, b: bool) -> bool {
        !(a && b)
    }

    fn op(a: bool, b: bool) -> (r: bool) {
        !(a && b)
    }
}

pub struct NorOp;

impl BinaryOp for NorOp {
    open spec fn spec_op(a: bool, b: bool) -> bool {
        !(a || b)
    }

    fn op(a: bool, b: bool) -> (r: bool) {
        !(a || b)
    }
}

/// A gate with two input pins and one output pin.
pub struct BinaryGate<T: BinaryOp> {
    input_a: Pin<bool>,
    input_b: Pin<bool>,
    output: Pin<bool>,
    op: std::marker::PhantomData<T>,
}

impl<T: BinaryOp> BinaryGate<T> {
    pub closed spec fn pins(&self) -> (Pin<bool>, Pin<bool>, Pin<bool>) {
        (self.input_a, self.input_b, self.output)
    }

    /// A gate with both inputs low.
    pub fn new() -> (r: Self)
        ensures
            r.pins().0.latched() == false,
            r.pins().1.latched() == false,
            r.pins().2.latched() == T::spec_op(false, false),
    {
        Self::with_initial_values(false, false)
    }

    /// A gate whose inputs start at the given values, output consistent with them.
    pub fn with_initial_values(input_a: bool, input_b: bool) -> (r: Self)
        ensures
            r.pins().0 is Unconnected,
            r.pins().1 is Unconnected,
            r.pins().2 is Unconnected,
            r.pins().0.latched() == input_a,
            r.pins().1.latched() == input_b,
            r.pins().2.latched() == T::spec_op(input_a, input_b),
    {
        BinaryGate {
            input_a: Pin::new(input_a),
            input_b: Pin::new(input_b),
            output: Pin::new(T::op(input_a, input_b)),
            op: std::marker::PhantomData,
        }
    }

    pub fn input_a(&mut self) -> (r: &mut Pin<bool>)
        ensures
            *r == old(self).pins().0,
            final(self).pins() == (*final(r), old(self).pins().1, old(self).pins().2),
    {
        &mut self.input_a
    }

    pub fn input_b(&mut self) -> (r: &mut Pin<bool>)
        ensures
            *r == old(self).pins().1,
            final(self).pins() == (old(self).pins().0, *final(r), old(self).pins().2),
    {
        &mut self.input_b
    }

    pub fn output(&mut self) -> (r: &mut Pin<bool>)
        ensures
            *r == old(self).pins().2,
            final(self).pins() == (old(self).pins().0, old(self).pins().1, *final(r)),
    {
        &mut self.output
    }

    /// Sets the output from the inputs' latched values.
    pub fn evaluate(&mut self)
        requires
            !(old(self).pins().2 is Input),
        ensures
            final(self).pins().0 == old(self).pins().0,
            final(self).pins().1 == old(self).pins().1,
            final(self).pins().2.latched() == T::spec_op(
                old(self).pins().0.latched(),
                old(self).pins().1.latched(),
            ),
            !(final(self).pins().2 is Input),
    {
        let a = self.input_a.value();
        let b = self.input_b.value();
        self.output.update(T::op(a, b));
    }

    /// Takes whatever arrived on the connected inputs, then sets the output.
    pub fn refresh(&mut self)
        requires
            old(self).pins().0 is Input,
            old(self).pins().1 is Input,
            !(old(self).pins().2 is Input),
        ensures
            final(self).pins().0 is Input,
            final(self).pins().1 is Input,
            final(self).pins().2.latched() == T::spec_op(
                final(self).pins().0.latched(),
                final(self).pins().1.latched(),
            ),
            !(final(self).pins().2 is Input),
    {
        let _ = self.input_a.try_recv();
        let _ = self.input_b.try_recv();
        self.evaluate();
    }
}

} // verus!
