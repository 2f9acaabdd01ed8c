use vstd::prelude::*;

verus! {

/// The raw bytes of a piece of content as peers pass it around.
pub type Expression = Vec<u8>;

/// Turns an expression into an improved one.
pub trait Enhancer {
    fn enhance(&self, expression: Expression) -> Expression;
}

/// Brings forth a new expression.
pub trait Creator {
    fn create(&self) -> Expression;
}

/// Produces an expression of the same kind as the one it is given.
pub trait Reproducer {
    fn reproduce(&self, expression: Expression) -> Expression;
}

/// A source in the network that emits expressions to the other sources.
pub trait Celestial {
    fn emit(&self) -> Expression;
}

/// A source that emits, enhances, creates and reproduces.
pub trait Living: Celestial + Enhancer + Creator + Reproducer {

}

/// A source that emits and enhances.
pub trait Digital: Celestial + Enhancer {

}

/// A digital source that answers the expressions put to it.
pub trait AI: Digital {
    fn input(&self, expression: Expression) -> Expression;
}

/// A digital source that carries the expressions it receives onward.
pub trait Carrier: Digital {
    fn receive(&self, expression: Expression) -> Expression;
}

} // verus!
