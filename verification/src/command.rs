//! Programs that the surrounding application is to run.

use vstd::prelude::*;
use crate::text::texts;

verus! {

/// A program and the arguments to start it with.
#[derive(Debug, Clone)]
pub struct Invocation {
    pub program: String,
    pub arguments: Vec<String>,
}

/// An `Invocation` as characters.
pub struct InvocationView {
    pub program: Seq<char>,
    pub arguments: Seq<Seq<char>>,
}

impl View for Invocation {
    type V = InvocationView;

    open spec fn view(&self) -> InvocationView {
        InvocationView { program: self.program@, arguments: texts(self.arguments@) }
    }
}

/// The view of an optional invocation.
pub open spec fn optional_invocation(o: Option<Invocation>) -> Option<InvocationView> {
    match o {
        Some(i) => Some(i@),
        None => None,
    }
}

} // verus!
