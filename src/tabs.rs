use vstd::prelude::*;

verus! {

/// The four sections of the dashboard, in the order they tell the story.
#[derive(Clone, Copy, Debug, PartialEq, Eq, Structural)]
pub enum Tab {
    Problem,
    Hardware,
    Demo,
    Proof,
}

impl Tab {
    /// The caption of the tab's button.
    pub open spec fn spec_label(self) -> Seq<char> {
        match self {
            Tab::Problem => "The Problem"@,
            Tab::Hardware => "The Hardware"@,
            Tab::Demo => "The Demo"@,
            Tab::Proof => "The Proof"@,
        }
    }

    /// The caption of the tab's button.
    pub fn label(&self) -> (r: &'static str)
        ensures
            r@ == self.spec_label(),
    {
        match self {
            Tab::Problem => "The Problem",
            Tab::Hardware => "The Hardware",
            Tab::Demo => "The Demo",
            Tab::Proof => "The Proof",
        }
    }
}

} // verus!
