//! The record of a workflow.

use vstd::prelude::*;

verus! {

/// One workflow as the store holds it.
#[derive(Clone, Debug, PartialEq)]
pub struct Model {
    pub id: String,
    pub code: Option<String>,
    pub name: Option<String>,
    pub desc: Option<String>,
    pub plan: Option<String>,
}

/// The model of `Model`: its mathematical view.
pub struct ModelView {
    pub id: Seq<char>,
    pub code: Option<Seq<char>>,
    pub name: Option<Seq<char>>,
    pub desc: Option<Seq<char>>,
    pub plan: Option<Seq<char>>,
}

impl View for Model {
    type V = ModelView;

    open spec fn view(&self) -> ModelView {
        ModelView {
            id: self.id@,
            code: self.code.deep_view(),
            name: self.name.deep_view(),
            desc: self.desc.deep_view(),
            plan: self.plan.deep_view(),
        }
    }
}

impl DeepView for Model {
    type V = ModelView;

    open spec fn deep_view(&self) -> ModelView {
        self@
    }
}

} // verus!
