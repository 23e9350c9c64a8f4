//! The record of a task.

use vstd::prelude::*;

verus! {

/// One task as the store holds it.
#[derive(Clone, Debug, PartialEq)]
pub struct Model {
    pub id: i32,
    pub input: Option<String>,
    pub output: Option<String>,
    /// The name of the task's state.
    pub state: Option<String>,
    /// The workflow node of the task.
    pub wid: Option<i32>,
    /// The plan that the task is executing.
    pub planid: Option<String>,
}

/// The model of `Model`: its mathematical view.
pub struct ModelView {
    pub id: i32,
    pub input: Option<Seq<char>>,
    pub output: Option<Seq<char>>,
    pub state: Option<Seq<char>>,
    pub wid: Option<i32>,
    pub planid: Option<Seq<char>>,
}

impl View for Model {
    type V = ModelView;

    open spec fn view(&self) -> ModelView {
        ModelView {
            id: self.id,
            input: self.input.deep_view(),
            output: self.output.deep_view(),
            state: self.state.deep_view(),
            wid: self.wid,
            planid: self.planid.deep_view(),
        }
    }
}

impl DeepView for Model {
    type V = ModelView;

    open spec fn deep_view(&self) -> ModelView {
        self@
    }
}

} // verus!
