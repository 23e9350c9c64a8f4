//! The record of one tool invocation.

use vstd::prelude::*;

verus! {

/// One tool invocation as the store holds it.
#[derive(Clone, Debug, PartialEq)]
pub struct Model {
    pub id: i32,
    pub taskid: Option<i32>,
    pub planid: Option<String>,
    pub args: Option<String>,
    pub output: Option<String>,
}

/// The model of `Model`: its mathematical view.
pub struct ModelView {
    pub id: i32,
    pub taskid: Option<i32>,
    pub planid: Option<Seq<char>>,
    pub args: Option<Seq<char>>,
    pub output: Option<Seq<char>>,
}

impl View for Model {
    type V = ModelView;

    open spec fn view(&self) -> ModelView {
        ModelView {
            id: self.id,
            taskid: self.taskid,
            planid: self.planid.deep_view(),
            args: self.args.deep_view(),
            output: self.output.deep_view(),
        }
    }
}

} // verus!
