//! The record of a plan.

use vstd::prelude::*;

verus! {

/// One plan as the store holds it.
#[derive(Clone, Debug, PartialEq)]
pub struct Model {
    pub id: i32,
    pub pid: Option<i32>,
    /// Whether the plan succeeded or failed.
    pub state: Option<String>,
    /// The task that is executing the plan.
    pub planid: Option<String>,
}

/// The model of `Model`: its mathematical view.
pub struct ModelView {
    pub id: i32,
    pub pid: Option<i32>,
    pub state: Option<Seq<char>>,
    pub planid: Option<Seq<char>>,
}

impl View for Model {
    type V = ModelView;

    open spec fn view(&self) -> ModelView {
        ModelView {
            id: self.id,
            pid: self.pid,
            state: self.state.deep_view(),
            planid: self.planid.deep_view(),
        }
    }
}

} // verus!
