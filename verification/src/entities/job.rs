//! The record of a job, one step of a workflow.

use vstd::prelude::*;
use crate::text::{
    debug_option_i32, debug_option_text, debug_text, decimal, decimal_option, i32_to_string, quoted,
    quoted_option,
};

verus! {

/// One job as the store holds it.
#[derive(Clone, Debug, PartialEq)]
pub struct Model {
    pub id: i32,
    pub workid: String,
    /// The workflow that the job belongs to.
    pub workflow_id: i32,
    pub pid: Option<i32>,
    pub code: Option<String>,
    pub action: Option<String>,
    pub description: Option<String>,
    pub check: Option<String>,
    pub kind: Option<String>,
}

/// The model of `Model`: its mathematical view.
pub struct ModelView {
    pub id: i32,
    pub workid: Seq<char>,
    pub workflow_id: i32,
    pub pid: Option<i32>,
    pub code: Option<Seq<char>>,
    pub action: Option<Seq<char>>,
    pub description: Option<Seq<char>>,
    pub check: Option<Seq<char>>,
    pub kind: Option<Seq<char>>,
}

impl View for Model {
    type V = ModelView;

    open spec fn view(&self) -> ModelView {
        ModelView {
            id: self.id,
            workid: self.workid@,
            workflow_id: self.workflow_id,
            pid: self.pid,
            code: self.code.deep_view(),
            action: self.action.deep_view(),
            description: self.description.deep_view(),
            check: self.check.deep_view(),
            kind: self.kind.deep_view(),
        }
    }
}

impl ModelView {
    /// The record written out field by field, as `Debug` writes a record.
    pub open spec fn debug_text(self) -> Seq<char> {
        "Model { id: "@ + decimal(self.id as int) + ", workid: "@ + quoted(self.workid)
            + ", workflow_id: "@ + decimal(self.workflow_id as int) + ", pid: "@ + decimal_option(
            self.pid,
        ) + ", code: "@ + quoted_option(self.code) + ", action: "@ + quoted_option(self.action)
            + ", description: "@ + quoted_option(self.description) + ", check: "@ + quoted_option(
            self.check,
        ) + ", type: "@ + quoted_option(self.kind) + " }"@
    }
}

impl Model {
    /// The record written out field by field.
    pub fn debug_string(&self) -> (r: String)
        ensures
            r@ == self@.debug_text(),
    {
        let mut out = "Model { id: ".to_owned();
        out.append(i32_to_string(self.id).as_str());
        out.append(", workid: ");
        out.append(debug_text(self.workid.as_str()).as_str());
        out.append(", workflow_id: ");
        out.append(i32_to_string(self.workflow_id).as_str());
        out.append(", pid: ");
        out.append(debug_option_i32(&self.pid).as_str());
        out.append(", code: ");
        out.append(debug_option_text(&self.code).as_str());
        out.append(", action: ");
        out.append(debug_option_text(&self.action).as_str());
        out.append(", description: ");
        out.append(debug_option_text(&self.description).as_str());
        out.append(", check: ");
        out.append(debug_option_text(&self.check).as_str());
        out.append(", type: ");
        out.append(debug_option_text(&self.kind).as_str());
        out.append(" }");
        out
    }
}

} // verus!
