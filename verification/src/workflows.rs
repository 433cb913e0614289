//! Workflow data shapes: reusable parameterized commands.

use vstd::prelude::*;

verus! {

#[derive(Debug, Clone, PartialEq)]
pub struct WorkflowParam {
    pub name: String,
    pub description: Option<String>,
    pub required: bool,
    pub default: Option<String>,
}

#[derive(Debug, Clone, PartialEq)]
pub struct Workflow {
    pub id: String,
    pub name: String,
    pub description: Option<String>,
    pub command: String,
    pub params: Vec<WorkflowParam>,
    pub tags: Vec<String>,
    pub created_at: u64,
    pub updated_at: u64,
}

#[derive(Debug, Clone, PartialEq)]
pub struct PluginManifest {
    pub name: String,
    pub version: String,
    pub description: Option<String>,
    pub workflows: Option<Vec<Workflow>>, // optional bundled workflows
}

} // verus!
