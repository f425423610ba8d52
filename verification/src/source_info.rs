//! The record that says where a piece of source code comes from.

use vstd::prelude::*;

verus! {

/// Where a copied source comes from. No field is checked for emptiness or
/// format: a header shows each as it is given.
#[derive(Debug, PartialEq)]
pub struct SourceInfo {
    /// The name of the project the source is copied from.
    pub project_name: String,
    /// The URL of that project.
    pub project_url: String,
    /// The original authors, in the order in which a header names them.
    pub authors: Vec<String>,
    /// The license under which the project is released.
    pub license: String,
}

/// The text of a [`SourceInfo`], field by field.
pub ghost struct SourceInfoView {
    pub project_name: Seq<char>,
    pub project_url: Seq<char>,
    pub authors: Seq<Seq<char>>,
    pub license: Seq<char>,
}

impl View for SourceInfo {
    type V = SourceInfoView;

    open spec fn view(&self) -> SourceInfoView {
        SourceInfoView {
            project_name: self.project_name@,
            project_url: self.project_url@,
            authors: self.authors@.map_values(|a: String| a@),
            license: self.license@,
        }
    }
}

} // verus!
