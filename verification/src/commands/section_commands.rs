use vstd::prelude::*;

verus! {

/// Commands that change sections.
#[derive(Debug)]
pub enum SectionCommands {
    /// Create a new section for a project.
    Create(Create),
}

/// Arguments of section creation.
#[derive(Debug)]
pub struct Create {
    /// Section name.
    pub name: Option<String>,
    /// Project to put the section in.
    pub project: Option<String>,
}

} // verus!
