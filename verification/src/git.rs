//! What the tool does for version control: the list of what is to be
//! ignored, and the submodules of a project.

pub mod ignore;
pub mod submodule;
