//! Scaffolding of a new project from a template tree: case-aware rendering of
//! project fields, file matchers, an ordered substitution engine and the
//! inference of reusable string templates from one example.

pub mod case;
pub mod defaults;
pub mod insertion;
pub mod matcher;
pub mod project;
pub mod rules;
pub mod template;
pub mod text;
pub mod validate;

pub use case::Case;
pub use defaults::{build_default_template_data, default_replacements, TemplateData};
pub use insertion::ReplacementInsertion;
pub use matcher::{ConfigError, Pattern, ReplacementFile};
pub use project::{Language, Loader, Project};
pub use rules::{Replacement, Replacements};
pub use template::{Part, StringTemplate};
