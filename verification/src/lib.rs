//! Resolution of the model and the prompt template that a local inference
//! backend is started with.
//!
//! From what a person gave on the command line, which may be nothing, the
//! library comes to a model file and a template: it looks for models that are
//! already in the working directory, lets the person choose, and has a model
//! downloaded where none is at hand. It does no input or output itself. The
//! resolution is a state machine that says what it needs next, and every
//! decision in it is stated and proved over plain values.
//!
//! - [`template`]: the registry of prompt templates.
//! - [`cache`]: which entries of a directory are cached models.
//! - [`acquire`]: from a path or a URL to the file that holds the model.
//! - [`resolver`]: the whole workflow.
//! - [`text`]: the string comparisons that the others use.

pub mod acquire;
pub mod cache;
pub mod resolver;
pub mod template;
pub mod text;
