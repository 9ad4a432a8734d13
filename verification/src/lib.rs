//! Translation of text through one interface over ten providers: building
//! each provider's request, reading its reply, and one taxonomy of errors.

pub mod detection;
pub mod engine;
pub mod error;
pub mod json;
pub mod markup;
pub mod provider;
pub mod request;
pub mod text;
pub mod translator;
pub mod value;

pub use detection::QText;
pub use engine::{Engine, Libre, Qcri, Version};
pub use error::Error;
pub use request::{accepted, response_status, Body, Method, Reply, Request, Scalar};
pub use translator::{Step, Translator};
pub use value::TranslationValue;
