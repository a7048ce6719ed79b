//! Model definitions: the attributes that the derive macros read, and the
//! validated description of a model that they build from them.

pub mod attr;
pub mod attr_laws;
pub mod auto;
pub mod column;
pub mod enum_model;
pub mod field;
pub mod model;
pub mod model_attr;
pub mod name;
pub mod relation;
pub mod types;
