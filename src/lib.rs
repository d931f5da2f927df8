//! Schema-driven source generator for a bot API client: reads a model of the
//! API's named types and methods and emits Rust declarations and call wrappers.

pub mod coverage;
pub mod decl;
pub mod laws;
pub mod media;
pub mod method_emit;
pub mod naming;
pub mod ordering;
pub mod resolve;
pub mod schema;
pub mod text;
pub mod type_emit;

pub use coverage::names_covered;
pub use decl::FieldDecl;
pub use media::InputMedia;
pub use method_emit::{MethodDecl, generate_methods, method_decl, plan_methods};
pub use naming::{is_skipped, method_fn_name, method_params_name, rust_field_name};
pub use ordering::sorted_keys;
pub use resolve::{
    RustType, build_return_type, field_rust_type, is_tg_array, strip_array, tg_to_rust,
    uses_first_type_fallback,
};
pub use schema::{ApiSpec, Field, Method, TgType};
pub use type_emit::{TypeDecl, generate_types, plan_types, type_decl};
