pub mod infer;
pub mod method;
pub mod naming;
pub mod parameter;
pub mod path;
pub mod schema;
pub mod types;
pub mod value;
