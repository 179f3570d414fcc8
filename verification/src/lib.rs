pub mod bits;
pub mod codec;
pub mod consts;
pub mod contest;
pub mod json;
pub mod numstr;
pub mod problem;
pub mod relations;
pub mod resolver;
pub mod status;
pub mod strutil;
pub mod submit;
pub mod user;
