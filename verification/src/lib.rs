pub mod index;
pub mod item;
pub mod json;
pub mod path_codec;
pub mod projection;
pub mod store;
