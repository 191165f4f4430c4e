//! Room state events: a generic envelope around event content, and the
//! lenient decoding of optional scalar content fields.

pub mod canonical_alias;
pub mod error;
pub mod event;
pub mod name;
pub mod scalar;
pub mod wire;
