//! Input-processing core of a split mechanical keyboard controller: per-key
//! debouncing, layer resolution, the key matrix and the inter-half wire format.
pub mod key;
pub mod layout;
pub mod link;
pub mod matrix;
