//! Data that scene entities carry.
pub mod material;
pub mod mesh;
