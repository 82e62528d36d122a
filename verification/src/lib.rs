//! Core of a small geometric rendering engine: homogeneous tuples, square
//! matrices with determinant and inverse, rays against a sphere, and a
//! pixel grid that is written out as a plain-text image.
//!
//! The engine is written once for every number type. What a function
//! computes is stated over the operations of that type, in the order in
//! which they are carried out.
pub mod canvas;
pub mod colour;
pub mod experiments;
pub mod matrix;
pub mod objects;
pub mod ray;
pub mod scalar;
pub mod tuple;
pub mod util;
