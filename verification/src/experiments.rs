//! The render loops: one ray for every pixel of a wall behind one object,
//! in one pass or in bands of rows that are put together afterwards.
pub mod clock;
pub mod first_sphere_image;
pub mod projectile;
