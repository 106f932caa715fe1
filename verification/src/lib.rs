pub mod geom;
pub mod mesh;
pub mod spherical_harmonics;
