pub mod damped_ls;
pub mod inverse;
pub mod pseudoinverse;
pub mod solver;
pub mod transpose;
