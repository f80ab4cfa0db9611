pub mod arm;
pub mod joint;
pub mod pose;
pub mod state;
