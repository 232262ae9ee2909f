pub mod blade_saw;
pub mod bonus;
pub mod canons;
pub mod collision;
pub mod doors;
