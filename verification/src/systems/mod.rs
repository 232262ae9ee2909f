pub mod bullet_system;
