pub mod level_state;
