pub mod main_resource;
