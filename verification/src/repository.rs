pub mod album_repository;
pub mod parameter_name;
pub mod repository;
