pub mod summary;
