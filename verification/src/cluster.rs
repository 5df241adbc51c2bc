pub mod vertical;
