pub mod list;
