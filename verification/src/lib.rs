pub mod i8080;
