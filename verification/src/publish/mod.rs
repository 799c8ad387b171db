pub mod msstore;
