pub mod example;
