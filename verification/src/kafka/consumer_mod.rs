pub mod consumer;
