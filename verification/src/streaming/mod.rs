pub mod indicator;
pub mod sign;
pub mod warmup;
pub mod window;
