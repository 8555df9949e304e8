pub mod bloon;
pub mod unit;
