pub mod cec2019;
