pub mod multibus;
pub mod pub_sub;
