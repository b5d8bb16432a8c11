pub mod providers;
pub mod sqlz;
pub mod support;
