pub mod entities;
pub mod repositories;
pub mod use_cases;
