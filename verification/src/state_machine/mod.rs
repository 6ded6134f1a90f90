pub mod entities;
pub mod services;
pub mod ports;
pub mod dto;
pub mod use_cases;
pub mod laws;
