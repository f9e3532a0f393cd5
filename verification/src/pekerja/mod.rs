pub mod entity;
pub mod dto;
pub mod service;
pub mod client;
pub mod export;
