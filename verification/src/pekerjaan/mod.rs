pub mod entity;
pub mod repository;
pub mod dto;
pub mod service;
pub mod laws;
pub mod client;
pub mod export;
