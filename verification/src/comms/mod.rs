pub mod entity;
pub mod repository;
pub mod dto;
pub mod service;
