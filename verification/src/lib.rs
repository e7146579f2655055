//! Violet: an application monitor that receives error and state events from
//! registered applications. This crate holds the verified core of the service.
pub mod text;
pub mod database;
pub mod config;
pub mod jwt;
pub mod tokens;
pub mod http;
pub mod extractors;
pub mod authentication_middleware;
pub mod controllers;
pub mod webserver;
pub mod mysql_db;
pub mod channels;
pub mod discordbot;
