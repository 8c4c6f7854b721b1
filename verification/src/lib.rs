//! The verified core of a small movie-catalogue web service: the records it
//! keeps, the answers it gives, the OMDb data it converts, and the SQL and
//! URLs it builds.
pub mod api;
pub mod client;
pub mod model;
pub mod omdb;
pub mod sql;
pub mod text;
pub mod web;
