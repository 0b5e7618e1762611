//! A personal workspace manager: named workspaces, each holding an ordered
//! collection of filesystem directory paths, kept consistent between an
//! in-memory model and a relational store.

pub mod controller;
pub mod store;
pub mod workspace;
