//! A modal, vi-style text editing engine for a small notes application.
//!
//! The engine owns a document (a sequence of Unicode scalar values), a cursor
//! into it, a one-slot register and the current mode, and turns one input event
//! at a time into edits, cursor motion, mode changes and host actions.
pub mod modes;
pub mod text;
pub mod motion;
pub mod keys;
pub mod command;
pub mod editor;
pub mod laws;
