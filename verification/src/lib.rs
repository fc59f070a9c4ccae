//! A verified builder and renderer for SQL `SELECT` statements.
//!
//! A [`statement::SelectStatement`] holds one clause per slot: select, from,
//! distinct, where, group by, order, limit and offset. It is built from a
//! [`source::Source`] and transformed step by step; each step checks what it
//! is given against the predicates of [`capability`] and returns a new
//! statement or a [`error::ValidityError`], so that every statement that
//! exists is valid. [`render`] turns a statement into SQL text and an
//! ordered list of bind parameters for a [`backend::Backend`], or into a
//! [`error::RenderError`] where the backend cannot express it. [`boxed`]
//! erases a statement for one backend into a form that renders as the
//! statement does.
//!
//! Every type has a mathematical model, its view, in which strings are
//! sequences of characters. The contracts of the executable functions are
//! stated over the models, and [`laws`] proves what holds between the
//! transformations and the renderer.

pub mod backend;
pub mod boxed;
pub mod capability;
pub mod clause;
pub mod error;
pub mod expression;
pub mod laws;
pub mod render;
pub mod source;
pub mod statement;
pub mod text;
pub mod types;
