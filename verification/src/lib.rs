//! The clause engine of a trait solver.
//!
//! A solver that proves goals such as `Vec<T>: Clone` works from program
//! clauses: rules of the form "for all `T`, the consequence holds if the
//! conditions do". This crate picks, for one goal, the clauses worth trying:
//!
//! - [`clauses`] gathers what the declarations of the program give for the
//!   shape of the goal, adds the rule of an auto trait for a struct, joins
//!   what follows from the environment, and drops every clause whose
//!   consequence cannot match the goal;
//! - [`env_clauses`] gathers what follows from the clauses of the
//!   environment, round by round, in a [`clause_set`];
//! - [`could_match`] is the test that decides what is dropped;
//! - [`database`] is what the engine asks of the program;
//! - [`ir`] and [`goal`] hold the terms: types, goals and clauses;
//! - [`closure`], [`substitution`] and [`theorems`] state and prove what
//!   holds of every answer: it is a function of the question, it holds every
//!   candidate that could match the goal, and so every one that unifies with
//!   it.

pub mod ir;
pub mod goal;
pub mod could_match;
pub mod database;
pub mod clause_set;
pub mod closure;
pub mod env_clauses;
pub mod clauses;
pub mod substitution;
pub mod theorems;
