//! The verified core of a workout-logging client.
//!
//! A grid of exercises and sets is edited key by key while a remote service
//! stores each set. This library holds everything about that which is a
//! matter of rules rather than of input and output:
//!
//! - [`weight`], [`sets`], [`exercise`]: the entry fields with their debounce
//!   window, one set, and one exercise with its cursor;
//! - [`app`], [`nav`], [`sync`], [`screens`], [`keys`]: the controller, which
//!   routes keys, queues requests to the service and takes the answers
//!   without overwriting what the user is typing;
//! - [`metric`]: from sets to one value per day, and to a chart of bounded
//!   size;
//! - [`laws`]: what holds of all of this, proved;
//! - [`auth`], [`manage`], [`keymap`], [`command`], [`display`]: the sign-in
//!   form, the side views, key bindings and small rules of display;
//! - [`session`]: the service's side of signing in;
//! - [`time`], [`text`], [`seqs`], [`models`], [`api`]: clock readings and
//!   days, text and numerals, sequences, and the records exchanged.
//!
//! The library reads no clock and does no input or output. Operations that
//! depend on time take a [`time::Now`]; requests to the service are queued
//! in [`app::App::outbox`] for the caller to send.
//!
//! Weights are fixed-point numbers, thousandths of a unit. Each type has a
//! mathematical model, its view, and each operation says what it does to the
//! model.

pub mod api;
pub mod app;
pub mod auth;
pub mod command;
pub mod display;
pub mod exercise;
pub mod focus;
pub mod keymap;
pub mod keys;
pub mod laws;
pub mod manage;
pub mod metric;
pub mod models;
pub mod nav;
pub mod screen;
pub mod screens;
pub mod seqs;
pub mod session;
pub mod sets;
pub mod sync;
pub mod text;
pub mod time;
pub mod weight;
