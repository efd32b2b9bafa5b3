//! The verified core of a chat bot.
//!
//! The heart of the crate is the help system: a tree of command groups
//! ([`tree`]), a policy that decides how each entry is presented to a caller
//! ([`visibility`]), a resolver that turns what the caller typed into one
//! outcome ([`resolver`], with [`listing`], [`search`] and [`distance`]
//! beneath it), and two renderings of that outcome ([`render`]). [`help`]
//! ties them together. [`laws`] and [`render_laws`] state what holds of every
//! request and every rendering.
//!
//! Beside it stand the small rules of the bot: spans of time in words
//! ([`timeparser`], [`uptimer`]), the text encoders ([`encoders`]), the
//! headline game ([`headline`]), and the nicknames and roles of members
//! ([`welcome`]).
//!
//! Every function states what it returns over a mathematical model of its
//! arguments: text is a sequence of characters, and each data type has a
//! model of the same shape that it is viewed as.

pub mod decimal;
pub mod distance;
pub mod encoders;
pub mod headline;
pub mod help;
pub mod laws;
pub mod listing;
pub mod options;
pub mod outcome;
pub mod render;
pub mod render_laws;
pub mod resolver;
pub mod search;
pub mod text;
pub mod timeparser;
pub mod tree;
pub mod uptimer;
pub mod visibility;
pub mod welcome;
