//! OpenID Connect in front of a control plane: the authorization-code flow with PKCE, sessions of
//! our own behind an opaque cookie, and a group that decides who may pass.
//!
//! The library decides; it touches neither store nor network. [`flow::dispatch`] begins to answer a
//! request, and [`flow::resume`] goes on from the outcome of each [`action::Action`] that was asked
//! for, until there is a response or a refusal. [`landing`] is the page behind it all.
//!
//! [`laws`] states what the flow promises as a whole, [`answers`] what each operation answers to which
//! inputs, [`terms`] what the words mean that the contracts are written in, and [`views`] what the
//! models hold.

pub mod action;
pub mod answers;
pub mod config;
pub mod crypto;
pub mod error;
pub mod flow;
pub mod form;
pub mod http;
pub mod json;
pub mod jwks;
pub mod jwt;
pub mod landing;
pub mod laws;
pub mod pkce;
pub mod provider;
pub mod session;
pub mod terms;
pub mod text;
pub mod util;
pub mod views;
