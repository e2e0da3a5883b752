//! The rules of a small self-hosted forum, proved correct.
use vstd::prelude::*;

pub mod account;
pub mod admin;
pub mod calendar;
pub mod captcha;
pub mod clock;
pub mod cookies;
pub mod dialogue;
pub mod headers;
pub mod index;
pub mod laws;
pub mod login;
pub mod markup;
pub mod pages;
pub mod paging;
pub mod posting;
pub mod records;
pub mod schema;
pub mod session;
pub mod sql;
pub mod store;
pub mod text;
pub mod thread;
pub mod token;

verus! {

/// What the health probe answers.
pub fn healthz() -> (r: &'static str)
    ensures
        r@ == "ok"@,
{
    "ok"
}

} // verus!
