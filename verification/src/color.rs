//! Terminal styling, taken on trust from the `colored` crate.
//!
//! Whether the returned string actually carries escape codes depends on the
//! process environment (a tty check and the `NO_COLOR` convention), so no
//! contract here pins the result; callers treat styled text as display-only.

use vstd::prelude::*;

verus! {

/// Relies on colored::Colorize::green; the result depends on the environment.
#[verifier::external_body]
pub(crate) fn green(s: &str) -> String {
    colored::Colorize::green(s).to_string()
}

/// Relies on colored::Colorize::yellow; the result depends on the environment.
#[verifier::external_body]
pub(crate) fn yellow(s: &str) -> String {
    colored::Colorize::yellow(s).to_string()
}

/// Relies on colored::Colorize::blue; the result depends on the environment.
#[verifier::external_body]
pub(crate) fn blue(s: &str) -> String {
    colored::Colorize::blue(s).to_string()
}

/// Relies on colored::Colorize::red; the result depends on the environment.
#[verifier::external_body]
pub(crate) fn red(s: &str) -> String {
    colored::Colorize::red(s).to_string()
}

/// Relies on colored::Colorize::bright_red; the result depends on the environment.
#[verifier::external_body]
pub(crate) fn bright_red(s: &str) -> String {
    colored::Colorize::bright_red(s).to_string()
}

/// Relies on colored::Colorize::bright_cyan; the result depends on the environment.
#[verifier::external_body]
pub(crate) fn bright_cyan(s: &str) -> String {
    colored::Colorize::bright_cyan(s).to_string()
}

/// Relies on colored::Colorize::purple; the result depends on the environment.
#[verifier::external_body]
pub(crate) fn purple(s: &str) -> String {
    colored::Colorize::purple(s).to_string()
}

} // verus!
