//! A tape machine that gambles: a small bracket language whose programs move
//! a wrapping pointer over 256 wrapping cells, place bets and ask for the
//! balance, together with the gambler that drives one such machine.

pub mod nesting;
pub mod gamble_f;
pub mod luck;
pub mod names;
pub mod gambler;
pub mod stepping;
