//! The countdown timer of a desktop to-do application.
//!
//! One record holds the timer; commands move it between its phases and a
//! countdown takes one second off it per tick. Every function here is pure:
//! it changes the record and says which effects on windows and observers the
//! caller has to carry out.
//!
//! - `model`: the record and the engine as mathematical values, with their
//!   transitions.
//! - `types`: the record, the engine and the errors, as executable values
//!   whose views are the models.
//! - `effect`: what a command or a tick asks its caller to do.
//! - `commands`: the commands of the presentation layer.
//! - `timer`: the tick of the countdown.
//! - `session`: theorems on sequences of commands and ticks.
//! - `menu`, `window`: what menu items, tray clicks and close requests
//!   lead to.
//! - `text`: comparing texts.

pub mod commands;
pub mod effect;
pub mod menu;
pub mod model;
pub mod session;
pub mod text;
pub mod timer;
pub mod types;
pub mod window;
