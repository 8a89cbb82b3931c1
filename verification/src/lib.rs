//! The editing and mode-dispatch core of an interactive image wizard.
//!
//! The wizard collects single lines of text, reads each one according to the
//! mode it is in, and moves between its modes. This library holds what that
//! takes: the text buffer with its cursor ([`text_buffer`]), the reading of
//! submitted text ([`parse`]), the rules of the modes ([`mode`]), the
//! decisions of the event loop ([`wizard`]), and what the screen shows for a
//! state ([`screen`]).
//!
//! Terminal handling and work on image files are left to the program that
//! drives the wizard. Its loop draws what [`screen::compose`] gives, waits for
//! a key, and hands the key to [`wizard::WizardState::handle_key`]. The answer
//! tells it to go on, to quit, or to carry out a [`mode::Request`] and report
//! the [`mode::Outcome`] with [`wizard::WizardState::complete`].

pub mod mode;
pub mod parse;
pub mod screen;
pub mod text_buffer;
pub mod wizard;
