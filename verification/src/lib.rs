//! The verified core of a pane that embeds a Wayland application in a GTK layout.
//!
//! A [`WaylandPane`] stands for one nested compositor and the widget that shows it. The crate holds
//! everything the pane decides: what each input event becomes, how large the nested output should
//! be, which path a frame takes to the screen and when its buffer goes back, and what starts and
//! stops when. It knows neither the toolkit nor the compositor: they report events, and do as they
//! are told.

pub mod capture;
pub mod channel;
pub mod controllers;
pub mod echo;
pub mod effects;
pub mod geometry;
pub mod input;
pub mod lifecycle;
pub mod pane;
pub mod present;
pub mod text;

pub use capture::CaptureError;
pub use capture::CapturedFrame;
pub use input::SpikeInput;
pub use pane::WaylandPane;
