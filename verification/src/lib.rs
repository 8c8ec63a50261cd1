//! Controller core for a four-window avionics radio panel.
//!
//! The panel has four windows of five seven-segment digits, two mode selectors, two
//! push-buttons and two dual rotary encoders. This library decodes the panel's input reports,
//! keeps the radio, transponder and autopilot state that the controls act on, formats that
//! state for the windows and for the simulator, and encodes the windows into the panel's
//! output report. Talking to the device and to the simulator is left to the caller.

pub mod utility;

pub mod constants;
pub mod input_states;
pub mod hardware;
pub mod text;
pub mod frequency;
pub mod states;
pub mod controls;
pub mod device;
pub mod display;
pub mod simulator;
pub mod dispatch;
