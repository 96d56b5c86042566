//! Report-protocol layer for an eight-key programmable USB macro keypad.
//!
//! The device is driven by exchanging fixed 264-byte binary reports.  This
//! crate holds everything about those reports that can be computed without
//! touching a device: the byte layout of a report and typed accessors over
//! it, the staging structures for pending key and LED configuration, the
//! packing of timed macro events into the three fixed-size macro packets,
//! and the construction of the exact report sent at each phase of an
//! update sequence.  The USB transport itself lives outside this crate.

use vstd::prelude::*;

mod keycode;
mod keys;
mod layers;
mod led;
mod macros;
mod mode;
mod report;

pub use keycode::KeyCode;
pub use keycode::lemma_keycode_code_injective;
pub use keycode::lemma_keycode_decode_value;
pub use keys::Key;
pub use keys::KeyControl;
pub use keys::KeyControls;
pub use keys::key_write_report;
pub use keys::lemma_key_tables_injective;
pub use keys::spec_apply_key_control;
pub use keys::spec_apply_key_controls;
pub use keys::spec_apply_key_controls_prefix;
pub use keys::spec_default_key_controls;
pub use layers::Layer;
pub use layers::layer_write_report;
pub use layers::lemma_layer_code_injective;
pub use led::Brightness;
pub use led::Flow;
pub use led::LEDControls;
pub use led::LEDMode;
pub use led::led_write_report;
pub use led::lemma_brightness_code_injective;
pub use led::lemma_flow_code_injective;
pub use led::lemma_led_mode_code_injective;
pub use led::spec_apply_key_colors_prefix;
pub use led::spec_apply_led_controls;
pub use led::spec_apply_led_globals;
pub use led::spec_apply_one_key_color;
pub use macros::KeyPress;
pub use macros::Macro;
pub use macros::MacroData;
pub use macros::Repetition;
pub use macros::lemma_events_bytes_at;
pub use macros::lemma_events_bytes_len;
pub use macros::lemma_packet_boundaries;
pub use macros::macro_write_report;
pub use macros::spec_events_bytes;
pub use mode::Mode;
pub use mode::lemma_mode_code_injective;
pub use report::Report;
pub use report::ReportData;
pub use report::lemma_clear_end_then_header;
pub use report::lemma_decode_then_encode;
pub use report::lemma_encode_then_decode;
pub use report::spec_default_report;
pub use report::spec_zero_report;

verus! {

/// Error raised by validation that runs before any report is sent.
///
/// Configuration that the device would ignore or misapply is rejected
/// here, synchronously, without any transfer having been attempted.
#[derive(Clone, Copy, Debug, PartialEq, Eq, Structural)]
pub enum Error {
    /// A staged value is not legal for the report it would be merged
    /// into: a color was set without the custom LED mode, or a macro
    /// already holds its maximum number of events.
    InvalidParam,
}

} // verus!
