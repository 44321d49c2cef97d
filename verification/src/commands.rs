use crate::control::{
    control_in, control_out, encode_pair, high_half, low_half, pair_payload, split_halves,
    vendor_in, vendor_out, ControlIn, ControlOut,
};
use crate::device::Device;
use crate::request::VendorRequest;
use crate::ty::TransceiverMode;
use vstd::prelude::*;

verus! {

impl Device {
    /// The command that resets the device to its initial state.
    pub fn reset(&self) -> (command: ControlOut)
        ensures
            command@ == vendor_out(VendorRequest::Reset, 0, 0, Seq::empty()),
    {
        control_out(VendorRequest::Reset, 0, 0, Vec::new())
    }

    /// The query for the board identifier: one byte is asked for.
    pub fn board_id(&self) -> (query: ControlIn)
        ensures
            query == vendor_in(VendorRequest::BoardIdRead, 0, 0, 1),
    {
        control_in(VendorRequest::BoardIdRead, 0, 0, 1)
    }

    /// The query for the board revision: one byte is asked for.
    pub fn board_rev(&self) -> (query: ControlIn)
        ensures
            query == vendor_in(VendorRequest::BoardRevRead, 0, 0, 1),
    {
        control_in(VendorRequest::BoardRevRead, 0, 0, 1)
    }

    /// The query for the firmware's version string: up to 255 bytes.
    pub fn version(&self) -> (query: ControlIn)
        ensures
            query == vendor_in(VendorRequest::VersionStringRead, 0, 0, 255),
    {
        control_in(VendorRequest::VersionStringRead, 0, 0, 255)
    }

    /// The query that sets the operating mode; the mode travels in the value
    /// field and the reply carries nothing.
    pub fn set_transceiver_mode(&self, mode: TransceiverMode) -> (query: ControlIn)
        ensures
            query == vendor_in(VendorRequest::SetTransceiverMode, 0, mode.spec_code(), 0),
    {
        control_in(VendorRequest::SetTransceiverMode, 0, mode.into(), 0)
    }

    /// The command that tunes to `mhz` MHz plus `hz` Hz. The payload is the
    /// two numbers, each as four bytes, least significant first.
    pub fn set_freq(&self, mhz: u32, hz: u32) -> (command: ControlOut)
        ensures
            command@ == vendor_out(VendorRequest::SetFreq, 0, 0, pair_payload(mhz, hz)),
    {
        control_out(VendorRequest::SetFreq, 0, 0, encode_pair(mhz, hz))
    }

    /// The command that sets the baseband filter bandwidth: the upper half of
    /// `hz` travels in the index field, the lower half in the value field.
    pub fn set_baseband_filter_bandwidth(&self, hz: u32) -> (command: ControlOut)
        ensures
            command@ == vendor_out(
                VendorRequest::SetBasebandFilterBandwidth,
                high_half(hz),
                low_half(hz),
                Seq::empty(),
            ),
    {
        let (high, low) = split_halves(hz);
        control_out(VendorRequest::SetBasebandFilterBandwidth, high, low, Vec::new())
    }

    /// The command that sets the sample rate to `hz / divider`. The payload
    /// is the two numbers, each as four bytes, least significant first.
    pub fn set_sample_rate(&self, hz: u32, divider: u32) -> (command: ControlOut)
        ensures
            command@ == vendor_out(VendorRequest::SetSampleRate, 0, 0, pair_payload(hz, divider)),
    {
        control_out(VendorRequest::SetSampleRate, 0, 0, encode_pair(hz, divider))
    }

    /// The query that sets the gain of the low-noise amplifier; the gain
    /// travels in the value field and one byte is asked for.
    pub fn set_lna_gain(&self, value: u16) -> (query: ControlIn)
        ensures
            query == vendor_in(VendorRequest::SetLnaGain, 0, value, 1),
    {
        control_in(VendorRequest::SetLnaGain, 0, value, 1)
    }

    /// The query that sets the gain of the variable-gain amplifier; the gain
    /// travels in the value field and one byte is asked for.
    pub fn set_vga_gain(&self, value: u16) -> (query: ControlIn)
        ensures
            query == vendor_in(VendorRequest::SetVgaGain, 0, value, 1),
    {
        control_in(VendorRequest::SetVgaGain, 0, value, 1)
    }

    /// The command that switches the transmit amplifier on or off.
    pub fn amp_enable(&self, enable: bool) -> (command: ControlOut)
        ensures
            command@ == vendor_out(
                VendorRequest::AmpEnable,
                0,
                if enable {
                    1u16
                } else {
                    0u16
                },
                Seq::empty(),
            ),
    {
        let value: u16 = if enable {
            1
        } else {
            0
        };
        control_out(VendorRequest::AmpEnable, 0, value, Vec::new())
    }
}

} // verus!
