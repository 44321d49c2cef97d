use vstd::prelude::*;
use vstd::std_specs::convert::FromSpecImpl;

verus! {

/// The vendor requests of the device's control protocol.
#[derive(Debug, Clone, Copy, PartialEq, Eq, Structural)]
pub enum VendorRequest {
    SetTransceiverMode,
    Max2837Write,
    Max2837Read,
    Si5351CWrite,
    Si5351CRead,
    SetSampleRate,
    SetBasebandFilterBandwidth,
    Rffc5071Write,
    Rffc5071Read,
    SpiFlashErase,
    SpiFlashWrite,
    SpiFlashRead,
    BoardIdRead,
    VersionStringRead,
    SetFreq,
    AmpEnable,
    BoardPartIdSerialNoRead,
    SetLnaGain,
    SetVgaGain,
    SetTxVgaGain,
    AntennaEnable,
    SetFreqExplicit,
    UsbWcidVendorReq,
    InitSweep,
    OperaCakeGetBoards,
    OperaCakeSetPorts,
    SetHwSyncMode,
    Reset,
    OperaCakeSetRanges,
    ClkOutEnable,
    SpiFlashStatus,
    SpiFlashClearStatus,
    OperaCakeGpioTest,
    CpldChecksum,
    UiEnable,
    OperaCakeSetMode,
    OperaCakeGetMode,
    OperaCakeSetDwellTimes,
    GetM0State,
    SetTxUnderrunLimit,
    SetRxOverrunLimit,
    GetClkinStatus,
    BoardRevRead,
    SupportedPlatformRead,
    SetLeds,
    SetUserBiasTOpts,
}

impl VendorRequest {
    /// The request code that goes on the bus.
    pub open spec fn spec_code(self) -> u8 {
        match self {
            VendorRequest::SetTransceiverMode => 1,
            VendorRequest::Max2837Write => 2,
            VendorRequest::Max2837Read => 3,
            VendorRequest::Si5351CWrite => 4,
            VendorRequest::Si5351CRead => 5,
            VendorRequest::SetSampleRate => 6,
            VendorRequest::SetBasebandFilterBandwidth => 7,
            VendorRequest::Rffc5071Write => 8,
            VendorRequest::Rffc5071Read => 9,
            VendorRequest::SpiFlashErase => 10,
            VendorRequest::SpiFlashWrite => 11,
            VendorRequest::SpiFlashRead => 12,
            VendorRequest::BoardIdRead => 14,
            VendorRequest::VersionStringRead => 15,
            VendorRequest::SetFreq => 16,
            VendorRequest::AmpEnable => 17,
            VendorRequest::BoardPartIdSerialNoRead => 18,
            VendorRequest::SetLnaGain => 19,
            VendorRequest::SetVgaGain => 20,
            VendorRequest::SetTxVgaGain => 21,
            VendorRequest::AntennaEnable => 23,
            VendorRequest::SetFreqExplicit => 24,
            VendorRequest::UsbWcidVendorReq => 25,
            VendorRequest::InitSweep => 26,
            VendorRequest::OperaCakeGetBoards => 27,
            VendorRequest::OperaCakeSetPorts => 28,
            VendorRequest::SetHwSyncMode => 29,
            VendorRequest::Reset => 30,
            VendorRequest::OperaCakeSetRanges => 31,
            VendorRequest::ClkOutEnable => 32,
            VendorRequest::SpiFlashStatus => 33,
            VendorRequest::SpiFlashClearStatus => 34,
            VendorRequest::OperaCakeGpioTest => 35,
            VendorRequest::CpldChecksum => 36,
            VendorRequest::UiEnable => 37,
            VendorRequest::OperaCakeSetMode => 38,
            VendorRequest::OperaCakeGetMode => 39,
            VendorRequest::OperaCakeSetDwellTimes => 40,
            VendorRequest::GetM0State => 41,
            VendorRequest::SetTxUnderrunLimit => 42,
            VendorRequest::SetRxOverrunLimit => 43,
            VendorRequest::GetClkinStatus => 44,
            VendorRequest::BoardRevRead => 45,
            VendorRequest::SupportedPlatformRead => 46,
            VendorRequest::SetLeds => 47,
            VendorRequest::SetUserBiasTOpts => 48,
        }
    }
}

impl From<VendorRequest> for u8 {
    fn from(request: VendorRequest) -> (code: u8) {
        match request {
            VendorRequest::SetTransceiverMode => 1,
            VendorRequest::Max2837Write => 2,
            VendorRequest::Max2837Read => 3,
            VendorRequest::Si5351CWrite => 4,
            VendorRequest::Si5351CRead => 5,
            VendorRequest::SetSampleRate => 6,
            VendorRequest::SetBasebandFilterBandwidth => 7,
            VendorRequest::Rffc5071Write => 8,
            VendorRequest::Rffc5071Read => 9,
            VendorRequest::SpiFlashErase => 10,
            VendorRequest::SpiFlashWrite => 11,
            VendorRequest::SpiFlashRead => 12,
            VendorRequest::BoardIdRead => 14,
            VendorRequest::VersionStringRead => 15,
            VendorRequest::SetFreq => 16,
            VendorRequest::AmpEnable => 17,
            VendorRequest::BoardPartIdSerialNoRead => 18,
            VendorRequest::SetLnaGain => 19,
            VendorRequest::SetVgaGain => 20,
            VendorRequest::SetTxVgaGain => 21,
            VendorRequest::AntennaEnable => 23,
            VendorRequest::SetFreqExplicit => 24,
            VendorRequest::UsbWcidVendorReq => 25,
            VendorRequest::InitSweep => 26,
            VendorRequest::OperaCakeGetBoards => 27,
            VendorRequest::OperaCakeSetPorts => 28,
            VendorRequest::SetHwSyncMode => 29,
            VendorRequest::Reset => 30,
            VendorRequest::OperaCakeSetRanges => 31,
            VendorRequest::ClkOutEnable => 32,
            VendorRequest::SpiFlashStatus => 33,
            VendorRequest::SpiFlashClearStatus => 34,
            VendorRequest::OperaCakeGpioTest => 35,
            VendorRequest::CpldChecksum => 36,
            VendorRequest::UiEnable => 37,
            VendorRequest::OperaCakeSetMode => 38,
            VendorRequest::OperaCakeGetMode => 39,
            VendorRequest::OperaCakeSetDwellTimes => 40,
            VendorRequest::GetM0State => 41,
            VendorRequest::SetTxUnderrunLimit => 42,
            VendorRequest::SetRxOverrunLimit => 43,
            VendorRequest::GetClkinStatus => 44,
            VendorRequest::BoardRevRead => 45,
            VendorRequest::SupportedPlatformRead => 46,
            VendorRequest::SetLeds => 47,
            VendorRequest::SetUserBiasTOpts => 48,
        }
    }
}

impl FromSpecImpl<VendorRequest> for u8 {
    open spec fn obeys_from_spec() -> bool {
        true
    }

    open spec fn from_spec(request: VendorRequest) -> u8 {
        request.spec_code()
    }
}

/// Two requests with the same code are the same request, and every code lies
/// between 1 and 48.
pub proof fn lemma_codes_distinct(a: VendorRequest, b: VendorRequest)
    ensures
        1 <= a.spec_code() <= 48,
        a.spec_code() == b.spec_code() ==> a == b,
{
}

} // verus!
