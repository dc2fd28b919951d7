//! DHCP message vocabulary: the operation codes, the hardware types and the
//! fixed-layout message record.

use vstd::prelude::*;

use crate::net::MacAddr;

verus! {

/// Represents a DHCP operation. Its wire code is `code()` (at run time
/// `to_u8`); `as u8` gives the declaration position, not the wire code.
#[derive(Clone, Copy, Debug, PartialEq, Eq, PartialOrd, Ord, Hash, Structural)]
pub enum DhcpOperation {
    Request,
    Reply,
}

impl DhcpOperation {
    /// The wire code of the operation (the `op` byte of a DHCP message).
    pub open spec fn code(self) -> u8 {
        match self {
            DhcpOperation::Request => 1,
            DhcpOperation::Reply => 2,
        }
    }

    /// The operation whose wire code is `n`, if there is one.
    pub open spec fn from_code(n: u8) -> Option<DhcpOperation> {
        if exists|op: DhcpOperation| op.code() == n {
            Some(choose|op: DhcpOperation| op.code() == n)
        } else {
            None
        }
    }

    /// Decodes the `op` byte of a DHCP message.
    pub fn from_u8(n: u8) -> (res: Option<DhcpOperation>)
        ensures
            res == DhcpOperation::from_code(n),
            res matches Some(op) ==> op.code() == n,
            res is None <==> (n != 1 && n != 2),
    {
        let res = match n {
            1 => Some(DhcpOperation::Request),
            2 => Some(DhcpOperation::Reply),
            _ => None,
        };
        proof {
            DhcpOperation::lemma_code_injective();
            match res {
                Some(t) => {
                    assert(t.code() == n);
                },
                None => {
                    assert forall|t: DhcpOperation| #[trigger] t.code() != n by {}
                },
            }
        }
        res
    }

    /// Encodes the operation as the `op` byte of a DHCP message.
    pub fn to_u8(self) -> (n: u8)
        ensures
            n == self.code(),
    {
        match self {
            DhcpOperation::Request => 1,
            DhcpOperation::Reply => 2,
        }
    }

    /// Distinct operations have distinct wire codes.
    pub proof fn lemma_code_injective()
        ensures
            forall|a: DhcpOperation, b: DhcpOperation| a.code() == b.code() ==> a == b,
    {
    }

    /// Decoding the wire code of an operation gives the operation back, and a
    /// decoded operation carries the code it was decoded from.
    pub proof fn lemma_code_roundtrip(op: DhcpOperation, n: u8)
        ensures
            DhcpOperation::from_code(op.code()) == Some(op),
            DhcpOperation::from_code(n) matches Some(o) ==> o.code() == n,
    {
        DhcpOperation::lemma_code_injective();
    }

    /// The assigned numbers: each variant's wire code, and the variant that
    /// each assigned number decodes to; every other number decodes to none.
    pub proof fn lemma_assigned_numbers()
        ensures
            DhcpOperation::Request.code() == 1,
            DhcpOperation::Reply.code() == 2,
            DhcpOperation::from_code(1) == Some(DhcpOperation::Request),
            DhcpOperation::from_code(2) == Some(DhcpOperation::Reply),
            forall|n: u8| n != 1 && n != 2 ==> #[trigger] DhcpOperation::from_code(n) is None,
    {
        DhcpOperation::lemma_code_injective();
        assert(DhcpOperation::Request.code() == 1);
        assert(DhcpOperation::Reply.code() == 2);
        assert forall|n: u8| n != 1 && n != 2 implies #[trigger] DhcpOperation::from_code(n) is None by {
            assert forall|t: DhcpOperation| #[trigger] t.code() != n by {}
        }
    }
}

/// Represents the DHCP hardware types. Its wire code is `code()` (at run time
/// `to_u8`); `as u8` gives the declaration position, not the wire code.
#[allow(non_snake_case)]
#[allow(non_camel_case_types)]
#[derive(Clone, Copy, Debug, PartialEq, Eq, PartialOrd, Ord, Hash, Structural)]
pub enum DhcpHardwareType {
    Ethernet,
    ExperimentalEthernet,
    AmateurRadioAX25,
    ProteonProNETTokenRing,
    Chaos,
    IEEE802Networks,
    ARCNET,
    Hyperchannel,
    Lanstar,
    AutonetShortAddress,
    LocalTalk,
    LocalNet,
    UltraLink,
    SMDS,
    FrameRelay,
    AsynchronousTransmissionMode,
    HDLC,
    FibreChannel,
    AsynchronousTransmissionMode1,
    PropPointToPointSerial,
    PPP,
    SoftwareLoopback,
    EON,
    Ethernet3MB,
    NSIP,
    Slip,
    ULTRALink,
    DS3,
    SIP,
    FrameRelayInterconnect,
    AsynchronousTransmissionMode2,
    MILSTD188220,
    Metricom,
    IEEE1394,
    MAPOS,
    Twinaxial,
    EUI64,
    HIPARP,
    IPandARPoverISO7816_3,
    ARPSec,
    IPsecTunnel,
    InfiniBand,
    TIA102Project25CommonAirInterface,
    WiegandInterface,
    PureIP,
    HWExp1,
    HFI,
    HWExp2,
    AEthernet,
    HWExp3,
    IPsecTransport,
    SDLCRadio,
    SDLCMultipoint,
    IWARP,
    SixLoWPAN,
    VLAN,
    ProviderBridging,
    IEEE802154,
    MAPOSinIPv4,
    MAPOSinIPv6,
    IEEE802154NonASKPHY,
}

impl DhcpHardwareType {
    /// The wire code of the hardware type (the `htype` byte of a DHCP message).
    pub open spec fn code(self) -> u8 {
        match self {
            DhcpHardwareType::Ethernet => 1,
            DhcpHardwareType::ExperimentalEthernet => 2,
            DhcpHardwareType::AmateurRadioAX25 => 3,
            DhcpHardwareType::ProteonProNETTokenRing => 4,
            DhcpHardwareType::Chaos => 5,
            DhcpHardwareType::IEEE802Networks => 6,
            DhcpHardwareType::ARCNET => 7,
            DhcpHardwareType::Hyperchannel => 8,
            DhcpHardwareType::Lanstar => 9,
            DhcpHardwareType::AutonetShortAddress => 10,
            DhcpHardwareType::LocalTalk => 11,
            DhcpHardwareType::LocalNet => 12,
            DhcpHardwareType::UltraLink => 13,
            DhcpHardwareType::SMDS => 14,
            DhcpHardwareType::FrameRelay => 15,
            DhcpHardwareType::AsynchronousTransmissionMode => 16,
            DhcpHardwareType::HDLC => 17,
            DhcpHardwareType::FibreChannel => 18,
            DhcpHardwareType::AsynchronousTransmissionMode1 => 19,
            DhcpHardwareType::PropPointToPointSerial => 20,
            DhcpHardwareType::PPP => 21,
            DhcpHardwareType::SoftwareLoopback => 24,
            DhcpHardwareType::EON => 25,
            DhcpHardwareType::Ethernet3MB => 26,
            DhcpHardwareType::NSIP => 27,
            DhcpHardwareType::Slip => 28,
            DhcpHardwareType::ULTRALink => 29,
            DhcpHardwareType::DS3 => 30,
            DhcpHardwareType::SIP => 31,
            DhcpHardwareType::FrameRelayInterconnect => 32,
            DhcpHardwareType::AsynchronousTransmissionMode2 => 33,
            DhcpHardwareType::MILSTD188220 => 34,
            DhcpHardwareType::Metricom => 35,
            DhcpHardwareType::IEEE1394 => 37,
            DhcpHardwareType::MAPOS => 39,
            DhcpHardwareType::Twinaxial => 40,
            DhcpHardwareType::EUI64 => 41,
            DhcpHardwareType::HIPARP => 42,
            DhcpHardwareType::IPandARPoverISO7816_3 => 43,
            DhcpHardwareType::ARPSec => 44,
            DhcpHardwareType::IPsecTunnel => 45,
            DhcpHardwareType::InfiniBand => 47,
            DhcpHardwareType::TIA102Project25CommonAirInterface => 48,
            DhcpHardwareType::WiegandInterface => 49,
            DhcpHardwareType::PureIP => 50,
            DhcpHardwareType::HWExp1 => 51,
            DhcpHardwareType::HFI => 52,
            DhcpHardwareType::HWExp2 => 53,
            DhcpHardwareType::AEthernet => 54,
            DhcpHardwareType::HWExp3 => 55,
            DhcpHardwareType::IPsecTransport => 56,
            DhcpHardwareType::SDLCRadio => 57,
            DhcpHardwareType::SDLCMultipoint => 58,
            DhcpHardwareType::IWARP => 59,
            DhcpHardwareType::SixLoWPAN => 61,
            DhcpHardwareType::VLAN => 62,
            DhcpHardwareType::ProviderBridging => 63,
            DhcpHardwareType::IEEE802154 => 64,
            DhcpHardwareType::MAPOSinIPv4 => 65,
            DhcpHardwareType::MAPOSinIPv6 => 66,
            DhcpHardwareType::IEEE802154NonASKPHY => 70,
        }
    }

    /// The hardware type whose wire code is `n`, if there is one.
    pub open spec fn from_code(n: u8) -> Option<DhcpHardwareType> {
        if exists|t: DhcpHardwareType| t.code() == n {
            Some(choose|t: DhcpHardwareType| t.code() == n)
        } else {
            None
        }
    }

    /// Decodes the `htype` byte of a DHCP message.
    pub fn from_u8(n: u8) -> (res: Option<DhcpHardwareType>)
        ensures
            res == DhcpHardwareType::from_code(n),
            res matches Some(t) ==> t.code() == n,
            res is None <==> (forall|t: DhcpHardwareType| t.code() != n),
            res is None <==> (n == 0 || 22 <= n <= 23 || n == 36 || n == 38 || n == 46 || n == 60
                || 67 <= n <= 69 || n >= 71),
    {
        let res = match n {
            1 => Some(DhcpHardwareType::Ethernet),
            2 => Some(DhcpHardwareType::ExperimentalEthernet),
            3 => Some(DhcpHardwareType::AmateurRadioAX25),
            4 => Some(DhcpHardwareType::ProteonProNETTokenRing),
            5 => Some(DhcpHardwareType::Chaos),
            6 => Some(DhcpHardwareType::IEEE802Networks),
            7 => Some(DhcpHardwareType::ARCNET),
            8 => Some(DhcpHardwareType::Hyperchannel),
            9 => Some(DhcpHardwareType::Lanstar),
            10 => Some(DhcpHardwareType::AutonetShortAddress),
            11 => Some(DhcpHardwareType::LocalTalk),
            12 => Some(DhcpHardwareType::LocalNet),
            13 => Some(DhcpHardwareType::UltraLink),
            14 => Some(DhcpHardwareType::SMDS),
            15 => Some(DhcpHardwareType::FrameRelay),
            16 => Some(DhcpHardwareType::AsynchronousTransmissionMode),
            17 => Some(DhcpHardwareType::HDLC),
            18 => Some(DhcpHardwareType::FibreChannel),
            19 => Some(DhcpHardwareType::AsynchronousTransmissionMode1),
            20 => Some(DhcpHardwareType::PropPointToPointSerial),
            21 => Some(DhcpHardwareType::PPP),
            24 => Some(DhcpHardwareType::SoftwareLoopback),
            25 => Some(DhcpHardwareType::EON),
            26 => Some(DhcpHardwareType::Ethernet3MB),
            27 => Some(DhcpHardwareType::NSIP),
            28 => Some(DhcpHardwareType::Slip),
            29 => Some(DhcpHardwareType::ULTRALink),
            30 => Some(DhcpHardwareType::DS3),
            31 => Some(DhcpHardwareType::SIP),
            32 => Some(DhcpHardwareType::FrameRelayInterconnect),
            33 => Some(DhcpHardwareType::AsynchronousTransmissionMode2),
            34 => Some(DhcpHardwareType::MILSTD188220),
            35 => Some(DhcpHardwareType::Metricom),
            37 => Some(DhcpHardwareType::IEEE1394),
            39 => Some(DhcpHardwareType::MAPOS),
            40 => Some(DhcpHardwareType::Twinaxial),
            41 => Some(DhcpHardwareType::EUI64),
            42 => Some(DhcpHardwareType::HIPARP),
            43 => Some(DhcpHardwareType::IPandARPoverISO7816_3),
            44 => Some(DhcpHardwareType::ARPSec),
            45 => Some(DhcpHardwareType::IPsecTunnel),
            47 => Some(DhcpHardwareType::InfiniBand),
            48 => Some(DhcpHardwareType::TIA102Project25CommonAirInterface),
            49 => Some(DhcpHardwareType::WiegandInterface),
            50 => Some(DhcpHardwareType::PureIP),
            51 => Some(DhcpHardwareType::HWExp1),
            52 => Some(DhcpHardwareType::HFI),
            53 => Some(DhcpHardwareType::HWExp2),
            54 => Some(DhcpHardwareType::AEthernet),
            55 => Some(DhcpHardwareType::HWExp3),
            56 => Some(DhcpHardwareType::IPsecTransport),
            57 => Some(DhcpHardwareType::SDLCRadio),
            58 => Some(DhcpHardwareType::SDLCMultipoint),
            59 => Some(DhcpHardwareType::IWARP),
            61 => Some(DhcpHardwareType::SixLoWPAN),
            62 => Some(DhcpHardwareType::VLAN),
            63 => Some(DhcpHardwareType::ProviderBridging),
            64 => Some(DhcpHardwareType::IEEE802154),
            65 => Some(DhcpHardwareType::MAPOSinIPv4),
            66 => Some(DhcpHardwareType::MAPOSinIPv6),
            70 => Some(DhcpHardwareType::IEEE802154NonASKPHY),
            _ => None,
        };
        proof {
            DhcpHardwareType::lemma_code_injective();
            match res {
                Some(t) => {
                    assert(t.code() == n);
                },
                None => {
                    assert forall|t: DhcpHardwareType| #[trigger] t.code() != n by {}
                },
            }
        }
        res
    }

    /// Encodes the hardware type as the `htype` byte of a DHCP message.
    pub fn to_u8(self) -> (n: u8)
        ensures
            n == self.code(),
    {
        match self {
            DhcpHardwareType::Ethernet => 1,
            DhcpHardwareType::ExperimentalEthernet => 2,
            DhcpHardwareType::AmateurRadioAX25 => 3,
            DhcpHardwareType::ProteonProNETTokenRing => 4,
            DhcpHardwareType::Chaos => 5,
            DhcpHardwareType::IEEE802Networks => 6,
            DhcpHardwareType::ARCNET => 7,
            DhcpHardwareType::Hyperchannel => 8,
            DhcpHardwareType::Lanstar => 9,
            DhcpHardwareType::AutonetShortAddress => 10,
            DhcpHardwareType::LocalTalk => 11,
            DhcpHardwareType::LocalNet => 12,
            DhcpHardwareType::UltraLink => 13,
            DhcpHardwareType::SMDS => 14,
            DhcpHardwareType::FrameRelay => 15,
            DhcpHardwareType::AsynchronousTransmissionMode => 16,
            DhcpHardwareType::HDLC => 17,
            DhcpHardwareType::FibreChannel => 18,
            DhcpHardwareType::AsynchronousTransmissionMode1 => 19,
            DhcpHardwareType::PropPointToPointSerial => 20,
            DhcpHardwareType::PPP => 21,
            DhcpHardwareType::SoftwareLoopback => 24,
            DhcpHardwareType::EON => 25,
            DhcpHardwareType::Ethernet3MB => 26,
            DhcpHardwareType::NSIP => 27,
            DhcpHardwareType::Slip => 28,
            DhcpHardwareType::ULTRALink => 29,
            DhcpHardwareType::DS3 => 30,
            DhcpHardwareType::SIP => 31,
            DhcpHardwareType::FrameRelayInterconnect => 32,
            DhcpHardwareType::AsynchronousTransmissionMode2 => 33,
            DhcpHardwareType::MILSTD188220 => 34,
            DhcpHardwareType::Metricom => 35,
            DhcpHardwareType::IEEE1394 => 37,
            DhcpHardwareType::MAPOS => 39,
            DhcpHardwareType::Twinaxial => 40,
            DhcpHardwareType::EUI64 => 41,
            DhcpHardwareType::HIPARP => 42,
            DhcpHardwareType::IPandARPoverISO7816_3 => 43,
            DhcpHardwareType::ARPSec => 44,
            DhcpHardwareType::IPsecTunnel => 45,
            DhcpHardwareType::InfiniBand => 47,
            DhcpHardwareType::TIA102Project25CommonAirInterface => 48,
            DhcpHardwareType::WiegandInterface => 49,
            DhcpHardwareType::PureIP => 50,
            DhcpHardwareType::HWExp1 => 51,
            DhcpHardwareType::HFI => 52,
            DhcpHardwareType::HWExp2 => 53,
            DhcpHardwareType::AEthernet => 54,
            DhcpHardwareType::HWExp3 => 55,
            DhcpHardwareType::IPsecTransport => 56,
            DhcpHardwareType::SDLCRadio => 57,
            DhcpHardwareType::SDLCMultipoint => 58,
            DhcpHardwareType::IWARP => 59,
            DhcpHardwareType::SixLoWPAN => 61,
            DhcpHardwareType::VLAN => 62,
            DhcpHardwareType::ProviderBridging => 63,
            DhcpHardwareType::IEEE802154 => 64,
            DhcpHardwareType::MAPOSinIPv4 => 65,
            DhcpHardwareType::MAPOSinIPv6 => 66,
            DhcpHardwareType::IEEE802154NonASKPHY => 70,
        }
    }

    /// Distinct hardware types have distinct wire codes.
    pub proof fn lemma_code_injective()
        ensures
            forall|a: DhcpHardwareType, b: DhcpHardwareType| a.code() == b.code() ==> a == b,
    {
    }

    /// Decoding the wire code of a hardware type gives the type back, and a
    /// decoded type carries the code it was decoded from.
    pub proof fn lemma_code_roundtrip(t: DhcpHardwareType, n: u8)
        ensures
            DhcpHardwareType::from_code(t.code()) == Some(t),
            DhcpHardwareType::from_code(n) matches Some(o) ==> o.code() == n,
    {
        DhcpHardwareType::lemma_code_injective();
    }

    /// The assigned numbers: each variant's wire code, and the variant that
    /// each assigned number decodes to; every other number decodes to none.
    pub proof fn lemma_assigned_numbers()
        ensures
            DhcpHardwareType::Ethernet.code() == 1,
            DhcpHardwareType::ExperimentalEthernet.code() == 2,
            DhcpHardwareType::AmateurRadioAX25.code() == 3,
            DhcpHardwareType::ProteonProNETTokenRing.code() == 4,
            DhcpHardwareType::Chaos.code() == 5,
            DhcpHardwareType::IEEE802Networks.code() == 6,
            DhcpHardwareType::ARCNET.code() == 7,
            DhcpHardwareType::Hyperchannel.code() == 8,
            DhcpHardwareType::Lanstar.code() == 9,
            DhcpHardwareType::AutonetShortAddress.code() == 10,
            DhcpHardwareType::LocalTalk.code() == 11,
            DhcpHardwareType::LocalNet.code() == 12,
            DhcpHardwareType::UltraLink.code() == 13,
            DhcpHardwareType::SMDS.code() == 14,
            DhcpHardwareType::FrameRelay.code() == 15,
            DhcpHardwareType::AsynchronousTransmissionMode.code() == 16,
            DhcpHardwareType::HDLC.code() == 17,
            DhcpHardwareType::FibreChannel.code() == 18,
            DhcpHardwareType::AsynchronousTransmissionMode1.code() == 19,
            DhcpHardwareType::PropPointToPointSerial.code() == 20,
            DhcpHardwareType::PPP.code() == 21,
            DhcpHardwareType::SoftwareLoopback.code() == 24,
            DhcpHardwareType::EON.code() == 25,
            DhcpHardwareType::Ethernet3MB.code() == 26,
            DhcpHardwareType::NSIP.code() == 27,
            DhcpHardwareType::Slip.code() == 28,
            DhcpHardwareType::ULTRALink.code() == 29,
            DhcpHardwareType::DS3.code() == 30,
            DhcpHardwareType::SIP.code() == 31,
            DhcpHardwareType::FrameRelayInterconnect.code() == 32,
            DhcpHardwareType::AsynchronousTransmissionMode2.code() == 33,
            DhcpHardwareType::MILSTD188220.code() == 34,
            DhcpHardwareType::Metricom.code() == 35,
            DhcpHardwareType::IEEE1394.code() == 37,
            DhcpHardwareType::MAPOS.code() == 39,
            DhcpHardwareType::Twinaxial.code() == 40,
            DhcpHardwareType::EUI64.code() == 41,
            DhcpHardwareType::HIPARP.code() == 42,
            DhcpHardwareType::IPandARPoverISO7816_3.code() == 43,
            DhcpHardwareType::ARPSec.code() == 44,
            DhcpHardwareType::IPsecTunnel.code() == 45,
            DhcpHardwareType::InfiniBand.code() == 47,
            DhcpHardwareType::TIA102Project25CommonAirInterface.code() == 48,
            DhcpHardwareType::WiegandInterface.code() == 49,
            DhcpHardwareType::PureIP.code() == 50,
            DhcpHardwareType::HWExp1.code() == 51,
            DhcpHardwareType::HFI.code() == 52,
            DhcpHardwareType::HWExp2.code() == 53,
            DhcpHardwareType::AEthernet.code() == 54,
            DhcpHardwareType::HWExp3.code() == 55,
            DhcpHardwareType::IPsecTransport.code() == 56,
            DhcpHardwareType::SDLCRadio.code() == 57,
            DhcpHardwareType::SDLCMultipoint.code() == 58,
            DhcpHardwareType::IWARP.code() == 59,
            DhcpHardwareType::SixLoWPAN.code() == 61,
            DhcpHardwareType::VLAN.code() == 62,
            DhcpHardwareType::ProviderBridging.code() == 63,
            DhcpHardwareType::IEEE802154.code() == 64,
            DhcpHardwareType::MAPOSinIPv4.code() == 65,
            DhcpHardwareType::MAPOSinIPv6.code() == 66,
            DhcpHardwareType::IEEE802154NonASKPHY.code() == 70,
            DhcpHardwareType::from_code(1) == Some(DhcpHardwareType::Ethernet),
            DhcpHardwareType::from_code(2) == Some(DhcpHardwareType::ExperimentalEthernet),
            DhcpHardwareType::from_code(3) == Some(DhcpHardwareType::AmateurRadioAX25),
            DhcpHardwareType::from_code(4) == Some(DhcpHardwareType::ProteonProNETTokenRing),
            DhcpHardwareType::from_code(5) == Some(DhcpHardwareType::Chaos),
            DhcpHardwareType::from_code(6) == Some(DhcpHardwareType::IEEE802Networks),
            DhcpHardwareType::from_code(7) == Some(DhcpHardwareType::ARCNET),
            DhcpHardwareType::from_code(8) == Some(DhcpHardwareType::Hyperchannel),
            DhcpHardwareType::from_code(9) == Some(DhcpHardwareType::Lanstar),
            DhcpHardwareType::from_code(10) == Some(DhcpHardwareType::AutonetShortAddress),
            DhcpHardwareType::from_code(11) == Some(DhcpHardwareType::LocalTalk),
            DhcpHardwareType::from_code(12) == Some(DhcpHardwareType::LocalNet),
            DhcpHardwareType::from_code(13) == Some(DhcpHardwareType::UltraLink),
            DhcpHardwareType::from_code(14) == Some(DhcpHardwareType::SMDS),
            DhcpHardwareType::from_code(15) == Some(DhcpHardwareType::FrameRelay),
            DhcpHardwareType::from_code(16) == Some(DhcpHardwareType::AsynchronousTransmissionMode),
            DhcpHardwareType::from_code(17) == Some(DhcpHardwareType::HDLC),
            DhcpHardwareType::from_code(18) == Some(DhcpHardwareType::FibreChannel),
            DhcpHardwareType::from_code(19) == Some(DhcpHardwareType::AsynchronousTransmissionMode1),
            DhcpHardwareType::from_code(20) == Some(DhcpHardwareType::PropPointToPointSerial),
            DhcpHardwareType::from_code(21) == Some(DhcpHardwareType::PPP),
            DhcpHardwareType::from_code(24) == Some(DhcpHardwareType::SoftwareLoopback),
            DhcpHardwareType::from_code(25) == Some(DhcpHardwareType::EON),
            DhcpHardwareType::from_code(26) == Some(DhcpHardwareType::Ethernet3MB),
            DhcpHardwareType::from_code(27) == Some(DhcpHardwareType::NSIP),
            DhcpHardwareType::from_code(28) == Some(DhcpHardwareType::Slip),
            DhcpHardwareType::from_code(29) == Some(DhcpHardwareType::ULTRALink),
            DhcpHardwareType::from_code(30) == Some(DhcpHardwareType::DS3),
            DhcpHardwareType::from_code(31) == Some(DhcpHardwareType::SIP),
            DhcpHardwareType::from_code(32) == Some(DhcpHardwareType::FrameRelayInterconnect),
            DhcpHardwareType::from_code(33) == Some(DhcpHardwareType::AsynchronousTransmissionMode2),
            DhcpHardwareType::from_code(34) == Some(DhcpHardwareType::MILSTD188220),
            DhcpHardwareType::from_code(35) == Some(DhcpHardwareType::Metricom),
            DhcpHardwareType::from_code(37) == Some(DhcpHardwareType::IEEE1394),
            DhcpHardwareType::from_code(39) == Some(DhcpHardwareType::MAPOS),
            DhcpHardwareType::from_code(40) == Some(DhcpHardwareType::Twinaxial),
            DhcpHardwareType::from_code(41) == Some(DhcpHardwareType::EUI64),
            DhcpHardwareType::from_code(42) == Some(DhcpHardwareType::HIPARP),
            DhcpHardwareType::from_code(43) == Some(DhcpHardwareType::IPandARPoverISO7816_3),
            DhcpHardwareType::from_code(44) == Some(DhcpHardwareType::ARPSec),
            DhcpHardwareType::from_code(45) == Some(DhcpHardwareType::IPsecTunnel),
            DhcpHardwareType::from_code(47) == Some(DhcpHardwareType::InfiniBand),
            DhcpHardwareType::from_code(48) == Some(DhcpHardwareType::TIA102Project25CommonAirInterface),
            DhcpHardwareType::from_code(49) == Some(DhcpHardwareType::WiegandInterface),
            DhcpHardwareType::from_code(50) == Some(DhcpHardwareType::PureIP),
            DhcpHardwareType::from_code(51) == Some(DhcpHardwareType::HWExp1),
            DhcpHardwareType::from_code(52) == Some(DhcpHardwareType::HFI),
            DhcpHardwareType::from_code(53) == Some(DhcpHardwareType::HWExp2),
            DhcpHardwareType::from_code(54) == Some(DhcpHardwareType::AEthernet),
            DhcpHardwareType::from_code(55) == Some(DhcpHardwareType::HWExp3),
            DhcpHardwareType::from_code(56) == Some(DhcpHardwareType::IPsecTransport),
            DhcpHardwareType::from_code(57) == Some(DhcpHardwareType::SDLCRadio),
            DhcpHardwareType::from_code(58) == Some(DhcpHardwareType::SDLCMultipoint),
            DhcpHardwareType::from_code(59) == Some(DhcpHardwareType::IWARP),
            DhcpHardwareType::from_code(61) == Some(DhcpHardwareType::SixLoWPAN),
            DhcpHardwareType::from_code(62) == Some(DhcpHardwareType::VLAN),
            DhcpHardwareType::from_code(63) == Some(DhcpHardwareType::ProviderBridging),
            DhcpHardwareType::from_code(64) == Some(DhcpHardwareType::IEEE802154),
            DhcpHardwareType::from_code(65) == Some(DhcpHardwareType::MAPOSinIPv4),
            DhcpHardwareType::from_code(66) == Some(DhcpHardwareType::MAPOSinIPv6),
            DhcpHardwareType::from_code(70) == Some(DhcpHardwareType::IEEE802154NonASKPHY),
            forall|n: u8| (n == 0 || 22 <= n <= 23 || n == 36 || n == 38 || n == 46 || n == 60 || 67 <= n <= 69 || n >= 71) ==> #[trigger] DhcpHardwareType::from_code(n) is None,
    {
        DhcpHardwareType::lemma_code_injective();
        assert(DhcpHardwareType::Ethernet.code() == 1);
        assert(DhcpHardwareType::ExperimentalEthernet.code() == 2);
        assert(DhcpHardwareType::AmateurRadioAX25.code() == 3);
        assert(DhcpHardwareType::ProteonProNETTokenRing.code() == 4);
        assert(DhcpHardwareType::Chaos.code() == 5);
        assert(DhcpHardwareType::IEEE802Networks.code() == 6);
        assert(DhcpHardwareType::ARCNET.code() == 7);
        assert(DhcpHardwareType::Hyperchannel.code() == 8);
        assert(DhcpHardwareType::Lanstar.code() == 9);
        assert(DhcpHardwareType::AutonetShortAddress.code() == 10);
        assert(DhcpHardwareType::LocalTalk.code() == 11);
        assert(DhcpHardwareType::LocalNet.code() == 12);
        assert(DhcpHardwareType::UltraLink.code() == 13);
        assert(DhcpHardwareType::SMDS.code() == 14);
        assert(DhcpHardwareType::FrameRelay.code() == 15);
        assert(DhcpHardwareType::AsynchronousTransmissionMode.code() == 16);
        assert(DhcpHardwareType::HDLC.code() == 17);
        assert(DhcpHardwareType::FibreChannel.code() == 18);
        assert(DhcpHardwareType::AsynchronousTransmissionMode1.code() == 19);
        assert(DhcpHardwareType::PropPointToPointSerial.code() == 20);
        assert(DhcpHardwareType::PPP.code() == 21);
        assert(DhcpHardwareType::SoftwareLoopback.code() == 24);
        assert(DhcpHardwareType::EON.code() == 25);
        assert(DhcpHardwareType::Ethernet3MB.code() == 26);
        assert(DhcpHardwareType::NSIP.code() == 27);
        assert(DhcpHardwareType::Slip.code() == 28);
        assert(DhcpHardwareType::ULTRALink.code() == 29);
        assert(DhcpHardwareType::DS3.code() == 30);
        assert(DhcpHardwareType::SIP.code() == 31);
        assert(DhcpHardwareType::FrameRelayInterconnect.code() == 32);
        assert(DhcpHardwareType::AsynchronousTransmissionMode2.code() == 33);
        assert(DhcpHardwareType::MILSTD188220.code() == 34);
        assert(DhcpHardwareType::Metricom.code() == 35);
        assert(DhcpHardwareType::IEEE1394.code() == 37);
        assert(DhcpHardwareType::MAPOS.code() == 39);
        assert(DhcpHardwareType::Twinaxial.code() == 40);
        assert(DhcpHardwareType::EUI64.code() == 41);
        assert(DhcpHardwareType::HIPARP.code() == 42);
        assert(DhcpHardwareType::IPandARPoverISO7816_3.code() == 43);
        assert(DhcpHardwareType::ARPSec.code() == 44);
        assert(DhcpHardwareType::IPsecTunnel.code() == 45);
        assert(DhcpHardwareType::InfiniBand.code() == 47);
        assert(DhcpHardwareType::TIA102Project25CommonAirInterface.code() == 48);
        assert(DhcpHardwareType::WiegandInterface.code() == 49);
        assert(DhcpHardwareType::PureIP.code() == 50);
        assert(DhcpHardwareType::HWExp1.code() == 51);
        assert(DhcpHardwareType::HFI.code() == 52);
        assert(DhcpHardwareType::HWExp2.code() == 53);
        assert(DhcpHardwareType::AEthernet.code() == 54);
        assert(DhcpHardwareType::HWExp3.code() == 55);
        assert(DhcpHardwareType::IPsecTransport.code() == 56);
        assert(DhcpHardwareType::SDLCRadio.code() == 57);
        assert(DhcpHardwareType::SDLCMultipoint.code() == 58);
        assert(DhcpHardwareType::IWARP.code() == 59);
        assert(DhcpHardwareType::SixLoWPAN.code() == 61);
        assert(DhcpHardwareType::VLAN.code() == 62);
        assert(DhcpHardwareType::ProviderBridging.code() == 63);
        assert(DhcpHardwareType::IEEE802154.code() == 64);
        assert(DhcpHardwareType::MAPOSinIPv4.code() == 65);
        assert(DhcpHardwareType::MAPOSinIPv6.code() == 66);
        assert(DhcpHardwareType::IEEE802154NonASKPHY.code() == 70);
        assert forall|n: u8| (n == 0 || 22 <= n <= 23 || n == 36 || n == 38 || n == 46 || n == 60 || 67 <= n <= 69 || n >= 71) implies #[trigger] DhcpHardwareType::from_code(n) is None by {
            assert forall|t: DhcpHardwareType| #[trigger] t.code() != n by {}
        }
    }
}

/// Represents a DHCP packet. IPv4 addresses are held as the 32-bit integer of
/// their four octets in network order.
#[derive(Clone, Debug, PartialEq)]
pub struct DhcpPacket {
    pub op: DhcpOperation,
    pub htype: DhcpHardwareType,
    pub hlen: u8,
    pub hops: u8,
    pub xid: u32,
    pub secs: u16,
    pub flags: u16,
    pub ciaddr: u32,
    pub yiaddr: u32,
    pub siaddr: u32,
    pub giaddr: u32,
    pub chaddr: MacAddr,
    pub chaddr_pad: Vec<u8>,
    pub sname: Vec<u8>,
    pub file: Vec<u8>,
    pub options: Vec<u8>,
}

} // verus!
