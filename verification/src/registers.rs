//! The four control-access-port registers and their wire format.
//!
//! Every register travels over the transport as a 32-bit word. The
//! identification register packs five sub-fields; the other three registers
//! each carry a single flag in bit 0 with every remaining bit reserved as
//! zero. Encoding and decoding here are the single source of truth for the
//! bit layout: no other module touches the words bit by bit.

use vstd::prelude::*;

verus! {

/// Access-port class, carried in bits [7:4] of the identification word.
///
/// Code 0x1 is the memory access port. Every other code, among them the 0x8
/// that the vendor's control port reports, stands for a port with no defined
/// class and decodes to `Undefined`.
#[derive(Clone, Copy, Debug, PartialEq, Eq, Structural)]
pub enum ApClass {
    Undefined,
    MemAp,
}

impl ApClass {
    /// Canonical code written into the class field on encode.
    pub open spec fn spec_code(self) -> u32 {
        match self {
            ApClass::Undefined => 0x0,
            ApClass::MemAp => 0x1,
        }
    }

    /// Class denoted by a code read from the wire.
    pub open spec fn spec_of_code(code: u32) -> ApClass {
        if code == 0x1 {
            ApClass::MemAp
        } else {
            ApClass::Undefined
        }
    }

    pub fn code(&self) -> (c: u32)
        ensures
            c == self.spec_code(),
    {
        match self {
            ApClass::Undefined => 0x0,
            ApClass::MemAp => 0x1,
        }
    }

    pub fn of_code(code: u32) -> (r: ApClass)
        ensures
            r == Self::spec_of_code(code),
    {
        if code == 0x1 {
            ApClass::MemAp
        } else {
            ApClass::Undefined
        }
    }
}

/// Access-port type, carried in bits [3:0] of the identification word.
///
/// Code 0xA is the JTAG communication port and 0x1 the AHB memory port; any
/// other code decodes to `Unknown`, whose own canonical code is 0x0.
#[derive(Clone, Copy, Debug, PartialEq, Eq, Structural)]
pub enum ApType {
    Unknown,
    JtagComAp,
    AhbMemAp,
}

impl ApType {
    /// Canonical code written into the type field on encode.
    pub open spec fn spec_code(self) -> u32 {
        match self {
            ApType::Unknown => 0x0,
            ApType::JtagComAp => 0xA,
            ApType::AhbMemAp => 0x1,
        }
    }

    /// Type denoted by a code read from the wire.
    pub open spec fn spec_of_code(code: u32) -> ApType {
        if code == 0xA {
            ApType::JtagComAp
        } else if code == 0x1 {
            ApType::AhbMemAp
        } else {
            ApType::Unknown
        }
    }

    pub fn code(&self) -> (c: u32)
        ensures
            c == self.spec_code(),
    {
        match self {
            ApType::Unknown => 0x0,
            ApType::JtagComAp => 0xA,
            ApType::AhbMemAp => 0x1,
        }
    }

    pub fn of_code(code: u32) -> (r: ApType)
        ensures
            r == Self::spec_of_code(code),
    {
        if code == 0xA {
            ApType::JtagComAp
        } else if code == 0x1 {
            ApType::AhbMemAp
        } else {
            ApType::Unknown
        }
    }
}

/// Identification register of an access port.
///
/// Wire layout of the 32-bit word: revision in bits [31:28], variant in
/// bits [27:24], designer in bits [23:8], class in bits [7:4] and type in
/// bits [3:0]. Every bit belongs to exactly one sub-field.
#[derive(Clone, Copy, Debug, PartialEq, Eq, Structural)]
pub struct Idr {
    pub revision: u8,
    pub variant: u8,
    pub designer: u16,
    pub class: ApClass,
    pub ap_type: ApType,
}

impl Idr {
    /// The revision and variant sub-fields are four bits wide on the wire.
    pub open spec fn wf(self) -> bool {
        &&& self.revision < 0x10
        &&& self.variant < 0x10
    }

    pub open spec fn spec_to_wire(self) -> u32 {
        ((self.revision as u32) << 28) | ((self.variant as u32) << 24)
            | ((self.designer as u32) << 8) | (self.class.spec_code() << 4)
            | self.ap_type.spec_code()
    }

    pub open spec fn spec_from_wire(w: u32) -> Idr {
        Idr {
            revision: ((w >> 28) & 0xF) as u8,
            variant: ((w >> 24) & 0xF) as u8,
            designer: ((w >> 8) & 0xFFFF) as u16,
            class: ApClass::spec_of_code((w >> 4) & 0xF),
            ap_type: ApType::spec_of_code(w & 0xF),
        }
    }

    pub fn to_wire(&self) -> (w: u32)
        requires
            self.wf(),
        ensures
            w == self.spec_to_wire(),
    {
        ((self.revision as u32) << 28) | ((self.variant as u32) << 24)
            | ((self.designer as u32) << 8) | (self.class.code() << 4) | self.ap_type.code()
    }

    pub fn from_wire(w: u32) -> (r: Idr)
        ensures
            r == Self::spec_from_wire(w),
            r.wf(),
    {
        proof {
            lemma_idr_decode_wf(w);
        }
        Idr {
            revision: ((w >> 28) & 0xF) as u8,
            variant: ((w >> 24) & 0xF) as u8,
            designer: ((w >> 8) & 0xFFFF) as u16,
            class: ApClass::of_code((w >> 4) & 0xF),
            ap_type: ApType::of_code(w & 0xF),
        }
    }
}

/// Whatever word comes off the wire, the decoded identification is
/// well-formed: each extracted sub-field fits its width.
pub proof fn lemma_idr_decode_wf(w: u32)
    ensures
        Idr::spec_from_wire(w).wf(),
{
    assert(((w >> 28) & 0xF) < 0x10 && ((w >> 24) & 0xF) < 0x10) by (bit_vector);
}

/// Round trip for the identification register: decoding an encoded
/// well-formed value gives the value back, sub-field by sub-field.
pub proof fn lemma_idr_round_trip(i: Idr)
    requires
        i.wf(),
    ensures
        Idr::spec_from_wire(i.spec_to_wire()) == i,
{
    let r: u32 = i.revision as u32;
    let v: u32 = i.variant as u32;
    let d: u32 = i.designer as u32;
    let c: u32 = i.class.spec_code();
    let t: u32 = i.ap_type.spec_code();
    let w: u32 = i.spec_to_wire();
    assert((w >> 28) & 0xF == r && (w >> 24) & 0xF == v && (w >> 8) & 0xFFFF == d && (w >> 4)
        & 0xF == c && w & 0xF == t) by (bit_vector)
        requires
            w == (r << 28) | (v << 24) | (d << 8) | (c << 4) | t,
            r < 0x10,
            v < 0x10,
            d < 0x10000,
            c < 0x10,
            t < 0x10,
    ;
}

/// Flag encoding shared by the three single-bit registers: the flag is bit 0
/// of the word and every other bit is reserved as zero.
pub open spec fn spec_flag_to_wire(flag: bool) -> u32 {
    if flag {
        1
    } else {
        0
    }
}

/// Only bit 0 of the word participates in decoding a single-bit register.
pub open spec fn spec_flag_from_wire(w: u32) -> bool {
    w & 1 == 1
}

fn flag_to_wire(flag: bool) -> (w: u32)
    ensures
        w == spec_flag_to_wire(flag),
{
    if flag {
        1
    } else {
        0
    }
}

fn flag_from_wire(w: u32) -> (flag: bool)
    ensures
        flag == spec_flag_from_wire(w),
{
    w & 1 == 1
}

/// Round trip for the shared flag encoding, and the reserved-bits guarantee:
/// every bit of the encoded word above bit 0 is zero.
pub proof fn lemma_flag_round_trip(flag: bool)
    ensures
        spec_flag_from_wire(spec_flag_to_wire(flag)) == flag,
        spec_flag_to_wire(flag) & 0xFFFF_FFFE == 0,
{
    assert(1u32 & 1 == 1 && 0u32 & 1 == 0 && 1u32 & 0xFFFF_FFFE == 0 && 0u32 & 0xFFFF_FFFE == 0)
        by (bit_vector);
}

/// RESET register: the hold-in-reset flag in bit 0. True asserts the
/// target's reset line, false releases it.
#[derive(Clone, Copy, Debug, PartialEq, Eq, Structural)]
pub struct Reset {
    pub held: bool,
}

impl Reset {
    pub open spec fn spec_to_wire(self) -> u32 {
        spec_flag_to_wire(self.held)
    }

    pub open spec fn spec_from_wire(w: u32) -> Reset {
        Reset { held: spec_flag_from_wire(w) }
    }

    pub fn to_wire(&self) -> (w: u32)
        ensures
            w == self.spec_to_wire(),
    {
        flag_to_wire(self.held)
    }

    pub fn from_wire(w: u32) -> (r: Reset)
        ensures
            r == Self::spec_from_wire(w),
    {
        Reset { held: flag_from_wire(w) }
    }
}

/// ERASEALL register: the erase-trigger flag in bit 0. True requests the
/// chip-internal mass erase, false clears the request.
#[derive(Clone, Copy, Debug, PartialEq, Eq, Structural)]
pub struct EraseAll {
    pub requested: bool,
}

impl EraseAll {
    pub open spec fn spec_to_wire(self) -> u32 {
        spec_flag_to_wire(self.requested)
    }

    pub open spec fn spec_from_wire(w: u32) -> EraseAll {
        EraseAll { requested: spec_flag_from_wire(w) }
    }

    pub fn to_wire(&self) -> (w: u32)
        ensures
            w == self.spec_to_wire(),
    {
        flag_to_wire(self.requested)
    }

    pub fn from_wire(w: u32) -> (r: EraseAll)
        ensures
            r == Self::spec_from_wire(w),
    {
        EraseAll { requested: flag_from_wire(w) }
    }
}

/// ERASEALLSTATUS register: the busy flag in bit 0. True while the
/// chip-internal erase is still in progress, false once it has completed.
#[derive(Clone, Copy, Debug, PartialEq, Eq, Structural)]
pub struct EraseAllStatus {
    pub busy: bool,
}

impl EraseAllStatus {
    pub open spec fn spec_to_wire(self) -> u32 {
        spec_flag_to_wire(self.busy)
    }

    pub open spec fn spec_from_wire(w: u32) -> EraseAllStatus {
        EraseAllStatus { busy: spec_flag_from_wire(w) }
    }

    pub fn to_wire(&self) -> (w: u32)
        ensures
            w == self.spec_to_wire(),
    {
        flag_to_wire(self.busy)
    }

    pub fn from_wire(w: u32) -> (r: EraseAllStatus)
        ensures
            r == Self::spec_from_wire(w),
    {
        EraseAllStatus { busy: flag_from_wire(w) }
    }
}

/// Identification of the vendor's control access port: Nordic's designer
/// code, no defined class, JTAG communication type, revision and variant
/// both zero.
pub open spec fn spec_ctrl_ap_idr() -> Idr {
    Idr {
        revision: 0,
        variant: 0,
        designer: 0x0144,
        class: ApClass::Undefined,
        ap_type: ApType::JtagComAp,
    }
}

pub fn ctrl_ap_idr() -> (r: Idr)
    ensures
        r == spec_ctrl_ap_idr(),
{
    Idr {
        revision: 0,
        variant: 0,
        designer: 0x0144,
        class: ApClass::Undefined,
        ap_type: ApType::JtagComAp,
    }
}

/// A decoded identification names the control access port exactly when it
/// equals the signature in every sub-field.
pub fn is_ctrl_ap(idr: &Idr) -> (r: bool)
    ensures
        r == (*idr == spec_ctrl_ap_idr()),
{
    let sig = ctrl_ap_idr();
    *idr == sig
}

/// Matching the signature is the same as agreeing with it in all five
/// sub-fields; a single differing sub-field breaks the match.
pub proof fn lemma_signature_match_is_fieldwise(idr: Idr)
    ensures
        (idr == spec_ctrl_ap_idr()) <==> (idr.revision == 0 && idr.variant == 0 && idr.designer
            == 0x0144 && idr.class is Undefined && idr.ap_type is JtagComAp),
{
}

} // verus!
