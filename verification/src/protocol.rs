//! The enumerations of the color protocols that the library reasons about.
//!
//! Each type carries the entries of one `<enum>` of the protocol description, and
//! [`ProtocolValue`] ties an entry to the number that stands for it on the wire. The
//! numbers that clients send are decoded by the `wayland-protocols` crate; the
//! `decode_*` functions hand its answer over as a value of the library.
use vstd::prelude::*;
use wayland_protocols::wp::color_management::v1::server::wp_color_manager_v1::{
    Feature as WireFeature, Primaries as WirePrimaries, RenderIntent as WireRenderIntent,
    TransferFunction as WireTf,
};
use wayland_protocols::wp::color_representation::v1::server::wp_color_representation_surface_v1::{
    AlphaMode as WireAlphaMode, ChromaLocation as WireChromaLocation,
    Coefficients as WireCoefficients, Range as WireRange,
};
use wayland_server::WEnum;

verus! {

/// A value that the protocol writes as a number.
///
/// `code` is that number. Distinct values have distinct codes, so a set of values can be
/// kept as the set of their codes.
pub trait ProtocolValue: Sized {
    /// The number that stands for the value.
    spec fn code_spec(self) -> u64;

    /// Two values with one code are the same value.
    proof fn lemma_code_injective(a: Self, b: Self)
        requires
            a.code_spec() == b.code_spec(),
        ensures
            a == b,
    ;

    /// The number that stands for the value.
    fn code(self) -> (code: u64)
        ensures
            code == self.code_spec(),
    ;

    /// The value that `code` stands for, or `None` if it stands for none.
    fn from_code(code: u64) -> (value: Option<Self>)
        ensures
            match value {
                Some(v) => v.code_spec() == code,
                None => forall|v: Self| #[trigger] v.code_spec() != code,
            },
    ;
}

/// How colors are mapped from the surface's volume to the output's.
#[derive(Debug, Clone, Copy, PartialEq, Eq, Hash, Structural)]
pub enum RenderIntent {
    /// Perceptual; every compositor has to support it.
    Perceptual,
    /// Media-relative colorimetric.
    Relative,
    /// Saturation.
    Saturation,
    /// ICC-absolute colorimetric.
    Absolute,
    /// Media-relative colorimetric with black point compensation.
    RelativeBpc,
    /// ICC-absolute colorimetric without chromatic adaptation.
    AbsoluteNoAdaptation,
}

impl RenderIntent {
    /// The wire value of the entry.
    pub open spec fn wire(self) -> u32 {
        match self {
            RenderIntent::Perceptual => 0,
            RenderIntent::Relative => 1,
            RenderIntent::Saturation => 2,
            RenderIntent::Absolute => 3,
            RenderIntent::RelativeBpc => 4,
            RenderIntent::AbsoluteNoAdaptation => 5,
        }
    }

    /// The entry with wire value `raw`, if there is one.
    pub open spec fn from_wire(raw: u32) -> Option<Self> {
        match raw {
            0 => Some(RenderIntent::Perceptual),
            1 => Some(RenderIntent::Relative),
            2 => Some(RenderIntent::Saturation),
            3 => Some(RenderIntent::Absolute),
            4 => Some(RenderIntent::RelativeBpc),
            5 => Some(RenderIntent::AbsoluteNoAdaptation),
            _ => None,
        }
    }

    /// The wire value of the entry.
    pub fn to_wire(self) -> (wire: u32)
        ensures
            wire == self.wire(),
    {
        match self {
            RenderIntent::Perceptual => 0,
            RenderIntent::Relative => 1,
            RenderIntent::Saturation => 2,
            RenderIntent::Absolute => 3,
            RenderIntent::RelativeBpc => 4,
            RenderIntent::AbsoluteNoAdaptation => 5,
        }
    }

    /// A number decodes to the entry that it stands for, and to no other.
    pub proof fn lemma_wire_round_trip(value: Self, raw: u32)
        ensures
            Self::from_wire(raw) == Some(value) <==> raw == value.wire(),
    {
    }
}

impl ProtocolValue for RenderIntent {
    open spec fn code_spec(self) -> u64 {
        self.wire() as u64
    }

    proof fn lemma_code_injective(a: Self, b: Self) {
    }

    fn code(self) -> (code: u64) {
        self.to_wire() as u64
    }

    fn from_code(code: u64) -> (value: Option<Self>) {
        if code > u32::MAX as u64 {
            None
        } else {
            decode_render_intent(code as u32)
        }
    }
}

/// Decodes the rendering intent that a client sent: `WEnum::from` of `wayland-server` over
/// `RenderIntent::try_from` of `wp_color_manager_v1`.
///
/// That `try_from` is generated from the `<enum name="render_intent">` of
/// `color-management-v1.xml`: it matches the number against the entries. The contract
/// claims that the result is the entry with that number, and `None` exactly where there
/// is no such entry.
#[verifier::external_body]
pub(crate) fn decode_render_intent(raw: u32) -> (value: Option<RenderIntent>)
    ensures
        value == RenderIntent::from_wire(raw),
{
    let WEnum::Value(entry) = WEnum::<WireRenderIntent>::from(raw) else { return None };
    Some(match entry {
        WireRenderIntent::Perceptual => RenderIntent::Perceptual,
        WireRenderIntent::Relative => RenderIntent::Relative,
        WireRenderIntent::Saturation => RenderIntent::Saturation,
        WireRenderIntent::Absolute => RenderIntent::Absolute,
        WireRenderIntent::RelativeBpc => RenderIntent::RelativeBpc,
        WireRenderIntent::AbsoluteNoAdaptation => RenderIntent::AbsoluteNoAdaptation,
        _ => return None,
    })
}

/// An optional part of the color-management protocol.
#[derive(Debug, Clone, Copy, PartialEq, Eq, Hash, Structural)]
pub enum Feature {
    /// `create_icc_creator`.
    IccV2V4,
    /// `create_parametric_creator`.
    Parametric,
    /// `set_primaries` on the parametric creator.
    SetPrimaries,
    /// `set_tf_power` on the parametric creator.
    SetTfPower,
    /// `set_luminances` on the parametric creator.
    SetLuminances,
    /// `set_mastering_display_primaries` on the parametric creator.
    SetMasteringDisplayPrimaries,
    /// Target volumes beyond the primary color volume.
    ExtendedTargetVolume,
    /// `create_windows_scrgb`.
    WindowsScrgb,
}

impl Feature {
    /// The wire value of the entry.
    pub open spec fn wire(self) -> u32 {
        match self {
            Feature::IccV2V4 => 0,
            Feature::Parametric => 1,
            Feature::SetPrimaries => 2,
            Feature::SetTfPower => 3,
            Feature::SetLuminances => 4,
            Feature::SetMasteringDisplayPrimaries => 5,
            Feature::ExtendedTargetVolume => 6,
            Feature::WindowsScrgb => 7,
        }
    }

    /// The entry with wire value `raw`, if there is one.
    pub open spec fn from_wire(raw: u32) -> Option<Self> {
        match raw {
            0 => Some(Feature::IccV2V4),
            1 => Some(Feature::Parametric),
            2 => Some(Feature::SetPrimaries),
            3 => Some(Feature::SetTfPower),
            4 => Some(Feature::SetLuminances),
            5 => Some(Feature::SetMasteringDisplayPrimaries),
            6 => Some(Feature::ExtendedTargetVolume),
            7 => Some(Feature::WindowsScrgb),
            _ => None,
        }
    }

    /// The wire value of the entry.
    pub fn to_wire(self) -> (wire: u32)
        ensures
            wire == self.wire(),
    {
        match self {
            Feature::IccV2V4 => 0,
            Feature::Parametric => 1,
            Feature::SetPrimaries => 2,
            Feature::SetTfPower => 3,
            Feature::SetLuminances => 4,
            Feature::SetMasteringDisplayPrimaries => 5,
            Feature::ExtendedTargetVolume => 6,
            Feature::WindowsScrgb => 7,
        }
    }

    /// A number decodes to the entry that it stands for, and to no other.
    pub proof fn lemma_wire_round_trip(value: Self, raw: u32)
        ensures
            Self::from_wire(raw) == Some(value) <==> raw == value.wire(),
    {
    }
}

impl ProtocolValue for Feature {
    open spec fn code_spec(self) -> u64 {
        self.wire() as u64
    }

    proof fn lemma_code_injective(a: Self, b: Self) {
    }

    fn code(self) -> (code: u64) {
        self.to_wire() as u64
    }

    fn from_code(code: u64) -> (value: Option<Self>) {
        if code > u32::MAX as u64 {
            None
        } else {
            decode_feature(code as u32)
        }
    }
}

/// Decodes the feature that a client sent: `WEnum::from` of `wayland-server` over
/// `Feature::try_from` of `wp_color_manager_v1`.
///
/// That `try_from` is generated from the `<enum name="feature">` of
/// `color-management-v1.xml`: it matches the number against the entries. The contract
/// claims that the result is the entry with that number, and `None` exactly where there
/// is no such entry.
#[verifier::external_body]
pub(crate) fn decode_feature(raw: u32) -> (value: Option<Feature>)
    ensures
        value == Feature::from_wire(raw),
{
    let WEnum::Value(entry) = WEnum::<WireFeature>::from(raw) else { return None };
    Some(match entry {
        WireFeature::IccV2V4 => Feature::IccV2V4,
        WireFeature::Parametric => Feature::Parametric,
        WireFeature::SetPrimaries => Feature::SetPrimaries,
        WireFeature::SetTfPower => Feature::SetTfPower,
        WireFeature::SetLuminances => Feature::SetLuminances,
        WireFeature::SetMasteringDisplayPrimaries => Feature::SetMasteringDisplayPrimaries,
        WireFeature::ExtendedTargetVolume => Feature::ExtendedTargetVolume,
        WireFeature::WindowsScrgb => Feature::WindowsScrgb,
        _ => return None,
    })
}

/// A named set of primaries with its white point.
#[derive(Debug, Clone, Copy, PartialEq, Eq, Hash, Structural)]
pub enum Primaries {
    /// sRGB / BT.709.
    Srgb,
    /// PAL-M.
    PalM,
    /// PAL.
    Pal,
    /// NTSC.
    Ntsc,
    /// Generic film with color filters.
    GenericFilm,
    /// BT.2020 / BT.2100.
    Bt2020,
    /// CIE 1931 XYZ.
    Cie1931Xyz,
    /// DCI-P3.
    DciP3,
    /// Display P3.
    DisplayP3,
    /// Adobe RGB.
    AdobeRgb,
}

impl Primaries {
    /// The wire value of the entry.
    pub open spec fn wire(self) -> u32 {
        match self {
            Primaries::Srgb => 1,
            Primaries::PalM => 2,
            Primaries::Pal => 3,
            Primaries::Ntsc => 4,
            Primaries::GenericFilm => 5,
            Primaries::Bt2020 => 6,
            Primaries::Cie1931Xyz => 7,
            Primaries::DciP3 => 8,
            Primaries::DisplayP3 => 9,
            Primaries::AdobeRgb => 10,
        }
    }

    /// The entry with wire value `raw`, if there is one.
    pub open spec fn from_wire(raw: u32) -> Option<Self> {
        match raw {
            1 => Some(Primaries::Srgb),
            2 => Some(Primaries::PalM),
            3 => Some(Primaries::Pal),
            4 => Some(Primaries::Ntsc),
            5 => Some(Primaries::GenericFilm),
            6 => Some(Primaries::Bt2020),
            7 => Some(Primaries::Cie1931Xyz),
            8 => Some(Primaries::DciP3),
            9 => Some(Primaries::DisplayP3),
            10 => Some(Primaries::AdobeRgb),
            _ => None,
        }
    }

    /// The wire value of the entry.
    pub fn to_wire(self) -> (wire: u32)
        ensures
            wire == self.wire(),
    {
        match self {
            Primaries::Srgb => 1,
            Primaries::PalM => 2,
            Primaries::Pal => 3,
            Primaries::Ntsc => 4,
            Primaries::GenericFilm => 5,
            Primaries::Bt2020 => 6,
            Primaries::Cie1931Xyz => 7,
            Primaries::DciP3 => 8,
            Primaries::DisplayP3 => 9,
            Primaries::AdobeRgb => 10,
        }
    }

    /// A number decodes to the entry that it stands for, and to no other.
    pub proof fn lemma_wire_round_trip(value: Self, raw: u32)
        ensures
            Self::from_wire(raw) == Some(value) <==> raw == value.wire(),
    {
    }
}

impl ProtocolValue for Primaries {
    open spec fn code_spec(self) -> u64 {
        self.wire() as u64
    }

    proof fn lemma_code_injective(a: Self, b: Self) {
    }

    fn code(self) -> (code: u64) {
        self.to_wire() as u64
    }

    fn from_code(code: u64) -> (value: Option<Self>) {
        if code > u32::MAX as u64 {
            None
        } else {
            decode_primaries(code as u32)
        }
    }
}

/// Decodes the named primaries that a client sent: `WEnum::from` of `wayland-server` over
/// `Primaries::try_from` of `wp_color_manager_v1`.
///
/// That `try_from` is generated from the `<enum name="primaries">` of
/// `color-management-v1.xml`: it matches the number against the entries. The contract
/// claims that the result is the entry with that number, and `None` exactly where there
/// is no such entry.
#[verifier::external_body]
pub(crate) fn decode_primaries(raw: u32) -> (value: Option<Primaries>)
    ensures
        value == Primaries::from_wire(raw),
{
    let WEnum::Value(entry) = WEnum::<WirePrimaries>::from(raw) else { return None };
    Some(match entry {
        WirePrimaries::Srgb => Primaries::Srgb, WirePrimaries::PalM => Primaries::PalM,
        WirePrimaries::Pal => Primaries::Pal, WirePrimaries::Ntsc => Primaries::Ntsc,
        WirePrimaries::GenericFilm => Primaries::GenericFilm, WirePrimaries::Bt2020 => Primaries::Bt2020,
        WirePrimaries::Cie1931Xyz => Primaries::Cie1931Xyz, WirePrimaries::DciP3 => Primaries::DciP3,
        WirePrimaries::DisplayP3 => Primaries::DisplayP3, WirePrimaries::AdobeRgb => Primaries::AdobeRgb,
        _ => return None,
    })
}

/// A named transfer function.
#[derive(Debug, Clone, Copy, PartialEq, Eq, Hash, Structural)]
pub enum TransferFunction {
    /// BT.1886 display transfer.
    Bt1886,
    /// Gamma 2.2.
    Gamma22,
    /// Gamma 2.8.
    Gamma28,
    /// SMPTE ST 240.
    St240,
    /// Extended linear.
    ExtLinear,
    /// Logarithmic, 100:1.
    Log100,
    /// Logarithmic, 316:1.
    Log316,
    /// xvYCC.
    Xvycc,
    /// Two-piece sRGB.
    Srgb,
    /// Extended two-piece sRGB.
    ExtSrgb,
    /// SMPTE ST 2084 (PQ).
    St2084Pq,
    /// SMPTE ST 428.
    St428,
    /// Hybrid log-gamma.
    Hlg,
    /// IEC 61966-2-1 two-piece curve, exponent 2.4.
    CompoundPower24,
}

impl TransferFunction {
    /// The wire value of the entry.
    pub open spec fn wire(self) -> u32 {
        match self {
            TransferFunction::Bt1886 => 1,
            TransferFunction::Gamma22 => 2,
            TransferFunction::Gamma28 => 3,
            TransferFunction::St240 => 4,
            TransferFunction::ExtLinear => 5,
            TransferFunction::Log100 => 6,
            TransferFunction::Log316 => 7,
            TransferFunction::Xvycc => 8,
            TransferFunction::Srgb => 9,
            TransferFunction::ExtSrgb => 10,
            TransferFunction::St2084Pq => 11,
            TransferFunction::St428 => 12,
            TransferFunction::Hlg => 13,
            TransferFunction::CompoundPower24 => 14,
        }
    }

    /// The entry with wire value `raw`, if there is one.
    pub open spec fn from_wire(raw: u32) -> Option<Self> {
        match raw {
            1 => Some(TransferFunction::Bt1886),
            2 => Some(TransferFunction::Gamma22),
            3 => Some(TransferFunction::Gamma28),
            4 => Some(TransferFunction::St240),
            5 => Some(TransferFunction::ExtLinear),
            6 => Some(TransferFunction::Log100),
            7 => Some(TransferFunction::Log316),
            8 => Some(TransferFunction::Xvycc),
            9 => Some(TransferFunction::Srgb),
            10 => Some(TransferFunction::ExtSrgb),
            11 => Some(TransferFunction::St2084Pq),
            12 => Some(TransferFunction::St428),
            13 => Some(TransferFunction::Hlg),
            14 => Some(TransferFunction::CompoundPower24),
            _ => None,
        }
    }

    /// The wire value of the entry.
    pub fn to_wire(self) -> (wire: u32)
        ensures
            wire == self.wire(),
    {
        match self {
            TransferFunction::Bt1886 => 1,
            TransferFunction::Gamma22 => 2,
            TransferFunction::Gamma28 => 3,
            TransferFunction::St240 => 4,
            TransferFunction::ExtLinear => 5,
            TransferFunction::Log100 => 6,
            TransferFunction::Log316 => 7,
            TransferFunction::Xvycc => 8,
            TransferFunction::Srgb => 9,
            TransferFunction::ExtSrgb => 10,
            TransferFunction::St2084Pq => 11,
            TransferFunction::St428 => 12,
            TransferFunction::Hlg => 13,
            TransferFunction::CompoundPower24 => 14,
        }
    }

    /// A number decodes to the entry that it stands for, and to no other.
    pub proof fn lemma_wire_round_trip(value: Self, raw: u32)
        ensures
            Self::from_wire(raw) == Some(value) <==> raw == value.wire(),
    {
    }
}

impl ProtocolValue for TransferFunction {
    open spec fn code_spec(self) -> u64 {
        self.wire() as u64
    }

    proof fn lemma_code_injective(a: Self, b: Self) {
    }

    fn code(self) -> (code: u64) {
        self.to_wire() as u64
    }

    fn from_code(code: u64) -> (value: Option<Self>) {
        if code > u32::MAX as u64 {
            None
        } else {
            decode_transfer_function(code as u32)
        }
    }
}

/// Decodes the named transfer function that a client sent: `WEnum::from` of `wayland-server` over
/// `TransferFunction::try_from` of `wp_color_manager_v1`.
///
/// That `try_from` is generated from the `<enum name="transfer_function">` of
/// `color-management-v1.xml`: it matches the number against the entries. The contract
/// claims that the result is the entry with that number, and `None` exactly where there
/// is no such entry.
#[verifier::external_body]
pub(crate) fn decode_transfer_function(raw: u32) -> (value: Option<TransferFunction>)
    ensures
        value == TransferFunction::from_wire(raw),
{
    let WEnum::Value(entry) = WEnum::<WireTf>::from(raw) else { return None };
    Some(match entry {
        WireTf::Bt1886 => TransferFunction::Bt1886, WireTf::Gamma22 => TransferFunction::Gamma22,
        WireTf::Gamma28 => TransferFunction::Gamma28, WireTf::St240 => TransferFunction::St240,
        WireTf::ExtLinear => TransferFunction::ExtLinear, WireTf::Log100 => TransferFunction::Log100,
        WireTf::Log316 => TransferFunction::Log316, WireTf::Xvycc => TransferFunction::Xvycc,
        WireTf::Srgb => TransferFunction::Srgb, WireTf::ExtSrgb => TransferFunction::ExtSrgb,
        WireTf::St2084Pq => TransferFunction::St2084Pq, WireTf::St428 => TransferFunction::St428,
        WireTf::Hlg => TransferFunction::Hlg, WireTf::CompoundPower24 => TransferFunction::CompoundPower24,
        _ => return None,
    })
}

/// How the alpha channel of a buffer relates to its color channels.
#[derive(Debug, Clone, Copy, PartialEq, Eq, Hash, Structural)]
pub enum AlphaMode {
    /// Premultiplied after the transfer function.
    PremultipliedElectrical,
    /// Premultiplied before the transfer function.
    PremultipliedOptical,
    /// Not premultiplied.
    Straight,
}

impl AlphaMode {
    /// The wire value of the entry.
    pub open spec fn wire(self) -> u32 {
        match self {
            AlphaMode::PremultipliedElectrical => 0,
            AlphaMode::PremultipliedOptical => 1,
            AlphaMode::Straight => 2,
        }
    }

    /// The entry with wire value `raw`, if there is one.
    pub open spec fn from_wire(raw: u32) -> Option<Self> {
        match raw {
            0 => Some(AlphaMode::PremultipliedElectrical),
            1 => Some(AlphaMode::PremultipliedOptical),
            2 => Some(AlphaMode::Straight),
            _ => None,
        }
    }

    /// The wire value of the entry.
    pub fn to_wire(self) -> (wire: u32)
        ensures
            wire == self.wire(),
    {
        match self {
            AlphaMode::PremultipliedElectrical => 0,
            AlphaMode::PremultipliedOptical => 1,
            AlphaMode::Straight => 2,
        }
    }

    /// A number decodes to the entry that it stands for, and to no other.
    pub proof fn lemma_wire_round_trip(value: Self, raw: u32)
        ensures
            Self::from_wire(raw) == Some(value) <==> raw == value.wire(),
    {
    }
}

impl ProtocolValue for AlphaMode {
    open spec fn code_spec(self) -> u64 {
        self.wire() as u64
    }

    proof fn lemma_code_injective(a: Self, b: Self) {
    }

    fn code(self) -> (code: u64) {
        self.to_wire() as u64
    }

    fn from_code(code: u64) -> (value: Option<Self>) {
        if code > u32::MAX as u64 {
            None
        } else {
            decode_alpha_mode(code as u32)
        }
    }
}

/// Decodes the alpha mode that a client sent: `WEnum::from` of `wayland-server` over
/// `AlphaMode::try_from` of `wp_color_representation_surface_v1`.
///
/// That `try_from` is generated from the `<enum name="alpha_mode">` of
/// `color-representation-v1.xml`: it matches the number against the entries. The contract
/// claims that the result is the entry with that number, and `None` exactly where there
/// is no such entry.
#[verifier::external_body]
pub(crate) fn decode_alpha_mode(raw: u32) -> (value: Option<AlphaMode>)
    ensures
        value == AlphaMode::from_wire(raw),
{
    let WEnum::Value(entry) = WEnum::<WireAlphaMode>::from(raw) else { return None };
    Some(match entry {
        WireAlphaMode::PremultipliedElectrical => AlphaMode::PremultipliedElectrical,
        WireAlphaMode::PremultipliedOptical => AlphaMode::PremultipliedOptical,
        WireAlphaMode::Straight => AlphaMode::Straight,
        _ => return None,
    })
}

/// Matrix coefficients between RGB and the buffer's color model.
#[derive(Debug, Clone, Copy, PartialEq, Eq, Hash, Structural)]
pub enum Coefficients {
    /// No conversion.
    Identity,
    /// BT.709.
    Bt709,
    /// FCC.
    Fcc,
    /// BT.601.
    Bt601,
    /// SMPTE 240M.
    Smpte240,
    /// BT.2020, non-constant luminance.
    Bt2020,
    /// BT.2020, constant luminance.
    Bt2020Cl,
    /// BT.2100 ICtCp.
    Ictcp,
}

impl Coefficients {
    /// The wire value of the entry.
    pub open spec fn wire(self) -> u32 {
        match self {
            Coefficients::Identity => 1,
            Coefficients::Bt709 => 2,
            Coefficients::Fcc => 3,
            Coefficients::Bt601 => 4,
            Coefficients::Smpte240 => 5,
            Coefficients::Bt2020 => 6,
            Coefficients::Bt2020Cl => 7,
            Coefficients::Ictcp => 8,
        }
    }

    /// The entry with wire value `raw`, if there is one.
    pub open spec fn from_wire(raw: u32) -> Option<Self> {
        match raw {
            1 => Some(Coefficients::Identity),
            2 => Some(Coefficients::Bt709),
            3 => Some(Coefficients::Fcc),
            4 => Some(Coefficients::Bt601),
            5 => Some(Coefficients::Smpte240),
            6 => Some(Coefficients::Bt2020),
            7 => Some(Coefficients::Bt2020Cl),
            8 => Some(Coefficients::Ictcp),
            _ => None,
        }
    }

    /// The wire value of the entry.
    pub fn to_wire(self) -> (wire: u32)
        ensures
            wire == self.wire(),
    {
        match self {
            Coefficients::Identity => 1,
            Coefficients::Bt709 => 2,
            Coefficients::Fcc => 3,
            Coefficients::Bt601 => 4,
            Coefficients::Smpte240 => 5,
            Coefficients::Bt2020 => 6,
            Coefficients::Bt2020Cl => 7,
            Coefficients::Ictcp => 8,
        }
    }

    /// A number decodes to the entry that it stands for, and to no other.
    pub proof fn lemma_wire_round_trip(value: Self, raw: u32)
        ensures
            Self::from_wire(raw) == Some(value) <==> raw == value.wire(),
    {
    }
}

impl ProtocolValue for Coefficients {
    open spec fn code_spec(self) -> u64 {
        self.wire() as u64
    }

    proof fn lemma_code_injective(a: Self, b: Self) {
    }

    fn code(self) -> (code: u64) {
        self.to_wire() as u64
    }

    fn from_code(code: u64) -> (value: Option<Self>) {
        if code > u32::MAX as u64 {
            None
        } else {
            decode_coefficients(code as u32)
        }
    }
}

/// Decodes the matrix coefficients that a client sent: `WEnum::from` of `wayland-server` over
/// `Coefficients::try_from` of `wp_color_representation_surface_v1`.
///
/// That `try_from` is generated from the `<enum name="coefficients">` of
/// `color-representation-v1.xml`: it matches the number against the entries. The contract
/// claims that the result is the entry with that number, and `None` exactly where there
/// is no such entry.
#[verifier::external_body]
pub(crate) fn decode_coefficients(raw: u32) -> (value: Option<Coefficients>)
    ensures
        value == Coefficients::from_wire(raw),
{
    let WEnum::Value(entry) = WEnum::<WireCoefficients>::from(raw) else { return None };
    Some(match entry {
        WireCoefficients::Identity => Coefficients::Identity,
        WireCoefficients::Bt709 => Coefficients::Bt709,
        WireCoefficients::Fcc => Coefficients::Fcc,
        WireCoefficients::Bt601 => Coefficients::Bt601,
        WireCoefficients::Smpte240 => Coefficients::Smpte240,
        WireCoefficients::Bt2020 => Coefficients::Bt2020,
        WireCoefficients::Bt2020Cl => Coefficients::Bt2020Cl,
        WireCoefficients::Ictcp => Coefficients::Ictcp,
        _ => return None,
    })
}

/// Quantization range of a buffer's values.
#[derive(Debug, Clone, Copy, PartialEq, Eq, Hash, Structural)]
pub enum Range {
    /// Full range.
    Full,
    /// Limited (TV) range.
    Limited,
}

impl Range {
    /// The wire value of the entry.
    pub open spec fn wire(self) -> u32 {
        match self {
            Range::Full => 1,
            Range::Limited => 2,
        }
    }

    /// The entry with wire value `raw`, if there is one.
    pub open spec fn from_wire(raw: u32) -> Option<Self> {
        match raw {
            1 => Some(Range::Full),
            2 => Some(Range::Limited),
            _ => None,
        }
    }

    /// The wire value of the entry.
    pub fn to_wire(self) -> (wire: u32)
        ensures
            wire == self.wire(),
    {
        match self {
            Range::Full => 1,
            Range::Limited => 2,
        }
    }

    /// A number decodes to the entry that it stands for, and to no other.
    pub proof fn lemma_wire_round_trip(value: Self, raw: u32)
        ensures
            Self::from_wire(raw) == Some(value) <==> raw == value.wire(),
    {
    }
}

impl ProtocolValue for Range {
    open spec fn code_spec(self) -> u64 {
        self.wire() as u64
    }

    proof fn lemma_code_injective(a: Self, b: Self) {
    }

    fn code(self) -> (code: u64) {
        self.to_wire() as u64
    }

    fn from_code(code: u64) -> (value: Option<Self>) {
        if code > u32::MAX as u64 {
            None
        } else {
            decode_range(code as u32)
        }
    }
}

/// Decodes the quantization range that a client sent: `WEnum::from` of `wayland-server` over
/// `Range::try_from` of `wp_color_representation_surface_v1`.
///
/// That `try_from` is generated from the `<enum name="range">` of
/// `color-representation-v1.xml`: it matches the number against the entries. The contract
/// claims that the result is the entry with that number, and `None` exactly where there
/// is no such entry.
#[verifier::external_body]
pub(crate) fn decode_range(raw: u32) -> (value: Option<Range>)
    ensures
        value == Range::from_wire(raw),
{
    let WEnum::Value(entry) = WEnum::<WireRange>::from(raw) else { return None };
    Some(match entry {
        WireRange::Full => Range::Full,
        WireRange::Limited => Range::Limited,
        _ => return None,
    })
}

/// Position of sub-sampled chroma samples.
#[derive(Debug, Clone, Copy, PartialEq, Eq, Hash, Structural)]
pub enum ChromaLocation {
    /// Horizontally co-sited, vertically centered.
    Type0,
    /// Centred both ways.
    Type1,
    /// Co-sited both ways.
    Type2,
    /// Horizontally centered, vertically co-sited at the top.
    Type3,
    /// Horizontally co-sited, vertically co-sited at the bottom.
    Type4,
    /// Horizontally centered, vertically co-sited at the bottom.
    Type5,
}

impl ChromaLocation {
    /// The wire value of the entry.
    pub open spec fn wire(self) -> u32 {
        match self {
            ChromaLocation::Type0 => 1,
            ChromaLocation::Type1 => 2,
            ChromaLocation::Type2 => 3,
            ChromaLocation::Type3 => 4,
            ChromaLocation::Type4 => 5,
            ChromaLocation::Type5 => 6,
        }
    }

    /// The entry with wire value `raw`, if there is one.
    pub open spec fn from_wire(raw: u32) -> Option<Self> {
        match raw {
            1 => Some(ChromaLocation::Type0),
            2 => Some(ChromaLocation::Type1),
            3 => Some(ChromaLocation::Type2),
            4 => Some(ChromaLocation::Type3),
            5 => Some(ChromaLocation::Type4),
            6 => Some(ChromaLocation::Type5),
            _ => None,
        }
    }

    /// The wire value of the entry.
    pub fn to_wire(self) -> (wire: u32)
        ensures
            wire == self.wire(),
    {
        match self {
            ChromaLocation::Type0 => 1,
            ChromaLocation::Type1 => 2,
            ChromaLocation::Type2 => 3,
            ChromaLocation::Type3 => 4,
            ChromaLocation::Type4 => 5,
            ChromaLocation::Type5 => 6,
        }
    }

    /// A number decodes to the entry that it stands for, and to no other.
    pub proof fn lemma_wire_round_trip(value: Self, raw: u32)
        ensures
            Self::from_wire(raw) == Some(value) <==> raw == value.wire(),
    {
    }
}

impl ProtocolValue for ChromaLocation {
    open spec fn code_spec(self) -> u64 {
        self.wire() as u64
    }

    proof fn lemma_code_injective(a: Self, b: Self) {
    }

    fn code(self) -> (code: u64) {
        self.to_wire() as u64
    }

    fn from_code(code: u64) -> (value: Option<Self>) {
        if code > u32::MAX as u64 {
            None
        } else {
            decode_chroma_location(code as u32)
        }
    }
}

/// Decodes the chroma location that a client sent: `WEnum::from` of `wayland-server` over
/// `ChromaLocation::try_from` of `wp_color_representation_surface_v1`.
///
/// That `try_from` is generated from the `<enum name="chroma_location">` of
/// `color-representation-v1.xml`: it matches the number against the entries. The contract
/// claims that the result is the entry with that number, and `None` exactly where there
/// is no such entry.
#[verifier::external_body]
pub(crate) fn decode_chroma_location(raw: u32) -> (value: Option<ChromaLocation>)
    ensures
        value == ChromaLocation::from_wire(raw),
{
    let WEnum::Value(entry) = WEnum::<WireChromaLocation>::from(raw) else { return None };
    Some(match entry {
        WireChromaLocation::Type0 => ChromaLocation::Type0,
        WireChromaLocation::Type1 => ChromaLocation::Type1,
        WireChromaLocation::Type2 => ChromaLocation::Type2,
        WireChromaLocation::Type3 => ChromaLocation::Type3,
        WireChromaLocation::Type4 => ChromaLocation::Type4,
        WireChromaLocation::Type5 => ChromaLocation::Type5,
        _ => return None,
    })
}

impl ProtocolValue for (Coefficients, Range) {
    open spec fn code_spec(self) -> u64 {
        (self.0.wire() * 0x1_0000_0000 + self.1.wire()) as u64
    }

    proof fn lemma_code_injective(a: Self, b: Self) {
    }

    fn code(self) -> (code: u64) {
        self.0.to_wire() as u64 * 0x1_0000_0000 + self.1.to_wire() as u64
    }

    fn from_code(code: u64) -> (value: Option<Self>) {
        let coefficients = decode_coefficients((code / 0x1_0000_0000) as u32);
        let range = decode_range((code % 0x1_0000_0000) as u32);
        match (coefficients, range) {
            (Some(c), Some(r)) => Some((c, r)),
            _ => None,
        }
    }
}

} // verus!
