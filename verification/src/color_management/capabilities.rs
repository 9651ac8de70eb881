//! The set of capabilities that a compositor advertises on `wp_color_manager_v1`.
use vstd::prelude::*;

use crate::advertised::{lists, Advertised};
use crate::protocol::{Feature, Primaries, RenderIntent, TransferFunction};

verus! {

/// What is advertised: the view of [`ColorManagementCapabilities`].
#[verifier::ext_equal]
pub struct CapabilitySets {
    pub intents: Set<RenderIntent>,
    pub features: Set<Feature>,
    pub primaries: Set<Primaries>,
    pub transfer_functions: Set<TransferFunction>,
}

impl CapabilitySets {
    /// Nothing at all.
    pub open spec fn none() -> Self {
        CapabilitySets {
            intents: Set::empty(),
            features: Set::empty(),
            primaries: Set::empty(),
            transfer_functions: Set::empty(),
        }
    }

    /// The conservative default of an HDR-capable compositor.
    pub open spec fn conservative() -> Self {
        CapabilitySets {
            intents: set![RenderIntent::Perceptual],
            features: set![
                Feature::Parametric,
                Feature::SetPrimaries,
                Feature::SetLuminances,
                Feature::SetMasteringDisplayPrimaries,
                Feature::ExtendedTargetVolume,
            ],
            primaries: set![
                Primaries::Srgb,
                Primaries::Bt2020,
                Primaries::DciP3,
                Primaries::DisplayP3,
            ],
            transfer_functions: set![
                TransferFunction::Srgb,
                TransferFunction::St2084Pq,
                TransferFunction::Hlg,
                TransferFunction::ExtLinear,
                TransferFunction::Bt1886,
                TransferFunction::Gamma22,
            ],
        }
    }
}

/// Builder for the set of capabilities the compositor advertises on `wp_color_manager_v1`
/// bind.
///
/// Clients use this set to decide which descriptions are safe to construct. Use
/// [`Self::conservative`] for a sane HDR-capable default, or [`Self::empty`] and the `with_*`
/// builders for fine-grained control.
#[derive(Debug)]
pub struct ColorManagementCapabilities {
    intents: Advertised<RenderIntent>,
    features: Advertised<Feature>,
    primaries: Advertised<Primaries>,
    transfer_functions: Advertised<TransferFunction>,
}

impl View for ColorManagementCapabilities {
    type V = CapabilitySets;

    closed spec fn view(&self) -> CapabilitySets {
        CapabilitySets {
            intents: self.intents@,
            features: self.features@,
            primaries: self.primaries@,
            transfer_functions: self.transfer_functions@,
        }
    }
}

impl ColorManagementCapabilities {
    /// An empty capability set: advertises nothing.
    pub fn empty() -> (caps: Self)
        ensures
            caps@ == CapabilitySets::none(),
    {
        ColorManagementCapabilities {
            intents: Advertised::empty(),
            features: Advertised::empty(),
            primaries: Advertised::empty(),
            transfer_functions: Advertised::empty(),
        }
    }

    /// A conservative HDR-capable default.
    ///
    /// - Intents: `Perceptual` only
    /// - Features: `Parametric`, `SetPrimaries`, `SetLuminances`,
    ///   `SetMasteringDisplayPrimaries`, `ExtendedTargetVolume`
    /// - Primaries: `Srgb`, `Bt2020`, `DciP3`, `DisplayP3`
    /// - Transfer functions: `Srgb` (deprecated, but clients still use it), `St2084Pq`,
    ///   `Hlg`, `ExtLinear`, `Bt1886`, `Gamma22`
    ///
    /// Leaves out ICC profiles, custom power curves and the other intents, all of which the
    /// renderer would have to plumb explicitly.
    pub fn conservative() -> (caps: Self)
        ensures
            caps@ == CapabilitySets::conservative(),
    {
        Self::empty()
            .with_intent(RenderIntent::Perceptual)
            .with_feature(Feature::Parametric)
            .with_feature(Feature::SetPrimaries)
            .with_feature(Feature::SetLuminances)
            .with_feature(Feature::SetMasteringDisplayPrimaries)
            .with_feature(Feature::ExtendedTargetVolume)
            .with_primaries(Primaries::Srgb)
            .with_primaries(Primaries::Bt2020)
            .with_primaries(Primaries::DciP3)
            .with_primaries(Primaries::DisplayP3)
            .with_transfer_function(TransferFunction::Srgb)
            .with_transfer_function(TransferFunction::St2084Pq)
            .with_transfer_function(TransferFunction::Hlg)
            .with_transfer_function(TransferFunction::ExtLinear)
            .with_transfer_function(TransferFunction::Bt1886)
            .with_transfer_function(TransferFunction::Gamma22)
    }

    /// Adds a render intent to what is advertised.
    pub fn with_intent(self, intent: RenderIntent) -> (caps: Self)
        ensures
            caps@ == (CapabilitySets { intents: self@.intents.insert(intent), ..self@ }),
    {
        ColorManagementCapabilities { intents: self.intents.with(intent), ..self }
    }

    /// Adds a feature to what is advertised.
    pub fn with_feature(self, feature: Feature) -> (caps: Self)
        ensures
            caps@ == (CapabilitySets { features: self@.features.insert(feature), ..self@ }),
    {
        ColorManagementCapabilities { features: self.features.with(feature), ..self }
    }

    /// Adds a named primaries set to what is advertised.
    pub fn with_primaries(self, primaries: Primaries) -> (caps: Self)
        ensures
            caps@ == (CapabilitySets { primaries: self@.primaries.insert(primaries), ..self@ }),
    {
        ColorManagementCapabilities { primaries: self.primaries.with(primaries), ..self }
    }

    /// Adds a named transfer function to what is advertised.
    pub fn with_transfer_function(self, tf: TransferFunction) -> (caps: Self)
        ensures
            caps@ == (CapabilitySets {
                transfer_functions: self@.transfer_functions.insert(tf),
                ..self@
            }),
    {
        ColorManagementCapabilities { transfer_functions: self.transfer_functions.with(tf), ..self }
    }

    /// Returns whether the given render intent is advertised.
    pub fn supports_intent(&self, intent: RenderIntent) -> (supported: bool)
        ensures
            supported == self@.intents.contains(intent),
    {
        self.intents.contains(intent)
    }

    /// Returns whether the given feature is advertised.
    pub fn supports_feature(&self, feature: Feature) -> (supported: bool)
        ensures
            supported == self@.features.contains(feature),
    {
        self.features.contains(feature)
    }

    /// Returns whether the given named primaries set is advertised.
    pub fn supports_primaries(&self, primaries: Primaries) -> (supported: bool)
        ensures
            supported == self@.primaries.contains(primaries),
    {
        self.primaries.contains(primaries)
    }

    /// Returns whether the given named transfer function is advertised.
    pub fn supports_transfer_function(&self, tf: TransferFunction) -> (supported: bool)
        ensures
            supported == self@.transfer_functions.contains(tf),
    {
        self.transfer_functions.contains(tf)
    }

    /// The advertised render intents, each of them once, in no particular order.
    pub fn intents(&self) -> (values: Vec<RenderIntent>)
        ensures
            lists(values@, self@.intents),
    {
        self.intents.to_vec()
    }

    /// The advertised features, each of them once, in no particular order.
    pub fn features(&self) -> (values: Vec<Feature>)
        ensures
            lists(values@, self@.features),
    {
        self.features.to_vec()
    }

    /// The advertised named primaries, each of them once, in no particular order.
    pub fn primaries(&self) -> (values: Vec<Primaries>)
        ensures
            lists(values@, self@.primaries),
    {
        self.primaries.to_vec()
    }

    /// The advertised named transfer functions, each of them once, in no particular order.
    pub fn transfer_functions(&self) -> (values: Vec<TransferFunction>)
        ensures
            lists(values@, self@.transfer_functions),
    {
        self.transfer_functions.to_vec()
    }
}

impl Default for ColorManagementCapabilities {
    fn default() -> (caps: Self)
        ensures
            caps@ == CapabilitySets::conservative(),
    {
        Self::conservative()
    }
}

impl Clone for ColorManagementCapabilities {
    fn clone(&self) -> (copy: Self)
        ensures
            copy@ == self@,
    {
        ColorManagementCapabilities {
            intents: self.intents.clone(),
            features: self.features.clone(),
            primaries: self.primaries.clone(),
            transfer_functions: self.transfer_functions.clone(),
        }
    }
}

/// The empty set advertises no value of any kind.
pub proof fn lemma_nothing_is_advertised_by_none(
    intent: RenderIntent,
    feature: Feature,
    primaries: Primaries,
    tf: TransferFunction,
)
    ensures
        !CapabilitySets::none().intents.contains(intent),
        !CapabilitySets::none().features.contains(feature),
        !CapabilitySets::none().primaries.contains(primaries),
        !CapabilitySets::none().transfer_functions.contains(tf),
{
}

/// What the conservative default advertises, value by value.
pub proof fn lemma_conservative_set(
    intent: RenderIntent,
    feature: Feature,
    primaries: Primaries,
    tf: TransferFunction,
)
    ensures
        CapabilitySets::conservative().intents.contains(intent) <==> intent is Perceptual,
        CapabilitySets::conservative().features.contains(feature) <==> feature is Parametric
            || feature is SetPrimaries || feature is SetLuminances
            || feature is SetMasteringDisplayPrimaries || feature is ExtendedTargetVolume,
        CapabilitySets::conservative().primaries.contains(primaries) <==> primaries is Srgb
            || primaries is Bt2020 || primaries is DciP3 || primaries is DisplayP3,
        CapabilitySets::conservative().transfer_functions.contains(tf) <==> tf is Srgb
            || tf is St2084Pq || tf is Hlg || tf is ExtLinear || tf is Bt1886 || tf is Gamma22,
{
}

} // verus!
