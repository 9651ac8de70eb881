//! The set of capabilities that a compositor advertises on
//! `wp_color_representation_manager_v1`.
use vstd::prelude::*;

use crate::advertised::{lists, Advertised};
use crate::protocol::{AlphaMode, Coefficients, Range};

verus! {

/// What is advertised: the view of [`ColorRepresentationCapabilities`].
#[verifier::ext_equal]
pub struct RepresentationSets {
    /// The alpha modes.
    pub alpha_modes: Set<AlphaMode>,
    /// The pairs of coefficients and range.
    pub coefficient_range_pairs: Set<(Coefficients, Range)>,
}

impl RepresentationSets {
    /// Nothing at all.
    pub open spec fn none() -> Self {
        RepresentationSets { alpha_modes: Set::empty(), coefficient_range_pairs: Set::empty() }
    }

    /// The conservative default.
    pub open spec fn conservative() -> Self {
        RepresentationSets {
            alpha_modes: set![AlphaMode::PremultipliedElectrical, AlphaMode::Straight],
            coefficient_range_pairs: set![
                (Coefficients::Bt709, Range::Full),
                (Coefficients::Bt709, Range::Limited),
                (Coefficients::Bt2020, Range::Full),
                (Coefficients::Bt2020, Range::Limited),
            ],
        }
    }
}

/// Builder for the set of capabilities the compositor advertises on
/// `wp_color_representation_manager_v1` bind.
///
/// Coefficients are advertised together with a range, so a compositor that supports BT.709
/// in full and in limited range advertises two pairs.
#[derive(Debug)]
pub struct ColorRepresentationCapabilities {
    alpha_modes: Advertised<AlphaMode>,
    coefficient_range_pairs: Advertised<(Coefficients, Range)>,
}

impl View for ColorRepresentationCapabilities {
    type V = RepresentationSets;

    closed spec fn view(&self) -> RepresentationSets {
        RepresentationSets {
            alpha_modes: self.alpha_modes@,
            coefficient_range_pairs: self.coefficient_range_pairs@,
        }
    }
}

impl ColorRepresentationCapabilities {
    /// An empty capability set: advertises nothing.
    pub fn empty() -> (caps: Self)
        ensures
            caps@ == RepresentationSets::none(),
    {
        ColorRepresentationCapabilities {
            alpha_modes: Advertised::empty(),
            coefficient_range_pairs: Advertised::empty(),
        }
    }

    /// Conservative defaults.
    ///
    /// - Alpha modes: `PremultipliedElectrical`, which existing clients produce, and
    ///   `Straight`, so that clients can opt out of premultiplication
    /// - Coefficients and ranges: `Bt709` and `Bt2020`, each with `Full` and `Limited`
    pub fn conservative() -> (caps: Self)
        ensures
            caps@ == RepresentationSets::conservative(),
    {
        Self::empty()
            .with_alpha_mode(AlphaMode::PremultipliedElectrical)
            .with_alpha_mode(AlphaMode::Straight)
            .with_coefficients_and_range(Coefficients::Bt709, Range::Full)
            .with_coefficients_and_range(Coefficients::Bt709, Range::Limited)
            .with_coefficients_and_range(Coefficients::Bt2020, Range::Full)
            .with_coefficients_and_range(Coefficients::Bt2020, Range::Limited)
    }

    /// Adds an alpha mode to what is advertised.
    pub fn with_alpha_mode(self, mode: AlphaMode) -> (caps: Self)
        ensures
            caps@ == (RepresentationSets { alpha_modes: self@.alpha_modes.insert(mode), ..self@ }),
    {
        ColorRepresentationCapabilities { alpha_modes: self.alpha_modes.with(mode), ..self }
    }

    /// Adds a pair of coefficients and range to what is advertised.
    pub fn with_coefficients_and_range(self, coefficients: Coefficients, range: Range) -> (caps:
        Self)
        ensures
            caps@ == (RepresentationSets {
                coefficient_range_pairs: self@.coefficient_range_pairs.insert(
                    (coefficients, range),
                ),
                ..self@
            }),
    {
        ColorRepresentationCapabilities {
            coefficient_range_pairs: self.coefficient_range_pairs.with((coefficients, range)),
            ..self
        }
    }

    /// Returns whether the given alpha mode is advertised.
    pub fn supports_alpha_mode(&self, mode: AlphaMode) -> (supported: bool)
        ensures
            supported == self@.alpha_modes.contains(mode),
    {
        self.alpha_modes.contains(mode)
    }

    /// Returns whether the given pair of coefficients and range is advertised.
    pub fn supports_coefficients_and_range(
        &self,
        coefficients: Coefficients,
        range: Range,
    ) -> (supported: bool)
        ensures
            supported == self@.coefficient_range_pairs.contains((coefficients, range)),
    {
        self.coefficient_range_pairs.contains((coefficients, range))
    }

    /// The advertised alpha modes, each of them once, in no particular order.
    pub fn alpha_modes(&self) -> (values: Vec<AlphaMode>)
        ensures
            lists(values@, self@.alpha_modes),
    {
        self.alpha_modes.to_vec()
    }

    /// The advertised pairs of coefficients and range, each of them once, in no particular
    /// order.
    pub fn coefficient_range_pairs(&self) -> (values: Vec<(Coefficients, Range)>)
        ensures
            lists(values@, self@.coefficient_range_pairs),
    {
        self.coefficient_range_pairs.to_vec()
    }
}

impl Default for ColorRepresentationCapabilities {
    fn default() -> (caps: Self)
        ensures
            caps@ == RepresentationSets::conservative(),
    {
        Self::conservative()
    }
}

impl Clone for ColorRepresentationCapabilities {
    fn clone(&self) -> (copy: Self)
        ensures
            copy@ == self@,
    {
        ColorRepresentationCapabilities {
            alpha_modes: self.alpha_modes.clone(),
            coefficient_range_pairs: self.coefficient_range_pairs.clone(),
        }
    }
}

/// The empty set advertises no value of any kind.
pub proof fn lemma_nothing_is_advertised_by_none(
    mode: AlphaMode,
    coefficients: Coefficients,
    range: Range,
)
    ensures
        !RepresentationSets::none().alpha_modes.contains(mode),
        !RepresentationSets::none().coefficient_range_pairs.contains((coefficients, range)),
{
}

/// What the conservative default advertises, value by value.
pub proof fn lemma_conservative_set(mode: AlphaMode, coefficients: Coefficients, range: Range)
    ensures
        RepresentationSets::conservative().alpha_modes.contains(mode)
            <==> mode is PremultipliedElectrical || mode is Straight,
        RepresentationSets::conservative().coefficient_range_pairs.contains((coefficients, range))
            <==> (coefficients is Bt709 || coefficients is Bt2020) && (range is Full
            || range is Limited),
{
}

} // verus!
