//! The parametric creator: `wp_image_description_creator_params_v1`.
use vstd::prelude::*;

use crate::color_management::capabilities::{CapabilitySets, ColorManagementCapabilities};
use crate::color_management::description::{
    interned, valid_registry, Chromaticities, DescriptionContent, ImageDescription,
    ImageDescriptionInterner, Luminances, MasteringLuminance, PrimariesDef, TransferFunctionDef,
};
use crate::color_management::replies::DescriptionReply;
use crate::protocol::{
    decode_primaries, decode_transfer_function, Feature, Primaries, TransferFunction,
};

verus! {

/// Protocol errors of `wp_image_description_creator_params_v1`.
#[derive(Debug, Clone, Copy, PartialEq, Eq, Structural)]
pub enum ParamsError {
    /// `create` on a builder that was consumed.
    CreateTwice,
    /// `create` without a transfer function or without primaries.
    Incomplete,
    /// A second transfer function.
    TfAlreadySet,
    /// A transfer function the protocol does not know.
    UnknownTf,
    /// A transfer function the compositor does not advertise.
    TfNotAdvertised,
    /// `set_tf_power` where the feature is not advertised.
    TfPowerNotAdvertised,
    /// A second set of primaries.
    PrimariesAlreadySet,
    /// Named primaries the protocol does not know.
    UnknownPrimaries,
    /// Named primaries the compositor does not advertise.
    PrimariesNotAdvertised,
    /// `set_primaries` where the feature is not advertised.
    SetPrimariesNotAdvertised,
    /// `set_luminances` where the feature is not advertised.
    SetLuminancesNotAdvertised,
    /// A second luminance range.
    LuminancesAlreadySet,
    /// A luminance range whose reference is zero or above the maximum.
    InvalidLuminance,
    /// `set_mastering_display_primaries` where the feature is not advertised.
    MasteringPrimariesNotAdvertised,
}

impl ParamsError {
    /// The error code on the wire.
    pub open spec fn spec_code(self) -> u32 {
        match self {
            ParamsError::CreateTwice => 1,
            ParamsError::Incomplete => 0,
            ParamsError::TfAlreadySet => 1,
            ParamsError::UnknownTf => 3,
            ParamsError::TfNotAdvertised => 3,
            ParamsError::TfPowerNotAdvertised => 2,
            ParamsError::PrimariesAlreadySet => 1,
            ParamsError::UnknownPrimaries => 4,
            ParamsError::PrimariesNotAdvertised => 4,
            ParamsError::SetPrimariesNotAdvertised => 2,
            ParamsError::SetLuminancesNotAdvertised => 2,
            ParamsError::LuminancesAlreadySet => 1,
            ParamsError::InvalidLuminance => 5,
            ParamsError::MasteringPrimariesNotAdvertised => 2,
        }
    }

    /// The message posted with the error.
    pub open spec fn spec_message(self) -> Seq<char> {
        match self {
            ParamsError::CreateTwice => "create called twice"@,
            ParamsError::Incomplete => "tf and primaries are required"@,
            ParamsError::TfAlreadySet => "transfer function already set"@,
            ParamsError::UnknownTf => "unknown transfer function"@,
            ParamsError::TfNotAdvertised => "transfer function not advertised"@,
            ParamsError::TfPowerNotAdvertised => "set_tf_power not advertised"@,
            ParamsError::PrimariesAlreadySet => "primaries already set"@,
            ParamsError::UnknownPrimaries => "unknown primaries"@,
            ParamsError::PrimariesNotAdvertised => "primaries not advertised"@,
            ParamsError::SetPrimariesNotAdvertised => "set_primaries not advertised"@,
            ParamsError::SetLuminancesNotAdvertised => "set_luminances not advertised"@,
            ParamsError::LuminancesAlreadySet => "luminances already set"@,
            ParamsError::InvalidLuminance => "invalid luminance range"@,
            ParamsError::MasteringPrimariesNotAdvertised =>
                "set_mastering_display_primaries not advertised"@,
        }
    }

    /// The error code on the wire.
    pub fn code(self) -> (code: u32)
        ensures
            code == self.spec_code(),
    {
        match self {
            ParamsError::CreateTwice => 1,
            ParamsError::Incomplete => 0,
            ParamsError::TfAlreadySet => 1,
            ParamsError::UnknownTf => 3,
            ParamsError::TfNotAdvertised => 3,
            ParamsError::TfPowerNotAdvertised => 2,
            ParamsError::PrimariesAlreadySet => 1,
            ParamsError::UnknownPrimaries => 4,
            ParamsError::PrimariesNotAdvertised => 4,
            ParamsError::SetPrimariesNotAdvertised => 2,
            ParamsError::SetLuminancesNotAdvertised => 2,
            ParamsError::LuminancesAlreadySet => 1,
            ParamsError::InvalidLuminance => 5,
            ParamsError::MasteringPrimariesNotAdvertised => 2,
        }
    }

    /// The message posted with the error.
    pub fn message(self) -> (message: &'static str)
        ensures
            message@ == self.spec_message(),
    {
        match self {
            ParamsError::CreateTwice => "create called twice",
            ParamsError::Incomplete => "tf and primaries are required",
            ParamsError::TfAlreadySet => "transfer function already set",
            ParamsError::UnknownTf => "unknown transfer function",
            ParamsError::TfNotAdvertised => "transfer function not advertised",
            ParamsError::TfPowerNotAdvertised => "set_tf_power not advertised",
            ParamsError::PrimariesAlreadySet => "primaries already set",
            ParamsError::UnknownPrimaries => "unknown primaries",
            ParamsError::PrimariesNotAdvertised => "primaries not advertised",
            ParamsError::SetPrimariesNotAdvertised => "set_primaries not advertised",
            ParamsError::SetLuminancesNotAdvertised => "set_luminances not advertised",
            ParamsError::LuminancesAlreadySet => "luminances already set",
            ParamsError::InvalidLuminance => "invalid luminance range",
            ParamsError::MasteringPrimariesNotAdvertised =>
                "set_mastering_display_primaries not advertised",
        }
    }
}

/// A request that sets a part of the description. Enumerations are as they come off the
/// wire.
#[derive(Debug, Clone, Copy)]
pub enum ParamsRequest {
    /// `set_tf_named`.
    SetTfNamed { tf: u32 },
    /// `set_tf_power`.
    SetTfPower { eexp: u32 },
    /// `set_primaries_named`.
    SetPrimariesNamed { primaries: u32 },
    /// `set_primaries`.
    SetPrimaries { chromaticities: Chromaticities },
    /// `set_luminances`.
    SetLuminances { luminances: Luminances },
    /// `set_mastering_display_primaries`.
    SetMasteringDisplayPrimaries { chromaticities: Chromaticities },
    /// `set_mastering_luminance`.
    SetMasteringLuminance { luminance: MasteringLuminance },
    /// `set_max_cll`.
    SetMaxCll { max_cll: u32 },
    /// `set_max_fall`.
    SetMaxFall { max_fall: u32 },
}

/// What has been set on a parametric creator so far.
#[derive(Debug)]
pub struct ParamsCreatorBuilderInner {
    pub tf: Option<TransferFunctionDef>,
    pub primaries: Option<PrimariesDef>,
    pub luminances: Option<Luminances>,
    pub mastering_primaries: Option<Chromaticities>,
    pub mastering_luminance: Option<MasteringLuminance>,
    pub max_cll: Option<u32>,
    pub max_fall: Option<u32>,
    /// Set once `create` has been called, so that a second `create` is detected.
    pub consumed: bool,
}

impl ParamsCreatorBuilderInner {
    /// A builder on which nothing is set.
    pub open spec fn blank(consumed: bool) -> Self {
        ParamsCreatorBuilderInner {
            tf: None,
            primaries: None,
            luminances: None,
            mastering_primaries: None,
            mastering_luminance: None,
            max_cll: None,
            max_fall: None,
            consumed,
        }
    }

    /// The description that `create` would make of what is set.
    pub open spec fn content(self) -> DescriptionContent {
        DescriptionContent {
            primaries: self.primaries,
            transfer_function: self.tf,
            luminances: self.luminances,
            mastering_primaries: self.mastering_primaries,
            mastering_luminance: self.mastering_luminance,
            max_cll: self.max_cll,
            max_fall: self.max_fall,
            icc: None,
            windows_scrgb: false,
        }
    }

    /// The builder after a request, or the error that the request raises.
    pub open spec fn after(self, caps: CapabilitySets, request: ParamsRequest) -> Result<
        Self,
        ParamsError,
    > {
        match request {
            ParamsRequest::SetTfNamed { tf } => if self.tf is Some {
                Err(ParamsError::TfAlreadySet)
            } else {
                match TransferFunction::from_wire(tf) {
                    None => Err(ParamsError::UnknownTf),
                    Some(tf) => if !caps.transfer_functions.contains(tf) {
                        Err(ParamsError::TfNotAdvertised)
                    } else {
                        Ok(ParamsCreatorBuilderInner {
                            tf: Some(TransferFunctionDef::Named(tf)),
                            ..self
                        })
                    },
                }
            },
            ParamsRequest::SetTfPower { eexp } => if !caps.features.contains(Feature::SetTfPower) {
                Err(ParamsError::TfPowerNotAdvertised)
            } else if self.tf is Some {
                Err(ParamsError::TfAlreadySet)
            } else {
                Ok(ParamsCreatorBuilderInner {
                    tf: Some(TransferFunctionDef::Power(eexp)),
                    ..self
                })
            },
            ParamsRequest::SetPrimariesNamed { primaries } => if self.primaries is Some {
                Err(ParamsError::PrimariesAlreadySet)
            } else {
                match Primaries::from_wire(primaries) {
                    None => Err(ParamsError::UnknownPrimaries),
                    Some(primaries) => if !caps.primaries.contains(primaries) {
                        Err(ParamsError::PrimariesNotAdvertised)
                    } else {
                        Ok(ParamsCreatorBuilderInner {
                            primaries: Some(PrimariesDef::Named(primaries)),
                            ..self
                        })
                    },
                }
            },
            ParamsRequest::SetPrimaries { chromaticities } => if !caps.features.contains(
                Feature::SetPrimaries,
            ) {
                Err(ParamsError::SetPrimariesNotAdvertised)
            } else if self.primaries is Some {
                Err(ParamsError::PrimariesAlreadySet)
            } else {
                Ok(ParamsCreatorBuilderInner {
                    primaries: Some(PrimariesDef::Custom(chromaticities)),
                    ..self
                })
            },
            ParamsRequest::SetLuminances { luminances } => if !caps.features.contains(
                Feature::SetLuminances,
            ) {
                Err(ParamsError::SetLuminancesNotAdvertised)
            } else if self.luminances is Some {
                Err(ParamsError::LuminancesAlreadySet)
            } else if !valid_luminances(luminances) {
                Err(ParamsError::InvalidLuminance)
            } else {
                Ok(ParamsCreatorBuilderInner { luminances: Some(luminances), ..self })
            },
            ParamsRequest::SetMasteringDisplayPrimaries { chromaticities } =>
                if !caps.features.contains(Feature::SetMasteringDisplayPrimaries) {
                    Err(ParamsError::MasteringPrimariesNotAdvertised)
                } else {
                    Ok(ParamsCreatorBuilderInner {
                        mastering_primaries: Some(chromaticities),
                        ..self
                    })
                },
            ParamsRequest::SetMasteringLuminance { luminance } => Ok(
                ParamsCreatorBuilderInner { mastering_luminance: Some(luminance), ..self },
            ),
            ParamsRequest::SetMaxCll { max_cll } => Ok(
                ParamsCreatorBuilderInner { max_cll: Some(max_cll), ..self },
            ),
            ParamsRequest::SetMaxFall { max_fall } => Ok(
                ParamsCreatorBuilderInner { max_fall: Some(max_fall), ..self },
            ),
        }
    }

    /// The description that `create` makes, or the error that it raises.
    pub open spec fn created(self) -> Result<DescriptionContent, ParamsError> {
        if self.consumed {
            Err(ParamsError::CreateTwice)
        } else if self.tf is None || self.primaries is None {
            Err(ParamsError::Incomplete)
        } else {
            Ok(self.content())
        }
    }
}

/// Whether a luminance range is acceptable: the reference is positive and at most the
/// maximum.
pub open spec fn valid_luminances(luminances: Luminances) -> bool {
    0 < luminances.reference_lum <= luminances.max_lum
}

impl Default for ParamsCreatorBuilderInner {
    fn default() -> (inner: Self)
        ensures
            inner == Self::blank(false),
    {
        ParamsCreatorBuilderInner {
            tf: None,
            primaries: None,
            luminances: None,
            mastering_primaries: None,
            mastering_luminance: None,
            max_cll: None,
            max_fall: None,
            consumed: false,
        }
    }
}

/// State of a `wp_image_description_creator_params_v1`.
#[derive(Debug)]
pub struct ParamsCreatorBuilder(pub ParamsCreatorBuilderInner);

impl Default for ParamsCreatorBuilder {
    fn default() -> (builder: Self)
        ensures
            builder.0 == ParamsCreatorBuilderInner::blank(false),
    {
        ParamsCreatorBuilder(ParamsCreatorBuilderInner::default())
    }
}

impl ParamsCreatorBuilder {
    /// Handles a request that sets a part of the description. A request that raises an error
    /// changes nothing.
    pub fn set_parameter(
        &mut self,
        caps: &ColorManagementCapabilities,
        request: ParamsRequest,
    ) -> (result: Result<(), ParamsError>)
        ensures
            match old(self).0.after(caps@, request) {
                Ok(next) => result == Ok::<(), ParamsError>(()) && final(self).0 == next,
                Err(error) => result == Err::<(), ParamsError>(error) && *final(self) == *old(self),
            },
    {
        match request {
            ParamsRequest::SetTfNamed { tf } => self.set_tf_named(caps, tf),
            ParamsRequest::SetTfPower { eexp } => self.set_tf_power(caps, eexp),
            ParamsRequest::SetPrimariesNamed { primaries } => {
                self.set_primaries_named(caps, primaries)
            },
            ParamsRequest::SetPrimaries { chromaticities } => {
                self.set_primaries(caps, chromaticities)
            },
            ParamsRequest::SetLuminances { luminances } => self.set_luminances(caps, luminances),
            ParamsRequest::SetMasteringDisplayPrimaries { chromaticities } => {
                self.set_mastering_display_primaries(caps, chromaticities)
            },
            ParamsRequest::SetMasteringLuminance { luminance } => {
                self.0.mastering_luminance = Some(luminance);
                Ok(())
            },
            ParamsRequest::SetMaxCll { max_cll } => {
                self.0.max_cll = Some(max_cll);
                Ok(())
            },
            ParamsRequest::SetMaxFall { max_fall } => {
                self.0.max_fall = Some(max_fall);
                Ok(())
            },
        }
    }

    /// `set_tf_named`.
    fn set_tf_named(
        &mut self,
        caps: &ColorManagementCapabilities,
        tf: u32,
    ) -> (result: Result<(), ParamsError>)
        ensures
            match old(self).0.after(caps@, ParamsRequest::SetTfNamed { tf }) {
                Ok(next) => result == Ok::<(), ParamsError>(()) && final(self).0 == next,
                Err(error) => result == Err::<(), ParamsError>(error) && *final(self) == *old(self),
            },
    {
        if self.0.tf.is_some() {
            return Err(ParamsError::TfAlreadySet);
        }
        let tf = match decode_transfer_function(tf) {
            Some(tf) => tf,
            None => return Err(ParamsError::UnknownTf),
        };
        if !caps.supports_transfer_function(tf) {
            return Err(ParamsError::TfNotAdvertised);
        }
        self.0.tf = Some(TransferFunctionDef::Named(tf));
        Ok(())
    }

    /// `set_tf_power`.
    fn set_tf_power(
        &mut self,
        caps: &ColorManagementCapabilities,
        eexp: u32,
    ) -> (result: Result<(), ParamsError>)
        ensures
            match old(self).0.after(caps@, ParamsRequest::SetTfPower { eexp }) {
                Ok(next) => result == Ok::<(), ParamsError>(()) && final(self).0 == next,
                Err(error) => result == Err::<(), ParamsError>(error) && *final(self) == *old(self),
            },
    {
        if !caps.supports_feature(Feature::SetTfPower) {
            return Err(ParamsError::TfPowerNotAdvertised);
        }
        if self.0.tf.is_some() {
            return Err(ParamsError::TfAlreadySet);
        }
        self.0.tf = Some(TransferFunctionDef::Power(eexp));
        Ok(())
    }

    /// `set_primaries_named`.
    fn set_primaries_named(
        &mut self,
        caps: &ColorManagementCapabilities,
        primaries: u32,
    ) -> (result: Result<(), ParamsError>)
        ensures
            match old(self).0.after(caps@, ParamsRequest::SetPrimariesNamed { primaries }) {
                Ok(next) => result == Ok::<(), ParamsError>(()) && final(self).0 == next,
                Err(error) => result == Err::<(), ParamsError>(error) && *final(self) == *old(self),
            },
    {
        if self.0.primaries.is_some() {
            return Err(ParamsError::PrimariesAlreadySet);
        }
        let primaries = match decode_primaries(primaries) {
            Some(primaries) => primaries,
            None => return Err(ParamsError::UnknownPrimaries),
        };
        if !caps.supports_primaries(primaries) {
            return Err(ParamsError::PrimariesNotAdvertised);
        }
        self.0.primaries = Some(PrimariesDef::Named(primaries));
        Ok(())
    }

    /// `set_primaries`.
    fn set_primaries(
        &mut self,
        caps: &ColorManagementCapabilities,
        chromaticities: Chromaticities,
    ) -> (result: Result<(), ParamsError>)
        ensures
            match old(self).0.after(caps@, ParamsRequest::SetPrimaries { chromaticities }) {
                Ok(next) => result == Ok::<(), ParamsError>(()) && final(self).0 == next,
                Err(error) => result == Err::<(), ParamsError>(error) && *final(self) == *old(self),
            },
    {
        if !caps.supports_feature(Feature::SetPrimaries) {
            return Err(ParamsError::SetPrimariesNotAdvertised);
        }
        if self.0.primaries.is_some() {
            return Err(ParamsError::PrimariesAlreadySet);
        }
        self.0.primaries = Some(PrimariesDef::Custom(chromaticities));
        Ok(())
    }

    /// `set_luminances`.
    fn set_luminances(
        &mut self,
        caps: &ColorManagementCapabilities,
        luminances: Luminances,
    ) -> (result: Result<(), ParamsError>)
        ensures
            match old(self).0.after(caps@, ParamsRequest::SetLuminances { luminances }) {
                Ok(next) => result == Ok::<(), ParamsError>(()) && final(self).0 == next,
                Err(error) => result == Err::<(), ParamsError>(error) && *final(self) == *old(self),
            },
    {
        if !caps.supports_feature(Feature::SetLuminances) {
            return Err(ParamsError::SetLuminancesNotAdvertised);
        }
        if self.0.luminances.is_some() {
            return Err(ParamsError::LuminancesAlreadySet);
        }
        if luminances.max_lum < luminances.reference_lum || luminances.reference_lum == 0 {
            return Err(ParamsError::InvalidLuminance);
        }
        self.0.luminances = Some(luminances);
        Ok(())
    }

    /// `set_mastering_display_primaries`.
    fn set_mastering_display_primaries(
        &mut self,
        caps: &ColorManagementCapabilities,
        chromaticities: Chromaticities,
    ) -> (result: Result<(), ParamsError>)
        ensures
            match old(self).0.after(
                caps@,
                ParamsRequest::SetMasteringDisplayPrimaries { chromaticities },
            ) {
                Ok(next) => result == Ok::<(), ParamsError>(()) && final(self).0 == next,
                Err(error) => result == Err::<(), ParamsError>(error) && *final(self) == *old(self),
            },
    {
        if !caps.supports_feature(Feature::SetMasteringDisplayPrimaries) {
            return Err(ParamsError::MasteringPrimariesNotAdvertised);
        }
        self.0.mastering_primaries = Some(chromaticities);
        Ok(())
    }

    /// Handles `create`: interns the description that was set.
    ///
    /// The builder is drained and consumed, also when the set is incomplete. The client built
    /// the description itself, so it may not ask for information about it.
    pub fn create(&mut self, interner: &mut ImageDescriptionInterner) -> (result: Result<
        DescriptionReply,
        ParamsError,
    >)
        ensures
            final(self).0 == (if old(self).0.consumed {
                old(self).0
            } else {
                ParamsCreatorBuilderInner::blank(true)
            }),
            match old(self).0.created() {
                Ok(content) => {
                    &&& valid_registry(final(interner)@)
                    &&& final(interner)@ == interned(old(interner)@, content)
                    &&& result matches Ok(reply)
                    &&& reply.is_interned(old(interner)@, content, false)
                },
                Err(error) => {
                    &&& final(interner)@ == old(interner)@
                    &&& result matches Err(e)
                    &&& e == error
                },
            },
    {
        if self.0.consumed {
            return Err(ParamsError::CreateTwice);
        }
        let mut inner = ParamsCreatorBuilderInner::default();
        core::mem::swap(&mut self.0, &mut inner);
        self.0.consumed = true;
        if inner.tf.is_none() || inner.primaries.is_none() {
            return Err(ParamsError::Incomplete);
        }
        let description = ImageDescription {
            primaries: inner.primaries,
            transfer_function: inner.tf,
            luminances: inner.luminances,
            mastering_primaries: inner.mastering_primaries,
            mastering_luminance: inner.mastering_luminance,
            max_cll: inner.max_cll,
            max_fall: inner.max_fall,
            icc: None,
            windows_scrgb: false,
            identity: 0,
        };
        Ok(DescriptionReply::intern(interner, description))
    }
}

/// Whether a description uses only what is advertised, with valid luminances.
pub open spec fn respects(content: DescriptionContent, caps: CapabilitySets) -> bool {
    &&& match content.transfer_function {
        Some(TransferFunctionDef::Named(tf)) => caps.transfer_functions.contains(tf),
        Some(TransferFunctionDef::Power(_)) => caps.features.contains(Feature::SetTfPower),
        None => true,
    }
    &&& match content.primaries {
        Some(PrimariesDef::Named(primaries)) => caps.primaries.contains(primaries),
        Some(PrimariesDef::Custom(_)) => caps.features.contains(Feature::SetPrimaries),
        None => true,
    }
    &&& content.luminances matches Some(luminances) ==> caps.features.contains(
        Feature::SetLuminances,
    ) && valid_luminances(luminances)
    &&& content.mastering_primaries is Some ==> caps.features.contains(
        Feature::SetMasteringDisplayPrimaries,
    )
}

/// The builder after a series of requests, those that raise an error leaving it as it is.
pub open spec fn after_all(
    inner: ParamsCreatorBuilderInner,
    caps: CapabilitySets,
    requests: Seq<ParamsRequest>,
) -> ParamsCreatorBuilderInner
    decreases requests.len(),
{
    if requests.len() == 0 {
        inner
    } else {
        let before = after_all(inner, caps, requests.drop_last());
        match before.after(caps, requests.last()) {
            Ok(next) => next,
            Err(_) => before,
        }
    }
}

/// Whatever a client asks of a fresh parametric creator, the description that it makes is
/// parametric, carries no ICC profile and uses only what the compositor advertises.
pub proof fn lemma_created_respects_capabilities(
    caps: CapabilitySets,
    requests: Seq<ParamsRequest>,
    content: DescriptionContent,
)
    requires
        after_all(ParamsCreatorBuilderInner::blank(false), caps, requests).created() == Ok::<
            DescriptionContent,
            ParamsError,
        >(content),
    ensures
        content.is_parametric(),
        !content.is_icc(),
        respects(content, caps),
{
    lemma_builder_respects_capabilities(caps, requests);
}

proof fn lemma_builder_respects_capabilities(caps: CapabilitySets, requests: Seq<ParamsRequest>)
    ensures
        respects(
            after_all(ParamsCreatorBuilderInner::blank(false), caps, requests).content(),
            caps,
        ),
    decreases requests.len(),
{
    if requests.len() > 0 {
        lemma_builder_respects_capabilities(caps, requests.drop_last());
    }
}

/// The transfer function, the primaries and the luminances are set at most once: no later
/// request changes them, and one that tries is refused.
pub proof fn lemma_parameters_are_set_once(
    inner: ParamsCreatorBuilderInner,
    caps: CapabilitySets,
    requests: Seq<ParamsRequest>,
)
    ensures
        inner.tf is Some ==> after_all(inner, caps, requests).tf == inner.tf,
        inner.primaries is Some ==> after_all(inner, caps, requests).primaries == inner.primaries,
        inner.luminances is Some ==> after_all(inner, caps, requests).luminances
            == inner.luminances,
    decreases requests.len(),
{
    if requests.len() > 0 {
        lemma_parameters_are_set_once(inner, caps, requests.drop_last());
    }
}

/// A consumed builder stays consumed, so `create` succeeds at most once.
pub proof fn lemma_create_is_one_shot(
    inner: ParamsCreatorBuilderInner,
    caps: CapabilitySets,
    requests: Seq<ParamsRequest>,
)
    requires
        inner.consumed,
    ensures
        after_all(inner, caps, requests).created() == Err::<DescriptionContent, ParamsError>(
            ParamsError::CreateTwice,
        ),
    decreases requests.len(),
{
    if requests.len() > 0 {
        lemma_create_is_one_shot(inner, caps, requests.drop_last());
    }
}

/// What is advertised is accepted: on a builder on which they are not set yet, every
/// advertised transfer function and every advertised primaries can be set, and are then what
/// the description says.
pub proof fn lemma_advertised_values_are_accepted(
    inner: ParamsCreatorBuilderInner,
    caps: CapabilitySets,
    tf: TransferFunction,
    primaries: Primaries,
)
    requires
        inner.tf is None,
        inner.primaries is None,
        caps.transfer_functions.contains(tf),
        caps.primaries.contains(primaries),
    ensures
        inner.after(caps, ParamsRequest::SetTfNamed { tf: tf.wire() }) matches Ok(next)
            && next.content() == (DescriptionContent {
            transfer_function: Some(TransferFunctionDef::Named(tf)),
            ..inner.content()
        }),
        inner.after(caps, ParamsRequest::SetPrimariesNamed { primaries: primaries.wire() })
            matches Ok(next) && next.content() == (DescriptionContent {
            primaries: Some(PrimariesDef::Named(primaries)),
            ..inner.content()
        }),
{
}

/// Success of `create` is owed: a builder that is not consumed and has a transfer function
/// and primaries makes a description, whatever else is set or not, and each part of the
/// description is what was set.
pub proof fn lemma_create_owes_success(inner: ParamsCreatorBuilderInner)
    requires
        !inner.consumed,
        inner.tf is Some,
        inner.primaries is Some,
    ensures
        inner.created() matches Ok(content) && {
            &&& content.transfer_function == inner.tf
            &&& content.primaries == inner.primaries
            &&& content.luminances == inner.luminances
            &&& content.mastering_primaries == inner.mastering_primaries
            &&& content.mastering_luminance == inner.mastering_luminance
            &&& content.max_cll == inner.max_cll
            &&& content.max_fall == inner.max_fall
            &&& content.icc is None
            &&& !content.windows_scrgb
        },
{
}

/// `create` fails in two ways only: as called twice exactly if the builder is consumed, and
/// as incomplete exactly if it is not and the transfer function or the primaries are missing.
pub proof fn lemma_create_errors(inner: ParamsCreatorBuilderInner)
    ensures
        inner.created() == Err::<DescriptionContent, _>(ParamsError::CreateTwice)
            <==> inner.consumed,
        inner.created() == Err::<DescriptionContent, _>(ParamsError::Incomplete)
            <==> !inner.consumed && (inner.tf is None || inner.primaries is None),
        inner.created() is Ok <==> !inner.consumed && inner.tf is Some && inner.primaries is Some,
{
}

/// On a blank builder nothing is set.
pub proof fn lemma_blank_builder(consumed: bool)
    ensures
        ({
            let blank = ParamsCreatorBuilderInner::blank(consumed);
            &&& blank.tf is None
            &&& blank.primaries is None
            &&& blank.luminances is None
            &&& blank.mastering_primaries is None
            &&& blank.mastering_luminance is None
            &&& blank.max_cll is None
            &&& blank.max_fall is None
            &&& blank.consumed == consumed
        }),
{
}

/// `set_tf_named` sets an advertised transfer function on a builder that has none, and
/// nothing else; it fails as already set, else as unknown, else as not advertised.
pub proof fn lemma_set_tf_named(
    inner: ParamsCreatorBuilderInner,
    caps: CapabilitySets,
    tf: TransferFunction,
    raw: u32,
)
    ensures
        inner.tf is None && caps.transfer_functions.contains(tf) ==> inner.after(
            caps,
            ParamsRequest::SetTfNamed { tf: tf.wire() },
        ) == Ok::<_, ParamsError>(
            ParamsCreatorBuilderInner { tf: Some(TransferFunctionDef::Named(tf)), ..inner },
        ),
        inner.tf is None && !caps.transfer_functions.contains(tf) ==> inner.after(
            caps,
            ParamsRequest::SetTfNamed { tf: tf.wire() },
        ) == Err::<ParamsCreatorBuilderInner, _>(ParamsError::TfNotAdvertised),
        inner.tf is None && (forall|known: TransferFunction| #[trigger] known.wire() != raw)
            ==> inner.after(caps, ParamsRequest::SetTfNamed { tf: raw }) == Err::<
            ParamsCreatorBuilderInner,
            _,
        >(ParamsError::UnknownTf),
        inner.tf is Some ==> inner.after(caps, ParamsRequest::SetTfNamed { tf: raw }) == Err::<
            ParamsCreatorBuilderInner,
            _,
        >(ParamsError::TfAlreadySet),
{
    if let Some(known) = TransferFunction::from_wire(raw) {
        assert(known.wire() == raw);
    }
}

/// `set_tf_power` sets any exponent on a builder that has no transfer function, and nothing
/// else; it fails as not advertised, else as already set.
pub proof fn lemma_set_tf_power(inner: ParamsCreatorBuilderInner, caps: CapabilitySets, eexp: u32)
    ensures
        ({
            let next = inner.after(caps, ParamsRequest::SetTfPower { eexp });
            &&& !caps.features.contains(Feature::SetTfPower) ==> next == Err::<
                ParamsCreatorBuilderInner,
                _,
            >(ParamsError::TfPowerNotAdvertised)
            &&& caps.features.contains(Feature::SetTfPower) && inner.tf is Some ==> next == Err::<
                ParamsCreatorBuilderInner,
                _,
            >(ParamsError::TfAlreadySet)
            &&& caps.features.contains(Feature::SetTfPower) && inner.tf is None ==> next == Ok::<
                _,
                ParamsError,
            >(ParamsCreatorBuilderInner { tf: Some(TransferFunctionDef::Power(eexp)), ..inner })
        }),
{
}

/// `set_primaries_named` sets advertised primaries on a builder that has none, and nothing
/// else; it fails as already set, else as unknown, else as not advertised.
pub proof fn lemma_set_primaries_named(
    inner: ParamsCreatorBuilderInner,
    caps: CapabilitySets,
    primaries: Primaries,
    raw: u32,
)
    ensures
        inner.primaries is None && caps.primaries.contains(primaries) ==> inner.after(
            caps,
            ParamsRequest::SetPrimariesNamed { primaries: primaries.wire() },
        ) == Ok::<_, ParamsError>(
            ParamsCreatorBuilderInner {
                primaries: Some(PrimariesDef::Named(primaries)),
                ..inner
            },
        ),
        inner.primaries is None && !caps.primaries.contains(primaries) ==> inner.after(
            caps,
            ParamsRequest::SetPrimariesNamed { primaries: primaries.wire() },
        ) == Err::<ParamsCreatorBuilderInner, _>(ParamsError::PrimariesNotAdvertised),
        inner.primaries is None && (forall|known: Primaries| #[trigger] known.wire() != raw)
            ==> inner.after(caps, ParamsRequest::SetPrimariesNamed { primaries: raw }) == Err::<
            ParamsCreatorBuilderInner,
            _,
        >(ParamsError::UnknownPrimaries),
        inner.primaries is Some ==> inner.after(
            caps,
            ParamsRequest::SetPrimariesNamed { primaries: raw },
        ) == Err::<ParamsCreatorBuilderInner, _>(ParamsError::PrimariesAlreadySet),
{
    if let Some(known) = Primaries::from_wire(raw) {
        assert(known.wire() == raw);
    }
}

/// `set_primaries` sets any chromaticities on a builder that has no primaries, and nothing
/// else; it fails as not advertised, else as already set.
pub proof fn lemma_set_primaries(
    inner: ParamsCreatorBuilderInner,
    caps: CapabilitySets,
    chromaticities: Chromaticities,
)
    ensures
        ({
            let next = inner.after(caps, ParamsRequest::SetPrimaries { chromaticities });
            let advertised = caps.features.contains(Feature::SetPrimaries);
            &&& !advertised ==> next == Err::<ParamsCreatorBuilderInner, _>(
                ParamsError::SetPrimariesNotAdvertised,
            )
            &&& advertised && inner.primaries is Some ==> next == Err::<
                ParamsCreatorBuilderInner,
                _,
            >(ParamsError::PrimariesAlreadySet)
            &&& advertised && inner.primaries is None ==> next == Ok::<_, ParamsError>(
                ParamsCreatorBuilderInner {
                    primaries: Some(PrimariesDef::Custom(chromaticities)),
                    ..inner
                },
            )
        }),
{
}

/// `set_luminances` sets every range with a positive reference of at most the maximum, on a
/// builder that has none, and nothing else; it fails as not advertised, else as already set,
/// else as invalid.
pub proof fn lemma_set_luminances(
    inner: ParamsCreatorBuilderInner,
    caps: CapabilitySets,
    luminances: Luminances,
)
    ensures
        ({
            let next = inner.after(caps, ParamsRequest::SetLuminances { luminances });
            let advertised = caps.features.contains(Feature::SetLuminances);
            let valid = luminances.reference_lum > 0 && luminances.max_lum
                >= luminances.reference_lum;
            &&& !advertised ==> next == Err::<ParamsCreatorBuilderInner, _>(
                ParamsError::SetLuminancesNotAdvertised,
            )
            &&& advertised && inner.luminances is Some ==> next == Err::<
                ParamsCreatorBuilderInner,
                _,
            >(ParamsError::LuminancesAlreadySet)
            &&& advertised && inner.luminances is None && !valid ==> next == Err::<
                ParamsCreatorBuilderInner,
                _,
            >(ParamsError::InvalidLuminance)
            &&& advertised && inner.luminances is None && valid ==> next == Ok::<_, ParamsError>(
                ParamsCreatorBuilderInner { luminances: Some(luminances), ..inner },
            )
        }),
{
}

/// The mastering primaries are set where the feature is advertised, and the other metadata in
/// any case, each on its own and also where it is set already.
pub proof fn lemma_set_metadata(
    inner: ParamsCreatorBuilderInner,
    caps: CapabilitySets,
    chromaticities: Chromaticities,
    luminance: MasteringLuminance,
    level: u32,
)
    ensures
        caps.features.contains(Feature::SetMasteringDisplayPrimaries) ==> inner.after(
            caps,
            ParamsRequest::SetMasteringDisplayPrimaries { chromaticities },
        ) == Ok::<_, ParamsError>(
            ParamsCreatorBuilderInner { mastering_primaries: Some(chromaticities), ..inner },
        ),
        !caps.features.contains(Feature::SetMasteringDisplayPrimaries) ==> inner.after(
            caps,
            ParamsRequest::SetMasteringDisplayPrimaries { chromaticities },
        ) == Err::<ParamsCreatorBuilderInner, _>(ParamsError::MasteringPrimariesNotAdvertised),
        inner.after(caps, ParamsRequest::SetMasteringLuminance { luminance }) == Ok::<
            _,
            ParamsError,
        >(ParamsCreatorBuilderInner { mastering_luminance: Some(luminance), ..inner }),
        inner.after(caps, ParamsRequest::SetMaxCll { max_cll: level }) == Ok::<_, ParamsError>(
            ParamsCreatorBuilderInner { max_cll: Some(level), ..inner },
        ),
        inner.after(caps, ParamsRequest::SetMaxFall { max_fall: level }) == Ok::<_, ParamsError>(
            ParamsCreatorBuilderInner { max_fall: Some(level), ..inner },
        ),
{
}

} // verus!
