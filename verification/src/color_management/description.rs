//! Image description data types and dedup interner for `wp_color_management_v1`.
//!
//! An [`ImageDescription`] is a finished, immutable color-encoding contract that a client
//! can attach to a surface (or that the compositor advertises on an output). Descriptions
//! are parametric (primaries, transfer function and optional luminance, mastering, CLL and
//! FALL metadata) or based on an ICC profile.
//!
//! Clients compare descriptions by a 64-bit identity. It is assigned by interning: a new
//! description is compared with those already held, an equal one is handed out again, and
//! otherwise the description is stored with the next identity. Identities therefore start
//! at 1 and grow by one with every distinct description.
//!
//! All quantities keep the integer encoding of the protocol: chromaticities are scaled by
//! 1,000,000, power exponents and minimum luminances by 10,000, and the other luminances
//! are in cd/m². Equality is exact.
use std::sync::Arc;

use vstd::prelude::*;
use vstd::std_specs::cmp::PartialEqSpec;

use crate::protocol::{Primaries, TransferFunction};

verus! {

/// Chromaticity coordinates of a color volume's three primaries and of its white point.
///
/// Each coordinate is a CIE 1931 xy chromaticity × 1,000,000.
#[derive(Debug, Clone, Copy, Eq, Hash)]
pub struct Chromaticities {
    /// Red primary `(x, y)` × 1,000,000.
    pub r: (i32, i32),
    /// Green primary `(x, y)` × 1,000,000.
    pub g: (i32, i32),
    /// Blue primary `(x, y)` × 1,000,000.
    pub b: (i32, i32),
    /// White point `(x, y)` × 1,000,000.
    pub w: (i32, i32),
}

impl PartialEq for Chromaticities {
    fn eq(&self, other: &Self) -> (equal: bool) {
        self.r.0 == other.r.0 && self.r.1 == other.r.1 && self.g.0 == other.g.0 && self.g.1
            == other.g.1 && self.b.0 == other.b.0 && self.b.1 == other.b.1 && self.w.0 == other.w.0
            && self.w.1 == other.w.1
    }
}

impl vstd::std_specs::cmp::PartialEqSpecImpl for Chromaticities {
    open spec fn obeys_eq_spec() -> bool {
        true
    }

    open spec fn eq_spec(&self, other: &Self) -> bool {
        *self == *other
    }
}

/// How a description's primary color volume is specified.
#[derive(Debug, Clone, Copy, Eq, Hash)]
pub enum PrimariesDef {
    /// One of the protocol's named primary sets.
    Named(Primaries),
    /// Explicit chromaticities.
    Custom(Chromaticities),
}

impl PartialEq for PrimariesDef {
    fn eq(&self, other: &Self) -> (equal: bool) {
        match (self, other) {
            (PrimariesDef::Named(a), PrimariesDef::Named(b)) => *a == *b,
            (PrimariesDef::Custom(a), PrimariesDef::Custom(b)) => *a == *b,
            _ => false,
        }
    }
}

impl vstd::std_specs::cmp::PartialEqSpecImpl for PrimariesDef {
    open spec fn obeys_eq_spec() -> bool {
        true
    }

    open spec fn eq_spec(&self, other: &Self) -> bool {
        *self == *other
    }
}

/// How a description's transfer function is specified.
#[derive(Debug, Clone, Copy, PartialEq, Eq, Hash, Structural)]
pub enum TransferFunctionDef {
    /// One of the protocol's named transfer functions.
    Named(TransferFunction),
    /// Pure power curve: the exponent × 10,000.
    Power(u32),
}

/// Primary color volume luminance range, in cd/m².
#[derive(Debug, Clone, Copy, PartialEq, Eq, Hash, Structural)]
pub struct Luminances {
    /// Minimum luminance × 10,000.
    pub min_lum: u32,
    /// Maximum luminance.
    pub max_lum: u32,
    /// Reference white luminance.
    pub reference_lum: u32,
}

/// Mastering display luminance range, in cd/m².
#[derive(Debug, Clone, Copy, PartialEq, Eq, Hash, Structural)]
pub struct MasteringLuminance {
    /// Minimum mastering luminance × 10,000.
    pub min_lum: u32,
    /// Maximum mastering luminance.
    pub max_lum: u32,
}

/// Bytes of an ICC profile attached to a description.
///
/// The bytes are shared, so cloning a description does not copy them. Equality, and the
/// view, go by the bytes.
#[derive(Debug, Eq)]
pub struct IccProfile {
    /// Raw ICC bytes, exactly as read from the client's file descriptor.
    pub bytes: Arc<Vec<u8>>,
}

impl View for IccProfile {
    type V = Seq<u8>;

    open spec fn view(&self) -> Seq<u8> {
        self.bytes@
    }
}

impl Clone for IccProfile {
    fn clone(&self) -> (copy: Self)
        ensures
            copy == *self,
    {
        IccProfile { bytes: Arc::clone(&self.bytes) }
    }
}

impl PartialEq for IccProfile {
    fn eq(&self, other: &Self) -> (equal: bool) {
        let equal = *self.bytes == *other.bytes;
        proof {
            if equal {
                assert(self@ =~= other@);
            }
        }
        equal
    }
}

impl vstd::std_specs::cmp::PartialEqSpecImpl for IccProfile {
    open spec fn obeys_eq_spec() -> bool {
        true
    }

    open spec fn eq_spec(&self, other: &Self) -> bool {
        self@ == other@
    }
}

/// What an image description says: all of it but the identity.
#[verifier::ext_equal]
pub struct DescriptionContent {
    pub primaries: Option<PrimariesDef>,
    pub transfer_function: Option<TransferFunctionDef>,
    pub luminances: Option<Luminances>,
    pub mastering_primaries: Option<Chromaticities>,
    pub mastering_luminance: Option<MasteringLuminance>,
    pub max_cll: Option<u32>,
    pub max_fall: Option<u32>,
    pub icc: Option<Seq<u8>>,
    pub windows_scrgb: bool,
}

impl DescriptionContent {
    /// A description that says nothing.
    pub open spec fn blank() -> Self {
        DescriptionContent {
            primaries: None,
            transfer_function: None,
            luminances: None,
            mastering_primaries: None,
            mastering_luminance: None,
            max_cll: None,
            max_fall: None,
            icc: None,
            windows_scrgb: false,
        }
    }

    /// Named primaries and a named transfer function, and nothing else.
    pub open spec fn named(primaries: Primaries, tf: TransferFunction) -> Self {
        DescriptionContent {
            primaries: Some(PrimariesDef::Named(primaries)),
            transfer_function: Some(TransferFunctionDef::Named(tf)),
            ..Self::blank()
        }
    }

    /// The default sRGB description.
    pub open spec fn srgb() -> Self {
        Self::named(Primaries::Srgb, TransferFunction::Srgb)
    }

    /// The Windows-scRGB description: the flag alone.
    pub open spec fn windows_scrgb() -> Self {
        DescriptionContent { windows_scrgb: true, ..Self::blank() }
    }

    /// A description that consists of an ICC profile.
    pub open spec fn from_icc(bytes: Seq<u8>) -> Self {
        DescriptionContent { icc: Some(bytes), ..Self::blank() }
    }

    /// Whether the description carries an ICC profile.
    pub open spec fn is_icc(self) -> bool {
        self.icc is Some
    }

    /// Whether the description has primaries and a transfer function.
    pub open spec fn is_parametric(self) -> bool {
        self.primaries is Some && self.transfer_function is Some
    }
}

/// A finished, immutable image description.
///
/// Its view, [`DescriptionContent`], is what it says; `identity` is assigned by
/// [`ImageDescriptionInterner::intern`] and takes no part in equality.
#[derive(Debug, Eq)]
pub struct ImageDescription {
    /// Primaries. `None` means that they come from the ICC profile.
    pub primaries: Option<PrimariesDef>,
    /// Transfer function. `None` means that it comes from the ICC profile.
    pub transfer_function: Option<TransferFunctionDef>,
    /// Primary color volume luminances. `None` means the defaults of the transfer function.
    pub luminances: Option<Luminances>,
    /// Mastering display primaries.
    pub mastering_primaries: Option<Chromaticities>,
    /// Mastering display luminance range.
    pub mastering_luminance: Option<MasteringLuminance>,
    /// Maximum content light level, cd/m².
    pub max_cll: Option<u32>,
    /// Maximum frame-average light level, cd/m².
    pub max_fall: Option<u32>,
    /// ICC profile, if the description was built by the ICC creator.
    pub icc: Option<IccProfile>,
    /// `true` if built by `wp_color_manager_v1.create_windows_scrgb`. The flag implies the
    /// primaries (sRGB), the transfer function (extended linear) and the reference luminance
    /// that the protocol gives to such a description. They are not written out in the fields
    /// above.
    pub windows_scrgb: bool,
    /// Identity assigned by the interner.
    pub identity: u64,
}

impl View for ImageDescription {
    type V = DescriptionContent;

    open spec fn view(&self) -> DescriptionContent {
        DescriptionContent {
            primaries: self.primaries,
            transfer_function: self.transfer_function,
            luminances: self.luminances,
            mastering_primaries: self.mastering_primaries,
            mastering_luminance: self.mastering_luminance,
            max_cll: self.max_cll,
            max_fall: self.max_fall,
            icc: match self.icc {
                Some(profile) => Some(profile@),
                None => None,
            },
            windows_scrgb: self.windows_scrgb,
        }
    }
}

impl Clone for ImageDescription {
    fn clone(&self) -> (copy: Self)
        ensures
            copy == *self,
    {
        ImageDescription {
            primaries: self.primaries,
            transfer_function: self.transfer_function,
            luminances: self.luminances,
            mastering_primaries: self.mastering_primaries,
            mastering_luminance: self.mastering_luminance,
            max_cll: self.max_cll,
            max_fall: self.max_fall,
            icc: match &self.icc {
                Some(profile) => Some(profile.clone()),
                None => None,
            },
            windows_scrgb: self.windows_scrgb,
            identity: self.identity,
        }
    }
}

impl PartialEq for ImageDescription {
    fn eq(&self, other: &Self) -> (equal: bool) {
        self.primaries == other.primaries && self.transfer_function == other.transfer_function
            && self.luminances == other.luminances && self.mastering_primaries
            == other.mastering_primaries && self.mastering_luminance == other.mastering_luminance
            && self.max_cll == other.max_cll && self.max_fall == other.max_fall && self.icc
            == other.icc && self.windows_scrgb == other.windows_scrgb
    }
}

impl vstd::std_specs::cmp::PartialEqSpecImpl for ImageDescription {
    open spec fn obeys_eq_spec() -> bool {
        true
    }

    open spec fn eq_spec(&self, other: &Self) -> bool {
        self@ == other@
    }
}

impl ImageDescription {
    /// Returns `true` if this description carries any ICC profile data.
    pub fn is_icc(&self) -> (icc: bool)
        ensures
            icc == self@.is_icc(),
    {
        self.icc.is_some()
    }

    /// Returns `true` if this description has a parametric form the renderer can consume
    /// directly: primaries and a transfer function.
    pub fn is_parametric(&self) -> (parametric: bool)
        ensures
            parametric == self@.is_parametric(),
    {
        self.primaries.is_some() && self.transfer_function.is_some()
    }

    /// The identity as the protocol splits it: high half, then low half.
    pub fn identity_split(&self) -> (halves: (u32, u32))
        ensures
            halves.0 == identity_hi(self.identity),
            halves.1 == identity_lo(self.identity),
    {
        split_identity(self.identity)
    }
}

/// The upper 32 bits of an identity.
pub open spec fn identity_hi(identity: u64) -> int {
    identity as int / 0x1_0000_0000
}

/// The lower 32 bits of an identity.
pub open spec fn identity_lo(identity: u64) -> int {
    identity as int % 0x1_0000_0000
}

/// Splits an identity into its upper and lower 32 bits.
pub fn split_identity(identity: u64) -> (halves: (u32, u32))
    ensures
        halves.0 == identity_hi(identity),
        halves.1 == identity_lo(identity),
{
    assert(identity >> 32 == identity / 0x1_0000_0000) by (bit_vector);
    assert(identity & 0xffff_ffff == identity % 0x1_0000_0000) by (bit_vector);
    ((identity >> 32) as u32, (identity & 0xffff_ffff) as u32)
}

/// The two halves of an identity determine it: the upper one times 2³², plus the lower one.
pub proof fn lemma_identity_halves(identity: u64)
    ensures
        0 <= identity_hi(identity) <= u32::MAX,
        0 <= identity_lo(identity) <= u32::MAX,
        identity == identity_hi(identity) * 0x1_0000_0000 + identity_lo(identity),
{
}

/// The default sRGB image description, used when a client never sets one or unsets it.
pub fn srgb_default_template() -> (description: ImageDescription)
    ensures
        description@ == DescriptionContent::srgb(),
        description.identity == 0,
{
    ImageDescription {
        primaries: Some(PrimariesDef::Named(Primaries::Srgb)),
        transfer_function: Some(TransferFunctionDef::Named(TransferFunction::Srgb)),
        luminances: None,
        mastering_primaries: None,
        mastering_luminance: None,
        max_cll: None,
        max_fall: None,
        icc: None,
        windows_scrgb: false,
        identity: 0,
    }
}

/// Whether `registry` can be the content of an interner: it starts with the default sRGB
/// description and holds no description twice.
pub open spec fn valid_registry(registry: Seq<DescriptionContent>) -> bool {
    &&& registry.len() >= 1
    &&& registry[0] == DescriptionContent::srgb()
    &&& registry.no_duplicates()
}

/// The registry once `content` has been interned: unchanged if it was there, else with
/// `content` at the end.
pub open spec fn interned(
    registry: Seq<DescriptionContent>,
    content: DescriptionContent,
) -> Seq<DescriptionContent> {
    if registry.contains(content) {
        registry
    } else {
        registry.push(content)
    }
}

/// The identity of `content` in a registry that holds it: its position, counted from 1.
pub open spec fn identity_in(
    registry: Seq<DescriptionContent>,
    content: DescriptionContent,
) -> int {
    registry.index_of(content) + 1
}

/// Dedup interner for image descriptions.
///
/// The view is the sequence of the descriptions held, in the order of their identities.
#[derive(Debug)]
pub struct ImageDescriptionInterner {
    descriptions: Vec<Arc<ImageDescription>>,
}

impl View for ImageDescriptionInterner {
    type V = Seq<DescriptionContent>;

    closed spec fn view(&self) -> Seq<DescriptionContent> {
        Seq::new(self.descriptions@.len(), |i: int| self.descriptions@[i]@)
    }
}

impl ImageDescriptionInterner {
    /// The descriptions form a valid registry, and each has its position as identity.
    #[verifier::type_invariant]
    spec fn wf(self) -> bool {
        &&& valid_registry(self@)
        &&& forall|i: int|
            0 <= i < self.descriptions@.len() ==> (#[trigger] self.descriptions@[i]).identity == i
                + 1
    }

    /// Builds an interner that holds the default sRGB description, with identity 1.
    pub fn new() -> (interner: Self)
        ensures
            interner@ == seq![DescriptionContent::srgb()],
            valid_registry(interner@),
    {
        let mut descriptions: Vec<Arc<ImageDescription>> = Vec::with_capacity(8);
        let mut srgb = srgb_default_template();
        srgb.identity = 1;
        descriptions.push(Arc::new(srgb));
        let ghost content = Seq::new(
            descriptions@.len(),
            |i: int| descriptions@[i]@,
        );
        assert(content =~= seq![DescriptionContent::srgb()]);
        ImageDescriptionInterner { descriptions }
    }

    /// Interns a description.
    ///
    /// If an equal description is held, its handle is returned. Otherwise the description is
    /// stored with the next identity. The `identity` field of the argument is ignored.
    pub fn intern(&mut self, description: ImageDescription) -> (handle: Arc<ImageDescription>)
        ensures
            valid_registry(old(self)@),
            valid_registry(final(self)@),
            final(self)@ == interned(old(self)@, description@),
            handle@ == description@,
            handle.identity == identity_in(final(self)@, description@),
    {
        proof {
            use_type_invariant(&*self);
        }
        let ghost registry = self@;
        let count: usize = self.descriptions.len();
        let mut i: usize = 0;
        while i < count
            invariant
                i <= count,
                count == self.descriptions@.len(),
                self == old(self),
                self.wf(),
                registry == self@,
                forall|j: int| 0 <= j < i ==> registry[j] != description@,
            decreases count - i,
        {
            if *self.descriptions[i] == description {
                assert(registry[i as int] == description@);
                return Arc::clone(&self.descriptions[i]);
            }
            i += 1;
        }
        // The vector is swapped against a valid one while it grows. Its last slot is filled
        // once the description has the new length as its identity.
        let mut descriptions: Vec<Arc<ImageDescription>> = Vec::new();
        descriptions.push(Arc::clone(&self.descriptions[0]));
        core::mem::swap(&mut self.descriptions, &mut descriptions);
        let first = Arc::clone(&descriptions[0]);
        descriptions.push(first);
        let mut description = description;
        description.identity = descriptions.len() as u64;
        let handle = Arc::new(description);
        descriptions[count] = Arc::clone(&handle);
        proof {
            let grown = Seq::new(descriptions@.len(), |i: int| descriptions@[i]@);
            assert(grown =~= registry.push(handle@));
            assert(!registry.contains(handle@));
            assert(grown.no_duplicates());
            assert(grown[registry.len() as int] == handle@);
            assert(grown.index_of(handle@) == registry.len());
        }
        self.descriptions = descriptions;
        handle
    }

    /// The default sRGB description, which is there from the start with identity 1.
    pub fn srgb_default(&self) -> (handle: Arc<ImageDescription>)
        ensures
            handle@ == DescriptionContent::srgb(),
            handle.identity == 1,
            valid_registry(self@),
            handle@ == self@[0],
    {
        proof {
            use_type_invariant(self);
        }
        assert(self@[0] == self.descriptions@[0]@);
        Arc::clone(&self.descriptions[0])
    }

    /// Looks up a description by identity. Returns `None` if no description has it.
    pub fn lookup(&self, identity: u64) -> (handle: Option<Arc<ImageDescription>>)
        ensures
            valid_registry(self@),
            handle is Some <==> 1 <= identity <= self@.len(),
            handle matches Some(h) ==> h.identity == identity && h@ == self@[identity - 1],
    {
        proof {
            use_type_invariant(self);
        }
        let count: usize = self.descriptions.len();
        let mut i: usize = 0;
        while i < count
            invariant
                i <= count,
                count == self.descriptions@.len(),
                self.wf(),
                identity == 0 || identity > i,
            decreases count - i,
        {
            if self.descriptions[i].identity == identity {
                return Some(Arc::clone(&self.descriptions[i]));
            }
            i += 1;
        }
        None
    }

    /// Total interned description count.
    pub fn len(&self) -> (count: usize)
        ensures
            count == self@.len(),
            valid_registry(self@),
    {
        proof {
            use_type_invariant(self);
        }
        self.descriptions.len()
    }

    /// Whether the interner is empty. It never is: the default sRGB description is there
    /// from the start.
    pub fn is_empty(&self) -> (empty: bool)
        ensures
            empty == (self@.len() == 0),
            !empty,
    {
        proof {
            use_type_invariant(self);
        }
        self.descriptions.is_empty()
    }
}

impl Default for ImageDescriptionInterner {
    fn default() -> (interner: Self)
        ensures
            interner@ == seq![DescriptionContent::srgb()],
            valid_registry(interner@),
    {
        Self::new()
    }
}

/// Interning keeps a registry valid, holds the description afterwards, and changes none of
/// the identities handed out before.
pub proof fn lemma_interning_preserves(
    registry: Seq<DescriptionContent>,
    content: DescriptionContent,
    earlier: DescriptionContent,
)
    requires
        valid_registry(registry),
        registry.contains(earlier),
    ensures
        valid_registry(interned(registry, content)),
        interned(registry, content).contains(content),
        interned(registry, content).contains(earlier),
        identity_in(interned(registry, content), earlier) == identity_in(registry, earlier),
{
    let after = interned(registry, content);
    if !registry.contains(content) {
        assert(after[registry.len() as int] == content);
        let at = registry.index_of(earlier);
        assert(after[at] == earlier);
        assert(after.no_duplicates());
        let i = after.index_of(earlier);
        assert(after[i] == earlier);
    }
}

/// Interning the same description again changes nothing and gives the same identity.
pub proof fn lemma_interning_is_idempotent(
    registry: Seq<DescriptionContent>,
    content: DescriptionContent,
)
    requires
        valid_registry(registry),
    ensures
        interned(interned(registry, content), content) == interned(registry, content),
        identity_in(interned(interned(registry, content), content), content) == identity_in(
            interned(registry, content),
            content,
        ),
{
    let once = interned(registry, content);
    if !registry.contains(content) {
        assert(once[registry.len() as int] == content);
    }
}

/// Two descriptions in a registry have one identity exactly when they say the same.
pub proof fn lemma_identity_tells_descriptions_apart(
    registry: Seq<DescriptionContent>,
    a: DescriptionContent,
    b: DescriptionContent,
)
    requires
        valid_registry(registry),
        registry.contains(a),
        registry.contains(b),
    ensures
        identity_in(registry, a) == identity_in(registry, b) <==> a == b,
{
    let i = registry.index_of(a);
    let j = registry.index_of(b);
    assert(registry[i] == a && registry[j] == b);
}

/// Identities start at 1 with the default sRGB description and grow by one: a description
/// that was not held gets the next number, larger than every identity in use.
pub proof fn lemma_identities_are_monotonic(
    registry: Seq<DescriptionContent>,
    fresh: DescriptionContent,
    earlier: DescriptionContent,
)
    requires
        valid_registry(registry),
        registry.contains(earlier),
        !registry.contains(fresh),
    ensures
        identity_in(registry, DescriptionContent::srgb()) == 1,
        1 <= identity_in(registry, earlier) <= registry.len(),
        identity_in(interned(registry, fresh), fresh) == registry.len() + 1,
        identity_in(registry, earlier) < identity_in(interned(registry, fresh), fresh),
{
    lemma_interning_preserves(registry, fresh, earlier);
    let after = interned(registry, fresh);
    assert(registry[0] == DescriptionContent::srgb());
    assert(registry.index_of(DescriptionContent::srgb()) == 0) by {
        let i = registry.index_of(DescriptionContent::srgb());
        assert(registry[i] == DescriptionContent::srgb());
    }
    assert(after[registry.len() as int] == fresh);
    let i = after.index_of(fresh);
    assert(after[i] == fresh);
    let j = registry.index_of(earlier);
    assert(registry[j] == earlier);
}

/// A registry gives back under its identity what was interned: the description at the
/// position of `identity_in` is the description itself.
pub proof fn lemma_lookup_finds_interned(
    registry: Seq<DescriptionContent>,
    content: DescriptionContent,
)
    requires
        valid_registry(registry),
    ensures
        ({
            let after = interned(registry, content);
            let identity = identity_in(after, content);
            1 <= identity <= after.len() && after[identity - 1] == content
        }),
{
    let after = interned(registry, content);
    if !registry.contains(content) {
        assert(after[registry.len() as int] == content);
    }
    assert(after.contains(content));
    assert(after[after.index_of(content)] == content);
}

/// The content of a description is what its fields say: every field but the identity, and of
/// an ICC profile the bytes.
pub proof fn lemma_content_is_fields(description: ImageDescription)
    ensures
        description@.primaries == description.primaries,
        description@.transfer_function == description.transfer_function,
        description@.luminances == description.luminances,
        description@.mastering_primaries == description.mastering_primaries,
        description@.mastering_luminance == description.mastering_luminance,
        description@.max_cll == description.max_cll,
        description@.max_fall == description.max_fall,
        description@.icc is Some <==> description.icc is Some,
        description.icc matches Some(profile) ==> description@.icc == Some(profile.bytes@),
        description@.windows_scrgb == description.windows_scrgb,
{
}

/// Two descriptions are equal exactly if all their fields but the identity are, ICC profiles
/// being compared byte by byte.
pub proof fn lemma_equality_goes_by_fields(a: ImageDescription, b: ImageDescription)
    ensures
        a.eq_spec(&b) <==> {
            &&& a.primaries == b.primaries
            &&& a.transfer_function == b.transfer_function
            &&& a.luminances == b.luminances
            &&& a.mastering_primaries == b.mastering_primaries
            &&& a.mastering_luminance == b.mastering_luminance
            &&& a.max_cll == b.max_cll
            &&& a.max_fall == b.max_fall
            &&& match (a.icc, b.icc) {
                (Some(p), Some(q)) => p.bytes@ == q.bytes@,
                (None, None) => true,
                _ => false,
            }
            &&& a.windows_scrgb == b.windows_scrgb
        },
{
}

/// Two ICC profiles are equal exactly if their bytes are.
pub proof fn lemma_profile_equality_goes_by_bytes(a: IccProfile, b: IccProfile)
    ensures
        a.eq_spec(&b) <==> a.bytes@ == b.bytes@,
{
}

/// Chromaticities are equal exactly if all eight coordinates are, and primaries exactly if
/// they are the same named set or equal chromaticities.
pub proof fn lemma_primaries_equality(
    a: Chromaticities,
    b: Chromaticities,
    p: Primaries,
    q: Primaries,
)
    ensures
        a.eq_spec(&b) <==> a.r.0 == b.r.0 && a.r.1 == b.r.1 && a.g.0 == b.g.0 && a.g.1 == b.g.1
            && a.b.0 == b.b.0 && a.b.1 == b.b.1 && a.w.0 == b.w.0 && a.w.1 == b.w.1,
        PrimariesDef::Named(p).eq_spec(&PrimariesDef::Named(q)) <==> p == q,
        PrimariesDef::Custom(a).eq_spec(&PrimariesDef::Custom(b)) <==> a == b,
        !PrimariesDef::Named(p).eq_spec(&PrimariesDef::Custom(b)),
        !PrimariesDef::Custom(a).eq_spec(&PrimariesDef::Named(q)),
{
}

/// A description is parametric exactly if it has primaries and a transfer function, and an
/// ICC description exactly if it has a profile.
pub proof fn lemma_forms_go_by_fields(content: DescriptionContent)
    ensures
        content.is_parametric() <==> content.primaries is Some && content.transfer_function is Some,
        content.is_icc() <==> content.icc is Some,
{
}

/// The default description names sRGB twice and says nothing else.
pub proof fn lemma_srgb_content()
    ensures
        ({
            let content = DescriptionContent::srgb();
            &&& content.primaries == Some(PrimariesDef::Named(Primaries::Srgb))
            &&& content.transfer_function == Some(
                TransferFunctionDef::Named(TransferFunction::Srgb),
            )
            &&& content.luminances is None
            &&& content.mastering_primaries is None
            &&& content.mastering_luminance is None
            &&& content.max_cll is None
            &&& content.max_fall is None
            &&& content.icc is None
            &&& !content.windows_scrgb
        }),
{
}

/// The Windows-scRGB description says nothing but that it is one: what the flag implies is
/// not written out.
pub proof fn lemma_windows_scrgb_content()
    ensures
        ({
            let content = DescriptionContent::windows_scrgb();
            &&& content.primaries is None
            &&& content.transfer_function is None
            &&& content.luminances is None
            &&& content.mastering_primaries is None
            &&& content.mastering_luminance is None
            &&& content.max_cll is None
            &&& content.max_fall is None
            &&& content.icc is None
            &&& content.windows_scrgb
        }),
{
}

/// An ICC description carries exactly the bytes of the profile and says nothing else.
pub proof fn lemma_icc_content(bytes: Seq<u8>)
    ensures
        ({
            let content = DescriptionContent::from_icc(bytes);
            &&& content.icc == Some(bytes)
            &&& content.primaries is None
            &&& content.transfer_function is None
            &&& content.luminances is None
            &&& content.mastering_primaries is None
            &&& content.mastering_luminance is None
            &&& content.max_cll is None
            &&& content.max_fall is None
            &&& !content.windows_scrgb
        }),
{
}

/// Interning adds a description exactly if it was not held, and then at the end.
pub proof fn lemma_interning_adds_what_is_new(
    registry: Seq<DescriptionContent>,
    content: DescriptionContent,
)
    ensures
        registry.contains(content) ==> interned(registry, content) == registry,
        !registry.contains(content) ==> interned(registry, content) == registry.push(content),
{
}

/// Every description held has its position, counted from 1, as its identity.
pub proof fn lemma_identity_is_position(registry: Seq<DescriptionContent>, i: int)
    requires
        valid_registry(registry),
        0 <= i < registry.len(),
    ensures
        identity_in(registry, registry[i]) == i + 1,
{
    let j = registry.index_of(registry[i]);
    assert(registry.contains(registry[i]));
    assert(registry[j] == registry[i]);
}

/// A registry starts with the default description and holds no description twice.
pub proof fn lemma_registry_holds_nothing_twice(registry: Seq<DescriptionContent>, i: int, j: int)
    requires
        valid_registry(registry),
        0 <= i < j < registry.len(),
    ensures
        registry[0] == DescriptionContent::srgb(),
        registry[i] != registry[j],
{
}

} // verus!
