//! The ICC creator: `wp_image_description_creator_icc_v1`.
//!
//! The profile comes in through a file descriptor. Reading it takes two steps: a plan is
//! made from the size of the file, and what the planned read yields is stored.
use std::sync::Arc;

use vstd::prelude::*;

use crate::color_management::description::{
    interned, valid_registry, DescriptionContent, IccProfile, ImageDescription,
    ImageDescriptionInterner,
};
use crate::color_management::replies::DescriptionReply;

verus! {

/// The largest profile that is accepted: 4 MiB.
pub const MAX_ICC: u32 = 4_194_304;

/// Protocol errors of `wp_image_description_creator_icc_v1`.
#[derive(Debug, Clone, Copy, PartialEq, Eq, Structural)]
pub enum IccError {
    /// `create` on a builder that was consumed.
    CreateTwice,
    /// `create` without a profile.
    Incomplete,
    /// A second profile.
    AlreadySet,
    /// A file descriptor that cannot be read as asked.
    BadFd,
    /// A length of zero or above the limit.
    BadSize,
    /// A range that reaches beyond the end of the file.
    OutOfFile,
}

impl IccError {
    /// The error code on the wire.
    pub open spec fn spec_code(self) -> u32 {
        match self {
            IccError::CreateTwice => 1,
            IccError::Incomplete => 0,
            IccError::AlreadySet => 1,
            IccError::BadFd => 2,
            IccError::BadSize => 3,
            IccError::OutOfFile => 4,
        }
    }

    /// The message posted with the error.
    pub open spec fn spec_message(self) -> Seq<char> {
        match self {
            IccError::CreateTwice => "create called twice"@,
            IccError::Incomplete => "set_icc_file required"@,
            IccError::AlreadySet => "ICC file already set"@,
            IccError::BadFd => "ICC fd not seekable/readable"@,
            IccError::BadSize => "ICC length out of range"@,
            IccError::OutOfFile => "offset+length exceeds file size"@,
        }
    }

    /// The error code on the wire.
    pub fn code(self) -> (code: u32)
        ensures
            code == self.spec_code(),
    {
        match self {
            IccError::CreateTwice => 1,
            IccError::Incomplete => 0,
            IccError::AlreadySet => 1,
            IccError::BadFd => 2,
            IccError::BadSize => 3,
            IccError::OutOfFile => 4,
        }
    }

    /// The message posted with the error.
    pub fn message(self) -> (message: &'static str)
        ensures
            message@ == self.spec_message(),
    {
        match self {
            IccError::CreateTwice => "create called twice",
            IccError::Incomplete => "set_icc_file required",
            IccError::AlreadySet => "ICC file already set",
            IccError::BadFd => "ICC fd not seekable/readable",
            IccError::BadSize => "ICC length out of range",
            IccError::OutOfFile => "offset+length exceeds file size",
        }
    }
}

/// What can be wrong with a profile's file.
#[derive(Debug, Clone, Copy, PartialEq, Eq, Structural)]
pub enum IccReadError {
    /// The file descriptor cannot be read as asked.
    BadFd,
    /// The length is zero or above the limit.
    BadSize,
    /// The range reaches beyond the end of the file.
    OutOfFile,
}

impl IccReadError {
    /// The protocol error raised for it.
    pub open spec fn raised(self) -> IccError {
        match self {
            IccReadError::BadFd => IccError::BadFd,
            IccReadError::BadSize => IccError::BadSize,
            IccReadError::OutOfFile => IccError::OutOfFile,
        }
    }
}

/// The part of a file to read.
#[derive(Debug, Clone, Copy, PartialEq, Eq, Structural)]
pub struct IccReadPlan {
    /// Where to start.
    pub start: u64,
    /// How many bytes to read.
    pub length: usize,
}

/// What to read for a profile of `length` bytes at `offset` of a file of the given size,
/// `None` if the size cannot be found out.
pub open spec fn icc_read_plan(offset: u32, length: u32, file_size: Option<u64>) -> Result<
    IccReadPlan,
    IccReadError,
> {
    if length == 0 || length > MAX_ICC {
        Err(IccReadError::BadSize)
    } else {
        match file_size {
            None => Err(IccReadError::BadFd),
            Some(size) => if offset + length > size {
                Err(IccReadError::OutOfFile)
            } else {
                Ok(IccReadPlan { start: offset as u64, length: length as usize })
            },
        }
    }
}

/// Checks a requested range against the size limit and the size of the file.
pub fn read_icc_fd(offset: u32, length: u32, file_size: Option<u64>) -> (plan: Result<
    IccReadPlan,
    IccReadError,
>)
    ensures
        plan == icc_read_plan(offset, length, file_size),
{
    if length == 0 || length > MAX_ICC {
        return Err(IccReadError::BadSize);
    }
    let size: u64 = match file_size {
        Some(size) => size,
        None => return Err(IccReadError::BadFd),
    };
    if (offset as u64) + (length as u64) > size {
        return Err(IccReadError::OutOfFile);
    }
    Ok(IccReadPlan { start: offset as u64, length: length as usize })
}

/// What has been set on an ICC creator so far.
#[derive(Debug)]
pub struct IccCreatorBuilderInner {
    /// The bytes of the profile.
    pub icc_bytes: Option<Vec<u8>>,
    /// Set once `create` has been called, so that a second `create` is detected.
    pub consumed: bool,
}

impl IccCreatorBuilderInner {
    /// The bytes of the profile, if one is set.
    pub open spec fn profile(self) -> Option<Seq<u8>> {
        match self.icc_bytes {
            Some(bytes) => Some(bytes@),
            None => None,
        }
    }

    /// The description that `create` makes, or the error that it raises.
    pub open spec fn created(self) -> Result<DescriptionContent, IccError> {
        if self.consumed {
            Err(IccError::CreateTwice)
        } else {
            match self.profile() {
                Some(bytes) => Ok(DescriptionContent::from_icc(bytes)),
                None => Err(IccError::Incomplete),
            }
        }
    }
}

impl Default for IccCreatorBuilderInner {
    fn default() -> (inner: Self)
        ensures
            inner.profile() is None,
            !inner.consumed,
    {
        IccCreatorBuilderInner { icc_bytes: None, consumed: false }
    }
}

/// State of a `wp_image_description_creator_icc_v1`.
#[derive(Debug)]
pub struct IccCreatorBuilder(pub IccCreatorBuilderInner);

impl Default for IccCreatorBuilder {
    fn default() -> (builder: Self)
        ensures
            builder.0.profile() is None,
            !builder.0.consumed,
    {
        IccCreatorBuilder(IccCreatorBuilderInner::default())
    }
}

impl IccCreatorBuilder {
    /// The first half of `set_icc_file`: what to read, or the error that the request raises.
    pub fn plan_icc_file(
        &self,
        offset: u32,
        length: u32,
        file_size: Option<u64>,
    ) -> (plan: Result<IccReadPlan, IccError>)
        ensures
            plan == (if self.0.profile() is Some {
                Err(IccError::AlreadySet)
            } else {
                match icc_read_plan(offset, length, file_size) {
                    Ok(plan) => Ok(plan),
                    Err(error) => Err(error.raised()),
                }
            }),
    {
        if self.0.icc_bytes.is_some() {
            return Err(IccError::AlreadySet);
        }
        match read_icc_fd(offset, length, file_size) {
            Ok(plan) => Ok(plan),
            Err(IccReadError::BadFd) => Err(IccError::BadFd),
            Err(IccReadError::BadSize) => Err(IccError::BadSize),
            Err(IccReadError::OutOfFile) => Err(IccError::OutOfFile),
        }
    }

    /// The second half of `set_icc_file`: stores what the planned read yielded.
    ///
    /// `read` is `None` if seeking or reading failed. A read of another length than planned
    /// counts as failed.
    pub fn set_icc_file(&mut self, plan: IccReadPlan, read: Option<Vec<u8>>) -> (result: Result<
        (),
        IccError,
    >)
        ensures
            result == (if old(self).0.profile() is Some {
                Err(IccError::AlreadySet)
            } else if read matches Some(bytes) && bytes@.len() == plan.length {
                Ok(())
            } else {
                Err(IccError::BadFd)
            }),
            result is Ok ==> final(self).0.profile() == Some(read->0@),
            result is Err ==> final(self).0.profile() == old(self).0.profile(),
            final(self).0.consumed == old(self).0.consumed,
    {
        if self.0.icc_bytes.is_some() {
            return Err(IccError::AlreadySet);
        }
        match read {
            Some(bytes) => {
                if bytes.len() != plan.length {
                    return Err(IccError::BadFd);
                }
                self.0.icc_bytes = Some(bytes);
                Ok(())
            },
            None => Err(IccError::BadFd),
        }
    }

    /// Handles `create`: interns the description that consists of the profile.
    ///
    /// The builder is drained and consumed, also when no profile was set. The client has the
    /// profile, so it may not ask for information about the description.
    pub fn create(&mut self, interner: &mut ImageDescriptionInterner) -> (result: Result<
        DescriptionReply,
        IccError,
    >)
        ensures
            final(self).0.consumed,
            final(self).0.profile() == (if old(self).0.consumed {
                old(self).0.profile()
            } else {
                None
            }),
            match old(self).0.created() {
                Ok(content) => {
                    &&& valid_registry(final(interner)@)
                    &&& final(interner)@ == interned(old(interner)@, content)
                    &&& result matches Ok(reply)
                    &&& reply.is_interned(old(interner)@, content, false)
                },
                Err(error) => {
                    &&& final(interner)@ == old(interner)@
                    &&& result matches Err(e)
                    &&& e == error
                },
            },
    {
        if self.0.consumed {
            return Err(IccError::CreateTwice);
        }
        let mut inner = IccCreatorBuilderInner::default();
        core::mem::swap(&mut self.0, &mut inner);
        self.0.consumed = true;
        let bytes: Vec<u8> = match inner.icc_bytes {
            Some(bytes) => bytes,
            None => return Err(IccError::Incomplete),
        };
        let description = ImageDescription {
            primaries: None,
            transfer_function: None,
            luminances: None,
            mastering_primaries: None,
            mastering_luminance: None,
            max_cll: None,
            max_fall: None,
            icc: Some(IccProfile { bytes: Arc::new(bytes) }),
            windows_scrgb: false,
            identity: 0,
        };
        Ok(DescriptionReply::intern(interner, description))
    }
}

/// A plan lies within the file and reads between one byte and the limit, from the offset
/// on as many bytes as were asked for.
pub proof fn lemma_plan_lies_within_file(
    offset: u32,
    length: u32,
    file_size: Option<u64>,
    plan: IccReadPlan,
)
    requires
        icc_read_plan(offset, length, file_size) == Ok::<IccReadPlan, IccReadError>(plan),
    ensures
        plan.start == offset,
        plan.length == length,
        0 < plan.length <= MAX_ICC,
        file_size matches Some(size) && plan.start + plan.length <= size,
{
}

/// A description made by the ICC creator carries the profile and is not parametric.
pub proof fn lemma_icc_description_is_not_parametric(
    inner: IccCreatorBuilderInner,
    content: DescriptionContent,
)
    requires
        inner.created() == Ok::<DescriptionContent, IccError>(content),
    ensures
        content.is_icc(),
        content.icc == inner.profile(),
        !content.is_parametric(),
{
}

/// Two ICC descriptions say the same exactly when their profiles have the same bytes.
pub proof fn lemma_icc_descriptions_compare_by_bytes(a: Seq<u8>, b: Seq<u8>)
    ensures
        DescriptionContent::from_icc(a) == DescriptionContent::from_icc(b) <==> a == b,
{
    assert(DescriptionContent::from_icc(a).icc == Some(a));
    assert(DescriptionContent::from_icc(b).icc == Some(b));
}

/// Success of `create` is owed: a builder that is not consumed and has a profile, of any
/// length, makes the description that consists of exactly those bytes.
pub proof fn lemma_create_owes_success(inner: IccCreatorBuilderInner, bytes: Vec<u8>)
    requires
        !inner.consumed,
        inner.icc_bytes == Some(bytes),
    ensures
        inner.created() matches Ok(content) && {
            &&& content.icc == Some(bytes@)
            &&& content.primaries is None
            &&& content.transfer_function is None
            &&& content.luminances is None
            &&& content.mastering_primaries is None
            &&& content.mastering_luminance is None
            &&& content.max_cll is None
            &&& content.max_fall is None
            &&& !content.windows_scrgb
        },
{
}

/// `create` fails in two ways only: as called twice exactly if the builder is consumed, and
/// as incomplete exactly if it is not and no profile is set.
pub proof fn lemma_create_errors(inner: IccCreatorBuilderInner)
    ensures
        inner.created() == Err::<DescriptionContent, _>(IccError::CreateTwice) <==> inner.consumed,
        inner.created() == Err::<DescriptionContent, _>(IccError::Incomplete) <==> !inner.consumed
            && inner.icc_bytes is None,
        inner.created() is Ok <==> !inner.consumed && inner.icc_bytes is Some,
{
}

/// The profile of a builder is the bytes that it holds.
pub proof fn lemma_profile_is_bytes(inner: IccCreatorBuilderInner)
    ensures
        inner.profile() is Some <==> inner.icc_bytes is Some,
        inner.icc_bytes matches Some(bytes) ==> inner.profile() == Some(bytes@),
{
}

/// Success of the plan is owed for every range of one byte to 4 MiB that lies within a file
/// of known size, and it reads just that range. Otherwise the length is blamed first, then
/// the file descriptor, then the range.
pub proof fn lemma_plan_owes_success(offset: u32, length: u32, file_size: Option<u64>)
    ensures
        ({
            let plan = icc_read_plan(offset, length, file_size);
            let sized = 1 <= length <= 4 * 1024 * 1024;
            &&& !sized ==> plan == Err::<IccReadPlan, _>(IccReadError::BadSize)
            &&& sized && file_size is None ==> plan == Err::<IccReadPlan, _>(IccReadError::BadFd)
            &&& file_size matches Some(size) ==> {
                &&& sized && offset + length > size ==> plan == Err::<IccReadPlan, _>(
                    IccReadError::OutOfFile,
                )
                &&& sized && offset + length <= size ==> (plan matches Ok(plan) && plan.start
                    == offset && plan.length == length)
            }
        }),
{
}

/// Each failure to read raises the protocol error of its name.
pub proof fn lemma_read_errors_are_raised(error: IccReadError)
    ensures
        error.raised() is BadFd <==> error is BadFd,
        error.raised() is BadSize <==> error is BadSize,
        error.raised() is OutOfFile <==> error is OutOfFile,
{
}

} // verus!
