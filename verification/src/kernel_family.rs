//! Bounded families of ahead-of-time compiled kernel variants.
//!
//! A kernel family gives stable IDs to a small, fixed set of entries and keeps
//! selection policy outside the kernels themselves:
//!
//! ```text
//! Force(id) -> resolve + validate --------------------------> Override
//! Auto      -> eligible cache hit --------------------------> Cache
//!           -> selector(eligible variants) -> cache store --> Selector
//! ```
//!
//! The module is deliberately CPU-only. Callers decide which problem and
//! hardware facts matter, how to select among eligible variants, and whether
//! to keep an in-memory or persistent cache.

use core::convert::Infallible;

use vstd::array::{array_as_slice, array_fill_for_copy_types};
use vstd::prelude::*;
use vstd::slice::slice_subrange;
use vstd::std_specs::cmp::PartialEqSpec;

use crate::text::{blank, decimal, is_blank, push_decimal};

verus! {

/// Stable namespace for a kernel family and its cache entries.
///
/// Bump `revision` when variant membership, eligibility, selector/preference
/// policy, tuning methodology, or the meaning of a variant ID changes. A
/// reorder also requires a bump unless selection and tuning are explicitly
/// order-independent: caches store stable IDs, but selectors receive eligible
/// variants in declaration order.
#[derive(Clone, Copy, Debug, PartialEq, Eq, Hash)]
pub struct KernelFamilyId {
    name: &'static str,
    revision: u32,
}

impl KernelFamilyId {
    /// The family name.
    pub closed spec fn family_name(self) -> &'static str {
        self.name
    }

    /// The revision.
    pub closed spec fn family_revision(self) -> u32 {
        self.revision
    }

    /// Stable family name.
    pub fn name(self) -> (name: &'static str)
        ensures
            name == self.family_name(),
    {
        self.name
    }

    /// Selection/cache contract revision.
    pub fn revision(self) -> (revision: u32)
        ensures
            revision == self.family_revision(),
    {
        self.revision
    }

    /// Name and revision as `name@revision`.
    pub open spec fn text(self) -> Seq<char> {
        self.family_name()@ + "@"@ + decimal(self.family_revision() as nat)
    }

    /// Name and revision as `name@revision`.
    pub fn display(self) -> (text: String)
        ensures
            text@ == self.text(),
    {
        let mut text = self.name.to_owned();
        text.append("@");
        push_decimal(&mut text, self.revision as u64);
        text
    }
}

/// Two family IDs with the same name and revision are the same namespace, and
/// a new revision is a new one.
pub proof fn revision_is_part_of_the_namespace(a: KernelFamilyId, b: KernelFamilyId)
    ensures
        a == b <==> a.family_name() == b.family_name() && a.family_revision()
            == b.family_revision(),
{
}

/// One ahead-of-time compiled member of a [`KernelFamily`].
#[derive(Clone, Debug, PartialEq, Eq)]
pub struct KernelVariant<Id, Entry, Meta> {
    id: Id,
    entry: Entry,
    metadata: Meta,
}

impl<Id, Entry, Meta> KernelVariant<Id, Entry, Meta> {
    /// The stable ID.
    pub closed spec fn key(self) -> Id {
        self.id
    }

    /// The callable entry.
    pub closed spec fn callable(self) -> Entry {
        self.entry
    }

    /// The policy data.
    pub closed spec fn policy(self) -> Meta {
        self.metadata
    }

    /// Creates a variant from its stable ID, callable entry, and policy data.
    pub fn new(id: Id, entry: Entry, metadata: Meta) -> (variant: KernelVariant<Id, Entry, Meta>)
        ensures
            variant.key() == id,
            variant.callable() == entry,
            variant.policy() == metadata,
    {
        KernelVariant { id, entry, metadata }
    }

    /// Stable variant ID used by overrides and caches.
    pub fn id(&self) -> (id: &Id)
        ensures
            *id == self.key(),
    {
        &self.id
    }

    /// Callable entry associated with this variant.
    pub fn entry(&self) -> (entry: &Entry)
        ensures
            *entry == self.callable(),
    {
        &self.entry
    }

    /// Caller-defined eligibility and selection metadata.
    pub fn metadata(&self) -> (metadata: &Meta)
        ensures
            *metadata == self.policy(),
    {
        &self.metadata
    }

    /// Consumes the variant and returns its parts.
    pub fn into_parts(self) -> (parts: (Id, Entry, Meta))
        ensures
            parts == (self.key(), self.callable(), self.policy()),
    {
        (self.id, self.entry, self.metadata)
    }
}

/// Construction failure for a [`KernelFamily`].
#[derive(Clone, Copy, Debug, PartialEq, Eq)]
pub enum KernelFamilyBuildError {
    /// A family must contain at least one compiled variant.
    EmptyFamily,
    /// The family name is a stable cache namespace and cannot be blank.
    EmptyFamilyName,
    /// Two entries used the same stable variant ID.
    DuplicateVariantId {
        /// Index of the first occurrence.
        first_index: usize,
        /// Index of the repeated occurrence.
        duplicate_index: usize,
    },
}

impl KernelFamilyBuildError {
    /// The diagnostic.
    pub open spec fn text(self) -> Seq<char> {
        match self {
            KernelFamilyBuildError::EmptyFamily
                => "kernel family must contain at least one variant"@,
            KernelFamilyBuildError::EmptyFamilyName
                => "kernel family name cannot be empty or whitespace-only"@,
            KernelFamilyBuildError::DuplicateVariantId { first_index, duplicate_index }
                => "kernel family contains duplicate variant IDs at indices "@ + decimal(
                first_index as nat,
            ) + " and "@ + decimal(duplicate_index as nat),
        }
    }

    /// Renders the diagnostic.
    pub fn message(&self) -> (text: String)
        ensures
            text@ == self.text(),
    {
        match self {
            KernelFamilyBuildError::EmptyFamily => {
                "kernel family must contain at least one variant".to_owned()
            },
            KernelFamilyBuildError::EmptyFamilyName => {
                "kernel family name cannot be empty or whitespace-only".to_owned()
            },
            KernelFamilyBuildError::DuplicateVariantId { first_index, duplicate_index } => {
                let mut text = "kernel family contains duplicate variant IDs at indices ".to_owned();
                push_decimal(&mut text, *first_index as u64);
                text.append(" and ");
                push_decimal(&mut text, *duplicate_index as u64);
                text
            },
        }
    }
}

/// Members `i` and `j` have the same stable ID.
pub open spec fn same_id<Id: PartialEq, Entry, Meta>(
    variants: Seq<KernelVariant<Id, Entry, Meta>>,
    i: int,
    j: int,
) -> bool {
    variants[i].key().eq_spec(&variants[j].key())
}

/// No member repeats the ID of an earlier one.
pub open spec fn distinct_ids<Id: PartialEq, Entry, Meta>(
    variants: Seq<KernelVariant<Id, Entry, Meta>>,
) -> bool {
    forall|i: int, j: int| 0 <= i < j < variants.len() ==> !#[trigger] same_id(variants, i, j)
}

/// `later` is the first member that repeats an ID, and `earlier` the first
/// member with that ID.
pub open spec fn first_duplicate<Id: PartialEq, Entry, Meta>(
    variants: Seq<KernelVariant<Id, Entry, Meta>>,
    earlier: int,
    later: int,
) -> bool {
    &&& 0 <= earlier < later < variants.len()
    &&& same_id(variants, earlier, later)
    &&& forall|i: int, j: int| 0 <= i < j < later ==> !#[trigger] same_id(variants, i, j)
    &&& forall|i: int| 0 <= i < earlier ==> !#[trigger] same_id(variants, i, later)
}

/// The first member with this ID stands at `index`.
pub open spec fn found_at<Id: PartialEq, Entry, Meta>(
    variants: Seq<KernelVariant<Id, Entry, Meta>>,
    id: Id,
    index: int,
) -> bool {
    &&& 0 <= index < variants.len()
    &&& variants[index].key().eq_spec(&id)
    &&& forall|i: int| 0 <= i < index ==> !(#[trigger] variants[i]).key().eq_spec(&id)
}

/// No member has this ID.
pub open spec fn not_found<Id: PartialEq, Entry, Meta>(
    variants: Seq<KernelVariant<Id, Entry, Meta>>,
    id: Id,
) -> bool {
    forall|i: int| 0 <= i < variants.len() ==> !(#[trigger] variants[i]).key().eq_spec(&id)
}

/// A lookup of this ID can give the member at `index`. Where a contract says what
/// `==` on IDs means, that is the first member with the ID.
pub open spec fn looked_up<Id: PartialEq, Entry, Meta>(
    variants: Seq<KernelVariant<Id, Entry, Meta>>,
    id: Id,
    index: int,
) -> bool {
    &&& 0 <= index < variants.len()
    &&& Id::obeys_eq_spec() ==> found_at(variants, id, index)
}

/// A lookup of this ID can miss. Where a contract says what `==` on IDs means, no
/// member then has the ID.
pub open spec fn missed<Id: PartialEq, Entry, Meta>(
    variants: Seq<KernelVariant<Id, Entry, Meta>>,
    id: Id,
) -> bool {
    Id::obeys_eq_spec() ==> not_found(variants, id)
}

/// A small, immutable set of ahead-of-time compiled kernel variants.
///
/// `N` is part of the type so library authors can expose a bounded menu of
/// supported kernels without runtime registration or JIT compilation.
#[derive(Clone, Debug, PartialEq, Eq)]
pub struct KernelFamily<Id, Entry, Meta, const N: usize> {
    id: KernelFamilyId,
    variants: [KernelVariant<Id, Entry, Meta>; N],
}

impl<Id, Entry, Meta, const N: usize> KernelFamily<Id, Entry, Meta, N> {
    /// The family's namespace.
    pub closed spec fn namespace(self) -> KernelFamilyId {
        self.id
    }

    /// The members, in declaration order.
    pub closed spec fn members(self) -> Seq<KernelVariant<Id, Entry, Meta>> {
        self.variants@
    }
}

impl<Id: Eq, Entry, Meta, const N: usize> KernelFamily<Id, Entry, Meta, N> {
    /// A family has members with distinct IDs and a name.
    pub open spec fn wf(self) -> bool {
        &&& self.members().len() == N
        &&& N > 0
        &&& !blank(self.namespace().family_name()@)
        &&& distinct_ids(self.members())
    }

    /// Creates a validated family.
    ///
    /// Variant IDs must be stable semantic values. Array indices, pointers,
    /// `TypeId`s, and formatted debug strings are not stable cache identities.
    pub fn try_new(
        name: &'static str,
        revision: u32,
        variants: [KernelVariant<Id, Entry, Meta>; N],
    ) -> (built: Result<KernelFamily<Id, Entry, Meta, N>, KernelFamilyBuildError>)
        ensures
            built == Err::<KernelFamily<Id, Entry, Meta, N>, KernelFamilyBuildError>(
                KernelFamilyBuildError::EmptyFamily,
            ) <==> N == 0,
            built == Err::<KernelFamily<Id, Entry, Meta, N>, KernelFamilyBuildError>(
                KernelFamilyBuildError::EmptyFamilyName,
            ) <==> N > 0 && blank(name@),
            N > 0 && !blank(name@) && Id::obeys_eq_spec() ==> match built {
                Ok(family) => family.wf(),
                Err(KernelFamilyBuildError::DuplicateVariantId { first_index, duplicate_index })
                    => first_duplicate(variants@, first_index as int, duplicate_index as int),
                _ => false,
            },
            built matches Ok(family) ==> {
                &&& family.members() == variants@
                &&& family.namespace().family_name() == name
                &&& family.namespace().family_revision() == revision
            },
    {
        if N == 0 {
            return Err(KernelFamilyBuildError::EmptyFamily);
        }
        if is_blank(name) {
            return Err(KernelFamilyBuildError::EmptyFamilyName);
        }
        let mut duplicate_index: usize = 1;
        while duplicate_index < N
            invariant
                N > 0,
                !blank(name@),
                1 <= duplicate_index <= N,
                variants@.len() == N,
                Id::obeys_eq_spec() ==> forall|i: int, j: int|
                    0 <= i < j < duplicate_index ==> !#[trigger] same_id(variants@, i, j),
            decreases N - duplicate_index,
        {
            let mut first_index: usize = 0;
            while first_index < duplicate_index
                invariant
                    N > 0,
                    !blank(name@),
                    first_index <= duplicate_index < N,
                    variants@.len() == N,
                    Id::obeys_eq_spec() ==> forall|i: int, j: int|
                        0 <= i < j < duplicate_index ==> !#[trigger] same_id(variants@, i, j),
                    Id::obeys_eq_spec() ==> forall|i: int|
                        0 <= i < first_index ==> !#[trigger] same_id(
                            variants@,
                            i,
                            duplicate_index as int,
                        ),
                decreases duplicate_index - first_index,
            {
                if variants[first_index].id == variants[duplicate_index].id {
                    return Err(
                        KernelFamilyBuildError::DuplicateVariantId { first_index, duplicate_index },
                    );
                }
                first_index += 1;
            }
            duplicate_index += 1;
        }
        Ok(KernelFamily { id: KernelFamilyId { name, revision }, variants })
    }

    /// Stable name and revision passed to cache and selector implementations.
    pub fn id(&self) -> (id: KernelFamilyId)
        ensures
            id == self.namespace(),
    {
        self.id
    }

    /// Variants in declaration order.
    pub fn variants(&self) -> (variants: &[KernelVariant<Id, Entry, Meta>; N])
        ensures
            variants@ == self.members(),
    {
        &self.variants
    }

    /// Looks up a variant by stable ID.
    pub fn get(&self, id: &Id) -> (found: Option<&KernelVariant<Id, Entry, Meta>>)
        ensures
            Id::obeys_eq_spec() ==> match found {
                Some(variant) => exists|index: int| #[trigger]
                    found_at(self.members(), *id, index) && *variant == self.members()[index],
                None => not_found(self.members(), *id),
            },
            match found {
                Some(variant) => exists|index: int| #[trigger]
                    looked_up(self.members(), *id, index) && *variant == self.members()[index],
                None => missed(self.members(), *id),
            },
            found matches Some(variant) ==> self.members().contains(*variant),
    {
        let mut index: usize = 0;
        while index < N
            invariant
                index <= N,
                self.variants@.len() == N,
                Id::obeys_eq_spec() ==> forall|i: int|
                    0 <= i < index ==> !(#[trigger] self.members()[i]).key().eq_spec(id),
            decreases N - index,
        {
            if self.variants[index].id() == id {
                proof {
                    assert(self.members()[index as int] == self.variants@[index as int]);
                    if Id::obeys_eq_spec() {
                        assert(found_at(self.members(), *id, index as int));
                    }
                    assert(looked_up(self.members(), *id, index as int));
                }
                return Some(&self.variants[index]);
            }
            index += 1;
        }
        None
    }
}

/// In a family, a lookup by a member's own ID finds that member and no other.
pub proof fn ids_name_their_variants<Id: Eq, Entry, Meta, const N: usize>(
    family: KernelFamily<Id, Entry, Meta, N>,
    index: int,
)
    requires
        family.wf(),
        0 <= index < family.members().len(),
        same_id(family.members(), index, index),
    ensures
        found_at(family.members(), family.members()[index].key(), index),
{
    assert forall|i: int| 0 <= i < index implies !(#[trigger] family.members()[i]).key().eq_spec(
        &family.members()[index].key(),
    ) by {
        assert(!same_id(family.members(), i, index));
    }
}

/// Problem-specific eligibility check for a compiled variant.
///
/// Implementations should be deterministic and side-effect free. Selection may
/// revalidate an untrusted cache entry before constructing the eligible list.
pub trait KernelProblem<Variant> {
    /// Why this variant cannot safely handle the problem. The thread-portable
    /// bound lets a complete selection error cross host worker/async boundaries.
    type Rejection: Send + Sync + 'static;

    /// `verdict` is an answer that `validate` can give for `variant`. Unless an
    /// implementation says more, any is.
    open spec fn judges(&self, variant: &Variant, verdict: Result<(), Self::Rejection>) -> bool {
        true
    }

    /// Returns `Ok(())` only when launching `variant` is valid for this problem.
    fn validate(&self, variant: &Variant) -> (verdict: Result<(), Self::Rejection>)
        ensures
            self.judges(variant, verdict),
    ;
}

/// Policy that chooses one ID from an already validated candidate slice.
pub trait KernelSelector<Problem, Variant, Id>: Sized {
    /// Selector failure unrelated to ordinary variant ineligibility. The
    /// thread-portable bound matches host worker/async selection use.
    type Error: Send + Sync + 'static;

    /// The selector can be asked. Unless an implementation says less, it always
    /// can.
    open spec fn accepts(
        before: Self,
        family: KernelFamilyId,
        problem: &Problem,
        eligible: Seq<&Variant>,
    ) -> bool {
        true
    }

    /// `choice` is an answer that `select` can give, and `after` the selector
    /// that it then leaves. Unless an implementation says more, any is.
    open spec fn chooses(
        before: Self,
        family: KernelFamilyId,
        problem: &Problem,
        eligible: Seq<&Variant>,
        choice: Result<Id, Self::Error>,
        after: Self,
    ) -> bool {
        true
    }

    /// Chooses a stable variant ID.
    ///
    /// `eligible` preserves family declaration order and is never empty.
    fn select(&mut self, family: KernelFamilyId, problem: &Problem, eligible: &[&Variant]) -> (choice:
        Result<Id, Self::Error>)
        requires
            Self::accepts(*old(self), family, problem, eligible@),
        ensures
            Self::chooses(*old(self), family, problem, eligible@, choice, *final(self)),
    ;
}

/// Cache adapter for automatic family selection.
///
/// Implementations must include both `family.name()` and `family.revision()` in
/// their key. Cached IDs are treated as untrusted hints: unknown or newly
/// ineligible values fall back to the selector and are overwritten.
/// Best-effort persistent adapters can translate I/O failures into misses or
/// no-op stores; an error returned from this trait deliberately stops selection.
pub trait KernelSelectionCache<Problem, Id>: Sized {
    /// Cache backend failure. The thread-portable bound matches host
    /// worker/async selection use.
    type Error: Send + Sync + 'static;

    /// `answer` is what a lookup can give, and `after` the cache that it then
    /// leaves. Unless an implementation says more, anything is.
    open spec fn recalls(
        before: Self,
        family: KernelFamilyId,
        problem: &Problem,
        answer: Result<Option<Id>, Self::Error>,
        after: Self,
    ) -> bool {
        true
    }

    /// `outcome` is what a store can report, and `after` the cache that it then
    /// leaves. Unless an implementation says more, anything is.
    open spec fn keeps(
        before: Self,
        family: KernelFamilyId,
        problem: &Problem,
        variant: &Id,
        outcome: Result<(), Self::Error>,
        after: Self,
    ) -> bool {
        true
    }

    /// Looks up a cached stable variant ID for this family/problem pair.
    fn lookup(&mut self, family: KernelFamilyId, problem: &Problem) -> (answer: Result<
        Option<Id>,
        Self::Error,
    >)
        ensures
            Self::recalls(*old(self), family, problem, answer, *final(self)),
    ;

    /// Stores a selector result after the family has revalidated it.
    fn store(&mut self, family: KernelFamilyId, problem: &Problem, variant: &Id) -> (outcome: Result<
        (),
        Self::Error,
    >)
        ensures
            Self::keeps(*old(self), family, problem, variant, outcome, *final(self)),
    ;
}

/// Cache adapter that always misses and never stores anything.
#[derive(Clone, Copy, Debug, PartialEq, Eq)]
pub struct NoKernelSelectionCache;

impl Default for NoKernelSelectionCache {
    fn default() -> (cache: NoKernelSelectionCache)
        ensures
            cache == NoKernelSelectionCache,
    {
        NoKernelSelectionCache
    }
}

impl<Problem, Id> KernelSelectionCache<Problem, Id> for NoKernelSelectionCache {
    type Error = Infallible;

    open spec fn recalls(
        before: NoKernelSelectionCache,
        family: KernelFamilyId,
        problem: &Problem,
        answer: Result<Option<Id>, Infallible>,
        after: NoKernelSelectionCache,
    ) -> bool {
        answer == Ok::<Option<Id>, Infallible>(None) && after == before
    }

    open spec fn keeps(
        before: NoKernelSelectionCache,
        family: KernelFamilyId,
        problem: &Problem,
        variant: &Id,
        outcome: Result<(), Infallible>,
        after: NoKernelSelectionCache,
    ) -> bool {
        outcome == Ok::<(), Infallible>(()) && after == before
    }

    fn lookup(&mut self, _family: KernelFamilyId, _problem: &Problem) -> (answer: Result<
        Option<Id>,
        Infallible,
    >) {
        Ok(None)
    }

    fn store(&mut self, _family: KernelFamilyId, _problem: &Problem, _variant: &Id) -> (outcome:
        Result<(), Infallible>) {
        Ok(())
    }
}

/// Whether selection is automatic or pinned by a caller override.
#[derive(Clone, Copy, Debug, PartialEq, Eq)]
pub enum SelectionMode<Id> {
    /// Consult the cache, then the selector.
    Auto,
    /// Require this stable variant ID. Cache and selector are bypassed.
    Force(Id),
}

/// Why a variant was selected.
#[derive(Clone, Copy, Debug, PartialEq, Eq, Structural)]
pub enum SelectionSource {
    /// An explicit [`SelectionMode::Force`] override.
    Override,
    /// A validated cache hit.
    Cache,
    /// The automatic selector.
    Selector,
}

impl SelectionSource {
    /// The source's name.
    pub open spec fn spelling(self) -> Seq<char> {
        match self {
            SelectionSource::Override => "override"@,
            SelectionSource::Cache => "cache"@,
            SelectionSource::Selector => "selector"@,
        }
    }

    /// The source's name.
    pub fn name(&self) -> (name: &'static str)
        ensures
            name@ == self.spelling(),
    {
        match self {
            SelectionSource::Override => "override",
            SelectionSource::Cache => "cache",
            SelectionSource::Selector => "selector",
        }
    }
}

/// Borrowed result of family selection.
#[derive(Debug, PartialEq, Eq)]
pub struct SelectedVariant<'family, Id, Entry, Meta> {
    variant: &'family KernelVariant<Id, Entry, Meta>,
    source: SelectionSource,
}

impl<Id, Entry, Meta> Copy for SelectedVariant<'_, Id, Entry, Meta> {

}

impl<Id, Entry, Meta> Clone for SelectedVariant<'_, Id, Entry, Meta> {
    fn clone(&self) -> (copy: Self)
        ensures
            copy == *self,
    {
        *self
    }
}

impl<'family, Id, Entry, Meta> SelectedVariant<'family, Id, Entry, Meta> {
    /// The selected variant.
    pub closed spec fn choice(self) -> KernelVariant<Id, Entry, Meta> {
        *self.variant
    }

    /// Where the choice came from.
    pub closed spec fn provenance(self) -> SelectionSource {
        self.source
    }

    /// Selected compiled variant.
    pub fn variant(&self) -> (variant: &'family KernelVariant<Id, Entry, Meta>)
        ensures
            *variant == self.choice(),
    {
        self.variant
    }

    /// Override, cache, or selector provenance.
    pub fn source(&self) -> (source: SelectionSource)
        ensures
            source == self.provenance(),
    {
        self.source
    }
}

/// Failure to select a valid member of a [`KernelFamily`].
#[derive(Debug, PartialEq, Eq)]
pub enum KernelSelectionError<Id, Rejection, SelectorError, CacheError> {
    /// Explicit override did not name a family member.
    UnknownForcedVariant {
        /// Unknown requested ID.
        id: Id,
    },
    /// Explicit override named a member that cannot handle this problem.
    IneligibleForcedVariant {
        /// Requested ID.
        id: Id,
        /// Problem-specific safety rejection.
        rejection: Rejection,
    },
    /// No compiled member can safely handle the problem.
    NoEligibleVariants {
        /// Family whose variants were checked.
        family: KernelFamilyId,
        /// Number of rejected compiled variants.
        variant_count: usize,
    },
    /// Selector itself failed.
    SelectorFailed(SelectorError),
    /// Selector returned an ID not owned by this family.
    SelectorReturnedUnknownVariant {
        /// Unknown returned ID.
        id: Id,
    },
    /// Selector returned a known ID that was not in its eligible input slice.
    SelectorReturnedIneligibleVariant {
        /// Ineligible returned ID.
        id: Id,
    },
    /// Cache backend could not perform its lookup.
    CacheLookupFailed(CacheError),
    /// Cache backend could not store a validated selector result.
    CacheStoreFailed(CacheError),
}

impl<Id, Rejection, SelectorError, CacheError> KernelSelectionError<
    Id,
    Rejection,
    SelectorError,
    CacheError,
> {
    /// The diagnostic, given the text of the ID and of the underlying failure
    /// that the error carries.
    pub open spec fn text(self, id_text: Seq<char>, cause: Seq<char>) -> Seq<char> {
        match self {
            KernelSelectionError::UnknownForcedVariant { .. } => "forced kernel variant "@ + id_text
                + " is not part of the family"@,
            KernelSelectionError::IneligibleForcedVariant { .. } => "forced kernel variant "@
                + id_text + " is ineligible: "@ + cause,
            KernelSelectionError::NoEligibleVariants { family, variant_count }
                => "no variant in kernel family "@ + family.text() + " is eligible ("@ + decimal(
                variant_count as nat,
            ) + " checked)"@,
            KernelSelectionError::SelectorFailed(_) => "kernel selector failed: "@ + cause,
            KernelSelectionError::SelectorReturnedUnknownVariant { .. }
                => "kernel selector returned unknown variant "@ + id_text,
            KernelSelectionError::SelectorReturnedIneligibleVariant { .. }
                => "kernel selector returned ineligible variant "@ + id_text,
            KernelSelectionError::CacheLookupFailed(_) => "kernel selection cache lookup failed: "@
                + cause,
            KernelSelectionError::CacheStoreFailed(_) => "kernel selection cache store failed: "@
                + cause,
        }
    }

    /// Renders the diagnostic. The caller renders the ID and the underlying
    /// failure, where the error carries one.
    pub fn message(&self, id_text: &str, cause: &str) -> (text: String)
        ensures
            text@ == self.text(id_text@, cause@),
    {
        match self {
            KernelSelectionError::UnknownForcedVariant { .. } => {
                let mut text = "forced kernel variant ".to_owned();
                text.append(id_text);
                text.append(" is not part of the family");
                text
            },
            KernelSelectionError::IneligibleForcedVariant { .. } => {
                let mut text = "forced kernel variant ".to_owned();
                text.append(id_text);
                text.append(" is ineligible: ");
                text.append(cause);
                text
            },
            KernelSelectionError::NoEligibleVariants { family, variant_count } => {
                let mut text = "no variant in kernel family ".to_owned();
                text.append(family.display().as_str());
                text.append(" is eligible (");
                push_decimal(&mut text, *variant_count as u64);
                text.append(" checked)");
                text
            },
            KernelSelectionError::SelectorFailed(_) => {
                let mut text = "kernel selector failed: ".to_owned();
                text.append(cause);
                text
            },
            KernelSelectionError::SelectorReturnedUnknownVariant { .. } => {
                let mut text = "kernel selector returned unknown variant ".to_owned();
                text.append(id_text);
                text
            },
            KernelSelectionError::SelectorReturnedIneligibleVariant { .. } => {
                let mut text = "kernel selector returned ineligible variant ".to_owned();
                text.append(id_text);
                text
            },
            KernelSelectionError::CacheLookupFailed(_) => {
                let mut text = "kernel selection cache lookup failed: ".to_owned();
                text.append(cause);
                text
            },
            KernelSelectionError::CacheStoreFailed(_) => {
                let mut text = "kernel selection cache store failed: ".to_owned();
                text.append(cause);
                text
            },
        }
    }
}

/// Result type returned by [`KernelFamily::select`].
pub type KernelSelectionResult<'family, Id, Entry, Meta, Problem, Selector, Cache> = Result<
    SelectedVariant<'family, Id, Entry, Meta>,
    KernelSelectionError<
        Id,
        <Problem as KernelProblem<KernelVariant<Id, Entry, Meta>>>::Rejection,
        <Selector as KernelSelector<Problem, KernelVariant<Id, Entry, Meta>, Id>>::Error,
        <Cache as KernelSelectionCache<Problem, Id>>::Error,
    >,
>;

impl<Problem, Variant, Id, SelectorError, F> KernelSelector<Problem, Variant, Id> for F where
    SelectorError: Send + Sync + 'static,
    F: FnMut(KernelFamilyId, &Problem, &[&Variant]) -> Result<Id, SelectorError>,
 {
    type Error = SelectorError;

    open spec fn accepts(
        before: F,
        family: KernelFamilyId,
        problem: &Problem,
        eligible: Seq<&Variant>,
    ) -> bool {
        forall|slice: &[&Variant]|
            slice@ == eligible ==> #[trigger] call_requires(before, (family, problem, slice))
    }

    open spec fn chooses(
        before: F,
        family: KernelFamilyId,
        problem: &Problem,
        eligible: Seq<&Variant>,
        choice: Result<Id, SelectorError>,
        after: F,
    ) -> bool {
        exists|slice: &[&Variant]|
            slice@ == eligible && #[trigger] call_ensures(before, (family, problem, slice), choice)
    }

    fn select(&mut self, family: KernelFamilyId, problem: &Problem, eligible: &[&Variant]) -> (choice:
        Result<Id, SelectorError>) {
        let ghost before = *self;
        assert(call_requires(before, (family, problem, eligible)));
        self(family, problem, eligible)
    }
}

/// The members whose verdict is `Ok`, in declaration order.
pub open spec fn approved<'a, V, R>(members: Seq<V>, verdicts: Seq<Result<(), R>>) -> Seq<&'a V>
    decreases members.len(),
{
    if members.len() == 0 {
        seq![]
    } else {
        let earlier = approved(members.drop_last(), verdicts.drop_last());
        if verdicts.last() is Ok {
            earlier.push(&members.last())
        } else {
            earlier
        }
    }
}

/// `eligible` lists the members that the problem accepts, in declaration order.
pub open spec fn eligible_members<V, Problem: KernelProblem<V>>(
    problem: &Problem,
    members: Seq<V>,
    eligible: Seq<&V>,
) -> bool {
    exists|verdicts: Seq<Result<(), Problem::Rejection>>|
        {
            &&& verdicts.len() == members.len()
            &&& forall|i: int|
                0 <= i < members.len() ==> problem.judges(&members[i], #[trigger] verdicts[i])
            &&& eligible == #[trigger] approved(members, verdicts)
        }
}

/// One of the listed variants has this ID.
pub open spec fn lists_id<Id: PartialEq, Entry, Meta>(
    eligible: Seq<&KernelVariant<Id, Entry, Meta>>,
    id: Id,
) -> bool {
    exists|k: int| 0 <= k < eligible.len() && (#[trigger] eligible[k]).key().eq_spec(&id)
}

/// What a forced selection gives, and nothing else is touched.
pub open spec fn forced<'family, Id: PartialEq, Entry, Meta, Problem, SelectorError, CacheError>(
    members: Seq<KernelVariant<Id, Entry, Meta>>,
    problem: &Problem,
    id: Id,
    result: Result<
        SelectedVariant<'family, Id, Entry, Meta>,
        KernelSelectionError<Id, Problem::Rejection, SelectorError, CacheError>,
    >,
) -> bool where Problem: KernelProblem<KernelVariant<Id, Entry, Meta>> {
    ||| {
        &&& missed(members, id)
        &&& result matches Err(KernelSelectionError::UnknownForcedVariant { id: unknown })
            && unknown == id
    }
    ||| exists|index: int, verdict: Result<(), Problem::Rejection>|
        {
            &&& #[trigger] looked_up(members, id, index)
            &&& #[trigger] problem.judges(&members[index], verdict)
            &&& match verdict {
                Ok(_) => result matches Ok(selected) && selected.choice() == members[index]
                    && selected.provenance() == SelectionSource::Override,
                Err(reason) => result matches Err(
                    KernelSelectionError::IneligibleForcedVariant { id: refused, rejection },
                ) && refused == id && rejection == reason,
            }
        }
}

/// The cached hint names a member that the problem accepts.
pub open spec fn usable_hint<Id: PartialEq, Entry, Meta, Problem>(
    members: Seq<KernelVariant<Id, Entry, Meta>>,
    problem: &Problem,
    hint: Option<Id>,
    index: int,
) -> bool where Problem: KernelProblem<KernelVariant<Id, Entry, Meta>> {
    &&& hint is Some
    &&& looked_up(members, hint.unwrap(), index)
    &&& problem.judges(&members[index], Ok(()))
}

/// The cached hint is missing, unknown or newly ineligible.
pub open spec fn stale_hint<Id: PartialEq, Entry, Meta, Problem>(
    members: Seq<KernelVariant<Id, Entry, Meta>>,
    problem: &Problem,
    hint: Option<Id>,
) -> bool where Problem: KernelProblem<KernelVariant<Id, Entry, Meta>> {
    match hint {
        None => true,
        Some(id) => {
            ||| missed(members, id)
            ||| exists|index: int, reason: Problem::Rejection| #[trigger]
                looked_up(members, id, index) && #[trigger] problem.judges(
                    &members[index],
                    Err(reason),
                )
        },
    }
}

/// What the selector's answer leads to.
pub open spec fn settled<'family, Id: PartialEq, Entry, Meta, Problem, SelectorError, Cache>(
    namespace: KernelFamilyId,
    members: Seq<KernelVariant<Id, Entry, Meta>>,
    problem: &Problem,
    eligible: Seq<&KernelVariant<Id, Entry, Meta>>,
    choice: Result<Id, SelectorError>,
    cache_before: Cache,
    cache_after: Cache,
    result: Result<
        SelectedVariant<'family, Id, Entry, Meta>,
        KernelSelectionError<Id, Problem::Rejection, SelectorError, Cache::Error>,
    >,
) -> bool where
    Problem: KernelProblem<KernelVariant<Id, Entry, Meta>>,
    Cache: KernelSelectionCache<Problem, Id>,
 {
    match choice {
        Err(failure) => {
            &&& result matches Err(KernelSelectionError::SelectorFailed(reported)) && reported
                == failure
            &&& cache_after == cache_before
        },
        Ok(id) => {
            ||| {
                &&& missed(members, id)
                &&& result matches Err(
                    KernelSelectionError::SelectorReturnedUnknownVariant { id: unknown },
                ) && unknown == id
                &&& cache_after == cache_before
            }
            ||| {
                &&& exists|index: int| #[trigger] looked_up(members, id, index)
                &&& Id::obeys_eq_spec() ==> !lists_id(eligible, id)
                &&& result matches Err(
                    KernelSelectionError::SelectorReturnedIneligibleVariant { id: refused },
                ) && refused == id
                &&& cache_after == cache_before
            }
            ||| exists|index: int, outcome: Result<(), Cache::Error>|
                {
                    &&& #[trigger] looked_up(members, id, index)
                    &&& Id::obeys_eq_spec() ==> lists_id(eligible, id)
                    &&& #[trigger] Cache::keeps(
                        cache_before,
                        namespace,
                        problem,
                        &id,
                        outcome,
                        cache_after,
                    )
                    &&& match outcome {
                        Ok(_) => result matches Ok(selected) && selected.choice() == members[index]
                            && selected.provenance() == SelectionSource::Selector,
                        Err(failure) => result matches Err(
                            KernelSelectionError::CacheStoreFailed(reported),
                        ) && reported == failure,
                    }
                }
        },
    }
}

/// What an automatic selection does after a cache miss: nobody is asked where
/// nothing is eligible, else the selector chooses among the eligible members.
pub open spec fn chosen<'family, Id: PartialEq, Entry, Meta, Problem, Selector, Cache>(
    namespace: KernelFamilyId,
    members: Seq<KernelVariant<Id, Entry, Meta>>,
    problem: &Problem,
    selector_before: Selector,
    selector_after: Selector,
    cache_before: Cache,
    cache_after: Cache,
    result: Result<
        SelectedVariant<'family, Id, Entry, Meta>,
        KernelSelectionError<Id, Problem::Rejection, Selector::Error, Cache::Error>,
    >,
) -> bool where
    Problem: KernelProblem<KernelVariant<Id, Entry, Meta>>,
    Selector: KernelSelector<Problem, KernelVariant<Id, Entry, Meta>, Id>,
    Cache: KernelSelectionCache<Problem, Id>,
 {
    exists|eligible: Seq<&KernelVariant<Id, Entry, Meta>>|
        {
            &&& #[trigger] eligible_members(problem, members, eligible)
            &&& if eligible.len() == 0 {
                &&& result matches Err(
                    KernelSelectionError::NoEligibleVariants { family, variant_count },
                ) && family == namespace && variant_count == members.len()
                &&& selector_after == selector_before
                &&& cache_after == cache_before
            } else {
                exists|choice: Result<Id, Selector::Error>|
                    {
                        &&& #[trigger] Selector::chooses(
                            selector_before,
                            namespace,
                            problem,
                            eligible,
                            choice,
                            selector_after,
                        )
                        &&& settled(
                            namespace,
                            members,
                            problem,
                            eligible,
                            choice,
                            cache_before,
                            cache_after,
                            result,
                        )
                    }
            }
        }
}

/// What an automatic selection does.
pub open spec fn automatic<'family, Id: PartialEq, Entry, Meta, Problem, Selector, Cache>(
    namespace: KernelFamilyId,
    members: Seq<KernelVariant<Id, Entry, Meta>>,
    problem: &Problem,
    selector_before: Selector,
    selector_after: Selector,
    cache_before: Cache,
    cache_after: Cache,
    result: Result<
        SelectedVariant<'family, Id, Entry, Meta>,
        KernelSelectionError<Id, Problem::Rejection, Selector::Error, Cache::Error>,
    >,
) -> bool where
    Problem: KernelProblem<KernelVariant<Id, Entry, Meta>>,
    Selector: KernelSelector<Problem, KernelVariant<Id, Entry, Meta>, Id>,
    Cache: KernelSelectionCache<Problem, Id>,
 {
    exists|answer: Result<Option<Id>, Cache::Error>, cache_read: Cache|
        {
            &&& #[trigger] Cache::recalls(
                cache_before,
                namespace,
                problem,
                answer,
                cache_read,
            )
            &&& match answer {
                Err(failure) => {
                    &&& result matches Err(KernelSelectionError::CacheLookupFailed(reported))
                        && reported == failure
                    &&& selector_after == selector_before
                    &&& cache_after == cache_read
                },
                Ok(hint) => {
                    ||| exists|index: int|
                        {
                            &&& #[trigger] usable_hint(members, problem, hint, index)
                            &&& result matches Ok(selected) && selected.choice() == members[index]
                                && selected.provenance() == SelectionSource::Cache
                            &&& selector_after == selector_before
                            &&& cache_after == cache_read
                        }
                    ||| {
                        &&& stale_hint(members, problem, hint)
                        &&& chosen(
                            namespace,
                            members,
                            problem,
                            selector_before,
                            selector_after,
                            cache_read,
                            cache_after,
                            result,
                        )
                    }
                },
            }
        }
}

impl<Id: Eq, Entry, Meta, const N: usize> KernelFamily<Id, Entry, Meta, N> {
    /// Selects a valid variant with explicit provenance.
    ///
    /// `Force` bypasses both cache and selector. `Auto` validates cache hits,
    /// treats stale/unknown/ineligible IDs as misses, then gives the selector
    /// only eligible variants. Selector output is checked again before storage.
    pub fn select<'family, Problem, Selector, Cache>(
        &'family self,
        problem: &Problem,
        mode: SelectionMode<Id>,
        selector: &mut Selector,
        cache: &mut Cache,
    ) -> (result: KernelSelectionResult<'family, Id, Entry, Meta, Problem, Selector, Cache>) where
        Problem: KernelProblem<KernelVariant<Id, Entry, Meta>>,
        Selector: KernelSelector<Problem, KernelVariant<Id, Entry, Meta>, Id>,
        Cache: KernelSelectionCache<Problem, Id>,

        requires
            forall|eligible: Seq<&KernelVariant<Id, Entry, Meta>>|
                eligible.len() > 0 ==> #[trigger] Selector::accepts(
                    *old(selector),
                    self.namespace(),
                    problem,
                    eligible,
                ),
        ensures
            mode is Force ==> *final(selector) == *old(selector) && *final(cache) == *old(cache),
            match mode {
                SelectionMode::Force(id) => forced(self.members(), problem, id, result),
                SelectionMode::Auto => automatic(
                    self.namespace(),
                    self.members(),
                    problem,
                    *old(selector),
                    *final(selector),
                    *old(cache),
                    *final(cache),
                    result,
                ),
            },
            result matches Ok(selected) ==> self.members().contains(selected.choice()),
            result matches Ok(selected) ==> match mode {
                SelectionMode::Force(_) => selected.provenance() == SelectionSource::Override,
                SelectionMode::Auto => selected.provenance() == SelectionSource::Cache
                    || selected.provenance() == SelectionSource::Selector,
            },
    {
        if let SelectionMode::Force(id) = mode {
            let variant = match self.get(&id) {
                Some(variant) => variant,
                None => {
                    return Err(KernelSelectionError::UnknownForcedVariant { id });
                },
            };
            return match problem.validate(variant) {
                Ok(()) => Ok(SelectedVariant { variant, source: SelectionSource::Override }),
                Err(rejection) => Err(
                    KernelSelectionError::IneligibleForcedVariant { id, rejection },
                ),
            };
        }
        let hint = match cache.lookup(self.id, problem) {
            Ok(hint) => hint,
            Err(failure) => {
                return Err(KernelSelectionError::CacheLookupFailed(failure));
            },
        };
        let ghost cache_read = *cache;
        let ghost answer: Result<Option<Id>, Cache::Error> = Ok(hint);
        assert(Cache::recalls(*old(cache), self.namespace(), problem, answer, cache_read));
        if let Some(cached_id) = &hint {
            if let Some(variant) = self.get(cached_id) {
                let verdict = problem.validate(variant);
                match verdict {
                    Ok(unit) => {
                        proof {
                            assert(unit == ());
                            let index = choose|index: int| #[trigger]
                                looked_up(self.members(), *cached_id, index) && *variant
                                    == self.members()[index];
                            assert(usable_hint(self.members(), problem, hint, index));
                        }
                        return Ok(SelectedVariant { variant, source: SelectionSource::Cache });
                    },
                    Err(reason) => {
                        proof {
                            let index = choose|index: int| #[trigger]
                                looked_up(self.members(), *cached_id, index) && *variant
                                    == self.members()[index];
                            assert(problem.judges(&self.members()[index], Err(reason)));
                        }
                    },
                }
            }
        }
        assert(stale_hint(self.members(), problem, hint));
        if N == 0 {
            proof {
                let none = Seq::<Result<(), Problem::Rejection>>::empty();
                let empty = Seq::<&KernelVariant<Id, Entry, Meta>>::empty();
                assert(self.members().len() == 0);
                assert(empty == approved(self.members(), none));
                assert(eligible_members(problem, self.members(), empty));
            }
            return Err(
                KernelSelectionError::NoEligibleVariants { family: self.id, variant_count: N },
            );
        }
        // Keep automatic selection allocation-free: the family is already a
        // fixed array, so compact eligible references into another fixed array
        // while preserving declaration order.
        let mut compacted: [&KernelVariant<Id, Entry, Meta>; N] = array_fill_for_copy_types(
            &self.variants[0],
        );
        let mut eligible_count: usize = 0;
        let mut index: usize = 0;
        let ghost mut verdicts: Seq<Result<(), Problem::Rejection>> = seq![];
        while index < N
            invariant
                eligible_count <= index <= N,
                self.members().len() == N,
                self.members() == self.variants@,
                compacted@.len() == N,
                verdicts.len() == index,
                forall|i: int|
                    0 <= i < index ==> problem.judges(&self.members()[i], #[trigger] verdicts[i]),
                compacted@.take(eligible_count as int) == approved(
                    self.members().take(index as int),
                    verdicts,
                ),
            decreases N - index,
        {
            let candidate = &self.variants[index];
            let verdict = problem.validate(candidate);
            proof {
                let seen = self.members().take(index + 1);
                assert(seen.drop_last() =~= self.members().take(index as int));
                assert(verdicts.push(verdict).drop_last() =~= verdicts);
                verdicts = verdicts.push(verdict);
            }
            if verdict.is_ok() {
                let ghost before = compacted@;
                compacted[eligible_count] = candidate;
                assert(compacted@.take(eligible_count + 1) =~= before.take(
                    eligible_count as int,
                ).push(candidate));
                eligible_count += 1;
            }
            index += 1;
        }
        let eligible = slice_subrange(array_as_slice(&compacted), 0, eligible_count);
        proof {
            assert(self.members().take(N as int) =~= self.members());
            assert(eligible@ =~= compacted@.take(eligible_count as int));
            assert(eligible@ == approved(self.members(), verdicts));
            assert(eligible_members(problem, self.members(), eligible@));
        }
        if eligible.len() == 0 {
            return Err(
                KernelSelectionError::NoEligibleVariants { family: self.id, variant_count: N },
            );
        }
        let choice = selector.select(self.id, problem, eligible);
        assert(Selector::chooses(
            *old(selector),
            self.namespace(),
            problem,
            eligible@,
            choice,
            *selector,
        ));
        let selected_id = match choice {
            Ok(id) => id,
            Err(failure) => {
                return Err(KernelSelectionError::SelectorFailed(failure));
            },
        };
        let selected = match self.get(&selected_id) {
            Some(variant) => variant,
            None => {
                return Err(
                    KernelSelectionError::SelectorReturnedUnknownVariant { id: selected_id },
                );
            },
        };
        if !contains_id(eligible, &selected_id) {
            return Err(
                KernelSelectionError::SelectorReturnedIneligibleVariant { id: selected_id },
            );
        }
        match cache.store(self.id, problem, &selected_id) {
            Ok(()) => Ok(
                SelectedVariant { variant: selected, source: SelectionSource::Selector },
            ),
            Err(failure) => Err(KernelSelectionError::CacheStoreFailed(failure)),
        }
    }
}

fn contains_id<Id: Eq, Entry, Meta>(
    eligible: &[&KernelVariant<Id, Entry, Meta>],
    id: &Id,
) -> (found: bool)
    ensures
        Id::obeys_eq_spec() ==> found == lists_id(eligible@, *id),
{
    for k in 0..eligible.len()
        invariant
            Id::obeys_eq_spec() ==> forall|j: int|
                0 <= j < k ==> !(#[trigger] eligible@[j]).key().eq_spec(id),
    {
        if eligible[k].id() == id {
            assert(Id::obeys_eq_spec() ==> eligible@[k as int].key().eq_spec(id));
            return true;
        }
    }
    false
}

/// `positions` are increasing positions in `members`, one for each entry.
pub open spec fn in_declaration_order<V>(
    members: Seq<V>,
    eligible: Seq<&V>,
    positions: Seq<int>,
) -> bool {
    &&& positions.len() == eligible.len()
    &&& forall|k: int|
        0 <= k < positions.len() ==> 0 <= #[trigger] positions[k] < members.len()
            && *eligible[k] == members[positions[k]]
    &&& forall|j: int, k: int|
        0 <= j < k < positions.len() ==> #[trigger] positions[j] < #[trigger] positions[k]
}

/// The selector sees eligible members only, and in declaration order.
pub proof fn eligible_members_keep_declaration_order<V, Problem: KernelProblem<V>>(
    problem: &Problem,
    members: Seq<V>,
    eligible: Seq<&V>,
)
    requires
        eligible_members(problem, members, eligible),
    ensures
        exists|positions: Seq<int>| #[trigger] in_declaration_order(members, eligible, positions),
        forall|k: int| 0 <= k < eligible.len() ==> problem.judges(#[trigger] eligible[k], Ok(())),
{
    let verdicts = choose|verdicts: Seq<Result<(), Problem::Rejection>>|
        {
            &&& verdicts.len() == members.len()
            &&& forall|i: int|
                0 <= i < members.len() ==> problem.judges(&members[i], #[trigger] verdicts[i])
            &&& eligible == #[trigger] approved(members, verdicts)
        };
    let positions = lemma_approved_order(members, verdicts);
    assert(in_declaration_order(members, eligible, positions));
    assert forall|k: int| 0 <= k < eligible.len() implies problem.judges(
        #[trigger] eligible[k],
        Ok(()),
    ) by {
        let i = positions[k];
        assert(problem.judges(&members[i], verdicts[i]));
        match verdicts[i] {
            Ok(unit) => {
                assert(unit == ());
            },
            Err(_) => {},
        }
    }
}

proof fn lemma_approved_order<V, R>(members: Seq<V>, verdicts: Seq<Result<(), R>>) -> (positions:
    Seq<int>)
    requires
        members.len() == verdicts.len(),
    ensures
        in_declaration_order(members, approved(members, verdicts), positions),
        forall|k: int| 0 <= k < positions.len() ==> verdicts[#[trigger] positions[k]] is Ok,
    decreases members.len(),
{
    if members.len() == 0 {
        Seq::empty()
    } else {
        let earlier = lemma_approved_order(members.drop_last(), verdicts.drop_last());
        if verdicts.last() is Ok {
            earlier.push(members.len() - 1)
        } else {
            earlier
        }
    }
}

/// Equality of IDs is symmetric and transitive.
pub open spec fn lawful_ids<Id: PartialEq>() -> bool {
    &&& Id::obeys_eq_spec()
    &&& forall|a: Id, b: Id| #[trigger] a.eq_spec(&b) ==> b.eq_spec(&a)
    &&& forall|a: Id, b: Id, c: Id|
        #[trigger] a.eq_spec(&b) && #[trigger] b.eq_spec(&c) ==> a.eq_spec(&c)
}

/// Whatever the cache and the selector answer, a selection that succeeds gives
/// a member of the family that the problem accepted.
#[verifier::rlimit(50)]
pub proof fn selection_is_always_eligible<'family, Id, Entry, Meta, Problem, Selector, Cache, const
    N: usize>(
    family: KernelFamily<Id, Entry, Meta, N>,
    problem: &Problem,
    mode: SelectionMode<Id>,
    selector_before: Selector,
    selector_after: Selector,
    cache_before: Cache,
    cache_after: Cache,
    selected: SelectedVariant<'family, Id, Entry, Meta>,
) where
    Id: Eq,
    Problem: KernelProblem<KernelVariant<Id, Entry, Meta>>,
    Selector: KernelSelector<Problem, KernelVariant<Id, Entry, Meta>, Id>,
    Cache: KernelSelectionCache<Problem, Id>,

    requires
        family.wf(),
        lawful_ids::<Id>(),
        match mode {
            SelectionMode::Force(id) => forced::<
                Id,
                Entry,
                Meta,
                Problem,
                Selector::Error,
                Cache::Error,
            >(family.members(), problem, id, Ok(selected)),
            SelectionMode::Auto => automatic(
                family.namespace(),
                family.members(),
                problem,
                selector_before,
                selector_after,
                cache_before,
                cache_after,
                Ok(selected),
            ),
        },
    ensures
        family.members().contains(selected.choice()),
        problem.judges(&selected.choice(), Ok(())),
        mode is Force <==> selected.provenance() == SelectionSource::Override,
{
    let members = family.members();
    match mode {
        SelectionMode::Force(id) => {
            let (index, verdict) = choose|index: int, verdict: Result<(), Problem::Rejection>|
                {
                    &&& #[trigger] looked_up(members, id, index)
                    &&& #[trigger] problem.judges(&members[index], verdict)
                    &&& verdict is Ok
                    &&& selected.choice() == members[index]
                    &&& selected.provenance() == SelectionSource::Override
                };
            match verdict {
                Ok(unit) => {
                    assert(unit == ());
                },
                Err(_) => {},
            }
        },
        SelectionMode::Auto => {
            let (answer, cache_read) = choose|
                answer: Result<Option<Id>, Cache::Error>,
                cache_read: Cache,
            |
                {
                    &&& #[trigger] Cache::recalls(
                        cache_before,
                        family.namespace(),
                        problem,
                        answer,
                        cache_read,
                    )
                    &&& answer is Ok
                    &&& {
                        ||| exists|index: int|
                            {
                                &&& #[trigger] usable_hint(
                                    members,
                                    problem,
                                    answer->Ok_0,
                                    index,
                                )
                                &&& selected.choice() == members[index]
                                &&& selected.provenance() == SelectionSource::Cache
                            }
                        ||| chosen::<Id, Entry, Meta, Problem, Selector, Cache>(
                            family.namespace(),
                            members,
                            problem,
                            selector_before,
                            selector_after,
                            cache_read,
                            cache_after,
                            Ok(selected),
                        )
                    }
                };
            let hint = answer->Ok_0;
            if exists|index: int|
                {
                    &&& #[trigger] usable_hint(members, problem, hint, index)
                    &&& selected.choice() == members[index]
                    &&& selected.provenance() == SelectionSource::Cache
                } {
            } else {
                lemma_chosen_is_eligible::<Id, Entry, Meta, Problem, Selector, Cache>(
                    family.namespace(),
                    members,
                    problem,
                    selector_before,
                    selector_after,
                    cache_read,
                    cache_after,
                    selected,
                );
            }
        },
    }
}

#[verifier::rlimit(50)]
proof fn lemma_chosen_is_eligible<'family, Id, Entry, Meta, Problem, Selector, Cache>(
    namespace: KernelFamilyId,
    members: Seq<KernelVariant<Id, Entry, Meta>>,
    problem: &Problem,
    selector_before: Selector,
    selector_after: Selector,
    cache_before: Cache,
    cache_after: Cache,
    selected: SelectedVariant<'family, Id, Entry, Meta>,
) where
    Id: Eq,
    Problem: KernelProblem<KernelVariant<Id, Entry, Meta>>,
    Selector: KernelSelector<Problem, KernelVariant<Id, Entry, Meta>, Id>,
    Cache: KernelSelectionCache<Problem, Id>,

    requires
        lawful_ids::<Id>(),
        distinct_ids(members),
        chosen::<Id, Entry, Meta, Problem, Selector, Cache>(
            namespace,
            members,
            problem,
            selector_before,
            selector_after,
            cache_before,
            cache_after,
            Ok(selected),
        ),
    ensures
        members.contains(selected.choice()),
        problem.judges(&selected.choice(), Ok(())),
        selected.provenance() == SelectionSource::Selector,
{
    let eligible = choose|eligible: Seq<&KernelVariant<Id, Entry, Meta>>|
        {
            &&& #[trigger] eligible_members(problem, members, eligible)
            &&& eligible.len() > 0
            &&& exists|choice: Result<Id, Selector::Error>|
                {
                    &&& #[trigger] Selector::chooses(
                        selector_before,
                        namespace,
                        problem,
                        eligible,
                        choice,
                        selector_after,
                    )
                    &&& settled::<Id, Entry, Meta, Problem, Selector::Error, Cache>(
                        namespace,
                        members,
                        problem,
                        eligible,
                        choice,
                        cache_before,
                        cache_after,
                        Ok(selected),
                    )
                }
        };
    let choice = choose|choice: Result<Id, Selector::Error>|
        {
            &&& #[trigger] Selector::chooses(
                selector_before,
                namespace,
                problem,
                eligible,
                choice,
                selector_after,
            )
            &&& settled::<Id, Entry, Meta, Problem, Selector::Error, Cache>(
                namespace,
                members,
                problem,
                eligible,
                choice,
                cache_before,
                cache_after,
                Ok(selected),
            )
        };
    eligible_members_keep_declaration_order(problem, members, eligible);
    let positions = choose|positions: Seq<int>| #[trigger]
        in_declaration_order(members, eligible, positions);
    let id = choice->Ok_0;
    let k = choose|k: int| 0 <= k < eligible.len() && (#[trigger] eligible[k]).key().eq_spec(&id);
    let index = choose|index: int| #[trigger]
        looked_up(members, id, index) && selected.choice() == members[index];
    let listed = positions[k];
    assert(members[listed].key().eq_spec(&id));
    assert(id.eq_spec(&members[listed].key()));
    assert(id.eq_spec(&members[index].key()));
    if index < listed {
        assert(same_id(members, index, listed));
    } else if listed < index {
        assert(same_id(members, listed, index));
    }
    assert(index == listed);
}

/// The selection is what the cache recalled: the hint that one lookup gave names
/// a member that the problem accepts. The selector is not asked and nothing is
/// stored.
pub open spec fn cache_answered<'family, Id: PartialEq, Entry, Meta, Problem, Selector, Cache>(
    namespace: KernelFamilyId,
    members: Seq<KernelVariant<Id, Entry, Meta>>,
    problem: &Problem,
    selector_before: Selector,
    selector_after: Selector,
    cache_before: Cache,
    cache_after: Cache,
    selected: SelectedVariant<'family, Id, Entry, Meta>,
) -> bool where
    Problem: KernelProblem<KernelVariant<Id, Entry, Meta>>,
    Selector: KernelSelector<Problem, KernelVariant<Id, Entry, Meta>, Id>,
    Cache: KernelSelectionCache<Problem, Id>,
 {
    &&& selector_after == selector_before
    &&& exists|hint: Option<Id>, index: int|
        {
            &&& #[trigger] Cache::recalls(
                cache_before,
                namespace,
                problem,
                Ok(hint),
                cache_after,
            )
            &&& #[trigger] usable_hint(members, problem, hint, index)
            &&& selected.choice() == members[index]
        }
}

/// The selection is what the selector chose: one lookup gave no usable hint, the
/// selector was asked once, with the eligible members, and the ID that it gave was
/// stored once, with success.
pub open spec fn selector_answered<'family, Id: PartialEq, Entry, Meta, Problem, Selector, Cache>(
    namespace: KernelFamilyId,
    members: Seq<KernelVariant<Id, Entry, Meta>>,
    problem: &Problem,
    selector_before: Selector,
    selector_after: Selector,
    cache_before: Cache,
    cache_after: Cache,
    selected: SelectedVariant<'family, Id, Entry, Meta>,
) -> bool where
    Problem: KernelProblem<KernelVariant<Id, Entry, Meta>>,
    Selector: KernelSelector<Problem, KernelVariant<Id, Entry, Meta>, Id>,
    Cache: KernelSelectionCache<Problem, Id>,
 {
    exists|hint: Option<Id>, cache_read: Cache|
        {
            &&& #[trigger] Cache::recalls(
                cache_before,
                namespace,
                problem,
                Ok(hint),
                cache_read,
            )
            &&& stale_hint(members, problem, hint)
            &&& asked_and_stored(
                namespace,
                members,
                problem,
                selector_before,
                selector_after,
                cache_read,
                cache_after,
                selected,
            )
        }
}

/// The selector chose an ID among the eligible members, a lookup of it gave the
/// selection, and the cache stored it.
pub open spec fn asked_and_stored<'family, Id: PartialEq, Entry, Meta, Problem, Selector, Cache>(
    namespace: KernelFamilyId,
    members: Seq<KernelVariant<Id, Entry, Meta>>,
    problem: &Problem,
    selector_before: Selector,
    selector_after: Selector,
    cache_before: Cache,
    cache_after: Cache,
    selected: SelectedVariant<'family, Id, Entry, Meta>,
) -> bool where
    Problem: KernelProblem<KernelVariant<Id, Entry, Meta>>,
    Selector: KernelSelector<Problem, KernelVariant<Id, Entry, Meta>, Id>,
    Cache: KernelSelectionCache<Problem, Id>,
 {
    exists|eligible: Seq<&KernelVariant<Id, Entry, Meta>>, id: Id, index: int|
        {
            &&& #[trigger] eligible_members(problem, members, eligible)
            &&& eligible.len() > 0
            &&& Selector::chooses(
                selector_before,
                namespace,
                problem,
                eligible,
                Ok(id),
                selector_after,
            )
            &&& #[trigger] looked_up(members, id, index)
            &&& selected.choice() == members[index]
            &&& Cache::keeps(cache_before, namespace, problem, &id, Ok(()), cache_after)
        }
}

/// The reported source says how a selection came about: an override for a forced
/// selection and for no other, the cache where the selector was not asked, and
/// the selector where it was asked once and its choice was stored. This does not
/// depend on what `==` on IDs means.
#[verifier::rlimit(50)]
pub proof fn sources_say_how_the_selection_came_about<
    'family,
    Id,
    Entry,
    Meta,
    Problem,
    Selector,
    Cache,
>(
    namespace: KernelFamilyId,
    members: Seq<KernelVariant<Id, Entry, Meta>>,
    problem: &Problem,
    mode: SelectionMode<Id>,
    selector_before: Selector,
    selector_after: Selector,
    cache_before: Cache,
    cache_after: Cache,
    selected: SelectedVariant<'family, Id, Entry, Meta>,
) where
    Id: PartialEq,
    Problem: KernelProblem<KernelVariant<Id, Entry, Meta>>,
    Selector: KernelSelector<Problem, KernelVariant<Id, Entry, Meta>, Id>,
    Cache: KernelSelectionCache<Problem, Id>,

    requires
        match mode {
            SelectionMode::Force(id) => forced::<
                Id,
                Entry,
                Meta,
                Problem,
                Selector::Error,
                Cache::Error,
            >(members, problem, id, Ok(selected)),
            SelectionMode::Auto => automatic(
                namespace,
                members,
                problem,
                selector_before,
                selector_after,
                cache_before,
                cache_after,
                Ok(selected),
            ),
        },
    ensures
        selected.provenance() == SelectionSource::Override <==> mode is Force,
        selected.provenance() == SelectionSource::Cache ==> cache_answered(
            namespace,
            members,
            problem,
            selector_before,
            selector_after,
            cache_before,
            cache_after,
            selected,
        ),
        selected.provenance() == SelectionSource::Selector ==> selector_answered(
            namespace,
            members,
            problem,
            selector_before,
            selector_after,
            cache_before,
            cache_after,
            selected,
        ),
{
    if mode is Auto {
        let (answer, cache_read) = choose|
            answer: Result<Option<Id>, Cache::Error>,
            cache_read: Cache,
        |
            {
                &&& #[trigger] Cache::recalls(
                    cache_before,
                    namespace,
                    problem,
                    answer,
                    cache_read,
                )
                &&& answer is Ok
                &&& {
                    ||| exists|index: int|
                        {
                            &&& #[trigger] usable_hint(members, problem, answer->Ok_0, index)
                            &&& selected.choice() == members[index]
                            &&& selected.provenance() == SelectionSource::Cache
                            &&& selector_after == selector_before
                            &&& cache_after == cache_read
                        }
                    ||| {
                        &&& stale_hint(members, problem, answer->Ok_0)
                        &&& chosen::<Id, Entry, Meta, Problem, Selector, Cache>(
                            namespace,
                            members,
                            problem,
                            selector_before,
                            selector_after,
                            cache_read,
                            cache_after,
                            Ok(selected),
                        )
                    }
                }
            };
        let hint = answer->Ok_0;
        assert(answer == Ok::<Option<Id>, Cache::Error>(hint));
        if exists|index: int|
            {
                &&& #[trigger] usable_hint(members, problem, hint, index)
                &&& selected.choice() == members[index]
                &&& selected.provenance() == SelectionSource::Cache
                &&& selector_after == selector_before
                &&& cache_after == cache_read
            } {
        } else {
            lemma_chosen_was_asked_and_stored::<Id, Entry, Meta, Problem, Selector, Cache>(
                namespace,
                members,
                problem,
                selector_before,
                selector_after,
                cache_read,
                cache_after,
                selected,
            );
        }
    }
}

#[verifier::rlimit(50)]
proof fn lemma_chosen_was_asked_and_stored<'family, Id, Entry, Meta, Problem, Selector, Cache>(
    namespace: KernelFamilyId,
    members: Seq<KernelVariant<Id, Entry, Meta>>,
    problem: &Problem,
    selector_before: Selector,
    selector_after: Selector,
    cache_before: Cache,
    cache_after: Cache,
    selected: SelectedVariant<'family, Id, Entry, Meta>,
) where
    Id: PartialEq,
    Problem: KernelProblem<KernelVariant<Id, Entry, Meta>>,
    Selector: KernelSelector<Problem, KernelVariant<Id, Entry, Meta>, Id>,
    Cache: KernelSelectionCache<Problem, Id>,

    requires
        chosen::<Id, Entry, Meta, Problem, Selector, Cache>(
            namespace,
            members,
            problem,
            selector_before,
            selector_after,
            cache_before,
            cache_after,
            Ok(selected),
        ),
    ensures
        asked_and_stored(
            namespace,
            members,
            problem,
            selector_before,
            selector_after,
            cache_before,
            cache_after,
            selected,
        ),
        selected.provenance() == SelectionSource::Selector,
{
    let (eligible, choice) = choose|
        eligible: Seq<&KernelVariant<Id, Entry, Meta>>,
        choice: Result<Id, Selector::Error>,
    |
        {
            &&& #[trigger] eligible_members(problem, members, eligible)
            &&& eligible.len() > 0
            &&& #[trigger] Selector::chooses(
                selector_before,
                namespace,
                problem,
                eligible,
                choice,
                selector_after,
            )
            &&& settled::<Id, Entry, Meta, Problem, Selector::Error, Cache>(
                namespace,
                members,
                problem,
                eligible,
                choice,
                cache_before,
                cache_after,
                Ok(selected),
            )
        };
    let id = choice->Ok_0;
    assert(choice == Ok::<Id, Selector::Error>(id));
    let (index, outcome) = choose|index: int, outcome: Result<(), Cache::Error>|
        {
            &&& #[trigger] looked_up(members, id, index)
            &&& #[trigger] Cache::keeps(
                cache_before,
                namespace,
                problem,
                &id,
                outcome,
                cache_after,
            )
            &&& outcome is Ok
            &&& selected.choice() == members[index]
            &&& selected.provenance() == SelectionSource::Selector
        };
    assert(outcome->Ok_0 == ());
    assert(outcome == Ok::<(), Cache::Error>(()));
    assert(looked_up(members, id, index));
}

/// The selector was asked with members that the problem accepts, at least one,
/// and gave this answer.
pub open spec fn selector_was_asked<Id: PartialEq, Entry, Meta, Problem, Selector>(
    namespace: KernelFamilyId,
    members: Seq<KernelVariant<Id, Entry, Meta>>,
    problem: &Problem,
    selector_before: Selector,
    selector_after: Selector,
    choice: Result<Id, Selector::Error>,
) -> bool where
    Problem: KernelProblem<KernelVariant<Id, Entry, Meta>>,
    Selector: KernelSelector<Problem, KernelVariant<Id, Entry, Meta>, Id>,
 {
    exists|eligible: Seq<&KernelVariant<Id, Entry, Meta>>|
        {
            &&& #[trigger] eligible_members(problem, members, eligible)
            &&& eligible.len() > 0
            &&& Selector::chooses(
                selector_before,
                namespace,
                problem,
                eligible,
                choice,
                selector_after,
            )
        }
}

/// An automatic selection fails only for the reason that the error gives: the
/// cache could not be read, no member is eligible, the selector failed or gave
/// an ID that is unknown or was not offered, or its choice could not be stored.
/// A cache that was read or written to no avail is the one that is left, and a
/// selector that was not asked is as before.
#[verifier::rlimit(50)]
pub proof fn failed_selections_say_why<'family, Id, Entry, Meta, Problem, Selector, Cache>(
    namespace: KernelFamilyId,
    members: Seq<KernelVariant<Id, Entry, Meta>>,
    problem: &Problem,
    selector_before: Selector,
    selector_after: Selector,
    cache_before: Cache,
    cache_after: Cache,
    error: KernelSelectionError<Id, Problem::Rejection, Selector::Error, Cache::Error>,
) where
    Id: PartialEq,
    Problem: KernelProblem<KernelVariant<Id, Entry, Meta>>,
    Selector: KernelSelector<Problem, KernelVariant<Id, Entry, Meta>, Id>,
    Cache: KernelSelectionCache<Problem, Id>,

    requires
        automatic::<Id, Entry, Meta, Problem, Selector, Cache>(
            namespace,
            members,
            problem,
            selector_before,
            selector_after,
            cache_before,
            cache_after,
            Err(error),
        ),
    ensures
        match error {
            KernelSelectionError::UnknownForcedVariant { .. } => false,
            KernelSelectionError::IneligibleForcedVariant { .. } => false,
            KernelSelectionError::CacheLookupFailed(failure) => {
                &&& Cache::recalls(cache_before, namespace, problem, Err(failure), cache_after)
                &&& selector_after == selector_before
            },
            KernelSelectionError::NoEligibleVariants { family, variant_count } => {
                &&& family == namespace
                &&& variant_count == members.len()
                &&& eligible_members(problem, members, seq![])
                &&& selector_after == selector_before
            },
            KernelSelectionError::SelectorFailed(failure) => selector_was_asked::<
                Id,
                Entry,
                Meta,
                Problem,
                Selector,
            >(namespace, members, problem, selector_before, selector_after, Err(failure)),
            KernelSelectionError::SelectorReturnedUnknownVariant { id } => {
                &&& missed(members, id)
                &&& selector_was_asked::<Id, Entry, Meta, Problem, Selector>(
                    namespace,
                    members,
                    problem,
                    selector_before,
                    selector_after,
                    Ok(id),
                )
            },
            KernelSelectionError::SelectorReturnedIneligibleVariant { id } => {
                &&& exists|index: int| #[trigger] looked_up(members, id, index)
                &&& selector_was_asked::<Id, Entry, Meta, Problem, Selector>(
                    namespace,
                    members,
                    problem,
                    selector_before,
                    selector_after,
                    Ok(id),
                )
            },
            KernelSelectionError::CacheStoreFailed(failure) => exists|id: Id, cache_read: Cache|
                {
                    &&& #[trigger] Cache::keeps(
                        cache_read,
                        namespace,
                        problem,
                        &id,
                        Err(failure),
                        cache_after,
                    )
                    &&& selector_was_asked::<Id, Entry, Meta, Problem, Selector>(
                        namespace,
                        members,
                        problem,
                        selector_before,
                        selector_after,
                        Ok(id),
                    )
                },
        },
{
    let (answer, cache_read) = choose|
        answer: Result<Option<Id>, Cache::Error>,
        cache_read: Cache,
    |
        {
            &&& #[trigger] Cache::recalls(cache_before, namespace, problem, answer, cache_read)
            &&& match answer {
                Err(failure) => {
                    &&& error matches KernelSelectionError::CacheLookupFailed(reported)
                        && reported == failure
                    &&& selector_after == selector_before
                    &&& cache_after == cache_read
                },
                Ok(hint) => chosen::<Id, Entry, Meta, Problem, Selector, Cache>(
                    namespace,
                    members,
                    problem,
                    selector_before,
                    selector_after,
                    cache_read,
                    cache_after,
                    Err(error),
                ),
            }
        };
    if answer is Ok {
        let eligible = choose|eligible: Seq<&KernelVariant<Id, Entry, Meta>>|
            {
                &&& #[trigger] eligible_members(problem, members, eligible)
                &&& if eligible.len() == 0 {
                    &&& error matches KernelSelectionError::NoEligibleVariants {
                        family,
                        variant_count,
                    } && family == namespace && variant_count == members.len()
                    &&& selector_after == selector_before
                    &&& cache_after == cache_read
                } else {
                    exists|choice: Result<Id, Selector::Error>|
                        {
                            &&& #[trigger] Selector::chooses(
                                selector_before,
                                namespace,
                                problem,
                                eligible,
                                choice,
                                selector_after,
                            )
                            &&& settled::<Id, Entry, Meta, Problem, Selector::Error, Cache>(
                                namespace,
                                members,
                                problem,
                                eligible,
                                choice,
                                cache_read,
                                cache_after,
                                Err(error),
                            )
                        }
                }
            };
        if eligible.len() == 0 {
            assert(eligible =~= seq![]);
        } else {
            let choice = choose|choice: Result<Id, Selector::Error>|
                {
                    &&& #[trigger] Selector::chooses(
                        selector_before,
                        namespace,
                        problem,
                        eligible,
                        choice,
                        selector_after,
                    )
                    &&& settled::<Id, Entry, Meta, Problem, Selector::Error, Cache>(
                        namespace,
                        members,
                        problem,
                        eligible,
                        choice,
                        cache_read,
                        cache_after,
                        Err(error),
                    )
                };
            assert(selector_was_asked::<Id, Entry, Meta, Problem, Selector>(
                namespace,
                members,
                problem,
                selector_before,
                selector_after,
                choice,
            ));
        }
    }
}

/// A forced selection fails only for an ID that is unknown, or for one whose
/// member the problem rejects, and then with the reason of the problem.
pub proof fn failed_overrides_say_why<'family, Id, Entry, Meta, Problem, SelectorError, CacheError>(
    members: Seq<KernelVariant<Id, Entry, Meta>>,
    problem: &Problem,
    id: Id,
    error: KernelSelectionError<Id, Problem::Rejection, SelectorError, CacheError>,
) where Id: PartialEq, Problem: KernelProblem<KernelVariant<Id, Entry, Meta>>
    requires
        forced::<Id, Entry, Meta, Problem, SelectorError, CacheError>(
            members,
            problem,
            id,
            Err(error),
        ),
    ensures
        match error {
            KernelSelectionError::UnknownForcedVariant { id: unknown } => unknown == id && missed(
                members,
                id,
            ),
            KernelSelectionError::IneligibleForcedVariant { id: refused, rejection } => {
                &&& refused == id
                &&& exists|index: int|
                    #![trigger looked_up(members, id, index)]
                    looked_up(members, id, index) && problem.judges(
                        &members[index],
                        Err(rejection),
                    )
            },
            _ => false,
        },
{
}

/// A family is built exactly from variants with different IDs, at least one,
/// under a name that is not blank. Of several faults the missing variants are
/// reported first and the name second, and two equal IDs by their positions.
pub proof fn families_are_built_from_distinct_variants<Id: Eq, Entry, Meta, const N: usize>(
    name: &'static str,
    revision: u32,
    variants: [KernelVariant<Id, Entry, Meta>; N],
    built: Result<KernelFamily<Id, Entry, Meta, N>, KernelFamilyBuildError>,
)
    requires
        call_ensures(KernelFamily::<Id, Entry, Meta, N>::try_new, (name, revision, variants), built),
        Id::obeys_eq_spec(),
        variants@.len() == N,
    ensures
        built is Ok <==> {
            &&& variants@.len() > 0
            &&& exists|k: int| 0 <= k < name@.len() && !crate::text::whitespace(#[trigger] name@[k])
            &&& forall|i: int, j: int|
                0 <= i < j < variants@.len() ==> !(#[trigger] variants@[i]).key().eq_spec(
                    &(#[trigger] variants@[j]).key(),
                )
        },
        variants@.len() == 0 ==> built->Err_0 is EmptyFamily,
        built matches Err(KernelFamilyBuildError::DuplicateVariantId {
            first_index,
            duplicate_index,
        }) ==> first_index < duplicate_index < variants@.len()
            && variants@[first_index as int].key().eq_spec(
            &variants@[duplicate_index as int].key(),
        ),
        built matches Ok(family) ==> family.members() == variants@
            && family.namespace().family_name() == name && family.namespace().family_revision()
            == revision,
{
    if built is Ok {
        assert forall|i: int, j: int| 0 <= i < j < variants@.len() implies !(
        #[trigger] variants@[i]).key().eq_spec(&(#[trigger] variants@[j]).key()) by {
            assert(!same_id(built->Ok_0.members(), i, j));
        }
    }
}

/// A family is displayed by its name, an at sign and the revision, which reads
/// back as the revision.
pub proof fn families_are_displayed_by_name_and_revision(id: KernelFamilyId, shown: String)
    requires
        call_ensures(KernelFamilyId::display, (id,), shown),
    ensures
        shown@.len() > id.family_name()@.len(),
        shown@.take(id.family_name()@.len() as int) == id.family_name()@,
        shown@[id.family_name()@.len() as int] == '@',
        crate::text::decimal_value(shown@.skip(id.family_name()@.len() as int + 1)) == Some(
            id.family_revision() as nat,
        ),
{
    reveal_strlit("@");
    let name = id.family_name()@;
    crate::text::lemma_decimal_round_trip(id.family_revision() as nat);
    assert(shown@.take(name.len() as int) =~= name);
    assert(shown@.skip(name.len() as int + 1) =~= decimal(id.family_revision() as nat));
}

/// The source of a selection is called by its own name.
pub proof fn sources_are_told_apart_by_name(source: SelectionSource, name: &'static str)
    requires
        call_ensures(SelectionSource::name, (&source,), name),
    ensures
        name@ == "override"@ <==> source is Override,
        name@ == "cache"@ <==> source is Cache,
        name@ == "selector"@ <==> source is Selector,
{
    reveal_strlit("override");
    reveal_strlit("cache");
    reveal_strlit("selector");
    assert("override"@[0] == 'o' && "cache"@[0] == 'c' && "selector"@[0] == 's');
}

} // verus!
