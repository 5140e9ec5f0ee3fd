use vstd::prelude::*;

verus! {

/// What a filesystem event says about the change, as far as the filter reads it.
#[derive(Debug, Clone, Copy, PartialEq, Eq, Structural)]
pub enum FsEventKind {
    /// A modification of metadata only.
    ModifyMetadata,
    /// A modification of data, with no further detail.
    ModifyDataAny,
    /// A file closed after being written.
    AccessCloseWrite,
    /// Any other access.
    AccessOther,
    /// Any other kind of event, modifications with detail included.
    Other,
}

/// What the exclusion predicate said of the event's paths.
#[derive(Debug, Clone, Copy, PartialEq, Eq, Structural)]
pub enum Exclusion {
    /// No predicate is configured.
    NoPredicate,
    /// Every touched path is excluded.
    AllExcluded,
    /// At least one touched path is not excluded.
    SomeIncluded,
    /// The predicate could not be evaluated.
    CheckFailed,
}

pub open spec fn is_candidate_spec(kind: FsEventKind) -> bool {
    kind == FsEventKind::AccessCloseWrite || kind == FsEventKind::Other
}

/// Whether an event of this kind may be a real change: metadata-only
/// modifications, detail-less data changes and accesses other than a close
/// after write are noise; unknown kinds pass.
pub fn is_candidate(kind: FsEventKind) -> (r: bool)
    ensures
        r == is_candidate_spec(kind),
{
    match kind {
        FsEventKind::ModifyMetadata => false,
        FsEventKind::ModifyDataAny => false,
        FsEventKind::AccessCloseWrite => true,
        FsEventKind::AccessOther => false,
        FsEventKind::Other => true,
    }
}

pub open spec fn propagates_spec(kind: FsEventKind, exclusion: Exclusion) -> bool {
    is_candidate_spec(kind) && exclusion != Exclusion::AllExcluded
}

/// Whether the event wakes the orchestrator: a candidate is dropped only
/// when the predicate reports all its paths excluded; a failed check lets
/// it through.
pub fn propagates(kind: FsEventKind, exclusion: Exclusion) -> (r: bool)
    ensures
        r == propagates_spec(kind, exclusion),
{
    if !is_candidate(kind) {
        return false;
    }
    match exclusion {
        Exclusion::AllExcluded => false,
        _ => true,
    }
}

/// Noise is dropped whatever the predicate says, and a close after write
/// passes exactly when some path is left, or nothing could tell.
pub proof fn lemma_change_filter(exclusion: Exclusion)
    ensures
        !propagates_spec(FsEventKind::ModifyMetadata, exclusion),
        !propagates_spec(FsEventKind::ModifyDataAny, exclusion),
        !propagates_spec(FsEventKind::AccessOther, exclusion),
        !propagates_spec(FsEventKind::AccessCloseWrite, Exclusion::AllExcluded),
        propagates_spec(FsEventKind::AccessCloseWrite, Exclusion::SomeIncluded),
        propagates_spec(FsEventKind::AccessCloseWrite, Exclusion::CheckFailed),
        propagates_spec(FsEventKind::AccessCloseWrite, Exclusion::NoPredicate),
{
}

} // verus!
