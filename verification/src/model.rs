//! The data a monitored repository is described by: its snapshots, their
//! backup summaries, and the state that is published for readers.

use crate::text::string_views;
use crate::time::Timestamp;
use vstd::prelude::*;

verus! {

/// Statistics of the backup run that produced a snapshot.
///
/// `backup_end` is expected not to lie before `backup_start`; a summary that
/// breaks this is kept as it is and reported when it is mapped to metrics.
#[derive(Clone, Copy, Debug, PartialEq, Eq, Structural)]
pub struct BackupSummary {
    pub total_files_processed: u64,
    pub total_bytes_processed: u64,
    pub backup_start: Timestamp,
    pub backup_end: Timestamp,
}

/// What contracts say of a [`BackupSummary`]; instants are nanoseconds since
/// the epoch.
pub struct BackupSummaryView {
    pub total_files_processed: nat,
    pub total_bytes_processed: nat,
    pub backup_start: int,
    pub backup_end: int,
}

impl View for BackupSummary {
    type V = BackupSummaryView;

    open spec fn view(&self) -> BackupSummaryView {
        BackupSummaryView {
            total_files_processed: self.total_files_processed as nat,
            total_bytes_processed: self.total_bytes_processed as nat,
            backup_start: self.backup_start@,
            backup_end: self.backup_end@,
        }
    }
}

/// One snapshot of a repository, as fetched. A snapshot never changes once
/// it has been fetched.
#[derive(Debug)]
pub struct Snapshot {
    pub id: String,
    pub time: Timestamp,
    pub paths: Vec<String>,
    pub tags: Vec<String>,
    pub hostname: String,
    pub username: String,
    pub program_version: String,
    pub summary: Option<BackupSummary>,
}

/// What contracts say of a [`Snapshot`].
pub struct SnapshotView {
    pub id: Seq<char>,
    pub time: int,
    pub paths: Seq<Seq<char>>,
    pub tags: Seq<Seq<char>>,
    pub hostname: Seq<char>,
    pub username: Seq<char>,
    pub program_version: Seq<char>,
    pub summary: Option<BackupSummaryView>,
}

/// The view of an optional summary.
pub open spec fn summary_view(summary: Option<BackupSummary>) -> Option<BackupSummaryView> {
    match summary {
        Some(s) => Some(s@),
        None => None,
    }
}

impl View for Snapshot {
    type V = SnapshotView;

    open spec fn view(&self) -> SnapshotView {
        SnapshotView {
            id: self.id@,
            time: self.time@,
            paths: string_views(self.paths@),
            tags: string_views(self.tags@),
            hostname: self.hostname@,
            username: self.username@,
            program_version: self.program_version@,
            summary: summary_view(self.summary),
        }
    }
}

impl Clone for Snapshot {
    fn clone(&self) -> (r: Self)
        ensures
            r@ == self@,
    {
        Snapshot {
            id: self.id.clone(),
            time: self.time,
            paths: self.paths.clone(),
            tags: self.tags.clone(),
            hostname: self.hostname.clone(),
            username: self.username.clone(),
            program_version: self.program_version.clone(),
            summary: self.summary,
        }
    }
}

/// The views of the snapshots in `snapshots`, in order.
pub open spec fn snapshot_views(snapshots: Seq<Snapshot>) -> Seq<SnapshotView> {
    snapshots.map_values(|s: Snapshot| s@)
}

/// Copies a list of snapshots.
pub fn clone_snapshots(snapshots: &Vec<Snapshot>) -> (r: Vec<Snapshot>)
    ensures
        snapshot_views(r@) == snapshot_views(snapshots@),
{
    let mut out: Vec<Snapshot> = Vec::new();
    let mut i: usize = 0;
    while i < snapshots.len()
        invariant
            i <= snapshots.len(),
            out@.len() == i,
            snapshot_views(out@) == snapshot_views(snapshots@.take(i as int)),
        decreases snapshots.len() - i,
    {
        let ghost before = out@;
        out.push(snapshots[i].clone());
        proof {
            let target = snapshot_views(snapshots@.take(i + 1));
            assert forall|j: int| 0 <= j < target.len() implies snapshot_views(out@)[j]
                == target[j] by {
                if j < i {
                    assert(snapshot_views(before)[j] == snapshot_views(
                        snapshots@.take(i as int),
                    )[j]);
                }
            }
        }
        i += 1;
    }
    out
}

/// What an opened repository says of itself.
#[derive(Debug)]
pub struct RepositoryInfo {
    pub id: String,
    pub version: u32,
}

/// What contracts say of a [`RepositoryInfo`].
pub struct RepositoryInfoView {
    pub id: Seq<char>,
    pub version: nat,
}

impl View for RepositoryInfo {
    type V = RepositoryInfoView;

    open spec fn view(&self) -> RepositoryInfoView {
        RepositoryInfoView { id: self.id@, version: self.version as nat }
    }
}

impl Clone for RepositoryInfo {
    fn clone(&self) -> (r: Self)
        ensures
            r@ == self@,
    {
        RepositoryInfo { id: self.id.clone(), version: self.version }
    }
}

/// The view of an optional repository description.
pub open spec fn repository_view(repository: Option<RepositoryInfo>) -> Option<
    RepositoryInfoView,
> {
    match repository {
        Some(r) => Some(r@),
        None => None,
    }
}

/// The state of one target as readers see it.
///
/// Until the repository has been opened the state is not ready and holds
/// neither a repository description nor snapshots.
#[derive(Debug)]
pub struct TargetState {
    ready: bool,
    repository: Option<RepositoryInfo>,
    snapshots: Vec<Snapshot>,
}

/// What contracts say of a [`TargetState`].
pub struct TargetStateView {
    pub ready: bool,
    pub repository: Option<RepositoryInfoView>,
    pub snapshots: Seq<SnapshotView>,
}

impl TargetStateView {
    /// The state before the first successful open.
    pub open spec fn unready() -> TargetStateView {
        TargetStateView { ready: false, repository: None, snapshots: Seq::empty() }
    }

    /// The ready state of `repository` with the snapshots `snapshots`.
    pub open spec fn ready_with(
        repository: RepositoryInfoView,
        snapshots: Seq<SnapshotView>,
    ) -> TargetStateView {
        TargetStateView { ready: true, repository: Some(repository), snapshots }
    }

    /// A state is ready exactly when it describes a repository, and holds
    /// snapshots only when it is ready.
    pub open spec fn wf(self) -> bool {
        &&& self.ready <==> self.repository is Some
        &&& !self.ready ==> self.snapshots.len() == 0
    }
}

impl View for TargetState {
    type V = TargetStateView;

    closed spec fn view(&self) -> TargetStateView {
        TargetStateView {
            ready: self.ready,
            repository: repository_view(self.repository),
            snapshots: snapshot_views(self.snapshots@),
        }
    }
}

impl Clone for TargetState {
    fn clone(&self) -> (r: Self)
        ensures
            r@ == self@,
    {
        proof {
            use_type_invariant(self);
        }
        let repository = match &self.repository {
            Some(info) => Some(info.clone()),
            None => None,
        };
        TargetState { ready: self.ready, repository, snapshots: clone_snapshots(&self.snapshots) }
    }
}

impl TargetState {
    /// Every state that exists while the program runs is well formed.
    #[verifier::type_invariant]
    pub open spec fn inv(self) -> bool {
        self@.wf()
    }

    /// The state before the first successful open.
    pub fn unready() -> (r: TargetState)
        ensures
            r@ == TargetStateView::unready(),
    {
        let r = TargetState { ready: false, repository: None, snapshots: Vec::new() };
        proof {
            assert(snapshot_views(r.snapshots@) =~= Seq::empty());
        }
        r
    }

    /// The ready state of `repository` with the snapshots `snapshots`.
    pub fn ready_with(repository: RepositoryInfo, snapshots: Vec<Snapshot>) -> (r: TargetState)
        ensures
            r@ == TargetStateView::ready_with(repository@, snapshot_views(snapshots@)),
    {
        TargetState { ready: true, repository: Some(repository), snapshots }
    }

    /// Whether the repository has been opened.
    pub fn is_ready(&self) -> (r: bool)
        ensures
            r == self@.ready,
    {
        self.ready
    }

    /// The description of the opened repository.
    pub fn repository(&self) -> (r: Option<&RepositoryInfo>)
        ensures
            self@.repository is Some <==> r is Some,
            r is Some ==> r->0@ == self@.repository->0,
    {
        self.repository.as_ref()
    }

    /// The snapshots known so far, in the order in which they were handed in.
    pub fn snapshots(&self) -> (r: &Vec<Snapshot>)
        ensures
            snapshot_views(r@) == self@.snapshots,
    {
        &self.snapshots
    }
}

} // verus!
