//! The mapping from the published state of one target to labelled gauge
//! observations.
//!
//! The mapping is a function of the target's name and state alone: it reads
//! nothing else and changes nothing.

use crate::model::{
    BackupSummary, BackupSummaryView, RepositoryInfo, RepositoryInfoView, Snapshot,
    SnapshotView, TargetState, TargetStateView, snapshot_views,
};
use crate::text::{comma_joined, decimal, decimal_text, join_with_commas};
use crate::time::{Span, Timestamp};
use vstd::prelude::*;
use vstd::string::StringExecFns;

verus! {

/// The metric families that are exposed.
#[derive(Clone, Copy, Debug, PartialEq, Eq, Structural)]
pub enum Metric {
    RepositoryInfo,
    SnapshotInfo,
    SnapshotTimestamp,
    SnapshotFilesTotal,
    SnapshotSizeBytes,
    SnapshotBackupStart,
    SnapshotBackupEnd,
    SnapshotBackupDuration,
}

impl Metric {
    /// The name under which the family is exposed.
    pub open spec fn spec_name(self) -> Seq<char> {
        match self {
            Metric::RepositoryInfo => "repository_info"@,
            Metric::SnapshotInfo => "snapshot_info"@,
            Metric::SnapshotTimestamp => "snapshot_timestamp_seconds"@,
            Metric::SnapshotFilesTotal => "snapshot_files_total"@,
            Metric::SnapshotSizeBytes => "snapshot_size_bytes"@,
            Metric::SnapshotBackupStart => "snapshot_backup_start_timestamp_seconds"@,
            Metric::SnapshotBackupEnd => "snapshot_backup_end_timestamp_seconds"@,
            Metric::SnapshotBackupDuration => "snapshot_backup_duration_seconds"@,
        }
    }

    /// The name under which the family is exposed.
    pub fn name(&self) -> (r: &'static str)
        ensures
            r@ == self.spec_name(),
    {
        match self {
            Metric::RepositoryInfo => "repository_info",
            Metric::SnapshotInfo => "snapshot_info",
            Metric::SnapshotTimestamp => "snapshot_timestamp_seconds",
            Metric::SnapshotFilesTotal => "snapshot_files_total",
            Metric::SnapshotSizeBytes => "snapshot_size_bytes",
            Metric::SnapshotBackupStart => "snapshot_backup_start_timestamp_seconds",
            Metric::SnapshotBackupEnd => "snapshot_backup_end_timestamp_seconds",
            Metric::SnapshotBackupDuration => "snapshot_backup_duration_seconds",
        }
    }

    /// The one-line description of the family.
    pub open spec fn spec_help(self) -> Seq<char> {
        match self {
            Metric::RepositoryInfo => "Repository information."@,
            Metric::SnapshotInfo => "Snapshot information."@,
            Metric::SnapshotTimestamp => "Snapshot creation time in unix timestamp."@,
            Metric::SnapshotFilesTotal => "Total files in a snapshot."@,
            Metric::SnapshotSizeBytes => "Snapshot size in bytes."@,
            Metric::SnapshotBackupStart => "Backup start time of a snapshot in unix timestamp."@,
            Metric::SnapshotBackupEnd => "Backup finished time of a snapshot in unix timestamp."@,
            Metric::SnapshotBackupDuration => "Backup duration of a snapshot."@,
        }
    }

    /// The one-line description of the family.
    pub fn help(&self) -> (r: &'static str)
        ensures
            r@ == self.spec_help(),
    {
        match self {
            Metric::RepositoryInfo => "Repository information.",
            Metric::SnapshotInfo => "Snapshot information.",
            Metric::SnapshotTimestamp => "Snapshot creation time in unix timestamp.",
            Metric::SnapshotFilesTotal => "Total files in a snapshot.",
            Metric::SnapshotSizeBytes => "Snapshot size in bytes.",
            Metric::SnapshotBackupStart => "Backup start time of a snapshot in unix timestamp.",
            Metric::SnapshotBackupEnd => "Backup finished time of a snapshot in unix timestamp.",
            Metric::SnapshotBackupDuration => "Backup duration of a snapshot.",
        }
    }
}

/// The value of a gauge. Times keep their full resolution: an instant or a
/// span stands for its length in seconds, fraction included.
#[derive(Clone, Copy, Debug, PartialEq, Eq, Structural)]
pub enum GaugeValue {
    /// A plain number.
    Count(u64),
    /// Seconds since the Unix epoch.
    Instant(Timestamp),
    /// A length of time in seconds.
    Elapsed(Span),
}

/// What contracts say of a [`GaugeValue`]; times are in nanoseconds.
pub enum GaugeValueView {
    Count(nat),
    Instant(int),
    Elapsed(nat),
}

impl View for GaugeValue {
    type V = GaugeValueView;

    open spec fn view(&self) -> GaugeValueView {
        match *self {
            GaugeValue::Count(n) => GaugeValueView::Count(n as nat),
            GaugeValue::Instant(t) => GaugeValueView::Instant(t@),
            GaugeValue::Elapsed(d) => GaugeValueView::Elapsed(d@),
        }
    }
}

/// A label: its name and its value.
#[derive(Debug)]
pub struct Label {
    pub name: String,
    pub value: String,
}

impl View for Label {
    type V = (Seq<char>, Seq<char>);

    open spec fn view(&self) -> (Seq<char>, Seq<char>) {
        (self.name@, self.value@)
    }
}

/// The views of the labels in `labels`, in order.
pub open spec fn label_views(labels: Seq<Label>) -> Seq<(Seq<char>, Seq<char>)> {
    labels.map_values(|l: Label| l@)
}

/// One gauge observation: the family it belongs to, its labels and its value.
#[derive(Debug)]
pub struct Observation {
    pub metric: Metric,
    pub labels: Vec<Label>,
    pub value: GaugeValue,
}

/// What contracts say of an [`Observation`].
pub struct ObservationView {
    pub metric: Metric,
    pub labels: Seq<(Seq<char>, Seq<char>)>,
    pub value: GaugeValueView,
}

impl View for Observation {
    type V = ObservationView;

    open spec fn view(&self) -> ObservationView {
        ObservationView {
            metric: self.metric,
            labels: label_views(self.labels@),
            value: self.value@,
        }
    }
}

/// The views of the observations in `observations`, in order.
pub open spec fn observation_views(observations: Seq<Observation>) -> Seq<ObservationView> {
    observations.map_values(|o: Observation| o@)
}

/// What can be wrong with the data of a snapshot without being an error.
#[derive(Clone, Copy, Debug, PartialEq, Eq, Structural)]
pub enum DataQuality {
    /// The snapshot carries no backup summary.
    MissingSummary,
    /// The backup is recorded as having ended before it started.
    EndBeforeStart,
}

/// A data-quality finding about one snapshot of one target.
#[derive(Debug)]
pub struct DataQualityWarning {
    pub kind: DataQuality,
    pub target: String,
    pub snapshot_id: String,
}

/// What contracts say of a [`DataQualityWarning`].
pub struct DataQualityWarningView {
    pub kind: DataQuality,
    pub target: Seq<char>,
    pub snapshot_id: Seq<char>,
}

impl View for DataQualityWarning {
    type V = DataQualityWarningView;

    open spec fn view(&self) -> DataQualityWarningView {
        DataQualityWarningView {
            kind: self.kind,
            target: self.target@,
            snapshot_id: self.snapshot_id@,
        }
    }
}

/// The views of the warnings in `warnings`, in order.
pub open spec fn warning_views(warnings: Seq<DataQualityWarning>) -> Seq<DataQualityWarningView> {
    warnings.map_values(|w: DataQualityWarning| w@)
}

/// The result of mapping: the observations, and the data-quality findings
/// that the caller is expected to log.
#[derive(Debug)]
pub struct Mapping {
    pub observations: Vec<Observation>,
    pub warnings: Vec<DataQualityWarning>,
}

/// What contracts say of a [`Mapping`].
pub struct MappingView {
    pub observations: Seq<ObservationView>,
    pub warnings: Seq<DataQualityWarningView>,
}

impl MappingView {
    /// The mapping that holds nothing.
    pub open spec fn empty() -> MappingView {
        MappingView { observations: Seq::empty(), warnings: Seq::empty() }
    }

    /// `self` followed by `next`.
    pub open spec fn followed_by(self, next: MappingView) -> MappingView {
        MappingView {
            observations: self.observations + next.observations,
            warnings: self.warnings + next.warnings,
        }
    }

    /// `self` followed by one observation.
    pub open spec fn observing(self, observation: ObservationView) -> MappingView {
        MappingView {
            observations: self.observations.push(observation),
            warnings: self.warnings,
        }
    }

    /// `self` followed by one warning.
    pub open spec fn warning(self, warning: DataQualityWarningView) -> MappingView {
        MappingView { observations: self.observations, warnings: self.warnings.push(warning) }
    }
}

/// Putting mappings one after the other gives the same whichever two are
/// joined first.
pub proof fn lemma_followed_by_is_associative(a: MappingView, b: MappingView, c: MappingView)
    ensures
        a.followed_by(b).followed_by(c) == a.followed_by(b.followed_by(c)),
{
    assert(a.followed_by(b).followed_by(c).observations =~= a.followed_by(
        b.followed_by(c),
    ).observations);
    assert(a.followed_by(b).followed_by(c).warnings =~= a.followed_by(b.followed_by(c)).warnings);
}

/// A mapping followed by nothing is the mapping itself.
pub proof fn lemma_followed_by_nothing(a: MappingView)
    ensures
        a.followed_by(MappingView::empty()) == a,
        MappingView::empty().followed_by(a) == a,
{
}

impl View for Mapping {
    type V = MappingView;

    open spec fn view(&self) -> MappingView {
        MappingView {
            observations: observation_views(self.observations@),
            warnings: warning_views(self.warnings@),
        }
    }
}

/// The labels of the repository-info observation.
pub open spec fn repository_labels(target: Seq<char>, repository: RepositoryInfoView) -> Seq<
    (Seq<char>, Seq<char>),
> {
    seq![
        ("target"@, target),
        ("repo_id"@, repository.id),
        ("version"@, decimal(repository.version)),
    ]
}

/// The labels that identify a snapshot.
pub open spec fn snapshot_labels(
    target: Seq<char>,
    repo_id: Seq<char>,
    snapshot_id: Seq<char>,
) -> Seq<(Seq<char>, Seq<char>)> {
    seq![("target"@, target), ("repo_id"@, repo_id), ("snapshot_id"@, snapshot_id)]
}

/// The labels of the snapshot-info observation.
pub open spec fn snapshot_info_labels(
    target: Seq<char>,
    repo_id: Seq<char>,
    snapshot: SnapshotView,
) -> Seq<(Seq<char>, Seq<char>)> {
    seq![
        ("target"@, target),
        ("repo_id"@, repo_id),
        ("snapshot_id"@, snapshot.id),
        ("paths"@, comma_joined(snapshot.paths)),
        ("hostname"@, snapshot.hostname),
        ("username"@, snapshot.username),
        ("tags"@, comma_joined(snapshot.tags)),
        ("program_version"@, snapshot.program_version),
    ]
}

/// The observation of family `metric` about one snapshot.
pub open spec fn snapshot_observation(
    metric: Metric,
    target: Seq<char>,
    repo_id: Seq<char>,
    snapshot_id: Seq<char>,
    value: GaugeValueView,
) -> ObservationView {
    ObservationView { metric, labels: snapshot_labels(target, repo_id, snapshot_id), value }
}

/// What the summary of a snapshot is mapped to: files, bytes, start and end,
/// then the duration where the backup did not end before it started, and a
/// warning where it did.
pub open spec fn summary_mapping(
    target: Seq<char>,
    repo_id: Seq<char>,
    snapshot_id: Seq<char>,
    summary: BackupSummaryView,
) -> MappingView {
    let fixed = MappingView {
        observations: seq![
            snapshot_observation(
                Metric::SnapshotFilesTotal,
                target,
                repo_id,
                snapshot_id,
                GaugeValueView::Count(summary.total_files_processed),
            ),
            snapshot_observation(
                Metric::SnapshotSizeBytes,
                target,
                repo_id,
                snapshot_id,
                GaugeValueView::Count(summary.total_bytes_processed),
            ),
            snapshot_observation(
                Metric::SnapshotBackupStart,
                target,
                repo_id,
                snapshot_id,
                GaugeValueView::Instant(summary.backup_start),
            ),
            snapshot_observation(
                Metric::SnapshotBackupEnd,
                target,
                repo_id,
                snapshot_id,
                GaugeValueView::Instant(summary.backup_end),
            ),
        ],
        warnings: Seq::empty(),
    };
    if summary.backup_end >= summary.backup_start {
        fixed.observing(
            snapshot_observation(
                Metric::SnapshotBackupDuration,
                target,
                repo_id,
                snapshot_id,
                GaugeValueView::Elapsed((summary.backup_end - summary.backup_start) as nat),
            ),
        )
    } else {
        fixed.warning(
            DataQualityWarningView { kind: DataQuality::EndBeforeStart, target, snapshot_id },
        )
    }
}

/// What one snapshot is mapped to: its info observation and its creation
/// time, then its summary where it has one, and a warning where it has none.
pub open spec fn snapshot_mapping(
    target: Seq<char>,
    repo_id: Seq<char>,
    snapshot: SnapshotView,
) -> MappingView {
    let base = MappingView {
        observations: seq![
            ObservationView {
                metric: Metric::SnapshotInfo,
                labels: snapshot_info_labels(target, repo_id, snapshot),
                value: GaugeValueView::Count(1),
            },
            snapshot_observation(
                Metric::SnapshotTimestamp,
                target,
                repo_id,
                snapshot.id,
                GaugeValueView::Instant(snapshot.time),
            ),
        ],
        warnings: Seq::empty(),
    };
    match snapshot.summary {
        Some(summary) => base.followed_by(summary_mapping(target, repo_id, snapshot.id, summary)),
        None => base.warning(
            DataQualityWarningView {
                kind: DataQuality::MissingSummary,
                target,
                snapshot_id: snapshot.id,
            },
        ),
    }
}

/// What a list of snapshots is mapped to: the mappings of its snapshots, one
/// after the other.
pub open spec fn snapshots_mapping(
    target: Seq<char>,
    repo_id: Seq<char>,
    snapshots: Seq<SnapshotView>,
) -> MappingView
    decreases snapshots.len(),
{
    if snapshots.len() == 0 {
        MappingView::empty()
    } else {
        snapshots_mapping(target, repo_id, snapshots.drop_last()).followed_by(
            snapshot_mapping(target, repo_id, snapshots.last()),
        )
    }
}

/// What the state of a target is mapped to: nothing until it is ready, then
/// the repository-info observation followed by the mapping of its snapshots.
pub open spec fn target_mapping(target: Seq<char>, state: TargetStateView) -> MappingView {
    if state.ready && state.repository is Some {
        let repository = state.repository->0;
        MappingView::empty().observing(
            ObservationView {
                metric: Metric::RepositoryInfo,
                labels: repository_labels(target, repository),
                value: GaugeValueView::Count(1),
            },
        ).followed_by(snapshots_mapping(target, repository.id, state.snapshots))
    } else {
        MappingView::empty()
    }
}

fn label(name: &str, value: &str) -> (r: Label)
    ensures
        r@ == (name@, value@),
{
    Label { name: String::from_str(name), value: String::from_str(value) }
}

fn snapshot_key(target: &str, repo_id: &str, snapshot_id: &str) -> (r: Vec<Label>)
    ensures
        label_views(r@) == snapshot_labels(target@, repo_id@, snapshot_id@),
{
    let mut labels: Vec<Label> = Vec::new();
    labels.push(label("target", target));
    labels.push(label("repo_id", repo_id));
    labels.push(label("snapshot_id", snapshot_id));
    labels
}

impl Mapping {
    /// The mapping that holds nothing.
    pub fn new() -> (r: Mapping)
        ensures
            r@ == MappingView::empty(),
    {
        let r = Mapping { observations: Vec::new(), warnings: Vec::new() };
        proof {
            assert(r@.observations =~= Seq::empty());
            assert(r@.warnings =~= Seq::empty());
        }
        r
    }

    /// Adds one observation at the end.
    pub fn observe(&mut self, observation: Observation)
        ensures
            final(self)@ == old(self)@.observing(observation@),
    {
        self.observations.push(observation);
        proof {
            assert(self@.observations =~= old(self)@.observations.push(observation@));
        }
    }

    /// Adds one warning at the end.
    pub fn warn(&mut self, warning: DataQualityWarning)
        ensures
            final(self)@ == old(self)@.warning(warning@),
    {
        self.warnings.push(warning);
        proof {
            assert(self@.warnings =~= old(self)@.warnings.push(warning@));
        }
    }

    /// Adds all of `next` at the end.
    pub fn extend(&mut self, next: Mapping)
        ensures
            final(self)@ == old(self)@.followed_by(next@),
    {
        let ghost added = next@;
        let mut next = next;
        self.observations.append(&mut next.observations);
        self.warnings.append(&mut next.warnings);
        proof {
            assert(self@.observations =~= old(self)@.observations + added.observations);
            assert(self@.warnings =~= old(self)@.warnings + added.warnings);
        }
    }

    fn observe_snapshot(
        &mut self,
        metric: Metric,
        target: &str,
        repo_id: &str,
        snapshot_id: &str,
        value: GaugeValue,
    )
        ensures
            final(self)@ == old(self)@.observing(
                snapshot_observation(metric, target@, repo_id@, snapshot_id@, value@),
            ),
    {
        self.observe(
            Observation { metric, labels: snapshot_key(target, repo_id, snapshot_id), value },
        );
    }
}

/// Maps the summary of the snapshot `snapshot_id`.
pub fn map_summary(target: &str, repo_id: &str, snapshot_id: &str, summary: &BackupSummary) -> (r:
    Mapping)
    ensures
        r@ == summary_mapping(target@, repo_id@, snapshot_id@, summary@),
{
    let mut out = Mapping::new();
    out.observe_snapshot(
        Metric::SnapshotFilesTotal,
        target,
        repo_id,
        snapshot_id,
        GaugeValue::Count(summary.total_files_processed),
    );
    out.observe_snapshot(
        Metric::SnapshotSizeBytes,
        target,
        repo_id,
        snapshot_id,
        GaugeValue::Count(summary.total_bytes_processed),
    );
    out.observe_snapshot(
        Metric::SnapshotBackupStart,
        target,
        repo_id,
        snapshot_id,
        GaugeValue::Instant(summary.backup_start),
    );
    out.observe_snapshot(
        Metric::SnapshotBackupEnd,
        target,
        repo_id,
        snapshot_id,
        GaugeValue::Instant(summary.backup_end),
    );
    proof {
        assert(out@.observations =~= seq![
            snapshot_observation(
                Metric::SnapshotFilesTotal,
                target@,
                repo_id@,
                snapshot_id@,
                GaugeValueView::Count(summary@.total_files_processed),
            ),
            snapshot_observation(
                Metric::SnapshotSizeBytes,
                target@,
                repo_id@,
                snapshot_id@,
                GaugeValueView::Count(summary@.total_bytes_processed),
            ),
            snapshot_observation(
                Metric::SnapshotBackupStart,
                target@,
                repo_id@,
                snapshot_id@,
                GaugeValueView::Instant(summary@.backup_start),
            ),
            snapshot_observation(
                Metric::SnapshotBackupEnd,
                target@,
                repo_id@,
                snapshot_id@,
                GaugeValueView::Instant(summary@.backup_end),
            ),
        ]);
    }
    match summary.backup_end.elapsed_since(&summary.backup_start) {
        Some(duration) => {
            out.observe_snapshot(
                Metric::SnapshotBackupDuration,
                target,
                repo_id,
                snapshot_id,
                GaugeValue::Elapsed(duration),
            );
        },
        None => {
            out.warn(
                DataQualityWarning {
                    kind: DataQuality::EndBeforeStart,
                    target: String::from_str(target),
                    snapshot_id: String::from_str(snapshot_id),
                },
            );
        },
    }
    out
}

/// Maps one snapshot of the repository `repo_id` of the target `target`.
pub fn map_snapshot(target: &str, repo_id: &str, snapshot: &Snapshot) -> (r: Mapping)
    ensures
        r@ == snapshot_mapping(target@, repo_id@, snapshot@),
{
    let mut info: Vec<Label> = Vec::new();
    info.push(label("target", target));
    info.push(label("repo_id", repo_id));
    info.push(label("snapshot_id", snapshot.id.as_str()));
    let paths = join_with_commas(&snapshot.paths);
    info.push(label("paths", paths.as_str()));
    info.push(label("hostname", snapshot.hostname.as_str()));
    info.push(label("username", snapshot.username.as_str()));
    let tags = join_with_commas(&snapshot.tags);
    info.push(label("tags", tags.as_str()));
    info.push(label("program_version", snapshot.program_version.as_str()));
    proof {
        assert(label_views(info@) =~= snapshot_info_labels(target@, repo_id@, snapshot@));
    }
    let mut out = Mapping::new();
    out.observe(
        Observation { metric: Metric::SnapshotInfo, labels: info, value: GaugeValue::Count(1) },
    );
    out.observe_snapshot(
        Metric::SnapshotTimestamp,
        target,
        repo_id,
        snapshot.id.as_str(),
        GaugeValue::Instant(snapshot.time),
    );
    proof {
        assert(out@.observations =~= seq![
            ObservationView {
                metric: Metric::SnapshotInfo,
                labels: snapshot_info_labels(target@, repo_id@, snapshot@),
                value: GaugeValueView::Count(1),
            },
            snapshot_observation(
                Metric::SnapshotTimestamp,
                target@,
                repo_id@,
                snapshot@.id,
                GaugeValueView::Instant(snapshot@.time),
            ),
        ]);
    }
    match &snapshot.summary {
        Some(summary) => {
            out.extend(map_summary(target, repo_id, snapshot.id.as_str(), summary));
        },
        None => {
            out.warn(
                DataQualityWarning {
                    kind: DataQuality::MissingSummary,
                    target: String::from_str(target),
                    snapshot_id: snapshot.id.clone(),
                },
            );
        },
    }
    out
}

/// Maps the state of the target `target` to its observations.
///
/// A target that is not ready yields nothing; that is no error.
pub fn map_target(target: &str, state: &TargetState) -> (r: Mapping)
    ensures
        r@ == target_mapping(target@, state@),
{
    let mut out = Mapping::new();
    if !state.is_ready() {
        return out;
    }
    let repository = match state.repository() {
        Some(repository) => repository,
        None => {
            return out;
        },
    };
    let mut labels: Vec<Label> = Vec::new();
    labels.push(label("target", target));
    labels.push(label("repo_id", repository.id.as_str()));
    let version = decimal_text(repository.version as u64);
    labels.push(label("version", version.as_str()));
    proof {
        assert(label_views(labels@) =~= repository_labels(target@, repository@));
    }
    out.observe(
        Observation { metric: Metric::RepositoryInfo, labels, value: GaugeValue::Count(1) },
    );
    let ghost head = out@;
    let snapshots = state.snapshots();
    let mut i: usize = 0;
    while i < snapshots.len()
        invariant
            i <= snapshots.len(),
            out@ == head.followed_by(
                snapshots_mapping(
                    target@,
                    repository@.id,
                    snapshot_views(snapshots@).take(i as int),
                ),
            ),
        decreases snapshots.len() - i,
    {
        out.extend(map_snapshot(target, repository.id.as_str(), &snapshots[i]));
        proof {
            let views = snapshot_views(snapshots@);
            let done = snapshots_mapping(target@, repository@.id, views.take(i as int));
            let one = snapshot_mapping(target@, repository@.id, snapshots@[i as int]@);
            assert(views.take(i + 1).drop_last() =~= views.take(i as int));
            lemma_followed_by_is_associative(head, done, one);
        }
        i += 1;
    }
    proof {
        let views = snapshot_views(snapshots@);
        assert(views.take(snapshots.len() as int) =~= views);
    }
    out
}

/// Whether `metric` is one of the families that are filled from a backup
/// summary.
pub open spec fn is_summary_metric(metric: Metric) -> bool {
    metric == Metric::SnapshotFilesTotal || metric == Metric::SnapshotSizeBytes || metric
        == Metric::SnapshotBackupStart || metric == Metric::SnapshotBackupEnd || metric
        == Metric::SnapshotBackupDuration
}

/// A target that is not ready is mapped to nothing: no observation and no
/// warning.
pub proof fn lemma_unready_target_maps_to_nothing(target: Seq<char>, state: TargetStateView)
    requires
        !state.ready,
    ensures
        target_mapping(target, state) == MappingView::empty(),
        target_mapping(target, state).observations.len() == 0,
{
}

/// A snapshot without a summary is mapped to its info observation and its
/// creation time and to nothing else; no observation of a summary family
/// appears.
pub proof fn lemma_snapshot_without_summary(
    target: Seq<char>,
    repo_id: Seq<char>,
    snapshot: SnapshotView,
)
    requires
        snapshot.summary is None,
    ensures
        snapshot_mapping(target, repo_id, snapshot).observations == seq![
            ObservationView {
                metric: Metric::SnapshotInfo,
                labels: snapshot_info_labels(target, repo_id, snapshot),
                value: GaugeValueView::Count(1),
            },
            snapshot_observation(
                Metric::SnapshotTimestamp,
                target,
                repo_id,
                snapshot.id,
                GaugeValueView::Instant(snapshot.time),
            ),
        ],
        forall|i: int|
            0 <= i < snapshot_mapping(target, repo_id, snapshot).observations.len()
                ==> !is_summary_metric(
                #[trigger] snapshot_mapping(target, repo_id, snapshot).observations[i].metric,
            ),
{
}

/// Where the backup of a snapshot did not end before it started, the
/// snapshot has exactly one duration observation, and its value is the end
/// less the start, to the nanosecond.
pub proof fn lemma_duration_is_exact(target: Seq<char>, repo_id: Seq<char>, snapshot: SnapshotView)
    requires
        snapshot.summary is Some,
        snapshot.summary->0.backup_end >= snapshot.summary->0.backup_start,
    ensures
        ({
            let observations = snapshot_mapping(target, repo_id, snapshot).observations;
            let summary = snapshot.summary->0;
            &&& observations.len() == 7
            &&& observations[6] == snapshot_observation(
                Metric::SnapshotBackupDuration,
                target,
                repo_id,
                snapshot.id,
                GaugeValueView::Elapsed((summary.backup_end - summary.backup_start) as nat),
            )
            &&& forall|i: int|
                0 <= i < 6 ==> (#[trigger] observations[i]).metric
                    != Metric::SnapshotBackupDuration
        }),
{
}

/// Where the backup of a snapshot is recorded as having ended before it
/// started, every other observation of the summary is there, no duration is,
/// and the snapshot is reported.
pub proof fn lemma_negative_duration_is_left_out(
    target: Seq<char>,
    repo_id: Seq<char>,
    snapshot: SnapshotView,
)
    requires
        snapshot.summary is Some,
        snapshot.summary->0.backup_end < snapshot.summary->0.backup_start,
    ensures
        ({
            let mapping = snapshot_mapping(target, repo_id, snapshot);
            &&& mapping.observations.len() == 6
            &&& mapping.observations[2].metric == Metric::SnapshotFilesTotal
            &&& mapping.observations[3].metric == Metric::SnapshotSizeBytes
            &&& mapping.observations[4].metric == Metric::SnapshotBackupStart
            &&& mapping.observations[5].metric == Metric::SnapshotBackupEnd
            &&& forall|i: int|
                0 <= i < 6 ==> (#[trigger] mapping.observations[i]).metric
                    != Metric::SnapshotBackupDuration
            &&& mapping.warnings == seq![
                DataQualityWarningView {
                    kind: DataQuality::EndBeforeStart,
                    target,
                    snapshot_id: snapshot.id,
                },
            ]
        }),
{
}

/// Mapping the same state of the same target twice gives the same result.
pub proof fn lemma_mapping_is_repeatable(
    target: &str,
    state: &TargetState,
    first: Mapping,
    second: Mapping,
)
    requires
        call_ensures(map_target, (target, state), first),
        call_ensures(map_target, (target, state), second),
    ensures
        first@ == second@,
{
}

} // verus!
