//! What a scrape exposes: the observations of all targets, grouped into
//! metric families.
//!
//! A scrape only reads. It takes the state that each target has published
//! and never asks a target to refresh.

use crate::metrics::{
    DataQualityWarning, DataQualityWarningView, GaugeValue, GaugeValueView, Label, Mapping,
    MappingView, Metric, Observation, ObservationView, label_views,
    lemma_followed_by_is_associative, lemma_followed_by_nothing, map_target, observation_views,
    target_mapping, warning_views,
};
use crate::model::{TargetState, TargetStateView};
use vstd::prelude::*;

verus! {

/// What a scrape reads of one target: its name and the state it has
/// published.
#[derive(Debug)]
pub struct Reading {
    pub target: String,
    pub state: TargetState,
}

/// What contracts say of a [`Reading`].
pub struct ReadingView {
    pub target: Seq<char>,
    pub state: TargetStateView,
}

impl View for Reading {
    type V = ReadingView;

    open spec fn view(&self) -> ReadingView {
        ReadingView { target: self.target@, state: self.state@ }
    }
}

/// The views of the readings in `readings`, in order.
pub open spec fn reading_views(readings: Seq<Reading>) -> Seq<ReadingView> {
    readings.map_values(|r: Reading| r@)
}

/// One sample of a family: labels and value.
#[derive(Debug)]
pub struct Sample {
    pub labels: Vec<Label>,
    pub value: GaugeValue,
}

/// What contracts say of a [`Sample`].
pub struct SampleView {
    pub labels: Seq<(Seq<char>, Seq<char>)>,
    pub value: GaugeValueView,
}

impl View for Sample {
    type V = SampleView;

    open spec fn view(&self) -> SampleView {
        SampleView { labels: label_views(self.labels@), value: self.value@ }
    }
}

/// The views of the samples in `samples`, in order.
pub open spec fn sample_views(samples: Seq<Sample>) -> Seq<SampleView> {
    samples.map_values(|s: Sample| s@)
}

/// A metric family with its samples.
#[derive(Debug)]
pub struct MetricFamily {
    pub metric: Metric,
    pub samples: Vec<Sample>,
}

/// What contracts say of a [`MetricFamily`].
pub struct MetricFamilyView {
    pub metric: Metric,
    pub samples: Seq<SampleView>,
}

impl View for MetricFamily {
    type V = MetricFamilyView;

    open spec fn view(&self) -> MetricFamilyView {
        MetricFamilyView { metric: self.metric, samples: sample_views(self.samples@) }
    }
}

/// The views of the families in `families`, in order.
pub open spec fn family_views(families: Seq<MetricFamily>) -> Seq<MetricFamilyView> {
    families.map_values(|f: MetricFamily| f@)
}

/// The answer to a scrape.
#[derive(Debug)]
pub struct Exposition {
    pub families: Vec<MetricFamily>,
    /// The data-quality findings met on the way, for the log.
    pub warnings: Vec<DataQualityWarning>,
}

/// What contracts say of an [`Exposition`].
pub struct ExpositionView {
    pub families: Seq<MetricFamilyView>,
    pub warnings: Seq<DataQualityWarningView>,
}

impl View for Exposition {
    type V = ExpositionView;

    open spec fn view(&self) -> ExpositionView {
        ExpositionView {
            families: family_views(self.families@),
            warnings: warning_views(self.warnings@),
        }
    }
}

/// The order in which the families are exposed.
pub open spec fn family_order() -> Seq<Metric> {
    seq![
        Metric::RepositoryInfo,
        Metric::SnapshotInfo,
        Metric::SnapshotFilesTotal,
        Metric::SnapshotTimestamp,
        Metric::SnapshotSizeBytes,
        Metric::SnapshotBackupStart,
        Metric::SnapshotBackupEnd,
        Metric::SnapshotBackupDuration,
    ]
}

/// The test for belonging to the family `metric`.
pub open spec fn in_family(metric: Metric) -> spec_fn(ObservationView) -> bool {
    |o: ObservationView| o.metric == metric
}

/// An observation without its family.
pub open spec fn as_sample() -> spec_fn(ObservationView) -> SampleView {
    |o: ObservationView| SampleView { labels: o.labels, value: o.value }
}

/// The samples of the family `metric` among `observations`, in their order.
pub open spec fn samples_of(observations: Seq<ObservationView>, metric: Metric) -> Seq<
    SampleView,
> {
    observations.filter(in_family(metric)).map_values(as_sample())
}

/// The family `metric` as `observations` fill it.
pub open spec fn family_of(observations: Seq<ObservationView>) -> spec_fn(
    Metric,
) -> MetricFamilyView {
    |metric: Metric| MetricFamilyView { metric, samples: samples_of(observations, metric) }
}

/// The test for having a sample.
pub open spec fn is_populated() -> spec_fn(MetricFamilyView) -> bool {
    |f: MetricFamilyView| f.samples.len() > 0
}

/// The families that `observations` fill, in the order of exposition. A
/// family without a sample is left out.
pub open spec fn families_of(observations: Seq<ObservationView>) -> Seq<MetricFamilyView> {
    family_order().map_values(family_of(observations)).filter(is_populated())
}

/// What the targets of `readings` are mapped to, one target after the other.
pub open spec fn readings_mapping(readings: Seq<ReadingView>) -> MappingView
    decreases readings.len(),
{
    if readings.len() == 0 {
        MappingView::empty()
    } else {
        readings_mapping(readings.drop_last()).followed_by(
            target_mapping(readings.last().target, readings.last().state),
        )
    }
}

/// The answer to a scrape that reads `readings`.
pub open spec fn exposition_of(readings: Seq<ReadingView>) -> ExpositionView {
    let mapping = readings_mapping(readings);
    ExpositionView { families: families_of(mapping.observations), warnings: mapping.warnings }
}

impl Clone for Label {
    fn clone(&self) -> (r: Self)
        ensures
            r@ == self@,
    {
        Label { name: self.name.clone(), value: self.value.clone() }
    }
}

fn clone_labels(labels: &Vec<Label>) -> (r: Vec<Label>)
    ensures
        label_views(r@) == label_views(labels@),
{
    let mut out: Vec<Label> = Vec::new();
    let mut i: usize = 0;
    while i < labels.len()
        invariant
            i <= labels.len(),
            out@.len() == i,
            forall|j: int| 0 <= j < i ==> out@[j]@ == labels@[j]@,
        decreases labels.len() - i,
    {
        out.push(labels[i].clone());
        i += 1;
    }
    out
}

fn family_list() -> (r: Vec<Metric>)
    ensures
        r@ == family_order(),
{
    let mut order: Vec<Metric> = Vec::new();
    order.push(Metric::RepositoryInfo);
    order.push(Metric::SnapshotInfo);
    order.push(Metric::SnapshotFilesTotal);
    order.push(Metric::SnapshotTimestamp);
    order.push(Metric::SnapshotSizeBytes);
    order.push(Metric::SnapshotBackupStart);
    order.push(Metric::SnapshotBackupEnd);
    order.push(Metric::SnapshotBackupDuration);
    order
}

/// Picks the samples of the family `metric` out of `observations`.
pub fn collect_samples(observations: &Vec<Observation>, metric: Metric) -> (r: Vec<Sample>)
    ensures
        sample_views(r@) == samples_of(observation_views(observations@), metric),
{
    let mut out: Vec<Sample> = Vec::new();
    let mut i: usize = 0;
    proof {
        observation_views(observations@).take(0).lemma_filter_len(in_family(metric));
    }
    while i < observations.len()
        invariant
            i <= observations.len(),
            sample_views(out@) == samples_of(
                observation_views(observations@).take(i as int),
                metric,
            ),
        decreases observations.len() - i,
    {
        let observation = &observations[i];
        proof {
            let views = observation_views(observations@);
            assert(views.take(i + 1) =~= views.take(i as int).push(observation@));
            views.take(i as int).lemma_filter_push(observation@, in_family(metric));
        }
        if observation.metric == metric {
            out.push(
                Sample { labels: clone_labels(&observation.labels), value: observation.value },
            );
            proof {
                let views = observation_views(observations@);
                let kept = views.take(i as int).filter(in_family(metric));
                assert(kept.push(observation@).map_values(as_sample()) =~= kept.map_values(
                    as_sample(),
                ).push(as_sample()(observation@)));
            }
        }
        i += 1;
    }
    proof {
        let views = observation_views(observations@);
        assert(views.take(observations.len() as int) =~= views);
    }
    out
}

/// Groups `observations` into families.
pub fn group_families(observations: &Vec<Observation>) -> (r: Vec<MetricFamily>)
    ensures
        family_views(r@) == families_of(observation_views(observations@)),
{
    let order = family_list();
    let mut out: Vec<MetricFamily> = Vec::new();
    let ghost all = family_order().map_values(family_of(observation_views(observations@)));
    let mut k: usize = 0;
    proof {
        all.take(0).lemma_filter_len(is_populated());
    }
    while k < order.len()
        invariant
            k <= order.len(),
            order@ == family_order(),
            all == family_order().map_values(family_of(observation_views(observations@))),
            family_views(out@) == all.take(k as int).filter(is_populated()),
        decreases order.len() - k,
    {
        let metric = order[k];
        let samples = collect_samples(observations, metric);
        proof {
            let family = family_of(observation_views(observations@))(metric);
            assert(all.take(k + 1) =~= all.take(k as int).push(family));
            all.take(k as int).lemma_filter_push(family, is_populated());
        }
        if samples.len() > 0 {
            out.push(MetricFamily { metric, samples });
        }
        k += 1;
    }
    proof {
        assert(all.take(order.len() as int) =~= all);
    }
    out
}

/// Maps every target of `readings`, one after the other.
pub fn map_readings(readings: &Vec<Reading>) -> (r: Mapping)
    ensures
        r@ == readings_mapping(reading_views(readings@)),
{
    let mut out = Mapping::new();
    let mut i: usize = 0;
    while i < readings.len()
        invariant
            i <= readings.len(),
            out@ == readings_mapping(reading_views(readings@).take(i as int)),
        decreases readings.len() - i,
    {
        let reading = &readings[i];
        out.extend(map_target(reading.target.as_str(), &reading.state));
        proof {
            let views = reading_views(readings@);
            assert(views.take(i + 1).drop_last() =~= views.take(i as int));
        }
        i += 1;
    }
    proof {
        let views = reading_views(readings@);
        assert(views.take(readings.len() as int) =~= views);
    }
    out
}

/// Answers a scrape from what the targets have published.
///
/// A target that is not ready contributes nothing; the scrape succeeds
/// whatever the targets hold.
pub fn expose(readings: &Vec<Reading>) -> (r: Exposition)
    ensures
        r@ == exposition_of(reading_views(readings@)),
{
    let mapping = map_readings(readings);
    let families = group_families(&mapping.observations);
    Exposition { families, warnings: mapping.warnings }
}

/// Mapping two lists of readings one after the other is mapping the one list
/// that holds both.
pub proof fn lemma_readings_mapping_concat(first: Seq<ReadingView>, second: Seq<ReadingView>)
    ensures
        readings_mapping(first + second) == readings_mapping(first).followed_by(
            readings_mapping(second),
        ),
    decreases second.len(),
{
    let left = readings_mapping(first);
    if second.len() == 0 {
        lemma_followed_by_nothing(left);
    } else {
        lemma_readings_mapping_concat(first, second.drop_last());
        assert((first + second).drop_last() =~= first + second.drop_last());
        lemma_followed_by_is_associative(
            left,
            readings_mapping(second.drop_last()),
            target_mapping(second.last().target, second.last().state),
        );
    }
}

/// A target that is not ready is left out of a scrape: with or without its
/// reading, wherever it stands among the others, the answer is the same.
pub proof fn lemma_unready_target_is_left_out(
    readings: Seq<ReadingView>,
    at: int,
    unready: ReadingView,
)
    requires
        0 <= at <= readings.len(),
        !unready.state.ready,
    ensures
        exposition_of(readings.insert(at, unready)) == exposition_of(readings),
{
    let before = readings.take(at);
    let after = readings.skip(at);
    let one = seq![unready];
    assert(readings.insert(at, unready) =~= (before + one) + after);
    assert(readings =~= before + after);
    lemma_readings_mapping_concat(before + one, after);
    lemma_readings_mapping_concat(before, one);
    lemma_readings_mapping_concat(before, after);
    assert(readings_mapping(one.drop_last()) == MappingView::empty());
    lemma_followed_by_nothing(MappingView::empty());
    lemma_followed_by_nothing(readings_mapping(before));
}

/// Every family has its place in the order of exposition.
pub proof fn lemma_family_order_is_complete(metric: Metric)
    ensures
        exists|k: int| 0 <= k < family_order().len() && #[trigger] family_order()[k] == metric,
{
    match metric {
        Metric::RepositoryInfo => assert(family_order()[0] == metric),
        Metric::SnapshotInfo => assert(family_order()[1] == metric),
        Metric::SnapshotFilesTotal => assert(family_order()[2] == metric),
        Metric::SnapshotTimestamp => assert(family_order()[3] == metric),
        Metric::SnapshotSizeBytes => assert(family_order()[4] == metric),
        Metric::SnapshotBackupStart => assert(family_order()[5] == metric),
        Metric::SnapshotBackupEnd => assert(family_order()[6] == metric),
        Metric::SnapshotBackupDuration => assert(family_order()[7] == metric),
    }
}

/// Nothing is lost on the way into the families: every observation is a
/// sample of the family of its metric, and that family is exposed.
pub proof fn lemma_every_observation_is_exposed(observations: Seq<ObservationView>, i: int)
    requires
        0 <= i < observations.len(),
    ensures
        exists|k: int|
            0 <= k < families_of(observations).len() && (#[trigger] families_of(
                observations,
            )[k]).metric == observations[i].metric && families_of(
                observations,
            )[k].samples.contains(as_sample()(observations[i])),
{
    let metric = observations[i].metric;
    let kept = observations.filter(in_family(metric));
    observations.lemma_filter_contains(in_family(metric), i);
    let j = choose|j: int| 0 <= j < kept.len() && kept[j] == observations[i];
    let samples = samples_of(observations, metric);
    assert(samples[j] == as_sample()(observations[i]));
    lemma_family_order_is_complete(metric);
    let at = choose|k: int| 0 <= k < family_order().len() && #[trigger] family_order()[k] == metric;
    let all = family_order().map_values(family_of(observations));
    assert(all[at] == MetricFamilyView { metric, samples });
    all.lemma_filter_contains(is_populated(), at);
    let k = choose|k: int|
        0 <= k < families_of(observations).len() && families_of(observations)[k] == all[at];
    assert(families_of(observations)[k].metric == metric);
}

/// Nothing is made up on the way into the families: every sample of an
/// exposed family is an observation of that family's metric.
pub proof fn lemma_every_sample_is_an_observation(
    observations: Seq<ObservationView>,
    k: int,
    j: int,
)
    requires
        0 <= k < families_of(observations).len(),
        0 <= j < families_of(observations)[k].samples.len(),
    ensures
        exists|i: int|
            0 <= i < observations.len() && (#[trigger] observations[i]).metric == families_of(
                observations,
            )[k].metric && as_sample()(observations[i]) == families_of(
                observations,
            )[k].samples[j],
{
    let all = family_order().map_values(family_of(observations));
    let family = families_of(observations)[k];
    assert(all.filter(is_populated()).contains(family));
    all.lemma_filter_contains_rev(is_populated(), family);
    let at = choose|at: int| 0 <= at < all.len() && all[at] == family;
    let metric = family_order()[at];
    let kept = observations.filter(in_family(metric));
    assert(family.samples == kept.map_values(as_sample()));
    observations.lemma_filter_pred(in_family(metric), j);
    assert(kept.contains(kept[j]));
    observations.lemma_filter_contains_rev(in_family(metric), kept[j]);
    let i = choose|i: int| 0 <= i < observations.len() && observations[i] == kept[j];
    assert(observations[i].metric == family.metric);
}

} // verus!
