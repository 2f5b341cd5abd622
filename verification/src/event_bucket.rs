//! The aggregator's buffer: detected lines, grouped by source, until the next
//! flush.

use vstd::prelude::*;
use crate::config::GlobalConfig;
use crate::log_event::{LogEvent, LogEventView};
use crate::sender::payload::{
    logs_of_event, sources_view, Logs, LogsView, Payload, PayloadView, Source, SourceView,
};

verus! {

/// Lines per source name, oldest first.
pub type Groups = Map<Seq<char>, Seq<LogsView>>;

/// Whether one of `groups` carries the name `name`.
pub open spec fn has_source(groups: Seq<SourceView>, name: Seq<char>) -> bool {
    exists|i: int| 0 <= i < groups.len() && (#[trigger] groups[i]).source_name == name
}

/// The place of a group called `name` among `groups`.
pub open spec fn position_of(groups: Seq<SourceView>, name: Seq<char>) -> int {
    choose|i: int| 0 <= i < groups.len() && (#[trigger] groups[i]).source_name == name
}

/// No two of `groups` carry the same name.
pub open spec fn distinct_names(groups: Seq<SourceView>) -> bool {
    forall|i: int, j: int|
        0 <= i < j < groups.len() ==> (#[trigger] groups[i]).source_name != (
        #[trigger] groups[j]).source_name
}

/// None of `groups` is without lines.
pub open spec fn no_empty_group(groups: Seq<SourceView>) -> bool {
    forall|i: int| 0 <= i < groups.len() ==> (#[trigger] groups[i]).logs.len() > 0
}

/// The number of lines in `groups`, all sources together.
pub open spec fn total_logs(groups: Seq<SourceView>) -> nat
    decreases groups.len(),
{
    if groups.len() == 0 {
        0
    } else {
        total_logs(groups.drop_last()) + groups.last().logs.len()
    }
}

/// A run of source groups read as a map from source name to lines. The order
/// of the groups plays no part in it.
pub open spec fn grouped(groups: Seq<SourceView>) -> Groups {
    Map::new(
        |name: Seq<char>| has_source(groups, name),
        |name: Seq<char>| groups[position_of(groups, name)].logs,
    )
}

/// The lines held for `name`: none where the name is unknown.
pub open spec fn logs_for(groups: Groups, name: Seq<char>) -> Seq<LogsView> {
    if groups.contains_key(name) {
        groups[name]
    } else {
        Seq::empty()
    }
}

/// Mathematical value of an [`EventBucket`].
pub struct BucketView {
    /// Name under which batches are sent.
    pub agent_name: Seq<char>,
    /// The buffered lines of each source that has any.
    pub groups: Groups,
    /// Number of buffered lines, all sources together.
    pub total_size: nat,
    /// Number of buffered lines at which a flush is due.
    pub max_batch_size: nat,
}

impl BucketView {
    /// The bucket after `event` was put in.
    pub open spec fn received(self, event: LogEventView) -> BucketView {
        BucketView {
            groups: self.groups.insert(
                event.name,
                logs_for(self.groups, event.name).push(logs_of_event(event)),
            ),
            total_size: self.total_size + 1,
            ..self
        }
    }

    /// The bucket after a flush.
    pub open spec fn drained(self) -> BucketView {
        BucketView { groups: Map::empty(), total_size: 0, ..self }
    }

    /// Whether the size trigger has fired.
    pub open spec fn is_full(self) -> bool {
        self.total_size >= self.max_batch_size
    }

    /// Whether another line fits without the size trigger being overdue.
    pub open spec fn has_room(self) -> bool {
        self.total_size == 0 || self.total_size < self.max_batch_size
    }
}

/// Whether `payload` is a flush of `bucket`: it carries the agent's name and
/// exactly the buffered groups, each once, in some order.
pub open spec fn is_flush_of(payload: PayloadView, bucket: BucketView) -> bool {
    &&& payload.agent_name == bucket.agent_name
    &&& distinct_names(payload.sources)
    &&& no_empty_group(payload.sources)
    &&& grouped(payload.sources) == bucket.groups
    &&& total_logs(payload.sources) == bucket.total_size
}

/// In a run of distinctly named groups, each group is found under its name.
pub proof fn lemma_grouped_at(groups: Seq<SourceView>, i: int)
    requires
        distinct_names(groups),
        0 <= i < groups.len(),
    ensures
        has_source(groups, groups[i].source_name),
        position_of(groups, groups[i].source_name) == i,
        grouped(groups).contains_key(groups[i].source_name),
        grouped(groups)[groups[i].source_name] == groups[i].logs,
{
    let name = groups[i].source_name;
    let p = position_of(groups, name);
    assert(0 <= p < groups.len() && groups[p].source_name == name);
    if p < i {
        assert(groups[p].source_name != groups[i].source_name);
    } else if i < p {
        assert(groups[i].source_name != groups[p].source_name);
    }
}

/// Appending a group under a new name adds one entry to the map.
pub proof fn lemma_grouped_push(groups: Seq<SourceView>, group: SourceView)
    requires
        distinct_names(groups),
        !has_source(groups, group.source_name),
    ensures
        distinct_names(groups.push(group)),
        grouped(groups.push(group)) == grouped(groups).insert(group.source_name, group.logs),
        total_logs(groups.push(group)) == total_logs(groups) + group.logs.len(),
{
    let after = groups.push(group);
    assert(after.drop_last() == groups);
    assert forall|i: int, j: int| 0 <= i < j < after.len() implies (#[trigger] after[i]).source_name
        != (#[trigger] after[j]).source_name by {
        if j == groups.len() {
            assert(groups[i].source_name != group.source_name);
        } else {
            assert(groups[i].source_name != groups[j].source_name);
        }
    }
    let expected = grouped(groups).insert(group.source_name, group.logs);
    assert forall|name: Seq<char>| #[trigger]
        grouped(after).dom().contains(name) == expected.dom().contains(name) by {
        if has_source(after, name) {
            let p = position_of(after, name);
            assert(0 <= p < after.len() && after[p].source_name == name);
            if p < groups.len() {
                assert(groups[p].source_name == name);
            }
        }
        if name == group.source_name {
            assert(after[groups.len() as int].source_name == name);
        } else if has_source(groups, name) {
            let p = position_of(groups, name);
            assert(0 <= p < groups.len() && groups[p].source_name == name);
            assert(after[p].source_name == name);
        }
    }
    assert forall|name: Seq<char>| grouped(after).dom().contains(name) implies #[trigger]
        grouped(after)[name] == expected[name] by {
        if name == group.source_name {
            assert(after[groups.len() as int].source_name == name);
            lemma_grouped_at(after, groups.len() as int);
        } else {
            let p = position_of(groups, name);
            assert(0 <= p < groups.len() && groups[p].source_name == name);
            assert(after[p].source_name == name);
            lemma_grouped_at(after, p);
            lemma_grouped_at(groups, p);
        }
    }
    assert(grouped(after) =~= expected);
}

/// Putting other lines under the name of the group at `i` changes that one
/// entry of the map.
pub proof fn lemma_grouped_update(groups: Seq<SourceView>, i: int, group: SourceView)
    requires
        distinct_names(groups),
        0 <= i < groups.len(),
        group.source_name == groups[i].source_name,
    ensures
        distinct_names(groups.update(i, group)),
        grouped(groups.update(i, group)) == grouped(groups).insert(group.source_name, group.logs),
        total_logs(groups.update(i, group)) + groups[i].logs.len() == total_logs(groups)
            + group.logs.len(),
{
    let after = groups.update(i, group);
    assert forall|a: int, b: int| 0 <= a < b < after.len() implies (#[trigger] after[a]).source_name
        != (#[trigger] after[b]).source_name by {
        assert(groups[a].source_name != groups[b].source_name);
    }
    let expected = grouped(groups).insert(group.source_name, group.logs);
    assert forall|name: Seq<char>| #[trigger]
        grouped(after).dom().contains(name) == expected.dom().contains(name) by {
        if has_source(after, name) {
            let p = position_of(after, name);
            assert(0 <= p < after.len() && after[p].source_name == name);
            assert(groups[p].source_name == name);
        }
        if name == group.source_name {
            assert(after[i].source_name == name);
        } else if has_source(groups, name) {
            let p = position_of(groups, name);
            assert(0 <= p < groups.len() && groups[p].source_name == name);
            assert(after[p].source_name == name);
        }
    }
    assert forall|name: Seq<char>| grouped(after).dom().contains(name) implies #[trigger]
        grouped(after)[name] == expected[name] by {
        if name == group.source_name {
            assert(after[i].source_name == name);
            lemma_grouped_at(after, i);
        } else {
            let p = position_of(groups, name);
            assert(0 <= p < groups.len() && groups[p].source_name == name);
            assert(after[p].source_name == name);
            lemma_grouped_at(after, p);
            lemma_grouped_at(groups, p);
        }
    }
    assert(grouped(after) =~= expected);
    lemma_total_logs_update(groups, i, group);
}

/// Replacing the group at `i` changes the total by the difference in lines.
proof fn lemma_total_logs_update(groups: Seq<SourceView>, i: int, group: SourceView)
    requires
        0 <= i < groups.len(),
    ensures
        total_logs(groups.update(i, group)) + groups[i].logs.len() == total_logs(groups)
            + group.logs.len(),
    decreases groups.len(),
{
    let after = groups.update(i, group);
    if i == groups.len() - 1 {
        assert(after.drop_last() == groups.drop_last());
    } else {
        assert(after.drop_last() == groups.drop_last().update(i, group));
        lemma_total_logs_update(groups.drop_last(), i, group);
    }
}

/// Groups that all hold a line hold no line together only when there is no
/// group.
pub proof fn lemma_total_logs_zero(groups: Seq<SourceView>)
    requires
        no_empty_group(groups),
    ensures
        total_logs(groups) == 0 <==> groups.len() == 0,
{
    if groups.len() > 0 {
        assert(groups[groups.len() - 1].logs.len() > 0);
    }
}

/// The buffer of the aggregator.
pub struct EventBucket {
    bucket: Vec<Source>,
    agent_name: String,
    max_batch_size: u8,
    total_size: usize,
}

impl View for EventBucket {
    type V = BucketView;

    closed spec fn view(&self) -> BucketView {
        BucketView {
            agent_name: self.agent_name@,
            groups: grouped(sources_view(self.bucket@)),
            total_size: self.total_size as nat,
            max_batch_size: self.max_batch_size as nat,
        }
    }
}

impl EventBucket {
    /// The invariant of the buffer: one group per source name, no group
    /// without lines, and a size that counts the buffered lines.
    pub closed spec fn wf(&self) -> bool {
        &&& distinct_names(sources_view(self.bucket@))
        &&& no_empty_group(sources_view(self.bucket@))
        &&& self.total_size == total_logs(sources_view(self.bucket@))
    }

    /// A well-formed bucket holds no line exactly when it knows no source.
    pub proof fn lemma_empty(&self)
        requires
            self.wf(),
        ensures
            self@.total_size == 0 <==> self@.groups == Map::<Seq<char>, Seq<LogsView>>::empty(),
            self@.total_size <= usize::MAX,
    {
        let groups = sources_view(self.bucket@);
        lemma_total_logs_zero(groups);
        if groups.len() > 0 {
            lemma_grouped_at(groups, 0);
            assert(self@.groups.contains_key(groups[0].source_name));
        } else {
            assert(self@.groups =~= Map::<Seq<char>, Seq<LogsView>>::empty());
        }
    }

    /// An empty bucket that sends in the name of `global.agent_name` and asks
    /// for a flush at `global.max_batch_size` buffered lines.
    pub fn new(global: &GlobalConfig) -> (bucket: EventBucket)
        ensures
            bucket.wf(),
            bucket@ == (BucketView {
                agent_name: global.agent_name@,
                groups: Map::empty(),
                total_size: 0,
                max_batch_size: global.max_batch_size as nat,
            }),
    {
        let bucket = EventBucket {
            bucket: Vec::new(),
            agent_name: global.agent_name.clone(),
            max_batch_size: global.max_batch_size,
            total_size: 0,
        };
        assert(bucket@.groups =~= Map::<Seq<char>, Seq<LogsView>>::empty());
        bucket
    }

    /// The place of the group called `name`, or the number of groups where
    /// there is none.
    fn position(&self, name: &String) -> (at: usize)
        ensures
            at <= self.bucket.len(),
            at < self.bucket.len() ==> self.bucket[at as int].source_name@ == name@,
            at == self.bucket.len() ==> !has_source(sources_view(self.bucket@), name@),
    {
        let mut at: usize = 0;
        while at < self.bucket.len()
            invariant
                at <= self.bucket.len(),
                forall|k: int| 0 <= k < at ==> self.bucket[k].source_name@ != name@,
            decreases self.bucket.len() - at,
        {
            if self.bucket[at].source_name == *name {
                return at;
            }
            at += 1;
        }
        at
    }

    /// Puts `event` behind the lines already held for its source and reports
    /// with `Some` that the size trigger has fired.
    pub fn receive(&mut self, event: LogEvent) -> (full: Option<()>)
        requires
            old(self).wf(),
            old(self)@.total_size < usize::MAX,
        ensures
            final(self).wf(),
            final(self)@ == old(self)@.received(event@),
            full is Some <==> final(self)@.is_full(),
    {
        let ghost before = sources_view(self.bucket@);
        let ghost line = logs_of_event(event@);
        let at = self.position(&event.name);
        if at < self.bucket.len() {
            let logs = Logs::from_event(event);
            self.bucket[at].logs.push(logs);
            proof {
                let after = sources_view(self.bucket@);
                let group = SourceView {
                    source_name: before[at as int].source_name,
                    logs: before[at as int].logs.push(line),
                };
                assert(after[at as int].logs =~= group.logs);
                assert(after =~= before.update(at as int, group));
                lemma_grouped_at(before, at as int);
                lemma_grouped_update(before, at as int, group);
                assert forall|i: int| 0 <= i < after.len() implies (#[trigger] after[i]).logs.len()
                    > 0 by {
                    assert(before[i].logs.len() > 0);
                }
            }
        } else {
            let source_name = event.name.clone();
            let logs = Logs::from_event(event);
            let mut lines: Vec<Logs> = Vec::new();
            lines.push(logs);
            self.bucket.push(Source::new(source_name, lines));
            proof {
                let after = sources_view(self.bucket@);
                let group = SourceView {
                    source_name: event@.name,
                    logs: Seq::<LogsView>::empty().push(line),
                };
                assert(after[before.len() as int].logs =~= group.logs);
                assert(after =~= before.push(group));
                lemma_grouped_push(before, group);
                assert forall|i: int| 0 <= i < after.len() implies (#[trigger] after[i]).logs.len()
                    > 0 by {
                    if i < before.len() {
                        assert(before[i].logs.len() > 0);
                    }
                }
            }
        }
        self.total_size += 1;
        if self.total_size >= self.max_batch_size as usize {
            Some(())
        } else {
            None
        }
    }

    /// Number of buffered lines, all sources together.
    pub fn len(&self) -> (len: usize)
        ensures
            len == self@.total_size,
    {
        self.total_size
    }

    /// Whether no line is buffered.
    pub fn is_empty(&self) -> (empty: bool)
        requires
            self.wf(),
        ensures
            empty == (self@.total_size == 0),
            empty == (self@.groups == Map::<Seq<char>, Seq<LogsView>>::empty()),
    {
        proof {
            self.lemma_empty();
            lemma_total_logs_zero(sources_view(self.bucket@));
        }
        self.bucket.is_empty()
    }

    /// Flushes: everything buffered leaves in one payload and the bucket is
    /// empty again.
    pub fn drain_to_payload(&mut self) -> (payload: Payload)
        requires
            old(self).wf(),
        ensures
            final(self).wf(),
            final(self)@ == old(self)@.drained(),
            is_flush_of(payload@, old(self)@),
    {
        self.total_size = 0;
        let mut sources: Vec<Source> = Vec::new();
        std::mem::swap(&mut self.bucket, &mut sources);
        assert(final(self)@.groups =~= Map::<Seq<char>, Seq<LogsView>>::empty()) by {
            assert(sources_view(self.bucket@).len() == 0);
        }
        Payload::new(self.agent_name.clone(), sources)
    }
}

/// What reached the aggregator since its last step.
#[derive(Clone, Debug, PartialEq, Eq)]
pub enum AggregatorInput {
    /// The flush period has passed.
    Tick,
    /// A detector handed in a line.
    Event(LogEvent),
    /// Every detector has gone and the queue is drained.
    Closed,
}

/// Mathematical value of an [`AggregatorInput`].
pub enum AggregatorInputView {
    Tick,
    Event(LogEventView),
    Closed,
}

impl View for AggregatorInput {
    type V = AggregatorInputView;

    open spec fn view(&self) -> AggregatorInputView {
        match self {
            AggregatorInput::Tick => AggregatorInputView::Tick,
            AggregatorInput::Event(event) => AggregatorInputView::Event(event@),
            AggregatorInput::Closed => AggregatorInputView::Closed,
        }
    }
}

/// What the aggregator's loop has to do next.
#[derive(Clone, Debug, PartialEq, Eq)]
pub enum AggregatorAction {
    /// Nothing to send: wait for the next input.
    Wait,
    /// Hand the payload to the dispatcher, then wait for the next input.
    Send(Payload),
    /// Hand the payload to the dispatcher, then stop.
    SendAndStop(Payload),
    /// Stop: nothing is buffered and nothing more will come.
    Stop,
}

/// The bucket once `input` is taken in and before any flush.
pub open spec fn taken(bucket: BucketView, input: AggregatorInputView) -> BucketView {
    match input {
        AggregatorInputView::Event(event) => bucket.received(event),
        _ => bucket,
    }
}

/// Whether `input` makes the aggregator flush: a line that fills the batch,
/// or a tick or the end of input while something is buffered.
pub open spec fn flushes(bucket: BucketView, input: AggregatorInputView) -> bool {
    match input {
        AggregatorInputView::Event(event) => bucket.received(event).is_full(),
        _ => bucket.total_size > 0,
    }
}

/// The bucket after the step on `input`.
pub open spec fn stepped(bucket: BucketView, input: AggregatorInputView) -> BucketView {
    if flushes(bucket, input) {
        taken(bucket, input).drained()
    } else {
        taken(bucket, input)
    }
}

/// Whether `action` is the aggregator's answer to `input` in state `bucket`.
pub open spec fn answers(
    bucket: BucketView,
    input: AggregatorInputView,
    action: AggregatorAction,
) -> bool {
    match action {
        AggregatorAction::Wait => !flushes(bucket, input) && !(input is Closed),
        AggregatorAction::Send(payload) => flushes(bucket, input) && !(input is Closed)
            && is_flush_of(payload@, taken(bucket, input)),
        AggregatorAction::SendAndStop(payload) => flushes(bucket, input) && input is Closed
            && is_flush_of(payload@, taken(bucket, input)),
        AggregatorAction::Stop => !flushes(bucket, input) && input is Closed,
    }
}

/// One step of the aggregator: takes `input` in and says what to do.
///
/// A line is buffered, and the batch is flushed once it holds
/// `max_batch_size` lines. A tick flushes whatever is buffered. The end of
/// input flushes a last time and stops.
pub fn aggregate(bucket: &mut EventBucket, input: AggregatorInput) -> (action: AggregatorAction)
    requires
        old(bucket).wf(),
        old(bucket)@.total_size < usize::MAX,
    ensures
        final(bucket).wf(),
        final(bucket)@ == stepped(old(bucket)@, input@),
        final(bucket)@.has_room(),
        answers(old(bucket)@, input@, action),
{
    match input {
        AggregatorInput::Tick => {
            if !bucket.is_empty() {
                AggregatorAction::Send(bucket.drain_to_payload())
            } else {
                AggregatorAction::Wait
            }
        },
        AggregatorInput::Event(event) => {
            if bucket.receive(event).is_some() {
                AggregatorAction::Send(bucket.drain_to_payload())
            } else {
                AggregatorAction::Wait
            }
        },
        AggregatorInput::Closed => {
            if !bucket.is_empty() {
                AggregatorAction::SendAndStop(bucket.drain_to_payload())
            } else {
                AggregatorAction::Stop
            }
        },
    }
}

/// The bucket after the steps on `inputs`, one after the other.
pub open spec fn stepped_all(bucket: BucketView, inputs: Seq<AggregatorInputView>) -> BucketView
    decreases inputs.len(),
{
    if inputs.len() == 0 {
        bucket
    } else {
        stepped(stepped_all(bucket, inputs.drop_last()), inputs.last())
    }
}

/// The lines of source `name` that `input` brings.
pub open spec fn arrived(input: AggregatorInputView, name: Seq<char>) -> Seq<LogsView> {
    match input {
        AggregatorInputView::Event(event) if event.name == name => seq![logs_of_event(event)],
        _ => Seq::empty(),
    }
}

/// The lines of source `name` among `inputs`, in their order of arrival.
pub open spec fn arrived_all(inputs: Seq<AggregatorInputView>, name: Seq<char>) -> Seq<LogsView>
    decreases inputs.len(),
{
    if inputs.len() == 0 {
        Seq::empty()
    } else {
        arrived_all(inputs.drop_last(), name) + arrived(inputs.last(), name)
    }
}

/// The lines of source `name` that leave in the flush, if any, of the step
/// on `input`.
pub open spec fn flushed(bucket: BucketView, input: AggregatorInputView, name: Seq<char>) -> Seq<
    LogsView,
> {
    if flushes(bucket, input) {
        logs_for(taken(bucket, input).groups, name)
    } else {
        Seq::empty()
    }
}

/// The lines of source `name` that leave in the flushes of the steps on
/// `inputs`, payload after payload.
pub open spec fn flushed_all(
    bucket: BucketView,
    inputs: Seq<AggregatorInputView>,
    name: Seq<char>,
) -> Seq<LogsView>
    decreases inputs.len(),
{
    if inputs.len() == 0 {
        Seq::empty()
    } else {
        flushed_all(bucket, inputs.drop_last(), name) + flushed(
            stepped_all(bucket, inputs.drop_last()),
            inputs.last(),
            name,
        )
    }
}

/// One step neither loses, repeats nor reorders a line: what was buffered
/// for a source, followed by what the input brings for it, is what leaves in
/// the flush followed by what stays buffered.
pub proof fn lemma_step_keeps_lines(
    bucket: BucketView,
    input: AggregatorInputView,
    name: Seq<char>,
)
    ensures
        flushed(bucket, input, name) + logs_for(stepped(bucket, input).groups, name) == logs_for(
            bucket.groups,
            name,
        ) + arrived(input, name),
{
    let kept = logs_for(taken(bucket, input).groups, name);
    assert(kept =~= logs_for(bucket.groups, name) + arrived(input, name));
    if flushes(bucket, input) {
        assert(flushed(bucket, input, name) + logs_for(stepped(bucket, input).groups, name)
            =~= kept);
    } else {
        assert(flushed(bucket, input, name) + logs_for(stepped(bucket, input).groups, name)
            =~= kept);
    }
}

/// Over any run of inputs the aggregator accounts for every line exactly
/// once and keeps the order within each source: the lines first buffered for
/// a source, followed by those that arrived for it, are the lines that left
/// in flushes followed by those still buffered.
pub proof fn lemma_every_line_accounted_for(
    bucket: BucketView,
    inputs: Seq<AggregatorInputView>,
    name: Seq<char>,
)
    ensures
        flushed_all(bucket, inputs, name) + logs_for(stepped_all(bucket, inputs).groups, name)
            == logs_for(bucket.groups, name) + arrived_all(inputs, name),
    decreases inputs.len(),
{
    if inputs.len() == 0 {
        assert(flushed_all(bucket, inputs, name) + logs_for(
            stepped_all(bucket, inputs).groups,
            name,
        ) =~= logs_for(bucket.groups, name) + arrived_all(inputs, name));
    } else {
        let earlier = inputs.drop_last();
        let before = stepped_all(bucket, earlier);
        lemma_every_line_accounted_for(bucket, earlier, name);
        lemma_step_keeps_lines(before, inputs.last(), name);
        let left_early = flushed_all(bucket, earlier, name);
        let left_now = flushed(before, inputs.last(), name);
        let stays = logs_for(stepped(before, inputs.last()).groups, name);
        assert((left_early + left_now) + stays =~= left_early + (left_now + stays));
        assert((left_early + logs_for(before.groups, name)) + arrived(inputs.last(), name)
            =~= left_early + (logs_for(before.groups, name) + arrived(inputs.last(), name)));
        assert((logs_for(bucket.groups, name) + arrived_all(earlier, name)) + arrived(
            inputs.last(),
            name,
        ) =~= logs_for(bucket.groups, name) + (arrived_all(earlier, name) + arrived(
            inputs.last(),
            name,
        )));
    }
}

/// Once the input has ended nothing stays buffered: whatever was buffered
/// has left in the last flush.
pub proof fn lemma_closed_leaves_nothing(bucket: BucketView, name: Seq<char>)
    requires
        bucket.total_size == 0 ==> bucket.groups == Map::<Seq<char>, Seq<LogsView>>::empty(),
    ensures
        stepped(bucket, AggregatorInputView::Closed).total_size == 0,
        stepped(bucket, AggregatorInputView::Closed).groups == Map::<
            Seq<char>,
            Seq<LogsView>,
        >::empty(),
        flushed(bucket, AggregatorInputView::Closed, name) == logs_for(bucket.groups, name),
{
}

} // verus!
