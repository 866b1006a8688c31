//! The metadata cache: an in-memory snapshot of brokers, topics with their
//! partitions, and consumer groups, rebuilt wholesale on each refresh and
//! queried by name.

use vstd::prelude::*;
use vstd::string::*;
use crate::command::{spec_partition_label, get_topic_and_parition_id};
use crate::strings::{
    i32_to_dec_string, sort_names, sorted_le, spec_dec_i64, str_eq, views_of,
};

verus! {

/// Ghost image of a broker.
pub struct BrokerView {
    pub id: i32,
    pub name: Seq<char>,
    pub state: Seq<char>,
}

/// One broker of the cluster, as shown in the brokers list.
pub struct Broker {
    pub id: i32,
    pub name: String,
    pub state: String,
}

impl View for Broker {
    type V = BrokerView;

    open spec fn view(&self) -> BrokerView {
        BrokerView { id: self.id, name: self.name@, state: self.state@ }
    }
}

impl Clone for Broker {
    fn clone(&self) -> (r: Self)
        ensures
            r@ == self@,
    {
        Broker { id: self.id, name: self.name.clone(), state: self.state.clone() }
    }
}

/// The display name a metadata-derived broker gets: `host:port/id`.
pub open spec fn spec_broker_name(host: Seq<char>, port: int, id: int) -> Seq<char> {
    host + (":")@ + spec_dec_i64(port) + ("/")@ + spec_dec_i64(id)
}

impl Broker {
    /// A broker built from cluster metadata; its state is left empty,
    /// statistics-derived snapshots are the only source of a state text.
    pub fn new(id: i32, host: &str, port: i32) -> (r: Broker)
        ensures
            r@.id == id,
            r@.name == spec_broker_name(host@, port as int, id as int),
            r@.state == Seq::<char>::empty(),
    {
        let mut name = String::from_str(host);
        name.append(":");
        let port_str = i32_to_dec_string(port);
        name.append(port_str.as_str());
        name.append("/");
        let id_str = i32_to_dec_string(id);
        name.append(id_str.as_str());
        proof {
            assert(name@ =~= spec_broker_name(host@, port as int, id as int));
        }
        let state = String::new();
        Broker { id, name, state }
    }

    pub fn name(&self) -> (r: &str)
        ensures
            r@ == self@.name,
    {
        self.name.as_str()
    }

    pub fn id(&self) -> (r: i32)
        ensures
            r == self@.id,
    {
        self.id
    }

    pub fn state(&self) -> (r: &str)
        ensures
            r@ == self@.state,
    {
        self.state.as_str()
    }
}

/// Ghost image of a partition.
pub struct PartitionView {
    pub id: i32,
    pub leader: i32,
    pub isr: Seq<i32>,
    pub replicas: Seq<i32>,
}

/// One partition of a topic. Statistics-derived partitions leave `isr` and
/// `replicas` empty; that asymmetry comes with the two sources and is kept.
pub struct Partition {
    pub id: i32,
    pub leader: i32,
    pub isr: Vec<i32>,
    pub replicas: Vec<i32>,
}

impl View for Partition {
    type V = PartitionView;

    open spec fn view(&self) -> PartitionView {
        PartitionView {
            id: self.id,
            leader: self.leader,
            isr: self.isr@,
            replicas: self.replicas@,
        }
    }
}

impl Clone for Partition {
    fn clone(&self) -> (r: Self)
        ensures
            r@ == self@,
    {
        let r = Partition {
            id: self.id,
            leader: self.leader,
            isr: self.isr.clone(),
            replicas: self.replicas.clone(),
        };
        proof {
            assert(r.isr@ =~= self.isr@);
            assert(r.replicas@ =~= self.replicas@);
        }
        r
    }
}

impl Partition {
    pub fn id(&self) -> (r: i32)
        ensures
            r == self@.id,
    {
        self.id
    }

    pub fn leader(&self) -> (r: i32)
        ensures
            r == self@.leader,
    {
        self.leader
    }

    pub fn isr(&self) -> (r: Vec<i32>)
        ensures
            r@ == self@.isr,
    {
        let r = self.isr.clone();
        proof {
            assert(r@ =~= self.isr@);
        }
        r
    }

    pub fn replicas(&self) -> (r: Vec<i32>)
        ensures
            r@ == self@.replicas,
    {
        let r = self.replicas.clone();
        proof {
            assert(r@ =~= self.replicas@);
        }
        r
    }
}

/// Ghost image of a topic.
pub struct TopicView {
    pub name: Seq<char>,
    pub partitions: Seq<PartitionView>,
}

/// One topic with its ordered partitions.
pub struct Topic {
    pub name: String,
    pub partitions: Vec<Partition>,
}

impl View for Topic {
    type V = TopicView;

    open spec fn view(&self) -> TopicView {
        TopicView {
            name: self.name@,
            partitions: self.partitions@.map_values(|p: Partition| p@),
        }
    }
}

impl Clone for Topic {
    fn clone(&self) -> (r: Self)
        ensures
            r@ == self@,
    {
        let r = Topic { name: self.name.clone(), partitions: self.partitions.clone() };
        proof {
            assert(r@.partitions =~= self@.partitions);
        }
        r
    }
}

/// The label of one partition in the partitions list: `<topic>/<id>`.
pub open spec fn spec_partition_name(topic: Seq<char>, id: int) -> Seq<char> {
    topic + ("/")@ + spec_dec_i64(id)
}

impl Topic {
    pub fn name(&self) -> (r: &str)
        ensures
            r@ == self@.name,
    {
        self.name.as_str()
    }

    pub fn partitions(&self) -> (r: &Vec<Partition>)
        ensures
            r@.map_values(|p: Partition| p@) == self@.partitions,
    {
        &self.partitions
    }

    /// The labels under which this topic's partitions appear in the
    /// partitions list; each one parses back to the topic and the id.
    pub fn partition_names(&self) -> (r: Vec<String>)
        ensures
            r@.len() == self@.partitions.len(),
            forall|i: int|
                0 <= i < r@.len() ==> (#[trigger] r@[i])@ == spec_partition_name(
                    self@.name,
                    self@.partitions[i].id as int,
                ),
    {
        let mut r: Vec<String> = Vec::new();
        let mut i: usize = 0;
        while i < self.partitions.len()
            invariant
                i <= self.partitions@.len(),
                r@.len() == i,
                forall|j: int|
                    0 <= j < i ==> (#[trigger] r@[j])@ == spec_partition_name(
                        self@.name,
                        self@.partitions[j].id as int,
                    ),
            decreases self.partitions@.len() - i,
        {
            let mut label = self.name.clone();
            label.append("/");
            let id_str = i32_to_dec_string(self.partitions[i].id);
            label.append(id_str.as_str());
            proof {
                assert(label@ =~= spec_partition_name(self@.name, self@.partitions[i as int].id as int));
            }
            r.push(label);
            i += 1;
        }
        r
    }
}

/// Ghost image of a consumer-group member.
pub struct ConsumerGroupMemberView {
    pub id: Seq<char>,
}

/// One member of a consumer group.
pub struct ConsumerGroupMember {
    pub id: String,
}

impl View for ConsumerGroupMember {
    type V = ConsumerGroupMemberView;

    open spec fn view(&self) -> ConsumerGroupMemberView {
        ConsumerGroupMemberView { id: self.id@ }
    }
}

impl Clone for ConsumerGroupMember {
    fn clone(&self) -> (r: Self)
        ensures
            r@ == self@,
    {
        ConsumerGroupMember { id: self.id.clone() }
    }
}

/// Ghost image of a consumer group.
pub struct ConsumerGroupView {
    pub name: Seq<char>,
    pub members: Seq<ConsumerGroupMemberView>,
    pub state: Seq<char>,
}

/// One consumer group known to the cluster.
pub struct ConsumerGroup {
    pub name: String,
    pub members: Vec<ConsumerGroupMember>,
    pub state: String,
}

impl View for ConsumerGroup {
    type V = ConsumerGroupView;

    open spec fn view(&self) -> ConsumerGroupView {
        ConsumerGroupView {
            name: self.name@,
            members: self.members@.map_values(|m: ConsumerGroupMember| m@),
            state: self.state@,
        }
    }
}

impl Clone for ConsumerGroup {
    fn clone(&self) -> (r: Self)
        ensures
            r@ == self@,
    {
        let r = ConsumerGroup {
            name: self.name.clone(),
            members: self.members.clone(),
            state: self.state.clone(),
        };
        proof {
            assert(r@.members =~= self@.members);
        }
        r
    }
}

impl ConsumerGroup {
    pub fn name(&self) -> (r: &str)
        ensures
            r@ == self@.name,
    {
        self.name.as_str()
    }

    pub fn state(&self) -> (r: &str)
        ensures
            r@ == self@.state,
    {
        self.state.as_str()
    }

    pub fn members_count(&self) -> (r: usize)
        ensures
            r == self@.members.len(),
    {
        self.members.len()
    }
}

/// Ghost image of the whole cache: one point-in-time snapshot.
pub struct MetadataView {
    pub brokers: Seq<BrokerView>,
    pub topics: Seq<TopicView>,
    pub consumer_groups: Seq<ConsumerGroupView>,
}

/// The metadata cache. It is created empty, then replaced wholesale by
/// `update`; lookups scan the current snapshot.
pub struct Metadata {
    pub brokers: Vec<Broker>,
    pub topics: Vec<Topic>,
    pub consumer_groups: Vec<ConsumerGroup>,
}

impl View for Metadata {
    type V = MetadataView;

    open spec fn view(&self) -> MetadataView {
        MetadataView {
            brokers: self.brokers@.map_values(|b: Broker| b@),
            topics: self.topics@.map_values(|t: Topic| t@),
            consumer_groups: self.consumer_groups@.map_values(|g: ConsumerGroup| g@),
        }
    }
}

/// The first broker carrying the name, scanning from the front.
pub open spec fn first_broker_match(bs: Seq<BrokerView>, name: Seq<char>) -> Option<BrokerView>
    decreases bs.len(),
{
    if bs.len() == 0 {
        None
    } else if bs[0].name == name {
        Some(bs[0])
    } else {
        first_broker_match(bs.drop_first(), name)
    }
}

/// The first topic carrying the name.
pub open spec fn first_topic_match(ts: Seq<TopicView>, name: Seq<char>) -> Option<TopicView>
    decreases ts.len(),
{
    if ts.len() == 0 {
        None
    } else if ts[0].name == name {
        Some(ts[0])
    } else {
        first_topic_match(ts.drop_first(), name)
    }
}

/// The first consumer group carrying the name.
pub open spec fn first_group_match(gs: Seq<ConsumerGroupView>, name: Seq<char>) -> Option<
    ConsumerGroupView,
>
    decreases gs.len(),
{
    if gs.len() == 0 {
        None
    } else if gs[0].name == name {
        Some(gs[0])
    } else {
        first_group_match(gs.drop_first(), name)
    }
}

/// The first partition carrying the id.
pub open spec fn first_partition_match(ps: Seq<PartitionView>, id: int) -> Option<PartitionView>
    decreases ps.len(),
{
    if ps.len() == 0 {
        None
    } else if ps[0].id as int == id {
        Some(ps[0])
    } else {
        first_partition_match(ps.drop_first(), id)
    }
}

/// What looking a partition label up in a snapshot yields: the label is
/// parsed, the topic found by name, the partition by id.
pub open spec fn spec_get_partition(m: MetadataView, label: Seq<char>) -> Option<PartitionView> {
    match spec_partition_label(label) {
        None => None,
        Some(p) => match first_topic_match(m.topics, p.0) {
            None => None,
            Some(t) => first_partition_match(t.partitions, p.1),
        },
    }
}

/// Partitions led by the broker, across one topic.
pub open spec fn count_leaders(ps: Seq<PartitionView>, id: i32) -> nat
    decreases ps.len(),
{
    if ps.len() == 0 {
        0
    } else {
        (if ps[0].leader == id {
            1nat
        } else {
            0nat
        }) + count_leaders(ps.drop_first(), id)
    }
}

/// Partitions led by the broker, across all topics.
pub open spec fn count_partitions_for_broker(ts: Seq<TopicView>, id: i32) -> nat
    decreases ts.len(),
{
    if ts.len() == 0 {
        0
    } else {
        count_leaders(ts[0].partitions, id) + count_partitions_for_broker(ts.drop_first(), id)
    }
}

/// All partitions across the topics.
pub open spec fn total_partitions(ts: Seq<TopicView>) -> nat
    decreases ts.len(),
{
    if ts.len() == 0 {
        0
    } else {
        ts[0].partitions.len() + total_partitions(ts.drop_first())
    }
}

proof fn lemma_count_leaders_le_len(ps: Seq<PartitionView>, id: i32)
    ensures
        count_leaders(ps, id) <= ps.len(),
    decreases ps.len(),
{
    if ps.len() > 0 {
        lemma_count_leaders_le_len(ps.drop_first(), id);
    }
}

/// No broker leads more partitions than there are.
pub proof fn lemma_count_for_broker_le_total(ts: Seq<TopicView>, id: i32)
    ensures
        count_partitions_for_broker(ts, id) <= total_partitions(ts),
    decreases ts.len(),
{
    if ts.len() > 0 {
        lemma_count_leaders_le_len(ts[0].partitions, id);
        lemma_count_for_broker_le_total(ts.drop_first(), id);
    }
}

impl Metadata {
    /// The empty cache the process starts from.
    pub fn new() -> (m: Metadata)
        ensures
            m@.brokers == Seq::<BrokerView>::empty(),
            m@.topics == Seq::<TopicView>::empty(),
            m@.consumer_groups == Seq::<ConsumerGroupView>::empty(),
    {
        let m = Metadata { brokers: Vec::new(), topics: Vec::new(), consumer_groups: Vec::new() };
        proof {
            assert(m@.brokers =~= Seq::<BrokerView>::empty());
            assert(m@.topics =~= Seq::<TopicView>::empty());
            assert(m@.consumer_groups =~= Seq::<ConsumerGroupView>::empty());
        }
        m
    }

    /// Replaces the whole snapshot in one step: every component of the new
    /// cache comes from the arguments of this one call, none survives from
    /// the old snapshot. Readers that take the cache before or after this
    /// call therefore always see one point-in-time snapshot, never a mix.
    pub fn update(
        &mut self,
        brokers: Vec<Broker>,
        topics: Vec<Topic>,
        consumer_groups: Vec<ConsumerGroup>,
    )
        ensures
            final(self)@.brokers == brokers@.map_values(|b: Broker| b@),
            final(self)@.topics == topics@.map_values(|t: Topic| t@),
            final(self)@.consumer_groups == consumer_groups@.map_values(|g: ConsumerGroup| g@),
    {
        self.brokers = brokers;
        self.topics = topics;
        self.consumer_groups = consumer_groups;
    }

    /// The broker names, sorted for display.
    pub fn brokers_list(&self) -> (r: Vec<String>)
        ensures
            sorted_le(views_of(r@)),
            views_of(r@).to_multiset() == self@.brokers.map_values(
                |b: BrokerView| b.name,
            ).to_multiset(),
    {
        let mut names: Vec<String> = Vec::new();
        let mut i: usize = 0;
        while i < self.brokers.len()
            invariant
                i <= self.brokers@.len(),
                self.brokers@.len() == self@.brokers.len(),
                names@.len() == i,
                forall|k: int| 0 <= k < i ==> (#[trigger] names@[k])@ == self@.brokers[k].name,
            decreases self.brokers@.len() - i,
        {
            names.push(self.brokers[i].name.clone());
            i += 1;
        }
        proof {
            assert(views_of(names@) =~= self@.brokers.map_values(|b: BrokerView| b.name));
        }
        sort_names(&names)
    }

    /// The topic names, sorted for display.
    pub fn topics_list(&self) -> (r: Vec<String>)
        ensures
            sorted_le(views_of(r@)),
            views_of(r@).to_multiset() == self@.topics.map_values(
                |t: TopicView| t.name,
            ).to_multiset(),
    {
        let mut names: Vec<String> = Vec::new();
        let mut i: usize = 0;
        while i < self.topics.len()
            invariant
                i <= self.topics@.len(),
                self.topics@.len() == self@.topics.len(),
                names@.len() == i,
                forall|k: int| 0 <= k < i ==> (#[trigger] names@[k])@ == self@.topics[k].name,
            decreases self.topics@.len() - i,
        {
            names.push(self.topics[i].name.clone());
            i += 1;
        }
        proof {
            assert(views_of(names@) =~= self@.topics.map_values(|t: TopicView| t.name));
        }
        sort_names(&names)
    }

    /// The consumer-group names, sorted for display.
    pub fn consumer_group_lists(&self) -> (r: Vec<String>)
        ensures
            sorted_le(views_of(r@)),
            views_of(r@).to_multiset() == self@.consumer_groups.map_values(
                |g: ConsumerGroupView| g.name,
            ).to_multiset(),
    {
        let mut names: Vec<String> = Vec::new();
        let mut i: usize = 0;
        while i < self.consumer_groups.len()
            invariant
                i <= self.consumer_groups@.len(),
                self.consumer_groups@.len() == self@.consumer_groups.len(),
                names@.len() == i,
                forall|k: int|
                    0 <= k < i ==> (#[trigger] names@[k])@ == self@.consumer_groups[k].name,
            decreases self.consumer_groups@.len() - i,
        {
            names.push(self.consumer_groups[i].name.clone());
            i += 1;
        }
        proof {
            assert(views_of(names@) =~= self@.consumer_groups.map_values(
                |g: ConsumerGroupView| g.name,
            ));
        }
        sort_names(&names)
    }

    /// The first broker with the display name, if any.
    pub fn get_broker(&self, name: &str) -> (r: Option<Broker>)
        ensures
            match r {
                Some(b) => first_broker_match(self@.brokers, name@) == Some(b@),
                None => first_broker_match(self@.brokers, name@) is None,
            },
    {
        let ghost bs = self@.brokers;
        let mut i: usize = 0;
        proof {
            assert(bs.skip(0) =~= bs);
        }
        while i < self.brokers.len()
            invariant
                i <= self.brokers@.len(),
                self.brokers@.len() == bs.len(),
                bs == self@.brokers,
                first_broker_match(bs, name@) == first_broker_match(bs.skip(i as int), name@),
            decreases self.brokers@.len() - i,
        {
            proof {
                assert(bs.skip(i as int)[0] == bs[i as int]);
                assert(bs.skip(i as int).drop_first() =~= bs.skip(i + 1));
            }
            if str_eq(self.brokers[i].name.as_str(), name) {
                return Some(self.brokers[i].clone());
            }
            i += 1;
        }
        proof {
            assert(bs.skip(i as int).len() == 0);
        }
        None
    }

    /// The first consumer group with the name, if any.
    pub fn get_consumer_group(&self, name: &str) -> (r: Option<ConsumerGroup>)
        ensures
            match r {
                Some(g) => first_group_match(self@.consumer_groups, name@) == Some(g@),
                None => first_group_match(self@.consumer_groups, name@) is None,
            },
    {
        let ghost gs = self@.consumer_groups;
        let mut i: usize = 0;
        proof {
            assert(gs.skip(0) =~= gs);
        }
        while i < self.consumer_groups.len()
            invariant
                i <= self.consumer_groups@.len(),
                self.consumer_groups@.len() == gs.len(),
                gs == self@.consumer_groups,
                first_group_match(gs, name@) == first_group_match(gs.skip(i as int), name@),
            decreases self.consumer_groups@.len() - i,
        {
            proof {
                assert(gs.skip(i as int)[0] == gs[i as int]);
                assert(gs.skip(i as int).drop_first() =~= gs.skip(i + 1));
            }
            if str_eq(self.consumer_groups[i].name.as_str(), name) {
                return Some(self.consumer_groups[i].clone());
            }
            i += 1;
        }
        proof {
            assert(gs.skip(i as int).len() == 0);
        }
        None
    }

    /// The first topic with the name, if any.
    pub fn get_topic(&self, name: &str) -> (r: Option<Topic>)
        ensures
            match r {
                Some(t) => first_topic_match(self@.topics, name@) == Some(t@),
                None => first_topic_match(self@.topics, name@) is None,
            },
    {
        let ghost ts = self@.topics;
        let mut i: usize = 0;
        proof {
            assert(ts.skip(0) =~= ts);
        }
        while i < self.topics.len()
            invariant
                i <= self.topics@.len(),
                self.topics@.len() == ts.len(),
                ts == self@.topics,
                first_topic_match(ts, name@) == first_topic_match(ts.skip(i as int), name@),
            decreases self.topics@.len() - i,
        {
            proof {
                assert(ts.skip(i as int)[0] == ts[i as int]);
                assert(ts.skip(i as int).drop_first() =~= ts.skip(i + 1));
            }
            if str_eq(self.topics[i].name.as_str(), name) {
                return Some(self.topics[i].clone());
            }
            i += 1;
        }
        proof {
            assert(ts.skip(i as int).len() == 0);
        }
        None
    }

    /// Looks a partition up under its `<topic>/<id>` label.
    pub fn get_partition(&self, name: &str) -> (r: Option<Partition>)
        ensures
            match r {
                Some(p) => spec_get_partition(self@, name@) == Some(p@),
                None => spec_get_partition(self@, name@) is None,
            },
    {
        let parsed = match get_topic_and_parition_id(name) {
            Some(p) => p,
            None => {
                return None;
            },
        };
        let topic = match self.get_topic(parsed.0.as_str()) {
            Some(t) => t,
            None => {
                return None;
            },
        };
        let ghost ps = topic@.partitions;
        let mut i: usize = 0;
        proof {
            assert(ps.skip(0) =~= ps);
        }
        while i < topic.partitions.len()
            invariant
                i <= topic.partitions@.len(),
                topic.partitions@.len() == ps.len(),
                ps == topic@.partitions,
                spec_partition_label(name@) == Some((parsed.0@, parsed.1 as int)),
                first_topic_match(self@.topics, parsed.0@) == Some(topic@),
                first_partition_match(ps, parsed.1 as int) == first_partition_match(
                    ps.skip(i as int),
                    parsed.1 as int,
                ),
            decreases topic.partitions@.len() - i,
        {
            proof {
                assert(ps.skip(i as int)[0] == ps[i as int]);
                assert(ps.skip(i as int).drop_first() =~= ps.skip(i + 1));
            }
            if topic.partitions[i].id == parsed.1 {
                return Some(topic.partitions[i].clone());
            }
            i += 1;
        }
        proof {
            assert(ps.skip(i as int).len() == 0);
        }
        None
    }

    /// How many partitions, across all topics, the broker leads. Used for
    /// the broker detail panel.
    pub fn no_of_partitions_for_broker(&self, broker_id: i32) -> (r: usize)
        requires
            count_partitions_for_broker(self@.topics, broker_id) <= usize::MAX,
        ensures
            r == count_partitions_for_broker(self@.topics, broker_id),
    {
        let ghost ts = self@.topics;
        let ghost total = count_partitions_for_broker(ts, broker_id);
        let mut count: usize = 0;
        let mut i: usize = 0;
        proof {
            assert(ts.skip(0) =~= ts);
        }
        while i < self.topics.len()
            invariant
                i <= self.topics@.len(),
                self.topics@.len() == ts.len(),
                ts == self@.topics,
                total == count_partitions_for_broker(ts, broker_id),
                total <= usize::MAX,
                count + count_partitions_for_broker(ts.skip(i as int), broker_id) == total,
            decreases self.topics@.len() - i,
        {
            proof {
                assert(ts.skip(i as int)[0] == ts[i as int]);
                assert(ts.skip(i as int).drop_first() =~= ts.skip(i + 1));
            }
            let ghost ps = ts[i as int].partitions;
            let topic_parts = &self.topics[i].partitions;
            let mut j: usize = 0;
            proof {
                assert(ps.skip(0) =~= ps);
            }
            while j < topic_parts.len()
                invariant
                    j <= topic_parts@.len(),
                    topic_parts@.len() == ps.len(),
                    ps == topic_parts@.map_values(|p: Partition| p@),
                    i < ts.len(),
                    ts[i as int].partitions == ps,
                    total == count_partitions_for_broker(ts, broker_id),
                    total <= usize::MAX,
                    count + count_leaders(ps.skip(j as int), broker_id)
                        + count_partitions_for_broker(ts.skip(i + 1), broker_id) == total,
                decreases topic_parts@.len() - j,
            {
                proof {
                    assert(ps.skip(j as int)[0] == ps[j as int]);
                    assert(ps.skip(j as int).drop_first() =~= ps.skip(j + 1));
                }
                if topic_parts[j].leader == broker_id {
                    count += 1;
                }
                j += 1;
            }
            proof {
                assert(ps.skip(j as int).len() == 0);
            }
            i += 1;
        }
        proof {
            assert(ts.skip(i as int).len() == 0);
        }
        count
    }
}

/// Statistics-derived lookups, implemented outside the library by the
/// client's statistics snapshot.
pub trait Stats {
    fn brokers(&self) -> Vec<Broker>;

    fn get_broker(&self, name: &str) -> Option<Broker>;

    fn brokers_list(&self) -> Vec<String>;

    fn topics_and_partitions(&self) -> Vec<Topic>;

    fn topics_list(&self) -> Vec<String>;

    fn get_topic(&self, name: &str) -> Option<Topic>;
}

/// Law: a refresh replaces the snapshot wholesale. A reader that observes
/// the cache around a refresh sees either the full prior snapshot or the
/// full new one; no observation pairs a component of one snapshot with a
/// component of the other.
pub proof fn lemma_metadata_replace_is_atomic(
    before: MetadataView,
    after: MetadataView,
    observed: MetadataView,
)
    requires
        observed == before || observed == after,
    ensures
        (observed.brokers == before.brokers && observed.topics == before.topics
            && observed.consumer_groups == before.consumer_groups) || (observed.brokers
            == after.brokers && observed.topics == after.topics && observed.consumer_groups
            == after.consumer_groups),
{
}

/// The cache after a sequence of wholesale refreshes, each of which is one
/// `update` call: every refresh replaces the whole view, as `update`
/// ensures.
pub open spec fn cache_after_refreshes(init: MetadataView, snaps: Seq<MetadataView>) -> MetadataView
    decreases snaps.len(),
{
    if snaps.len() == 0 {
        init
    } else {
        cache_after_refreshes(snaps[0], snaps.drop_first())
    }
}

/// Law: however many refreshes ran, the cache is exactly one point-in-time
/// snapshot — the latest one, or the initial cache while none ran. A
/// reader that takes the lock after any prefix of the refresh history
/// therefore observes one whole snapshot, never parts of two.
pub proof fn lemma_cache_is_one_snapshot(init: MetadataView, snaps: Seq<MetadataView>)
    ensures
        cache_after_refreshes(init, snaps) == if snaps.len() == 0 {
            init
        } else {
            snaps.last()
        },
    decreases snaps.len(),
{
    if snaps.len() > 0 {
        lemma_cache_is_one_snapshot(snaps[0], snaps.drop_first());
        if snaps.len() > 1 {
            assert(snaps.drop_first().last() == snaps.last());
        }
    }
}

} // verus!
