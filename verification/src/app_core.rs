//! The application core: the navigation and mode state machine, the detail
//! panels, the pinned offset, and the glue that drives the fetch protocol
//! and the command interpreter.
//!
//! Everything here is plain state. A driver outside the library feeds key
//! events in, performs the returned actions against the cluster client and
//! the terminal, and hands the outcomes back.

use vstd::prelude::*;
use vstd::string::*;
use crate::command::spec_partition_label;
use crate::fetch::{
    ConsumerError, FetchAction, FetchError, FetchPhase, FetchProtocol, OffsetRequest, SeekOutcome,
    spec_seek_step, spec_watermark_step,
};
use crate::message::{KafkaMessage, spec_message_text, spec_message_title};
use crate::metadata::{
    count_partitions_for_broker, first_broker_match, first_group_match, first_topic_match,
    lemma_count_for_broker_le_total, Metadata, Partition, spec_get_partition, spec_partition_name,
    total_partitions,
};
use crate::strings::{
    i32_to_dec_string, i64_to_dec_string, sorted_le, spec_dec_i64, spec_udec,
    usize_to_dec_string, views_of,
};
use crate::widgets::{Direction, InputBuffer, InputEvent, UIList};

verus! {

/// Whether keys navigate or edit text.
#[derive(Clone, Copy, PartialEq, Eq, Structural, Debug)]
pub enum EditMode {
    Normal,
    Insert,
}

/// Whether the application consumes or produces messages.
#[derive(Clone, Copy, PartialEq, Eq, Structural, Debug)]
pub enum AppMode {
    Consumer,
    Producer,
}

/// One application-level event, as the input loop hands it over.
#[derive(Clone, Copy, PartialEq, Eq, Structural, Debug)]
pub enum AppEvent {
    Tab,
    BackTab,
    Up,
    Down,
    Left,
    Right,
    Esc,
    Input(char),
    Backspace,
    Enter,
    Delete,
}

/// What the driver must do after an event was handled.
pub enum AppAction {
    /// Nothing.
    Idle,
    /// Tear the application down.
    Quit,
    /// A fetch began; perform this first protocol action.
    StartFetch(FetchAction),
    /// Resolve the timestamp to an offset for the partition, then hand the
    /// result to `on_timestamp_offset`.
    ResolveTimestamp { topic: String, partition_id: i32, timestamp: i64 },
    /// Scroll the message panel.
    ScrollMessage(Direction),
}

/// The pinned offset before any message was fetched on the selected
/// partition.
pub const UNINITIALISED_OFFSET: i64 = -999;

/// How many widgets the tab key cycles through: the four lists, and in
/// producer mode the three input fields after them.
pub open spec fn widget_count(mode: AppMode) -> nat {
    if mode is Producer {
        7
    } else {
        4
    }
}

/// Where the focus lands when the widget set shrinks: on the last widget
/// that is still valid.
pub open spec fn spec_clamp_widget(w: usize, mode: AppMode) -> usize {
    if w < widget_count(mode) {
        w
    } else {
        (widget_count(mode) - 1) as usize
    }
}

/// Where the tab key moves the focus, cycling through `len` widgets.
pub open spec fn spec_tab_target(cur: usize, back_tab: bool, len: nat) -> usize
    recommends
        0 < len,
        cur < len,
{
    if back_tab {
        if cur == 0 {
            (len - 1) as usize
        } else {
            (cur - 1) as usize
        }
    } else {
        if cur + 1 >= len {
            0usize
        } else {
            (cur + 1) as usize
        }
    }
}

/// The whole interactive state of the application.
pub struct AppCore {
    /// The metadata snapshot the lists and lookups read.
    pub cache: Metadata,
    /// The four navigable lists, in tab order.
    pub brokers_list: UIList,
    pub consumer_groups_list: UIList,
    pub topics_list: UIList,
    pub partitions_list: UIList,
    /// Which widget has the focus: lists 0 to 3, producer fields 4 to 6.
    pub selected_widget: usize,
    pub app_mode: AppMode,
    pub edit_mode: EditMode,
    /// The offset of the message shown for the selected partition, or
    /// `UNINITIALISED_OFFSET` while none was fetched.
    pub pinned_offset: i64,
    /// The fetch protocol in flight, if any.
    pub fetch: Option<FetchProtocol>,
    /// The partition the fetch in flight is about, for the detail panel.
    pub fetch_partition: Option<Partition>,
    /// The partition label a timestamp command waits to resolve for.
    pub pending_timestamp_partition: Option<String>,
    /// The command line of consumer mode.
    pub footer_input: InputBuffer,
    /// The producer entry fields.
    pub key_input: InputBuffer,
    pub headers_input: InputBuffer,
    pub payload_input: InputBuffer,
    /// The detail panels.
    pub broker_details: String,
    pub topic_details: String,
    pub consumer_group_details: String,
    pub partition_details: String,
    pub message_title: String,
    pub message_text: String,
    /// The short code shown in the footer input on an error.
    pub footer_value: String,
    pub show_help: bool,
    pub file_explorer_open: bool,
    pub should_quit: bool,
}

/// Offsets a fetch can pin: the sentinel, or a real offset with room to
/// step right.
pub open spec fn pinned_wf(pinned: i64) -> bool {
    pinned == UNINITIALISED_OFFSET || (0 <= pinned && pinned < i64::MAX)
}

/// Every `effective` offset a protocol phase carries is a real offset.
pub open spec fn fetch_phase_wf(phase: FetchPhase) -> bool {
    match phase {
        FetchPhase::AwaitWatermarks => true,
        FetchPhase::AwaitAssign { effective } => 0 <= effective < i64::MAX,
        FetchPhase::AwaitWarmup { effective } => 0 <= effective < i64::MAX,
        FetchPhase::AwaitSeek { effective, retries_left } => 0 <= effective < i64::MAX,
        FetchPhase::AwaitCapture { effective } => 0 <= effective < i64::MAX,
        FetchPhase::Done { outcome } => match outcome {
            Ok(o) => 0 <= o < i64::MAX,
            Err(e) => true,
        },
    }
}

impl AppCore {
    /// The invariant every handler keeps.
    pub open spec fn wf(&self) -> bool {
        &&& self.selected_widget < widget_count(self.app_mode)
        &&& self.brokers_list.wf()
        &&& self.consumer_groups_list.wf()
        &&& self.topics_list.wf()
        &&& self.partitions_list.wf()
        &&& self.brokers_list.focused == (self.selected_widget == 0)
        &&& self.consumer_groups_list.focused == (self.selected_widget == 1)
        &&& self.topics_list.focused == (self.selected_widget == 2)
        &&& self.partitions_list.focused == (self.selected_widget == 3)
        &&& self.footer_input.wf()
        &&& self.key_input.wf()
        &&& self.headers_input.wf()
        &&& self.payload_input.wf()
        &&& pinned_wf(self.pinned_offset)
        &&& match self.fetch {
            Some(p) => fetch_phase_wf(p.phase),
            None => true,
        }
        &&& total_partitions(self.cache@.topics) <= usize::MAX
    }
}

/// The panels are as they were.
pub open spec fn same_panels(a: AppCore, b: AppCore) -> bool {
    &&& a.broker_details == b.broker_details
    &&& a.topic_details == b.topic_details
    &&& a.consumer_group_details == b.consumer_group_details
    &&& a.partition_details == b.partition_details
    &&& a.message_title == b.message_title
    &&& a.message_text == b.message_text
    &&& a.footer_value == b.footer_value
}

/// The four lists are as they were.
pub open spec fn same_lists(a: AppCore, b: AppCore) -> bool {
    &&& a.brokers_list == b.brokers_list
    &&& a.consumer_groups_list == b.consumer_groups_list
    &&& a.topics_list == b.topics_list
    &&& a.partitions_list == b.partitions_list
}

/// The input buffers are as they were.
pub open spec fn same_inputs(a: AppCore, b: AppCore) -> bool {
    &&& a.footer_input == b.footer_input
    &&& a.key_input == b.key_input
    &&& a.headers_input == b.headers_input
    &&& a.payload_input == b.payload_input
}

/// The fetch machinery is as it was.
pub open spec fn same_fetch(a: AppCore, b: AppCore) -> bool {
    &&& a.fetch == b.fetch
    &&& a.fetch_partition == b.fetch_partition
    &&& a.pending_timestamp_partition == b.pending_timestamp_partition
}

/// The modes and the focus are as they were.
pub open spec fn same_modes(a: AppCore, b: AppCore) -> bool {
    &&& a.app_mode == b.app_mode
    &&& a.edit_mode == b.edit_mode
    &&& a.selected_widget == b.selected_widget
}

/// The flags are as they were.
pub open spec fn same_flags(a: AppCore, b: AppCore) -> bool {
    &&& a.show_help == b.show_help
    &&& a.file_explorer_open == b.file_explorer_open
    &&& a.should_quit == b.should_quit
}

impl AppCore {
    /// Builds the core around a populated cache: the lists carry the
    /// cache's sorted names, the partitions list starts empty, the first
    /// list has the focus, and consumer mode with normal editing is on.
    pub fn new(cache: Metadata) -> (r: AppCore)
        requires
            total_partitions(cache@.topics) <= usize::MAX,
        ensures
            r.wf(),
            r.cache == cache,
            r.app_mode is Consumer,
            r.edit_mode is Normal,
            r.selected_widget == 0,
            r.pinned_offset == UNINITIALISED_OFFSET,
            r.fetch is None,
            !r.should_quit,
            !r.show_help,
            !r.file_explorer_open,
            sorted_le(views_of(r.brokers_list.items@)),
            views_of(r.brokers_list.items@).to_multiset() == cache@.brokers.map_values(
                |b: crate::metadata::BrokerView| b.name,
            ).to_multiset(),
            sorted_le(views_of(r.topics_list.items@)),
            views_of(r.topics_list.items@).to_multiset() == cache@.topics.map_values(
                |t: crate::metadata::TopicView| t.name,
            ).to_multiset(),
            sorted_le(views_of(r.consumer_groups_list.items@)),
            views_of(r.consumer_groups_list.items@).to_multiset()
                == cache@.consumer_groups.map_values(
                |g: crate::metadata::ConsumerGroupView| g.name,
            ).to_multiset(),
            r.partitions_list.items@ == Seq::<String>::empty(),
            r.brokers_list.name@ == ("Brokers")@,
            r.consumer_groups_list.name@ == ("Consumer Groups")@,
            r.topics_list.name@ == ("Topics")@,
            r.partitions_list.name@ == ("Partitions")@,
    {
        let broker_names = cache.brokers_list();
        let group_names = cache.consumer_group_lists();
        let topic_names = cache.topics_list();
        let mut brokers_list = UIList::new(String::from_str("Brokers"), broker_names);
        let consumer_groups_list = UIList::new(String::from_str("Consumer Groups"), group_names);
        let topics_list = UIList::new(String::from_str("Topics"), topic_names);
        let partitions_list = UIList::new(String::from_str("Partitions"), Vec::new());
        brokers_list.focused = true;
        proof {
            assert(partitions_list.items@ =~= Seq::<String>::empty());
        }
        AppCore {
            cache,
            brokers_list,
            consumer_groups_list,
            topics_list,
            partitions_list,
            selected_widget: 0,
            app_mode: AppMode::Consumer,
            edit_mode: EditMode::Normal,
            pinned_offset: UNINITIALISED_OFFSET,
            fetch: None,
            fetch_partition: None,
            pending_timestamp_partition: None,
            footer_input: InputBuffer::new(),
            key_input: InputBuffer::new(),
            headers_input: InputBuffer::new(),
            payload_input: InputBuffer::new(),
            broker_details: String::new(),
            topic_details: String::new(),
            consumer_group_details: String::new(),
            partition_details: String::new(),
            message_title: String::new(),
            message_text: String::new(),
            footer_value: String::new(),
            show_help: false,
            file_explorer_open: false,
            should_quit: false,
        }
    }

    /// Re-points the per-list focus flags at the selected widget.
    fn sync_focus(&mut self)
        ensures
            *final(self) == (AppCore {
                brokers_list: (UIList {
                    focused: old(self).selected_widget == 0,
                    ..old(self).brokers_list
                }),
                consumer_groups_list: (UIList {
                    focused: old(self).selected_widget == 1,
                    ..old(self).consumer_groups_list
                }),
                topics_list: (UIList {
                    focused: old(self).selected_widget == 2,
                    ..old(self).topics_list
                }),
                partitions_list: (UIList {
                    focused: old(self).selected_widget == 3,
                    ..old(self).partitions_list
                }),
                ..*old(self)
            }),
    {
        self.brokers_list.focused = self.selected_widget == 0;
        self.consumer_groups_list.focused = self.selected_widget == 1;
        self.topics_list.focused = self.selected_widget == 2;
        self.partitions_list.focused = self.selected_widget == 3;
    }

    /// Switches between consumer and producer mode. A focus that the new
    /// mode's widget set no longer covers is clamped to the last valid
    /// widget, so a mode switch never leaves the focus out of bounds.
    pub fn set_app_mode(&mut self, mode: AppMode)
        requires
            old(self).wf(),
        ensures
            final(self).wf(),
            final(self).app_mode == mode,
            final(self).selected_widget == spec_clamp_widget(old(self).selected_widget, mode),
            final(self).edit_mode == old(self).edit_mode,
            final(self).pinned_offset == old(self).pinned_offset,
            final(self).cache == old(self).cache,
            same_panels(*old(self), *final(self)),
            same_inputs(*old(self), *final(self)),
            same_fetch(*old(self), *final(self)),
            same_flags(*old(self), *final(self)),
            final(self).brokers_list.items == old(self).brokers_list.items,
            final(self).consumer_groups_list.items == old(self).consumer_groups_list.items,
            final(self).topics_list.items == old(self).topics_list.items,
            final(self).partitions_list.items == old(self).partitions_list.items,
            final(self).brokers_list.selected == old(self).brokers_list.selected,
            final(self).consumer_groups_list.selected == old(self).consumer_groups_list.selected,
            final(self).topics_list.selected == old(self).topics_list.selected,
            final(self).partitions_list.selected == old(self).partitions_list.selected,
    {
        self.app_mode = mode;
        let count: usize = match mode {
            AppMode::Producer => 7,
            AppMode::Consumer => 4,
        };
        if self.selected_widget >= count {
            self.selected_widget = count - 1;
        }
        self.sync_focus();
    }

    /// Moves the focus to the next or previous widget of the current
    /// mode's set, wrapping at both ends. Tabbing onto a producer entry
    /// field deliberately keeps normal editing, so the mode-switch keys
    /// stay live with a field focused; text entry begins with the insert
    /// key (`i`), never as a side effect of cycling.
    pub fn handle_tab(&mut self, back_tab: bool)
        requires
            old(self).wf(),
        ensures
            final(self).wf(),
            final(self).selected_widget == spec_tab_target(
                old(self).selected_widget,
                back_tab,
                widget_count(old(self).app_mode),
            ),
            final(self).app_mode == old(self).app_mode,
            final(self).edit_mode == old(self).edit_mode,
            final(self).pinned_offset == old(self).pinned_offset,
            final(self).cache == old(self).cache,
            same_panels(*old(self), *final(self)),
            same_inputs(*old(self), *final(self)),
            same_fetch(*old(self), *final(self)),
            same_flags(*old(self), *final(self)),
            final(self).brokers_list.items == old(self).brokers_list.items,
            final(self).consumer_groups_list.items == old(self).consumer_groups_list.items,
            final(self).topics_list.items == old(self).topics_list.items,
            final(self).partitions_list.items == old(self).partitions_list.items,
            final(self).brokers_list.selected == old(self).brokers_list.selected,
            final(self).consumer_groups_list.selected == old(self).consumer_groups_list.selected,
            final(self).topics_list.selected == old(self).topics_list.selected,
            final(self).partitions_list.selected == old(self).partitions_list.selected,
    {
        let len: usize = match self.app_mode {
            AppMode::Producer => 7,
            AppMode::Consumer => 4,
        };
        if back_tab {
            if self.selected_widget == 0 {
                self.selected_widget = len - 1;
            } else {
                self.selected_widget = self.selected_widget - 1;
            }
        } else {
            if self.selected_widget + 1 >= len {
                self.selected_widget = 0;
            } else {
                self.selected_widget = self.selected_widget + 1;
            }
        }
        self.sync_focus();
    }

    /// Enters or leaves text entry. Entering it in consumer mode clears
    /// the command line.
    pub fn toggle_edit_mode(&mut self, mode: EditMode)
        requires
            old(self).wf(),
        ensures
            final(self).wf(),
            final(self).edit_mode == mode,
            final(self).app_mode == old(self).app_mode,
            final(self).selected_widget == old(self).selected_widget,
            final(self).pinned_offset == old(self).pinned_offset,
            final(self).cache == old(self).cache,
            same_panels(*old(self), *final(self)),
            same_lists(*old(self), *final(self)),
            same_fetch(*old(self), *final(self)),
            same_flags(*old(self), *final(self)),
            final(self).key_input == old(self).key_input,
            final(self).headers_input == old(self).headers_input,
            final(self).payload_input == old(self).payload_input,
            mode is Insert && old(self).app_mode is Consumer ==> final(self).footer_input.chars@
                == Seq::<char>::empty() && final(self).footer_input.cursor == 0,
            !(mode is Insert && old(self).app_mode is Consumer) ==> final(self).footer_input == old(self).footer_input,
    {
        self.edit_mode = mode;
        if matches!(mode, EditMode::Insert) && matches!(self.app_mode, AppMode::Consumer) {
            self.footer_input.apply(InputEvent::Reset);
        }
    }

    /// Routes one editing step to the input that owns it: the command line
    /// in consumer mode, the focused entry field in producer mode.
    pub fn handle_input_event(&mut self, event: InputEvent)
        requires
            old(self).wf(),
        ensures
            final(self).wf(),
            same_panels(*old(self), *final(self)),
            same_lists(*old(self), *final(self)),
            same_fetch(*old(self), *final(self)),
            same_flags(*old(self), *final(self)),
            same_modes(*old(self), *final(self)),
            final(self).pinned_offset == old(self).pinned_offset,
            final(self).cache == old(self).cache,
            old(self).app_mode is Consumer ==> same_entry_inputs(*old(self), *final(self))
                && crate::widgets::spec_applied(
                old(self).footer_input,
                final(self).footer_input,
                event,
            ),
            old(self).app_mode is Producer ==> final(self).footer_input == old(self).footer_input,
            old(self).app_mode is Producer && old(self).selected_widget == 4
                ==> crate::widgets::spec_applied(old(self).key_input, final(self).key_input, event),
            old(self).app_mode is Producer && old(self).selected_widget == 5
                ==> crate::widgets::spec_applied(
                old(self).headers_input,
                final(self).headers_input,
                event,
            ),
            old(self).app_mode is Producer && old(self).selected_widget == 6
                ==> crate::widgets::spec_applied(
                old(self).payload_input,
                final(self).payload_input,
                event,
            ),
            old(self).app_mode is Producer && old(self).selected_widget != 4 ==> final(self).key_input == old(self).key_input,
            old(self).app_mode is Producer && old(self).selected_widget != 5 ==> final(self).headers_input == old(self).headers_input,
            old(self).app_mode is Producer && old(self).selected_widget != 6 ==> final(self).payload_input == old(self).payload_input,
            old(self).app_mode is Producer && old(self).selected_widget < 4 ==> *final(self)
                == *old(self),
    {
        match self.app_mode {
            AppMode::Consumer => {
                self.footer_input.apply(event);
            },
            AppMode::Producer => {
                if self.selected_widget == 4 {
                    self.key_input.apply(event);
                } else if self.selected_widget == 5 {
                    self.headers_input.apply(event);
                } else if self.selected_widget == 6 {
                    self.payload_input.apply(event);
                }
            },
        }
    }

    /// Shows or hides the help window.
    pub fn help_window(&mut self)
        requires
            old(self).wf(),
        ensures
            final(self).wf(),
            *final(self) == (AppCore { show_help: !old(self).show_help, ..*old(self) }),
    {
        self.show_help = !self.show_help;
    }

    /// Shows or hides the file picker: only in producer mode with normal
    /// editing, and showing it starts text entry.
    pub fn file_explorer(&mut self)
        requires
            old(self).wf(),
        ensures
            final(self).wf(),
            old(self).app_mode is Producer && old(self).edit_mode is Normal ==> *final(self)
                == (AppCore {
                file_explorer_open: !old(self).file_explorer_open,
                edit_mode: if !old(self).file_explorer_open {
                    EditMode::Insert
                } else {
                    old(self).edit_mode
                },
                ..*old(self)
            }),
            !(old(self).app_mode is Producer && old(self).edit_mode is Normal) ==> *final(self)
                == *old(self),
    {
        if matches!(self.app_mode, AppMode::Producer) && matches!(self.edit_mode, EditMode::Normal) {
            self.file_explorer_open = !self.file_explorer_open;
            if self.file_explorer_open {
                self.edit_mode = EditMode::Insert;
            }
        }
    }

    /// Takes a fresh snapshot into the cache, wholesale. The lists keep
    /// what they were built from; lookups and detail panels read the new
    /// snapshot from here on.
    pub fn update_cache(
        &mut self,
        brokers: Vec<crate::metadata::Broker>,
        topics: Vec<crate::metadata::Topic>,
        consumer_groups: Vec<crate::metadata::ConsumerGroup>,
    )
        requires
            old(self).wf(),
            total_partitions(topics@.map_values(|t: crate::metadata::Topic| t@)) <= usize::MAX,
        ensures
            final(self).wf(),
            final(self).cache@.brokers == brokers@.map_values(|b: crate::metadata::Broker| b@),
            final(self).cache@.topics == topics@.map_values(|t: crate::metadata::Topic| t@),
            final(self).cache@.consumer_groups == consumer_groups@.map_values(
                |g: crate::metadata::ConsumerGroup| g@,
            ),
            same_panels(*old(self), *final(self)),
            same_lists(*old(self), *final(self)),
            same_inputs(*old(self), *final(self)),
            same_fetch(*old(self), *final(self)),
            same_flags(*old(self), *final(self)),
            same_modes(*old(self), *final(self)),
            final(self).pinned_offset == old(self).pinned_offset,
    {
        self.cache.update(brokers, topics, consumer_groups);
    }
}

/// Law: tab cycling in producer mode can leave the focus on an entry
/// field; switching to consumer mode then clamps it onto a list widget,
/// never out of bounds.
pub proof fn lemma_mode_switch_keeps_focus_valid(w: usize)
    requires
        w < widget_count(AppMode::Producer),
    ensures
        spec_clamp_widget(w, AppMode::Consumer) < widget_count(AppMode::Consumer),
        w >= widget_count(AppMode::Consumer) ==> spec_clamp_widget(w, AppMode::Consumer) == 3,
{
}

/// The text of the broker detail panel.
pub open spec fn spec_broker_details(id: i32, status: Seq<char>, partitions: nat) -> Seq<char> {
    ("\nID         : ")@ + spec_dec_i64(id as int) + ("\nStatus     : ")@ + status + (
    "\nPartitions : ")@ + spec_udec(partitions)
}

/// Renders the broker detail panel.
pub fn generate_broker_details(id: i32, status: &str, partitions: usize) -> (r: String)
    ensures
        r@ == spec_broker_details(id, status@, partitions as nat),
{
    let mut r = String::from_str("\nID         : ");
    let id_str = i32_to_dec_string(id);
    r.append(id_str.as_str());
    r.append("\nStatus     : ");
    r.append(status);
    r.append("\nPartitions : ");
    let parts = usize_to_dec_string(partitions);
    r.append(parts.as_str());
    proof {
        assert(r@ =~= spec_broker_details(id, status@, partitions as nat));
    }
    r
}

/// The text of the consumer-group detail panel.
pub open spec fn spec_consumer_group_details(state: Seq<char>, members: nat) -> Seq<char> {
    ("\nState   : ")@ + state + ("\nMembers : ")@ + spec_udec(members)
}

/// Renders the consumer-group detail panel.
pub fn generate_consumer_group_details(state: &str, members: usize) -> (r: String)
    ensures
        r@ == spec_consumer_group_details(state@, members as nat),
{
    let mut r = String::from_str("\nState   : ");
    r.append(state);
    r.append("\nMembers : ");
    let m = usize_to_dec_string(members);
    r.append(m.as_str());
    proof {
        assert(r@ =~= spec_consumer_group_details(state@, members as nat));
    }
    r
}

/// The text of the partition detail panel.
pub open spec fn spec_partition_details(
    leader: i32,
    isr: nat,
    replicas: nat,
    lwm: i64,
    hwm: i64,
) -> Seq<char> {
    ("\nLeader : ")@ + spec_dec_i64(leader as int) + ("\nISR    : ")@ + spec_udec(isr) + (" / ")@
        + spec_udec(replicas) + ("\nLWM    : ")@ + spec_dec_i64(lwm as int) + ("\nHWM    : ")@
        + spec_dec_i64(hwm as int)
}

/// Renders the partition detail panel.
pub fn generate_partition_details(
    leader: i32,
    isr: usize,
    replicas: usize,
    lwm: i64,
    hwm: i64,
) -> (r: String)
    ensures
        r@ == spec_partition_details(leader, isr as nat, replicas as nat, lwm, hwm),
{
    let mut r = String::from_str("\nLeader : ");
    let l = i32_to_dec_string(leader);
    r.append(l.as_str());
    r.append("\nISR    : ");
    let i = usize_to_dec_string(isr);
    r.append(i.as_str());
    r.append(" / ");
    let rep = usize_to_dec_string(replicas);
    r.append(rep.as_str());
    r.append("\nLWM    : ");
    let lo = i64_to_dec_string(lwm);
    r.append(lo.as_str());
    r.append("\nHWM    : ");
    let hi = i64_to_dec_string(hwm);
    r.append(hi.as_str());
    proof {
        assert(r@ =~= spec_partition_details(leader, isr as nat, replicas as nat, lwm, hwm));
    }
    r
}

/// The text of the topic detail panel.
pub open spec fn spec_topic_details(parition_count: nat) -> Seq<char> {
    ("\nParitions: ")@ + spec_udec(parition_count)
}

/// Renders the topic detail panel.
pub fn generate_topic_details(parition_count: usize) -> (r: String)
    ensures
        r@ == spec_topic_details(parition_count as nat),
{
    let mut r = String::from_str("\nParitions: ");
    let c = usize_to_dec_string(parition_count);
    r.append(c.as_str());
    proof {
        assert(r@ =~= spec_topic_details(parition_count as nat));
    }
    r
}

/// The producer entry fields are as they were.
pub open spec fn same_entry_inputs(a: AppCore, b: AppCore) -> bool {
    &&& a.key_input == b.key_input
    &&& a.headers_input == b.headers_input
    &&& a.payload_input == b.payload_input
}

/// Everything but the command line is as it was.
pub open spec fn same_except_footer_input(a: AppCore, b: AppCore) -> bool {
    &&& same_lists(a, b)
    &&& same_entry_inputs(a, b)
    &&& same_modes(a, b)
    &&& same_flags(a, b)
    &&& same_panels(a, b)
    &&& same_fetch(a, b)
    &&& a.cache == b.cache
    &&& a.pinned_offset == b.pinned_offset
}

/// Everything held still while a fetch starts: only the message panel and
/// the fetch machinery may move. The command line is not constrained here;
/// the callers say what happens to it.
pub open spec fn same_core_except_message_and_fetch(pre: AppCore, post: AppCore) -> bool {
    &&& same_lists(pre, post)
    &&& same_entry_inputs(pre, post)
    &&& same_modes(pre, post)
    &&& same_flags(pre, post)
    &&& post.cache == pre.cache
    &&& post.pinned_offset == pre.pinned_offset
    &&& post.broker_details == pre.broker_details
    &&& post.topic_details == pre.topic_details
    &&& post.consumer_group_details == pre.consumer_group_details
    &&& post.partition_details == pre.partition_details
    &&& post.message_title == pre.message_title
    &&& post.footer_value == pre.footer_value
    &&& post.pending_timestamp_partition == pre.pending_timestamp_partition
}

/// What `fetch_message` does: with the label in the cache, a protocol in
/// its first phase and the watermark request come out, and the message
/// panel stays what it was until the protocol reports something; with an
/// unknown or unparseable label, the panel shows the display error and no
/// protocol starts.
pub open spec fn fetch_started(
    pre: AppCore,
    post: AppCore,
    act: FetchAction,
    label: Seq<char>,
    request: OffsetRequest,
) -> bool {
    &&& same_core_except_message_and_fetch(pre, post)
    &&& match spec_get_partition(pre.cache@, label) {
        None => {
            &&& post.message_text@ == spec_unknown_partition_message(label)
            &&& post.fetch == pre.fetch
            &&& post.fetch_partition == pre.fetch_partition
            &&& act is Idle
        },
        Some(p) => {
            &&& post.message_text == pre.message_text
            &&& match spec_partition_label(label) {
                Some(tp) => {
                    &&& post.fetch matches Some(proto) && proto.topic@ == tp.0
                        && proto.partition_id as int == tp.1 && proto.request == request
                        && proto.phase is AwaitWatermarks
                    &&& act matches FetchAction::FetchWatermarks { topic, partition_id }
                        && topic@ == tp.0 && partition_id as int == tp.1
                },
                None => false,
            }
            &&& post.fetch_partition matches Some(meta) && meta@ == p
        },
    }
}

/// An error code landed in the footer and nothing else moved (the command
/// line itself is the callers' business).
pub open spec fn error_code_set(pre: AppCore, post: AppCore, code: Seq<char>) -> bool {
    &&& post.footer_value@ == code
    &&& same_lists(pre, post)
    &&& same_entry_inputs(pre, post)
    &&& same_modes(pre, post)
    &&& same_flags(pre, post)
    &&& post.cache == pre.cache
    &&& post.pinned_offset == pre.pinned_offset
    &&& post.broker_details == pre.broker_details
    &&& post.topic_details == pre.topic_details
    &&& post.consumer_group_details == pre.consumer_group_details
    &&& post.partition_details == pre.partition_details
    &&& post.message_title == pre.message_title
    &&& post.message_text == pre.message_text
    &&& same_fetch(pre, post)
}

/// What the offset command does with its raw argument.
pub open spec fn offset_command_handled(
    pre: AppCore,
    post: AppCore,
    act: AppAction,
    arg: Seq<char>,
) -> bool {
    if !crate::strings::is_i64_string(arg) {
        error_code_set(pre, post, ("err:InvalidOffset")@) && act is Idle
    } else {
        match pre.partitions_list.selected {
            None => error_code_set(pre, post, ("err:NoSelectedPartition")@) && act is Idle,
            Some(i) => act matches AppAction::StartFetch(fa) && fetch_started(
                pre,
                post,
                fa,
                pre.partitions_list.items@[i as int]@,
                OffsetRequest::At(crate::strings::parsed_i64(arg) as i64),
            ) && post.footer_value == pre.footer_value,
        }
    }
}

/// What the timestamp command does with its raw argument: validation, then
/// a request to resolve the timestamp against the selected partition.
pub open spec fn timestamp_command_handled(
    pre: AppCore,
    post: AppCore,
    act: AppAction,
    arg: Seq<char>,
) -> bool {
    if !(crate::strings::is_i64_string(arg) && crate::command::ts_in_calendar_range(
        crate::strings::parsed_i64(arg),
    )) {
        error_code_set(pre, post, ("err:InvalidTimestamp")@) && act is Idle
    } else {
        match pre.partitions_list.selected {
            None => error_code_set(pre, post, ("err:NoSelectedPartition")@) && act is Idle,
            Some(i) => match spec_partition_label(pre.partitions_list.items@[i as int]@) {
                None => same_except_footer_input(pre, post) && act is Idle,
                Some(tp) => {
                    &&& post.pending_timestamp_partition matches Some(s) && s@
                        == pre.partitions_list.items@[i as int]@
                    &&& act matches AppAction::ResolveTimestamp { topic, partition_id, timestamp }
                        && topic@ == tp.0 && partition_id as int == tp.1 && timestamp as int
                        == crate::strings::parsed_i64(arg)
                    &&& same_lists(pre, post)
                    &&& same_entry_inputs(pre, post)
                    &&& same_modes(pre, post)
                    &&& same_flags(pre, post)
                    &&& same_panels(pre, post)
                    &&& post.cache == pre.cache
                    &&& post.pinned_offset == pre.pinned_offset
                    &&& post.fetch == pre.fetch
                    &&& post.fetch_partition == pre.fetch_partition
                },
            },
        }
    }
}

/// What one typed command line does: nothing in producer mode, else per
/// the command grammar.
pub open spec fn command_handled(
    pre: AppCore,
    post: AppCore,
    act: AppAction,
    input: Seq<char>,
) -> bool {
    if pre.app_mode is Producer {
        same_except_footer_input(pre, post) && act is Idle
    } else {
        match crate::command::spec_parse_command(input) {
            crate::command::CommandParse::InvalidCommand => error_code_set(
                pre,
                post,
                ("err:InvalidCMD")@,
            ) && act is Idle,
            crate::command::CommandParse::InvalidOffset => error_code_set(
                pre,
                post,
                ("err:InvalidOffset")@,
            ) && act is Idle,
            crate::command::CommandParse::InvalidTimestamp => error_code_set(
                pre,
                post,
                ("err:InvalidTimestamp")@,
            ) && act is Idle,
            crate::command::CommandParse::Offset { offset } => offset_command_handled(
                pre,
                post,
                act,
                crate::command::spec_command_arg(input),
            ),
            crate::command::CommandParse::Timestamp { timestamp } => timestamp_command_handled(
                pre,
                post,
                act,
                crate::command::spec_command_arg(input),
            ),
        }
    }
}

/// The display error for a label the cache cannot resolve.
pub open spec fn spec_unknown_partition_message(label: Seq<char>) -> Seq<char> {
    ("unable to get details for partition ")@ + label
}

fn unknown_partition_message(label: &str) -> (r: String)
    ensures
        r@ == spec_unknown_partition_message(label@),
{
    let mut r = String::from_str("unable to get details for partition ");
    r.append(label);
    proof {
        assert(r@ =~= spec_unknown_partition_message(label@));
    }
    r
}

/// The panel line for an empty partition.
pub open spec fn spec_empty_partition_message(topic: Seq<char>, partition_id: i32) -> Seq<char> {
    ("No messages in partition ")@ + topic + ("/")@ + spec_dec_i64(partition_id as int)
}

fn empty_partition_message(topic: &str, partition_id: i32) -> (r: String)
    ensures
        r@ == spec_empty_partition_message(topic@, partition_id),
{
    let mut r = String::from_str("No messages in partition ");
    r.append(topic);
    r.append("/");
    let pid = i32_to_dec_string(partition_id);
    r.append(pid.as_str());
    proof {
        assert(r@ =~= spec_empty_partition_message(topic@, partition_id));
    }
    r
}

/// The panel line for a literal offset outside the watermark window.
pub open spec fn spec_invalid_offset_message(requested: i64, low: i64, high: i64) -> Seq<char> {
    ("invalid offset ")@ + spec_dec_i64(requested as int) + (", should be between ")@
        + spec_dec_i64(low as int) + (" and ")@ + spec_dec_i64(high as int)
}

fn invalid_offset_message(requested: i64, low: i64, high: i64) -> (r: String)
    ensures
        r@ == spec_invalid_offset_message(requested, low, high),
{
    let mut r = String::from_str("invalid offset ");
    let o = i64_to_dec_string(requested);
    r.append(o.as_str());
    r.append(", should be between ");
    let l = i64_to_dec_string(low);
    r.append(l.as_str());
    r.append(" and ");
    let h = i64_to_dec_string(high);
    r.append(h.as_str());
    proof {
        assert(r@ =~= spec_invalid_offset_message(requested, low, high));
    }
    r
}

/// The panel line for a failed assign or warm-up poll.
pub open spec fn spec_assign_error_message(
    topic: Seq<char>,
    partition_id: i32,
    detail: Seq<char>,
) -> Seq<char> {
    ("error assigning and polling for partition ")@ + topic + ("/")@ + spec_dec_i64(
        partition_id as int,
    ) + (": ")@ + detail
}

fn assign_error_message(topic: &str, partition_id: i32, detail: &str) -> (r: String)
    ensures
        r@ == spec_assign_error_message(topic@, partition_id, detail@),
{
    let mut r = String::from_str("error assigning and polling for partition ");
    r.append(topic);
    r.append("/");
    let pid = i32_to_dec_string(partition_id);
    r.append(pid.as_str());
    r.append(": ");
    r.append(detail);
    proof {
        assert(r@ =~= spec_assign_error_message(topic@, partition_id, detail@));
    }
    r
}

impl AppCore {
    /// Starts a fetch for the labelled partition at the requested offset:
    /// the partition is looked up and on success the protocol awaits the
    /// watermarks. The message panel keeps its prior content until the
    /// protocol reports something, so a fetch that fails at the watermarks
    /// leaves it untouched. The pinned offset does not move here.
    pub fn fetch_message(&mut self, partition_str: &str, request: OffsetRequest) -> (act:
        FetchAction)
        requires
            old(self).wf(),
        ensures
            final(self).wf(),
            fetch_started(*old(self), *final(self), act, partition_str@, request),
            final(self).footer_input == old(self).footer_input,
    {
        let partition = match self.cache.get_partition(partition_str) {
            Some(p) => p,
            None => {
                self.message_text = unknown_partition_message(partition_str);
                return FetchAction::Idle;
            },
        };
        let parsed = match crate::command::get_topic_and_parition_id(partition_str) {
            Some(p) => p,
            None => {
                // a partition found in the cache always carries a label
                // that parses; this branch cannot be taken
                proof {
                    assert(false);
                }
                return FetchAction::Idle;
            },
        };
        let (proto, act) = FetchProtocol::start(parsed.0, parsed.1, request);
        self.fetch = Some(proto);
        self.fetch_partition = Some(partition);
        act
    }

    /// Takes the watermark result of the fetch in flight. The partition
    /// detail panel always reflects a successful watermark fetch; an empty
    /// partition or an out-of-range literal ends the protocol with its
    /// message, and the pinned offset never moves here.
    pub fn on_fetch_watermarks(&mut self, result: Result<(i64, i64), ConsumerError>) -> (act:
        FetchAction)
        requires
            old(self).wf(),
            old(self).fetch matches Some(p) && p.phase is AwaitWatermarks,
            old(self).fetch_partition is Some,
            result matches Ok(w) ==> 0 <= w.0 <= w.1,
        ensures
            final(self).wf(),
            final(self).pinned_offset == old(self).pinned_offset,
            final(self).footer_input == old(self).footer_input,
            same_lists(*old(self), *final(self)),
            same_entry_inputs(*old(self), *final(self)),
            same_modes(*old(self), *final(self)),
            same_flags(*old(self), *final(self)),
            final(self).cache == old(self).cache,
            final(self).fetch_partition == old(self).fetch_partition,
            final(self).pending_timestamp_partition == old(self).pending_timestamp_partition,
            final(self).broker_details == old(self).broker_details,
            final(self).topic_details == old(self).topic_details,
            final(self).consumer_group_details == old(self).consumer_group_details,
            final(self).message_title == old(self).message_title,
            final(self).fetch matches Some(p2) && p2.topic == old(self).fetch.unwrap().topic
                && p2.partition_id == old(self).fetch.unwrap().partition_id && p2.request == old(self).fetch.unwrap().request && p2.phase == spec_watermark_step(
                old(self).fetch.unwrap().request,
                result,
            ),
            result matches Err(e) ==> final(self).partition_details == old(self).partition_details
                && final(self).message_text == old(self).message_text && final(self).footer_value
                == old(self).footer_value && act is Idle,
            result matches Ok(w) ==> final(self).partition_details@ == spec_partition_details(
                old(self).fetch_partition.unwrap()@.leader,
                old(self).fetch_partition.unwrap()@.isr.len(),
                old(self).fetch_partition.unwrap()@.replicas.len(),
                w.0,
                w.1,
            ),
            result matches Ok(w) ==> match crate::fetch::spec_resolve(
                old(self).fetch.unwrap().request,
                w.0,
                w.1,
            ) {
                Ok(eff) => final(self).message_text@ == ("assigning partition ...")@ && final(self).footer_value == old(self).footer_value && (act
                    matches FetchAction::AssignPartition { topic, partition_id } && topic == old(self).fetch.unwrap().topic && partition_id == old(self).fetch.unwrap().partition_id),
                Err(e2) => act is Idle && match e2 {
                    FetchError::EmptyPartition => final(self).message_text@
                        == spec_empty_partition_message(
                        old(self).fetch.unwrap().topic@,
                        old(self).fetch.unwrap().partition_id,
                    ) && final(self).footer_value == old(self).footer_value,
                    FetchError::OffsetOutOfRange { low, high, requested } => final(self).footer_value@ == ("err:InvalidOffset")@ && final(self).message_text@
                        == spec_invalid_offset_message(requested, low, high),
                    _ => false,
                },
            },
    {
        let mut proto = match self.fetch.take() {
            Some(p) => p,
            None => {
                return FetchAction::Idle;
            },
        };
        match result {
            Err(e) => {
                let act = proto.on_watermarks(Err(e));
                self.fetch = Some(proto);
                act
            },
            Ok(w) => {
                let meta = match &self.fetch_partition {
                    Some(m) => m.clone(),
                    None => {
                        return FetchAction::Idle;
                    },
                };
                self.partition_details = generate_partition_details(
                    meta.leader,
                    meta.isr.len(),
                    meta.replicas.len(),
                    w.0,
                    w.1,
                );
                let act = proto.on_watermarks(Ok(w));
                match &proto.phase {
                    FetchPhase::AwaitAssign { .. } => {
                        self.message_text = String::from_str("assigning partition ...");
                    },
                    FetchPhase::Done { outcome } => {
                        match outcome {
                            Err(FetchError::EmptyPartition) => {
                                self.message_text = empty_partition_message(
                                    proto.topic.as_str(),
                                    proto.partition_id,
                                );
                            },
                            Err(FetchError::OffsetOutOfRange { low, high, requested }) => {
                                self.footer_value = String::from_str("err:InvalidOffset");
                                self.message_text = invalid_offset_message(*requested, *low, *high);
                            },
                            _ => (),
                        }
                    },
                    _ => (),
                }
                self.fetch = Some(proto);
                act
            },
        }
    }

    /// Takes the assign result: failure ends the fetch with the combined
    /// assign-and-poll error line; the pinned offset never moves here.
    pub fn on_fetch_assign_result(&mut self, result: Result<(), ConsumerError>) -> (act:
        FetchAction)
        requires
            old(self).wf(),
            old(self).fetch matches Some(p) && p.phase is AwaitAssign,
        ensures
            final(self).wf(),
            final(self).pinned_offset == old(self).pinned_offset,
            final(self).footer_input == old(self).footer_input,
            same_lists(*old(self), *final(self)),
            same_entry_inputs(*old(self), *final(self)),
            same_modes(*old(self), *final(self)),
            same_flags(*old(self), *final(self)),
            final(self).cache == old(self).cache,
            final(self).fetch_partition == old(self).fetch_partition,
            final(self).pending_timestamp_partition == old(self).pending_timestamp_partition,
            final(self).broker_details == old(self).broker_details,
            final(self).topic_details == old(self).topic_details,
            final(self).consumer_group_details == old(self).consumer_group_details,
            final(self).partition_details == old(self).partition_details,
            final(self).message_title == old(self).message_title,
            final(self).footer_value == old(self).footer_value,
            final(self).fetch matches Some(p2) && p2.topic == old(self).fetch.unwrap().topic
                && p2.partition_id == old(self).fetch.unwrap().partition_id && p2.request == old(self).fetch.unwrap().request,
            match result {
                Ok(u) => final(self).fetch.unwrap().phase == (FetchPhase::AwaitWarmup {
                    effective: old(self).fetch.unwrap().phase->AwaitAssign_effective,
                }) && act is PollDiscard && final(self).message_text == old(self).message_text,
                Err(e) => final(self).fetch.unwrap().phase == (FetchPhase::Done {
                    outcome: Err(FetchError::Assign { detail: e.message }),
                }) && act is Idle && final(self).message_text@ == spec_assign_error_message(
                    old(self).fetch.unwrap().topic@,
                    old(self).fetch.unwrap().partition_id,
                    e.message@,
                ),
            },
    {
        let mut proto = match self.fetch.take() {
            Some(p) => p,
            None => {
                return FetchAction::Idle;
            },
        };
        match result {
            Ok(_) => {
                let act = proto.on_assign(Ok(()));
                self.fetch = Some(proto);
                act
            },
            Err(e) => {
                let detail = e.message.clone();
                let act = proto.on_assign(Err(e));
                self.message_text = assign_error_message(
                    proto.topic.as_str(),
                    proto.partition_id,
                    detail.as_str(),
                );
                self.fetch = Some(proto);
                act
            },
        }
    }

    /// Takes the warm-up poll result: success moves on to the first seek,
    /// failure ends the fetch with the combined assign-and-poll error
    /// line; the pinned offset never moves here.
    pub fn on_fetch_warmup_result(&mut self, result: Result<(), ConsumerError>) -> (act:
        FetchAction)
        requires
            old(self).wf(),
            old(self).fetch matches Some(p) && p.phase is AwaitWarmup,
        ensures
            final(self).wf(),
            final(self).pinned_offset == old(self).pinned_offset,
            final(self).footer_input == old(self).footer_input,
            same_lists(*old(self), *final(self)),
            same_entry_inputs(*old(self), *final(self)),
            same_modes(*old(self), *final(self)),
            same_flags(*old(self), *final(self)),
            final(self).cache == old(self).cache,
            final(self).fetch_partition == old(self).fetch_partition,
            final(self).pending_timestamp_partition == old(self).pending_timestamp_partition,
            final(self).broker_details == old(self).broker_details,
            final(self).topic_details == old(self).topic_details,
            final(self).consumer_group_details == old(self).consumer_group_details,
            final(self).partition_details == old(self).partition_details,
            final(self).message_title == old(self).message_title,
            final(self).footer_value == old(self).footer_value,
            final(self).fetch matches Some(p2) && p2.topic == old(self).fetch.unwrap().topic
                && p2.partition_id == old(self).fetch.unwrap().partition_id && p2.request == old(self).fetch.unwrap().request,
            match result {
                Ok(u) => final(self).fetch.unwrap().phase == (FetchPhase::AwaitSeek {
                    effective: old(self).fetch.unwrap().phase->AwaitWarmup_effective,
                    retries_left: crate::fetch::SEEK_RETRIES,
                }) && act == (FetchAction::SeekTo {
                    topic: old(self).fetch.unwrap().topic,
                    partition_id: old(self).fetch.unwrap().partition_id,
                    offset: old(self).fetch.unwrap().phase->AwaitWarmup_effective,
                    backoff: false,
                }) && final(self).message_text@ == ("seeking offset & fetching message ...")@,
                Err(e) => final(self).fetch.unwrap().phase == (FetchPhase::Done {
                    outcome: Err(FetchError::Assign { detail: e.message }),
                }) && act is Idle && final(self).message_text@ == spec_assign_error_message(
                    old(self).fetch.unwrap().topic@,
                    old(self).fetch.unwrap().partition_id,
                    e.message@,
                ),
            },
    {
        let mut proto = match self.fetch.take() {
            Some(p) => p,
            None => {
                return FetchAction::Idle;
            },
        };
        match result {
            Ok(_) => {
                let act = proto.on_warmup(Ok(()));
                self.message_text = String::from_str("seeking offset & fetching message ...");
                self.fetch = Some(proto);
                act
            },
            Err(e) => {
                let detail = e.message.clone();
                let act = proto.on_warmup(Err(e));
                self.message_text = assign_error_message(
                    proto.topic.as_str(),
                    proto.partition_id,
                    detail.as_str(),
                );
                self.fetch = Some(proto);
                act
            },
        }
    }

    /// Takes a seek outcome: the erroneous-state condition is retried up
    /// to the bound, anything else fails the fetch, whose panel then says
    /// that no message came; the pinned offset never moves here.
    pub fn on_fetch_seek_result(&mut self, outcome: SeekOutcome) -> (act: FetchAction)
        requires
            old(self).wf(),
            old(self).fetch matches Some(p) && p.phase is AwaitSeek,
        ensures
            final(self).wf(),
            final(self).pinned_offset == old(self).pinned_offset,
            final(self).footer_input == old(self).footer_input,
            same_lists(*old(self), *final(self)),
            same_entry_inputs(*old(self), *final(self)),
            same_modes(*old(self), *final(self)),
            same_flags(*old(self), *final(self)),
            final(self).cache == old(self).cache,
            final(self).fetch_partition == old(self).fetch_partition,
            final(self).pending_timestamp_partition == old(self).pending_timestamp_partition,
            final(self).broker_details == old(self).broker_details,
            final(self).topic_details == old(self).topic_details,
            final(self).consumer_group_details == old(self).consumer_group_details,
            final(self).partition_details == old(self).partition_details,
            final(self).message_title == old(self).message_title,
            final(self).footer_value == old(self).footer_value,
            final(self).fetch matches Some(p2) && p2.topic == old(self).fetch.unwrap().topic
                && p2.partition_id == old(self).fetch.unwrap().partition_id && p2.request == old(self).fetch.unwrap().request && p2.phase == spec_seek_step(
                old(self).fetch.unwrap().phase,
                outcome,
            ),
            final(self).fetch.unwrap().phase is AwaitSeek ==> act == (FetchAction::SeekTo {
                topic: old(self).fetch.unwrap().topic,
                partition_id: old(self).fetch.unwrap().partition_id,
                offset: old(self).fetch.unwrap().phase->AwaitSeek_effective,
                backoff: true,
            }) && final(self).message_text == old(self).message_text,
            final(self).fetch.unwrap().phase is AwaitCapture ==> act is PollCapture && final(self).message_text == old(self).message_text,
            final(self).fetch.unwrap().phase is Done ==> act is Idle && final(self).message_text@
                == ("no message was returned")@,
    {
        let mut proto = match self.fetch.take() {
            Some(p) => p,
            None => {
                return FetchAction::Idle;
            },
        };
        let act = proto.on_seek(outcome);
        if matches!(proto.phase, FetchPhase::Done { .. }) {
            self.message_text = String::from_str("no message was returned");
        }
        self.fetch = Some(proto);
        act
    }

    /// Takes the capture poll result. A message fills the panel with its
    /// title and rendered body and pins its offset; none at all leaves the
    /// pinned offset exactly where it was.
    pub fn on_fetch_message(&mut self, msg: Option<KafkaMessage>) -> (act: FetchAction)
        requires
            old(self).wf(),
            old(self).fetch matches Some(p) && p.phase is AwaitCapture,
        ensures
            final(self).wf(),
            final(self).footer_input == old(self).footer_input,
            same_lists(*old(self), *final(self)),
            same_entry_inputs(*old(self), *final(self)),
            same_modes(*old(self), *final(self)),
            same_flags(*old(self), *final(self)),
            final(self).cache == old(self).cache,
            final(self).fetch_partition == old(self).fetch_partition,
            final(self).pending_timestamp_partition == old(self).pending_timestamp_partition,
            final(self).broker_details == old(self).broker_details,
            final(self).topic_details == old(self).topic_details,
            final(self).consumer_group_details == old(self).consumer_group_details,
            final(self).partition_details == old(self).partition_details,
            final(self).footer_value == old(self).footer_value,
            act is Idle,
            match msg {
                Some(m) => {
                    &&& final(self).pinned_offset == old(self).fetch.unwrap().phase->AwaitCapture_effective
                    &&& final(self).message_title@ == spec_message_title(m)
                    &&& final(self).message_text@ == spec_message_text(m)
                    &&& final(self).fetch.unwrap().phase == (FetchPhase::Done {
                        outcome: Ok::<i64, FetchError>(
                            old(self).fetch.unwrap().phase->AwaitCapture_effective,
                        ),
                    })
                },
                None => {
                    &&& final(self).pinned_offset == old(self).pinned_offset
                    &&& final(self).message_title == old(self).message_title
                    &&& final(self).message_text@ == ("no message was returned")@
                    &&& final(self).fetch.unwrap().phase == (FetchPhase::Done {
                        outcome: Err::<i64, FetchError>(FetchError::NoMessage),
                    })
                },
            },
    {
        let mut proto = match self.fetch.take() {
            Some(p) => p,
            None => {
                return FetchAction::Idle;
            },
        };
        let effective = match proto.phase {
            FetchPhase::AwaitCapture { effective } => effective,
            _ => 0,
        };
        let act = match msg {
            Some(m) => {
                let act = proto.on_capture(true);
                self.message_title = m.render_title();
                self.message_text = m.render_text();
                self.pinned_offset = effective;
                act
            },
            None => {
                let act = proto.on_capture(false);
                self.message_text = String::from_str("no message was returned");
                act
            },
        };
        self.fetch = Some(proto);
        act
    }

    /// Populates the broker detail panel for the selected broker; a name
    /// the cache no longer knows leaves the panel alone.
    pub fn handle_broker_list_navigation(&mut self)
        requires
            old(self).wf(),
        ensures
            final(self).wf(),
            match old(self).brokers_list.selected {
                None => *final(self) == *old(self),
                Some(i) => match first_broker_match(
                    old(self).cache@.brokers,
                    old(self).brokers_list.items@[i as int]@,
                ) {
                    None => *final(self) == *old(self),
                    Some(b) => final(self).broker_details@ == spec_broker_details(
                        b.id,
                        ("UP")@,
                        count_partitions_for_broker(old(self).cache@.topics, b.id),
                    ) && (*final(self) == (AppCore {
                        broker_details: final(self).broker_details,
                        ..*old(self)
                    })),
                },
            },
    {
        let selected = match self.brokers_list.selected_item() {
            Some(s) => s,
            None => {
                return ;
            },
        };
        let broker = match self.cache.get_broker(selected.as_str()) {
            Some(b) => b,
            None => {
                return ;
            },
        };
        proof {
            lemma_count_for_broker_le_total(self.cache@.topics, broker@.id);
        }
        let partition_leader_count = self.cache.no_of_partitions_for_broker(broker.id());
        self.broker_details = generate_broker_details(broker.id(), "UP", partition_leader_count);
    }

    /// Populates the consumer-group detail panel for the selected group.
    pub fn handle_cg_list_navigation(&mut self)
        requires
            old(self).wf(),
        ensures
            final(self).wf(),
            match old(self).consumer_groups_list.selected {
                None => *final(self) == *old(self),
                Some(i) => match first_group_match(
                    old(self).cache@.consumer_groups,
                    old(self).consumer_groups_list.items@[i as int]@,
                ) {
                    None => *final(self) == *old(self),
                    Some(g) => final(self).consumer_group_details@ == spec_consumer_group_details(
                        g.state,
                        g.members.len(),
                    ) && (*final(self) == (AppCore {
                        consumer_group_details: final(self).consumer_group_details,
                        ..*old(self)
                    })),
                },
            },
    {
        let selected = match self.consumer_groups_list.selected_item() {
            Some(s) => s,
            None => {
                return ;
            },
        };
        let cg = match self.cache.get_consumer_group(selected.as_str()) {
            Some(g) => g,
            None => {
                return ;
            },
        };
        let members = cg.members_count();
        self.consumer_group_details = generate_consumer_group_details(cg.state(), members);
    }

    /// Populates the topic detail panel and hands the selected topic's
    /// partition labels to the partitions list, whose cursor resets.
    pub fn handle_topic_list_navigation(&mut self)
        requires
            old(self).wf(),
        ensures
            final(self).wf(),
            match old(self).topics_list.selected {
                None => *final(self) == *old(self),
                Some(i) => match first_topic_match(
                    old(self).cache@.topics,
                    old(self).topics_list.items@[i as int]@,
                ) {
                    None => *final(self) == *old(self),
                    Some(t) => {
                        &&& final(self).topic_details@ == spec_topic_details(t.partitions.len())
                        &&& final(self).partitions_list.selected is None
                        &&& final(self).partitions_list.items@.len() == t.partitions.len()
                        &&& forall|j: int|
                            0 <= j < t.partitions.len() ==> (#[trigger] final(self).partitions_list.items@[j])@ == spec_partition_name(
                                t.name,
                                t.partitions[j].id as int,
                            )
                        &&& final(self).partitions_list.name == old(self).partitions_list.name
                        &&& final(self).partitions_list.focused == old(self).partitions_list.focused
                        &&& final(self).brokers_list == old(self).brokers_list
                        &&& final(self).consumer_groups_list == old(self).consumer_groups_list
                        &&& final(self).topics_list == old(self).topics_list
                        &&& same_entry_inputs(*old(self), *final(self))
                        &&& same_modes(*old(self), *final(self))
                        &&& same_flags(*old(self), *final(self))
                        &&& same_fetch(*old(self), *final(self))
                        &&& final(self).footer_input == old(self).footer_input
                        &&& final(self).cache == old(self).cache
                        &&& final(self).pinned_offset == old(self).pinned_offset
                        &&& final(self).broker_details == old(self).broker_details
                        &&& final(self).consumer_group_details == old(self).consumer_group_details
                        &&& final(self).partition_details == old(self).partition_details
                        &&& final(self).message_title == old(self).message_title
                        &&& final(self).message_text == old(self).message_text
                        &&& final(self).footer_value == old(self).footer_value
                    },
                },
            },
    {
        let selected = match self.topics_list.selected_item() {
            Some(s) => s,
            None => {
                return ;
            },
        };
        let topic = match self.cache.get_topic(selected.as_str()) {
            Some(t) => t,
            None => {
                return ;
            },
        };
        self.topic_details = generate_topic_details(topic.partitions.len());
        let names = topic.partition_names();
        self.partitions_list.update(names);
    }

    /// Resets the pinned offset for the newly selected partition and, in
    /// consumer mode, starts a fetch for its latest message.
    pub fn handle_partition_list_navigation(&mut self) -> (act: AppAction)
        requires
            old(self).wf(),
        ensures
            final(self).wf(),
            match old(self).partitions_list.selected {
                None => *final(self) == *old(self) && act is Idle,
                Some(i) => {
                    &&& final(self).pinned_offset == UNINITIALISED_OFFSET
                    &&& (old(self).app_mode is Consumer ==> (act
                        matches AppAction::StartFetch(fa) && fetch_started(
                        (AppCore { pinned_offset: UNINITIALISED_OFFSET, ..*old(self) }),
                        *final(self),
                        fa,
                        old(self).partitions_list.items@[i as int]@,
                        OffsetRequest::Latest,
                    ) && final(self).footer_input == old(self).footer_input))
                    &&& (old(self).app_mode is Producer ==> act is Idle && *final(self)
                        == (AppCore { pinned_offset: UNINITIALISED_OFFSET, ..*old(self) }))
                },
            },
    {
        let selected = match self.partitions_list.selected_item() {
            Some(s) => s,
            None => {
                return AppAction::Idle;
            },
        };
        self.pinned_offset = UNINITIALISED_OFFSET;
        if matches!(self.app_mode, AppMode::Consumer) {
            let fa = self.fetch_message(selected.as_str(), OffsetRequest::Latest);
            AppAction::StartFetch(fa)
        } else {
            AppAction::Idle
        }
    }

    /// Moves the focused list's cursor and runs that list's detail side
    /// effect; with an entry field focused nothing happens.
    pub fn handle_navigation(&mut self, direction: &Direction) -> (act: AppAction)
        requires
            old(self).wf(),
        ensures
            final(self).wf(),
            old(self).selected_widget >= 4 ==> *final(self) == *old(self) && act is Idle,
            old(self).selected_widget == 0 ==> final(self).brokers_list.selected
                == crate::widgets::spec_nav(
                old(self).brokers_list.selected,
                old(self).brokers_list.items@.len(),
                *direction,
            ),
            old(self).selected_widget == 1 ==> final(self).consumer_groups_list.selected
                == crate::widgets::spec_nav(
                old(self).consumer_groups_list.selected,
                old(self).consumer_groups_list.items@.len(),
                *direction,
            ),
            old(self).selected_widget == 2 ==> final(self).topics_list.selected
                == crate::widgets::spec_nav(
                old(self).topics_list.selected,
                old(self).topics_list.items@.len(),
                *direction,
            ),
            old(self).selected_widget == 3 ==> final(self).pinned_offset == (
            match crate::widgets::spec_nav(
                old(self).partitions_list.selected,
                old(self).partitions_list.items@.len(),
                *direction,
            ) {
                Some(i) => UNINITIALISED_OFFSET,
                None => old(self).pinned_offset,
            }),
            // the detail-population side effects, keyed by the focused list
            old(self).selected_widget == 0 ==> (match crate::widgets::spec_nav(
                old(self).brokers_list.selected,
                old(self).brokers_list.items@.len(),
                *direction,
            ) {
                Some(i) => (match first_broker_match(
                    old(self).cache@.brokers,
                    old(self).brokers_list.items@[i as int]@,
                ) {
                    Some(b) => final(self).broker_details@ == spec_broker_details(
                        b.id,
                        ("UP")@,
                        count_partitions_for_broker(old(self).cache@.topics, b.id),
                    ),
                    None => final(self).broker_details == old(self).broker_details,
                }),
                None => final(self).broker_details == old(self).broker_details,
            }),
            old(self).selected_widget == 1 ==> (match crate::widgets::spec_nav(
                old(self).consumer_groups_list.selected,
                old(self).consumer_groups_list.items@.len(),
                *direction,
            ) {
                Some(i) => (match first_group_match(
                    old(self).cache@.consumer_groups,
                    old(self).consumer_groups_list.items@[i as int]@,
                ) {
                    Some(g) => final(self).consumer_group_details@ == spec_consumer_group_details(
                        g.state,
                        g.members.len(),
                    ),
                    None => final(self).consumer_group_details == old(self).consumer_group_details,
                }),
                None => final(self).consumer_group_details == old(self).consumer_group_details,
            }),
            old(self).selected_widget == 2 ==> (match crate::widgets::spec_nav(
                old(self).topics_list.selected,
                old(self).topics_list.items@.len(),
                *direction,
            ) {
                Some(i) => (match first_topic_match(
                    old(self).cache@.topics,
                    old(self).topics_list.items@[i as int]@,
                ) {
                    Some(t) => final(self).topic_details@ == spec_topic_details(t.partitions.len())
                        && final(self).partitions_list.selected is None && final(self).partitions_list.items@.len() == t.partitions.len() && (forall|j: int|
                        0 <= j < t.partitions.len() ==> (#[trigger] final(self).partitions_list.items@[j])@ == spec_partition_name(
                            t.name,
                            t.partitions[j].id as int,
                        )),
                    None => final(self).topic_details == old(self).topic_details && final(self).partitions_list == old(self).partitions_list,
                }),
                None => final(self).topic_details == old(self).topic_details,
            }),
            old(self).selected_widget == 3 && old(self).app_mode is Consumer ==> (
            match crate::widgets::spec_nav(
                old(self).partitions_list.selected,
                old(self).partitions_list.items@.len(),
                *direction,
            ) {
                Some(i) => (act matches AppAction::StartFetch(fa) && fetch_started(
                    (AppCore {
                        partitions_list: (UIList {
                            selected: Some(i),
                            ..old(self).partitions_list
                        }),
                        pinned_offset: UNINITIALISED_OFFSET,
                        ..*old(self)
                    }),
                    *final(self),
                    fa,
                    old(self).partitions_list.items@[i as int]@,
                    OffsetRequest::Latest,
                )),
                None => act is Idle,
            }),
    {
        if self.selected_widget == 0 {
            self.brokers_list.handle_navigation(direction);
            self.handle_broker_list_navigation();
            AppAction::Idle
        } else if self.selected_widget == 1 {
            self.consumer_groups_list.handle_navigation(direction);
            self.handle_cg_list_navigation();
            AppAction::Idle
        } else if self.selected_widget == 2 {
            self.topics_list.handle_navigation(direction);
            self.handle_topic_list_navigation();
            AppAction::Idle
        } else if self.selected_widget == 3 {
            self.partitions_list.handle_navigation(direction);
            self.handle_partition_list_navigation()
        } else {
            AppAction::Idle
        }
    }

    /// Runs the offset command with its raw argument: a decimal offset to
    /// fetch on the selected partition.
    pub fn handle_offset_command(&mut self, offset_str: &str) -> (act: AppAction)
        requires
            old(self).wf(),
        ensures
            final(self).wf(),
            offset_command_handled(*old(self), *final(self), act, offset_str@),
            final(self).footer_input == old(self).footer_input,
    {
        let offset = match crate::strings::parse_i64(offset_str) {
            Some(o) => o,
            None => {
                self.footer_value = String::from_str("err:InvalidOffset");
                return AppAction::Idle;
            },
        };
        let selected = match self.partitions_list.selected_item() {
            Some(p) => p,
            None => {
                self.footer_value = String::from_str("err:NoSelectedPartition");
                return AppAction::Idle;
            },
        };
        let fa = self.fetch_message(selected.as_str(), OffsetRequest::At(offset));
        AppAction::StartFetch(fa)
    }

    /// Runs the timestamp command with its raw argument: a decimal epoch
    /// in milliseconds, validated here, resolved to an offset outside.
    pub fn handle_timestamp_command(&mut self, timestamp_str: &str) -> (act: AppAction)
        requires
            old(self).wf(),
        ensures
            final(self).wf(),
            timestamp_command_handled(*old(self), *final(self), act, timestamp_str@),
            final(self).footer_input == old(self).footer_input,
    {
        let timestamp = match crate::strings::parse_i64(timestamp_str) {
            Some(t) => t,
            None => {
                self.footer_value = String::from_str("err:InvalidTimestamp");
                return AppAction::Idle;
            },
        };
        if !crate::command::timestamp_valid(timestamp) {
            self.footer_value = String::from_str("err:InvalidTimestamp");
            return AppAction::Idle;
        }
        let selected = match self.partitions_list.selected_item() {
            Some(p) => p,
            None => {
                self.footer_value = String::from_str("err:NoSelectedPartition");
                return AppAction::Idle;
            },
        };
        match crate::command::get_topic_and_parition_id(selected.as_str()) {
            None => AppAction::Idle,
            Some(parsed) => {
                self.pending_timestamp_partition = Some(selected);
                AppAction::ResolveTimestamp {
                    topic: parsed.0,
                    partition_id: parsed.1,
                    timestamp,
                }
            },
        }
    }

    /// Takes the resolved offset for a pending timestamp command: an
    /// offset starts the fetch, no offset and a lookup error each leave
    /// their code in the footer.
    pub fn on_timestamp_offset(&mut self, result: Result<Option<i64>, ConsumerError>) -> (act:
        AppAction)
        requires
            old(self).wf(),
            old(self).pending_timestamp_partition is Some,
        ensures
            final(self).wf(),
            final(self).pending_timestamp_partition is None,
            final(self).footer_input == old(self).footer_input,
            match result {
                Err(e) => error_code_set(
                    (AppCore { pending_timestamp_partition: None, ..*old(self) }),
                    *final(self),
                    ("err:FetchingOffset")@,
                ) && act is Idle,
                Ok(resolved) => match resolved {
                    None => error_code_set(
                        (AppCore { pending_timestamp_partition: None, ..*old(self) }),
                        *final(self),
                        ("err:OffsetNotFound")@,
                    ) && act is Idle,
                    Some(o) => act matches AppAction::StartFetch(fa) && fetch_started(
                        (AppCore { pending_timestamp_partition: None, ..*old(self) }),
                        *final(self),
                        fa,
                        old(self).pending_timestamp_partition.unwrap()@,
                        OffsetRequest::At(o),
                    ),
                },
            },
    {
        let label = match self.pending_timestamp_partition.take() {
            Some(l) => l,
            None => {
                return AppAction::Idle;
            },
        };
        match result {
            Err(_) => {
                self.footer_value = String::from_str("err:FetchingOffset");
                AppAction::Idle
            },
            Ok(resolved) => match resolved {
                None => {
                    self.footer_value = String::from_str("err:OffsetNotFound");
                    AppAction::Idle
                },
                Some(o) => {
                    let fa = self.fetch_message(label.as_str(), OffsetRequest::At(o));
                    AppAction::StartFetch(fa)
                },
            },
        }
    }

    /// Steps one offset left or right from the pinned offset and fetches
    /// there; the bounds check happens in the protocol, like any literal.
    pub fn handle_offset_navigation(&mut self, direction: Direction) -> (act: AppAction)
        requires
            old(self).wf(),
        ensures
            final(self).wf(),
            final(self).footer_input == old(self).footer_input,
            match old(self).partitions_list.selected {
                None => error_code_set(*old(self), *final(self), ("err:NoSelectedPartition")@)
                    && act is Idle,
                Some(i) => act matches AppAction::StartFetch(fa) && fetch_started(
                    *old(self),
                    *final(self),
                    fa,
                    old(self).partitions_list.items@[i as int]@,
                    OffsetRequest::At(spec_nav_offset(old(self).pinned_offset, direction)),
                ),
            },
    {
        let selected = match self.partitions_list.selected_item() {
            Some(p) => p,
            None => {
                self.footer_value = String::from_str("err:NoSelectedPartition");
                return AppAction::Idle;
            },
        };
        let offset: i64 = match direction {
            Direction::LEFT => self.pinned_offset - 1,
            Direction::RIGHT => self.pinned_offset + 1,
            _ => self.pinned_offset,
        };
        let fa = self.fetch_message(selected.as_str(), OffsetRequest::At(offset));
        AppAction::StartFetch(fa)
    }

    /// Runs one typed command line: nothing in producer mode, else the
    /// `<command>!<argument>` grammar decides.
    pub fn handle_command(&mut self, input: &str) -> (act: AppAction)
        requires
            old(self).wf(),
        ensures
            final(self).wf(),
            command_handled(*old(self), *final(self), act, input@),
            final(self).footer_input == old(self).footer_input,
    {
        if matches!(self.app_mode, AppMode::Producer) {
            return AppAction::Idle;
        }
        let n = input.unicode_len();
        proof {
            crate::strings::lemma_find_char_props(input@, '!');
        }
        let f = crate::strings::find_char_index(input, '!');
        if f == n {
            self.footer_value = String::from_str("err:InvalidCMD");
            return AppAction::Idle;
        }
        let kw = input.substring_char(0, f);
        let rest = input.substring_char(f + 1, n);
        proof {
            crate::strings::lemma_find_char_props(rest@, '!');
        }
        let g = crate::strings::find_char_index(rest, '!');
        let arg = rest.substring_char(0, g);
        proof {
            assert(kw@ == crate::command::spec_command_keyword(input@));
            assert(arg@ == crate::command::spec_command_arg(input@));
        }
        if crate::strings::str_eq(kw, "offset") {
            self.handle_offset_command(arg)
        } else if crate::strings::str_eq(kw, "ts") {
            self.handle_timestamp_command(arg)
        } else {
            self.footer_value = String::from_str("err:InvalidCMD");
            AppAction::Idle
        }
    }

    /// Submits the command line: its text runs as a command and the line
    /// itself is cleared.
    pub fn handle_input_submission(&mut self) -> (act: AppAction)
        requires
            old(self).wf(),
        ensures
            final(self).wf(),
            final(self).footer_input.chars@ == Seq::<char>::empty(),
            final(self).footer_input.cursor == 0,
            command_handled(*old(self), *final(self), act, old(self).footer_input.chars@),
    {
        let value = self.footer_input.value();
        self.footer_input.apply(InputEvent::Reset);
        self.handle_command(value.as_str())
    }

    /// Dispatches one application event, as the input loop delivers them:
    /// in normal mode the navigation keys, in insert mode the editing
    /// keys. Quitting is only possible from normal mode.
    pub fn handle_event(&mut self, event: AppEvent) -> (act: AppAction)
        requires
            old(self).wf(),
        ensures
            final(self).wf(),
            old(self).edit_mode is Normal && (event == AppEvent::Input('q') || event
                == AppEvent::Input('Q')) ==> final(self).should_quit && act is Quit,
            old(self).edit_mode is Normal && event == AppEvent::Input('c') ==> final(self).app_mode
                is Consumer && final(self).selected_widget == spec_clamp_widget(
                old(self).selected_widget,
                AppMode::Consumer,
            ),
            old(self).edit_mode is Normal && event == AppEvent::Input('p') ==> final(self).app_mode
                is Producer && final(self).selected_widget == spec_clamp_widget(
                old(self).selected_widget,
                AppMode::Producer,
            ),
            old(self).edit_mode is Normal && event == AppEvent::Tab ==> final(self).selected_widget
                == spec_tab_target(
                old(self).selected_widget,
                false,
                widget_count(old(self).app_mode),
            ),
            old(self).edit_mode is Normal && event == AppEvent::BackTab ==> final(self).selected_widget == spec_tab_target(
                old(self).selected_widget,
                true,
                widget_count(old(self).app_mode),
            ),
            old(self).edit_mode is Insert && event == AppEvent::Esc ==> final(self).edit_mode
                is Normal,
            old(self).edit_mode is Normal && event == AppEvent::Input('h')
                ==> final(self).show_help == !old(self).show_help,
            old(self).edit_mode is Insert && old(self).app_mode is Consumer && event
                == AppEvent::Enter ==> final(self).edit_mode is Normal && final(self).footer_input.chars@ == Seq::<char>::empty(),
            // enter in consumer insert mode submits the buffered line to the
            // command interpreter; apart from the return to normal editing,
            // the state is exactly a handled command over the old buffer
            old(self).edit_mode is Insert && old(self).app_mode is Consumer && event
                == AppEvent::Enter ==> command_handled(
                *old(self),
                (AppCore { edit_mode: old(self).edit_mode, ..*final(self) }),
                act,
                old(self).footer_input.chars@,
            ),
            // enter in producer insert mode puts a literal newline into the
            // focused entry field and stays in insert mode; no command runs
            // and no cluster work is asked for
            old(self).edit_mode is Insert && old(self).app_mode is Producer && event
                == AppEvent::Enter ==> final(self).edit_mode is Insert && act is Idle && same_fetch(
                *old(self),
                *final(self),
            ) && (old(self).selected_widget == 4 ==> crate::widgets::spec_applied(
                old(self).key_input,
                final(self).key_input,
                InputEvent::NewChar('\n'),
            )) && (old(self).selected_widget == 5 ==> crate::widgets::spec_applied(
                old(self).headers_input,
                final(self).headers_input,
                InputEvent::NewChar('\n'),
            )) && (old(self).selected_widget == 6 ==> crate::widgets::spec_applied(
                old(self).payload_input,
                final(self).payload_input,
                InputEvent::NewChar('\n'),
            )),
            // any character in insert mode is text for the focused input;
            // the application mode never changes there
            old(self).edit_mode is Insert ==> (event matches AppEvent::Input(c) ==> final(self).app_mode == old(self).app_mode && final(self).edit_mode is Insert && act is Idle
                && same_fetch(*old(self), *final(self)) && (old(self).app_mode is Consumer
                ==> crate::widgets::spec_applied(
                old(self).footer_input,
                final(self).footer_input,
                InputEvent::NewChar(c),
            )) && (old(self).app_mode is Producer && old(self).selected_widget == 4
                ==> crate::widgets::spec_applied(
                old(self).key_input,
                final(self).key_input,
                InputEvent::NewChar(c),
            )) && (old(self).app_mode is Producer && old(self).selected_widget == 5
                ==> crate::widgets::spec_applied(
                old(self).headers_input,
                final(self).headers_input,
                InputEvent::NewChar(c),
            )) && (old(self).app_mode is Producer && old(self).selected_widget == 6
                ==> crate::widgets::spec_applied(
                old(self).payload_input,
                final(self).payload_input,
                InputEvent::NewChar(c),
            ))),
    {
        match self.edit_mode {
            EditMode::Normal => match event {
                AppEvent::Tab => {
                    self.handle_tab(false);
                    AppAction::Idle
                },
                AppEvent::BackTab => {
                    self.handle_tab(true);
                    AppAction::Idle
                },
                AppEvent::Up => self.handle_navigation(&Direction::UP),
                AppEvent::Down => self.handle_navigation(&Direction::DOWN),
                AppEvent::Left => self.handle_offset_navigation(Direction::LEFT),
                AppEvent::Right => self.handle_offset_navigation(Direction::RIGHT),
                AppEvent::Input(c) => {
                    if c == ':' {
                        if matches!(self.app_mode, AppMode::Consumer) {
                            self.toggle_edit_mode(EditMode::Insert);
                        }
                        AppAction::Idle
                    } else if c == 'i' {
                        if matches!(self.app_mode, AppMode::Producer) {
                            self.toggle_edit_mode(EditMode::Insert);
                        }
                        AppAction::Idle
                    } else if c == 'm' {
                        AppAction::ScrollMessage(Direction::DOWN)
                    } else if c == 'n' {
                        AppAction::ScrollMessage(Direction::UP)
                    } else if c == 'h' {
                        self.help_window();
                        AppAction::Idle
                    } else if c == 'c' {
                        self.set_app_mode(AppMode::Consumer);
                        AppAction::Idle
                    } else if c == 'p' {
                        self.set_app_mode(AppMode::Producer);
                        AppAction::Idle
                    } else if c == 'f' {
                        self.file_explorer();
                        AppAction::Idle
                    } else if c == 'q' || c == 'Q' {
                        self.should_quit = true;
                        AppAction::Quit
                    } else {
                        AppAction::Idle
                    }
                },
                _ => AppAction::Idle,
            },
            EditMode::Insert => match event {
                AppEvent::Esc => {
                    self.toggle_edit_mode(EditMode::Normal);
                    AppAction::Idle
                },
                AppEvent::Input(c) => {
                    self.handle_input_event(InputEvent::NewChar(c));
                    AppAction::Idle
                },
                AppEvent::Backspace => {
                    self.handle_input_event(InputEvent::RemovePrevChar);
                    AppAction::Idle
                },
                AppEvent::Delete => {
                    self.handle_input_event(InputEvent::RemoveNextChar);
                    AppAction::Idle
                },
                AppEvent::Left => {
                    self.handle_input_event(InputEvent::MoveCursor(Direction::LEFT));
                    AppAction::Idle
                },
                AppEvent::Right => {
                    self.handle_input_event(InputEvent::MoveCursor(Direction::RIGHT));
                    AppAction::Idle
                },
                AppEvent::Up => {
                    self.handle_input_event(InputEvent::MoveCursor(Direction::UP));
                    AppAction::Idle
                },
                AppEvent::Down => {
                    self.handle_input_event(InputEvent::MoveCursor(Direction::DOWN));
                    AppAction::Idle
                },
                AppEvent::Enter => {
                    match self.app_mode {
                        AppMode::Consumer => {
                            let ghost pre = *self;
                            let act = self.handle_input_submission();
                            let ghost mid = *self;
                            self.toggle_edit_mode(EditMode::Normal);
                            proof {
                                assert(mid == (AppCore { edit_mode: pre.edit_mode, ..*self }));
                            }
                            act
                        },
                        AppMode::Producer => {
                            self.handle_input_event(InputEvent::NewChar('\n'));
                            AppAction::Idle
                        },
                    }
                },
                AppEvent::Tab => {
                    self.handle_input_event(InputEvent::NewChar('\t'));
                    AppAction::Idle
                },
                _ => AppAction::Idle,
            },
        }
    }
}

/// The offset one keyboard step away from the pinned offset.
pub open spec fn spec_nav_offset(pinned: i64, direction: Direction) -> i64
    recommends
        pinned_wf(pinned),
{
    match direction {
        Direction::LEFT => (pinned - 1) as i64,
        Direction::RIGHT => (pinned + 1) as i64,
        _ => pinned,
    }
}

/// Law: from a successfully pinned offset `o`, the left key then the right
/// key return the effective offset to `o`, under a stable watermark window
/// — provided the left neighbour is still inside the window, which is what
/// lets the intermediate fetch pin at all.
pub proof fn lemma_left_then_right_round_trip(low: i64, high: i64, o: i64)
    requires
        0 <= low <= o < high,
        low <= o - 1,
    ensures
        crate::fetch::spec_resolve(
            OffsetRequest::At(spec_nav_offset(o, Direction::LEFT)),
            low,
            high,
        ) == Ok::<i64, FetchError>((o - 1) as i64),
        crate::fetch::spec_resolve(
            OffsetRequest::At(spec_nav_offset((o - 1) as i64, Direction::RIGHT)),
            low,
            high,
        ) == Ok::<i64, FetchError>(o),
{
}

/// Law: the same round trip the other way: right then left, provided the
/// right neighbour is still inside the window.
pub proof fn lemma_right_then_left_round_trip(low: i64, high: i64, o: i64)
    requires
        0 <= low <= o < high,
        o + 1 < high,
    ensures
        crate::fetch::spec_resolve(
            OffsetRequest::At(spec_nav_offset(o, Direction::RIGHT)),
            low,
            high,
        ) == Ok::<i64, FetchError>((o + 1) as i64),
        crate::fetch::spec_resolve(
            OffsetRequest::At(spec_nav_offset((o + 1) as i64, Direction::LEFT)),
            low,
            high,
        ) == Ok::<i64, FetchError>(o),
{
}

} // verus!
