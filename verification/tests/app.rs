//! The application core: navigation, mode machine, commands, and the
//! keyboard-driven fetch round trips.

use kafka2i::app_core::{AppAction, AppCore, AppEvent, AppMode, EditMode, UNINITIALISED_OFFSET};
use kafka2i::fetch::{FetchAction, FetchPhase, SeekOutcome};
use kafka2i::message::KafkaMessage;
use kafka2i::metadata::{Broker, ConsumerGroup, ConsumerGroupMember, Metadata, Partition, Topic};
use kafka2i::widgets::Direction;

fn sample_cache() -> Metadata {
    let partitions = vec![
        Partition { id: 0, leader: 1, isr: vec![1, 2], replicas: vec![1, 2, 3] },
        Partition { id: 1, leader: 2, isr: vec![2], replicas: vec![2, 3] },
        Partition { id: 2, leader: 1, isr: vec![], replicas: vec![] },
    ];
    let topics = vec![
        Topic { name: String::from("orders"), partitions },
        Topic { name: String::from("audit"), partitions: vec![] },
    ];
    let brokers = vec![Broker::new(1, "localhost", 9092), Broker::new(2, "localhost", 9093)];
    let groups = vec![ConsumerGroup {
        name: String::from("cg.krust"),
        members: vec![ConsumerGroupMember { id: String::from("m1") }],
        state: String::from("Stable"),
    }];
    let mut m = Metadata::new();
    m.update(brokers, topics, groups);
    m
}

fn new_core() -> AppCore {
    AppCore::new(sample_cache())
}

fn message_at(offset: i64) -> KafkaMessage {
    KafkaMessage {
        topic: String::from("orders"),
        partition: 1,
        offset,
        key: Some(String::from("k1")),
        headers: vec![(String::from("h"), String::from("v"))],
        payload: Some(String::from("plain text")),
        timestamp: Some(100),
    }
}

/// Selects `orders` in the topics list and the given partition row.
fn select_partition(c: &mut AppCore, row: usize) {
    c.topics_list.selected = Some(1);  // topics are sorted: audit, orders
    c.handle_topic_list_navigation();
    c.partitions_list.selected = Some(row);
}

/// Runs one fetch through to a delivered message.
fn finish_fetch_with(c: &mut AppCore, low: i64, high: i64, msg: KafkaMessage) {
    let act = c.on_fetch_watermarks(Ok((low, high)));
    assert!(matches!(act, FetchAction::AssignPartition { .. }));
    let act = c.on_fetch_assign_result(Ok(()));
    assert!(matches!(act, FetchAction::PollDiscard));
    let act = c.on_fetch_warmup_result(Ok(()));
    assert!(matches!(act, FetchAction::SeekTo { backoff: false, .. }));
    let act = c.on_fetch_seek_result(SeekOutcome::Success);
    assert!(matches!(act, FetchAction::PollCapture));
    let act = c.on_fetch_message(Some(msg));
    assert!(matches!(act, FetchAction::Idle));
}

#[test]
fn new_core_starts_in_consumer_normal() {
    let c = new_core();
    assert!(matches!(c.app_mode, AppMode::Consumer));
    assert!(matches!(c.edit_mode, EditMode::Normal));
    assert_eq!(c.selected_widget, 0);
    assert_eq!(c.pinned_offset, UNINITIALISED_OFFSET);
    assert!(c.brokers_list.is_focused());
    let items: Vec<&str> = c.topics_list.items.iter().map(|s| s.as_str()).collect();
    assert_eq!(items, vec!["audit", "orders"]);
    assert!(c.partitions_list.items.is_empty());
}

#[test]
fn tab_cycles_consumer_widgets() {
    let mut c = new_core();
    for expected in [1usize, 2, 3, 0, 1] {
        c.handle_tab(false);
        assert_eq!(c.selected_widget, expected);
    }
    c.handle_tab(true);
    assert_eq!(c.selected_widget, 0);
    c.handle_tab(true);
    assert_eq!(c.selected_widget, 3);
}

#[test]
fn tab_cycles_producer_widgets() {
    let mut c = new_core();
    c.set_app_mode(AppMode::Producer);
    for expected in [1usize, 2, 3, 4, 5, 6, 0] {
        c.handle_tab(false);
        assert_eq!(c.selected_widget, expected);
    }
    c.handle_tab(true);
    assert_eq!(c.selected_widget, 6);
}

#[test]
fn mode_switch_clamps_focus() {
    // tab onto a producer entry field, then switch to consumer mode: the
    // focus must land on a valid list widget
    let mut c = new_core();
    c.set_app_mode(AppMode::Producer);
    for _ in 0..5 {
        c.handle_tab(false);
    }
    assert_eq!(c.selected_widget, 5);
    c.set_app_mode(AppMode::Consumer);
    assert_eq!(c.selected_widget, 3);
    assert!(c.partitions_list.is_focused());
    // switching with a valid focus keeps it
    c.selected_widget = 2;
    c.set_app_mode(AppMode::Producer);
    assert_eq!(c.selected_widget, 2);
}

#[test]
fn mode_switch_keys_only_in_normal_mode() {
    let mut c = new_core();
    let act = c.handle_event(AppEvent::Input('p'));
    assert!(matches!(act, AppAction::Idle));
    assert!(matches!(c.app_mode, AppMode::Producer));
    c.handle_event(AppEvent::Input('i'));
    assert!(matches!(c.edit_mode, EditMode::Insert));
    // in insert mode, 'c' is text, not a mode switch
    c.handle_event(AppEvent::Input('c'));
    assert!(matches!(c.app_mode, AppMode::Producer));
    c.handle_event(AppEvent::Esc);
    assert!(matches!(c.edit_mode, EditMode::Normal));
    c.handle_event(AppEvent::Input('c'));
    assert!(matches!(c.app_mode, AppMode::Consumer));
}

#[test]
fn arrow_keys_drive_the_focused_list() {
    let mut c = new_core();
    c.handle_event(AppEvent::Down);
    assert_eq!(c.brokers_list.state(), Some(0));
    assert_eq!(c.broker_details.as_str(), "\nID         : 1\nStatus     : UP\nPartitions : 2");
    // move the focus to the topics list and select the first topic
    c.handle_event(AppEvent::Tab);
    c.handle_event(AppEvent::Tab);
    c.handle_event(AppEvent::Down);
    assert_eq!(c.topics_list.state(), Some(0));
    assert_eq!(c.topic_details.as_str(), "\nParitions: 0");
    assert!(c.partitions_list.items.is_empty());
}

#[test]
fn quit_keys() {
    let mut c = new_core();
    let act = c.handle_event(AppEvent::Input('q'));
    assert!(matches!(act, AppAction::Quit));
    assert!(c.should_quit);
}

#[test]
fn topic_selection_replaces_partition_list() {
    let mut c = new_core();
    c.topics_list.selected = Some(1);
    c.handle_topic_list_navigation();
    let items: Vec<&str> = c.partitions_list.items.iter().map(|s| s.as_str()).collect();
    assert_eq!(items, vec!["orders/0", "orders/1", "orders/2"]);
    assert_eq!(c.partitions_list.state(), None);
    assert_eq!(c.topic_details.as_str(), "\nParitions: 3");
    // selecting the other topic replaces the contents again
    c.partitions_list.selected = Some(2);
    c.topics_list.selected = Some(0);
    c.handle_topic_list_navigation();
    assert!(c.partitions_list.items.is_empty());
    assert_eq!(c.partitions_list.state(), None);
}

#[test]
fn partition_selection_resets_pinned_offset() {
    let mut c = new_core();
    select_partition(&mut c, 1);
    c.pinned_offset = 7;
    let act = c.handle_partition_list_navigation();
    assert_eq!(c.pinned_offset, UNINITIALISED_OFFSET);
    // consumer mode immediately asks for the latest message
    match act {
        AppAction::StartFetch(FetchAction::FetchWatermarks { topic, partition_id }) => {
            assert_eq!(topic.as_str(), "orders");
            assert_eq!(partition_id, 1);
        },
        _ => panic!("selecting a partition in consumer mode must start a fetch"),
    }
}

#[test]
fn partition_selection_in_producer_mode_fetches_nothing() {
    let mut c = new_core();
    select_partition(&mut c, 1);
    c.set_app_mode(AppMode::Producer);
    c.pinned_offset = 7;
    let act = c.handle_partition_list_navigation();
    assert_eq!(c.pinned_offset, UNINITIALISED_OFFSET);
    assert!(matches!(act, AppAction::Idle));
    assert!(c.fetch.is_none());
}

#[test]
fn broker_selection_populates_details() {
    let mut c = new_core();
    c.brokers_list.selected = Some(0);
    c.handle_broker_list_navigation();
    assert_eq!(c.broker_details.as_str(), "\nID         : 1\nStatus     : UP\nPartitions : 2");
}

#[test]
fn group_selection_populates_details() {
    let mut c = new_core();
    c.consumer_groups_list.selected = Some(0);
    c.handle_cg_list_navigation();
    assert_eq!(c.consumer_group_details.as_str(), "\nState   : Stable\nMembers : 1");
}

#[test]
fn offset_command_on_selected_partition() {
    // `offset!12` with watermarks [0, 20) runs the fetch at offset 12
    let mut c = new_core();
    select_partition(&mut c, 1);
    let act = c.handle_command("offset!12");
    assert!(matches!(act, AppAction::StartFetch(FetchAction::FetchWatermarks { .. })));
    let act = c.on_fetch_watermarks(Ok((0, 20)));
    assert!(matches!(act, FetchAction::AssignPartition { .. }));
    assert!(matches!(
        c.fetch.as_ref().unwrap().phase,
        FetchPhase::AwaitAssign { effective: 12 }
    ));
    assert_eq!(c.partition_details.as_str(), "\nLeader : 2\nISR    : 1 / 2\nLWM    : 0\nHWM    : 20");
}

#[test]
fn offset_command_with_bad_argument_reaches_no_client() {
    let mut c = new_core();
    select_partition(&mut c, 1);
    let act = c.handle_command("offset!abc");
    assert!(matches!(act, AppAction::Idle));
    assert_eq!(c.footer_value.as_str(), "err:InvalidOffset");
    assert!(c.fetch.is_none());
}

#[test]
fn offset_command_without_partition() {
    let mut c = new_core();
    let act = c.handle_command("offset!3");
    assert!(matches!(act, AppAction::Idle));
    assert_eq!(c.footer_value.as_str(), "err:NoSelectedPartition");
}

#[test]
fn unknown_command_sets_error_code() {
    let mut c = new_core();
    assert!(matches!(c.handle_command("nope!1"), AppAction::Idle));
    assert_eq!(c.footer_value.as_str(), "err:InvalidCMD");
    assert!(matches!(c.handle_command("offset12"), AppAction::Idle));
    assert_eq!(c.footer_value.as_str(), "err:InvalidCMD");
}

#[test]
fn timestamp_command_resolves_then_fetches() {
    // `ts!1714732185000` resolving to offset 7 behaves as `offset!7`
    let mut c = new_core();
    select_partition(&mut c, 1);
    let act = c.handle_command("ts!1714732185000");
    match act {
        AppAction::ResolveTimestamp { topic, partition_id, timestamp } => {
            assert_eq!(topic.as_str(), "orders");
            assert_eq!(partition_id, 1);
            assert_eq!(timestamp, 1714732185000);
        },
        _ => panic!("a valid timestamp command must ask for the offset lookup"),
    }
    let act = c.on_timestamp_offset(Ok(Some(7)));
    assert!(matches!(act, AppAction::StartFetch(FetchAction::FetchWatermarks { .. })));
    c.on_fetch_watermarks(Ok((0, 20)));
    assert!(matches!(
        c.fetch.as_ref().unwrap().phase,
        FetchPhase::AwaitAssign { effective: 7 }
    ));
}

#[test]
fn timestamp_command_error_paths() {
    let mut c = new_core();
    select_partition(&mut c, 1);
    assert!(matches!(c.handle_command("ts!abc"), AppAction::Idle));
    assert_eq!(c.footer_value.as_str(), "err:InvalidTimestamp");
    assert!(matches!(c.handle_command("ts!9999999999999999"), AppAction::Idle));
    assert_eq!(c.footer_value.as_str(), "err:InvalidTimestamp");
    c.handle_command("ts!1714732185000");
    assert!(matches!(c.on_timestamp_offset(Ok(None)), AppAction::Idle));
    assert_eq!(c.footer_value.as_str(), "err:OffsetNotFound");
    c.handle_command("ts!1714732185000");
    let broke = kafka2i::fetch::ConsumerError { message: String::from("broker down") };
    assert!(matches!(c.on_timestamp_offset(Err(broke)), AppAction::Idle));
    assert_eq!(c.footer_value.as_str(), "err:FetchingOffset");
}

#[test]
fn watermark_failure_leaves_the_panel_untouched() {
    // a fetch that dies at the watermark call keeps the prior panel text
    let mut c = new_core();
    select_partition(&mut c, 1);
    c.message_text = String::from("prior message");
    let act = c.fetch_message("orders/1", kafka2i::fetch::OffsetRequest::Latest);
    assert!(matches!(act, FetchAction::FetchWatermarks { .. }));
    assert_eq!(c.message_text.as_str(), "prior message");
    let act = c.on_fetch_watermarks(Err(kafka2i::fetch::ConsumerError {
        message: String::from("timed out"),
    }));
    assert!(matches!(act, FetchAction::Idle));
    assert_eq!(c.message_text.as_str(), "prior message");
}

#[test]
fn unknown_partition_surfaces_a_display_error() {
    let mut c = new_core();
    let act = c.fetch_message("payments/0", kafka2i::fetch::OffsetRequest::Latest);
    assert!(matches!(act, FetchAction::Idle));
    assert_eq!(c.message_text.as_str(), "unable to get details for partition payments/0");
    assert!(c.fetch.is_none());
}

#[test]
fn empty_partition_aborts_without_assign() {
    let mut c = new_core();
    select_partition(&mut c, 1);
    let act = c.fetch_message("orders/1", kafka2i::fetch::OffsetRequest::Latest);
    assert!(matches!(act, FetchAction::FetchWatermarks { .. }));
    let act = c.on_fetch_watermarks(Ok((7, 7)));
    assert!(matches!(act, FetchAction::Idle));
    assert_eq!(c.message_text.as_str(), "No messages in partition orders/1");
}

#[test]
fn out_of_range_offset_keeps_pinned_offset() {
    let mut c = new_core();
    select_partition(&mut c, 1);
    c.pinned_offset = 12;
    let act = c.handle_command("offset!42");
    assert!(matches!(act, AppAction::StartFetch(_)));
    let act = c.on_fetch_watermarks(Ok((0, 20)));
    assert!(matches!(act, FetchAction::Idle));
    assert_eq!(c.footer_value.as_str(), "err:InvalidOffset");
    assert_eq!(c.message_text.as_str(), "invalid offset 42, should be between 0 and 20");
    assert_eq!(c.pinned_offset, 12);
}

#[test]
fn successful_fetch_pins_offset() {
    let mut c = new_core();
    select_partition(&mut c, 1);
    let act = c.handle_partition_list_navigation();
    assert!(matches!(act, AppAction::StartFetch(_)));
    finish_fetch_with(&mut c, 0, 20, message_at(19));
    assert_eq!(c.pinned_offset, 19);
    assert_eq!(c.message_title.as_str(), "Message offset:19 ts:100");
}

#[test]
fn failed_capture_leaves_pinned_offset() {
    let mut c = new_core();
    select_partition(&mut c, 1);
    c.pinned_offset = 12;
    c.fetch_message("orders/1", kafka2i::fetch::OffsetRequest::At(5));
    c.on_fetch_watermarks(Ok((0, 20)));
    c.on_fetch_assign_result(Ok(()));
    c.on_fetch_warmup_result(Ok(()));
    c.on_fetch_seek_result(SeekOutcome::Success);
    let act = c.on_fetch_message(None);
    assert!(matches!(act, FetchAction::Idle));
    assert_eq!(c.message_text.as_str(), "no message was returned");
    assert_eq!(c.pinned_offset, 12);
}

#[test]
fn left_then_right_returns_to_pinned_offset() {
    // the round trip under a stable watermark window [0, 20)
    let mut c = new_core();
    select_partition(&mut c, 1);
    c.handle_partition_list_navigation();
    finish_fetch_with(&mut c, 0, 20, message_at(19));
    assert_eq!(c.pinned_offset, 19);
    // left: fetch offset 18
    let act = c.handle_event(AppEvent::Left);
    assert!(matches!(act, AppAction::StartFetch(_)));
    finish_fetch_with(&mut c, 0, 20, message_at(18));
    assert_eq!(c.pinned_offset, 18);
    // right: back to 19
    let act = c.handle_event(AppEvent::Right);
    assert!(matches!(act, AppAction::StartFetch(_)));
    finish_fetch_with(&mut c, 0, 20, message_at(19));
    assert_eq!(c.pinned_offset, 19);
}

#[test]
fn right_then_left_returns_to_pinned_offset() {
    let mut c = new_core();
    select_partition(&mut c, 1);
    c.fetch_message("orders/1", kafka2i::fetch::OffsetRequest::At(5));
    finish_fetch_with(&mut c, 0, 20, message_at(5));
    assert_eq!(c.pinned_offset, 5);
    c.handle_event(AppEvent::Right);
    finish_fetch_with(&mut c, 0, 20, message_at(6));
    assert_eq!(c.pinned_offset, 6);
    c.handle_event(AppEvent::Left);
    finish_fetch_with(&mut c, 0, 20, message_at(5));
    assert_eq!(c.pinned_offset, 5);
}

#[test]
fn offset_navigation_needs_a_partition() {
    let mut c = new_core();
    let act = c.handle_offset_navigation(Direction::LEFT);
    assert!(matches!(act, AppAction::Idle));
    assert_eq!(c.footer_value.as_str(), "err:NoSelectedPartition");
}

#[test]
fn typed_command_line_flow() {
    // type `offset!1` in insert mode and submit it with enter
    let mut c = new_core();
    select_partition(&mut c, 0);
    c.handle_event(AppEvent::Input(':'));
    assert!(matches!(c.edit_mode, EditMode::Insert));
    for ch in "offset!1".chars() {
        c.handle_event(AppEvent::Input(ch));
    }
    let act = c.handle_event(AppEvent::Enter);
    assert!(matches!(act, AppAction::StartFetch(FetchAction::FetchWatermarks { .. })));
    assert!(matches!(c.edit_mode, EditMode::Normal));
    assert!(c.footer_input.chars.is_empty());
}

#[test]
fn producer_enter_inserts_newline() {
    let mut c = new_core();
    c.set_app_mode(AppMode::Producer);
    for _ in 0..6 {
        c.handle_tab(false);
    }
    assert_eq!(c.selected_widget, 6);
    c.toggle_edit_mode(EditMode::Insert);
    c.handle_event(AppEvent::Input('a'));
    c.handle_event(AppEvent::Enter);
    c.handle_event(AppEvent::Input('b'));
    let text: String = c.payload_input.chars.iter().collect();
    assert_eq!(text.as_str(), "a\nb");
    assert!(matches!(c.edit_mode, EditMode::Insert));
}

#[test]
fn help_and_file_explorer_toggles() {
    let mut c = new_core();
    c.handle_event(AppEvent::Input('h'));
    assert!(c.show_help);
    c.handle_event(AppEvent::Input('h'));
    assert!(!c.show_help);
    // the file picker only opens in producer mode
    c.handle_event(AppEvent::Input('f'));
    assert!(!c.file_explorer_open);
    c.handle_event(AppEvent::Input('p'));
    c.handle_event(AppEvent::Input('f'));
    assert!(c.file_explorer_open);
    assert!(matches!(c.edit_mode, EditMode::Insert));
}

#[test]
fn assign_failure_surfaces_combined_error() {
    let mut c = new_core();
    select_partition(&mut c, 1);
    c.fetch_message("orders/1", kafka2i::fetch::OffsetRequest::At(3));
    c.on_fetch_watermarks(Ok((0, 20)));
    let act = c.on_fetch_assign_result(Err(kafka2i::fetch::ConsumerError {
        message: String::from("not authorised"),
    }));
    assert!(matches!(act, FetchAction::Idle));
    assert_eq!(
        c.message_text.as_str(),
        "error assigning and polling for partition orders/1: not authorised"
    );
    assert!(matches!(
        c.fetch.as_ref().unwrap().phase,
        FetchPhase::Done { outcome: Err(kafka2i::fetch::FetchError::Assign { .. }) }
    ));
}

#[test]
fn warmup_failure_surfaces_combined_error() {
    let mut c = new_core();
    select_partition(&mut c, 1);
    c.fetch_message("orders/1", kafka2i::fetch::OffsetRequest::At(3));
    c.on_fetch_watermarks(Ok((0, 20)));
    c.on_fetch_assign_result(Ok(()));
    let act = c.on_fetch_warmup_result(Err(kafka2i::fetch::ConsumerError {
        message: String::from("poll timed out"),
    }));
    assert!(matches!(act, FetchAction::Idle));
    assert_eq!(
        c.message_text.as_str(),
        "error assigning and polling for partition orders/1: poll timed out"
    );
}

#[test]
fn seek_retry_surface() {
    // four erroneous outcomes in a row exhaust the retry budget and the
    // panel reports that no message came
    let mut c = new_core();
    select_partition(&mut c, 1);
    c.fetch_message("orders/1", kafka2i::fetch::OffsetRequest::At(3));
    c.on_fetch_watermarks(Ok((0, 20)));
    c.on_fetch_assign_result(Ok(()));
    c.on_fetch_warmup_result(Ok(()));
    for _ in 0..3 {
        let act = c.on_fetch_seek_result(SeekOutcome::ErroneousState {
            detail: String::from("Local: Erroneous state"),
        });
        assert!(matches!(act, FetchAction::SeekTo { backoff: true, .. }));
    }
    let act = c.on_fetch_seek_result(SeekOutcome::ErroneousState {
        detail: String::from("Local: Erroneous state"),
    });
    assert!(matches!(act, FetchAction::Idle));
    assert_eq!(c.message_text.as_str(), "no message was returned");
}
