use mpris_service::command::{plan_command, CommandPlan, MprisPlayerCommand, PlayerCommand, ProxyAction};
use mpris_service::discovery::{
    filter_player_names, is_player_name, name_owner_event, refresh_action_for, step, BusEvent,
    DiscoveryState, RefreshAction, ServiceEvent, ServiceInput,
};
use mpris_service::metadata::{MprisPlayerMetadata, PropValue, Property};
use mpris_service::power::{PowerAction, PowerMessage};
use mpris_service::snapshot::{build_snapshot, EndpointQuery, EndpointReadings, MprisPlayerData, MprisPlayerService};
use mpris_service::utils::{format_duration, IndicatorState};
use mpris_service::volume::{native_of_volume_percent, volume_percent_of_native};

fn meta(artists: Option<Vec<&str>>, title: Option<&str>) -> MprisPlayerMetadata {
    MprisPlayerMetadata {
        artists: artists.map(|a| a.into_iter().map(|s| s.to_string()).collect()),
        title: title.map(|t| t.to_string()),
    }
}

fn props(artists: Option<Vec<&str>>, title: Option<&str>) -> Vec<Property> {
    let mut v = Vec::new();
    if let Some(a) = artists {
        v.push(Property {
            key: "xesam:artist".to_string(),
            value: PropValue::TextList(a.into_iter().map(|s| s.to_string()).collect()),
        });
    }
    if let Some(t) = title {
        v.push(Property {
            key: "xesam:title".to_string(),
            value: PropValue::Text(t.to_string()),
        });
    }
    v
}

#[test]
fn display_nothing_known_is_empty() {
    assert_eq!(meta(None, None).display(), "");
}

#[test]
fn display_title_alone() {
    assert_eq!(meta(None, Some("Song")).display(), "Song");
}

#[test]
fn display_artists_alone_joined() {
    assert_eq!(meta(Some(vec!["X", "Y"]), None).display(), "X, Y");
    assert_eq!(meta(Some(vec!["X"]), None).display(), "X");
}

#[test]
fn display_both_artists_and_title() {
    assert_eq!(meta(Some(vec!["X", "Y"]), Some("Song")).display(), "X, Y - Song");
}

#[test]
fn metadata_from_properties_reads_both_keys() {
    let m = MprisPlayerMetadata::from_properties(&props(Some(vec!["X", "Y"]), Some("Song")));
    assert_eq!(m.artists, Some(vec!["X".to_string(), "Y".to_string()]));
    assert_eq!(m.title, Some("Song".to_string()));
}

#[test]
fn metadata_from_properties_absent_keys_stay_unknown() {
    let m = MprisPlayerMetadata::from_properties(&Vec::new());
    assert_eq!(m.artists, None);
    assert_eq!(m.title, None);
}

#[test]
fn metadata_from_properties_wrong_shapes_stay_unknown() {
    let raw = vec![
        Property { key: "xesam:artist".to_string(), value: PropValue::Text("X".to_string()) },
        Property { key: "xesam:title".to_string(), value: PropValue::Other },
    ];
    let m = MprisPlayerMetadata::from_properties(&raw);
    assert_eq!(m.artists, None);
    assert_eq!(m.title, None);
}

#[test]
fn volume_scaling_round_trip() {
    assert_eq!(volume_percent_of_native(1_000_000), 10_000);
    assert_eq!(volume_percent_of_native(500_000), 5_000);
    assert_eq!(native_of_volume_percent(7_500), 750_000);
    assert_eq!(native_of_volume_percent(0), 0);
}

fn query(service: &str, readings: Option<(Option<Vec<Property>>, Option<u32>)>) -> EndpointQuery {
    EndpointQuery {
        service: service.to_string(),
        readings: readings.map(|(metadata, volume)| EndpointReadings { metadata, volume }),
    }
}

#[test]
fn snapshot_drops_failed_connects_and_keeps_order() {
    let queries = vec![
        query("org.mpris.MediaPlayer2.A", Some((None, Some(300_000)))),
        query("org.mpris.MediaPlayer2.B", None),
        query("org.mpris.MediaPlayer2.C", Some((None, None))),
    ];
    let snap = build_snapshot(&queries);
    assert_eq!(snap.len(), 2);
    assert_eq!(snap[0].service, "org.mpris.MediaPlayer2.A");
    assert_eq!(snap[0].volume, Some(3_000));
    assert_eq!(snap[1].service, "org.mpris.MediaPlayer2.C");
    assert_eq!(snap[1].volume, None);
    assert_eq!(snap[1].metadata, None);
}

#[test]
fn snapshot_scenario_one_endpoint() {
    let queries = vec![query(
        "org.mpris.MediaPlayer2.A",
        Some((Some(props(Some(vec!["X", "Y"]), Some("Song"))), Some(500_000))),
    )];
    let snap = build_snapshot(&queries);
    assert_eq!(snap.len(), 1);
    assert_eq!(snap[0].service, "org.mpris.MediaPlayer2.A");
    let display = snap[0].metadata.as_ref().unwrap().display();
    assert_eq!(display, "X, Y - Song");
    let percent = snap[0].volume.unwrap() as f64 / 100.0;
    assert_eq!(percent, 50.0);
}

#[test]
fn player_names_filtered_by_prefix() {
    assert!(is_player_name(&"org.mpris.MediaPlayer2.spotify".to_string()));
    assert!(!is_player_name(&"org.freedesktop.DBus".to_string()));
    assert!(!is_player_name(&"org.mpris.MediaPlayer2".to_string()));
    let names = vec![
        "org.freedesktop.DBus".to_string(),
        "org.mpris.MediaPlayer2.A".to_string(),
        "org.mpris.Other".to_string(),
        "org.mpris.MediaPlayer2.B".to_string(),
    ];
    let players = filter_player_names(&names);
    assert_eq!(
        players,
        vec!["org.mpris.MediaPlayer2.A".to_string(), "org.mpris.MediaPlayer2.B".to_string()]
    );
}

#[test]
fn name_owner_changes_filtered_to_endpoint_set_events() {
    assert_eq!(
        name_owner_event(&"org.mpris.MediaPlayer2.A".to_string()),
        Some(BusEvent::EndpointSetChanged)
    );
    assert_eq!(name_owner_event(&"org.freedesktop.DBus".to_string()), None);
}

#[test]
fn bus_events_pick_their_refresh_path() {
    assert_eq!(refresh_action_for(&BusEvent::EndpointSetChanged), RefreshAction::Rediscover);
    assert_eq!(refresh_action_for(&BusEvent::MetadataChanged), RefreshAction::Requery);
    assert_eq!(refresh_action_for(&BusEvent::VolumeChanged), RefreshAction::Requery);
}

#[test]
fn connect_failure_from_init_is_terminal_and_silent() {
    let (state, event) = step(DiscoveryState::Init, ServiceInput::ConnectFailed);
    assert_eq!(state, DiscoveryState::Error);
    assert_eq!(event, None);
    // The error state ignores everything forever.
    let (state, event) = step(state, ServiceInput::Refreshed(Vec::new()));
    assert_eq!(state, DiscoveryState::Error);
    assert_eq!(event, None);
}

#[test]
fn discovery_failure_from_init_is_terminal() {
    let (state, event) = step(DiscoveryState::Init, ServiceInput::DiscoveryFailed);
    assert_eq!(state, DiscoveryState::Error);
    assert_eq!(event, None);
}

#[test]
fn first_event_is_init_then_updates() {
    let names = vec!["org.mpris.MediaPlayer2.A".to_string()];
    let (state, event) = step(
        DiscoveryState::Init,
        ServiceInput::Discovered(names.clone(), Vec::new()),
    );
    assert_eq!(state, DiscoveryState::Active(names.clone()));
    assert_eq!(
        event,
        Some(ServiceEvent::Init(MprisPlayerService { data: Vec::new() }))
    );
    let (state, event) = step(state, ServiceInput::Refreshed(Vec::new()));
    assert_eq!(state, DiscoveryState::Active(names));
    assert_eq!(event, Some(ServiceEvent::Update(Vec::new())));
}

#[test]
fn endpoint_set_change_rediscovery_publishes_update_and_swaps_names() {
    let names = vec!["org.mpris.MediaPlayer2.A".to_string()];
    let new_names = vec!["org.mpris.MediaPlayer2.B".to_string()];
    let (state, event) = step(
        DiscoveryState::Active(names),
        ServiceInput::Discovered(new_names.clone(), Vec::new()),
    );
    assert_eq!(state, DiscoveryState::Active(new_names));
    assert_eq!(event, Some(ServiceEvent::Update(Vec::new())));
}

#[test]
fn failed_rediscovery_while_active_is_terminal() {
    let names = vec!["org.mpris.MediaPlayer2.A".to_string()];
    let (state, event) = step(DiscoveryState::Active(names), ServiceInput::DiscoveryFailed);
    assert_eq!(state, DiscoveryState::Error);
    assert_eq!(event, None);
}

#[test]
fn multiplexer_failure_while_active_is_terminal() {
    let names = vec!["org.mpris.MediaPlayer2.A".to_string()];
    let (state, event) = step(DiscoveryState::Active(names), ServiceInput::MultiplexerFailed);
    assert_eq!(state, DiscoveryState::Error);
    assert_eq!(event, None);
}

fn entry(service: &str) -> MprisPlayerData {
    MprisPlayerData { service: service.to_string(), metadata: None, volume: None }
}

#[test]
fn unknown_command_target_plans_no_call_and_keeps_identities() {
    let data = vec![entry("org.mpris.MediaPlayer2.A"), entry("org.mpris.MediaPlayer2.B")];
    let plan: CommandPlan = plan_command(
        &data,
        &MprisPlayerCommand {
            service_name: "org.mpris.MediaPlayer2.gone".to_string(),
            command: PlayerCommand::Next,
        },
    );
    assert_eq!(plan.action, None);
    assert_eq!(
        plan.identities,
        vec!["org.mpris.MediaPlayer2.A".to_string(), "org.mpris.MediaPlayer2.B".to_string()]
    );
    // The re-query over those identities still republishes exactly one Update.
    let rebuilt = build_snapshot(&vec![
        query("org.mpris.MediaPlayer2.A", Some((None, None))),
        query("org.mpris.MediaPlayer2.B", Some((None, None))),
    ]);
    let (state, event) = step(
        DiscoveryState::Active(plan.identities),
        ServiceInput::Refreshed(rebuilt.clone()),
    );
    assert!(matches!(state, DiscoveryState::Active(_)));
    assert_eq!(event, Some(ServiceEvent::Update(rebuilt)));
}

#[test]
fn known_target_plans_exactly_its_call() {
    let data = vec![entry("org.mpris.MediaPlayer2.A")];
    let plan = plan_command(
        &data,
        &MprisPlayerCommand {
            service_name: "org.mpris.MediaPlayer2.A".to_string(),
            command: PlayerCommand::PlayPause,
        },
    );
    assert_eq!(plan.action, Some(ProxyAction::PlayPause));
    let plan = plan_command(
        &data,
        &MprisPlayerCommand {
            service_name: "org.mpris.MediaPlayer2.A".to_string(),
            command: PlayerCommand::Prev,
        },
    );
    assert_eq!(plan.action, Some(ProxyAction::Previous));
}

#[test]
fn volume_command_scenario() {
    // A Volume(75) command: 75% is 7500 hundredths of a percent.
    let percent = (75.0_f64 * 100.0) as u32;
    let data = vec![entry("org.mpris.MediaPlayer2.A")];
    let plan = plan_command(
        &data,
        &MprisPlayerCommand {
            service_name: "org.mpris.MediaPlayer2.A".to_string(),
            command: PlayerCommand::Volume(percent),
        },
    );
    // The planned call sets the native volume 0.75.
    let native = match plan.action {
        Some(ProxyAction::SetVolume(n)) => n,
        other => panic!("expected a set-volume call, got {:?}", other),
    };
    assert_eq!(native as f64 / 1_000_000.0, 0.75);
    // The read-back reflects the set value; the republished entry shows 75%.
    let rebuilt = build_snapshot(&vec![query("org.mpris.MediaPlayer2.A", Some((None, Some(native))))]);
    assert_eq!(rebuilt.len(), 1);
    assert_eq!(rebuilt[0].volume.unwrap() as f64 / 100.0, 75.0);
    let (_, event) = step(
        DiscoveryState::Active(plan.identities),
        ServiceInput::Refreshed(rebuilt.clone()),
    );
    assert_eq!(event, Some(ServiceEvent::Update(rebuilt)));
}

#[test]
fn service_update_replaces_snapshot_wholesale() {
    let mut service = MprisPlayerService { data: vec![entry("org.mpris.MediaPlayer2.A")] };
    service.update(vec![entry("org.mpris.MediaPlayer2.B")]);
    assert_eq!(service.data.len(), 1);
    assert_eq!(service.data[0].service, "org.mpris.MediaPlayer2.B");
}

#[test]
fn power_messages_map_to_their_actions() {
    assert_eq!(PowerMessage::Suspend.update(), PowerAction::Suspend);
    assert_eq!(PowerMessage::Reboot.update(), PowerAction::Reboot);
    assert_eq!(PowerMessage::Shutdown.update(), PowerAction::Shutdown);
    assert_eq!(PowerMessage::Logout.update(), PowerAction::Logout);
}

#[test]
fn indicator_states_are_distinct() {
    assert_ne!(IndicatorState::Normal, IndicatorState::Danger);
    assert_ne!(IndicatorState::Success, IndicatorState::Warning);
}

#[test]
fn duration_formatting() {
    assert_eq!(format_duration(0), " 0m");
    assert_eq!(format_duration(59), " 0m");
    assert_eq!(format_duration(300), " 5m");
    assert_eq!(format_duration(659), "10m");
    assert_eq!(format_duration(3600), "1h  0m");
    assert_eq!(format_duration(3900), "1h  5m");
    assert_eq!(format_duration(36_000 + 15 * 60), "10h 15m");
}
