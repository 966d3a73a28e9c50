use cosmic_applet_audio::applet::Audio;
use cosmic_applet_audio::applet::IsOpen;
use cosmic_applet_audio::applet::Message;
use cosmic_applet_audio::device::DeviceInfo;
use cosmic_applet_audio::pulse::Connection;
use cosmic_applet_audio::pulse::Event;
use cosmic_applet_audio::pulse::Message as PulseMessage;
use cosmic_applet_audio::pulse::PulseState;
use cosmic_applet_audio::volume::Volume;

fn device(name: Option<&str>, description: Option<&str>, levels: Vec<u32>) -> DeviceInfo {
    DeviceInfo::new(
        name.map(|n| n.to_string()),
        description.map(|d| d.to_string()),
        Volume::from_levels(levels, false),
    )
}

fn connected_audio() -> Audio {
    let mut audio = Audio::new();
    audio.update(Message::Pulse(Event::Init(Connection::new(1))));
    audio.update(Message::Pulse(Event::Connected));
    audio
}

#[test]
fn connect_scenario_primes_snapshot() {
    let mut audio = Audio::new();
    assert!(matches!(audio.pulse_state, PulseState::Init));

    let cmds = audio.update(Message::Pulse(Event::Init(Connection::new(7))));
    assert!(cmds.is_empty());
    assert!(matches!(audio.pulse_state, PulseState::Disconnected(c) if c.token == 7));

    let cmds = audio.update(Message::Pulse(Event::Connected));
    assert!(matches!(audio.pulse_state, PulseState::Connected(c) if c.token == 7));
    assert_eq!(cmds.len(), 4);
    assert!(matches!(cmds[0], PulseMessage::GetSinks));
    assert!(matches!(cmds[1], PulseMessage::GetSources));
    assert!(matches!(cmds[2], PulseMessage::GetDefaultSink));
    assert!(matches!(cmds[3], PulseMessage::GetDefaultSource));

    let a = device(Some("alsa_out.1"), Some("Speakers"), vec![20000, 20000]);
    let b = device(Some("alsa_out.2"), Some("Headphones"), vec![30000, 30000]);
    let cmds = audio.update(Message::Pulse(Event::MessageReceived(PulseMessage::SetSinks(
        vec![a, b],
    ))));
    assert!(cmds.is_empty());
    assert_eq!(audio.outputs.len(), 2);
    assert_eq!(audio.outputs[0].name.as_deref(), Some("alsa_out.1"));
    assert_eq!(audio.outputs[1].name.as_deref(), Some("alsa_out.2"));

    let cmds = audio.update(Message::Pulse(Event::MessageReceived(
        PulseMessage::SetDefaultSink(device(Some("alsa_out.1"), Some("Speakers"), vec![
            20000, 20000,
        ])),
    )));
    assert!(cmds.is_empty());
    let current = audio.current_output.as_ref().unwrap();
    assert_eq!(current.name.as_deref(), Some("alsa_out.1"));
    // 20000 of 65536 sits in the 25%..50% band.
    assert_eq!(audio.icon_name, "audio-volume-medium-symbolic");
}

#[test]
fn slider_drag_sends_volume_by_name() {
    let mut audio = connected_audio();
    audio.update(Message::Pulse(Event::MessageReceived(PulseMessage::SetDefaultSink(
        device(Some("alsa_out.1"), Some("Speakers"), vec![10000, 10000]),
    ))));

    let cmds = audio.update(Message::SetOutputVolume(60));

    // Optimistic local mutation across all channels, icon recomputed at once.
    let current = audio.current_output.as_ref().unwrap();
    assert_eq!(current.volume.len(), 2);
    assert_eq!(current.volume.level(0), 39321);
    assert_eq!(current.volume.level(1), 39321);
    assert_eq!(audio.icon_name, "audio-volume-high-symbolic");

    // Exactly one outbound command, carrying the name and the full vector.
    assert_eq!(cmds.len(), 1);
    match &cmds[0] {
        PulseMessage::SetSinkVolumeByName(name, vol) => {
            assert_eq!(name, "alsa_out.1");
            assert_eq!(vol.len(), 2);
            assert_eq!(vol.level(0), 39321);
            assert_eq!(vol.level(1), 39321);
            assert!(!vol.is_muted());
        }
        other => panic!("expected SetSinkVolumeByName, got {:?}", other),
    }
}

#[test]
fn slider_drag_unnamed_device_stays_local() {
    let mut audio = connected_audio();
    audio.update(Message::Pulse(Event::MessageReceived(PulseMessage::SetDefaultSink(
        device(None, Some("Speakers"), vec![10000, 10000]),
    ))));

    let cmds = audio.update(Message::SetOutputVolume(60));

    assert!(cmds.is_empty());
    let current = audio.current_output.as_ref().unwrap();
    assert_eq!(current.volume.level(0), 39321);
    assert_eq!(audio.icon_name, "audio-volume-high-symbolic");
}

#[test]
fn slider_drag_without_current_output_only_recomputes_icon() {
    let mut audio = connected_audio();
    let cmds = audio.update(Message::SetOutputVolume(60));
    assert!(cmds.is_empty());
    assert!(audio.current_output.is_none());
    assert_eq!(audio.icon_name, "audio-volume-muted-symbolic");
}

#[test]
fn input_slider_drag_sends_volume_by_name() {
    let mut audio = connected_audio();
    audio.update(Message::Pulse(Event::MessageReceived(PulseMessage::SetDefaultSource(
        device(Some("mic.1"), Some("Microphone"), vec![10000]),
    ))));

    let cmds = audio.update(Message::SetInputVolume(40));

    let current = audio.current_input.as_ref().unwrap();
    assert_eq!(current.volume.level(0), 26214);
    assert_eq!(audio.input_icon_name, "microphone-sensitivity-medium-symbolic");
    assert_eq!(cmds.len(), 1);
    match &cmds[0] {
        PulseMessage::SetSourceVolumeByName(name, vol) => {
            assert_eq!(name, "mic.1");
            assert_eq!(vol.level(0), 26214);
        }
        other => panic!("expected SetSourceVolumeByName, got {:?}", other),
    }
}

#[test]
fn volume_round_trip_is_exact() {
    let mut audio = connected_audio();
    audio.update(Message::Pulse(Event::MessageReceived(PulseMessage::SetDefaultSink(
        device(Some("alsa_out.1"), Some("Speakers"), vec![10000, 10000]),
    ))));

    let cmds = audio.update(Message::SetOutputVolume(60));
    let sent_levels: Vec<u32> = match &cmds[0] {
        PulseMessage::SetSinkVolumeByName(_, vol) => (0..vol.len()).map(|i| vol.level(i)).collect(),
        other => panic!("expected SetSinkVolumeByName, got {:?}", other),
    };

    // The server echoes the volume back on the confirmed default sink.
    audio.update(Message::Pulse(Event::MessageReceived(PulseMessage::SetDefaultSink(
        device(Some("alsa_out.1"), Some("Speakers"), sent_levels.clone()),
    ))));

    let current = audio.current_output.as_ref().unwrap();
    assert_eq!(current.volume.len(), sent_levels.len());
    for (i, lv) in sent_levels.iter().enumerate() {
        assert_eq!(current.volume.level(i), *lv);
    }
}

#[test]
fn authoritative_event_overwrites_optimistic_volume() {
    let mut audio = connected_audio();
    audio.update(Message::Pulse(Event::MessageReceived(PulseMessage::SetDefaultSink(
        device(Some("alsa_out.1"), Some("Speakers"), vec![10000, 10000]),
    ))));
    audio.update(Message::SetOutputVolume(60));

    // The next authoritative event replaces, rather than merges with, the
    // optimistic local value.
    audio.update(Message::Pulse(Event::MessageReceived(PulseMessage::SetDefaultSink(
        device(Some("alsa_out.1"), Some("Speakers"), vec![12345, 12345]),
    ))));
    let current = audio.current_output.as_ref().unwrap();
    assert_eq!(current.volume.level(0), 12345);
    assert_eq!(current.volume.level(1), 12345);
    assert_eq!(audio.icon_name, "audio-volume-low-symbolic");
}

#[test]
fn output_toggle_twice_restores_and_refreshes_once() {
    let mut audio = connected_audio();
    assert_eq!(audio.is_open, IsOpen::Neither);

    let first = audio.update(Message::OutputToggle);
    assert_eq!(audio.is_open, IsOpen::Output);
    assert_eq!(first.len(), 1);
    assert!(matches!(first[0], PulseMessage::GetSinks));

    let second = audio.update(Message::OutputToggle);
    assert_eq!(audio.is_open, IsOpen::Neither);
    assert!(second.is_empty());
}

#[test]
fn toggle_without_handle_sends_nothing() {
    let mut audio = Audio::new();
    let cmds = audio.update(Message::OutputToggle);
    assert_eq!(audio.is_open, IsOpen::Output);
    assert!(cmds.is_empty());
}

#[test]
fn expanding_input_collapses_output() {
    let mut audio = connected_audio();
    audio.update(Message::OutputToggle);
    assert_eq!(audio.is_open, IsOpen::Output);

    let cmds = audio.update(Message::InputToggle);
    assert_eq!(audio.is_open, IsOpen::Input);
    assert_eq!(cmds.len(), 1);
    assert!(matches!(cmds[0], PulseMessage::GetSources));
}

#[test]
fn popup_open_refreshes_connection_and_lists() {
    let mut audio = connected_audio();
    let cmds = audio.update(Message::TogglePopup);
    assert!(audio.popup.is_some());
    assert_eq!(cmds.len(), 5);
    assert!(matches!(cmds[0], PulseMessage::UpdateConnection));
    assert!(matches!(cmds[1], PulseMessage::GetDefaultSink));
    assert!(matches!(cmds[2], PulseMessage::GetDefaultSource));
    assert!(matches!(cmds[3], PulseMessage::GetSinks));
    assert!(matches!(cmds[4], PulseMessage::GetSources));

    let cmds = audio.update(Message::TogglePopup);
    assert!(audio.popup.is_none());
    assert!(cmds.is_empty());
}

#[test]
fn popup_open_before_handle_sends_nothing() {
    let mut audio = Audio::new();
    let cmds = audio.update(Message::TogglePopup);
    assert!(audio.popup.is_some());
    assert!(cmds.is_empty());
}

#[test]
fn device_pick_sends_full_device() {
    let mut audio = connected_audio();
    audio.update(Message::Pulse(Event::MessageReceived(PulseMessage::SetSinks(vec![
        device(Some("alsa_out.1"), Some("Speakers"), vec![20000, 20000]),
        device(Some("alsa_out.2"), Some("Headphones"), vec![30000, 30000]),
    ]))));

    let cmds = audio.update(Message::OutputChanged("alsa_out.2".to_string()));
    assert_eq!(cmds.len(), 1);
    match &cmds[0] {
        PulseMessage::SetDefaultSink(d) => {
            assert_eq!(d.name.as_deref(), Some("alsa_out.2"));
            assert_eq!(d.description.as_deref(), Some("Headphones"));
            assert_eq!(d.volume.level(0), 30000);
        }
        other => panic!("expected SetDefaultSink, got {:?}", other),
    }
    // The snapshot does not change until the server confirms.
    assert!(audio.current_output.is_none());
}

#[test]
fn device_pick_unknown_name_sends_nothing() {
    let mut audio = connected_audio();
    audio.update(Message::Pulse(Event::MessageReceived(PulseMessage::SetSinks(vec![
        device(Some("alsa_out.1"), Some("Speakers"), vec![20000, 20000]),
    ]))));
    let cmds = audio.update(Message::OutputChanged("no-such-device".to_string()));
    assert!(cmds.is_empty());
}

#[test]
fn device_pick_before_handle_sends_nothing() {
    let mut audio = Audio::new();
    let cmds = audio.update(Message::OutputChanged("alsa_out.1".to_string()));
    assert!(cmds.is_empty());
}

#[test]
fn disconnect_event_marks_handle_down() {
    let mut audio = connected_audio();
    let cmds = audio.update(Message::Pulse(Event::Disconnected));
    assert!(cmds.is_empty());
    assert!(matches!(audio.pulse_state, PulseState::Disconnected(_)));

    // Reconnecting re-primes the snapshot.
    let cmds = audio.update(Message::Pulse(Event::Connected));
    assert!(matches!(audio.pulse_state, PulseState::Connected(_)));
    assert_eq!(cmds.len(), 4);
}

#[test]
fn echoed_requests_are_ignored() {
    let mut audio = connected_audio();
    let cmds = audio.update(Message::Pulse(Event::MessageReceived(PulseMessage::GetSinks)));
    assert!(cmds.is_empty());
    assert!(audio.outputs.is_empty());
    assert_eq!(audio.is_open, IsOpen::Neither);
}
