use spt::command::{plan_command, PlaybackCommand};

fn args(v: &[&str]) -> Vec<String> {
    v.iter().map(|s| s.to_string()).collect()
}

#[test]
fn plans_simple_commands() {
    assert!(matches!(plan_command("play", &args(&[])), PlaybackCommand::Play));
    assert!(matches!(plan_command("pause", &args(&["x"])), PlaybackCommand::Pause));
    assert!(matches!(plan_command("stop", &args(&[])), PlaybackCommand::Unknown));
}

#[test]
fn plans_counts_with_defaults() {
    assert!(matches!(plan_command("next", &args(&[])), PlaybackCommand::Next(1)));
    assert!(matches!(plan_command("next", &args(&["3"])), PlaybackCommand::Next(3)));
    assert!(matches!(plan_command("previous", &args(&["300"])), PlaybackCommand::Previous(1)));
    assert!(matches!(plan_command("previous", &args(&["\"2\""])), PlaybackCommand::Previous(2)));
    assert!(matches!(plan_command("volume", &args(&[])), PlaybackCommand::GetVolume));
    assert!(matches!(plan_command("volume", &args(&["40"])), PlaybackCommand::SetVolume(40)));
    assert!(matches!(plan_command("volume", &args(&["loud"])), PlaybackCommand::SetVolume(100)));
    assert!(matches!(plan_command("recent", &args(&["-h"])), PlaybackCommand::Recent(20, true)));
    assert!(matches!(plan_command("recent", &args(&["5"])), PlaybackCommand::Recent(5, false)));
}

#[test]
fn plans_devices_and_queue() {
    match plan_command("device", &args(&["  \"Kitchen\" "])) {
        PlaybackCommand::Device(name) => assert_eq!(name, "Kitchen"),
        other => panic!("unexpected {:?}", other),
    }
    assert!(matches!(plan_command("device", &args(&["-h"])), PlaybackCommand::DeviceMissing));
    assert!(matches!(plan_command("devices", &args(&["-h"])), PlaybackCommand::Devices(true)));
    assert!(matches!(plan_command("now", &args(&[])), PlaybackCommand::Now(false)));
    assert!(matches!(plan_command("queue", &args(&["-h"])), PlaybackCommand::Queue(true)));
    match plan_command("queue", &args(&["spotify:track:a", "-h", "spotify:track:b"])) {
        PlaybackCommand::QueueAdd(uris) => assert_eq!(uris, vec!["spotify:track:a", "spotify:track:b"]),
        other => panic!("unexpected {:?}", other),
    }
}
