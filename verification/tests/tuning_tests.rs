use game_tuner::tuning::{
    flush_dns_command, overlay_writes, power_plan_command, priority_writes, tcp_commands,
    tcp_registry_writes, throttling_writes, visual_effects_writes, RegistryRoot,
};

#[test]
fn power_plan_command_selects_high_performance() {
    let c = power_plan_command();
    assert_eq!(c, vec!["powercfg", "-setactive", "8c5e7fda-e8bf-4a96-9a85-a6e23a8c635c"]);
}

#[test]
fn visual_effects_write() {
    let ws = visual_effects_writes();
    assert_eq!(ws.len(), 1);
    assert_eq!(ws[0].root, RegistryRoot::CurrentUser);
    assert_eq!(
        ws[0].key,
        r"Software\Microsoft\Windows\CurrentVersion\Explorer\VisualEffects"
    );
    assert_eq!(ws[0].value, "VisualFXSetting");
    assert_eq!(ws[0].data, 2);
}

#[test]
fn overlay_writes_cover_game_bar_and_dvr() {
    let ws = overlay_writes();
    assert_eq!(ws.len(), 5);
    for w in &ws[0..3] {
        assert_eq!(w.root, RegistryRoot::CurrentUser);
        assert_eq!(w.key, r"Software\Microsoft\GameBar");
    }
    for w in &ws[3..5] {
        assert_eq!(w.root, RegistryRoot::CurrentUser);
        assert_eq!(w.key, r"System\GameConfigStore");
    }
    assert_eq!((ws[0].value.as_str(), ws[0].data), ("AutoGameModeEnabled", 1));
    assert_eq!((ws[1].value.as_str(), ws[1].data), ("AllowAutoGameMode", 1));
    assert_eq!((ws[2].value.as_str(), ws[2].data), ("ShowStartupPanel", 0));
    assert_eq!((ws[3].value.as_str(), ws[3].data), ("GameDVR_Enabled", 0));
    assert_eq!((ws[4].value.as_str(), ws[4].data), ("GameDVR_FSEBehaviorMode", 2));
}

#[test]
fn priority_write_targets_the_game_executable() {
    let ws = priority_writes();
    assert_eq!(ws.len(), 1);
    assert_eq!(ws[0].root, RegistryRoot::LocalMachine);
    assert_eq!(
        ws[0].key,
        r"SOFTWARE\Microsoft\Windows NT\CurrentVersion\Image File Execution Options\League of Legends.exe\PerfOptions"
    );
    assert_eq!(ws[0].value, "CpuPriorityClass");
    assert_eq!(ws[0].data, 3);
}

#[test]
fn network_commands_and_writes() {
    assert_eq!(flush_dns_command(), vec!["ipconfig", "/flushdns"]);
    let tcp = tcp_commands();
    assert_eq!(tcp.len(), 3);
    assert_eq!(
        tcp[0],
        vec!["netsh", "int", "tcp", "set", "global", "autotuninglevel=normal"]
    );
    assert_eq!(tcp[1], vec!["netsh", "int", "tcp", "set", "global", "hystart=disabled"]);
    assert_eq!(tcp[2], vec!["netsh", "int", "tcp", "set", "global", "dca=enabled"]);
    let reg = tcp_registry_writes();
    assert_eq!(reg.len(), 1);
    assert_eq!(reg[0].key, r"SOFTWARE\Microsoft\MSMQ\Parameters");
    assert_eq!((reg[0].value.as_str(), reg[0].data), ("TCPNoDelay", 1));
}

#[test]
fn throttling_writes_lift_the_limit() {
    let ws = throttling_writes();
    assert_eq!(ws.len(), 2);
    for w in &ws {
        assert_eq!(w.root, RegistryRoot::LocalMachine);
        assert_eq!(
            w.key,
            r"SOFTWARE\Microsoft\Windows NT\CurrentVersion\Multimedia\SystemProfile"
        );
    }
    assert_eq!((ws[0].value.as_str(), ws[0].data), ("NetworkThrottlingIndex", u32::MAX));
    assert_eq!((ws[1].value.as_str(), ws[1].data), ("SystemResponsiveness", 0));
}
