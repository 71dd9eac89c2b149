use gb3000::ui::{add_recent_rom, on_escape, EmulatorState, RecentRom};

fn entry(path: &str, title: &str) -> RecentRom {
    RecentRom { path: path.to_string(), title: title.to_string() }
}

#[test]
fn escape_transitions() {
    assert_eq!(on_escape(EmulatorState::StartScreen), (EmulatorState::StartScreen, true));
    assert_eq!(on_escape(EmulatorState::Running), (EmulatorState::Paused, false));
    assert_eq!(on_escape(EmulatorState::Paused), (EmulatorState::Running, false));
}

#[test]
fn recent_roms_dedup_and_cap() {
    let mut list = Vec::new();
    for i in 0..7 {
        list = add_recent_rom(&list, entry(&format!("rom{}.gb", i), "T"));
    }
    assert_eq!(list.len(), 5);
    assert_eq!(list[0].path, "rom6.gb");
    assert_eq!(list[4].path, "rom2.gb");
    list = add_recent_rom(&list, entry("rom4.gb", "Again"));
    let paths: Vec<&str> = list.iter().map(|r| r.path.as_str()).collect();
    assert_eq!(paths, vec!["rom4.gb", "rom6.gb", "rom5.gb", "rom3.gb", "rom2.gb"]);
    assert_eq!(list[0].title, "Again");
}
