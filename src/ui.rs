//! State shared between the library and a front end: what the window shows, the
//! recently opened ROMs, and the actions a menu hands back.
use vstd::prelude::*;

verus! {

/// Recently opened ROMs kept for the start screen.
pub const MAX_RECENT: usize = 5;

#[derive(Debug, Clone, Copy, PartialEq, Eq, Structural)]
pub enum EmulatorState {
    StartScreen,
    Running,
    Paused,
}

/// What the Escape key does: leaves from the start screen, otherwise toggles the pause menu.
/// Returns the next state and whether to quit.
pub fn on_escape(state: EmulatorState) -> (r: (EmulatorState, bool))
    ensures
        state == EmulatorState::StartScreen ==> r == (EmulatorState::StartScreen, true),
        state == EmulatorState::Running ==> r == (EmulatorState::Paused, false),
        state == EmulatorState::Paused ==> r == (EmulatorState::Running, false),
{
    match state {
        EmulatorState::StartScreen => (EmulatorState::StartScreen, true),
        EmulatorState::Running => (EmulatorState::Paused, false),
        EmulatorState::Paused => (EmulatorState::Running, false),
    }
}

/// A recently opened ROM.
#[derive(Debug, Clone)]
pub struct RecentRom {
    pub path: String,
    pub title: String,
}

/// Header fields shown in the menus.
#[derive(Debug, Clone)]
pub struct RomInfo {
    pub title: String,
    pub cart_type: String,
    pub rom_size: String,
    pub ram_size: String,
}

/// What a menu asks the front end to do.
#[derive(Debug, Clone)]
pub enum UiAction {
    Nothing,
    OpenFile,
    LoadRom(String),
    Resume,
    Reset,
    Quit,
}

/// Puts a ROM at the head of the recent list: an older entry with the same path is
/// dropped, the others keep their order, and the list is cut to five.
pub fn add_recent_rom(list: &Vec<RecentRom>, entry: RecentRom) -> (r: Vec<RecentRom>)
    ensures
        1 <= r@.len() <= MAX_RECENT,
        r@[0] == entry,
        forall|i: int| 1 <= i < r@.len() ==> (#[trigger] r@[i]).path@ != entry.path@,
        forall|i: int| 1 <= i < r@.len() ==> list@.contains(#[trigger] r@[i]),
        r@.len() == MAX_RECENT || forall|j: int|
            0 <= j < list@.len() && (#[trigger] list@[j]).path@ != entry.path@ ==> r@.contains(list@[j]),
{
    let mut out: Vec<RecentRom> = Vec::new();
    out.push(entry.clone_entry());
    let mut j: usize = 0;
    while j < list.len() && out.len() < MAX_RECENT
        invariant
            j <= list@.len(),
            1 <= out@.len() <= MAX_RECENT,
            out@[0] == entry,
            forall|i: int| 1 <= i < out@.len() ==> (#[trigger] out@[i]).path@ != entry.path@,
            forall|i: int| 1 <= i < out@.len() ==> list@.contains(#[trigger] out@[i]),
            out@.len() == MAX_RECENT || forall|k: int|
                0 <= k < j && (#[trigger] list@[k]).path@ != entry.path@ ==> out@.contains(list@[k]),
        decreases list@.len() - j,
    {
        let same = list[j].path == entry.path;
        if !same {
            let ghost before = out@;
            out.push(list[j].clone_entry());
            assert(out@[out@.len() - 1] == list@[j as int]);
            assert(list@.contains(list@[j as int]));
            assert forall|k: int|
                0 <= k < j + 1 && (#[trigger] list@[k]).path@ != entry.path@ implies out@.contains(list@[k]) by {
                if k < j {
                    if out@.len() < MAX_RECENT || before.len() < MAX_RECENT {
                        let w = choose|w: int| 0 <= w < before.len() && before[w] == list@[k];
                        assert(out@[w] == list@[k]);
                    }
                } else {
                    assert(out@[out@.len() - 1] == list@[k]);
                }
            }
        }
        j = j + 1;
    }
    out
}

impl RecentRom {
    /// A copy with the same path and title.
    pub fn clone_entry(&self) -> (r: RecentRom)
        ensures
            r == *self,
    {
        RecentRom { path: self.path.clone(), title: self.title.clone() }
    }
}

} // verus!
