//! Plain data shared by the whole crate.

use vstd::prelude::*;

verus! {

/// One requested skin: the champion, the skin, an optional chroma and an
/// optional hint at the archive that holds it.
#[derive(Debug, Clone)]
pub struct Skin {
    pub champion_id: u32,
    pub skin_id: u32,
    pub chroma_id: Option<u32>,
    pub fantome_path: Option<String>,
}

/// The mathematical value of a [`Skin`].
pub struct SkinView {
    pub champion_id: u32,
    pub skin_id: u32,
    pub chroma_id: Option<u32>,
    pub hint: Option<Seq<char>>,
}

impl View for Skin {
    type V = SkinView;

    open spec fn view(&self) -> SkinView {
        SkinView {
            champion_id: self.champion_id,
            skin_id: self.skin_id,
            chroma_id: self.chroma_id,
            hint: match self.fantome_path {
                Some(p) => Some(p@),
                None => None,
            },
        }
    }
}

/// The injector's state.
#[derive(Debug, Clone, Copy, PartialEq, Eq, Structural)]
pub enum ModState {
    Uninitialized,
    Idle,
    Busy,
    Running,
    CriticalError,
}

/// A progress event of the patcher.
#[derive(Debug, Clone, Copy, PartialEq, Eq, Structural)]
pub enum PatcherMessage {
    WaitStart,
    Found,
    WaitInit,
    Scan,
    NeedSave,
    WaitPatchable,
    Patch,
    WaitExit,
    Done,
}

impl PatcherMessage {
    /// The text shown for each event.
    pub open spec fn message(self) -> Seq<char> {
        match self {
            PatcherMessage::WaitStart => "Waiting for league match to start"@,
            PatcherMessage::Found => "Found League"@,
            PatcherMessage::WaitInit => "Wait initialized"@,
            PatcherMessage::Scan => "Scanning"@,
            PatcherMessage::NeedSave => "Saving"@,
            PatcherMessage::WaitPatchable => "Wait patchable"@,
            PatcherMessage::Patch => "Patching"@,
            PatcherMessage::WaitExit => "Waiting for exit"@,
            PatcherMessage::Done => "League exited"@,
        }
    }

    pub fn to_string(&self) -> (text: &'static str)
        ensures
            text@ == self.message(),
    {
        match self {
            PatcherMessage::WaitStart => "Waiting for league match to start",
            PatcherMessage::Found => "Found League",
            PatcherMessage::WaitInit => "Wait initialized",
            PatcherMessage::Scan => "Scanning",
            PatcherMessage::NeedSave => "Saving",
            PatcherMessage::WaitPatchable => "Wait patchable",
            PatcherMessage::Patch => "Patching",
            PatcherMessage::WaitExit => "Waiting for exit",
            PatcherMessage::Done => "League exited",
        }
    }
}

/// A skin as the front end stores it.
#[derive(Debug, Clone)]
pub struct SkinData {
    pub champion_id: u32,
    pub skin_id: u32,
    pub chroma_id: Option<u32>,
    pub fantome: Option<String>,
}

impl SkinData {
    /// The selection that this stored skin stands for.
    pub open spec fn selection(self) -> SkinView {
        SkinView {
            champion_id: self.champion_id,
            skin_id: self.skin_id,
            chroma_id: self.chroma_id,
            hint: match self.fantome {
                Some(p) => Some(p@),
                None => None,
            },
        }
    }

    /// Converts the stored skin to a selection, field by field.
    pub fn to_skin(&self) -> (skin: Skin)
        ensures
            skin@ == self.selection(),
    {
        let hint = match &self.fantome {
            Some(p) => Some(p.clone()),
            None => None,
        };
        Skin {
            champion_id: self.champion_id,
            skin_id: self.skin_id,
            chroma_id: self.chroma_id,
            fantome_path: hint,
        }
    }
}

/// Converts stored skins to selections, keeping their order.
pub fn to_skins(stored: &Vec<SkinData>) -> (skins: Vec<Skin>)
    ensures
        skins.len() == stored.len(),
        forall|i: int| 0 <= i < stored.len() ==> (#[trigger] skins[i])@ == stored[i].selection(),
{
    let mut skins: Vec<Skin> = Vec::new();
    let mut i: usize = 0;
    while i < stored.len()
        invariant
            i <= stored.len(),
            skins.len() == i,
            forall|j: int| 0 <= j < i ==> (#[trigger] skins[j])@ == stored[j].selection(),
        decreases stored.len() - i,
    {
        skins.push(stored[i].to_skin());
        i += 1;
    }
    skins
}

/// A request to inject a batch of skins into one game installation.
#[derive(Debug)]
pub struct SkinInjectionRequest {
    pub league_path: String,
    pub skins: Vec<Skin>,
}

/// What the front end keeps between runs of its visual preferences.
#[derive(Debug)]
pub struct ThemePreferences {
    pub tone: Option<String>,
    pub is_dark: Option<bool>,
    pub auto_update_champion_data: Option<bool>,
}

/// What the front end keeps between runs.
#[derive(Debug)]
pub struct SavedConfig {
    pub league_path: Option<String>,
    pub skins: Vec<SkinData>,
    pub favorites: Vec<u32>,
    pub theme: Option<ThemePreferences>,
}

/// The champion that a session names by `id`: the low 32 bits of a
/// positive number, and none for any other.
pub open spec fn champion_named(id: i64) -> Option<u32> {
    if id > 0 {
        Some((id % 0x1_0000_0000) as u32)
    } else {
        None
    }
}

/// The position of the first stored skin at or after `from` that is for the
/// champion given.
pub open spec fn first_stored(stored: Seq<SkinData>, champion_id: u32, from: int) -> Option<int>
    decreases stored.len() - from,
{
    if from < 0 || from >= stored.len() {
        None
    } else if stored[from].champion_id == champion_id {
        Some(from)
    } else {
        first_stored(stored, champion_id, from + 1)
    }
}

/// The selections for the first `upto` of the champions named: for each
/// champion, in order, the first skin stored for it. A champion without a
/// stored skin gives none, and so does a number that names no champion.
pub open spec fn selections_for(stored: Seq<SkinData>, ids: Seq<i64>, upto: int) -> Seq<SkinView>
    decreases upto,
{
    if upto <= 0 {
        Seq::empty()
    } else {
        let before = selections_for(stored, ids, upto - 1);
        match champion_named(ids[upto - 1]) {
            None => before,
            Some(champion_id) => match first_stored(stored, champion_id, 0) {
                Some(at) => before.push(stored[at].selection()),
                None => before,
            },
        }
    }
}

/// The values of a list of selections.
pub open spec fn skin_views(skins: Seq<Skin>) -> Seq<SkinView> {
    Seq::new(skins.len(), |i: int| skins[i]@)
}

impl SavedConfig {
    /// The selections for the champions of a session, from the skins that
    /// the user stored, as [`selections_for`] says.
    pub fn skins_for_champions(&self, champion_ids: &Vec<i64>) -> (skins: Vec<Skin>)
        ensures
            skin_views(skins@) == selections_for(
                self.skins@,
                champion_ids@,
                champion_ids@.len() as int,
            ),
    {
        let mut skins: Vec<Skin> = Vec::new();
        let mut i: usize = 0;
        assert(skin_views(skins@) =~= Seq::<SkinView>::empty());
        while i < champion_ids.len()
            invariant
                i <= champion_ids.len(),
                skin_views(skins@) == selections_for(self.skins@, champion_ids@, i as int),
            decreases champion_ids.len() - i,
        {
            let id = champion_ids[i];
            if id > 0 {
                let champion_id: u32 = (id % 0x1_0000_0000) as u32;
                let mut k: usize = 0;
                while k < self.skins.len() && self.skins[k].champion_id != champion_id
                    invariant
                        k <= self.skins.len(),
                        first_stored(self.skins@, champion_id, 0) == first_stored(
                            self.skins@,
                            champion_id,
                            k as int,
                        ),
                    decreases self.skins.len() - k,
                {
                    k += 1;
                }
                if k < self.skins.len() {
                    let ghost before = skin_views(skins@);
                    skins.push(self.skins[k].to_skin());
                    assert(skin_views(skins@) =~= before.push(self.skins@[k as int].selection()));
                }
            }
            i += 1;
        }
        skins
    }
}

} // verus!
