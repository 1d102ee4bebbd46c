//! The registry of feature modules and their on/off state.

use vstd::prelude::*;

use super::config::{module_flag, AppConfig, ModuleConfig};
use crate::text::str_eq;

verus! {

/// One feature module.
pub struct ModuleEntry {
    pub id: &'static str,
    pub display_name: &'static str,
    pub description: &'static str,
    pub enabled: bool,
}

/// The ids of all feature modules, in registration order.
pub open spec fn known_module_ids() -> Seq<Seq<char>> {
    seq![
        "vad"@,
        "context_templates"@,
        "opencc"@,
        "auto_inject"@,
        "waveform"@,
        "history"@,
        "noise_suppress"@,
        "auto_punctuation"@,
        "speaker_detect"@,
    ]
}

/// The display names of the modules, in the order of [`known_module_ids`].
pub open spec fn known_module_names() -> Seq<Seq<char>> {
    seq![
        "靜音偵測"@,
        "情境模板"@,
        "繁簡轉換"@,
        "自動注入"@,
        "波形顯示"@,
        "歷史記錄"@,
        "降噪"@,
        "自動標點"@,
        "說話者偵測"@,
    ]
}

/// The descriptions of the modules, in the order of [`known_module_ids`].
pub open spec fn known_module_descriptions() -> Seq<Seq<char>> {
    seq![
        "自動偵測說話開始/結束"@,
        "智慧選擇轉錄提示詞"@,
        "OpenCC 中文字體轉換"@,
        "結果自動貼入焦點視窗"@,
        "即時音訊波形視覺化"@,
        "儲存所有轉錄結果"@,
        "音訊前處理降噪"@,
        "中文標點符號自動添加"@,
        "多人場景說話者分離"@,
    ]
}

/// The switch of each registered module, looked up by id.
pub open spec fn module_registry_view(entries: Seq<ModuleEntry>) -> Map<Seq<char>, bool> {
    Map::new(
        |id: Seq<char>| exists|i: int| 0 <= i < entries.len() && #[trigger] entries[i].id@ == id,
        |id: Seq<char>|
            entries[choose|i: int| 0 <= i < entries.len() && #[trigger] entries[i].id@ == id].enabled,
    )
}

/// `e` with its switch set to `b`.
pub open spec fn with_flag(e: ModuleEntry, b: bool) -> ModuleEntry {
    ModuleEntry { id: e.id, display_name: e.display_name, description: e.description, enabled: b }
}

/// All feature modules and whether each is on.
pub struct ModuleRegistry {
    modules: Vec<ModuleEntry>,
}

proof fn lemma_known_ids_distinct()
    ensures
        forall|i: int, j: int|
            0 <= i < 9 && 0 <= j < 9 && i != j ==> #[trigger] known_module_ids()[i]
                != #[trigger] known_module_ids()[j],
{
    reveal_strlit("vad");
    reveal_strlit("context_templates");
    reveal_strlit("opencc");
    reveal_strlit("auto_inject");
    reveal_strlit("waveform");
    reveal_strlit("history");
    reveal_strlit("noise_suppress");
    reveal_strlit("auto_punctuation");
    reveal_strlit("speaker_detect");
    let k = known_module_ids();
    assert forall|i: int, j: int| 0 <= i < 9 && 0 <= j < 9 && i != j implies #[trigger] k[i]
        != #[trigger] k[j] by {
        if k[i] == k[j] {
            assert(k[i].len() == k[j].len());
            assert(k[i][0] == k[j][0]);
            assert(k[i][1] == k[j][1]);
        }
    }
}

impl ModuleRegistry {
    /// The registry holds exactly the known modules, in order.
    #[verifier::type_invariant]
    spec fn well_formed(self) -> bool {
        &&& self.modules@.len() == 9
        &&& forall|i: int| 0 <= i < 9 ==> #[trigger] self.modules@[i].id@ == known_module_ids()[i]
        &&& forall|i: int| 0 <= i < 9 ==> #[trigger] self.modules@[i].display_name@ == known_module_names()[i]
        &&& forall|i: int| 0 <= i < 9 ==> #[trigger] self.modules@[i].description@ == known_module_descriptions()[i]
    }

    /// The on/off switch of every registered module, by id.
    pub closed spec fn view(&self) -> Map<Seq<char>, bool> {
        module_registry_view(self.modules@)
    }

    proof fn lemma_lookup(&self, k: int)
        requires
            self.well_formed(),
            0 <= k < 9,
        ensures
            self@.contains_key(known_module_ids()[k]),
            self@[known_module_ids()[k]] == self.modules@[k].enabled,
            self@.dom() == known_module_ids().to_set(),
    {
        lemma_known_ids_distinct();
        let id = known_module_ids()[k];
        assert(self.modules@[k].id@ == id);
        let c = choose|i: int| 0 <= i < self.modules@.len() && #[trigger] self.modules@[i].id@ == id;
        assert(c == k) by {
            if c != k {
                assert(known_module_ids()[c] != known_module_ids()[k]);
            }
        }
        assert forall|x: Seq<char>| self@.dom().contains(x) <==> known_module_ids().to_set().contains(x) by {
            if self@.dom().contains(x) {
                let i = choose|i: int| 0 <= i < self.modules@.len() && #[trigger] self.modules@[i].id@ == x;
                assert(known_module_ids()[i] == x);
            }
            if known_module_ids().to_set().contains(x) {
                let i = choose|i: int| 0 <= i < known_module_ids().len() && known_module_ids()[i] == x;
                assert(self.modules@[i].id@ == x);
            }
        }
        assert(self@.dom() =~= known_module_ids().to_set());
    }

    /// All known modules, each on exactly when the configuration's module
    /// section switches it on.
    pub fn with_all_modules(app_config: &AppConfig) -> (r: Self)
        ensures
            r@.dom() == known_module_ids().to_set(),
            forall|id: Seq<char>| #[trigger] r@.contains_key(id) ==> r@[id] == module_flag(app_config.modules, id),
    {
        let config = &app_config.modules;
        let mut modules: Vec<ModuleEntry> = Vec::new();
        modules.push(ModuleEntry { id: "vad", display_name: "靜音偵測", description: "自動偵測說話開始/結束", enabled: config.is_enabled("vad") });
        modules.push(ModuleEntry { id: "context_templates", display_name: "情境模板", description: "智慧選擇轉錄提示詞", enabled: config.is_enabled("context_templates") });
        modules.push(ModuleEntry { id: "opencc", display_name: "繁簡轉換", description: "OpenCC 中文字體轉換", enabled: config.is_enabled("opencc") });
        modules.push(ModuleEntry { id: "auto_inject", display_name: "自動注入", description: "結果自動貼入焦點視窗", enabled: config.is_enabled("auto_inject") });
        modules.push(ModuleEntry { id: "waveform", display_name: "波形顯示", description: "即時音訊波形視覺化", enabled: config.is_enabled("waveform") });
        modules.push(ModuleEntry { id: "history", display_name: "歷史記錄", description: "儲存所有轉錄結果", enabled: config.is_enabled("history") });
        modules.push(ModuleEntry { id: "noise_suppress", display_name: "降噪", description: "音訊前處理降噪", enabled: config.is_enabled("noise_suppress") });
        modules.push(ModuleEntry { id: "auto_punctuation", display_name: "自動標點", description: "中文標點符號自動添加", enabled: config.is_enabled("auto_punctuation") });
        modules.push(ModuleEntry { id: "speaker_detect", display_name: "說話者偵測", description: "多人場景說話者分離", enabled: config.is_enabled("speaker_detect") });
        let r = ModuleRegistry { modules };
        proof {
            assert forall|id: Seq<char>| #[trigger] r@.contains_key(id) implies r@[id] == module_flag(app_config.modules, id) by {
                r.lemma_lookup(0);
                let i = choose|i: int| 0 <= i < r.modules@.len() && #[trigger] r.modules@[i].id@ == id;
                r.lemma_lookup(i);
            }
            r.lemma_lookup(0);
        }
        r
    }

    /// Whether module `id` is registered and on.
    pub fn is_enabled(&self, id: &str) -> (r: bool)
        ensures
            r == (self@.contains_key(id@) && self@[id@]),
    {
        proof {
            use_type_invariant(self);
        }
        let mut i: usize = 0;
        while i < self.modules.len()
            invariant
                self.well_formed(),
                i <= self.modules.len(),
                forall|k: int| 0 <= k < i ==> #[trigger] self.modules@[k].id@ != id@,
            decreases self.modules.len() - i,
        {
            if str_eq(self.modules[i].id, id) {
                proof {
                    self.lemma_lookup(i as int);
                }
                return self.modules[i].enabled;
            }
            i = i + 1;
        }
        assert(!self@.contains_key(id@));
        false
    }

    /// Switches module `id` on or off; an unknown id changes nothing.
    pub fn set_enabled(&mut self, id: &str, enabled: bool)
        ensures
            old(self)@.contains_key(id@) ==> final(self)@ == old(self)@.insert(id@, enabled),
            !old(self)@.contains_key(id@) ==> final(self)@ == old(self)@,
    {
        proof {
            use_type_invariant(&*self);
        }
        let mut i: usize = 0;
        while i < self.modules.len()
            invariant
                self.well_formed(),
                *self == *old(self),
                i <= self.modules.len(),
                forall|k: int| 0 <= k < i ==> #[trigger] self.modules@[k].id@ != id@,
            decreases self.modules.len() - i,
        {
            if str_eq(self.modules[i].id, id) {
                let ghost before = *self;
                proof {
                    before.lemma_lookup(i as int);
                }
                let mut fresh: Vec<ModuleEntry> = Vec::new();
                let mut j: usize = 0;
                while j < self.modules.len()
                    invariant
                        before == *self,
                        self.well_formed(),
                        i < self.modules.len(),
                        j <= self.modules.len(),
                        fresh@.len() == j,
                        forall|k: int|
                            0 <= k < j ==> #[trigger] fresh@[k] == (if k == i as int {
                                with_flag(self.modules@[k], enabled)
                            } else {
                                self.modules@[k]
                            }),
                    decreases self.modules.len() - j,
                {
                    let m = &self.modules[j];
                    fresh.push(ModuleEntry {
                        id: m.id,
                        display_name: m.display_name,
                        description: m.description,
                        enabled: if j == i { enabled } else { m.enabled },
                    });
                    j = j + 1;
                }
                self.modules = fresh;
                proof {
                    self.lemma_lookup(i as int);
                    assert forall|x: Seq<char>| #[trigger] self@.contains_key(x) implies self@[x]
                        == before@.insert(id@, enabled)[x] by {
                        let j = choose|j: int| 0 <= j < self.modules@.len() && #[trigger] self.modules@[j].id@ == x;
                        self.lemma_lookup(j);
                        before.lemma_lookup(j);
                    }
                    assert(self@ =~= before@.insert(id@, enabled));
                }
                return;
            }
            i = i + 1;
        }
        assert(!self@.contains_key(id@));
    }

    /// All modules in registration order, with their names and descriptions.
    pub fn all(&self) -> (r: &[ModuleEntry])
        ensures
            r@.len() == 9,
            forall|i: int| 0 <= i < 9 ==> #[trigger] r@[i].id@ == known_module_ids()[i] && self@[r@[i].id@] == r@[i].enabled,
            forall|i: int| 0 <= i < 9 ==> #[trigger] r@[i].display_name@ == known_module_names()[i]
                && r@[i].description@ == known_module_descriptions()[i],
    {
        proof {
            use_type_invariant(self);
            assert forall|i: int| 0 <= i < 9 implies #[trigger] self.modules@[i].id@ == known_module_ids()[i] && self@[self.modules@[i].id@] == self.modules@[i].enabled by {
                self.lemma_lookup(i);
            }
        }
        self.modules.as_slice()
    }
}

/// The registry built from a configuration reports, for every id, exactly
/// the configuration's switch (unknown ids are off in both).
pub proof fn law_registry_mirrors_config(config: ModuleConfig, reg: Map<Seq<char>, bool>, id: Seq<char>)
    requires
        reg.dom() == known_module_ids().to_set(),
        forall|x: Seq<char>| #[trigger] reg.contains_key(x) ==> reg[x] == module_flag(config, x),
    ensures
        (reg.contains_key(id) && reg[id]) == module_flag(config, id),
{
    if !reg.contains_key(id) {
        reveal_strlit("vad");
        reveal_strlit("context_templates");
        reveal_strlit("opencc");
        reveal_strlit("auto_inject");
        reveal_strlit("waveform");
        reveal_strlit("history");
        reveal_strlit("noise_suppress");
        reveal_strlit("auto_punctuation");
        reveal_strlit("speaker_detect");
        assert(!known_module_ids().contains(id));
        if id == "vad"@ { assert(known_module_ids()[0] == id); }
        if id == "context_templates"@ { assert(known_module_ids()[1] == id); }
        if id == "opencc"@ { assert(known_module_ids()[2] == id); }
        if id == "auto_inject"@ { assert(known_module_ids()[3] == id); }
        if id == "waveform"@ { assert(known_module_ids()[4] == id); }
        if id == "history"@ { assert(known_module_ids()[5] == id); }
        if id == "noise_suppress"@ { assert(known_module_ids()[6] == id); }
        if id == "auto_punctuation"@ { assert(known_module_ids()[7] == id); }
        if id == "speaker_detect"@ { assert(known_module_ids()[8] == id); }
    }
}

/// Switching a registered module and reading it back gives the new value,
/// and leaves every other module as it was.
pub proof fn law_set_then_read(before: Map<Seq<char>, bool>, id: Seq<char>, enabled: bool, other: Seq<char>)
    requires
        before.contains_key(id),
    ensures
        before.insert(id, enabled).contains_key(id) && before.insert(id, enabled)[id] == enabled,
        other != id ==> before.insert(id, enabled).contains_key(other) == before.contains_key(other)
            && (before.contains_key(other) ==> before.insert(id, enabled)[other] == before[other]),
{
}

} // verus!
