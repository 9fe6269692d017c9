//! Song identifiers, difficulty labels, and the building of catalog
//! entries from what the session knows of a level.

use vstd::prelude::*;
use itertools::Itertools;
use crate::proto::{Characteristic, PreviewBeatmapLevel};

verus! {

/// The identifier of a song; unique within one catalog.
#[derive(Clone, Debug, Eq, Hash)]
pub struct SongId(pub String);

impl View for SongId {
    type V = Seq<char>;

    open spec fn view(&self) -> Seq<char> {
        self.0@
    }
}

impl PartialEq for SongId {
    fn eq(&self, other: &SongId) -> (r: bool)
        ensures
            r == (self@ == other@),
    {
        self.0 == other.0
    }
}

impl vstd::std_specs::cmp::PartialEqSpecImpl for SongId {
    open spec fn obeys_eq_spec() -> bool {
        true
    }

    open spec fn eq_spec(&self, other: &SongId) -> bool {
        self@ == other@
    }
}

/// The difficulties that a characteristic may offer.
#[derive(Clone, Copy, Debug, PartialEq, Eq, Structural)]
pub enum Difficulty {
    Easy,
    Normal,
    Hard,
    Expert,
    ExpertPlus,
}

/// The difficulty with value `v`, if any.
pub open spec fn difficulty_of(v: i32) -> Option<Difficulty> {
    if v == 0 {
        Some(Difficulty::Easy)
    } else if v == 1 {
        Some(Difficulty::Normal)
    } else if v == 2 {
        Some(Difficulty::Hard)
    } else if v == 3 {
        Some(Difficulty::Expert)
    } else if v == 4 {
        Some(Difficulty::ExpertPlus)
    } else {
        None
    }
}

/// The label of a difficulty.
pub open spec fn difficulty_label(d: Difficulty) -> Seq<char> {
    match d {
        Difficulty::Easy => "Easy"@,
        Difficulty::Normal => "Normal"@,
        Difficulty::Hard => "Hard"@,
        Difficulty::Expert => "Expert"@,
        Difficulty::ExpertPlus => "ExpertPlus"@,
    }
}

/// The label of the difficulty with value `v`; `Unknown` for other values.
pub open spec fn difficulty_name_spec(v: i32) -> Seq<char> {
    match difficulty_of(v) {
        Some(d) => difficulty_label(d),
        None => "Unknown"@,
    }
}

impl Difficulty {
    /// The difficulty with value `value` (0 for easy up to 4 for expert+).
    pub fn from_i32(value: i32) -> (r: Option<Difficulty>)
        ensures
            r == difficulty_of(value),
    {
        match value {
            0 => Some(Difficulty::Easy),
            1 => Some(Difficulty::Normal),
            2 => Some(Difficulty::Hard),
            3 => Some(Difficulty::Expert),
            4 => Some(Difficulty::ExpertPlus),
            _ => None,
        }
    }

    /// The value of this difficulty.
    pub fn to_i32(self) -> (r: i32)
        ensures
            difficulty_of(r) == Some(self),
    {
        match self {
            Difficulty::Easy => 0,
            Difficulty::Normal => 1,
            Difficulty::Hard => 2,
            Difficulty::Expert => 3,
            Difficulty::ExpertPlus => 4,
        }
    }
}

fn same_text(a: &str, b: &str) -> (r: bool)
    ensures
        r == (a@ == b@),
{
    a.to_owned() == b.to_owned()
}

/// The label of the difficulty with value `value`, or `Unknown`.
pub fn difficulty_name(value: i32) -> (r: String)
    ensures
        r@ == difficulty_name_spec(value),
{
    match Difficulty::from_i32(value) {
        Some(Difficulty::Easy) => "Easy".to_owned(),
        Some(Difficulty::Normal) => "Normal".to_owned(),
        Some(Difficulty::Hard) => "Hard".to_owned(),
        Some(Difficulty::Expert) => "Expert".to_owned(),
        Some(Difficulty::ExpertPlus) => "ExpertPlus".to_owned(),
        None => "Unknown".to_owned(),
    }
}

/// The difficulty whose label is `name`; `None` for any other text.
pub fn difficulty_from_name(name: &str) -> (r: Option<Difficulty>)
    ensures
        r matches Some(d) ==> difficulty_label(d) == name@,
        r is None ==> forall|d: Difficulty| difficulty_label(d) != name@,
{
    if same_text(name, "Easy") {
        Some(Difficulty::Easy)
    } else if same_text(name, "Normal") {
        Some(Difficulty::Normal)
    } else if same_text(name, "Hard") {
        Some(Difficulty::Hard)
    } else if same_text(name, "Expert") {
        Some(Difficulty::Expert)
    } else if same_text(name, "ExpertPlus") {
        Some(Difficulty::ExpertPlus)
    } else {
        None
    }
}

/// One (characteristic, difficulty) pair that a level offers; a key without
/// a characteristic stands for no playable map and is skipped.
#[derive(Clone, Debug, PartialEq, Eq)]
pub struct BeatmapKey {
    pub characteristic: Option<String>,
    pub difficulty: i32,
}

/// What the session knows of a level when the catalog is built. The tempo
/// is the bit pattern of its single-precision value.
#[derive(Clone, Debug, PartialEq, Eq)]
pub struct LevelInfo {
    pub level_id: String,
    pub name: String,
    pub sub_name: String,
    pub author: String,
    pub mappers: Vec<String>,
    pub bpm_bits: u32,
    pub duration: String,
    pub favorited: bool,
    pub keys: Vec<BeatmapKey>,
}

/// `parts` with `sep` between each two of them.
pub open spec fn joined(parts: Seq<Seq<char>>, sep: Seq<char>) -> Seq<char>
    decreases parts.len(),
{
    if parts.len() == 0 {
        Seq::empty()
    } else if parts.len() == 1 {
        parts[0]
    } else {
        joined(parts.drop_last(), sep) + sep + parts.last()
    }
}

/// The text of each string.
pub open spec fn texts(v: Seq<String>) -> Seq<Seq<char>> {
    v.map_values(|s: String| s@)
}

/// The (characteristic, difficulty) pairs of the keys that name a
/// characteristic, in order.
pub open spec fn present_keys(keys: Seq<BeatmapKey>) -> Seq<(Seq<char>, i32)>
    decreases keys.len(),
{
    if keys.len() == 0 {
        Seq::empty()
    } else {
        let rest = present_keys(keys.drop_last());
        match keys.last().characteristic {
            Some(c) => rest.push((c@, keys.last().difficulty)),
            None => rest,
        }
    }
}

/// The pairs of `groups`, each member paired with its group's key, in order.
pub open spec fn ungroup(groups: Seq<(String, Vec<i32>)>) -> Seq<(Seq<char>, i32)>
    decreases groups.len(),
{
    if groups.len() == 0 {
        Seq::empty()
    } else {
        let g = groups.last();
        ungroup(groups.drop_last()) + g.1@.map_values(|d: i32| (g.0@, d))
    }
}

/// The (characteristic, difficulty label) pairs that `chars` lists, in order.
pub open spec fn char_pairs(chars: Seq<Characteristic>) -> Seq<(Seq<char>, Seq<char>)>
    decreases chars.len(),
{
    if chars.len() == 0 {
        Seq::empty()
    } else {
        let c = chars.last();
        char_pairs(chars.drop_last()) + c.diffs@.map_values(|d: String| (c.name@, d@))
    }
}

/// `pairs` with each difficulty replaced by its label.
pub open spec fn labelled(pairs: Seq<(Seq<char>, i32)>) -> Seq<(Seq<char>, Seq<char>)> {
    pairs.map_values(|p: (Seq<char>, i32)| (p.0, difficulty_name_spec(p.1)))
}

/// `chars` lists `pairs` in runs: each run of pairs with one characteristic,
/// and no two neighbouring runs with the same one.
pub open spec fn is_run_grouping(chars: Seq<Characteristic>, pairs: Seq<(Seq<char>, i32)>) -> bool {
    &&& char_pairs(chars) == labelled(pairs)
    &&& forall|i: int| 0 <= i < chars.len() ==> #[trigger] chars[i].diffs@.len() > 0
    &&& forall|i: int| 0 < i < chars.len() ==> #[trigger] chars[i].name@ != chars[i - 1].name@
}

/// The justification given for a level that the player does not own.
pub open spec fn unowned_justification() -> Seq<char> {
    "Unowned DLC Level"@
}

/// Relies on itertools' `Itertools::join`: the texts in order, with `sep`
/// between each two.
#[verifier::external_body]
pub(crate) fn join_names(names: &Vec<String>, sep: &str) -> (r: String)
    ensures
        r@ == joined(texts(names@), sep@),
{
    names.iter().join(sep)
}

/// Relies on itertools' `Itertools::chunk_by`: consecutive pairs with equal
/// characteristics form one group, in order.
#[verifier::external_body]
fn chunk_by_characteristic(pairs: Vec<(String, i32)>) -> (r: Vec<(String, Vec<i32>)>)
    ensures
        ungroup(r@) == pairs@.map_values(|p: (String, i32)| (p.0@, p.1)),
        forall|i: int| 0 <= i < r@.len() ==> #[trigger] r@[i].1@.len() > 0,
        forall|i: int| 0 < i < r@.len() ==> #[trigger] r@[i].0@ != r@[i - 1].0@,
{
    pairs.into_iter().chunk_by(|p| p.0.clone()).into_iter().map(
        |(name, group)| (name, group.map(|p| p.1).collect()),
    ).collect()
}

fn present_pairs(keys: &Vec<BeatmapKey>) -> (r: Vec<(String, i32)>)
    ensures
        r@.map_values(|p: (String, i32)| (p.0@, p.1)) == present_keys(keys@),
{
    let mut out: Vec<(String, i32)> = Vec::new();
    let mut i: usize = 0;
    while i < keys.len()
        invariant
            i <= keys@.len(),
            out@.map_values(|p: (String, i32)| (p.0@, p.1)) == present_keys(keys@.subrange(0, i as int)),
        decreases keys.len() - i,
    {
        let ghost before = out@;
        assert(keys@.subrange(0, i + 1).drop_last() =~= keys@.subrange(0, i as int));
        match &keys[i].characteristic {
            Some(c) => {
                out.push((c.clone(), keys[i].difficulty));
                assert(out@.map_values(|p: (String, i32)| (p.0@, p.1)) =~= before.map_values(
                    |p: (String, i32)| (p.0@, p.1),
                ).push((c@, keys@[i as int].difficulty)));
            },
            None => {},
        }
        i = i + 1;
    }
    assert(keys@.subrange(0, i as int) =~= keys@);
    out
}

fn labels_of(ds: &Vec<i32>) -> (r: Vec<String>)
    ensures
        r@.len() == ds@.len(),
        forall|k: int| 0 <= k < ds@.len() ==> #[trigger] r@[k]@ == difficulty_name_spec(ds@[k]),
{
    let mut out: Vec<String> = Vec::new();
    let mut j: usize = 0;
    while j < ds.len()
        invariant
            j <= ds@.len(),
            out@.len() == j,
            forall|k: int| 0 <= k < j ==> #[trigger] out@[k]@ == difficulty_name_spec(ds@[k]),
        decreases ds.len() - j,
    {
        out.push(difficulty_name(ds[j]));
        j = j + 1;
    }
    out
}

proof fn lemma_labelled_concat(a: Seq<(Seq<char>, i32)>, b: Seq<(Seq<char>, i32)>)
    ensures
        labelled(a + b) == labelled(a) + labelled(b),
{
    assert(labelled(a + b) =~= labelled(a) + labelled(b));
}

fn characteristics_of(groups: Vec<(String, Vec<i32>)>) -> (r: Vec<Characteristic>)
    ensures
        char_pairs(r@) == labelled(ungroup(groups@)),
        r@.len() == groups@.len(),
        forall|i: int| 0 <= i < r@.len() ==> #[trigger] r@[i].name@ == groups@[i].0@,
        forall|i: int| 0 <= i < r@.len() ==> #[trigger] r@[i].diffs@.len() == groups@[i].1@.len(),
{
    let mut out: Vec<Characteristic> = Vec::new();
    let mut i: usize = 0;
    while i < groups.len()
        invariant
            i <= groups@.len(),
            out@.len() == i,
            char_pairs(out@) == labelled(ungroup(groups@.subrange(0, i as int))),
            forall|k: int| 0 <= k < i ==> #[trigger] out@[k].name@ == groups@[k].0@,
            forall|k: int| 0 <= k < i ==> #[trigger] out@[k].diffs@.len() == groups@[k].1@.len(),
        decreases groups.len() - i,
    {
        let g = &groups[i];
        let c = Characteristic { name: g.0.clone(), diffs: labels_of(&g.1) };
        let ghost before = out@;
        out.push(c);
        proof {
            let gs = groups@.subrange(0, i + 1);
            assert(gs.drop_last() =~= groups@.subrange(0, i as int));
            assert(out@.drop_last() =~= before);
            let tail = g.1@.map_values(|d: i32| (g.0@, d));
            lemma_labelled_concat(ungroup(groups@.subrange(0, i as int)), tail);
            assert(c.diffs@.map_values(|d: String| (c.name@, d@)) =~= labelled(tail));
        }
        i = i + 1;
    }
    assert(groups@.subrange(0, i as int) =~= groups@);
    out
}

/// The characteristics of `keys` with their difficulty labels: keys without
/// a characteristic are skipped, and each run of keys with one characteristic
/// becomes one entry.
pub fn group_characteristics(keys: &Vec<BeatmapKey>) -> (r: Vec<Characteristic>)
    ensures
        is_run_grouping(r@, present_keys(keys@)),
{
    let pairs = present_pairs(keys);
    let groups = chunk_by_characteristic(pairs);
    let r = characteristics_of(groups);
    assert forall|i: int| 0 <= i < r@.len() implies #[trigger] r@[i].diffs@.len() > 0 by {
        assert(groups@[i].1@.len() > 0);
    }
    assert forall|i: int| 0 < i < r@.len() implies #[trigger] r@[i].name@ != r@[i - 1].name@ by {
        assert(groups@[i].0@ != groups@[i - 1].0@);
    }
    r
}

} // verus!
