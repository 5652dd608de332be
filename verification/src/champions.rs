//! Champion registry.
//!
//! Each task class keeps one approved champion model. A new model is a
//! challenger. Champion status is recorded on every run and a challenger that
//! regresses against the champion inside the same evaluation is flagged.
//! Promotion is not automatic: two consecutive passing runs and an owner's
//! approval come before the champion changes.

use vstd::prelude::*;

use crate::text::str_eq;

verus! {

#[derive(Debug)]
pub struct ChampionRegistry {
    pub champions: Vec<ChampionEntry>,
}

#[derive(Debug)]
pub struct ChampionEntry {
    pub task_class: String,
    pub model_id: String,
    pub since: Option<String>,
}

/// The model of the first entry for `task_class`, if any.
pub open spec fn champion_of(champions: Seq<ChampionEntry>, task_class: Seq<char>) -> Option<Seq<char>> {
    if exists|i: int| 0 <= i < champions.len() && (#[trigger] champions[i]).task_class@ == task_class {
        let i = choose|i: int|
            0 <= i < champions.len() && (#[trigger] champions[i]).task_class@ == task_class && forall|k: int|
                0 <= k < i ==> (#[trigger] champions[k]).task_class@ != task_class;
        Some(champions[i].model_id@)
    } else {
        None
    }
}

impl ChampionRegistry {
    /// The champion model for a task class, if one is registered: the first
    /// entry for the class decides.
    pub fn champion_for(&self, task_class: &str) -> (r: Option<&str>)
        ensures
            match champion_of(self.champions@, task_class@) {
                None => r is None,
                Some(m) => r matches Some(x) && x@ == m,
            },
    {
        let mut i: usize = 0;
        while i < self.champions.len()
            invariant
                i <= self.champions@.len(),
                forall|k: int| 0 <= k < i ==> (#[trigger] self.champions@[k]).task_class@ != task_class@,
            decreases self.champions@.len() - i,
        {
            if str_eq(self.champions[i].task_class.as_str(), task_class) {
                proof {
                    let s = self.champions@;
                    assert(s[i as int].task_class@ == task_class@);
                    let w = choose|w: int|
                        0 <= w < s.len() && (#[trigger] s[w]).task_class@ == task_class@ && forall|k: int|
                            0 <= k < w ==> (#[trigger] s[k]).task_class@ != task_class@;
                    if w < i {
                        assert(s[w].task_class@ != task_class@);
                    }
                    if w > i {
                        assert(s[i as int].task_class@ != task_class@);
                    }
                }
                return Some(self.champions[i].model_id.as_str());
            }
            i = i + 1;
        }
        None
    }

    /// True when `model_id` is the champion of `task_class`.
    pub fn is_champion(&self, task_class: &str, model_id: &str) -> (b: bool)
        ensures
            b == (champion_of(self.champions@, task_class@) == Some(model_id@)),
    {
        match self.champion_for(task_class) {
            Some(m) => str_eq(m, model_id),
            None => false,
        }
    }
}

} // verus!
