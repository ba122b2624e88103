//! What is known of each actor before any render: its category, the skins
//! and animations its skeleton offers, and the colour sets of follower skins.

use vstd::prelude::*;
use crate::request::{names, SlotColour};

verus! {

#[derive(Debug, Clone, Copy, PartialEq, Eq)]
pub enum ActorCategory {
    /// Not filed under any category.
    NoCategory,
    NPCs,
    Bosses,
    Minibosses,
    Enemies,
    Others,
    Objects,
    Unused,
    Uncategorized,
}

impl Default for ActorCategory {
    fn default() -> (r: ActorCategory)
        ensures
            r == ActorCategory::NoCategory,
    {
        ActorCategory::NoCategory
    }
}

#[derive(Debug, Clone)]
pub struct SpineSkin {
    pub name: String,
}

#[derive(Debug, Clone)]
pub struct SpineAnimation {
    pub name: String,
    /// Length of one loop, in milliseconds.
    pub duration_ms: u32,
}

/// Why the follower colour data could not be had.
#[derive(Debug, Clone, PartialEq, Eq)]
pub enum WorshipperDataError {
    LoadError(String),
    ParseError(String),
}

/// The address a request came from, as a proxy reports it.
#[derive(Debug, Clone)]
pub struct XRealIp(pub String);

/// Colour sets kept for a group of follower skins.
#[derive(Debug, Clone)]
pub struct FollowerSkins {
    pub name: String,
    pub skins: Vec<String>,
    pub sets: Vec<Vec<SlotColour>>,
}

/// Every colour set: those of particular follower skins, and those that fit
/// any skin.
#[derive(Debug, Clone)]
pub struct SkinColours {
    pub global: Vec<Vec<SlotColour>>,
    pub skins: Vec<FollowerSkins>,
}

/// `i` is the first group of follower skins that lists `name`.
pub open spec fn is_first_group(groups: Seq<FollowerSkins>, name: Seq<char>, i: int) -> bool {
    &&& 0 <= i < groups.len()
    &&& names(groups[i].skins@).contains(name)
    &&& forall|k: int| 0 <= k < i ==> !names((#[trigger] groups[k]).skins@).contains(name)
}

/// The global colour set numbered `index`, if there is one.
pub open spec fn global_set(sc: SkinColours, index: int) -> Option<Vec<SlotColour>> {
    if 0 <= index < sc.global@.len() {
        Some(sc.global@[index])
    } else {
        None
    }
}

/// The colour set numbered `index` for skin `name`: the sets of the first
/// group that lists the skin come first, then the global ones.
pub open spec fn spec_colour_set(sc: SkinColours, name: Seq<char>, index: int) -> Option<Vec<SlotColour>> {
    if exists|i: int| is_first_group(sc.skins@, name, i) {
        let g = sc.skins@[choose|i: int| is_first_group(sc.skins@, name, i)];
        if index < g.sets@.len() {
            Some(g.sets@[index])
        } else {
            global_set(sc, index - g.sets@.len())
        }
    } else {
        global_set(sc, index)
    }
}

fn lists_skin(skins: &Vec<String>, name: &String) -> (r: bool)
    ensures
        r == names(skins@).contains(name@),
{
    let mut j: usize = 0;
    while j < skins.len()
        invariant
            0 <= j <= skins@.len(),
            forall|k: int| 0 <= k < j ==> (#[trigger] skins@[k])@ != name@,
        decreases skins.len() - j,
    {
        if skins[j].eq(name) {
            assert(names(skins@)[j as int] == name@);
            return true;
        }
        j = j + 1;
    }
    proof {
        if names(skins@).contains(name@) {
            let k = choose|k: int| 0 <= k < names(skins@).len() && names(skins@)[k] == name@;
            assert(skins@[k]@ == name@);
        }
    }
    false
}

impl SkinColours {
    fn global_at(&self, index: usize) -> (r: Option<&Vec<SlotColour>>)
        ensures
            r is Some == global_set(*self, index as int) is Some,
            r is Some ==> *r->0 == global_set(*self, index as int)->0,
    {
        if index < self.global.len() {
            Some(&self.global[index])
        } else {
            None
        }
    }

    /// The colour set numbered `index` for skin `skin_name`, counting first
    /// the sets of the first group of follower skins that lists it, then the
    /// global sets.
    pub fn colour_set_from_index(&self, skin_name: &String, index: usize) -> (r: Option<&Vec<SlotColour>>)
        ensures
            r is Some == spec_colour_set(*self, skin_name@, index as int) is Some,
            r is Some ==> *r->0 == spec_colour_set(*self, skin_name@, index as int)->0,
    {
        let ghost groups = self.skins@;
        let mut i: usize = 0;
        while i < self.skins.len()
            invariant
                groups == self.skins@,
                0 <= i <= groups.len(),
                forall|k: int| 0 <= k < i ==> !names((#[trigger] groups[k]).skins@).contains(skin_name@),
            decreases self.skins.len() - i,
        {
            let group = &self.skins[i];
            if lists_skin(&group.skins, skin_name) {
                proof {
                    assert(is_first_group(groups, skin_name@, i as int));
                    let c = choose|c: int| is_first_group(groups, skin_name@, c);
                    if c < i {
                        assert(!names(groups[c].skins@).contains(skin_name@));
                    }
                    if c > i {
                        assert(!names(groups[i as int].skins@).contains(skin_name@));
                    }
                }
                if index < group.sets.len() {
                    return Some(&group.sets[index]);
                }
                return self.global_at(index - group.sets.len());
            }
            i = i + 1;
        }
        proof {
            if exists|c: int| is_first_group(groups, skin_name@, c) {
                let c = choose|c: int| is_first_group(groups, skin_name@, c);
                assert(!names(groups[c].skins@).contains(skin_name@));
            }
        }
        self.global_at(index)
    }
}

} // verus!
