//! The campaign between operations: browsing the maps, which levels and
//! routes of a map show, and the file an operation is read from.
use vstd::prelude::*;
use crate::user::{User, first_level_status};
use vstd::string::{StrSliceExecFns, StringExecFns};

verus! {

/// `s` with every occurrence of `from` replaced by `to`, the occurrences
/// taken from left to right without overlapping.
pub open spec fn replaced(s: Seq<char>, from: Seq<char>, to: Seq<char>) -> Seq<char>
    decreases s.len(),
{
    if s.len() == 0 {
        s
    } else if 0 < from.len() <= s.len() && s.take(from.len() as int) == from {
        to + replaced(s.skip(from.len() as int), from, to)
    } else {
        seq![s[0]] + replaced(s.skip(1), from, to)
    }
}

/// Replaces every occurrence of `from` in `s` by `to`, from left to right.
pub fn replace_all(s: &str, from: &str, to: &str) -> (r: String)
    requires
        from@.len() > 0,
    ensures
        r@ == replaced(s@, from@, to@),
{
    let n = s.unicode_len();
    let k = from.unicode_len();
    let pattern = from.to_owned();
    let mut out = String::new();
    let mut i: usize = 0;
    assert(s@.skip(0) =~= s@);
    while i < n
        invariant
            0 <= i <= n,
            n == s@.len(),
            k == from@.len(),
            k > 0,
            pattern@ == from@,
            out@ + replaced(s@.skip(i as int), from@, to@) == replaced(s@, from@, to@),
        decreases n - i,
    {
        let ghost t = s@.skip(i as int);
        let matched = if k <= n - i {
            let piece = s.substring_char(i, i + k).to_owned();
            proof {
                assert(t.take(k as int) =~= s@.subrange(i as int, i + k));
            }
            piece == pattern
        } else {
            false
        };
        if matched {
            proof {
                assert(t.skip(k as int) =~= s@.skip(i + k));
                assert(out@ + to@ + replaced(s@.skip(i + k), from@, to@) =~= out@ + replaced(t, from@, to@));
            }
            out.append(to);
            i = i + k;
        } else {
            let c = s.get_char(i);
            let piece = s.substring_char(i, i + 1);
            proof {
                assert(piece@ =~= seq![c]);
                assert(t[0] == c);
                assert(t.skip(1) =~= s@.skip(i + 1));
                assert(!(0 < from@.len() <= t.len() && t.take(from@.len() as int) == from@));
                assert(out@ + piece@ + replaced(s@.skip(i + 1), from@, to@) =~= out@ + replaced(t, from@, to@));
            }
            out.append(piece);
            i = i + 1;
        }
    }
    proof {
        assert(s@.skip(n as int).len() == 0);
        assert(out@ =~= out@ + replaced(s@.skip(n as int), from@, to@));
    }
    out
}

/// The file an operation on the level named `level_name` of the map read
/// from `map_file` is read from: the map's file named as a level file,
/// without its extension, then the level's name.
pub open spec fn level_file(map_file: Seq<char>, level_name: Seq<char>) -> Seq<char> {
    replaced(replaced(map_file, "map_"@, "level_"@), ".json"@, ""@) + "_"@ + level_name + ".json"@
}

/// The file an operation on the level named `level_name` of the map read
/// from `map_file` is read from.
pub fn level_file_name(map_file: &str, level_name: &str) -> (r: String)
    ensures
        r@ == level_file(map_file@, level_name@),
{
    proof {
        reveal_strlit("map_");
        reveal_strlit(".json");
    }
    let a = replace_all(map_file, "map_", "level_");
    let mut b = replace_all(a.as_str(), ".json", "");
    b.append("_");
    b.append(level_name);
    b.append(".json");
    b
}

/// The map shown after `selected` when browsing forwards among `count`
/// maps: the next one, and the last stays.
pub fn next_map(selected: u32, count: u32) -> (r: u32)
    requires
        count >= 1,
    ensures
        r == (if selected < count - 1 {
            selected + 1
        } else {
            selected as int
        }),
{
    if selected < count - 1 {
        selected + 1
    } else {
        selected
    }
}

/// The map shown after `selected` when browsing backwards: the previous
/// one, and the first stays.
pub fn previous_map(selected: u32) -> (r: u32)
    ensures
        r == (if selected > 0 {
            selected - 1
        } else {
            0
        }),
{
    if selected > 0 {
        selected - 1
    } else {
        0
    }
}

/// The names of a map's levels.
pub open spec fn names(levels: Seq<String>) -> Seq<Seq<char>> {
    levels.map_values(|l: String| l@)
}

impl User {
    /// A level shows on a map when the map has it and the player has not
    /// got it locked: the first status recorded for it is not -1.
    pub open spec fn level_shown(&self, levels: Seq<String>, name: Seq<char>) -> bool {
        names(levels).contains(name) && first_level_status(self.level_status@, name) != -1
    }

    /// Whether the level named `name` shows on the map whose levels are
    /// named `levels`.
    pub fn shows_level(&self, levels: &Vec<String>, name: &str) -> (r: bool)
        ensures
            r == self.level_shown(levels@, name@),
    {
        let key = name.to_owned();
        let mut found = false;
        let mut i: usize = 0;
        while i < levels.len()
            invariant
                0 <= i <= levels.len(),
                key@ == name@,
                found == exists|j: int| 0 <= j < i && #[trigger] levels@[j]@ == name@,
            decreases levels.len() - i,
        {
            if levels[i] == key {
                found = true;
            }
            i = i + 1;
        }
        proof {
            if found {
                let j = choose|j: int| 0 <= j < levels.len() && #[trigger] levels@[j]@ == name@;
                assert(names(levels@)[j] == name@);
            }
            if names(levels@).contains(name@) {
                let j = choose|j: int| 0 <= j < names(levels@).len() && names(levels@)[j] == name@;
                assert(levels@[j]@ == name@);
            }
        }
        found && self.level_status_of(name) != -1
    }

    /// Whether the route between the levels named `from` and `to` is drawn
    /// on the map whose levels are named `levels`: both ends show.
    pub fn route_shown(&self, levels: &Vec<String>, from: &str, to: &str) -> (r: bool)
        ensures
            r == (self.level_shown(levels@, from@) && self.level_shown(levels@, to@)),
    {
        let a = self.shows_level(levels, from);
        let b = self.shows_level(levels, to);
        a && b
    }
}

impl User {
    /// Chooses the level named `level_name` of the current map to play: the
    /// operation will be read from that level's file.
    pub fn enter_level(&mut self, level_name: &str)
        ensures
            final(self).current_level@ == level_file(old(self).current_map@, level_name@),
            *final(self) == (User { current_level: final(self).current_level, ..*old(self) }),
    {
        self.current_level = level_file_name(self.current_map.as_str(), level_name);
    }
}

} // verus!
