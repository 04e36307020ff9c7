//! What clearing a level unlocks: the entries of a level's `unlock_map` and
//! `unlock_level` lists in a map file.
use vstd::prelude::*;
use crate::json::Json;
use crate::json::JsonNode;

verus! {

/// A map that clearing a level unlocks.
#[derive(Debug)]
pub struct UnlockMap {
    pub map_name: String,
    pub require_perfect_clear: bool,
}

/// A level that clearing a level unlocks.
#[derive(Debug)]
pub struct UnlockLevel {
    pub level_name: String,
    pub level_map: String,
    pub require_perfect_clear: bool,
}

pub struct UnlockMapView {
    pub map_name: Seq<char>,
    pub require_perfect_clear: bool,
}

pub struct UnlockLevelView {
    pub level_name: Seq<char>,
    pub level_map: Seq<char>,
    pub require_perfect_clear: bool,
}

impl View for UnlockMap {
    type V = UnlockMapView;

    open spec fn view(&self) -> UnlockMapView {
        UnlockMapView { map_name: self.map_name@, require_perfect_clear: self.require_perfect_clear }
    }
}

impl View for UnlockLevel {
    type V = UnlockLevelView;

    open spec fn view(&self) -> UnlockLevelView {
        UnlockLevelView {
            level_name: self.level_name@,
            level_map: self.level_map@,
            require_perfect_clear: self.require_perfect_clear,
        }
    }
}

pub open spec fn unlock_map_from_json(j: Json) -> Option<UnlockMapView> {
    match (j.field("map_name"@).as_str(), j.field("require_perfect_clear"@).as_bool()) {
        (Some(a), Some(b)) => Some(UnlockMapView { map_name: a, require_perfect_clear: b }),
        _ => None,
    }
}

pub open spec fn unlock_level_from_json(j: Json) -> Option<UnlockLevelView> {
    match (
        j.field("level_name"@).as_str(),
        j.field("level_map"@).as_str(),
        j.field("require_perfect_clear"@).as_bool(),
    ) {
        (Some(a), Some(b), Some(c)) => Some(
            UnlockLevelView { level_name: a, level_map: b, require_perfect_clear: c },
        ),
        _ => None,
    }
}

impl UnlockMap {
    pub fn from_json_value(value: &JsonNode) -> (r: Option<UnlockMap>)
        ensures
            match r {
                Some(u) => unlock_map_from_json(value@) == Some(u@),
                None => unlock_map_from_json(value@) is None,
            },
    {
        let map_name = value.str_field("map_name")?;
        let require_perfect_clear = value.bool_field("require_perfect_clear")?;
        Some(UnlockMap { map_name, require_perfect_clear })
    }
}

impl UnlockLevel {
    pub fn from_json_value(value: &JsonNode) -> (r: Option<UnlockLevel>)
        ensures
            match r {
                Some(u) => unlock_level_from_json(value@) == Some(u@),
                None => unlock_level_from_json(value@) is None,
            },
    {
        let level_name = value.str_field("level_name")?;
        let level_map = value.str_field("level_map")?;
        let require_perfect_clear = value.bool_field("require_perfect_clear")?;
        Some(UnlockLevel { level_name, level_map, require_perfect_clear })
    }
}

} // verus!
