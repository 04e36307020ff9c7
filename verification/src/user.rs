//! A player's save file (`user_<name>.json`): account, language, wallpaper,
//! progress on levels, guns and maps, and free-form settings.
use vstd::prelude::*;
use crate::codec::json_display;
use crate::json::{
    Json, JsonNode, JsonNumber, keep_some, lemma_keep_some_step, lemma_keep_some_inverse,
    lemma_keep_some_none, lemma_lookup_at, lemma_lookup_absent, lemma_view_nodes,
    lemma_view_nodes_push, lemma_view_fields, push_field, view_fields, view_nodes,
};
use crate::table::{keys_unique, entry_map, insert_entry};

verus! {

/// How a player stands on one level.
#[derive(Debug)]
pub struct UserLevelStatus {
    pub level_name: String,
    pub level_map: String,
    pub level_status: i8,
}

/// How far a player has upgraded one gun.
#[derive(Debug)]
pub struct UserGunStatus {
    pub gun_recognition_name: String,
    pub gun_level: i32,
}

/// Whether a player has unlocked one map.
#[derive(Debug)]
pub struct UserMapStatus {
    pub map_name: String,
    pub map_unlock_status: bool,
}

/// A player's save file. No key occurs twice in `settings`.
#[derive(Debug)]
pub struct User {
    pub name: String,
    pub password: String,
    pub language: u8,
    pub wallpaper: String,
    pub current_map: String,
    pub level_status: Vec<UserLevelStatus>,
    pub gun_status: Vec<UserGunStatus>,
    pub map_status: Vec<UserMapStatus>,
    pub settings: Vec<(String, String)>,
    pub current_level: String,
}

pub struct LevelStatusView {
    pub level_name: Seq<char>,
    pub level_map: Seq<char>,
    pub level_status: i8,
}

pub struct GunStatusView {
    pub gun_recognition_name: Seq<char>,
    pub gun_level: i32,
}

pub struct MapStatusView {
    pub map_name: Seq<char>,
    pub map_unlock_status: bool,
}

pub struct UserView {
    pub name: Seq<char>,
    pub password: Seq<char>,
    pub language: u8,
    pub wallpaper: Seq<char>,
    pub current_map: Seq<char>,
    pub level_status: Seq<LevelStatusView>,
    pub gun_status: Seq<GunStatusView>,
    pub map_status: Seq<MapStatusView>,
    pub settings: Map<Seq<char>, Seq<char>>,
    pub current_level: Seq<char>,
}

impl View for UserLevelStatus {
    type V = LevelStatusView;

    open spec fn view(&self) -> LevelStatusView {
        LevelStatusView {
            level_name: self.level_name@,
            level_map: self.level_map@,
            level_status: self.level_status,
        }
    }
}

impl View for UserGunStatus {
    type V = GunStatusView;

    open spec fn view(&self) -> GunStatusView {
        GunStatusView { gun_recognition_name: self.gun_recognition_name@, gun_level: self.gun_level }
    }
}

impl View for UserMapStatus {
    type V = MapStatusView;

    open spec fn view(&self) -> MapStatusView {
        MapStatusView { map_name: self.map_name@, map_unlock_status: self.map_unlock_status }
    }
}

impl View for User {
    type V = UserView;

    open spec fn view(&self) -> UserView {
        UserView {
            name: self.name@,
            password: self.password@,
            language: self.language,
            wallpaper: self.wallpaper@,
            current_map: self.current_map@,
            level_status: self.level_status@.map_values(|x: UserLevelStatus| x@),
            gun_status: self.gun_status@.map_values(|x: UserGunStatus| x@),
            map_status: self.map_status@.map_values(|x: UserMapStatus| x@),
            settings: entry_map(self.settings@),
            current_level: self.current_level@,
        }
    }
}

/// Reading one entry of `level_status`.
pub open spec fn level_of() -> spec_fn(Json) -> Option<LevelStatusView> {
    |j: Json|
        match (
            j.field("level_name"@).as_str(),
            j.field("level_map"@).as_str(),
            j.field("level_status"@).as_i8(),
        ) {
            (Some(a), Some(b), Some(c)) => Some(
                LevelStatusView { level_name: a, level_map: b, level_status: c },
            ),
            _ => None,
        }
}

/// Reading one entry of `gun_status`.
pub open spec fn gun_of() -> spec_fn(Json) -> Option<GunStatusView> {
    |j: Json|
        match (j.field("gun_recognition_name"@).as_str(), j.field("gun_level"@).as_i32()) {
            (Some(a), Some(b)) => Some(GunStatusView { gun_recognition_name: a, gun_level: b }),
            _ => None,
        }
}

/// Reading one entry of `map_status`.
pub open spec fn map_of() -> spec_fn(Json) -> Option<MapStatusView> {
    |j: Json|
        match (j.field("map_name"@).as_str(), j.field("map_unlock_status"@).as_bool()) {
            (Some(a), Some(b)) => Some(MapStatusView { map_name: a, map_unlock_status: b }),
            _ => None,
        }
}

/// The text a setting is kept as: a string as itself, anything else as the
/// `json` crate writes it.
pub open spec fn setting_text(j: Json) -> Seq<char> {
    match j {
        Json::Str(s) => s,
        _ => json_display(j),
    }
}

/// The settings the members of the `settings` object make, a later member
/// replacing an earlier one with the same key.
pub open spec fn settings_table(f: Seq<(Seq<char>, Json)>) -> Map<Seq<char>, Seq<char>>
    decreases f.len(),
{
    if f.len() == 0 {
        Map::empty()
    } else {
        settings_table(f.drop_last()).insert(f.last().0, setting_text(f.last().1))
    }
}

/// The save file a document holds. The six text and number members must be
/// there with their types, else there is none; entries of the three status
/// lists that lack a member are left out.
pub open spec fn user_from_json(j: Json) -> Option<UserView> {
    match (
        j.field("name"@).as_str(),
        j.field("password"@).as_str(),
        j.field("language"@).as_u8(),
        j.field("wallpaper"@).as_str(),
        j.field("current_map"@).as_str(),
        j.field("current_level"@).as_str(),
    ) {
        (Some(a), Some(b), Some(c), Some(d), Some(e), Some(f)) => Some(
            UserView {
                name: a,
                password: b,
                language: c,
                wallpaper: d,
                current_map: e,
                level_status: keep_some(j.field("level_status"@).members(), level_of()),
                gun_status: keep_some(j.field("gun_status"@).members(), gun_of()),
                map_status: keep_some(j.field("map_status"@).members(), map_of()),
                settings: settings_table(j.field("settings"@).entries()),
                current_level: f,
            },
        ),
        _ => None,
    }
}

/// How one entry of `level_status` is written.
pub open spec fn level_to_json() -> spec_fn(LevelStatusView) -> Json {
    |l: LevelStatusView|
        Json::Object(
            seq![
                ("level_name"@, Json::Str(l.level_name)),
                ("level_map"@, Json::Str(l.level_map)),
                ("level_status"@, Json::Number(JsonNumber::of_signed(l.level_status as int))),
            ],
        )
}

/// How one entry of `gun_status` is written.
pub open spec fn gun_to_json() -> spec_fn(GunStatusView) -> Json {
    |g: GunStatusView|
        Json::Object(
            seq![
                ("gun_recognition_name"@, Json::Str(g.gun_recognition_name)),
                ("gun_level"@, Json::Number(JsonNumber::of_signed(g.gun_level as int))),
            ],
        )
}

/// How one entry of `map_status` is written: the unlock flag goes under the
/// key `map_status`.
pub open spec fn map_to_json() -> spec_fn(MapStatusView) -> Json {
    |m: MapStatusView|
        Json::Object(
            seq![
                ("map_name"@, Json::Str(m.map_name)),
                ("map_status"@, Json::Bool(m.map_unlock_status)),
            ],
        )
}

/// How one setting is written.
pub open spec fn setting_to_json() -> spec_fn((String, String)) -> (Seq<char>, Json) {
    |p: (String, String)| (p.0@, Json::Str(p.1@))
}

/// The document a save file is written as; the settings appear in the
/// order of their entries.
pub open spec fn user_to_json(u: User) -> Json {
    Json::Object(
        seq![
            ("name"@, Json::Str(u.name@)),
            ("password"@, Json::Str(u.password@)),
            ("language"@, Json::Number(JsonNumber::of_unsigned(u.language as u64))),
            ("wallpaper"@, Json::Str(u.wallpaper@)),
            ("current_map"@, Json::Str(u.current_map@)),
            ("level_status"@, Json::Array(u@.level_status.map_values(level_to_json()))),
            ("gun_status"@, Json::Array(u@.gun_status.map_values(gun_to_json()))),
            ("map_status"@, Json::Array(u@.map_status.map_values(map_to_json()))),
            ("settings"@, Json::Object(u.settings@.map_values(setting_to_json()))),
            ("current_level"@, Json::Str(u.current_level@)),
        ],
    )
}

impl UserLevelStatus {
    pub fn from_json_value(value: &JsonNode) -> (r: Option<UserLevelStatus>)
        ensures
            match r {
                Some(x) => level_of()(value@) == Some(x@),
                None => level_of()(value@) is None,
            },
    {
        let level_name = value.str_field("level_name")?;
        let level_map = value.str_field("level_map")?;
        let level_status = value.i8_field("level_status")?;
        Some(UserLevelStatus { level_name, level_map, level_status })
    }

    pub fn to_json_value(&self) -> (r: JsonNode)
        requires
            self.level_status != i8::MIN,
        ensures
            r@ == level_to_json()(self@),
    {
        let mut f: Vec<(String, JsonNode)> = Vec::new();
        push_field(&mut f, "level_name", JsonNode::Str(self.level_name.clone()));
        push_field(&mut f, "level_map", JsonNode::Str(self.level_map.clone()));
        push_field(
            &mut f,
            "level_status",
            JsonNode::Number(JsonNumber::from_i64(self.level_status as i64)),
        );
        assert(view_fields(f@) =~= level_to_json()(self@)->Object_0);
        JsonNode::Object(f)
    }
}

impl UserGunStatus {
    pub fn from_json_value(value: &JsonNode) -> (r: Option<UserGunStatus>)
        ensures
            match r {
                Some(x) => gun_of()(value@) == Some(x@),
                None => gun_of()(value@) is None,
            },
    {
        let gun_recognition_name = value.str_field("gun_recognition_name")?;
        let gun_level = value.i32_field("gun_level")?;
        Some(UserGunStatus { gun_recognition_name, gun_level })
    }

    pub fn to_json_value(&self) -> (r: JsonNode)
        requires
            self.gun_level != i32::MIN,
        ensures
            r@ == gun_to_json()(self@),
    {
        let mut f: Vec<(String, JsonNode)> = Vec::new();
        push_field(&mut f, "gun_recognition_name", JsonNode::Str(self.gun_recognition_name.clone()));
        push_field(&mut f, "gun_level", JsonNode::Number(JsonNumber::from_i64(self.gun_level as i64)));
        assert(view_fields(f@) =~= gun_to_json()(self@)->Object_0);
        JsonNode::Object(f)
    }
}

impl UserMapStatus {
    pub fn from_json_value(value: &JsonNode) -> (r: Option<UserMapStatus>)
        ensures
            match r {
                Some(x) => map_of()(value@) == Some(x@),
                None => map_of()(value@) is None,
            },
    {
        let map_name = value.str_field("map_name")?;
        let map_unlock_status = value.bool_field("map_unlock_status")?;
        Some(UserMapStatus { map_name, map_unlock_status })
    }

    pub fn to_json_value(&self) -> (r: JsonNode)
        ensures
            r@ == map_to_json()(self@),
    {
        let mut f: Vec<(String, JsonNode)> = Vec::new();
        push_field(&mut f, "map_name", JsonNode::Str(self.map_name.clone()));
        push_field(&mut f, "map_status", JsonNode::Bool(self.map_unlock_status));
        assert(view_fields(f@) =~= map_to_json()(self@)->Object_0);
        JsonNode::Object(f)
    }
}

/// The members of an array, or none.
pub open spec fn members_of(a: Option<&Vec<JsonNode>>) -> Seq<Json> {
    match a {
        Some(v) => view_nodes(v@),
        None => Seq::empty(),
    }
}

fn read_level_status(a: Option<&Vec<JsonNode>>) -> (r: Vec<UserLevelStatus>)
    ensures
        r@.map_values(|x: UserLevelStatus| x@) == keep_some(members_of(a), level_of()),
{
    let mut out: Vec<UserLevelStatus> = Vec::new();
    let v = match a {
        Some(v) => v,
        None => {
            assert(out@.map_values(|x: UserLevelStatus| x@) =~= Seq::<LevelStatusView>::empty());
            return out;
        },
    };
    let ghost s = view_nodes(v@);
    proof {
        lemma_view_nodes(v@);
    }
    let mut i: usize = 0;
    assert(out@.map_values(|x: UserLevelStatus| x@) =~= keep_some(s.take(0), level_of()));
    while i < v.len()
        invariant
            0 <= i <= v.len(),
            s == view_nodes(v@),
            s.len() == v.len(),
            forall|j: int| 0 <= j < v.len() ==> #[trigger] s[j] == v@[j]@,
            out@.map_values(|x: UserLevelStatus| x@) == keep_some(s.take(i as int), level_of()),
        decreases v.len() - i,
    {
        proof {
            lemma_keep_some_step(s, level_of(), i as int);
        }
        let ghost before = out@.map_values(|x: UserLevelStatus| x@);
        match UserLevelStatus::from_json_value(&v[i]) {
            Some(x) => {
                out.push(x);
                assert(out@.map_values(|x: UserLevelStatus| x@) =~= before.push(x@));
            },
            None => {},
        }
        i = i + 1;
    }
    assert(s.take(v.len() as int) =~= s);
    out
}

fn read_gun_status(a: Option<&Vec<JsonNode>>) -> (r: Vec<UserGunStatus>)
    ensures
        r@.map_values(|x: UserGunStatus| x@) == keep_some(members_of(a), gun_of()),
{
    let mut out: Vec<UserGunStatus> = Vec::new();
    let v = match a {
        Some(v) => v,
        None => {
            assert(out@.map_values(|x: UserGunStatus| x@) =~= Seq::<GunStatusView>::empty());
            return out;
        },
    };
    let ghost s = view_nodes(v@);
    proof {
        lemma_view_nodes(v@);
    }
    let mut i: usize = 0;
    assert(out@.map_values(|x: UserGunStatus| x@) =~= keep_some(s.take(0), gun_of()));
    while i < v.len()
        invariant
            0 <= i <= v.len(),
            s == view_nodes(v@),
            s.len() == v.len(),
            forall|j: int| 0 <= j < v.len() ==> #[trigger] s[j] == v@[j]@,
            out@.map_values(|x: UserGunStatus| x@) == keep_some(s.take(i as int), gun_of()),
        decreases v.len() - i,
    {
        proof {
            lemma_keep_some_step(s, gun_of(), i as int);
        }
        let ghost before = out@.map_values(|x: UserGunStatus| x@);
        match UserGunStatus::from_json_value(&v[i]) {
            Some(x) => {
                out.push(x);
                assert(out@.map_values(|x: UserGunStatus| x@) =~= before.push(x@));
            },
            None => {},
        }
        i = i + 1;
    }
    assert(s.take(v.len() as int) =~= s);
    out
}

fn read_map_status(a: Option<&Vec<JsonNode>>) -> (r: Vec<UserMapStatus>)
    ensures
        r@.map_values(|x: UserMapStatus| x@) == keep_some(members_of(a), map_of()),
{
    let mut out: Vec<UserMapStatus> = Vec::new();
    let v = match a {
        Some(v) => v,
        None => {
            assert(out@.map_values(|x: UserMapStatus| x@) =~= Seq::<MapStatusView>::empty());
            return out;
        },
    };
    let ghost s = view_nodes(v@);
    proof {
        lemma_view_nodes(v@);
    }
    let mut i: usize = 0;
    assert(out@.map_values(|x: UserMapStatus| x@) =~= keep_some(s.take(0), map_of()));
    while i < v.len()
        invariant
            0 <= i <= v.len(),
            s == view_nodes(v@),
            s.len() == v.len(),
            forall|j: int| 0 <= j < v.len() ==> #[trigger] s[j] == v@[j]@,
            out@.map_values(|x: UserMapStatus| x@) == keep_some(s.take(i as int), map_of()),
        decreases v.len() - i,
    {
        proof {
            lemma_keep_some_step(s, map_of(), i as int);
        }
        let ghost before = out@.map_values(|x: UserMapStatus| x@);
        match UserMapStatus::from_json_value(&v[i]) {
            Some(x) => {
                out.push(x);
                assert(out@.map_values(|x: UserMapStatus| x@) =~= before.push(x@));
            },
            None => {},
        }
        i = i + 1;
    }
    assert(s.take(v.len() as int) =~= s);
    out
}

/// The members of an object, or none.
pub open spec fn entries_of(n: Option<&JsonNode>) -> Seq<(Seq<char>, Json)> {
    match n {
        Some(x) => x@.entries(),
        None => Seq::empty(),
    }
}

fn read_settings(n: Option<&JsonNode>) -> (r: Vec<(String, String)>)
    ensures
        keys_unique(r@),
        entry_map(r@) == settings_table(entries_of(n)),
{
    let mut out: Vec<(String, String)> = Vec::new();
    let fields = match n {
        Some(x) => match x.as_object() {
            Some(f) => f,
            None => {
                assert(entry_map(out@) =~= Map::<Seq<char>, Seq<char>>::empty());
                return out;
            },
        },
        None => {
            assert(entry_map(out@) =~= Map::<Seq<char>, Seq<char>>::empty());
            return out;
        },
    };
    let ghost fv = view_fields(fields@);
    proof {
        lemma_view_fields(fields@);
    }
    let mut i: usize = 0;
    assert(fv.take(0) =~= Seq::<(Seq<char>, Json)>::empty());
    assert(entry_map(out@) =~= Map::<Seq<char>, Seq<char>>::empty());
    while i < fields.len()
        invariant
            0 <= i <= fields.len(),
            fv == view_fields(fields@),
            fv.len() == fields.len(),
            forall|j: int|
                0 <= j < fields.len() ==> #[trigger] fv[j] == (fields@[j].0@, fields@[j].1@),
            entries_of(n) == fv,
            keys_unique(out@),
            entry_map(out@) == settings_table(fv.take(i as int)),
        decreases fields.len() - i,
    {
        assert(fv.take(i + 1).drop_last() =~= fv.take(i as int));
        assert(fv.take(i + 1).last() == fv[i as int]);
        let text = crate::codec::json_to_string(&fields[i].1);
        insert_entry(&mut out, fields[i].0.clone(), text);
        i = i + 1;
    }
    assert(fv.take(fields.len() as int) =~= fv);
    out
}

/// The first status recorded in `s` for the level named `name`, or -1
/// (locked) where there is none.
pub open spec fn first_level_status(s: Seq<UserLevelStatus>, name: Seq<char>) -> i8
    decreases s.len(),
{
    if s.len() == 0 {
        -1i8
    } else if s[0].level_name@ == name {
        s[0].level_status
    } else {
        first_level_status(s.drop_first(), name)
    }
}

/// The last status recorded in `s` for the level named `name`, or -2 where
/// there is none.
pub open spec fn last_level_status(s: Seq<UserLevelStatus>, name: Seq<char>) -> i8
    decreases s.len(),
{
    if s.len() == 0 {
        -2i8
    } else if s.last().level_name@ == name {
        s.last().level_status
    } else {
        last_level_status(s.drop_last(), name)
    }
}

/// The level named `name` has no status in `s`: none is recorded, or the
/// last one recorded is -2.
pub open spec fn level_missing(s: Seq<UserLevelStatus>, name: Seq<char>) -> bool {
    last_level_status(s, name) == -2
}

/// How many of the gun statuses `s` are for the gun named `gun`.
pub open spec fn guns_named(s: Seq<UserGunStatus>, gun: Seq<char>) -> nat
    decreases s.len(),
{
    if s.len() == 0 {
        0
    } else {
        guns_named(s.drop_last(), gun) + if s.last().gun_recognition_name@ == gun {
            1nat
        } else {
            0nat
        }
    }
}

/// The position of the last of the gun statuses `s` for the gun named
/// `gun` (meaningful where there is one).
pub open spec fn last_gun(s: Seq<UserGunStatus>, gun: Seq<char>) -> int
    decreases s.len(),
{
    if s.len() == 0 {
        0
    } else if s.last().gun_recognition_name@ == gun {
        s.len() - 1
    } else {
        last_gun(s.drop_last(), gun)
    }
}

/// The last status for a gun is where a later one would not be.
pub proof fn lemma_last_gun(s: Seq<UserGunStatus>, gun: Seq<char>, k: int)
    requires
        0 <= k < s.len(),
        s[k].gun_recognition_name@ == gun,
        forall|j: int| k < j < s.len() ==> #[trigger] s[j].gun_recognition_name@ != gun,
    ensures
        last_gun(s, gun) == k,
    decreases s.len(),
{
    if k < s.len() - 1 {
        let t = s.drop_last();
        assert(s.last() == s[s.len() - 1]);
        assert forall|j: int| k < j < t.len() implies #[trigger] t[j].gun_recognition_name@ != gun by {
            assert(t[j] == s[j]);
        }
        lemma_last_gun(t, gun, k);
    }
}

impl User {
    /// No key occurs twice in the settings.
    pub open spec fn wf(&self) -> bool {
        keys_unique(self.settings@)
    }

    /// Whether the save file has a status for the level named `level_name`.
    pub open spec fn has_level(&self, level_name: Seq<char>) -> bool {
        exists|i: int| 0 <= i < self.level_status.len() && #[trigger] self.level_status@[i].level_name@ == level_name
    }

    /// How the player stands on the level named `level_name`: the first
    /// status recorded for it, or -1 (locked) where there is none.
    pub fn level_status_of(&self, level_name: &str) -> (r: i8)
        ensures
            r == first_level_status(self.level_status@, level_name@),
            !self.has_level(level_name@) ==> r == -1,
    {
        let key = level_name.to_owned();
        let mut i: usize = 0;
        assert(self.level_status@.skip(0) =~= self.level_status@);
        while i < self.level_status.len()
            invariant
                0 <= i <= self.level_status.len(),
                key@ == level_name@,
                first_level_status(self.level_status@, level_name@) == first_level_status(
                    self.level_status@.skip(i as int),
                    level_name@,
                ),
                forall|j: int| 0 <= j < i ==> #[trigger] self.level_status@[j].level_name@ != level_name@,
            decreases self.level_status.len() - i,
        {
            let ghost t = self.level_status@.skip(i as int);
            assert(t[0] == self.level_status@[i as int]);
            assert(t.drop_first() =~= self.level_status@.skip(i + 1));
            if self.level_status[i].level_name == key {
                return self.level_status[i].level_status;
            }
            i = i + 1;
        }
        -1
    }

    /// Gives a level of the current map the status it starts with, where
    /// the save file has none for it yet, or where the last status recorded
    /// for it is -2 (which marks a level with no status).
    pub fn ensure_level_status(&mut self, level_name: &str, level_map: &str, initial_status: i8)
        ensures
            !level_missing(old(self).level_status@, level_name@) ==> *final(self) == *old(self),
            level_missing(old(self).level_status@, level_name@) ==> {
                &&& final(self).level_status@.len() == old(self).level_status@.len() + 1
                &&& final(self).level_status@.take(old(self).level_status@.len() as int) == old(self).level_status@
                &&& final(self).level_status@.last()@ == (LevelStatusView {
                    level_name: level_name@,
                    level_map: level_map@,
                    level_status: initial_status,
                })
                &&& final(self).name == old(self).name
                &&& final(self).gun_status == old(self).gun_status
                &&& final(self).map_status == old(self).map_status
                &&& final(self).settings == old(self).settings
            },
    {
        let key = level_name.to_owned();
        let mut status: i8 = -2;
        let mut i: usize = 0;
        while i < self.level_status.len()
            invariant
                0 <= i <= self.level_status.len(),
                key@ == level_name@,
                status == last_level_status(self.level_status@.take(i as int), level_name@),
            decreases self.level_status.len() - i,
        {
            assert(self.level_status@.take(i + 1).drop_last() =~= self.level_status@.take(i as int));
            if self.level_status[i].level_name == key {
                status = self.level_status[i].level_status;
            }
            i = i + 1;
        }
        assert(self.level_status@.take(self.level_status.len() as int) =~= self.level_status@);
        if status != -2 {
            return;
        }
        let ghost before = self.level_status@;
        self.level_status.push(
            UserLevelStatus { level_name: key, level_map: level_map.to_owned(), level_status: initial_status },
        );
        assert(self.level_status@.take(before.len() as int) =~= before);
    }

    /// Whether the save file has a status for the gun named `gun`.
    pub open spec fn has_gun(&self, gun: Seq<char>) -> bool {
        exists|i: int| 0 <= i < self.gun_status.len() && #[trigger] self.gun_status@[i].gun_recognition_name@ == gun
    }

    /// Gives a gun the level it starts with, where the save file has no
    /// status for it yet, and gives the position of the last status recorded
    /// for it.
    pub fn ensure_gun_status(&mut self, gun: &str, initial_level: i32) -> (r: usize)
        ensures
            old(self).has_gun(gun@) ==> final(self).gun_status == old(self).gun_status,
            !old(self).has_gun(gun@) ==> {
                &&& final(self).gun_status@.len() == old(self).gun_status@.len() + 1
                &&& final(self).gun_status@.take(old(self).gun_status@.len() as int) == old(self).gun_status@
                &&& final(self).gun_status@.last()@ == (GunStatusView {
                    gun_recognition_name: gun@,
                    gun_level: initial_level,
                })
            },
            r < final(self).gun_status.len(),
            final(self).gun_status@[r as int].gun_recognition_name@ == gun@,
            forall|j: int| r < j < final(self).gun_status.len() ==> #[trigger] final(self).gun_status@[j].gun_recognition_name@ != gun@,
            final(self).level_status == old(self).level_status,
            final(self).map_status == old(self).map_status,
            final(self).settings == old(self).settings,
            final(self).name == old(self).name,
    {
        let key = gun.to_owned();
        let mut found = false;
        let mut i: usize = 0;
        while i < self.gun_status.len()
            invariant
                0 <= i <= self.gun_status.len(),
                key@ == gun@,
                found == exists|j: int| 0 <= j < i && #[trigger] self.gun_status@[j].gun_recognition_name@ == gun@,
            decreases self.gun_status.len() - i,
        {
            if self.gun_status[i].gun_recognition_name == key {
                found = true;
            }
            i = i + 1;
        }
        if !found {
            let ghost before = self.gun_status@;
            self.gun_status.push(UserGunStatus { gun_recognition_name: key.clone(), gun_level: initial_level });
            assert(self.gun_status@.take(before.len() as int) =~= before);
            assert(self.gun_status@[before.len() as int].gun_recognition_name@ == gun@);
        }
        let mut last: usize = 0;
        let mut j: usize = 0;
        let mut seen = false;
        while j < self.gun_status.len()
            invariant
                0 <= j <= self.gun_status.len(),
                key@ == gun@,
                self.has_gun(gun@),
                seen ==> last < j && self.gun_status@[last as int].gun_recognition_name@ == gun@,
                seen ==> forall|k: int| last < k < j ==> #[trigger] self.gun_status@[k].gun_recognition_name@ != gun@,
                !seen ==> forall|k: int| 0 <= k < j ==> #[trigger] self.gun_status@[k].gun_recognition_name@ != gun@,
            decreases self.gun_status.len() - j,
        {
            if self.gun_status[j].gun_recognition_name == key {
                last = j;
                seen = true;
            }
            j = j + 1;
        }
        last
    }

    /// How many times the gun named `gun` joins the guns of an operation,
    /// once the save file has a status for it (given the level it starts
    /// with where it had none): once for each status recorded for it, when
    /// the last of them does not leave it locked (level -1); else never.
    pub fn gun_copies(&mut self, gun: &str, initial_level: i32) -> (r: usize)
        ensures
            old(self).has_gun(gun@) ==> final(self).gun_status == old(self).gun_status,
            !old(self).has_gun(gun@) ==> {
                &&& final(self).gun_status@.len() == old(self).gun_status@.len() + 1
                &&& final(self).gun_status@.take(old(self).gun_status@.len() as int) == old(self).gun_status@
                &&& final(self).gun_status@.last()@ == (GunStatusView {
                    gun_recognition_name: gun@,
                    gun_level: initial_level,
                })
            },
            final(self).level_status == old(self).level_status,
            final(self).map_status == old(self).map_status,
            final(self).settings == old(self).settings,
            final(self).name == old(self).name,
            r == (if final(self).gun_status@[last_gun(final(self).gun_status@, gun@)].gun_level != -1 {
                guns_named(final(self).gun_status@, gun@)
            } else {
                0
            }),
    {
        let last = self.ensure_gun_status(gun, initial_level);
        proof {
            lemma_last_gun(self.gun_status@, gun@, last as int);
        }
        let key = gun.to_owned();
        let unlocked = self.gun_status[last].gun_level != -1;
        let mut count: usize = 0;
        let mut i: usize = 0;
        while i < self.gun_status.len()
            invariant
                0 <= i <= self.gun_status.len(),
                key@ == gun@,
                count == guns_named(self.gun_status@.take(i as int), gun@),
                count <= i,
            decreases self.gun_status.len() - i,
        {
            assert(self.gun_status@.take(i + 1).drop_last() =~= self.gun_status@.take(i as int));
            if self.gun_status[i].gun_recognition_name == key {
                count = count + 1;
            }
            i = i + 1;
        }
        assert(self.gun_status@.take(self.gun_status.len() as int) =~= self.gun_status@);
        if unlocked {
            count
        } else {
            0
        }
    }

    pub fn from_json_value(value: &JsonNode) -> (r: Option<User>)
        ensures
            match r {
                Some(u) => u.wf() && user_from_json(value@) == Some(u@),
                None => user_from_json(value@) is None,
            },
    {
        let settings = read_settings(value.get("settings"));
        let name = value.str_field("name")?;
        let password = value.str_field("password")?;
        let language = value.u8_field("language")?;
        let wallpaper = value.str_field("wallpaper")?;
        let current_map = value.str_field("current_map")?;
        let level_status = read_level_status(value.array_field("level_status"));
        let gun_status = read_gun_status(value.array_field("gun_status"));
        let map_status = read_map_status(value.array_field("map_status"));
        let current_level = value.str_field("current_level")?;
        let u = User {
            name,
            password,
            language,
            wallpaper,
            current_map,
            level_status,
            gun_status,
            map_status,
            settings,
            current_level,
        };
        assert(u@.level_status == u.level_status@.map_values(|x: UserLevelStatus| x@));
        Some(u)
    }

    pub fn to_json_value(&self) -> (r: JsonNode)
        requires
            forall|i: int|
                0 <= i < self.level_status.len() ==> #[trigger] self.level_status@[i].level_status
                    != i8::MIN,
            forall|i: int|
                0 <= i < self.gun_status.len() ==> #[trigger] self.gun_status@[i].gun_level
                    != i32::MIN,
        ensures
            r@ == user_to_json(*self),
    {
        let mut f: Vec<(String, JsonNode)> = Vec::new();
        push_field(&mut f, "name", JsonNode::Str(self.name.clone()));
        push_field(&mut f, "password", JsonNode::Str(self.password.clone()));
        push_field(&mut f, "language", JsonNode::Number(JsonNumber::from_u64(self.language as u64)));
        push_field(&mut f, "wallpaper", JsonNode::Str(self.wallpaper.clone()));
        push_field(&mut f, "current_map", JsonNode::Str(self.current_map.clone()));

        let mut levels: Vec<JsonNode> = Vec::new();
        let mut i: usize = 0;
        while i < self.level_status.len()
            invariant
                0 <= i <= self.level_status.len(),
                forall|k: int|
                    0 <= k < self.level_status.len() ==> #[trigger] self.level_status@[k].level_status
                        != i8::MIN,
                view_nodes(levels@) == self@.level_status.take(i as int).map_values(level_to_json()),
            decreases self.level_status.len() - i,
        {
            let x = self.level_status[i].to_json_value();
            proof {
                lemma_view_nodes_push(levels@, x);
            }
            levels.push(x);
            assert(self@.level_status.take(i + 1).map_values(level_to_json()) =~= self@.level_status.take(
                i as int,
            ).map_values(level_to_json()).push(level_to_json()(self.level_status@[i as int]@)));
            i = i + 1;
        }
        assert(self@.level_status.take(i as int) =~= self@.level_status);
        push_field(&mut f, "level_status", JsonNode::Array(levels));

        let mut guns: Vec<JsonNode> = Vec::new();
        let mut i: usize = 0;
        while i < self.gun_status.len()
            invariant
                0 <= i <= self.gun_status.len(),
                forall|k: int|
                    0 <= k < self.gun_status.len() ==> #[trigger] self.gun_status@[k].gun_level
                        != i32::MIN,
                view_nodes(guns@) == self@.gun_status.take(i as int).map_values(gun_to_json()),
            decreases self.gun_status.len() - i,
        {
            let x = self.gun_status[i].to_json_value();
            proof {
                lemma_view_nodes_push(guns@, x);
            }
            guns.push(x);
            assert(self@.gun_status.take(i + 1).map_values(gun_to_json()) =~= self@.gun_status.take(
                i as int,
            ).map_values(gun_to_json()).push(gun_to_json()(self.gun_status@[i as int]@)));
            i = i + 1;
        }
        assert(self@.gun_status.take(i as int) =~= self@.gun_status);
        push_field(&mut f, "gun_status", JsonNode::Array(guns));

        let mut maps: Vec<JsonNode> = Vec::new();
        let mut i: usize = 0;
        while i < self.map_status.len()
            invariant
                0 <= i <= self.map_status.len(),
                view_nodes(maps@) == self@.map_status.take(i as int).map_values(map_to_json()),
            decreases self.map_status.len() - i,
        {
            let x = self.map_status[i].to_json_value();
            proof {
                lemma_view_nodes_push(maps@, x);
            }
            maps.push(x);
            assert(self@.map_status.take(i + 1).map_values(map_to_json()) =~= self@.map_status.take(
                i as int,
            ).map_values(map_to_json()).push(map_to_json()(self.map_status@[i as int]@)));
            i = i + 1;
        }
        assert(self@.map_status.take(i as int) =~= self@.map_status);
        push_field(&mut f, "map_status", JsonNode::Array(maps));

        let mut settings: Vec<(String, JsonNode)> = Vec::new();
        let mut i: usize = 0;
        while i < self.settings.len()
            invariant
                0 <= i <= self.settings.len(),
                view_fields(settings@) == self.settings@.take(i as int).map_values(
                    setting_to_json(),
                ),
            decreases self.settings.len() - i,
        {
            push_field(&mut settings, self.settings[i].0.as_str(), JsonNode::Str(self.settings[i].1.clone()));
            assert(self.settings@.take(i + 1).map_values(setting_to_json()) =~= self.settings@.take(
                i as int,
            ).map_values(setting_to_json()).push(setting_to_json()(self.settings@[i as int])));
            i = i + 1;
        }
        assert(self.settings@.take(i as int) =~= self.settings@);
        push_field(&mut f, "settings", JsonNode::Object(settings));
        push_field(&mut f, "current_level", JsonNode::Str(self.current_level.clone()));
        assert(view_fields(f@) =~= user_to_json(*self)->Object_0);
        JsonNode::Object(f)
    }
}

proof fn lemma_settings_round_trip(s: Seq<(String, String)>)
    ensures
        settings_table(s.map_values(setting_to_json())) == entry_map(s),
    decreases s.len(),
{
    if s.len() > 0 {
        lemma_settings_round_trip(s.drop_last());
        assert(s.map_values(setting_to_json()).drop_last() =~= s.drop_last().map_values(
            setting_to_json(),
        ));
        assert(s.map_values(setting_to_json()).last() == setting_to_json()(s.last()));
    }
}

/// Reading back the document that a save file is written as gives the same
/// save file, except for the map statuses: they are written with their flag
/// under `map_status` and read from `map_unlock_status`, so none comes back.
pub proof fn user_json_round_trip(u: User)
    ensures
        user_from_json(user_to_json(u)) == Some(UserView { map_status: Seq::empty(), ..u@ }),
{
    reveal_strlit("name");
    reveal_strlit("password");
    reveal_strlit("language");
    reveal_strlit("wallpaper");
    reveal_strlit("current_map");
    reveal_strlit("level_status");
    reveal_strlit("gun_status");
    reveal_strlit("map_status");
    reveal_strlit("settings");
    reveal_strlit("current_level");
    reveal_strlit("level_name");
    reveal_strlit("level_map");
    reveal_strlit("gun_recognition_name");
    reveal_strlit("gun_level");
    reveal_strlit("map_name");
    reveal_strlit("map_unlock_status");
    let f = user_to_json(u)->Object_0;
    assert(f[0].0 == "name"@ && f[1].0 == "password"@ && f[2].0 == "language"@);
    assert(f[3].0 == "wallpaper"@ && f[4].0 == "current_map"@ && f[5].0 == "level_status"@);
    assert(f[6].0 == "gun_status"@ && f[7].0 == "map_status"@ && f[8].0 == "settings"@);
    assert(f[9].0 == "current_level"@);
    assert forall|i: int, j: int| 0 <= i < j < 10 implies #[trigger] f[i].0 != #[trigger] f[j].0 by {
        assert(f[i].0.len() != f[j].0.len() || f[i].0[0] != f[j].0[0]);
    }
    lemma_lookup_at(f, "name"@, 0);
    lemma_lookup_at(f, "password"@, 1);
    lemma_lookup_at(f, "language"@, 2);
    lemma_lookup_at(f, "wallpaper"@, 3);
    lemma_lookup_at(f, "current_map"@, 4);
    lemma_lookup_at(f, "level_status"@, 5);
    lemma_lookup_at(f, "gun_status"@, 6);
    lemma_lookup_at(f, "map_status"@, 7);
    lemma_lookup_at(f, "settings"@, 8);
    lemma_lookup_at(f, "current_level"@, 9);

    assert forall|l: LevelStatusView| #[trigger] level_of()(level_to_json()(l)) == Some(l) by {
        let g = level_to_json()(l)->Object_0;
        assert(g[0].0 == "level_name"@ && g[1].0 == "level_map"@ && g[2].0 == "level_status"@);
        lemma_lookup_at(g, "level_name"@, 0);
        lemma_lookup_at(g, "level_map"@, 1);
        lemma_lookup_at(g, "level_status"@, 2);
    }
    lemma_keep_some_inverse(u@.level_status, level_to_json(), level_of());

    assert forall|x: GunStatusView| #[trigger] gun_of()(gun_to_json()(x)) == Some(x) by {
        let g = gun_to_json()(x)->Object_0;
        assert(g[0].0 == "gun_recognition_name"@ && g[1].0 == "gun_level"@);
        lemma_lookup_at(g, "gun_recognition_name"@, 0);
        lemma_lookup_at(g, "gun_level"@, 1);
    }
    lemma_keep_some_inverse(u@.gun_status, gun_to_json(), gun_of());

    assert forall|x: MapStatusView| #[trigger] map_of()(map_to_json()(x)) is None by {
        let g = map_to_json()(x)->Object_0;
        assert(g[0].0 == "map_name"@ && g[1].0 == "map_status"@);
        assert forall|j: int| 0 <= j < g.len() implies #[trigger] g[j].0 != "map_unlock_status"@ by {
            assert(g[j].0.len() != "map_unlock_status"@.len());
        }
        lemma_lookup_absent(g, "map_unlock_status"@);
    }
    lemma_keep_some_none(u@.map_status, map_to_json(), map_of());

    lemma_settings_round_trip(u.settings@);
}

} // verus!
