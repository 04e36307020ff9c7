//! The records of guns, enemy paths and operations that the game reads
//! from its JSON files. Their decimal values are kept as the numbers the
//! documents hold (`JsonNumber`); the front end turns them into `f32`.
use vstd::prelude::*;
use crate::codec::{json_display, json_to_string};
use crate::game_text::{str_members, str_of, string_members};
use crate::json::{Json, JsonNode, JsonNumber, keep_some, lemma_keep_some_inverse, lemma_lookup_at, lemma_keep_some_step, lemma_view_nodes, lemma_view_nodes_push, push_field, view_fields, view_nodes};
use crate::unlock::{UnlockLevel, UnlockLevelView, UnlockMap, UnlockMapView, unlock_level_from_json, unlock_map_from_json};

verus! {

/// Reading a member as a number.
pub open spec fn number_of() -> spec_fn(Json) -> Option<JsonNumber> {
    |j: Json| match j {
        Json::Number(x) => Some(x),
        _ => None,
    }
}

/// The number zero, as a document writes `0`.
pub open spec fn zero_number() -> JsonNumber {
    JsonNumber { positive: true, mantissa: 0, exponent: 0 }
}

/// The member at position `i` of the array under `key` of `j` (none where
/// there is no such array or it is too short).
pub open spec fn member_at(j: Json, key: Seq<char>, i: int) -> Option<Json> {
    if 0 <= i < j.field(key).members().len() {
        Some(j.field(key).members()[i])
    } else {
        None
    }
}

/// The number a document is, if it is one.
pub fn node_number(n: &JsonNode) -> (r: Option<JsonNumber>)
    ensures
        r == number_of()(n@),
{
    match n {
        JsonNode::Number(x) => Some(*x),
        _ => None,
    }
}

/// The member at position `i` of the array under `key` of `d`.
pub fn node_member_at<'a>(d: &'a JsonNode, key: &str, i: usize) -> (r: Option<&'a JsonNode>)
    ensures
        match r {
            Some(n) => member_at(d@, key@, i as int) == Some(n@),
            None => member_at(d@, key@, i as int) is None,
        },
{
    match d.array_field(key) {
        Some(v) => {
            proof {
                lemma_view_nodes(v@);
            }
            if i < v.len() {
                Some(&v[i])
            } else {
                None
            }
        },
        None => None,
    }
}

/// The strings among the members of the array under `key` of `d`.
fn strings_at(d: &JsonNode, key: &str) -> (r: Vec<String>)
    ensures
        r.deep_view() == str_members(d@.field(key@).members()),
{
    match d.array_field(key) {
        Some(v) => string_members(v),
        None => {
            let r: Vec<String> = Vec::new();
            assert(r.deep_view() =~= str_members(Seq::<Json>::empty()));
            r
        },
    }
}

/// The numbers among the members of the array under `key` of `d`.
fn numbers_at(d: &JsonNode, key: &str) -> (r: Vec<JsonNumber>)
    ensures
        r@ == keep_some(d@.field(key@).members(), number_of()),
{
    let a = d.array_field(key);
    let mut out: Vec<JsonNumber> = Vec::new();
    let v = match a {
        Some(v) => v,
        None => {
            assert(out@ =~= keep_some(Seq::<Json>::empty(), number_of()));
            return out;
        },
    };
    let ghost s = view_nodes(v@);
    proof {
        lemma_view_nodes(v@);
    }
    let mut i: usize = 0;
    assert(out@ =~= keep_some(s.take(0), number_of()));
    while i < v.len()
        invariant
            0 <= i <= v.len(),
            s == view_nodes(v@),
            s.len() == v.len(),
            forall|j: int| 0 <= j < v.len() ==> #[trigger] s[j] == v@[j]@,
            out@ == keep_some(s.take(i as int), number_of()),
        decreases v.len() - i,
    {
        proof {
            lemma_keep_some_step(s, number_of(), i as int);
        }
        match node_number(&v[i]) {
            Some(x) => {
                out.push(x);
            },
            None => {},
        }
        i = i + 1;
    }
    assert(s.take(v.len() as int) =~= s);
    out
}

/// A leg of an enemy's path: the directions it moves in (up, down, left,
/// right) and how long the leg lasts.
#[derive(Clone, Copy, Debug)]
pub struct MovePath {
    pub move_status: [bool; 4],
    pub move_time: JsonNumber,
}

/// The leg of a path a document holds: the four directions must be there
/// as booleans and the time as a number, else there is none.
pub open spec fn move_path_from_json(j: Json) -> Option<MovePath> {
    match (
        member_at(j, "move_status"@, 0),
        member_at(j, "move_status"@, 1),
        member_at(j, "move_status"@, 2),
        member_at(j, "move_status"@, 3),
        number_of()(j.field("move_time"@)),
    ) {
        (Some(a), Some(b), Some(c), Some(d), Some(t)) => match (a.as_bool(), b.as_bool(), c.as_bool(), d.as_bool()) {
            (Some(a), Some(b), Some(c), Some(d)) => Some(MovePath { move_status: [a, b, c, d], move_time: t }),
            _ => None,
        },
        _ => None,
    }
}

fn bool_at(d: &JsonNode, key: &str, i: usize) -> (r: Option<bool>)
    ensures
        r == (match member_at(d@, key@, i as int) {
            Some(m) => m.as_bool(),
            None => None,
        }),
{
    match node_member_at(d, key, i) {
        Some(n) => n.as_bool(),
        None => None,
    }
}

impl MovePath {
    pub fn from_json_value(value: &JsonNode) -> (r: Option<MovePath>)
        ensures
            r == move_path_from_json(value@),
    {
        let a = bool_at(value, "move_status", 0)?;
        let b = bool_at(value, "move_status", 1)?;
        let c = bool_at(value, "move_status", 2)?;
        let d = bool_at(value, "move_status", 3)?;
        let t = match value.get("move_time") {
            Some(n) => node_number(n),
            None => None,
        }?;
        Some(MovePath { move_status: [a, b, c, d], move_time: t })
    }
}

/// A gun as its file describes it.
#[derive(Debug)]
pub struct Gun {
    pub gun_recognition_name: String,
    pub gun_name: Vec<String>,
    pub gun_size: [JsonNumber; 2],
    pub gun_image: String,
    pub gun_shoot_sound: String,
    pub gun_shoot_speed: JsonNumber,
    pub gun_reload_time: JsonNumber,
    pub gun_basic_damage: JsonNumber,
    pub gun_catridge_clip: u32,
    pub gun_recoil: JsonNumber,
    pub gun_temperature_degree: u32,
    pub gun_tag: Vec<String>,
    pub gun_initial_unlock: bool,
    pub gun_no_bullet_shoot_sound: String,
    pub gun_reload_sound: String,
    pub gun_reload_bullet_sound: String,
    pub gun_reload_interval: JsonNumber,
    pub gun_overheating_sound: String,
}

pub struct GunView {
    pub gun_recognition_name: Seq<char>,
    pub gun_name: Seq<Seq<char>>,
    pub gun_size: [JsonNumber; 2],
    pub gun_image: Seq<char>,
    pub gun_shoot_sound: Seq<char>,
    pub gun_shoot_speed: JsonNumber,
    pub gun_reload_time: JsonNumber,
    pub gun_basic_damage: JsonNumber,
    pub gun_catridge_clip: u32,
    pub gun_recoil: JsonNumber,
    pub gun_temperature_degree: u32,
    pub gun_tag: Seq<Seq<char>>,
    pub gun_initial_unlock: bool,
    pub gun_no_bullet_shoot_sound: Seq<char>,
    pub gun_reload_sound: Seq<char>,
    pub gun_reload_bullet_sound: Seq<char>,
    pub gun_reload_interval: JsonNumber,
    pub gun_overheating_sound: Seq<char>,
}

impl View for Gun {
    type V = GunView;

    open spec fn view(&self) -> GunView {
        GunView {
            gun_recognition_name: self.gun_recognition_name@,
            gun_name: self.gun_name.deep_view(),
            gun_size: self.gun_size,
            gun_image: self.gun_image@,
            gun_shoot_sound: self.gun_shoot_sound@,
            gun_shoot_speed: self.gun_shoot_speed,
            gun_reload_time: self.gun_reload_time,
            gun_basic_damage: self.gun_basic_damage,
            gun_catridge_clip: self.gun_catridge_clip,
            gun_recoil: self.gun_recoil,
            gun_temperature_degree: self.gun_temperature_degree,
            gun_tag: self.gun_tag.deep_view(),
            gun_initial_unlock: self.gun_initial_unlock,
            gun_no_bullet_shoot_sound: self.gun_no_bullet_shoot_sound@,
            gun_reload_sound: self.gun_reload_sound@,
            gun_reload_bullet_sound: self.gun_reload_bullet_sound@,
            gun_reload_interval: self.gun_reload_interval,
            gun_overheating_sound: self.gun_overheating_sound@,
        }
    }
}

/// The size of a gun a document holds: the numbers of its `gun_size`
/// array when there are exactly two, else zero by zero.
pub open spec fn gun_size_of(j: Json) -> [JsonNumber; 2] {
    let n = keep_some(j.field("gun_size"@).members(), number_of());
    if n.len() == 2 {
        [n[0], n[1]]
    } else {
        [zero_number(), zero_number()]
    }
}

/// The gun a document describes: its names, sounds and image must be there
/// as strings, its times, damage and recoil as numbers, its clip and heat
/// per shot as `u32` numbers and whether it starts unlocked as a boolean,
/// else there is none; its display names and tags are the strings among
/// their arrays.
pub open spec fn gun_from_json(j: Json) -> Option<GunView> {
    match (
        j.field("gun_recognition_name"@).as_str(),
        j.field("gun_image"@).as_str(),
        j.field("gun_shoot_sound"@).as_str(),
        number_of()(j.field("gun_shoot_speed"@)),
        number_of()(j.field("gun_reload_time"@)),
        number_of()(j.field("gun_basic_damage"@)),
        j.field("gun_catridge_clip"@).as_u32(),
        number_of()(j.field("gun_recoil"@)),
        j.field("gun_temperature_degree"@).as_u32(),
    ) {
        (Some(a), Some(b), Some(c), Some(d), Some(e), Some(f), Some(g), Some(h), Some(i)) => match (
            j.field("gun_initial_unlock"@).as_bool(),
            j.field("gun_no_bullet_shoot_sound"@).as_str(),
            j.field("gun_reload_bullet_sound"@).as_str(),
            j.field("gun_reload_sound"@).as_str(),
            number_of()(j.field("gun_reload_interval"@)),
            j.field("gun_overheating_sound"@).as_str(),
        ) {
            (Some(k), Some(l), Some(m), Some(n), Some(o), Some(p)) => Some(
                GunView {
                    gun_recognition_name: a,
                    gun_name: str_members(j.field("gun_name"@).members()),
                    gun_size: gun_size_of(j),
                    gun_image: b,
                    gun_shoot_sound: c,
                    gun_shoot_speed: d,
                    gun_reload_time: e,
                    gun_basic_damage: f,
                    gun_catridge_clip: g,
                    gun_recoil: h,
                    gun_temperature_degree: i,
                    gun_tag: str_members(j.field("gun_tag"@).members()),
                    gun_initial_unlock: k,
                    gun_no_bullet_shoot_sound: l,
                    gun_reload_sound: n,
                    gun_reload_bullet_sound: m,
                    gun_reload_interval: o,
                    gun_overheating_sound: p,
                },
            ),
            _ => None,
        },
        _ => None,
    }
}

fn number_field(d: &JsonNode, key: &str) -> (r: Option<JsonNumber>)
    ensures
        r == number_of()(d@.field(key@)),
{
    match d.get(key) {
        Some(n) => node_number(n),
        None => None,
    }
}

fn u32_field(d: &JsonNode, key: &str) -> (r: Option<u32>)
    ensures
        r == d@.field(key@).as_u32(),
{
    match d.get(key) {
        Some(n) => n.as_u32(),
        None => None,
    }
}

impl Gun {
    pub fn from_json_value(value: &JsonNode) -> (r: Option<Gun>)
        ensures
            match r {
                Some(g) => gun_from_json(value@) == Some(g@),
                None => gun_from_json(value@) is None,
            },
    {
        let gun_recognition_name = value.str_field("gun_recognition_name")?;
        let gun_name = strings_at(value, "gun_name");
        let sizes = numbers_at(value, "gun_size");
        let gun_size = if sizes.len() == 2 {
            [sizes[0], sizes[1]]
        } else {
            [JsonNumber { positive: true, mantissa: 0, exponent: 0 }, JsonNumber {
                positive: true,
                mantissa: 0,
                exponent: 0,
            }]
        };
        let gun_image = value.str_field("gun_image")?;
        let gun_shoot_sound = value.str_field("gun_shoot_sound")?;
        let gun_shoot_speed = number_field(value, "gun_shoot_speed")?;
        let gun_reload_time = number_field(value, "gun_reload_time")?;
        let gun_basic_damage = number_field(value, "gun_basic_damage")?;
        let gun_catridge_clip = u32_field(value, "gun_catridge_clip")?;
        let gun_recoil = number_field(value, "gun_recoil")?;
        let gun_temperature_degree = u32_field(value, "gun_temperature_degree")?;
        let gun_tag = strings_at(value, "gun_tag");
        let gun_initial_unlock = value.bool_field("gun_initial_unlock")?;
        let gun_no_bullet_shoot_sound = value.str_field("gun_no_bullet_shoot_sound")?;
        let gun_reload_bullet_sound = value.str_field("gun_reload_bullet_sound")?;
        let gun_reload_sound = value.str_field("gun_reload_sound")?;
        let gun_reload_interval = number_field(value, "gun_reload_interval")?;
        let gun_overheating_sound = value.str_field("gun_overheating_sound")?;
        Some(
            Gun {
                gun_recognition_name,
                gun_name,
                gun_size,
                gun_image,
                gun_shoot_sound,
                gun_shoot_speed,
                gun_reload_time,
                gun_basic_damage,
                gun_catridge_clip,
                gun_recoil,
                gun_temperature_degree,
                gun_tag,
                gun_initial_unlock,
                gun_no_bullet_shoot_sound,
                gun_reload_sound,
                gun_reload_bullet_sound,
                gun_reload_interval,
                gun_overheating_sound,
            },
        )
    }
}

/// Reading a member as a point: an array whose first two members are
/// numbers.
pub open spec fn point_of() -> spec_fn(Json) -> Option<[JsonNumber; 2]> {
    |j: Json| match j {
        Json::Array(a) => if a.len() >= 2 {
            match (number_of()(a[0]), number_of()(a[1])) {
                (Some(x), Some(y)) => Some([x, y]),
                _ => None,
            }
        } else {
            None
        },
        _ => None,
    }
}

/// The whole of an operation: the target points, the rounds in stock, the
/// cost points and how fast they recover, the instrument ceiling, the
/// target line the enemies must not cross, and the backgrounds.
#[derive(Debug)]
pub struct OperationGlobal {
    pub target_point: u32,
    pub storage_bullet: u32,
    pub cost: u32,
    pub cost_recover_speed: JsonNumber,
    pub instrument_ceiling: u32,
    pub target_line: Vec<[JsonNumber; 2]>,
    pub operation_background: String,
    pub operation_background_expand: String,
    pub operation_start_background: String,
    pub operation_over_background: String,
}

pub struct OperationGlobalView {
    pub target_point: u32,
    pub storage_bullet: u32,
    pub cost: u32,
    pub cost_recover_speed: JsonNumber,
    pub instrument_ceiling: u32,
    pub target_line: Seq<[JsonNumber; 2]>,
    pub operation_background: Seq<char>,
    pub operation_background_expand: Seq<char>,
    pub operation_start_background: Seq<char>,
    pub operation_over_background: Seq<char>,
}

impl View for OperationGlobal {
    type V = OperationGlobalView;

    open spec fn view(&self) -> OperationGlobalView {
        OperationGlobalView {
            target_point: self.target_point,
            storage_bullet: self.storage_bullet,
            cost: self.cost,
            cost_recover_speed: self.cost_recover_speed,
            instrument_ceiling: self.instrument_ceiling,
            target_line: self.target_line@,
            operation_background: self.operation_background@,
            operation_background_expand: self.operation_background_expand@,
            operation_start_background: self.operation_start_background@,
            operation_over_background: self.operation_over_background@,
        }
    }
}

/// The whole of an operation a document holds: each count must be there as
/// a `u32` number, the recovery speed as a number and the backgrounds as
/// strings, else there is none; the target line is made of the members of
/// its array that are points.
pub open spec fn operation_global_from_json(j: Json) -> Option<OperationGlobalView> {
    match (
        j.field("target_point"@).as_u32(),
        j.field("storage_bullet"@).as_u32(),
        j.field("cost"@).as_u32(),
        number_of()(j.field("cost_recover_speed"@)),
        j.field("instrument_ceiling"@).as_u32(),
        j.field("operation_background"@).as_str(),
        j.field("operation_background_expand"@).as_str(),
        j.field("operation_start_background"@).as_str(),
        j.field("operation_over_background"@).as_str(),
    ) {
        (Some(a), Some(b), Some(c), Some(d), Some(e), Some(f), Some(g), Some(h), Some(i)) => Some(
            OperationGlobalView {
                target_point: a,
                storage_bullet: b,
                cost: c,
                cost_recover_speed: d,
                instrument_ceiling: e,
                target_line: keep_some(j.field("target_line"@).members(), point_of()),
                operation_background: f,
                operation_background_expand: g,
                operation_start_background: h,
                operation_over_background: i,
            },
        ),
        _ => None,
    }
}

/// The point a document is, if it is one.
fn node_point(n: &JsonNode) -> (r: Option<[JsonNumber; 2]>)
    ensures
        r == point_of()(n@),
{
    match n.as_array() {
        Some(a) => {
            proof {
                lemma_view_nodes(a@);
            }
            if a.len() >= 2 {
                match (node_number(&a[0]), node_number(&a[1])) {
                    (Some(x), Some(y)) => Some([x, y]),
                    _ => None,
                }
            } else {
                None
            }
        },
        None => None,
    }
}

/// The points among the members of the array under `key` of `d`.
fn points_at(d: &JsonNode, key: &str) -> (r: Vec<[JsonNumber; 2]>)
    ensures
        r@ == keep_some(d@.field(key@).members(), point_of()),
{
    let a = d.array_field(key);
    let mut out: Vec<[JsonNumber; 2]> = Vec::new();
    let v = match a {
        Some(v) => v,
        None => {
            assert(out@ =~= keep_some(Seq::<Json>::empty(), point_of()));
            return out;
        },
    };
    let ghost s = view_nodes(v@);
    proof {
        lemma_view_nodes(v@);
    }
    let mut i: usize = 0;
    assert(out@ =~= keep_some(s.take(0), point_of()));
    while i < v.len()
        invariant
            0 <= i <= v.len(),
            s == view_nodes(v@),
            s.len() == v.len(),
            forall|j: int| 0 <= j < v.len() ==> #[trigger] s[j] == v@[j]@,
            out@ == keep_some(s.take(i as int), point_of()),
        decreases v.len() - i,
    {
        proof {
            lemma_keep_some_step(s, point_of(), i as int);
        }
        match node_point(&v[i]) {
            Some(x) => {
                out.push(x);
            },
            None => {},
        }
        i = i + 1;
    }
    assert(s.take(v.len() as int) =~= s);
    out
}

impl OperationGlobal {
    pub fn from_json_value(value: &JsonNode) -> (r: Option<OperationGlobal>)
        ensures
            match r {
                Some(g) => operation_global_from_json(value@) == Some(g@),
                None => operation_global_from_json(value@) is None,
            },
    {
        let target_point = u32_field(value, "target_point")?;
        let storage_bullet = u32_field(value, "storage_bullet")?;
        let cost = u32_field(value, "cost")?;
        let cost_recover_speed = number_field(value, "cost_recover_speed")?;
        let instrument_ceiling = u32_field(value, "instrument_ceiling")?;
        let target_line = points_at(value, "target_line");
        let operation_background = value.str_field("operation_background")?;
        let operation_background_expand = value.str_field("operation_background_expand")?;
        let operation_start_background = value.str_field("operation_start_background")?;
        let operation_over_background = value.str_field("operation_over_background")?;
        Some(
            OperationGlobal {
                target_point,
                storage_bullet,
                cost,
                cost_recover_speed,
                instrument_ceiling,
                target_line,
                operation_background,
                operation_background_expand,
                operation_start_background,
                operation_over_background,
            },
        )
    }
}

/// The texts of the members of an array, each as its `Display` writes it.
pub open spec fn texts_of(s: Seq<Json>) -> Seq<Seq<char>> {
    s.map_values(|j: Json| json_display(j))
}

/// The texts of the members of the array under `key` of `d`.
fn texts_at(d: &JsonNode, key: &str) -> (r: Vec<String>)
    ensures
        r.deep_view() == texts_of(d@.field(key@).members()),
{
    let mut out: Vec<String> = Vec::new();
    let v = match d.array_field(key) {
        Some(v) => v,
        None => {
            assert(out.deep_view() =~= texts_of(Seq::<Json>::empty()));
            return out;
        },
    };
    let ghost s = view_nodes(v@);
    proof {
        lemma_view_nodes(v@);
    }
    let mut i: usize = 0;
    while i < v.len()
        invariant
            0 <= i <= v.len(),
            s == view_nodes(v@),
            s.len() == v.len(),
            forall|j: int| 0 <= j < v.len() ==> #[trigger] s[j] == v@[j]@,
            out.deep_view() == texts_of(s.take(i as int)),
        decreases v.len() - i,
    {
        let t = json_to_string(&v[i]);
        let ghost before = out.deep_view();
        out.push(t);
        assert(texts_of(s.take(i + 1)) =~= texts_of(s.take(i as int)).push(json_display(s[i as int])));
        assert(out.deep_view() =~= before.push(t@));
        i = i + 1;
    }
    assert(s.take(v.len() as int) =~= s);
    out
}

/// The `u8` member at position `i` of the array under `key` of `j`.
pub open spec fn u8_at(j: Json, key: Seq<char>, i: int) -> Option<u8> {
    match member_at(j, key, i) {
        Some(m) => m.as_u8(),
        None => None,
    }
}

/// The number member at position `i` of the array under `key` of `j`.
pub open spec fn number_at(j: Json, key: Seq<char>, i: int) -> Option<JsonNumber> {
    match member_at(j, key, i) {
        Some(m) => number_of()(m),
        None => None,
    }
}

fn node_u8_at(d: &JsonNode, key: &str, i: usize) -> (r: Option<u8>)
    ensures
        r == u8_at(d@, key@, i as int),
{
    match node_member_at(d, key, i) {
        Some(n) => n.as_u8(),
        None => None,
    }
}

fn node_number_at(d: &JsonNode, key: &str, i: usize) -> (r: Option<JsonNumber>)
    ensures
        r == number_at(d@, key@, i as int),
{
    match node_member_at(d, key, i) {
        Some(n) => node_number(n),
        None => None,
    }
}

/// An enemy an operation places: which enemy, where, how large, the paths
/// it walks, when it comes, and how it fades in.
#[derive(Debug)]
pub struct OperationTargetEnemy {
    pub enemy_recognition_name: String,
    pub enemy_position: [JsonNumber; 2],
    pub enemy_size: [JsonNumber; 2],
    pub enemy_path: Vec<String>,
    pub enemy_approach_time: JsonNumber,
    pub enemy_approach_alpha: u8,
    pub enemy_increase_alpha_speed: u8,
}

pub struct OperationTargetEnemyView {
    pub enemy_recognition_name: Seq<char>,
    pub enemy_position: [JsonNumber; 2],
    pub enemy_size: [JsonNumber; 2],
    pub enemy_path: Seq<Seq<char>>,
    pub enemy_approach_time: JsonNumber,
    pub enemy_approach_alpha: u8,
    pub enemy_increase_alpha_speed: u8,
}

impl View for OperationTargetEnemy {
    type V = OperationTargetEnemyView;

    open spec fn view(&self) -> OperationTargetEnemyView {
        OperationTargetEnemyView {
            enemy_recognition_name: self.enemy_recognition_name@,
            enemy_position: self.enemy_position,
            enemy_size: self.enemy_size,
            enemy_path: self.enemy_path.deep_view(),
            enemy_approach_time: self.enemy_approach_time,
            enemy_approach_alpha: self.enemy_approach_alpha,
            enemy_increase_alpha_speed: self.enemy_increase_alpha_speed,
        }
    }
}

/// The enemy an operation places, as a document holds it: the name as a
/// string, the first two members of the position and size arrays as
/// numbers, the approach time as a number and the opacities as `u8`
/// numbers, else there is none; the paths are the texts of the members of
/// their array.
pub open spec fn target_enemy_from_json(j: Json) -> Option<OperationTargetEnemyView> {
    match (
        j.field("enemy_recognition_name"@).as_str(),
        number_at(j, "enemy_position"@, 0),
        number_at(j, "enemy_position"@, 1),
        number_at(j, "enemy_size"@, 0),
        number_at(j, "enemy_size"@, 1),
        number_of()(j.field("enemy_approach_time"@)),
        j.field("enemy_approach_alpha"@).as_u8(),
        j.field("enemy_increase_alpha_speed"@).as_u8(),
    ) {
        (Some(a), Some(b), Some(c), Some(d), Some(e), Some(f), Some(g), Some(h)) => Some(
            OperationTargetEnemyView {
                enemy_recognition_name: a,
                enemy_position: [b, c],
                enemy_size: [d, e],
                enemy_path: texts_of(j.field("enemy_path"@).members()),
                enemy_approach_time: f,
                enemy_approach_alpha: g,
                enemy_increase_alpha_speed: h,
            },
        ),
        _ => None,
    }
}

impl OperationTargetEnemy {
    pub fn from_json_value(value: &JsonNode) -> (r: Option<OperationTargetEnemy>)
        ensures
            match r {
                Some(e) => target_enemy_from_json(value@) == Some(e@),
                None => target_enemy_from_json(value@) is None,
            },
    {
        let enemy_recognition_name = value.str_field("enemy_recognition_name")?;
        let p0 = node_number_at(value, "enemy_position", 0)?;
        let p1 = node_number_at(value, "enemy_position", 1)?;
        let s0 = node_number_at(value, "enemy_size", 0)?;
        let s1 = node_number_at(value, "enemy_size", 1)?;
        let enemy_path = texts_at(value, "enemy_path");
        let enemy_approach_time = number_field(value, "enemy_approach_time")?;
        let enemy_approach_alpha = value.u8_field("enemy_approach_alpha")?;
        let enemy_increase_alpha_speed = value.u8_field("enemy_increase_alpha_speed")?;
        Some(
            OperationTargetEnemy {
                enemy_recognition_name,
                enemy_position: [p0, p1],
                enemy_size: [s0, s1],
                enemy_path,
                enemy_approach_time,
                enemy_approach_alpha,
                enemy_increase_alpha_speed,
            },
        )
    }
}

/// A message box an operation shows: its size, image, title and text in
/// each language, their colours, how long it stays (0: until closed) and
/// when it appears; `box_enable` until it has been shown.
#[derive(Debug)]
pub struct OperationMessageBox {
    pub box_size: [JsonNumber; 2],
    pub box_image_path: String,
    pub box_title: Vec<String>,
    pub box_content: Vec<String>,
    pub box_title_color: [u8; 4],
    pub box_content_color: [u8; 4],
    pub box_existing_time: JsonNumber,
    pub box_appear_time: JsonNumber,
    pub box_enable: bool,
}

pub struct OperationMessageBoxView {
    pub box_size: [JsonNumber; 2],
    pub box_image_path: Seq<char>,
    pub box_title: Seq<Seq<char>>,
    pub box_content: Seq<Seq<char>>,
    pub box_title_color: [u8; 4],
    pub box_content_color: [u8; 4],
    pub box_existing_time: JsonNumber,
    pub box_appear_time: JsonNumber,
    pub box_enable: bool,
}

impl View for OperationMessageBox {
    type V = OperationMessageBoxView;

    open spec fn view(&self) -> OperationMessageBoxView {
        OperationMessageBoxView {
            box_size: self.box_size,
            box_image_path: self.box_image_path@,
            box_title: self.box_title.deep_view(),
            box_content: self.box_content.deep_view(),
            box_title_color: self.box_title_color,
            box_content_color: self.box_content_color,
            box_existing_time: self.box_existing_time,
            box_appear_time: self.box_appear_time,
            box_enable: self.box_enable,
        }
    }
}

/// A colour as a document holds it: the first four members of its array,
/// as `u8` numbers.
pub open spec fn color_at(j: Json, key: Seq<char>) -> Option<[u8; 4]> {
    match (u8_at(j, key, 0), u8_at(j, key, 1), u8_at(j, key, 2), u8_at(j, key, 3)) {
        (Some(a), Some(b), Some(c), Some(d)) => Some([a, b, c, d]),
        _ => None,
    }
}

fn node_color_at(d: &JsonNode, key: &str) -> (r: Option<[u8; 4]>)
    ensures
        r == color_at(d@, key@),
{
    let a = node_u8_at(d, key, 0)?;
    let b = node_u8_at(d, key, 1)?;
    let c = node_u8_at(d, key, 2)?;
    let e = node_u8_at(d, key, 3)?;
    Some([a, b, c, e])
}

/// The message box an operation shows, as a document holds it: the size,
/// colours and times must be there, the image path as a string, else there
/// is none; the title and text are the texts of the members of their
/// arrays; it is still to be shown.
pub open spec fn message_box_from_json(j: Json) -> Option<OperationMessageBoxView> {
    match (
        number_at(j, "box_size"@, 0),
        number_at(j, "box_size"@, 1),
        j.field("box_image_path"@).as_str(),
        color_at(j, "box_title_color"@),
        color_at(j, "box_content_color"@),
        number_of()(j.field("box_existing_time"@)),
        number_of()(j.field("box_appear_time"@)),
    ) {
        (Some(a), Some(b), Some(c), Some(d), Some(e), Some(f), Some(g)) => Some(
            OperationMessageBoxView {
                box_size: [a, b],
                box_image_path: c,
                box_title: texts_of(j.field("box_title"@).members()),
                box_content: texts_of(j.field("box_content"@).members()),
                box_title_color: d,
                box_content_color: e,
                box_existing_time: f,
                box_appear_time: g,
                box_enable: true,
            },
        ),
        _ => None,
    }
}

impl OperationMessageBox {
    pub fn from_json_value(value: &JsonNode) -> (r: Option<OperationMessageBox>)
        ensures
            match r {
                Some(b) => message_box_from_json(value@) == Some(b@),
                None => message_box_from_json(value@) is None,
            },
    {
        let s0 = node_number_at(value, "box_size", 0)?;
        let s1 = node_number_at(value, "box_size", 1)?;
        let box_image_path = value.str_field("box_image_path")?;
        let box_title = texts_at(value, "box_title");
        let box_content = texts_at(value, "box_content");
        let box_title_color = node_color_at(value, "box_title_color")?;
        let box_content_color = node_color_at(value, "box_content_color")?;
        let box_existing_time = number_field(value, "box_existing_time")?;
        let box_appear_time = number_field(value, "box_appear_time")?;
        Some(
            OperationMessageBox {
                box_size: [s0, s1],
                box_image_path,
                box_title,
                box_content,
                box_title_color,
                box_content_color,
                box_existing_time,
                box_appear_time,
                box_enable: true,
            },
        )
    }
}

/// Each member of `s` read by `f`, or none where one of them does not read.
pub open spec fn all_of<A>(s: Seq<Json>, f: spec_fn(Json) -> Option<A>) -> Option<Seq<A>>
    decreases s.len(),
{
    if s.len() == 0 {
        Some(Seq::empty())
    } else {
        match (all_of(s.drop_last(), f), f(s.last())) {
            (Some(r), Some(a)) => Some(r.push(a)),
            _ => None,
        }
    }
}

/// Where all members read, so do all of any first ones.
pub proof fn lemma_all_of_prefix<A>(s: Seq<Json>, f: spec_fn(Json) -> Option<A>, k: int)
    requires
        0 <= k <= s.len(),
        all_of(s, f) is Some,
    ensures
        all_of(s.take(k), f) is Some,
    decreases s.len(),
{
    if k < s.len() {
        assert(s.drop_last().take(k) =~= s.take(k));
        lemma_all_of_prefix(s.drop_last(), f, k);
    } else {
        assert(s.take(k) =~= s);
    }
}

/// One member more read: the readings so far and the new one.
pub proof fn lemma_all_of_step<A>(s: Seq<Json>, f: spec_fn(Json) -> Option<A>, i: int)
    requires
        0 <= i < s.len(),
    ensures
        all_of(s.take(i + 1), f) == (match (all_of(s.take(i), f), f(s[i])) {
            (Some(r), Some(a)) => Some(r.push(a)),
            _ => None,
        }),
{
    assert(s.take(i + 1).drop_last() =~= s.take(i));
    assert(s.take(i + 1).last() == s[i]);
}

/// An operation: its whole, the enemies it places and the message boxes it
/// shows.
#[derive(Debug)]
pub struct Operation {
    pub global: OperationGlobal,
    pub target_enemy: Vec<OperationTargetEnemy>,
    pub message_box: Vec<OperationMessageBox>,
}

pub struct OperationView {
    pub global: OperationGlobalView,
    pub target_enemy: Seq<OperationTargetEnemyView>,
    pub message_box: Seq<OperationMessageBoxView>,
}

impl View for Operation {
    type V = OperationView;

    open spec fn view(&self) -> OperationView {
        OperationView {
            global: self.global@,
            target_enemy: self.target_enemy@.map_values(|e: OperationTargetEnemy| e@),
            message_box: self.message_box@.map_values(|b: OperationMessageBox| b@),
        }
    }
}

/// Reading a member as an enemy an operation places.
pub open spec fn target_enemy_of() -> spec_fn(Json) -> Option<OperationTargetEnemyView> {
    |m: Json| target_enemy_from_json(m)
}

/// Reading a member as a message box an operation shows.
pub open spec fn message_box_of() -> spec_fn(Json) -> Option<OperationMessageBoxView> {
    |m: Json| message_box_from_json(m)
}

/// The operation a document holds: its `global` member, and every member
/// of its `target_enemy` and `message_box` arrays, must read, else there is
/// none.
pub open spec fn operation_from_json(j: Json) -> Option<OperationView> {
    match (
        operation_global_from_json(j.field("global"@)),
        all_of(j.field("target_enemy"@).members(), target_enemy_of()),
        all_of(j.field("message_box"@).members(), message_box_of()),
    ) {
        (Some(g), Some(e), Some(b)) => Some(OperationView { global: g, target_enemy: e, message_box: b }),
        _ => None,
    }
}

fn read_target_enemies(d: &JsonNode) -> (r: Option<Vec<OperationTargetEnemy>>)
    ensures
        match r {
            Some(v) => all_of(d@.field("target_enemy"@).members(), target_enemy_of())
                == Some(v@.map_values(|e: OperationTargetEnemy| e@)),
            None => all_of(d@.field("target_enemy"@).members(), target_enemy_of()) is None,
        },
{
    let ghost f = target_enemy_of();
    let mut out: Vec<OperationTargetEnemy> = Vec::new();
    let v = match d.array_field("target_enemy") {
        Some(v) => v,
        None => {
            assert(out@.map_values(|e: OperationTargetEnemy| e@) =~= Seq::empty());
            return Some(out);
        },
    };
    let ghost s = view_nodes(v@);
    proof {
        lemma_view_nodes(v@);
    }
    let mut i: usize = 0;
    assert(s.take(0) =~= Seq::<Json>::empty());
    assert(out@.map_values(|e: OperationTargetEnemy| e@) =~= Seq::empty());
    while i < v.len()
        invariant
            0 <= i <= v.len(),
            s == view_nodes(v@),
            s == d@.field("target_enemy"@).members(),
            f == target_enemy_of(),
            s.len() == v.len(),
            forall|j: int| 0 <= j < v.len() ==> #[trigger] s[j] == v@[j]@,
            all_of(s.take(i as int), f) == Some(out@.map_values(|e: OperationTargetEnemy| e@)),
        decreases v.len() - i,
    {
        proof {
            lemma_all_of_step(s, f, i as int);
        }
        match OperationTargetEnemy::from_json_value(&v[i]) {
            Some(e) => {
                assert(s[i as int] == v@[i as int]@);
                assert(f(s[i as int]) == Some(e@));
                let ghost before = out@.map_values(|e: OperationTargetEnemy| e@);
                out.push(e);
                assert(out@.map_values(|e: OperationTargetEnemy| e@) =~= before.push(e@));
            },
            None => {
                proof {
                    assert(s[i as int] == v@[i as int]@);
                    assert(f(s[i as int]) is None);
                    if all_of(s, f) is Some {
                        lemma_all_of_prefix(s, f, i + 1);
                    }
                }
                return None;
            },
        }
        i = i + 1;
    }
    assert(s.take(v.len() as int) =~= s);
    Some(out)
}

fn read_message_boxes(d: &JsonNode) -> (r: Option<Vec<OperationMessageBox>>)
    ensures
        match r {
            Some(v) => all_of(d@.field("message_box"@).members(), message_box_of())
                == Some(v@.map_values(|b: OperationMessageBox| b@)),
            None => all_of(d@.field("message_box"@).members(), message_box_of()) is None,
        },
{
    let ghost f = message_box_of();
    let mut out: Vec<OperationMessageBox> = Vec::new();
    let v = match d.array_field("message_box") {
        Some(v) => v,
        None => {
            assert(out@.map_values(|b: OperationMessageBox| b@) =~= Seq::empty());
            return Some(out);
        },
    };
    let ghost s = view_nodes(v@);
    proof {
        lemma_view_nodes(v@);
    }
    let mut i: usize = 0;
    assert(s.take(0) =~= Seq::<Json>::empty());
    assert(out@.map_values(|b: OperationMessageBox| b@) =~= Seq::empty());
    while i < v.len()
        invariant
            0 <= i <= v.len(),
            s == view_nodes(v@),
            s == d@.field("message_box"@).members(),
            f == message_box_of(),
            s.len() == v.len(),
            forall|j: int| 0 <= j < v.len() ==> #[trigger] s[j] == v@[j]@,
            all_of(s.take(i as int), f) == Some(out@.map_values(|b: OperationMessageBox| b@)),
        decreases v.len() - i,
    {
        proof {
            lemma_all_of_step(s, f, i as int);
        }
        match OperationMessageBox::from_json_value(&v[i]) {
            Some(b) => {
                assert(s[i as int] == v@[i as int]@);
                assert(f(s[i as int]) == Some(b@));
                let ghost before = out@.map_values(|b: OperationMessageBox| b@);
                out.push(b);
                assert(out@.map_values(|b: OperationMessageBox| b@) =~= before.push(b@));
            },
            None => {
                proof {
                    assert(s[i as int] == v@[i as int]@);
                    assert(f(s[i as int]) is None);
                    if all_of(s, f) is Some {
                        lemma_all_of_prefix(s, f, i + 1);
                    }
                }
                return None;
            },
        }
        i = i + 1;
    }
    assert(s.take(v.len() as int) =~= s);
    Some(out)
}

impl Operation {
    pub fn from_json_value(value: &JsonNode) -> (r: Option<Operation>)
        ensures
            match r {
                Some(o) => operation_from_json(value@) == Some(o@),
                None => operation_from_json(value@) is None,
            },
    {
        let null = JsonNode::Null;
        let g = match value.get("global") {
            Some(n) => n,
            None => &null,
        };
        let global = OperationGlobal::from_json_value(g)?;
        let target_enemy = read_target_enemies(value)?;
        let message_box = read_message_boxes(value)?;
        Some(Operation { global, target_enemy, message_box })
    }
}

/// An enemy as its file describes it: its names, strength, looks, what it
/// costs when it gets through, and how fast it walks and moves its frames.
#[derive(Debug)]
pub struct JsonReadEnemy {
    pub enemy_recognition_name: String,
    pub enemy_name: Vec<String>,
    pub enemy_hp: JsonNumber,
    pub enemy_def: JsonNumber,
    pub enemy_speed: JsonNumber,
    pub enemy_invincible_time: JsonNumber,
    pub enemy_image_count: u32,
    pub enemy_tag: Vec<String>,
    pub enemy_image: String,
    pub enemy_image_type: String,
    pub enemy_minus_target_point: u32,
    pub enemy_walk_interval: JsonNumber,
    pub enemy_animation_interval: JsonNumber,
}

pub struct JsonReadEnemyView {
    pub enemy_recognition_name: Seq<char>,
    pub enemy_name: Seq<Seq<char>>,
    pub enemy_hp: JsonNumber,
    pub enemy_def: JsonNumber,
    pub enemy_speed: JsonNumber,
    pub enemy_invincible_time: JsonNumber,
    pub enemy_image_count: u32,
    pub enemy_tag: Seq<Seq<char>>,
    pub enemy_image: Seq<char>,
    pub enemy_image_type: Seq<char>,
    pub enemy_minus_target_point: u32,
    pub enemy_walk_interval: JsonNumber,
    pub enemy_animation_interval: JsonNumber,
}

impl View for JsonReadEnemy {
    type V = JsonReadEnemyView;

    open spec fn view(&self) -> JsonReadEnemyView {
        JsonReadEnemyView {
            enemy_recognition_name: self.enemy_recognition_name@,
            enemy_name: self.enemy_name.deep_view(),
            enemy_hp: self.enemy_hp,
            enemy_def: self.enemy_def,
            enemy_speed: self.enemy_speed,
            enemy_invincible_time: self.enemy_invincible_time,
            enemy_image_count: self.enemy_image_count,
            enemy_tag: self.enemy_tag.deep_view(),
            enemy_image: self.enemy_image@,
            enemy_image_type: self.enemy_image_type@,
            enemy_minus_target_point: self.enemy_minus_target_point,
            enemy_walk_interval: self.enemy_walk_interval,
            enemy_animation_interval: self.enemy_animation_interval,
        }
    }
}

/// The enemy a document describes: each member must be there with its type,
/// else there is none; the names and tags are the texts of the members of
/// their arrays.
pub open spec fn enemy_from_json(j: Json) -> Option<JsonReadEnemyView> {
    match (
        j.field("enemy_recognition_name"@).as_str(),
        number_of()(j.field("enemy_hp"@)),
        number_of()(j.field("enemy_def"@)),
        number_of()(j.field("enemy_speed"@)),
        number_of()(j.field("enemy_invincible_time"@)),
        j.field("enemy_image_count"@).as_u32(),
        j.field("enemy_image"@).as_str(),
        j.field("enemy_image_type"@).as_str(),
        j.field("enemy_minus_target_point"@).as_u32(),
    ) {
        (Some(a), Some(b), Some(c), Some(d), Some(e), Some(f), Some(g), Some(h), Some(i)) => match (
            number_of()(j.field("enemy_walk_interval"@)),
            number_of()(j.field("enemy_animation_interval"@)),
        ) {
            (Some(k), Some(l)) => Some(
                JsonReadEnemyView {
                    enemy_recognition_name: a,
                    enemy_name: texts_of(j.field("enemy_name"@).members()),
                    enemy_hp: b,
                    enemy_def: c,
                    enemy_speed: d,
                    enemy_invincible_time: e,
                    enemy_image_count: f,
                    enemy_tag: texts_of(j.field("enemy_tag"@).members()),
                    enemy_image: g,
                    enemy_image_type: h,
                    enemy_minus_target_point: i,
                    enemy_walk_interval: k,
                    enemy_animation_interval: l,
                },
            ),
            _ => None,
        },
        _ => None,
    }
}

impl JsonReadEnemy {
    pub fn from_json_value(value: &JsonNode) -> (r: Option<JsonReadEnemy>)
        ensures
            match r {
                Some(e) => enemy_from_json(value@) == Some(e@),
                None => enemy_from_json(value@) is None,
            },
    {
        let enemy_recognition_name = value.str_field("enemy_recognition_name")?;
        let enemy_hp = number_field(value, "enemy_hp")?;
        let enemy_def = number_field(value, "enemy_def")?;
        let enemy_speed = number_field(value, "enemy_speed")?;
        let enemy_invincible_time = number_field(value, "enemy_invincible_time")?;
        let enemy_image_count = u32_field(value, "enemy_image_count")?;
        let enemy_tag = texts_at(value, "enemy_tag");
        let enemy_image = value.str_field("enemy_image")?;
        let enemy_image_type = value.str_field("enemy_image_type")?;
        let enemy_minus_target_point = u32_field(value, "enemy_minus_target_point")?;
        let enemy_name = texts_at(value, "enemy_name");
        let enemy_walk_interval = number_field(value, "enemy_walk_interval")?;
        let enemy_animation_interval = number_field(value, "enemy_animation_interval")?;
        Some(
            JsonReadEnemy {
                enemy_recognition_name,
                enemy_name,
                enemy_hp,
                enemy_def,
                enemy_speed,
                enemy_invincible_time,
                enemy_image_count,
                enemy_tag,
                enemy_image,
                enemy_image_type,
                enemy_minus_target_point,
                enemy_walk_interval,
                enemy_animation_interval,
            },
        )
    }
}

/// Reading a member as a map that a level unlocks.
pub open spec fn unlock_map_of() -> spec_fn(Json) -> Option<UnlockMapView> {
    |j: Json| unlock_map_from_json(j)
}

/// Reading a member as a level that a level unlocks.
pub open spec fn unlock_level_of() -> spec_fn(Json) -> Option<UnlockLevelView> {
    |j: Json| unlock_level_from_json(j)
}

/// The maps that the members of the array under `key` of `d` unlock, where they read.
fn unlock_maps_at(d: &JsonNode, key: &str) -> (r: Vec<UnlockMap>)
    ensures
        r@.map_values(|x: UnlockMap| x@) == keep_some(d@.field(key@).members(), unlock_map_of()),
{
    let mut out: Vec<UnlockMap> = Vec::new();
    let v = match d.array_field(key) {
        Some(v) => v,
        None => {
            assert(out@.map_values(|x: UnlockMap| x@) =~= keep_some(Seq::<Json>::empty(), unlock_map_of()));
            return out;
        },
    };
    let ghost s = view_nodes(v@);
    proof {
        lemma_view_nodes(v@);
    }
    let mut i: usize = 0;
    assert(out@.map_values(|x: UnlockMap| x@) =~= keep_some(s.take(0), unlock_map_of()));
    while i < v.len()
        invariant
            0 <= i <= v.len(),
            s == view_nodes(v@),
            s.len() == v.len(),
            forall|j: int| 0 <= j < v.len() ==> #[trigger] s[j] == v@[j]@,
            out@.map_values(|x: UnlockMap| x@) == keep_some(s.take(i as int), unlock_map_of()),
        decreases v.len() - i,
    {
        proof {
            lemma_keep_some_step(s, unlock_map_of(), i as int);
        }
        let ghost before = out@.map_values(|x: UnlockMap| x@);
        match UnlockMap::from_json_value(&v[i]) {
            Some(x) => {
                assert(s[i as int] == v@[i as int]@);
                out.push(x);
                assert(out@.map_values(|x: UnlockMap| x@) =~= before.push(x@));
            },
            None => {
                assert(s[i as int] == v@[i as int]@);
            },
        }
        i = i + 1;
    }
    assert(s.take(v.len() as int) =~= s);
    out
}

/// The levels that the members of the array under `key` of `d` unlock, where they read.
fn unlock_levels_at(d: &JsonNode, key: &str) -> (r: Vec<UnlockLevel>)
    ensures
        r@.map_values(|x: UnlockLevel| x@) == keep_some(d@.field(key@).members(), unlock_level_of()),
{
    let mut out: Vec<UnlockLevel> = Vec::new();
    let v = match d.array_field(key) {
        Some(v) => v,
        None => {
            assert(out@.map_values(|x: UnlockLevel| x@) =~= keep_some(Seq::<Json>::empty(), unlock_level_of()));
            return out;
        },
    };
    let ghost s = view_nodes(v@);
    proof {
        lemma_view_nodes(v@);
    }
    let mut i: usize = 0;
    assert(out@.map_values(|x: UnlockLevel| x@) =~= keep_some(s.take(0), unlock_level_of()));
    while i < v.len()
        invariant
            0 <= i <= v.len(),
            s == view_nodes(v@),
            s.len() == v.len(),
            forall|j: int| 0 <= j < v.len() ==> #[trigger] s[j] == v@[j]@,
            out@.map_values(|x: UnlockLevel| x@) == keep_some(s.take(i as int), unlock_level_of()),
        decreases v.len() - i,
    {
        proof {
            lemma_keep_some_step(s, unlock_level_of(), i as int);
        }
        let ghost before = out@.map_values(|x: UnlockLevel| x@);
        match UnlockLevel::from_json_value(&v[i]) {
            Some(x) => {
                assert(s[i as int] == v@[i as int]@);
                out.push(x);
                assert(out@.map_values(|x: UnlockLevel| x@) =~= before.push(x@));
            },
            None => {
                assert(s[i as int] == v@[i as int]@);
            },
        }
        i = i + 1;
    }
    assert(s.take(v.len() as int) =~= s);
    out
}

/// A level of a map: its name, its names and descriptions in each language,
/// its kind, where it stands, whether it starts unlocked, and what clearing
/// it unlocks.
#[derive(Debug)]
pub struct Level {
    pub level_name: String,
    pub level_name_expand: Vec<String>,
    pub level_description: Vec<String>,
    pub level_type: String,
    pub level_position: [JsonNumber; 2],
    pub level_initial_status: bool,
    pub unlock_map: Vec<UnlockMap>,
    pub unlock_level: Vec<UnlockLevel>,
}

pub struct LevelView {
    pub level_name: Seq<char>,
    pub level_name_expand: Seq<Seq<char>>,
    pub level_description: Seq<Seq<char>>,
    pub level_type: Seq<char>,
    pub level_position: [JsonNumber; 2],
    pub level_initial_status: bool,
    pub unlock_map: Seq<UnlockMapView>,
    pub unlock_level: Seq<UnlockLevelView>,
}

impl View for Level {
    type V = LevelView;

    open spec fn view(&self) -> LevelView {
        LevelView {
            level_name: self.level_name@,
            level_name_expand: self.level_name_expand.deep_view(),
            level_description: self.level_description.deep_view(),
            level_type: self.level_type@,
            level_position: self.level_position,
            level_initial_status: self.level_initial_status,
            unlock_map: self.unlock_map@.map_values(|x: UnlockMap| x@),
            unlock_level: self.unlock_level@.map_values(|x: UnlockLevel| x@),
        }
    }
}

/// The level a document holds: its name and kind as strings, the first two
/// members of its position as numbers and whether it starts unlocked as a
/// boolean, else there is none; its names and descriptions are the strings
/// among their arrays, and what it unlocks the members of those lists that
/// read.
pub open spec fn level_from_json(j: Json) -> Option<LevelView> {
    match (
        j.field("level_name"@).as_str(),
        j.field("level_type"@).as_str(),
        number_at(j, "level_position"@, 0),
        number_at(j, "level_position"@, 1),
        j.field("level_initial_status"@).as_bool(),
    ) {
        (Some(a), Some(b), Some(c), Some(d), Some(e)) => Some(
            LevelView {
                level_name: a,
                level_name_expand: str_members(j.field("level_name_expand"@).members()),
                level_description: str_members(j.field("level_description"@).members()),
                level_type: b,
                level_position: [c, d],
                level_initial_status: e,
                unlock_map: keep_some(j.field("unlock_map"@).members(), unlock_map_of()),
                unlock_level: keep_some(j.field("unlock_level"@).members(), unlock_level_of()),
            },
        ),
        _ => None,
    }
}

impl Level {
    pub fn from_json_value(v: &JsonNode) -> (r: Option<Level>)
        ensures
            match r {
                Some(l) => level_from_json(v@) == Some(l@),
                None => level_from_json(v@) is None,
            },
    {
        let level_name = v.str_field("level_name")?;
        let level_name_expand = strings_at(v, "level_name_expand");
        let level_description = strings_at(v, "level_description");
        let level_type = v.str_field("level_type")?;
        let p0 = node_number_at(v, "level_position", 0)?;
        let p1 = node_number_at(v, "level_position", 1)?;
        let level_initial_status = v.bool_field("level_initial_status")?;
        let unlock_map = unlock_maps_at(v, "unlock_map");
        let unlock_level = unlock_levels_at(v, "unlock_level");
        Some(
            Level {
                level_name,
                level_name_expand,
                level_description,
                level_type,
                level_position: [p0, p1],
                level_initial_status,
                unlock_map,
                unlock_level,
            },
        )
    }
}

/// Reading a member as a level.
pub open spec fn level_of() -> spec_fn(Json) -> Option<LevelView> {
    |j: Json| level_from_json(j)
}

/// Reading a member as a route between two levels: an array with exactly
/// two strings among its members.
pub open spec fn route_of() -> spec_fn(Json) -> Option<(Seq<char>, Seq<char>)> {
    |j: Json| {
        let names = str_members(j.members());
        if names.len() == 2 {
            Some((names[0], names[1]))
        } else {
            None
        }
    }
}

/// The route a document is, if it is one.
fn node_route(n: &JsonNode) -> (r: Option<[String; 2]>)
    ensures
        match r {
            Some(p) => route_of()(n@) == Some((p[0]@, p[1]@)),
            None => route_of()(n@) is None,
        },
{
    let mut names = match n.as_array() {
        Some(a) => string_members(a),
        None => {
            let e: Vec<String> = Vec::new();
            assert(e.deep_view() =~= str_members(n@.members()));
            e
        },
    };
    if names.len() == 2 {
        let ghost dv = names.deep_view();
        let b = names.pop().unwrap();
        let a = names.pop().unwrap();
        assert(a@ == dv[0] && b@ == dv[1]);
        Some([a, b])
    } else {
        None
    }
}

/// The levels among the members of the array under `key` of `d`, where they read.
fn levels_at(d: &JsonNode, key: &str) -> (r: Vec<Level>)
    ensures
        r@.map_values(|x: Level| x@) == keep_some(d@.field(key@).members(), level_of()),
{
    let mut out: Vec<Level> = Vec::new();
    let v = match d.array_field(key) {
        Some(v) => v,
        None => {
            assert(out@.map_values(|x: Level| x@) =~= keep_some(Seq::<Json>::empty(), level_of()));
            return out;
        },
    };
    let ghost s = view_nodes(v@);
    proof {
        lemma_view_nodes(v@);
    }
    let mut i: usize = 0;
    assert(out@.map_values(|x: Level| x@) =~= keep_some(s.take(0), level_of()));
    while i < v.len()
        invariant
            0 <= i <= v.len(),
            s == view_nodes(v@),
            s.len() == v.len(),
            forall|j: int| 0 <= j < v.len() ==> #[trigger] s[j] == v@[j]@,
            out@.map_values(|x: Level| x@) == keep_some(s.take(i as int), level_of()),
        decreases v.len() - i,
    {
        proof {
            lemma_keep_some_step(s, level_of(), i as int);
        }
        let ghost before = out@.map_values(|x: Level| x@);
        match Level::from_json_value(&v[i]) {
            Some(x) => {
                assert(s[i as int] == v@[i as int]@);
                let ghost xv = x@;
                out.push(x);
                assert(out@.map_values(|x: Level| x@) =~= before.push(xv));
            },
            None => {
                assert(s[i as int] == v@[i as int]@);
            },
        }
        i = i + 1;
    }
    assert(s.take(v.len() as int) =~= s);
    out
}

/// The routes among the members of the array under `key` of `d`.
fn routes_at(d: &JsonNode, key: &str) -> (r: Vec<[String; 2]>)
    ensures
        r@.map_values(|x: [String; 2]| (x[0]@, x[1]@)) == keep_some(d@.field(key@).members(), route_of()),
{
    let mut out: Vec<[String; 2]> = Vec::new();
    let v = match d.array_field(key) {
        Some(v) => v,
        None => {
            assert(out@.map_values(|x: [String; 2]| (x[0]@, x[1]@)) =~= keep_some(Seq::<Json>::empty(), route_of()));
            return out;
        },
    };
    let ghost s = view_nodes(v@);
    proof {
        lemma_view_nodes(v@);
    }
    let mut i: usize = 0;
    assert(out@.map_values(|x: [String; 2]| (x[0]@, x[1]@)) =~= keep_some(s.take(0), route_of()));
    while i < v.len()
        invariant
            0 <= i <= v.len(),
            s == view_nodes(v@),
            s.len() == v.len(),
            forall|j: int| 0 <= j < v.len() ==> #[trigger] s[j] == v@[j]@,
            out@.map_values(|x: [String; 2]| (x[0]@, x[1]@)) == keep_some(s.take(i as int), route_of()),
        decreases v.len() - i,
    {
        proof {
            lemma_keep_some_step(s, route_of(), i as int);
        }
        let ghost before = out@.map_values(|x: [String; 2]| (x[0]@, x[1]@));
        match node_route(&v[i]) {
            Some(x) => {
                assert(s[i as int] == v@[i as int]@);
                let ghost xv = (x[0]@, x[1]@);
                out.push(x);
                assert(out@.map_values(|x: [String; 2]| (x[0]@, x[1]@)) =~= before.push(xv));
            },
            None => {
                assert(s[i as int] == v@[i as int]@);
            },
        }
        i = i + 1;
    }
    assert(s.take(v.len() as int) =~= s);
    out
}

/// A map of the campaign (a `Map` in the game's files): its names, author, images, width and how far it
/// is scrolled, its descriptions, its levels and the routes between them,
/// whether it starts unlocked, and what it says while locked.
#[derive(Debug)]
pub struct GameMap {
    pub map_name: Vec<String>,
    pub map_author: String,
    pub map_image: String,
    pub map_width: JsonNumber,
    pub map_scroll_offset: JsonNumber,
    pub map_description: Vec<String>,
    pub map_intro: String,
    pub map_content: Vec<Level>,
    pub map_connecting_line: Vec<[String; 2]>,
    pub map_initial_unlock_status: bool,
    pub map_unlock_description: Vec<String>,
    pub map_lock_intro: String,
}

pub struct GameMapView {
    pub map_name: Seq<Seq<char>>,
    pub map_author: Seq<char>,
    pub map_image: Seq<char>,
    pub map_width: JsonNumber,
    pub map_scroll_offset: JsonNumber,
    pub map_description: Seq<Seq<char>>,
    pub map_intro: Seq<char>,
    pub map_content: Seq<LevelView>,
    pub map_connecting_line: Seq<(Seq<char>, Seq<char>)>,
    pub map_initial_unlock_status: bool,
    pub map_unlock_description: Seq<Seq<char>>,
    pub map_lock_intro: Seq<char>,
}

impl View for GameMap {
    type V = GameMapView;

    open spec fn view(&self) -> GameMapView {
        GameMapView {
            map_name: self.map_name.deep_view(),
            map_author: self.map_author@,
            map_image: self.map_image@,
            map_width: self.map_width,
            map_scroll_offset: self.map_scroll_offset,
            map_description: self.map_description.deep_view(),
            map_intro: self.map_intro@,
            map_content: self.map_content@.map_values(|x: Level| x@),
            map_connecting_line: self.map_connecting_line@.map_values(|x: [String; 2]| (x[0]@, x[1]@)),
            map_initial_unlock_status: self.map_initial_unlock_status,
            map_unlock_description: self.map_unlock_description.deep_view(),
            map_lock_intro: self.map_lock_intro@,
        }
    }
}

/// The map a document holds: its author, images and intros as strings, its
/// width and scroll as numbers and whether it starts unlocked as a boolean,
/// else there is none; its names and descriptions are the strings among
/// their arrays, its levels and routes the members of those lists that
/// read.
pub open spec fn map_from_json(j: Json) -> Option<GameMapView> {
    match (
        j.field("map_author"@).as_str(),
        j.field("map_image"@).as_str(),
        number_of()(j.field("map_width"@)),
        number_of()(j.field("map_scroll_offset"@)),
        j.field("map_intro"@).as_str(),
        j.field("map_initial_unlock_status"@).as_bool(),
        j.field("map_lock_intro"@).as_str(),
    ) {
        (Some(a), Some(b), Some(c), Some(d), Some(e), Some(f), Some(g)) => Some(
            GameMapView {
                map_name: str_members(j.field("map_name"@).members()),
                map_author: a,
                map_image: b,
                map_width: c,
                map_scroll_offset: d,
                map_description: str_members(j.field("map_description"@).members()),
                map_intro: e,
                map_content: keep_some(j.field("map_content"@).members(), level_of()),
                map_connecting_line: keep_some(j.field("map_connecting_line"@).members(), route_of()),
                map_initial_unlock_status: f,
                map_unlock_description: str_members(j.field("map_unlock_description"@).members()),
                map_lock_intro: g,
            },
        ),
        _ => None,
    }
}

impl GameMap {
    pub fn from_json_value(value: &JsonNode) -> (r: Option<GameMap>)
        ensures
            match r {
                Some(m) => map_from_json(value@) == Some(m@),
                None => map_from_json(value@) is None,
            },
    {
        let map_name = strings_at(value, "map_name");
        let map_author = value.str_field("map_author")?;
        let map_image = value.str_field("map_image")?;
        let map_width = number_field(value, "map_width")?;
        let map_scroll_offset = number_field(value, "map_scroll_offset")?;
        let map_description = strings_at(value, "map_description");
        let map_intro = value.str_field("map_intro")?;
        let map_content = levels_at(value, "map_content");
        let map_connecting_line = routes_at(value, "map_connecting_line");
        let map_initial_unlock_status = value.bool_field("map_initial_unlock_status")?;
        let map_unlock_description = strings_at(value, "map_unlock_description");
        let map_lock_intro = value.str_field("map_lock_intro")?;
        Some(
            GameMap {
                map_name,
                map_author,
                map_image,
                map_width,
                map_scroll_offset,
                map_description,
                map_intro,
                map_content,
                map_connecting_line,
                map_initial_unlock_status,
                map_unlock_description,
                map_lock_intro,
            },
        )
    }
}

/// A string as a document holds it.
pub open spec fn str_json(s: Seq<char>) -> Json {
    Json::Str(s)
}

/// Writing a string.
pub open spec fn strs_json() -> spec_fn(Seq<char>) -> Json {
    |x: Seq<char>| str_json(x)
}

/// Writing a map that a level unlocks.
pub open spec fn unlock_map_json_of() -> spec_fn(UnlockMapView) -> Json {
    |x: UnlockMapView| unlock_map_json(x)
}

/// Writing a level that a level unlocks.
pub open spec fn unlock_level_json_of() -> spec_fn(UnlockLevelView) -> Json {
    |x: UnlockLevelView| unlock_level_json(x)
}

/// How a map that a level unlocks is written.
pub open spec fn unlock_map_json(u: UnlockMapView) -> Json {
    Json::Object(seq![("map_name"@, Json::Str(u.map_name)), ("require_perfect_clear"@, Json::Bool(u.require_perfect_clear))])
}

/// How a level that a level unlocks is written.
pub open spec fn unlock_level_json(u: UnlockLevelView) -> Json {
    Json::Object(
        seq![
            ("level_name"@, Json::Str(u.level_name)),
            ("level_map"@, Json::Str(u.level_map)),
            ("require_perfect_clear"@, Json::Bool(u.require_perfect_clear)),
        ],
    )
}

fn unlock_map_node(u: &UnlockMap) -> (r: JsonNode)
    ensures
        r@ == unlock_map_json(u@),
{
    let mut f: Vec<(String, JsonNode)> = Vec::new();
    push_field(&mut f, "map_name", JsonNode::Str(u.map_name.clone()));
    push_field(&mut f, "require_perfect_clear", JsonNode::Bool(u.require_perfect_clear));
    assert(view_fields(f@) =~= unlock_map_json(u@)->Object_0);
    JsonNode::Object(f)
}

fn unlock_level_node(u: &UnlockLevel) -> (r: JsonNode)
    ensures
        r@ == unlock_level_json(u@),
{
    let mut f: Vec<(String, JsonNode)> = Vec::new();
    push_field(&mut f, "level_name", JsonNode::Str(u.level_name.clone()));
    push_field(&mut f, "level_map", JsonNode::Str(u.level_map.clone()));
    push_field(&mut f, "require_perfect_clear", JsonNode::Bool(u.require_perfect_clear));
    assert(view_fields(f@) =~= unlock_level_json(u@)->Object_0);
    JsonNode::Object(f)
}

/// An array of strings as a document holds it.
fn str_array_node(v: &Vec<String>) -> (r: JsonNode)
    ensures
        r@ == Json::Array(v@.map_values(|x: String| str_json(x@))),
{
    let mut out: Vec<JsonNode> = Vec::new();
    let mut i: usize = 0;
    while i < v.len()
        invariant
            0 <= i <= v.len(),
            view_nodes(out@) == v@.take(i as int).map_values(|x: String| str_json(x@)),
        decreases v.len() - i,
    {
        let x = JsonNode::Str(v[i].clone());
        proof {
            lemma_view_nodes_push(out@, x);
        }
        out.push(x);
        assert(v@.take(i + 1).map_values(|x: String| str_json(x@)) =~= v@.take(i as int).map_values(
            |x: String| str_json(x@),
        ).push(str_json(v@[i as int]@)));
        i = i + 1;
    }
    assert(v@.take(v.len() as int) =~= v@);
    JsonNode::Array(out)
}

/// The maps a level unlocks, as written.
fn unlock_maps_node(v: &Vec<UnlockMap>) -> (r: JsonNode)
    ensures
        r@ == Json::Array(v@.map_values(|x: UnlockMap| unlock_map_json(x@))),
{
    let mut out: Vec<JsonNode> = Vec::new();
    let mut i: usize = 0;
    while i < v.len()
        invariant
            0 <= i <= v.len(),
            view_nodes(out@) == v@.take(i as int).map_values(|x: UnlockMap| unlock_map_json(x@)),
        decreases v.len() - i,
    {
        let x = unlock_map_node(&v[i]);
        proof {
            lemma_view_nodes_push(out@, x);
        }
        out.push(x);
        assert(v@.take(i + 1).map_values(|x: UnlockMap| unlock_map_json(x@)) =~= v@.take(i as int).map_values(
            |x: UnlockMap| unlock_map_json(x@),
        ).push(unlock_map_json(v@[i as int]@)));
        i = i + 1;
    }
    assert(v@.take(v.len() as int) =~= v@);
    JsonNode::Array(out)
}

/// The levels a level unlocks, as written.
fn unlock_levels_node(v: &Vec<UnlockLevel>) -> (r: JsonNode)
    ensures
        r@ == Json::Array(v@.map_values(|x: UnlockLevel| unlock_level_json(x@))),
{
    let mut out: Vec<JsonNode> = Vec::new();
    let mut i: usize = 0;
    while i < v.len()
        invariant
            0 <= i <= v.len(),
            view_nodes(out@) == v@.take(i as int).map_values(|x: UnlockLevel| unlock_level_json(x@)),
        decreases v.len() - i,
    {
        let x = unlock_level_node(&v[i]);
        proof {
            lemma_view_nodes_push(out@, x);
        }
        out.push(x);
        assert(v@.take(i + 1).map_values(|x: UnlockLevel| unlock_level_json(x@)) =~= v@.take(i as int).map_values(
            |x: UnlockLevel| unlock_level_json(x@),
        ).push(unlock_level_json(v@[i as int]@)));
        i = i + 1;
    }
    assert(v@.take(v.len() as int) =~= v@);
    JsonNode::Array(out)
}

/// How a level is written, its members in this order.
pub open spec fn level_json(l: LevelView) -> Json {
    Json::Object(
        seq![
            ("level_name"@, Json::Str(l.level_name)),
            ("level_name_expand"@, Json::Array(l.level_name_expand.map_values(strs_json()))),
            ("level_description"@, Json::Array(l.level_description.map_values(strs_json()))),
            ("level_type"@, Json::Str(l.level_type)),
            ("level_position"@, Json::Array(seq![Json::Number(l.level_position[0]), Json::Number(l.level_position[1])])),
            ("level_initial_status"@, Json::Bool(l.level_initial_status)),
            ("unlock_map"@, Json::Array(l.unlock_map.map_values(unlock_map_json_of()))),
            ("unlock_level"@, Json::Array(l.unlock_level.map_values(unlock_level_json_of()))),
        ],
    )
}

impl Level {
    pub fn to_json_value(&self) -> (r: JsonNode)
        ensures
            r@ == level_json(self@),
    {
        let mut f: Vec<(String, JsonNode)> = Vec::new();
        push_field(&mut f, "level_name", JsonNode::Str(self.level_name.clone()));
        let a = str_array_node(&self.level_name_expand);
        assert(self.level_name_expand@.map_values(|x: String| str_json(x@)) =~= self@.level_name_expand.map_values(strs_json()));
        push_field(&mut f, "level_name_expand", a);
        let b = str_array_node(&self.level_description);
        assert(self.level_description@.map_values(|x: String| str_json(x@)) =~= self@.level_description.map_values(strs_json()));
        push_field(&mut f, "level_description", b);
        push_field(&mut f, "level_type", JsonNode::Str(self.level_type.clone()));
        let mut pos: Vec<JsonNode> = Vec::new();
        pos.push(JsonNode::Number(self.level_position[0]));
        pos.push(JsonNode::Number(self.level_position[1]));
        proof {
            lemma_view_nodes(pos@);
            assert(view_nodes(pos@) =~= seq![Json::Number(self.level_position[0]), Json::Number(self.level_position[1])]);
        }
        push_field(&mut f, "level_position", JsonNode::Array(pos));
        push_field(&mut f, "level_initial_status", JsonNode::Bool(self.level_initial_status));
        let c = unlock_maps_node(&self.unlock_map);
        assert(self.unlock_map@.map_values(|x: UnlockMap| unlock_map_json(x@)) =~= self@.unlock_map.map_values(unlock_map_json_of()));
        push_field(&mut f, "unlock_map", c);
        let d = unlock_levels_node(&self.unlock_level);
        assert(self.unlock_level@.map_values(|x: UnlockLevel| unlock_level_json(x@)) =~= self@.unlock_level.map_values(unlock_level_json_of()));
        push_field(&mut f, "unlock_level", d);
        assert(view_fields(f@) =~= level_json(self@)->Object_0);
        JsonNode::Object(f)
    }
}

/// Writing a level.
pub open spec fn level_json_of() -> spec_fn(LevelView) -> Json {
    |x: LevelView| level_json(x)
}

/// Writing a route.
pub open spec fn route_json_of() -> spec_fn((Seq<char>, Seq<char>)) -> Json {
    |x: (Seq<char>, Seq<char>)| route_json(x)
}

/// How a route between two levels is written.
pub open spec fn route_json(r: (Seq<char>, Seq<char>)) -> Json {
    Json::Array(seq![Json::Str(r.0), Json::Str(r.1)])
}

/// How a map is written, its members in this order.
pub open spec fn map_json(m: GameMapView) -> Json {
    Json::Object(
        seq![
            ("map_name"@, Json::Array(m.map_name.map_values(strs_json()))),
            ("map_author"@, Json::Str(m.map_author)),
            ("map_image"@, Json::Str(m.map_image)),
            ("map_width"@, Json::Number(m.map_width)),
            ("map_scroll_offset"@, Json::Number(m.map_scroll_offset)),
            ("map_description"@, Json::Array(m.map_description.map_values(strs_json()))),
            ("map_intro"@, Json::Str(m.map_intro)),
            ("map_content"@, Json::Array(m.map_content.map_values(level_json_of()))),
            ("map_connecting_line"@, Json::Array(m.map_connecting_line.map_values(route_json_of()))),
            ("map_initial_unlock_status"@, Json::Bool(m.map_initial_unlock_status)),
            ("map_unlock_description"@, Json::Array(m.map_unlock_description.map_values(strs_json()))),
            ("map_lock_intro"@, Json::Str(m.map_lock_intro)),
        ],
    )
}

fn route_node(r: &[String; 2]) -> (n: JsonNode)
    ensures
        n@ == route_json((r[0]@, r[1]@)),
{
    let mut v: Vec<JsonNode> = Vec::new();
    v.push(JsonNode::Str(r[0].clone()));
    v.push(JsonNode::Str(r[1].clone()));
    proof {
        lemma_view_nodes(v@);
        assert(view_nodes(v@) =~= seq![Json::Str(r[0]@), Json::Str(r[1]@)]);
    }
    JsonNode::Array(v)
}

fn levels_node(v: &Vec<Level>) -> (r: JsonNode)
    ensures
        r@ == Json::Array(v@.map_values(|x: Level| level_json(x@))),
{
    let mut out: Vec<JsonNode> = Vec::new();
    let mut i: usize = 0;
    while i < v.len()
        invariant
            0 <= i <= v.len(),
            view_nodes(out@) == v@.take(i as int).map_values(|x: Level| level_json(x@)),
        decreases v.len() - i,
    {
        let x = v[i].to_json_value();
        proof {
            lemma_view_nodes_push(out@, x);
        }
        out.push(x);
        assert(v@.take(i + 1).map_values(|x: Level| level_json(x@)) =~= v@.take(i as int).map_values(
            |x: Level| level_json(x@),
        ).push(level_json(v@[i as int]@)));
        i = i + 1;
    }
    assert(v@.take(v.len() as int) =~= v@);
    JsonNode::Array(out)
}

fn routes_node(v: &Vec<[String; 2]>) -> (r: JsonNode)
    ensures
        r@ == Json::Array(v@.map_values(|x: [String; 2]| route_json((x[0]@, x[1]@)))),
{
    let mut out: Vec<JsonNode> = Vec::new();
    let mut i: usize = 0;
    while i < v.len()
        invariant
            0 <= i <= v.len(),
            view_nodes(out@) == v@.take(i as int).map_values(|x: [String; 2]| route_json((x[0]@, x[1]@))),
        decreases v.len() - i,
    {
        let x = route_node(&v[i]);
        proof {
            lemma_view_nodes_push(out@, x);
        }
        out.push(x);
        assert(v@.take(i + 1).map_values(|x: [String; 2]| route_json((x[0]@, x[1]@))) =~= v@.take(i as int).map_values(
            |x: [String; 2]| route_json((x[0]@, x[1]@)),
        ).push(route_json((v@[i as int][0]@, v@[i as int][1]@))));
        i = i + 1;
    }
    assert(v@.take(v.len() as int) =~= v@);
    JsonNode::Array(out)
}

impl GameMap {
    pub fn to_json_value(&self) -> (r: JsonNode)
        ensures
            r@ == map_json(self@),
    {
        let mut f: Vec<(String, JsonNode)> = Vec::new();
        let a = str_array_node(&self.map_name);
        assert(self.map_name@.map_values(|x: String| str_json(x@)) =~= self@.map_name.map_values(strs_json()));
        push_field(&mut f, "map_name", a);
        push_field(&mut f, "map_author", JsonNode::Str(self.map_author.clone()));
        push_field(&mut f, "map_image", JsonNode::Str(self.map_image.clone()));
        push_field(&mut f, "map_width", JsonNode::Number(self.map_width));
        push_field(&mut f, "map_scroll_offset", JsonNode::Number(self.map_scroll_offset));
        let b = str_array_node(&self.map_description);
        assert(self.map_description@.map_values(|x: String| str_json(x@)) =~= self@.map_description.map_values(strs_json()));
        push_field(&mut f, "map_description", b);
        push_field(&mut f, "map_intro", JsonNode::Str(self.map_intro.clone()));
        let c = levels_node(&self.map_content);
        assert(self.map_content@.map_values(|x: Level| level_json(x@)) =~= self@.map_content.map_values(level_json_of()));
        push_field(&mut f, "map_content", c);
        let d = routes_node(&self.map_connecting_line);
        assert(self.map_connecting_line@.map_values(|x: [String; 2]| route_json((x[0]@, x[1]@))) =~= self@.map_connecting_line.map_values(route_json_of()));
        push_field(&mut f, "map_connecting_line", d);
        push_field(&mut f, "map_initial_unlock_status", JsonNode::Bool(self.map_initial_unlock_status));
        let e = str_array_node(&self.map_unlock_description);
        assert(self.map_unlock_description@.map_values(|x: String| str_json(x@)) =~= self@.map_unlock_description.map_values(strs_json()));
        push_field(&mut f, "map_unlock_description", e);
        push_field(&mut f, "map_lock_intro", JsonNode::Str(self.map_lock_intro.clone()));
        assert(view_fields(f@) =~= map_json(self@)->Object_0);
        JsonNode::Object(f)
    }
}

/// Keys that differ in length or in one of a few places are different.
proof fn lemma_keys_differ(a: Seq<char>, b: Seq<char>)
    requires
        a.len() != b.len() || (a.len() > 6 && b.len() > 6 && (a[0] != b[0] || a[4] != b[4] || a[5] != b[5]
            || a[6] != b[6])),
    ensures
        a != b,
{
}

/// Reading back the strings written gives the same strings.
proof fn lemma_strs_round_trip(ss: Seq<Seq<char>>)
    ensures
        str_members(ss.map_values(strs_json())) == ss,
{
    assert forall|x: Seq<char>| #[trigger] str_of()(strs_json()(x)) == Some(x) by {}
    lemma_keep_some_inverse(ss, strs_json(), str_of());
}

/// Reading back the document that a level is written as gives the same
/// level.
pub proof fn level_json_round_trip(l: LevelView)
    ensures
        level_from_json(level_json(l)) == Some(l),
{
    reveal_strlit("level_name");
    reveal_strlit("level_name_expand");
    reveal_strlit("level_description");
    reveal_strlit("level_type");
    reveal_strlit("level_position");
    reveal_strlit("level_initial_status");
    reveal_strlit("unlock_map");
    reveal_strlit("unlock_level");
    let f = level_json(l)->Object_0;
    assert(f[0].0 == "level_name"@ && f[1].0 == "level_name_expand"@ && f[2].0 == "level_description"@);
    assert(f[3].0 == "level_type"@ && f[4].0 == "level_position"@ && f[5].0 == "level_initial_status"@);
    assert(f[6].0 == "unlock_map"@ && f[7].0 == "unlock_level"@);
    assert forall|i: int, j: int| 0 <= i < j < 8 implies #[trigger] f[i].0 != #[trigger] f[j].0 by {
        lemma_keys_differ(f[i].0, f[j].0);
    }
    lemma_lookup_at(f, "level_name"@, 0);
    lemma_lookup_at(f, "level_name_expand"@, 1);
    lemma_lookup_at(f, "level_description"@, 2);
    lemma_lookup_at(f, "level_type"@, 3);
    lemma_lookup_at(f, "level_position"@, 4);
    lemma_lookup_at(f, "level_initial_status"@, 5);
    lemma_lookup_at(f, "unlock_map"@, 6);
    lemma_lookup_at(f, "unlock_level"@, 7);
    lemma_strs_round_trip(l.level_name_expand);
    lemma_strs_round_trip(l.level_description);
    assert forall|x: UnlockMapView| #[trigger] unlock_map_of()(unlock_map_json_of()(x)) == Some(x) by {
        reveal_strlit("map_name");
        reveal_strlit("require_perfect_clear");
        let g = unlock_map_json(x)->Object_0;
        assert(g[0].0 == "map_name"@ && g[1].0 == "require_perfect_clear"@);
        lemma_lookup_at(g, "map_name"@, 0);
        lemma_lookup_at(g, "require_perfect_clear"@, 1);
    }
    lemma_keep_some_inverse(l.unlock_map, unlock_map_json_of(), unlock_map_of());
    assert forall|x: UnlockLevelView| #[trigger] unlock_level_of()(unlock_level_json_of()(x)) == Some(x) by {
        reveal_strlit("level_map");
        reveal_strlit("require_perfect_clear");
        let g = unlock_level_json(x)->Object_0;
        assert(g[0].0 == "level_name"@ && g[1].0 == "level_map"@ && g[2].0 == "require_perfect_clear"@);
        lemma_lookup_at(g, "level_name"@, 0);
        lemma_lookup_at(g, "level_map"@, 1);
        lemma_lookup_at(g, "require_perfect_clear"@, 2);
    }
    lemma_keep_some_inverse(l.unlock_level, unlock_level_json_of(), unlock_level_of());
    let j = level_json(l);
    assert(j.field("level_position"@).members() =~= seq![Json::Number(l.level_position[0]), Json::Number(l.level_position[1])]);
    assert(number_at(j, "level_position"@, 0) == Some(l.level_position[0]));
    assert(number_at(j, "level_position"@, 1) == Some(l.level_position[1]));
    assert([l.level_position[0], l.level_position[1]]@ =~= l.level_position@);
    assert([l.level_position[0], l.level_position[1]] == l.level_position);
}

/// Reading back the document that a map is written as gives the same map:
/// what the game saves of a map (its scroll, say) it reads again.
pub proof fn map_json_round_trip(m: GameMapView)
    ensures
        map_from_json(map_json(m)) == Some(m),
{
    reveal_strlit("map_name");
    reveal_strlit("map_author");
    reveal_strlit("map_image");
    reveal_strlit("map_width");
    reveal_strlit("map_scroll_offset");
    reveal_strlit("map_description");
    reveal_strlit("map_intro");
    reveal_strlit("map_content");
    reveal_strlit("map_connecting_line");
    reveal_strlit("map_initial_unlock_status");
    reveal_strlit("map_unlock_description");
    reveal_strlit("map_lock_intro");
    let f = map_json(m)->Object_0;
    assert(f[0].0 == "map_name"@ && f[1].0 == "map_author"@ && f[2].0 == "map_image"@);
    assert(f[3].0 == "map_width"@ && f[4].0 == "map_scroll_offset"@ && f[5].0 == "map_description"@);
    assert(f[6].0 == "map_intro"@ && f[7].0 == "map_content"@ && f[8].0 == "map_connecting_line"@);
    assert(f[9].0 == "map_initial_unlock_status"@ && f[10].0 == "map_unlock_description"@);
    assert(f[11].0 == "map_lock_intro"@);
    assert forall|i: int, j: int| 0 <= i < j < 12 implies #[trigger] f[i].0 != #[trigger] f[j].0 by {
        lemma_keys_differ(f[i].0, f[j].0);
    }
    lemma_lookup_at(f, "map_name"@, 0);
    lemma_lookup_at(f, "map_author"@, 1);
    lemma_lookup_at(f, "map_image"@, 2);
    lemma_lookup_at(f, "map_width"@, 3);
    lemma_lookup_at(f, "map_scroll_offset"@, 4);
    lemma_lookup_at(f, "map_description"@, 5);
    lemma_lookup_at(f, "map_intro"@, 6);
    lemma_lookup_at(f, "map_content"@, 7);
    lemma_lookup_at(f, "map_connecting_line"@, 8);
    lemma_lookup_at(f, "map_initial_unlock_status"@, 9);
    lemma_lookup_at(f, "map_unlock_description"@, 10);
    lemma_lookup_at(f, "map_lock_intro"@, 11);
    lemma_strs_round_trip(m.map_name);
    lemma_strs_round_trip(m.map_description);
    lemma_strs_round_trip(m.map_unlock_description);
    assert forall|x: LevelView| #[trigger] level_of()(level_json_of()(x)) == Some(x) by {
        level_json_round_trip(x);
    }
    lemma_keep_some_inverse(m.map_content, level_json_of(), level_of());
    assert forall|x: (Seq<char>, Seq<char>)| #[trigger] route_of()(route_json_of()(x)) == Some(x) by {
        lemma_strs_round_trip(seq![x.0, x.1]);
        assert(seq![x.0, x.1].map_values(strs_json()) =~= seq![Json::Str(x.0), Json::Str(x.1)]);
    }
    lemma_keep_some_inverse(m.map_connecting_line, route_json_of(), route_of());
}

} // verus!
