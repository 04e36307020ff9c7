//! The game's texts (`GameText.json`): for each key, the text in each
//! language, indexed by the language's number.
use vstd::prelude::*;
use crate::json::{Json, JsonNode, keep_some, lemma_keep_some_step, lemma_view_nodes, lemma_view_fields, view_fields, view_nodes};
use crate::table::{keys_unique, entry_map, find_entry, insert_entry, lemma_entry_map_index, lemma_entry_map_absent};

verus! {

/// The texts of the game by key.
#[derive(Debug)]
pub struct GameText {
    pub game_text: Vec<(String, Vec<String>)>,
}

impl View for GameText {
    type V = Map<Seq<char>, Seq<Seq<char>>>;

    open spec fn view(&self) -> Map<Seq<char>, Seq<Seq<char>>> {
        entry_map(self.game_text@)
    }
}

/// Reading a member as a string.
pub open spec fn str_of() -> spec_fn(Json) -> Option<Seq<char>> {
    |j: Json| j.as_str()
}

/// The strings among the members of an array, in order.
pub open spec fn str_members(s: Seq<Json>) -> Seq<Seq<char>> {
    keep_some(s, str_of())
}

/// The table that the members of the `game_text` object make: each member
/// that is an array gives its strings under its key; a later member with the
/// same key replaces an earlier one; members of other types are passed over.
pub open spec fn text_table(f: Seq<(Seq<char>, Json)>) -> Map<Seq<char>, Seq<Seq<char>>>
    decreases f.len(),
{
    if f.len() == 0 {
        Map::empty()
    } else {
        let m = text_table(f.drop_last());
        let last = f.last();
        if last.1 is Array {
            m.insert(last.0, str_members(last.1.members()))
        } else {
            m
        }
    }
}

/// The texts a document holds; none when its `game_text` member is not an
/// object.
pub open spec fn game_text_from_json(j: Json) -> Option<Map<Seq<char>, Seq<Seq<char>>>> {
    if j.field("game_text"@).is_object() {
        Some(text_table(j.field("game_text"@).entries()))
    } else {
        None
    }
}

/// The strings among the members of an array, in order.
pub fn string_members(v: &Vec<JsonNode>) -> (r: Vec<String>)
    ensures
        r.deep_view() == str_members(view_nodes(v@)),
{
    let ghost s = view_nodes(v@);
    proof {
        lemma_view_nodes(v@);
    }
    let mut out: Vec<String> = Vec::new();
    let mut i: usize = 0;
    assert(out.deep_view() =~= keep_some(s.take(0), str_of()));
    while i < v.len()
        invariant
            0 <= i <= v.len(),
            s == view_nodes(v@),
            s.len() == v.len(),
            forall|j: int| 0 <= j < v.len() ==> #[trigger] s[j] == v@[j]@,
            out.deep_view() == keep_some(s.take(i as int), str_of()),
        decreases v.len() - i,
    {
        proof {
            lemma_keep_some_step(s, str_of(), i as int);
        }
        let ghost before = out.deep_view();
        match v[i].as_string() {
            Some(t) => {
                out.push(t);
                assert(out.deep_view() =~= before.push(t@));
            },
            None => {},
        }
        i = i + 1;
    }
    assert(s.take(v.len() as int) =~= s);
    out
}

impl GameText {
    pub open spec fn wf(&self) -> bool {
        keys_unique(self.game_text@)
    }

    pub fn from_json_value(value: &JsonNode) -> (r: Option<GameText>)
        ensures
            match r {
                Some(g) => g.wf() && game_text_from_json(value@) == Some(g@),
                None => game_text_from_json(value@) is None,
            },
    {
        let node = match value.get("game_text") {
            Some(n) => n,
            None => return None,
        };
        let fields = match node.as_object() {
            Some(f) => f,
            None => return None,
        };
        let ghost fv = view_fields(fields@);
        proof {
            lemma_view_fields(fields@);
        }
        let mut parsed: Vec<(String, Vec<String>)> = Vec::new();
        let mut i: usize = 0;
        assert(fv.take(0) =~= Seq::<(Seq<char>, Json)>::empty());
        while i < fields.len()
            invariant
                0 <= i <= fields.len(),
                fv == view_fields(fields@),
                fv.len() == fields.len(),
                forall|j: int|
                    0 <= j < fields.len() ==> #[trigger] fv[j] == (
                        fields@[j].0@,
                        fields@[j].1@,
                    ),
                node@ == Json::Object(fv),
                keys_unique(parsed@),
                entry_map(parsed@) == text_table(fv.take(i as int)),
            decreases fields.len() - i,
        {
            assert(fv.take(i + 1).drop_last() =~= fv.take(i as int));
            assert(fv.take(i + 1).last() == fv[i as int]);
            match fields[i].1.as_array() {
                Some(arr) => {
                    let strs = string_members(arr);
                    insert_entry(&mut parsed, fields[i].0.clone(), strs);
                },
                None => {},
            }
            i = i + 1;
        }
        assert(fv.take(fields.len() as int) =~= fv);
        Some(GameText { game_text: parsed })
    }

    /// The text under `key` in language `language`, if there is one.
    pub fn lookup(&self, key: &str, language: u8) -> (r: Option<String>)
        requires
            self.wf(),
        ensures
            match r {
                Some(t) => self@.contains_key(key@) && (language as int) < self@[key@].len()
                    && t@ == self@[key@][language as int],
                None => !self@.contains_key(key@) || self@[key@].len() <= language as int,
            },
    {
        let k = key.to_owned();
        match find_entry(&self.game_text, &k) {
            Some(i) => {
                proof {
                    lemma_entry_map_index(self.game_text@, i as int);
                }
                let texts = &self.game_text[i].1;
                if (language as usize) < texts.len() {
                    Some(texts[language as usize].clone())
                } else {
                    None
                }
            },
            None => {
                proof {
                    lemma_entry_map_absent(self.game_text@, k@);
                }
                None
            },
        }
    }
}

} // verus!
