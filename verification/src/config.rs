//! The game's preferences (`Preferences.json`).
use vstd::prelude::*;
use crate::json::{Json, JsonNode, JsonNumber, view_fields, push_field, lemma_lookup_at};

verus! {

/// The game's preferences.
#[derive(Debug)]
pub struct Config {
    pub launch_path: String,
    pub language: u8,
    pub login_user_name: String,
    pub amount_languages: u8,
    pub rc_strict_mode: bool,
    pub enable_debug_mode: bool,
}

pub struct ConfigView {
    pub launch_path: Seq<char>,
    pub language: u8,
    pub login_user_name: Seq<char>,
    pub amount_languages: u8,
    pub rc_strict_mode: bool,
    pub enable_debug_mode: bool,
}

impl View for Config {
    type V = ConfigView;

    open spec fn view(&self) -> ConfigView {
        ConfigView {
            launch_path: self.launch_path@,
            language: self.language,
            login_user_name: self.login_user_name@,
            amount_languages: self.amount_languages,
            rc_strict_mode: self.rc_strict_mode,
            enable_debug_mode: self.enable_debug_mode,
        }
    }
}

/// The preferences a document holds: each member must be there with its
/// type, else there are none.
pub open spec fn config_from_json(j: Json) -> Option<ConfigView> {
    match (
        j.field("launch_path"@).as_str(),
        j.field("language"@).as_u8(),
        j.field("login_user_name"@).as_str(),
        j.field("amount_languages"@).as_u8(),
        j.field("rc_strict_mode"@).as_bool(),
        j.field("enable_debug_mode"@).as_bool(),
    ) {
        (Some(a), Some(b), Some(c), Some(d), Some(e), Some(f)) => Some(
            ConfigView {
                launch_path: a,
                language: b,
                login_user_name: c,
                amount_languages: d,
                rc_strict_mode: e,
                enable_debug_mode: f,
            },
        ),
        _ => None,
    }
}

/// The document the preferences are written as.
pub open spec fn config_to_json(c: ConfigView) -> Json {
    Json::Object(
        seq![
            ("launch_path"@, Json::Str(c.launch_path)),
            ("language"@, Json::Number(JsonNumber::of_unsigned(c.language as u64))),
            ("login_user_name"@, Json::Str(c.login_user_name)),
            ("amount_languages"@, Json::Number(JsonNumber::of_unsigned(c.amount_languages as u64))),
            ("rc_strict_mode"@, Json::Bool(c.rc_strict_mode)),
            ("enable_debug_mode"@, Json::Bool(c.enable_debug_mode)),
        ],
    )
}

impl Config {
    pub fn from_json_value(value: &JsonNode) -> (r: Option<Config>)
        ensures
            match r {
                Some(c) => config_from_json(value@) == Some(c@),
                None => config_from_json(value@) is None,
            },
    {
        let launch_path = value.str_field("launch_path")?;
        let language = value.u8_field("language")?;
        let login_user_name = value.str_field("login_user_name")?;
        let amount_languages = value.u8_field("amount_languages")?;
        let rc_strict_mode = value.bool_field("rc_strict_mode")?;
        let enable_debug_mode = value.bool_field("enable_debug_mode")?;
        Some(
            Config {
                launch_path,
                language,
                login_user_name,
                amount_languages,
                rc_strict_mode,
                enable_debug_mode,
            },
        )
    }

    pub fn to_json_value(&self) -> (r: JsonNode)
        ensures
            r@ == config_to_json(self@),
    {
        let mut f: Vec<(String, JsonNode)> = Vec::new();
        push_field(&mut f, "launch_path", JsonNode::Str(self.launch_path.clone()));
        push_field(&mut f, "language", JsonNode::Number(JsonNumber::from_u64(self.language as u64)));
        push_field(&mut f, "login_user_name", JsonNode::Str(self.login_user_name.clone()));
        push_field(
            &mut f,
            "amount_languages",
            JsonNode::Number(JsonNumber::from_u64(self.amount_languages as u64)),
        );
        push_field(&mut f, "rc_strict_mode", JsonNode::Bool(self.rc_strict_mode));
        push_field(&mut f, "enable_debug_mode", JsonNode::Bool(self.enable_debug_mode));
        assert(view_fields(f@) =~= config_to_json(self@)->Object_0);
        JsonNode::Object(f)
    }
}

/// Reading back the document that preferences are written as gives the
/// same preferences.
pub proof fn config_json_round_trip(c: ConfigView)
    ensures
        config_from_json(config_to_json(c)) == Some(c),
{
    reveal_strlit("launch_path");
    reveal_strlit("language");
    reveal_strlit("login_user_name");
    reveal_strlit("amount_languages");
    reveal_strlit("rc_strict_mode");
    reveal_strlit("enable_debug_mode");
    let f = config_to_json(c)->Object_0;
    assert forall|i: int, j: int| 0 <= i < j < 6 implies #[trigger] f[i].0 != #[trigger] f[j].0 by {
        assert(f[i].0.len() != f[j].0.len());
    }
    assert(f[0].0 == "launch_path"@ && f[1].0 == "language"@ && f[2].0 == "login_user_name"@);
    assert(f[3].0 == "amount_languages"@ && f[4].0 == "rc_strict_mode"@);
    assert(f[5].0 == "enable_debug_mode"@);
    lemma_lookup_at(f, "launch_path"@, 0);
    lemma_lookup_at(f, "language"@, 1);
    lemma_lookup_at(f, "login_user_name"@, 2);
    lemma_lookup_at(f, "amount_languages"@, 3);
    lemma_lookup_at(f, "rc_strict_mode"@, 4);
    lemma_lookup_at(f, "enable_debug_mode"@, 5);
}

} // verus!
