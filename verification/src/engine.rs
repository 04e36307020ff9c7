//! The engine's state and its bookkeeping: pages, resource lookup with
//! problem reports, the variable store and the switches. The drawing, the
//! system clock and the sounds are the front end's; it keeps the timer's
//! running times up to date and
//! plays the sounds the outcomes ask for.
use vstd::prelude::*;
use crate::boxes::MessageBox;
use crate::config::{Config, ConfigView, config_from_json};
use crate::game_text::{GameText, game_text_from_json};
use crate::json::JsonNode;
use crate::resource::{
    PageData, Problem, ProblemView, RenderResource, ReportState, RustConstructorResource,
    SeverityLevel, find_resource, first_named, has_resource, lemma_first_named, render_views,
};
use crate::switch::{Pointer, Switch, SwitchClickAction, SwitchData, SwitchOutcome, appearances_per_state};
use crate::text::{concat, decimal, push_decimal};
use crate::user::{User, UserView};
use crate::value::{Value, ValueView, Variable, duplicate_values, view_values};
use vstd::string::StringExecFns;

verus! {

/// A named moment: the page time and the total time when it was taken.
#[derive(Debug)]
pub struct SplitTime {
    pub discern_type: String,
    pub name: String,
    pub time: [u32; 2],
}

impl RustConstructorResource for SplitTime {
    open spec fn spec_name(&self) -> Seq<char> {
        self.name@
    }

    open spec fn spec_expose_type(&self) -> Seq<char> {
        self.discern_type@
    }

    fn name(&self) -> (r: &str) {
        self.name.as_str()
    }

    fn expose_type(&self) -> (r: &str) {
        self.discern_type.as_str()
    }
}

/// The game's clock: the seconds it had run in all when the current page
/// was entered, in all, and on the current page, and the named moments.
/// Times are the bit patterns of `f32` seconds (`f32::to_bits`); the front
/// end reads the system clock and keeps `total_time` and `now_time` current.
#[derive(Debug)]
pub struct Timer {
    pub start_time: u32,
    pub total_time: u32,
    pub now_time: u32,
    pub split_time: Vec<SplitTime>,
}

/// The engine's state.
pub struct App {
    pub config: Config,
    pub game_text: GameText,
    pub render_resource_list: Vec<RenderResource>,
    pub problem_list: Vec<Problem>,
    pub login_user_config: User,
    pub page: String,
    pub resource_page: Vec<PageData>,
    pub variables: Vec<Variable>,
    pub resource_switch: Vec<Switch>,
    pub resource_message_box: Vec<MessageBox>,
    pub timer: Timer,
}

pub open spec fn problem_views(s: Seq<Problem>) -> Seq<ProblemView> {
    s.map_values(|p: Problem| p@)
}

/// The preferences used when `Preferences.json` gives none.
pub open spec fn default_config() -> ConfigView {
    ConfigView {
        launch_path: Seq::empty(),
        language: 0,
        login_user_name: Seq::empty(),
        amount_languages: 0,
        rc_strict_mode: false,
        enable_debug_mode: false,
    }
}

/// The names of the game's pages, in order.
pub open spec fn page_names() -> Seq<Seq<char>> {
    seq![
        "Launch"@,
        "Login"@,
        "Home_Page"@,
        "Home_Setting"@,
        "Home_Select_Map"@,
        "Select_Level"@,
        "Operation"@,
        "Operation_Result"@,
        "Error"@,
        "Editor"@,
    ]
}

/// The pages that the game draws a frame for, in order; any other page
/// (the result and editor pages among them) is reported as not found.
pub open spec fn drawn_pages() -> Seq<Seq<char>> {
    seq![
        "Launch"@,
        "Login"@,
        "Home_Page"@,
        "Home_Setting"@,
        "Home_Select_Map"@,
        "Select_Level"@,
        "Operation"@,
        "Error"@,
    ]
}

/// The save file in use before anyone has logged in.
pub open spec fn empty_user() -> UserView {
    UserView {
        name: Seq::empty(),
        password: Seq::empty(),
        language: 0,
        wallpaper: Seq::empty(),
        current_map: Seq::empty(),
        level_status: Seq::empty(),
        gun_status: Seq::empty(),
        map_status: Seq::empty(),
        settings: Map::empty(),
        current_level: Seq::empty(),
    }
}

/// The text of a report about a variable (or value) of the wrong type:
/// the subject in double quotes, a space, the localized text.
pub open spec fn quoted(subject: Seq<char>, text: Seq<char>) -> Seq<char> {
    "\""@ + subject + "\" "@ + text
}

fn new_page(name: &str) -> (p: PageData)
    ensures
        p.name@ == name@,
        p.discern_type@ == "PageData"@,
        p.forced_update,
        !p.change_page_updated,
{
    PageData {
        discern_type: "PageData".to_owned(),
        name: name.to_owned(),
        forced_update: true,
        change_page_updated: false,
    }
}

fn empty_user_config() -> (u: User)
    ensures
        u@ == empty_user(),
        u.wf(),
{
    let u = User {
        name: String::new(),
        password: String::new(),
        language: 0,
        wallpaper: String::new(),
        current_map: String::new(),
        level_status: Vec::new(),
        gun_status: Vec::new(),
        map_status: Vec::new(),
        settings: Vec::new(),
        current_level: String::new(),
    };
    assert(u@.level_status =~= Seq::empty());
    assert(u@.gun_status =~= Seq::empty());
    assert(u@.map_status =~= Seq::empty());
    assert(u@.settings =~= Map::empty());
    u
}

impl App {
    /// The texts can be looked up by key.
    pub open spec fn wf(&self) -> bool {
        self.game_text.wf()
    }

    /// The text under `key` exists in the configured language.
    pub open spec fn has_text(&self, key: Seq<char>) -> bool {
        self.game_text@.contains_key(key) && (self.config.language as int)
            < self.game_text@[key].len()
    }

    /// The text under `key` in the configured language.
    pub open spec fn text_of(&self, key: Seq<char>) -> Seq<char> {
        self.game_text@[key][self.config.language as int]
    }

    /// A problem reported now, on the current page at the current time.
    pub open spec fn problem_now(
        &self,
        problem: Seq<char>,
        severity_level: SeverityLevel,
        annotation: Seq<char>,
    ) -> ProblemView {
        ProblemView {
            severity_level,
            problem,
            annotation,
            current_page: self.page@,
            current_total_runtime: self.timer.total_time,
            current_page_runtime: self.timer.now_time,
        }
    }

    /// `next` is `prev` with `p` reported and nothing else changed.
    pub open spec fn reported(prev: App, next: App, p: ProblemView) -> bool {
        &&& problem_views(next.problem_list@) == problem_views(prev.problem_list@).push(p)
        &&& next.config == prev.config
        &&& next.game_text == prev.game_text
        &&& next.render_resource_list == prev.render_resource_list
        &&& next.login_user_config == prev.login_user_config
        &&& next.page == prev.page
        &&& next.resource_page == prev.resource_page
        &&& next.variables == prev.variables
        &&& next.resource_switch == prev.resource_switch
        &&& next.resource_message_box == prev.resource_message_box
        &&& next.timer == prev.timer
    }

    /// What reporting a variable or value `subject` of the wrong type
    /// records; `type_key` names the text that says which type was expected.
    pub open spec fn wrong_type_report(&self, subject: Seq<char>, type_key: Seq<char>) -> ProblemView {
        self.problem_now(
            quoted(subject, self.text_of(type_key)),
            SeverityLevel::SevereWarning,
            self.text_of("error_variable_wrong_type_annotation"@),
        )
    }

    /// A wrong type can be reported: not in strict mode, and with the texts
    /// of the report at hand.
    pub open spec fn can_report_wrong_type(&self, type_key: Seq<char>) -> bool {
        !self.config.rc_strict_mode && self.has_text(type_key) && self.has_text(
            "error_variable_wrong_type_annotation"@,
        )
    }

    /// The engine as it starts, with the preferences and texts of the given
    /// documents where they hold some, and the defaults otherwise.
    pub fn new(preferences: Option<&JsonNode>, game_text: Option<&JsonNode>) -> (app: App)
        ensures
            app.wf(),
            app.config@ == (match preferences {
                Some(d) => match config_from_json(d@) {
                    Some(c) => c,
                    None => default_config(),
                },
                None => default_config(),
            }),
            app.game_text@ == (match game_text {
                Some(d) => match game_text_from_json(d@) {
                    Some(g) => g,
                    None => Map::empty(),
                },
                None => Map::empty(),
            }),
            app.render_resource_list@.len() == 0,
            app.problem_list@.len() == 0,
            app.login_user_config@ == empty_user(),
            app.login_user_config.wf(),
            app.page@ == "Launch"@,
            app.resource_page@.map_values(|p: PageData| p.name@) == page_names(),
            forall|i: int|
                0 <= i < app.resource_page.len() ==> {
                    &&& (#[trigger] app.resource_page@[i]).discern_type@ == "PageData"@
                    &&& app.resource_page@[i].forced_update
                    &&& !app.resource_page@[i].change_page_updated
                },
            app.variables@.len() == 0,
            app.resource_switch@.len() == 0,
            app.timer.start_time == 0 && app.timer.total_time == 0 && app.timer.now_time == 0,
            app.timer.split_time@.len() == 0,
    {
        let mut config = Config {
            launch_path: String::new(),
            language: 0,
            login_user_name: String::new(),
            amount_languages: 0,
            rc_strict_mode: false,
            enable_debug_mode: false,
        };
        match preferences {
            Some(d) => match Config::from_json_value(d) {
                Some(c) => {
                    config = c;
                },
                None => {},
            },
            None => {},
        }
        let mut text = GameText { game_text: Vec::new() };
        assert(text@ =~= Map::empty());
        match game_text {
            Some(d) => match GameText::from_json_value(d) {
                Some(g) => {
                    text = g;
                },
                None => {},
            },
            None => {},
        }
        let mut pages: Vec<PageData> = Vec::new();
        pages.push(new_page("Launch"));
        pages.push(new_page("Login"));
        pages.push(new_page("Home_Page"));
        pages.push(new_page("Home_Setting"));
        pages.push(new_page("Home_Select_Map"));
        pages.push(new_page("Select_Level"));
        pages.push(new_page("Operation"));
        pages.push(new_page("Operation_Result"));
        pages.push(new_page("Error"));
        pages.push(new_page("Editor"));
        assert(pages@.map_values(|p: PageData| p.name@) =~= page_names());
        App {
            config,
            game_text: text,
            render_resource_list: Vec::new(),
            problem_list: Vec::new(),
            login_user_config: empty_user_config(),
            page: "Launch".to_owned(),
            resource_page: pages,
            variables: Vec::new(),
            resource_switch: Vec::new(),
            resource_message_box: Vec::new(),
            timer: Timer { start_time: 0, total_time: 0, now_time: 0, split_time: Vec::new() },
        }
    }

    /// The text under `key` in the configured language.
    pub fn localized(&self, key: &str) -> (r: String)
        requires
            self.wf(),
            self.has_text(key@),
        ensures
            r@ == self.text_of(key@),
    {
        match self.game_text.lookup(key, self.config.language) {
            Some(t) => t,
            None => String::new(),
        }
    }

    /// Whether the text under `key` exists in the configured language.
    pub fn has_localized(&self, key: &str) -> (r: bool)
        requires
            self.wf(),
        ensures
            r == self.has_text(key@),
    {
        self.game_text.lookup(key, self.config.language).is_some()
    }

    /// Records a problem, on the current page at the current time (the front
    /// end plays the error sound).
    pub fn problem_report(&mut self, problem: &str, severity_level: SeverityLevel, annotation: &str)
        ensures
            App::reported(*old(self), *final(self), old(self).problem_now(problem@, severity_level, annotation@)),
    {
        let p = Problem {
            severity_level,
            problem: problem.to_owned(),
            annotation: annotation.to_owned(),
            report_state: ReportState {
                current_page: self.page.clone(),
                current_total_runtime: self.timer.total_time,
                current_page_runtime: self.timer.now_time,
            },
        };
        let ghost before = self.problem_list@;
        self.problem_list.push(p);
        assert(problem_views(self.problem_list@) =~= problem_views(before).push(
            old(self).problem_now(problem@, severity_level, annotation@),
        ));
    }

    pub(crate) fn report_wrong_type(&mut self, subject: &str, type_key: &str)
        requires
            old(self).wf(),
            old(self).can_report_wrong_type(type_key@),
        ensures
            App::reported(*old(self), *final(self), old(self).wrong_type_report(subject@, type_key@)),
    {
        let t = self.localized(type_key);
        let mut message = concat("\"", subject);
        message.append("\" ");
        message.append(t.as_str());
        let annotation = self.localized("error_variable_wrong_type_annotation");
        self.problem_report(message.as_str(), SeverityLevel::SevereWarning, annotation.as_str());
    }

    /// The position of the resource named `resource_name` in the list: the
    /// first resource of that name. A resource that does not exist stops
    /// the game, so that input is left out.
    pub fn track_resource<T: RustConstructorResource>(
        &mut self,
        resource_list: &Vec<T>,
        resource_name: &str,
    ) -> (r: usize)
        requires
            has_resource(resource_list@, resource_name@),
        ensures
            r == first_named(resource_list@, resource_name@),
            r < resource_list.len(),
            *final(self) == *old(self),
    {
        let found = find_resource(resource_list, resource_name);
        found.unwrap()
    }

    /// The named moments, by name and times.
    pub open spec fn split_views(&self) -> Seq<(Seq<char>, [u32; 2])> {
        self.timer.split_time@.map_values(|t: SplitTime| (t.name@, t.time))
    }

    /// Takes a named moment now: its page time and total time. With `reset`
    /// the earlier moment of that name (the first, if there are several)
    /// goes first.
    pub fn add_split_time(&mut self, name: &str, reset: bool)
        ensures
            ({
                let kept = if reset && has_resource(old(self).timer.split_time@, name@) {
                    old(self).split_views().remove(first_named(old(self).timer.split_time@, name@))
                } else {
                    old(self).split_views()
                };
                final(self).split_views() == kept.push((name@, [old(self).timer.now_time, old(self).timer.total_time]))
            }),
            final(self).timer.start_time == old(self).timer.start_time,
            final(self).timer.total_time == old(self).timer.total_time,
            final(self).timer.now_time == old(self).timer.now_time,
            final(self).config == old(self).config,
            final(self).game_text == old(self).game_text,
            final(self).login_user_config == old(self).login_user_config,
            final(self).problem_list == old(self).problem_list,
            final(self).page == old(self).page,
            final(self).resource_page == old(self).resource_page,
            final(self).variables == old(self).variables,
            final(self).resource_switch == old(self).resource_switch,
            final(self).resource_message_box == old(self).resource_message_box,
    {
        let ghost before = self.split_views();
        if reset {
            match find_resource(&self.timer.split_time, name) {
                Some(i) => {
                    let ghost s = self.timer.split_time@;
                    self.timer.split_time.remove(i);
                    assert(self.split_views() =~= before.remove(i as int));
                },
                None => {},
            }
        }
        let ghost kept = self.split_views();
        let t = SplitTime {
            discern_type: "SplitTime".to_owned(),
            name: name.to_owned(),
            time: [self.timer.now_time, self.timer.total_time],
        };
        self.timer.split_time.push(t);
        assert(self.split_views() =~= kept.push((name@, [old(self).timer.now_time, old(self).timer.total_time])));
    }

    /// The times of the moment named `name` (the first of that name). A
    /// moment that does not exist stops the game, so that input is left
    /// out.
    pub fn split_time(&mut self, name: &str) -> (r: [u32; 2])
        requires
            has_resource(old(self).timer.split_time@, name@),
        ensures
            r == old(self).timer.split_time@[first_named(old(self).timer.split_time@, name@)].time,
            *final(self) == *old(self),
    {
        let id = find_resource(&self.timer.split_time, name).unwrap();
        self.timer.split_time[id].time
    }

    /// Goes to another page: the page time starts from the current total
    /// time (the front end then brings the running times up to date).
    pub fn switch_page(&mut self, page: &str)
        ensures
            final(self).page@ == page@,
            final(self).timer.start_time == old(self).timer.total_time,
            final(self).timer.total_time == old(self).timer.total_time,
            final(self).timer.now_time == old(self).timer.now_time,
            final(self).timer.split_time == old(self).timer.split_time,
            final(self).config == old(self).config,
            final(self).game_text == old(self).game_text,
            final(self).login_user_config == old(self).login_user_config,
            final(self).problem_list == old(self).problem_list,
            final(self).resource_page == old(self).resource_page,
            final(self).variables == old(self).variables,
            final(self).resource_switch == old(self).resource_switch,
    {
        self.page = page.to_owned();
        self.timer.start_time = self.timer.total_time;
    }

    /// Marks the page named `name` as set up since it was entered, the page
    /// time starting from the current total time (the front end then brings
    /// the running times up to date). A page that does not exist stops the
    /// game, so that input is left out.
    pub fn new_page_update(&mut self, name: &str)
        requires
            old(self).wf(),
            has_resource(old(self).resource_page@, name@),
        ensures
            final(self).wf(),
            ({
                let i = first_named(old(self).resource_page@, name@);
                &&& final(self).resource_page@.len() == old(self).resource_page@.len()
                &&& forall|j: int|
                    0 <= j < old(self).resource_page.len() && j != i ==> #[trigger] final(self).resource_page@[j]
                        == old(self).resource_page@[j]
                &&& final(self).resource_page@[i].change_page_updated
                &&& final(self).resource_page@[i].name == old(self).resource_page@[i].name
                &&& final(self).resource_page@[i].discern_type == old(self).resource_page@[i].discern_type
                &&& final(self).resource_page@[i].forced_update == old(self).resource_page@[i].forced_update
            }),
            final(self).problem_list == old(self).problem_list,
            final(self).config == old(self).config,
            final(self).game_text == old(self).game_text,
            final(self).page == old(self).page,
            final(self).variables == old(self).variables,
            final(self).resource_switch == old(self).resource_switch,
            final(self).timer.start_time == old(self).timer.total_time,
            final(self).timer.total_time == old(self).timer.total_time,
            final(self).timer.now_time == old(self).timer.now_time,
            final(self).timer.split_time == old(self).timer.split_time,
    {
        self.timer.start_time = self.timer.total_time;
        let id = find_resource(&self.resource_page, name).unwrap();
        self.resource_page[id].change_page_updated = true;
    }

    /// Whether the page named `name` has been set up since it was entered;
    /// if not, it is marked as set up now (and `false` tells the front end
    /// to restart the page clock). A page that does not exist stops the
    /// game, so that input is left out.
    pub fn check_updated(&mut self, name: &str) -> (r: bool)
        requires
            old(self).wf(),
            has_resource(old(self).resource_page@, name@),
        ensures
            final(self).wf(),
            ({
                let i = first_named(old(self).resource_page@, name@);
                &&& r == old(self).resource_page@[i].change_page_updated
                &&& r ==> final(self).resource_page == old(self).resource_page
                &&& !r ==> final(self).resource_page@.len() == old(self).resource_page@.len()
                    && final(self).resource_page@[i].change_page_updated
                    && final(self).resource_page@[i].name == old(self).resource_page@[i].name
                    && forall|j: int|
                    0 <= j < old(self).resource_page.len() && j != i ==> #[trigger] final(self).resource_page@[j]
                        == old(self).resource_page@[j]
            }),
            final(self).problem_list == old(self).problem_list,
            final(self).config == old(self).config,
            final(self).game_text == old(self).game_text,
            final(self).page == old(self).page,
            final(self).variables == old(self).variables,
            final(self).resource_switch == old(self).resource_switch,
            r ==> final(self).timer == old(self).timer,
            !r ==> final(self).timer.start_time == old(self).timer.total_time,
            final(self).timer.total_time == old(self).timer.total_time,
            final(self).timer.now_time == old(self).timer.now_time,
            final(self).timer.split_time == old(self).timer.split_time,
    {
        let id = find_resource(&self.resource_page, name).unwrap();
        if self.resource_page[id].change_page_updated {
            true
        } else {
            self.new_page_update(name);
            false
        }
    }

    /// Whether the game draws a frame for the page `page`.
    pub fn draws_page(page: &str) -> (r: bool)
        ensures
            r == drawn_pages().contains(page@),
    {
        let p = page.to_owned();
        let r = p == "Launch".to_owned() || p == "Login".to_owned() || p == "Home_Page".to_owned()
            || p == "Home_Setting".to_owned() || p == "Home_Select_Map".to_owned() || p
            == "Select_Level".to_owned() || p == "Operation".to_owned() || p == "Error".to_owned();
        let ghost names = drawn_pages();
        assert(names[0] == "Launch"@ && names[1] == "Login"@ && names[2] == "Home_Page"@);
        assert(names[3] == "Home_Setting"@ && names[4] == "Home_Select_Map"@);
        assert(names[5] == "Select_Level"@ && names[6] == "Operation"@ && names[7] == "Error"@);
        if r {
            assert(names.contains(page@));
        } else {
            assert forall|i: int| 0 <= i < names.len() implies names[i] != page@ by {
                assert(i == 0 || i == 1 || i == 2 || i == 3 || i == 4 || i == 5 || i == 6 || i == 7);
            }
        }
        r
    }

    /// The frame on the current page, where the game draws no frame for
    /// that page: the page not found is reported as an error (the text
    /// `error_page_not_found` followed by the page's name, with the text
    /// `error_page_not_found_annotation`) and the game goes to the `Error`
    /// page; `false` tells the front end to play the error sound. On a page
    /// that the game draws: `true`, and nothing changes. In strict mode a
    /// page not found stops the game, and so does a missing text; those
    /// inputs are left out.
    pub fn check_page(&mut self) -> (r: bool)
        requires
            old(self).wf(),
            !drawn_pages().contains(old(self).page@) ==> {
                &&& !old(self).config.rc_strict_mode
                &&& old(self).has_text("error_page_not_found"@)
                &&& old(self).has_text("error_page_not_found_annotation"@)
            },
        ensures
            r == drawn_pages().contains(old(self).page@),
            r ==> *final(self) == *old(self),
            !r ==> {
                &&& problem_views(final(self).problem_list@) == problem_views(old(self).problem_list@).push(
                    old(self).problem_now(
                        old(self).text_of("error_page_not_found"@) + old(self).page@,
                        SeverityLevel::Error,
                        old(self).text_of("error_page_not_found_annotation"@),
                    ),
                )
                &&& final(self).page@ == "Error"@
                &&& final(self).timer.start_time == old(self).timer.total_time
                &&& final(self).timer.total_time == old(self).timer.total_time
                &&& final(self).timer.now_time == old(self).timer.now_time
                &&& final(self).timer.split_time == old(self).timer.split_time
                &&& final(self).config == old(self).config
                &&& final(self).game_text == old(self).game_text
                &&& final(self).login_user_config == old(self).login_user_config
                &&& final(self).resource_page == old(self).resource_page
                &&& final(self).variables == old(self).variables
                &&& final(self).resource_switch == old(self).resource_switch
            },
    {
        if App::draws_page(self.page.as_str()) {
            return true;
        }
        let not_found = self.localized("error_page_not_found");
        let problem = concat(not_found.as_str(), self.page.as_str());
        let annotation = self.localized("error_page_not_found_annotation");
        self.problem_report(problem.as_str(), SeverityLevel::Error, annotation.as_str());
        self.switch_page("Error");
        false
    }
}

} // verus!
