//! Accounts: where a player's save file lives, logging in, and registering.
use vstd::prelude::*;
use crate::engine::App;
use crate::resource::{RustConstructorResource, find_resource, first_named, has_resource, lemma_first_named};
use crate::user::{User, UserView};
use vstd::string::{StrSliceExecFns, StringExecFns};

verus! {

/// A character that may stand in a player's name: not a space, a slash or
/// a backslash.
pub open spec fn name_char(c: char) -> bool {
    c != ' ' && c != '/' && c != '\\'
}

/// A typed name with the characters that may not stand in a player's name
/// taken out.
pub open spec fn sanitized(s: Seq<char>) -> Seq<char>
    decreases s.len(),
{
    if s.len() == 0 {
        Seq::empty()
    } else if name_char(s.last()) {
        sanitized(s.drop_last()).push(s.last())
    } else {
        sanitized(s.drop_last())
    }
}

/// The path of the save file of the player named `name`.
pub open spec fn user_file(name: Seq<char>) -> Seq<char> {
    "Resources/config/user_"@ + name + ".json"@
}

/// Takes the spaces, slashes and backslashes out of a typed name.
pub fn sanitize_user_name(input: &str) -> (r: String)
    ensures
        r@ == sanitized(input@),
{
    let n = input.unicode_len();
    let mut out = String::new();
    let mut i: usize = 0;
    assert(input@.take(0) =~= Seq::<char>::empty());
    while i < n
        invariant
            0 <= i <= n,
            n == input@.len(),
            out@ == sanitized(input@.take(i as int)),
        decreases n - i,
    {
        let c = input.get_char(i);
        assert(input@.take(i + 1).drop_last() =~= input@.take(i as int));
        assert(input@.take(i + 1).last() == c);
        if c != ' ' && c != '/' && c != '\\' {
            let piece = input.substring_char(i, i + 1);
            assert(piece@ =~= seq![c]);
            out.append(piece);
        }
        i = i + 1;
    }
    assert(input@.take(n as int) =~= input@);
    out
}

/// The path of the save file of the player named `name`.
pub fn user_file_path(name: &str) -> (r: String)
    ensures
        r@ == user_file(name@),
{
    let mut p = "Resources/config/user_".to_owned();
    p.append(name);
    p.append(".json");
    p
}

/// What a registration attempt gives: whether to show the name error (the
/// name is empty once cleaned, or taken), whether to show the password error
/// (the two passwords differ), and the new player's save file when neither.
pub struct Registration {
    pub name_error: bool,
    pub password_error: bool,
    pub user: Option<User>,
}

/// The save file of a newly registered player.
pub open spec fn new_user(name: Seq<char>, password: Seq<char>, language: u8) -> UserView {
    UserView {
        name,
        password,
        language,
        wallpaper: "Resources/assets/images/wallpaper.png"@,
        current_map: "map_tutorial"@,
        level_status: Seq::empty(),
        gun_status: Seq::empty(),
        map_status: Seq::empty(),
        settings: Map::empty(),
        current_level: Seq::empty(),
    }
}

/// Registers a player from the typed name and the password typed twice;
/// `taken` says whether the save file of the cleaned name already exists.
pub fn register(name_input: &str, password: &str, check_password: &str, language: u8, taken: bool) -> (r: Registration)
    ensures
        r.password_error == (password@ != check_password@),
        r.name_error == (sanitized(name_input@).len() == 0 || taken),
        match r.user {
            Some(u) => !r.name_error && !r.password_error && u.wf() && u@ == new_user(
                sanitized(name_input@),
                password@,
                language,
            ),
            None => r.name_error || r.password_error,
        },
{
    let name = sanitize_user_name(name_input);
    let p1 = password.to_owned();
    let p2 = check_password.to_owned();
    let password_error = !(p1 == p2);
    let name_error = name.unicode_len() == 0 || taken;
    if password_error || name_error {
        return Registration { name_error, password_error, user: None };
    }
    let u = User {
        name,
        password: p1,
        language,
        wallpaper: "Resources/assets/images/wallpaper.png".to_owned(),
        current_map: "map_tutorial".to_owned(),
        level_status: Vec::new(),
        gun_status: Vec::new(),
        map_status: Vec::new(),
        settings: Vec::new(),
        current_level: String::new(),
    };
    assert(u@.level_status =~= Seq::empty());
    assert(u@.gun_status =~= Seq::empty());
    assert(u@.map_status =~= Seq::empty());
    assert(u@.settings =~= Map::empty());
    Registration { name_error, password_error, user: Some(u) }
}

/// The registration window: whether it is open, its page (0 the welcome,
/// 1 the form, 2 the confirmation), and which errors the form shows.
pub struct RegWindow {
    pub open: bool,
    pub status: u32,
    pub name_error: bool,
    pub password_error: bool,
}

impl RegWindow {
    /// The window as the login page starts: closed, on the welcome page,
    /// showing no error.
    pub fn closed() -> (w: RegWindow)
        ensures
            w == (RegWindow { open: false, status: 0, name_error: false, password_error: false }),
    {
        RegWindow { open: false, status: 0, name_error: false, password_error: false }
    }

    /// The register button: the window opens on its welcome page.
    pub fn open_window(&mut self)
        ensures
            *final(self) == (RegWindow { open: true, status: 0, ..*old(self) }),
    {
        self.status = 0;
        self.open = true;
    }

    /// The left button: cancel on the welcome page closes the window; cancel
    /// on the form, and register again on the confirmation, go back to the
    /// welcome page.
    pub fn back(&mut self)
        ensures
            old(self).status == 0 ==> *final(self) == (RegWindow { open: false, ..*old(self) }),
            old(self).status == 1 || old(self).status == 2 ==> *final(self) == (RegWindow {
                status: 0,
                ..*old(self)
            }),
            !(old(self).status <= 2) ==> *final(self) == *old(self),
    {
        if self.status == 0 {
            self.open = false;
        } else if self.status == 1 || self.status == 2 {
            self.status = 0;
        }
    }

    /// The right button on the welcome page: on to the form, with its errors
    /// cleared.
    pub fn proceed(&mut self)
        ensures
            old(self).status == 0 ==> *final(self) == (RegWindow {
                open: old(self).open,
                status: 1,
                name_error: false,
                password_error: false,
            }),
            old(self).status != 0 ==> *final(self) == *old(self),
    {
        if self.status == 0 {
            self.name_error = false;
            self.password_error = false;
            self.status = 1;
        }
    }

    /// The right button on the form: registers the player as `register`
    /// does, shows its errors, and goes on to the confirmation with the new
    /// save file (for the front end to write) when there are none.
    pub fn submit(&mut self, name_input: &str, password: &str, check_password: &str, language: u8, taken: bool) -> (r: Option<User>)
        ensures
            old(self).status != 1 ==> *final(self) == *old(self) && r is None,
            old(self).status == 1 ==> {
                &&& final(self).password_error == (password@ != check_password@)
                &&& final(self).name_error == (sanitized(name_input@).len() == 0 || taken)
                &&& final(self).open == old(self).open
                &&& final(self).status == (if r is Some {
                    2u32
                } else {
                    1u32
                })
                &&& match r {
                    Some(u) => !final(self).name_error && !final(self).password_error && u.wf()
                        && u@ == new_user(sanitized(name_input@), password@, language),
                    None => final(self).name_error || final(self).password_error,
                }
            },
    {
        if self.status != 1 {
            return None;
        }
        let reg = register(name_input, password, check_password, language, taken);
        self.password_error = reg.password_error;
        self.name_error = reg.name_error;
        if reg.user.is_some() {
            self.status = 2;
        }
        reg.user
    }

    /// The right button on the confirmation: the window closes, and the
    /// login form is filled with the new player's name (cleaned) and the
    /// password as typed the second time, which are given back.
    pub fn finish(&mut self, name_input: &str, check_password: &str) -> (r: Option<(String, String)>)
        ensures
            old(self).status == 2 ==> {
                &&& *final(self) == (RegWindow { open: false, ..*old(self) })
                &&& r matches Some((n, p)) && n@ == sanitized(name_input@) && p@ == check_password@
            },
            old(self).status != 2 ==> *final(self) == *old(self) && r is None,
    {
        if self.status == 2 {
            self.open = false;
            Some((sanitize_user_name(name_input), check_password.to_owned()))
        } else {
            None
        }
    }
}

/// Whether some moment of the views `v` is named `name`.
pub open spec fn view_has(v: Seq<(Seq<char>, [u32; 2])>, name: Seq<char>) -> bool {
    exists|i: int| 0 <= i < v.len() && #[trigger] v[i].0 == name
}

/// The position of the first moment of the views `v` named `name`.
pub open spec fn view_first(v: Seq<(Seq<char>, [u32; 2])>, name: Seq<char>) -> int {
    choose|i: int| 0 <= i < v.len() && v[i].0 == name && forall|j: int| 0 <= j < i ==> #[trigger] v[j].0 != name
}

/// The moments `v` after the moment named `name` is taken again at times
/// `t`: the first earlier one of that name goes, and the new one comes last.
pub open spec fn reset_view(v: Seq<(Seq<char>, [u32; 2])>, name: Seq<char>, t: [u32; 2]) -> Seq<(Seq<char>, [u32; 2])> {
    (if view_has(v, name) {
        v.remove(view_first(v, name))
    } else {
        v
    }).push((name, t))
}

/// Taking a moment again with `add_split_time(name, true)` does to the
/// moments what `reset_view` says.
pub proof fn lemma_reset_view(a: App, name: Seq<char>)
    ensures
        has_resource(a.timer.split_time@, name) == view_has(a.split_views(), name),
        has_resource(a.timer.split_time@, name) ==> first_named(a.timer.split_time@, name) == view_first(
            a.split_views(),
            name,
        ),
{
    let s = a.timer.split_time@;
    let v = a.split_views();
    assert(v.len() == s.len());
    assert forall|i: int| 0 <= i < s.len() implies #[trigger] v[i].0 == s[i].spec_name() by {}
    if has_resource(s, name) {
        let k = choose|i: int| 0 <= i < s.len() && #[trigger] s[i].spec_name() == name;
        assert(v[k].0 == name);
        lemma_first_named(s, name, k);
        let f = first_named(s, name);
        assert(0 <= f < v.len() && v[f].0 == name && forall|j: int| 0 <= j < f ==> #[trigger] v[j].0 != name) by {
            assert forall|j: int| 0 <= j < f implies #[trigger] v[j].0 != name by {
                assert(s[j].spec_name() != name);
            }
        }
        let g = view_first(v, name);
        assert(0 <= g < v.len() && v[g].0 == name && forall|j: int| 0 <= j < g ==> #[trigger] v[j].0 != name);
        if g < f {
            assert(v[g].0 != name);
        } else if f < g {
            assert(v[f].0 != name);
        }
    }
    if view_has(v, name) {
        let k = choose|i: int| 0 <= i < v.len() && #[trigger] v[i].0 == name;
        assert(s[k].spec_name() == name);
    }
}

impl App {
    /// Leaves the launch screen: to the login page when nobody is logged
    /// in, and otherwise to the home page as the player logged in last time,
    /// whose save file `saved` holds where it could be read (the player's
    /// language becomes the game's either way).
    pub fn leave_launch(&mut self, saved: Option<User>)
        ensures
            old(self).config.login_user_name@.len() == 0 ==> {
                &&& final(self).page@ == "Login"@
                &&& final(self).login_user_config == old(self).login_user_config
                &&& final(self).config == old(self).config
            },
            old(self).config.login_user_name@.len() != 0 ==> {
                &&& final(self).page@ == "Home_Page"@
                &&& final(self).login_user_config == (match saved {
                    Some(u) => u,
                    None => old(self).login_user_config,
                })
                &&& final(self).config.language == final(self).login_user_config.language
                &&& final(self).config.login_user_name == old(self).config.login_user_name
                &&& final(self).config.launch_path == old(self).config.launch_path
                &&& final(self).config.amount_languages == old(self).config.amount_languages
                &&& final(self).config.rc_strict_mode == old(self).config.rc_strict_mode
                &&& final(self).config.enable_debug_mode == old(self).config.enable_debug_mode
            },
            final(self).timer.start_time == old(self).timer.total_time,
            final(self).timer.total_time == old(self).timer.total_time,
            final(self).timer.now_time == old(self).timer.now_time,
            final(self).timer.split_time == old(self).timer.split_time,
            final(self).game_text == old(self).game_text,
            final(self).problem_list == old(self).problem_list,
            final(self).variables == old(self).variables,
            final(self).resource_page == old(self).resource_page,
            final(self).resource_switch == old(self).resource_switch,
    {
        if self.config.login_user_name.unicode_len() == 0 {
            self.switch_page("Login");
        } else {
            if let Some(u) = saved {
                self.login_user_config = u;
            }
            self.config.language = self.login_user_config.language;
            self.switch_page("Home_Page");
        }
    }

    /// Logs in with a player's save file and the typed password: when the
    /// password is the player's, the player's name and language become the
    /// game's and the page time starts from the current total time (the
    /// front end then brings the running times up to date and opens the
    /// home page with `open_home`). Gives whether it matched.
    pub fn log_in(&mut self, user: &User, password: &str) -> (ok: bool)
        ensures
            ok == (user.password@ == password@),
            ok ==> {
                &&& final(self).config.login_user_name@ == user.name@
                &&& final(self).config.language == user.language
                &&& final(self).config.launch_path == old(self).config.launch_path
                &&& final(self).config.amount_languages == old(self).config.amount_languages
                &&& final(self).config.rc_strict_mode == old(self).config.rc_strict_mode
                &&& final(self).config.enable_debug_mode == old(self).config.enable_debug_mode
                &&& final(self).timer.start_time == old(self).timer.total_time
                &&& final(self).timer.total_time == old(self).timer.total_time
                &&& final(self).timer.now_time == old(self).timer.now_time
                &&& final(self).timer.split_time == old(self).timer.split_time
                &&& final(self).page == old(self).page
                &&& final(self).login_user_config == old(self).login_user_config
            },
            !ok ==> *final(self) == *old(self),
            final(self).game_text == old(self).game_text,
            final(self).problem_list == old(self).problem_list,
            final(self).variables == old(self).variables,
            final(self).resource_page == old(self).resource_page,
            final(self).resource_switch == old(self).resource_switch,
    {
        let typed = password.to_owned();
        if user.password == typed {
            self.config.login_user_name = user.name.clone();
            self.config.language = user.language;
            self.timer.start_time = self.timer.total_time;
            true
        } else {
            false
        }
    }

    /// Opens the home page after logging in: where the dock has run its
    /// animation before (its moment exists), the dock's and the title's
    /// animation moments are taken again now; then the page switches.
    pub fn open_home(&mut self)
        ensures
            final(self).page@ == "Home_Page"@,
            final(self).timer.start_time == old(self).timer.total_time,
            final(self).timer.total_time == old(self).timer.total_time,
            final(self).timer.now_time == old(self).timer.now_time,
            !has_resource(old(self).timer.split_time@, "dock_animation"@) ==> final(self).timer.split_time
                == old(self).timer.split_time,
            has_resource(old(self).timer.split_time@, "dock_animation"@) ==> final(self).split_views()
                == reset_view(
                reset_view(
                    old(self).split_views(),
                    "dock_animation"@,
                    [old(self).timer.now_time, old(self).timer.total_time],
                ),
                "title_animation"@,
                [old(self).timer.now_time, old(self).timer.total_time],
            ),
            final(self).config == old(self).config,
            final(self).game_text == old(self).game_text,
            final(self).login_user_config == old(self).login_user_config,
            final(self).problem_list == old(self).problem_list,
            final(self).variables == old(self).variables,
            final(self).resource_page == old(self).resource_page,
            final(self).resource_switch == old(self).resource_switch,
    {
        if find_resource(&self.timer.split_time, "dock_animation").is_some() {
            let ghost s0 = *self;
            self.add_split_time("dock_animation", true);
            proof {
                lemma_reset_view(s0, "dock_animation"@);
            }
            let ghost s1 = *self;
            self.add_split_time("title_animation", true);
            proof {
                lemma_reset_view(s1, "title_animation"@);
            }
        }
        self.switch_page("Home_Page");
    }
}

} // verus!
