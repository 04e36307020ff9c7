//! The switches (buttons) that the game sets up as it launches.
use vstd::prelude::*;
use crate::engine::App;
use crate::switch::{PointerButton, Switch, SwitchClickAction, SwitchData};
use crate::widgets::appearance_views;

verus! {

/// The buttons with one state set up at launch, in order: name, texture,
/// and whether a primary click switches them.
pub open spec fn launch_buttons() -> Seq<(Seq<char>, Seq<char>, bool)> {
    seq![
        ("Shutdown"@, "Shutdown"@, true),
        ("Register"@, "Register"@, true),
        ("Login"@, "Login"@, true),
        ("Home_Home"@, "Home"@, true),
        ("Home_Journey"@, "Journey"@, true),
        ("Home_Settings"@, "Settings"@, true),
        ("Start_Operation"@, "Start_Operation"@, false),
        ("Forward"@, "Forward"@, false),
        ("Backward"@, "Backward"@, false),
        ("Back"@, "Back"@, false),
        ("Operation_Over"@, "Operation_Over"@, false),
        ("Refresh"@, "Refresh"@, false),
        ("Editor"@, "Editor"@, false),
    ]
}

/// The position among the launch switches of the power button, the one
/// with two states.
pub open spec fn power_position() -> int {
    6
}

/// How many switches are set up at launch.
pub open spec fn launch_switch_count() -> int {
    launch_buttons().len() + 1int
}

/// The appearances of a button with the texture `texture` in one state:
/// released in white, hovered and pressed darker.
pub open spec fn button_looks(texture: Seq<char>) -> Seq<(Seq<char>, [u8; 4])> {
    seq![
        (texture, [255u8, 255u8, 255u8, 255u8]),
        (texture, [180u8, 180u8, 180u8, 255u8]),
        (texture, [150u8, 150u8, 150u8, 255u8]),
    ]
}

/// The launch switch at position `k`: its name, its appearances and its
/// click methods. The power button (`Home_Power`) shows `Power` and then
/// `Logout`, and only a secondary click switches it.
pub open spec fn launch_switch(k: int) -> (Seq<char>, Seq<(Seq<char>, [u8; 4])>, Seq<SwitchClickAction>) {
    if k == power_position() {
        (
            "Home_Power"@,
            button_looks("Power"@) + button_looks("Logout"@),
            seq![
                SwitchClickAction { click_method: PointerButton::Primary, action: false },
                SwitchClickAction { click_method: PointerButton::Secondary, action: true },
            ],
        )
    } else {
        let b = if k < power_position() {
            launch_buttons()[k]
        } else {
            launch_buttons()[k - 1]
        };
        (b.0, button_looks(b.1), seq![SwitchClickAction { click_method: PointerButton::Primary, action: b.2 }])
    }
}

/// `sw` is the launch switch at position `k`, as it is set up.
pub open spec fn is_launch_switch(sw: Switch, k: int) -> bool {
    let (name, looks, clicks) = launch_switch(k);
    &&& sw.discern_type@ == "Switch"@
    &&& sw.name@ == name
    &&& sw.switch_image_name@ == name
    &&& sw.enable_hover_click_image == [true, true]
    &&& sw.state == 0
    &&& !sw.last_time_clicked
    &&& sw.last_time_clicked_index == 0
    &&& sw.animation_count == 3
    &&& appearance_views(sw.appearance@) == looks
    &&& sw.click_method@ == clicks
    &&& sw.wf()
}

/// The name, texture and action of the one-state button at `k` of the
/// table.
fn launch_button(k: usize) -> (r: (&'static str, &'static str, bool))
    requires
        k < 13,
    ensures
        r.0@ == launch_buttons()[k as int].0,
        r.1@ == launch_buttons()[k as int].1,
        r.2 == launch_buttons()[k as int].2,
{
    if k == 0 {
        ("Shutdown", "Shutdown", true)
    } else if k == 1 {
        ("Register", "Register", true)
    } else if k == 2 {
        ("Login", "Login", true)
    } else if k == 3 {
        ("Home_Home", "Home", true)
    } else if k == 4 {
        ("Home_Journey", "Journey", true)
    } else if k == 5 {
        ("Home_Settings", "Settings", true)
    } else if k == 6 {
        ("Start_Operation", "Start_Operation", false)
    } else if k == 7 {
        ("Forward", "Forward", false)
    } else if k == 8 {
        ("Backward", "Backward", false)
    } else if k == 9 {
        ("Back", "Back", false)
    } else if k == 10 {
        ("Operation_Over", "Operation_Over", false)
    } else if k == 11 {
        ("Refresh", "Refresh", false)
    } else {
        ("Editor", "Editor", false)
    }
}

/// The appearances of a button with the texture `texture` in one state,
/// added to `looks`.
fn push_button_looks(looks: &mut Vec<SwitchData>, texture: &str)
    ensures
        appearance_views(final(looks)@) == appearance_views(old(looks)@) + button_looks(texture@),
{
    let ghost before = appearance_views(looks@);
    looks.push(SwitchData { texture: texture.to_owned(), color: [255, 255, 255, 255] });
    looks.push(SwitchData { texture: texture.to_owned(), color: [180, 180, 180, 255] });
    looks.push(SwitchData { texture: texture.to_owned(), color: [150, 150, 150, 255] });
    assert(appearance_views(looks@) =~= before + button_looks(texture@));
}

impl App {
    /// The switch at position `k` among those set up at launch, added.
    fn add_launch_switch(&mut self, k: usize)
        requires
            old(self).wf(),
            k < 14,
        ensures
            final(self).wf(),
            final(self).resource_switch@.len() == old(self).resource_switch@.len() + 1,
            final(self).resource_switch@.take(old(self).resource_switch@.len() as int)
                == old(self).resource_switch@,
            is_launch_switch(final(self).resource_switch@.last(), k as int),
            final(self).problem_list == old(self).problem_list,
            final(self).config == old(self).config,
            final(self).game_text == old(self).game_text,
            final(self).page == old(self).page,
            final(self).resource_page == old(self).resource_page,
            final(self).variables == old(self).variables,
            final(self).timer == old(self).timer,
            final(self).resource_message_box == old(self).resource_message_box,
    {
        let mut looks: Vec<SwitchData> = Vec::new();
        let mut clicks: Vec<SwitchClickAction> = Vec::new();
        let name: &str;
        let states: u32;
        if k == 6 {
            name = "Home_Power";
            push_button_looks(&mut looks, "Power");
            push_button_looks(&mut looks, "Logout");
            clicks.push(SwitchClickAction { click_method: PointerButton::Primary, action: false });
            clicks.push(SwitchClickAction { click_method: PointerButton::Secondary, action: true });
            states = 2;
        } else {
            let b = if k < 6 {
                launch_button(k)
            } else {
                launch_button(k - 1)
            };
            name = b.0;
            push_button_looks(&mut looks, b.1);
            clicks.push(SwitchClickAction { click_method: PointerButton::Primary, action: b.2 });
            states = 1;
        }
        let ghost given = appearance_views(looks@);
        assert(given == launch_switch(k as int).1);
        assert(clicks@ == launch_switch(k as int).2);
        self.add_switch([name, name], looks, [true, true, true], states, clicks);
        assert(given + Seq::new(0nat, |j: int| crate::widgets::filler()) =~= given);
    }

    /// Sets up the switches of the launch, after those already there, in
    /// the order of the game: the shutdown, register and login buttons, the
    /// home page's buttons (the power button with its two states among
    /// them), and the buttons of the level pages and the editor.
    pub fn preload_switches(&mut self)
        requires
            old(self).wf(),
        ensures
            final(self).wf(),
            final(self).resource_switch@.len() == old(self).resource_switch@.len() + launch_switch_count(),
            final(self).resource_switch@.take(old(self).resource_switch@.len() as int)
                == old(self).resource_switch@,
            forall|k: int|
                0 <= k < launch_switch_count() ==> is_launch_switch(
                    #[trigger] final(self).resource_switch@[old(self).resource_switch@.len() + k],
                    k,
                ),
            final(self).problem_list == old(self).problem_list,
            final(self).config == old(self).config,
            final(self).game_text == old(self).game_text,
            final(self).page == old(self).page,
            final(self).resource_page == old(self).resource_page,
            final(self).variables == old(self).variables,
            final(self).timer == old(self).timer,
            final(self).resource_message_box == old(self).resource_message_box,
    {
        let ghost before = self.resource_switch@;
        let mut k: usize = 0;
        assert(launch_switch_count() == 14);
        while k < 14
            invariant
                0 <= k <= 14,
                launch_switch_count() == 14,
                self.wf(),
                self.resource_switch@.len() == before.len() + k,
                self.resource_switch@.take(before.len() as int) == before,
                forall|j: int| 0 <= j < k ==> is_launch_switch(#[trigger] self.resource_switch@[before.len() + j], j),
                before == old(self).resource_switch@,
                self.problem_list == old(self).problem_list,
                self.config == old(self).config,
                self.game_text == old(self).game_text,
                self.page == old(self).page,
                self.resource_page == old(self).resource_page,
                self.variables == old(self).variables,
                self.timer == old(self).timer,
                self.resource_message_box == old(self).resource_message_box,
            decreases 14 - k,
        {
            let ghost prev = self.resource_switch@;
            self.add_launch_switch(k);
            proof {
                assert forall|j: int| 0 <= j < k + 1 implies is_launch_switch(
                    #[trigger] self.resource_switch@[before.len() + j],
                    j,
                ) by {
                    if j < k {
                        assert(self.resource_switch@.take(prev.len() as int)[before.len() + j]
                            == prev[before.len() + j]);
                    }
                }
                assert(self.resource_switch@.take(before.len() as int) =~= before) by {
                    assert forall|j: int| 0 <= j < before.len() implies self.resource_switch@[j] == before[j] by {
                        assert(self.resource_switch@.take(prev.len() as int)[j] == prev[j]);
                        assert(prev.take(before.len() as int)[j] == before[j]);
                    }
                }
            }
            k = k + 1;
        }
    }
}

} // verus!
