//! Creating switches and running them frame by frame.
use vstd::prelude::*;
use crate::engine::{App, problem_views};
use crate::resource::{RustConstructorResource, SeverityLevel, find_resource, first_named, has_resource, render_views};
use crate::switch::{Pointer, Switch, SwitchClickAction, SwitchData, SwitchOutcome, appearances_per_state};
use crate::text::{concat, decimal, push_decimal};
use vstd::string::StringExecFns;

verus! {

impl View for SwitchData {
    type V = (Seq<char>, [u8; 4]);

    open spec fn view(&self) -> (Seq<char>, [u8; 4]) {
        (self.texture@, self.color)
    }
}

pub open spec fn appearance_views(s: Seq<SwitchData>) -> Seq<(Seq<char>, [u8; 4])> {
    s.map_values(|d: SwitchData| d@)
}

/// The appearance that fills in for a missing one.
pub open spec fn filler() -> (Seq<char>, [u8; 4]) {
    ("Error"@, [255u8, 255u8, 255u8, 255u8])
}

impl App {
    /// A switch named `name` exists.
    pub open spec fn has_switch(&self, name: Seq<char>) -> bool {
        has_resource(self.resource_switch@, name)
    }

    /// The position of the switch named `name` (0 where there is none).
    pub open spec fn switch_pos(&self, name: Seq<char>) -> int {
        if self.has_switch(name) {
            first_named(self.resource_switch@, name)
        } else {
            0
        }
    }

    /// All switches are sound.
    pub open spec fn switches_wf(&self) -> bool {
        forall|i: int| 0 <= i < self.resource_switch.len() ==> (#[trigger] self.resource_switch@[i]).wf()
    }

    /// Adds a switch with `switch_amounts_state` states. Each state needs one
    /// appearance, plus one for hovering and one for pressing where those are
    /// enabled. Missing appearances are reported and filled in with the
    /// `Error` texture in white (in strict mode, and where there are too
    /// many, the game stops instead, so those inputs are left out). The front
    /// end then lets the switch's image take overlay colours.
    pub fn add_switch(
        &mut self,
        name_and_switch_image_name: [&str; 2],
        appearance: Vec<SwitchData>,
        enable_hover_click_image_and_use_overlay: [bool; 3],
        switch_amounts_state: u32,
        click_method: Vec<SwitchClickAction>,
    )
        requires
            old(self).wf(),
            appearances_per_state([enable_hover_click_image_and_use_overlay[0], enable_hover_click_image_and_use_overlay[1]])
                * switch_amounts_state <= u32::MAX,
            appearance.len() <= u32::MAX,
            appearance.len() != appearances_per_state([enable_hover_click_image_and_use_overlay[0], enable_hover_click_image_and_use_overlay[1]])
                * switch_amounts_state ==> {
                &&& appearance.len() < appearances_per_state([enable_hover_click_image_and_use_overlay[0], enable_hover_click_image_and_use_overlay[1]])
                    * switch_amounts_state
                &&& !old(self).config.rc_strict_mode
                &&& old(self).has_text("error_switch_appearance_mismatch"@)
                &&& old(self).has_text("error_switch_appearance_mismatch_annotation"@)
            },
        ensures
            ({
                let e = [enable_hover_click_image_and_use_overlay[0], enable_hover_click_image_and_use_overlay[1]];
                let count = appearances_per_state(e);
                let expected = count * switch_amounts_state;
                let missing = expected - appearance.len();
                let sw = final(self).resource_switch@.last();
                &&& final(self).resource_switch@.len() == old(self).resource_switch@.len() + 1
                &&& final(self).resource_switch@.take(old(self).resource_switch@.len() as int)
                    == old(self).resource_switch@
                &&& sw.discern_type@ == "Switch"@
                &&& sw.name@ == name_and_switch_image_name[0]@
                &&& sw.switch_image_name@ == name_and_switch_image_name[1]@
                &&& sw.enable_hover_click_image == e
                &&& sw.state == 0
                &&& sw.click_method == click_method
                &&& !sw.last_time_clicked
                &&& sw.last_time_clicked_index == 0
                &&& sw.animation_count == count
                &&& appearance_views(sw.appearance@) == appearance_views(appearance@) + Seq::new(
                    missing as nat,
                    |k: int| filler(),
                )
                &&& switch_amounts_state >= 1 ==> sw.wf()
                &&& missing == 0 ==> final(self).problem_list == old(self).problem_list
                &&& missing != 0 ==> problem_views(final(self).problem_list@) == problem_views(
                    old(self).problem_list@,
                ).push(
                    old(self).problem_now(
                        name_and_switch_image_name[0]@ + old(self).text_of("error_switch_appearance_mismatch"@)
                            + ":"@ + decimal(missing as nat),
                        SeverityLevel::MildWarning,
                        old(self).text_of("error_switch_appearance_mismatch_annotation"@),
                    ),
                )
            }),
            final(self).wf(),
            final(self).config == old(self).config,
            final(self).game_text == old(self).game_text,
            final(self).page == old(self).page,
            final(self).resource_page == old(self).resource_page,
            final(self).variables == old(self).variables,
            final(self).timer == old(self).timer,
            final(self).resource_message_box == old(self).resource_message_box,
    {
        let e0 = enable_hover_click_image_and_use_overlay[0];
        let e1 = enable_hover_click_image_and_use_overlay[1];
        let mut count: u32 = 1;
        if e0 {
            count = count + 1;
        }
        if e1 {
            count = count + 1;
        }
        assert(count == appearances_per_state([e0, e1]));
        let expected: u32 = count * switch_amounts_state;
        let len: u32 = appearance.len() as u32;
        let mut appearance = appearance;
        let ghost given = appearance_views(appearance@);
        if len != expected {
            let missing: u32 = expected - len;
            let t = self.localized("error_switch_appearance_mismatch");
            let mut message = concat(name_and_switch_image_name[0], t.as_str());
            message.append(":");
            push_decimal(&mut message, missing);
            let annotation = self.localized("error_switch_appearance_mismatch_annotation");
            self.problem_report(message.as_str(), SeverityLevel::MildWarning, annotation.as_str());
            let mut k: u32 = 0;
            while k < missing
                invariant
                    0 <= k <= missing,
                    appearance_views(appearance@) == given + Seq::new(k as nat, |j: int| filler()),
                    appearance.len() == len + k,
                decreases missing - k,
            {
                let ghost before = appearance_views(appearance@);
                appearance.push(SwitchData { texture: "Error".to_owned(), color: [255, 255, 255, 255] });
                assert(appearance_views(appearance@) =~= before.push(filler()));
                assert(given + Seq::new((k + 1) as nat, |j: int| filler()) =~= (given
                    + Seq::new(k as nat, |j: int| filler())).push(filler()));
                k = k + 1;
            }
        } else {
            assert(appearance_views(appearance@) =~= given + Seq::new(0nat, |j: int| filler()));
        }
        let ghost before = self.resource_switch@;
        let sw = Switch {
            discern_type: "Switch".to_owned(),
            name: name_and_switch_image_name[0].to_owned(),
            appearance,
            switch_image_name: name_and_switch_image_name[1].to_owned(),
            enable_hover_click_image: [e0, e1],
            state: 0,
            click_method,
            last_time_clicked: false,
            last_time_clicked_index: 0,
            animation_count: count,
        };
        proof {
            if switch_amounts_state >= 1 {
                assert(sw.appearance.len() == count * switch_amounts_state);
                assert((count * switch_amounts_state) as int % (count as int) == 0) by (nonlinear_arith)
                    requires count >= 1;
                assert((count * switch_amounts_state) as int / (count as int) == switch_amounts_state) by (nonlinear_arith)
                    requires count >= 1;
            }
        }
        self.resource_switch.push(sw);
        assert(self.resource_switch@.take(before.len() as int) =~= before);
    }

    /// One frame of the switch named `name`: it is recorded as drawn, and
    /// its state moves as the pointer says. A switch that does not exist
    /// stops the game, so that input is left out. The front end shows the appearance the
    /// outcome names and plays the click sound when asked to.
    pub fn switch(&mut self, name: &str, enable: bool, pointer: &Pointer, play_sound: bool) -> (r: SwitchOutcome)
        requires
            old(self).wf(),
            old(self).switches_wf(),
            old(self).has_switch(name@),
        ensures
            final(self).wf(),
            final(self).switches_wf(),
            ({
                let i = old(self).switch_pos(name@);
                let before = old(self).resource_switch@[i];
                let after = final(self).resource_switch@[i];
                let st = before.step_spec(enable, *pointer, play_sound);
                &&& r == st.outcome
                &&& final(self).resource_switch@.len() == old(self).resource_switch@.len()
                &&& forall|j: int|
                    0 <= j < old(self).resource_switch.len() && j != i ==> #[trigger] final(self).resource_switch@[j]
                        == old(self).resource_switch@[j]
                &&& after.state == st.state
                &&& after.last_time_clicked == st.last_time_clicked
                &&& after.last_time_clicked_index == st.last_time_clicked_index
                &&& after.appearance == before.appearance
                &&& after.click_method == before.click_method
                &&& after.name == before.name
                &&& after.switch_image_name == before.switch_image_name
                &&& after.enable_hover_click_image == before.enable_hover_click_image
                &&& after.animation_count == before.animation_count
                &&& render_views(final(self).render_resource_list@) == render_views(
                    old(self).render_resource_list@,
                ).push((before.discern_type@, before.name@))
                &&& r.shown matches Some(k) ==> k < after.appearance.len()
            }),
            final(self).problem_list == old(self).problem_list,
            final(self).config == old(self).config,
            final(self).game_text == old(self).game_text,
            final(self).page == old(self).page,
            final(self).resource_page == old(self).resource_page,
            final(self).variables == old(self).variables,
            final(self).timer == old(self).timer,
            final(self).resource_message_box == old(self).resource_message_box,
    {
        let id = find_resource(&self.resource_switch, name).unwrap();
        self.resource_switch[id].reg_render_resource(&mut self.render_resource_list);
        let r = self.resource_switch[id].step(enable, pointer, play_sound);
        r
    }
}

} // verus!
