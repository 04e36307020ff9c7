//! Switches: images that act as buttons. A switch has some states; each
//! state has one appearance, plus one for hovering and one for pressing where
//! those are enabled. Releasing a press of a method whose action is set moves
//! the switch on to its next state, cyclically.
use vstd::prelude::*;
use crate::resource::RustConstructorResource;

verus! {

/// A mouse button.
#[derive(Clone, Copy, Debug, PartialEq, Eq, Structural)]
pub enum PointerButton {
    Primary,
    Secondary,
    Middle,
    Extra1,
    Extra2,
}

/// A way to click a switch: the button, and whether releasing it moves the
/// switch on to its next state.
#[derive(Clone, Copy, Debug, PartialEq, Eq, Structural)]
pub struct SwitchClickAction {
    pub click_method: PointerButton,
    pub action: bool,
}

/// One appearance of a switch: the texture shown and the colour laid over it.
#[derive(Debug)]
pub struct SwitchData {
    pub texture: String,
    pub color: [u8; 4],
}

#[derive(Debug)]
pub struct Switch {
    pub discern_type: String,
    pub name: String,
    pub appearance: Vec<SwitchData>,
    pub switch_image_name: String,
    pub enable_hover_click_image: [bool; 2],
    pub state: u32,
    pub click_method: Vec<SwitchClickAction>,
    pub last_time_clicked: bool,
    pub last_time_clicked_index: usize,
    pub animation_count: u32,
}

impl RustConstructorResource for Switch {
    open spec fn spec_name(&self) -> Seq<char> {
        self.name@
    }

    open spec fn spec_expose_type(&self) -> Seq<char> {
        self.discern_type@
    }

    fn name(&self) -> (r: &str) {
        self.name.as_str()
    }

    fn expose_type(&self) -> (r: &str) {
        self.discern_type.as_str()
    }
}

/// Where the pointer is in this frame, seen from one switch: not over the
/// window, outside the switch's image, or inside it with, for each of the
/// switch's click methods in order, whether its button is down (a click
/// method with no entry counts as up; entries past the click methods are
/// not looked at).
pub enum Pointer {
    Absent,
    Outside,
    Inside(Vec<bool>),
}

/// What a frame of a switch gives: `activated[0]` is the index of the click
/// method just released (5 where none was), `activated[1]` the state after
/// the frame; `shown` the appearance to display now (`None`: leave it as it
/// is); `click_sound` whether to play the click sound.
#[derive(Clone, Copy, Debug, PartialEq, Eq)]
pub struct SwitchOutcome {
    pub activated: [usize; 2],
    pub shown: Option<usize>,
    pub click_sound: bool,
}

/// The number of appearances per state: one, plus one for hovering and one
/// for pressing where enabled.
pub open spec fn appearances_per_state(e: [bool; 2]) -> u32 {
    (1 + (if e[0] { 1u32 } else { 0u32 }) + (if e[1] { 1u32 } else { 0u32 })) as u32
}

/// `u` is the first index whose entry is set.
pub open spec fn is_first_pressed(v: Seq<bool>, u: int) -> bool {
    0 <= u < v.len() && v[u] && forall|j: int| 0 <= j < u ==> !v[j]
}

/// The first click method whose button is down, if any.
pub open spec fn first_pressed(v: Seq<bool>) -> Option<int> {
    if exists|u: int| is_first_pressed(v, u) {
        Some(choose|u: int| is_first_pressed(v, u))
    } else {
        None
    }
}

/// What one frame does to a switch: its next state, whether it is being
/// pressed, the index of the click method last pressed, and the outcome.
pub struct SwitchStep {
    pub state: u32,
    pub last_time_clicked: bool,
    pub last_time_clicked_index: usize,
    pub outcome: SwitchOutcome,
}

impl Switch {
    /// The switch is sound: the appearances come in whole groups, one per
    /// state, the state names one of them, and a press in progress names one
    /// of the click methods.
    pub open spec fn wf(&self) -> bool {
        &&& self.animation_count == appearances_per_state(self.enable_hover_click_image)
        &&& self.appearance.len() <= u32::MAX
        &&& (self.appearance.len() as int) % (self.animation_count as int) == 0
        &&& (self.state as int) < (self.appearance.len() as int) / (self.animation_count as int)
        &&& self.last_time_clicked ==> self.last_time_clicked_index < self.click_method.len()
    }

    /// The number of states.
    pub open spec fn state_count(&self) -> int {
        (self.appearance.len() as int) / (self.animation_count as int)
    }

    /// The first appearance of state `s`.
    pub open spec fn base(&self, s: u32) -> int {
        s * self.animation_count
    }

    /// The appearance shown while pressed, if the switch has one to show.
    pub open spec fn pressed_shown(&self) -> Option<usize> {
        let e = self.enable_hover_click_image;
        if e[1] {
            if e[0] {
                Some((self.base(self.state) + 2) as usize)
            } else {
                Some((self.base(self.state) + 1) as usize)
            }
        } else if !e[0] {
            Some(self.base(self.state) as usize)
        } else {
            None
        }
    }

    /// The appearance shown while hovered in state `s`.
    pub open spec fn hover_shown(&self, s: u32) -> usize {
        if self.enable_hover_click_image[0] {
            (self.base(s) + 1) as usize
        } else {
            self.base(s) as usize
        }
    }

    /// The state that releasing the click method `i` leads to.
    pub open spec fn released_state(&self, i: usize) -> u32 {
        if self.click_method@[i as int].action {
            if (self.state as int) < self.state_count() - 1 {
                (self.state + 1) as u32
            } else {
                0
            }
        } else {
            self.state
        }
    }

    /// Which of the switch's click methods have their button down, by the
    /// pointer's entries.
    pub open spec fn pressed_view(&self, down: Seq<bool>) -> Seq<bool> {
        if down.len() <= self.click_method.len() {
            down
        } else {
            down.take(self.click_method.len() as int)
        }
    }

    /// One frame of the switch.
    pub open spec fn step_spec(&self, enable: bool, pointer: Pointer, play_sound: bool) -> SwitchStep {
        let s = self.state;
        let idle = SwitchOutcome { activated: [5, s as usize], shown: Some(self.base(s) as usize), click_sound: false };
        if !enable {
            SwitchStep { state: s, last_time_clicked: false, last_time_clicked_index: self.last_time_clicked_index, outcome: idle }
        } else {
            match pointer {
                Pointer::Absent => SwitchStep {
                    state: s,
                    last_time_clicked: self.last_time_clicked,
                    last_time_clicked_index: self.last_time_clicked_index,
                    outcome: SwitchOutcome { activated: [5, s as usize], shown: None, click_sound: false },
                },
                Pointer::Outside => SwitchStep {
                    state: s,
                    last_time_clicked: false,
                    last_time_clicked_index: self.last_time_clicked_index,
                    outcome: idle,
                },
                Pointer::Inside(down) => match first_pressed(self.pressed_view(down@)) {
                    Some(u) => SwitchStep {
                        state: s,
                        last_time_clicked: true,
                        last_time_clicked_index: u as usize,
                        outcome: SwitchOutcome { activated: [5, s as usize], shown: self.pressed_shown(), click_sound: false },
                    },
                    None => if self.last_time_clicked {
                        let i = self.last_time_clicked_index;
                        let n = self.released_state(i);
                        SwitchStep {
                            state: n,
                            last_time_clicked: false,
                            last_time_clicked_index: i,
                            outcome: SwitchOutcome { activated: [i, n as usize], shown: Some(self.hover_shown(n)), click_sound: play_sound },
                        }
                    } else {
                        SwitchStep {
                            state: s,
                            last_time_clicked: false,
                            last_time_clicked_index: self.last_time_clicked_index,
                            outcome: SwitchOutcome { activated: [5, s as usize], shown: Some(self.hover_shown(s)), click_sound: false },
                        }
                    },
                },
            }
        }
    }

    /// One frame of the switch: updates its state and says what to show.
    pub fn step(&mut self, enable: bool, pointer: &Pointer, play_sound: bool) -> (r: SwitchOutcome)
        requires
            old(self).wf(),
        ensures
            final(self).wf(),
            ({
                let st = old(self).step_spec(enable, *pointer, play_sound);
                &&& r == st.outcome
                &&& final(self).state == st.state
                &&& final(self).last_time_clicked == st.last_time_clicked
                &&& final(self).last_time_clicked_index == st.last_time_clicked_index
            }),
            final(self).appearance == old(self).appearance,
            final(self).click_method == old(self).click_method,
            final(self).name == old(self).name,
            final(self).discern_type == old(self).discern_type,
            final(self).switch_image_name == old(self).switch_image_name,
            final(self).enable_hover_click_image == old(self).enable_hover_click_image,
            final(self).animation_count == old(self).animation_count,
            r.shown matches Some(k) ==> k < final(self).appearance.len(),
    {
        let cnt = self.animation_count;
        let e = self.enable_hover_click_image;
        proof {
            let len = self.appearance.len() as int;
            assert(self.state as int + 1 <= len / (cnt as int));
            assert((self.state as int + 1) * (cnt as int) <= len) by (nonlinear_arith)
                requires
                    self.state as int + 1 <= len / (cnt as int),
                    cnt >= 1,
                    len >= 0,
            ;
            assert(self.state as int * (cnt as int) + (cnt as int) <= len) by (nonlinear_arith)
                requires
                    (self.state as int + 1) * (cnt as int) <= len,
            ;
        }
        let base: usize = (self.state as usize) * (cnt as usize);
        let s = self.state;
        if !enable {
            self.last_time_clicked = false;
            return SwitchOutcome { activated: [5, s as usize], shown: Some(base), click_sound: false };
        }
        match pointer {
            Pointer::Absent => SwitchOutcome { activated: [5, s as usize], shown: None, click_sound: false },
            Pointer::Outside => {
                self.last_time_clicked = false;
                SwitchOutcome { activated: [5, s as usize], shown: Some(base), click_sound: false }
            },
            Pointer::Inside(down) => {
                let k: usize = if down.len() <= self.click_method.len() {
                    down.len()
                } else {
                    self.click_method.len()
                };
                let ghost pv = self.pressed_view(down@);
                assert(pv.len() == k);
                assert(forall|j: int| 0 <= j < k ==> pv[j] == down@[j]);
                let mut u: usize = 0;
                let mut found = false;
                while u < k
                    invariant_except_break
                        !found,
                    invariant
                        0 <= u <= k,
                        k <= down.len(),
                        pv.len() == k,
                        forall|j: int| 0 <= j < k ==> pv[j] == down@[j],
                        forall|j: int| 0 <= j < u ==> !pv[j],
                    ensures
                        0 <= u <= k,
                        forall|j: int| 0 <= j < u ==> !pv[j],
                        found ==> u < k && pv[u as int],
                        !found ==> u == k,
                    decreases k - u,
                {
                    if down[u] {
                        found = true;
                        break;
                    }
                    u = u + 1;
                }
                if found {
                    assert(is_first_pressed(pv, u as int));
                    assert(first_pressed(pv) == Some(u as int)) by {
                        let c = choose|v: int| is_first_pressed(pv, v);
                        assert(is_first_pressed(pv, c));
                        if c < u {
                            assert(!pv[c]);
                        } else if c > u {
                            assert(!pv[u as int]);
                        }
                    }
                    self.last_time_clicked = true;
                    self.last_time_clicked_index = u;
                    let shown = if e[1] {
                        if e[0] {
                            Some(base + 2)
                        } else {
                            Some(base + 1)
                        }
                    } else if !e[0] {
                        Some(base)
                    } else {
                        None
                    };
                    SwitchOutcome { activated: [5, s as usize], shown, click_sound: false }
                } else {
                    assert(first_pressed(pv) is None) by {
                        if exists|v: int| is_first_pressed(pv, v) {
                            let c = choose|v: int| is_first_pressed(pv, v);
                            assert(pv[c]);
                        }
                    }
                    if self.last_time_clicked {
                        let i = self.last_time_clicked_index;
                        let groups: usize = self.appearance.len() / (cnt as usize);
                        if self.click_method[i].action {
                            if (self.state as usize) < groups - 1 {
                                self.state = self.state + 1;
                            } else {
                                self.state = 0;
                            }
                        }
                        self.last_time_clicked = false;
                        let n = self.state;
                        proof {
                            let len = self.appearance.len() as int;
                            assert(n as int + 1 <= len / (cnt as int));
                            assert((n as int + 1) * (cnt as int) <= len) by (nonlinear_arith)
                                requires
                                    n as int + 1 <= len / (cnt as int),
                                    cnt >= 1,
                                    len >= 0,
                            ;
                            assert(n as int * (cnt as int) + (cnt as int) <= len) by (nonlinear_arith)
                                requires
                                    (n as int + 1) * (cnt as int) <= len,
                            ;
                        }
                        let nb: usize = (n as usize) * (cnt as usize);
                        let shown = if e[0] { nb + 1 } else { nb };
                        SwitchOutcome { activated: [i, n as usize], shown: Some(shown), click_sound: play_sound }
                    } else {
                        let shown = if e[0] { base + 1 } else { base };
                        SwitchOutcome { activated: [5, s as usize], shown: Some(shown), click_sound: false }
                    }
                }
            },
        }
    }
}

} // verus!
