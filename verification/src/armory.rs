//! The guns of an operation: choosing one, firing, heating and cooling,
//! reloading round by round, and the cost that recovers over time. The
//! front end measures the times and the pointer; the decisions are here.
use vstd::prelude::*;

verus! {

/// The hottest a gun gets; at this heat it must cool down completely
/// before it fires again.
pub const MAX_HEAT: u32 = 255;

/// One gun: where it stands in its firing cycle (the state of its switch:
/// 0 ready, 1 showing a shot, 2 settling after it), its heat, the rounds
/// left in its clip, the clip's size, and whether it is being reloaded.
#[derive(Clone, Copy)]
pub struct GunState {
    pub phase: u32,
    pub temperature: u32,
    pub surplus_bullets: u32,
    pub clip: u32,
    pub reload: bool,
}

/// The heat of a gun of heat `t` after a shot that heats it by `degree`:
/// it rises by `degree`, up to the hottest.
pub open spec fn heated(t: u32, degree: u32) -> u32 {
    if t + degree > MAX_HEAT {
        MAX_HEAT
    } else {
        (t + degree) as u32
    }
}

/// The gun after gun `sel` of `n`, round to the first after the last.
pub open spec fn next_index(sel: u32, n: u32) -> u32 {
    if sel < n - 1 {
        (sel + 1) as u32
    } else {
        0
    }
}

/// The gun before gun `sel` of `n`, round to the last before the first.
pub open spec fn previous_index(sel: u32, n: u32) -> u32 {
    if sel > 0 {
        (sel - 1) as u32
    } else {
        (n - 1) as u32
    }
}

/// What happened to the chosen gun in a frame.
pub enum GunEvent {
    /// Nothing changed.
    Nothing,
    /// A round was fired; `overheated` when the gun reached the hottest
    /// (it then has to cool down completely).
    Fired { overheated: bool },
    /// The trigger was pulled with no round to fire.
    Dry,
    /// The shot stopped showing; the gun settles.
    ShotEnded,
    /// The gun is ready to fire again.
    Readied,
}

/// What a reloading step did.
pub enum Loading {
    /// Nothing changed.
    Idle,
    /// A round went from the stock into the clip; `full` when the clip is
    /// full and the reload is over.
    RoundIn { full: bool },
    /// The reload was ended with the rounds already in the clip.
    Closed,
}

impl GunState {
    /// The heat is at most the hottest, the clip holds at most its size,
    /// and a gun being reloaded has room for another round.
    pub open spec fn wf(&self) -> bool {
        &&& self.temperature <= MAX_HEAT
        &&& self.surplus_bullets <= self.clip
        &&& self.reload ==> self.surplus_bullets < self.clip
    }

    /// A gun as an operation starts: cold, with a full clip, not reloading;
    /// `phase` is the state its switch is in.
    pub fn loaded(phase: u32, clip: u32) -> (g: GunState)
        ensures
            g.wf(),
            g == (GunState { phase, temperature: 0, surplus_bullets: clip, clip, reload: false }),
    {
        GunState { phase, temperature: 0, surplus_bullets: clip, clip, reload: false }
    }

    /// The colour the gun is drawn in: the hotter, the redder.
    pub fn heat_color(&self) -> (c: [u8; 4])
        requires
            self.wf(),
        ensures
            c@ == seq![255u8, (255 - self.temperature) as u8, (255 - self.temperature) as u8, 255u8],
    {
        let t = self.temperature as u8;
        let c = [255u8, 255 - t, 255 - t, 255u8];
        assert(c@ =~= seq![255u8, (255 - self.temperature) as u8, (255 - self.temperature) as u8, 255u8]);
        c
    }
}

/// The gun `g` after a frame in which the chosen gun cooled: it cools by
/// one unless it is cold or showing a shot.
pub open spec fn cooled_chosen(g: GunState) -> GunState {
    if g.temperature != 0 && g.phase != 1 {
        GunState { temperature: (g.temperature - 1) as u32, ..g }
    } else {
        g
    }
}

/// The gun `g` after a frame in which it was not the chosen one: it cools
/// by one unless it is cold.
pub open spec fn cooled_other(g: GunState) -> GunState {
    if g.temperature > 0 {
        GunState { temperature: (g.temperature - 1) as u32, ..g }
    } else {
        g
    }
}

/// The guns of an operation: the guns at hand, which one is chosen,
/// whether the chosen gun overheated and must cool down completely, whether
/// the operation is paused, the rounds in stock, and the cost points.
pub struct Armory {
    pub guns: Vec<GunState>,
    pub gun_selected: u32,
    pub forced_cooling: bool,
    pub paused: bool,
    pub storage_bullet: u32,
    pub cost: u32,
}

impl Armory {
    /// There is a gun, the chosen one is one of them, and each gun is
    /// well formed.
    pub open spec fn wf(&self) -> bool {
        &&& 1 <= self.guns.len() <= u32::MAX
        &&& self.gun_selected < self.guns.len()
        &&& forall|i: int| 0 <= i < self.guns.len() ==> (#[trigger] self.guns@[i]).wf()
    }

    /// The chosen gun.
    pub open spec fn chosen(&self) -> GunState {
        self.guns@[self.gun_selected as int]
    }

    /// The guns of an operation as it starts: the first gun chosen, not
    /// paused, no gun overheated.
    pub fn new(guns: Vec<GunState>, storage_bullet: u32, cost: u32) -> (a: Armory)
        requires
            1 <= guns.len() <= u32::MAX,
            forall|i: int| 0 <= i < guns.len() ==> (#[trigger] guns@[i]).wf(),
        ensures
            a.wf(),
            a.guns@ == guns@,
            a.gun_selected == 0,
            !a.forced_cooling,
            !a.paused,
            a.storage_bullet == storage_bullet,
            a.cost == cost,
    {
        Armory { guns, gun_selected: 0, forced_cooling: false, paused: false, storage_bullet, cost }
    }

    /// Chooses the next gun, round to the first after the last; only while
    /// the chosen gun is ready and the operation runs. Gives whether it
    /// switched.
    pub fn select_next(&mut self) -> (switched: bool)
        requires
            old(self).wf(),
        ensures
            final(self).wf(),
            switched == (old(self).chosen().phase == 0 && !old(self).paused),
            final(self).gun_selected == (if switched {
                next_index(old(self).gun_selected, old(self).guns.len() as u32)
            } else {
                old(self).gun_selected
            }),
            final(self).guns@ == old(self).guns@,
            final(self).forced_cooling == old(self).forced_cooling,
            final(self).paused == old(self).paused,
            final(self).storage_bullet == old(self).storage_bullet,
            final(self).cost == old(self).cost,
    {
        let sel = self.gun_selected as usize;
        if self.guns[sel].phase == 0 && !self.paused {
            let len = self.guns.len() as u32;
            if self.gun_selected < len - 1 {
                self.gun_selected = self.gun_selected + 1;
            } else {
                self.gun_selected = 0;
            }
            true
        } else {
            false
        }
    }

    /// Chooses the previous gun, round to the last before the first; only
    /// while the chosen gun is ready and the operation runs. Gives whether
    /// it switched.
    pub fn select_previous(&mut self) -> (switched: bool)
        requires
            old(self).wf(),
        ensures
            final(self).wf(),
            switched == (old(self).chosen().phase == 0 && !old(self).paused),
            final(self).gun_selected == (if switched {
                previous_index(old(self).gun_selected, old(self).guns.len() as u32)
            } else {
                old(self).gun_selected
            }),
            final(self).guns@ == old(self).guns@,
            final(self).forced_cooling == old(self).forced_cooling,
            final(self).paused == old(self).paused,
            final(self).storage_bullet == old(self).storage_bullet,
            final(self).cost == old(self).cost,
    {
        let sel = self.gun_selected as usize;
        if self.guns[sel].phase == 0 && !self.paused {
            if self.gun_selected > 0 {
                self.gun_selected = self.gun_selected - 1;
            } else {
                self.gun_selected = (self.guns.len() - 1) as u32;
            }
            true
        } else {
            false
        }
    }
    /// One frame of the chosen gun. A ready gun fires when the trigger is
    /// pulled (`shoot`) and it has a round and is not being reloaded: it
    /// shows the shot, heats by `temperature_degree`, loses the round, is
    /// reloaded when the clip runs empty, and must cool down completely when
    /// it reaches the hottest; with no round it clicks dry. A gun showing a
    /// shot settles once the shot has shown long enough (`shot_shown`); a
    /// settling gun is ready again once it has waited long enough (`cooled`),
    /// unless it must cool down. Nothing happens while paused.
    pub fn handle_gun(&mut self, shoot: bool, temperature_degree: u32, shot_shown: bool, cooled: bool) -> (r: GunEvent)
        requires
            old(self).wf(),
        ensures
            final(self).wf(),
            final(self).gun_selected == old(self).gun_selected,
            final(self).paused == old(self).paused,
            final(self).storage_bullet == old(self).storage_bullet,
            final(self).cost == old(self).cost,
            ({
                let g = old(self).chosen();
                let sel = old(self).gun_selected as int;
                if g.phase == 0 && shoot && !old(self).paused && g.surplus_bullets > 0 && !g.reload {
                    let t = heated(g.temperature, temperature_degree);
                    let s = (g.surplus_bullets - 1) as u32;
                    &&& r == GunEvent::Fired { overheated: t == MAX_HEAT }
                    &&& final(self).guns@ == old(self).guns@.update(
                        sel,
                        GunState { phase: 1, temperature: t, surplus_bullets: s, clip: g.clip, reload: s == 0 },
                    )
                    &&& final(self).forced_cooling == (old(self).forced_cooling || t == MAX_HEAT)
                } else if g.phase == 0 && shoot && !old(self).paused {
                    &&& r == GunEvent::Dry
                    &&& final(self).guns@ == old(self).guns@
                    &&& final(self).forced_cooling == old(self).forced_cooling
                } else if g.phase == 1 && !old(self).paused && shot_shown {
                    &&& r == GunEvent::ShotEnded
                    &&& final(self).guns@ == old(self).guns@.update(sel, GunState { phase: 2, ..g })
                    &&& final(self).forced_cooling == old(self).forced_cooling
                } else if g.phase == 2 && !old(self).forced_cooling && !old(self).paused && cooled {
                    &&& r == GunEvent::Readied
                    &&& final(self).guns@ == old(self).guns@.update(sel, GunState { phase: 0, ..g })
                    &&& final(self).forced_cooling == old(self).forced_cooling
                } else {
                    &&& r == GunEvent::Nothing
                    &&& final(self).guns@ == old(self).guns@
                    &&& final(self).forced_cooling == old(self).forced_cooling
                }
            }),
    {
        let sel = self.gun_selected as usize;
        let g = self.guns[sel];
        if g.phase == 0 {
            if shoot && !self.paused {
                if g.surplus_bullets > 0 && !g.reload {
                    let t = if g.temperature < MAX_HEAT {
                        if temperature_degree >= MAX_HEAT - g.temperature {
                            MAX_HEAT
                        } else {
                            g.temperature + temperature_degree
                        }
                    } else {
                        g.temperature
                    };
                    let s = g.surplus_bullets - 1;
                    let fired = GunState { phase: 1, temperature: t, surplus_bullets: s, clip: g.clip, reload: s == 0 };
                    self.guns.set(sel, fired);
                    let overheated = t == MAX_HEAT;
                    if overheated {
                        self.forced_cooling = true;
                    }
                    proof {
                        assert forall|i: int| 0 <= i < self.guns.len() implies (#[trigger] self.guns@[i]).wf() by {
                            if i != sel as int {
                                assert(self.guns@[i] == old(self).guns@[i]);
                            }
                        }
                    }
                    GunEvent::Fired { overheated }
                } else {
                    GunEvent::Dry
                }
            } else {
                GunEvent::Nothing
            }
        } else if g.phase == 1 && !self.paused {
            if shot_shown {
                self.guns.set(sel, GunState { phase: 2, ..g });
                proof {
                    assert forall|i: int| 0 <= i < self.guns.len() implies (#[trigger] self.guns@[i]).wf() by {
                        if i != sel as int {
                            assert(self.guns@[i] == old(self).guns@[i]);
                        }
                    }
                }
                GunEvent::ShotEnded
            } else {
                GunEvent::Nothing
            }
        } else if g.phase == 2 && !self.forced_cooling && !self.paused {
            if cooled {
                self.guns.set(sel, GunState { phase: 0, ..g });
                proof {
                    assert forall|i: int| 0 <= i < self.guns.len() implies (#[trigger] self.guns@[i]).wf() by {
                        if i != sel as int {
                            assert(self.guns@[i] == old(self).guns@[i]);
                        }
                    }
                }
                GunEvent::Readied
            } else {
                GunEvent::Nothing
            }
        } else {
            GunEvent::Nothing
        }
    }

    /// One reloading step of the chosen gun, made when the wheel turns
    /// (`scroll_up` when it turns up) and the reload interval has passed.
    /// Turning up moves a round from the stock into the clip, and the reload
    /// is over when the clip is full; otherwise the reload ends with the
    /// rounds already in the clip, if there are any. Nothing happens unless
    /// the gun is being reloaded and the operation runs.
    pub fn load_round(&mut self, scroll_up: bool) -> (r: Loading)
        requires
            old(self).wf(),
        ensures
            final(self).wf(),
            final(self).gun_selected == old(self).gun_selected,
            final(self).forced_cooling == old(self).forced_cooling,
            final(self).paused == old(self).paused,
            final(self).cost == old(self).cost,
            final(self).storage_bullet + final(self).chosen().surplus_bullets == old(self).storage_bullet
                + old(self).chosen().surplus_bullets,
            ({
                let g = old(self).chosen();
                let sel = old(self).gun_selected as int;
                if old(self).paused || !g.reload {
                    &&& r == Loading::Idle
                    &&& final(self).guns@ == old(self).guns@
                    &&& final(self).storage_bullet == old(self).storage_bullet
                } else if scroll_up && old(self).storage_bullet > 0 {
                    let s = (g.surplus_bullets + 1) as u32;
                    &&& r == Loading::RoundIn { full: s == g.clip }
                    &&& final(self).guns@ == old(self).guns@.update(
                        sel,
                        GunState { surplus_bullets: s, reload: s != g.clip, ..g },
                    )
                    &&& final(self).storage_bullet == old(self).storage_bullet - 1
                } else if g.surplus_bullets > 0 {
                    &&& r == Loading::Closed
                    &&& final(self).guns@ == old(self).guns@.update(sel, GunState { reload: false, ..g })
                    &&& final(self).storage_bullet == old(self).storage_bullet
                } else {
                    &&& r == Loading::Idle
                    &&& final(self).guns@ == old(self).guns@
                    &&& final(self).storage_bullet == old(self).storage_bullet
                }
            }),
    {
        let sel = self.gun_selected as usize;
        let g = self.guns[sel];
        if self.paused || !g.reload {
            return Loading::Idle;
        }
        let r = if scroll_up && self.storage_bullet > 0 {
            self.storage_bullet = self.storage_bullet - 1;
            let s = g.surplus_bullets + 1;
            let full = s == g.clip;
            self.guns.set(sel, GunState { surplus_bullets: s, reload: !full, ..g });
            Loading::RoundIn { full }
        } else if g.surplus_bullets > 0 {
            self.guns.set(sel, GunState { reload: false, ..g });
            Loading::Closed
        } else {
            Loading::Idle
        };
        proof {
            assert forall|i: int| 0 <= i < self.guns.len() implies (#[trigger] self.guns@[i]).wf() by {
                if i != sel as int {
                    assert(self.guns@[i] == old(self).guns@[i]);
                }
            }
        }
        r
    }

    /// One refresh of the guns' heat while the operation runs: the chosen
    /// gun cools by one unless it is cold or showing a shot, and once it is
    /// cold it no longer has to cool down; every other gun cools by one
    /// unless it is cold.
    pub fn cool(&mut self)
        requires
            old(self).wf(),
        ensures
            final(self).wf(),
            final(self).gun_selected == old(self).gun_selected,
            final(self).paused == old(self).paused,
            final(self).storage_bullet == old(self).storage_bullet,
            final(self).cost == old(self).cost,
            old(self).paused ==> final(self).guns@ == old(self).guns@ && final(self).forced_cooling
                == old(self).forced_cooling,
            !old(self).paused ==> {
                &&& final(self).guns@.len() == old(self).guns@.len()
                &&& final(self).chosen() == cooled_chosen(old(self).chosen())
                &&& forall|i: int|
                    0 <= i < old(self).guns.len() && i != old(self).gun_selected ==> #[trigger] final(self).guns@[i]
                        == cooled_other(old(self).guns@[i])
                &&& final(self).forced_cooling == (if old(self).chosen().temperature == 1
                    && old(self).chosen().phase != 1 {
                    false
                } else {
                    old(self).forced_cooling
                })
            },
    {
        if self.paused {
            return;
        }
        let sel = self.gun_selected as usize;
        let g = self.guns[sel];
        if g.temperature != 0 && g.phase != 1 {
            let t = g.temperature - 1;
            self.guns.set(sel, GunState { temperature: t, ..g });
            if t == 0 {
                self.forced_cooling = false;
            }
        }
        let n = self.guns.len();
        let ghost fc = self.forced_cooling;
        let mut i: usize = 0;
        while i < n
            invariant
                0 <= i <= n,
                sel < n,
                self.forced_cooling == fc,
                self.gun_selected == old(self).gun_selected,
                self.paused == old(self).paused,
                self.storage_bullet == old(self).storage_bullet,
                self.cost == old(self).cost,
                n == self.guns.len(),
                n == old(self).guns.len(),
                sel == old(self).gun_selected,
                self.guns@[sel as int] == cooled_chosen(old(self).guns@[sel as int]),
                forall|j: int| 0 <= j < n ==> (#[trigger] self.guns@[j]).wf(),
                forall|j: int|
                    0 <= j < i && j != sel ==> #[trigger] self.guns@[j] == cooled_other(old(self).guns@[j]),
                forall|j: int| i <= j < n && j != sel ==> #[trigger] self.guns@[j] == old(self).guns@[j],
            decreases n - i,
        {
            if i != sel {
                let h = self.guns[i];
                if h.temperature > 0 {
                    self.guns.set(i, GunState { temperature: h.temperature - 1, ..h });
                }
            }
            i = i + 1;
        }
    }

    /// One recovery of the cost points, made when the recovery time has
    /// passed: one point more while the operation runs.
    pub fn recover_cost(&mut self)
        requires
            old(self).wf(),
            old(self).cost < u32::MAX,
        ensures
            final(self).wf(),
            final(self).cost == (if old(self).paused {
                old(self).cost
            } else {
                (old(self).cost + 1) as u32
            }),
            final(self).guns@ == old(self).guns@,
            final(self).gun_selected == old(self).gun_selected,
            final(self).forced_cooling == old(self).forced_cooling,
            final(self).paused == old(self).paused,
            final(self).storage_bullet == old(self).storage_bullet,
    {
        if !self.paused {
            self.cost = self.cost + 1;
        }
    }
}

} // verus!
