//! The enemies of an operation, as far as their rules go in whole numbers:
//! fading in and out (as the curtain between pages does), waking up, walking from one leg of their path to the
//! next, the frames of their animation, and what escaping or falling costs
//! and counts. Positions, hit points and times are the front end's.
use vstd::prelude::*;
use crate::engine::{App, problem_views};
use crate::resource::{first_named, has_resource};
use crate::resource::ProblemView;
use crate::laws::{modified_var_keeps_others, modified_var_reads_back};
use crate::value::{Value, ValueView};

verus! {

/// The opacity `a` after one step of a fade by `speed`: up to fully shown
/// when fading in, down to hidden when fading out.
pub open spec fn faded(a: u8, fade_in: bool, speed: u8) -> u8 {
    if fade_in {
        if a + speed > 255 {
            255
        } else {
            (a + speed) as u8
        }
    } else {
        if a < speed {
            0
        } else {
            (a - speed) as u8
        }
    }
}

/// One step of a fade by `speed`, in or out (the curtain between pages
/// fades this way too).
pub fn fade_step(alpha: u8, fade_in: bool, speed: u8) -> (r: u8)
    ensures
        r == faded(alpha, fade_in, speed),
{
    if fade_in {
        if alpha > 255 - speed {
            255
        } else {
            alpha + speed
        }
    } else {
        alpha.saturating_sub(speed)
    }
}

/// The target points left after an enemy that costs `minus` of them gets
/// through: never below none.
pub fn penalized_target_point(target_point: u32, minus: u32) -> (r: u32)
    ensures
        r == (if target_point > minus {
            target_point - minus
        } else {
            0
        }),
{
    if target_point > minus {
        target_point - minus
    } else {
        0
    }
}

/// The leg of its path an enemy walks after leg `status` is done: the next
/// one, round to the first after the last.
pub fn next_walk_status(status: u32, path_len: u32) -> (r: u32)
    requires
        path_len >= 1,
    ensures
        r == (if status < path_len - 1 {
            status + 1
        } else {
            0
        }),
        status < path_len ==> r < path_len,
{
    if status < path_len - 1 {
        status + 1
    } else {
        0
    }
}

/// The frame of an enemy's animation after `count`, running forwards up to
/// `image_count` and back down to 0 by turns; the new direction with it.
pub open spec fn animation_next(count: u32, forward: bool, image_count: u32) -> (u32, bool) {
    if forward {
        if count < image_count {
            ((count + 1) as u32, true)
        } else if count > 0 {
            ((count - 1) as u32, false)
        } else {
            (count, false)
        }
    } else {
        if count > 0 {
            ((count - 1) as u32, false)
        } else if count < image_count {
            ((count + 1) as u32, true)
        } else {
            (count, true)
        }
    }
}

/// The counts of an operation that enemies change: the target points left,
/// and the target enemies dealt with.
pub struct Score {
    pub target_point: u32,
    pub killed: u32,
}

/// An enemy in whole numbers: whether it is on the field (`activated`),
/// whether it is done with (`out`: it fell or got through), whether it is a
/// target enemy (`detected`), its opacity and the shade it is drawn in, the
/// leg of its path it walks, and the frame of its animation with the
/// direction the frames run in.
pub struct EnemyState {
    pub activated: bool,
    pub out: bool,
    pub detected: bool,
    pub alpha: u8,
    pub shade: u8,
    pub walk_status: u32,
    pub animation_count: u32,
    pub animation_forward: bool,
}

impl EnemyState {
    /// An enemy as it is placed: asleep until its time comes, at the first
    /// leg of its path and the first frame, shaded black, with the opacity
    /// it starts with.
    pub fn placed(alpha: u8, detected: bool, activated: bool) -> (e: EnemyState)
        ensures
            e == (EnemyState {
                activated,
                out: false,
                detected,
                alpha,
                shade: 0,
                walk_status: 0,
                animation_count: 0,
                animation_forward: true,
            }),
    {
        EnemyState {
            activated,
            out: false,
            detected,
            alpha,
            shade: 0,
            walk_status: 0,
            animation_count: 0,
            animation_forward: true,
        }
    }

    /// One refresh of an enemy on the field that is not fully shown yet: it
    /// fades in by `speed`, its shade with it, and is fully shown and
    /// unshaded at the end. Gives whether it is now fully shown (it then
    /// starts walking).
    pub fn appear(&mut self, speed: u8) -> (shown: bool)
        requires
            old(self).alpha + speed <= 255 ==> old(self).shade + speed <= 255,
        ensures
            old(self).alpha + speed > 255 ==> final(self).alpha == 255 && final(self).shade == 255,
            old(self).alpha + speed <= 255 ==> final(self).alpha == old(self).alpha + speed
                && final(self).shade == old(self).shade + speed,
            shown == (final(self).alpha == 255),
            final(self).activated == old(self).activated,
            final(self).out == old(self).out,
            final(self).detected == old(self).detected,
            final(self).walk_status == old(self).walk_status,
            final(self).animation_count == old(self).animation_count,
            final(self).animation_forward == old(self).animation_forward,
    {
        if speed > 255 - self.alpha {
            self.alpha = 255;
            self.shade = 255;
        } else {
            self.alpha = self.alpha + speed;
            self.shade = self.shade + speed;
        }
        self.alpha == 255
    }

    /// One refresh of an enemy off the field whose time has come: one done
    /// with fades out by `speed`, its shade with it, down to hidden and
    /// black; any other comes onto the field.
    pub fn wake_or_vanish(&mut self, speed: u8)
        requires
            old(self).out && old(self).alpha >= speed ==> old(self).shade >= speed,
        ensures
            !old(self).out ==> final(self).activated && final(self).alpha == old(self).alpha
                && final(self).shade == old(self).shade,
            old(self).out && old(self).alpha < speed ==> final(self).alpha == 0 && final(self).shade == 0
                && final(self).activated == old(self).activated,
            old(self).out && old(self).alpha >= speed ==> final(self).alpha == old(self).alpha - speed
                && final(self).shade == old(self).shade - speed && final(self).activated
                == old(self).activated,
            final(self).out == old(self).out,
            final(self).detected == old(self).detected,
            final(self).walk_status == old(self).walk_status,
            final(self).animation_count == old(self).animation_count,
            final(self).animation_forward == old(self).animation_forward,
    {
        if self.out {
            if self.alpha < speed {
                self.alpha = 0;
                self.shade = 0;
            } else {
                self.alpha = self.alpha - speed;
                self.shade = self.shade - speed;
            }
        } else {
            self.activated = true;
        }
    }

    /// The shade of a fully shown enemy: grey while it cannot be hurt after
    /// a hit, unshaded otherwise.
    pub fn show_guard(&mut self, invincible: bool)
        ensures
            final(self).shade == (if invincible {
                125u8
            } else {
                255u8
            }),
            *final(self) == (EnemyState { shade: final(self).shade, ..*old(self) }),
    {
        self.shade = if invincible {
            125
        } else {
            255
        };
    }

    /// The enemy got through the target line: it leaves the field, unshaded,
    /// the target points drop by `minus` (never below none), and a target
    /// enemy counts as dealt with.
    pub fn escape(&mut self, score: &mut Score, minus: u32)
        requires
            old(self).detected ==> old(score).killed < u32::MAX,
        ensures
            final(self).out,
            !final(self).activated,
            final(self).shade == 255,
            final(self).alpha == old(self).alpha,
            final(self).detected == old(self).detected,
            final(self).walk_status == old(self).walk_status,
            final(self).animation_count == old(self).animation_count,
            final(self).animation_forward == old(self).animation_forward,
            final(score).target_point == (if old(score).target_point > minus {
                old(score).target_point - minus
            } else {
                0
            }),
            final(score).killed == (if old(self).detected {
                old(score).killed + 1
            } else {
                old(score).killed as int
            }),
    {
        self.out = true;
        self.activated = false;
        self.shade = 255;
        score.target_point = penalized_target_point(score.target_point, minus);
        if self.detected {
            score.killed = score.killed + 1;
        }
    }

    /// The enemy fell: it leaves the field, unshaded, and a target enemy
    /// counts as dealt with.
    pub fn fall(&mut self, score: &mut Score)
        requires
            old(self).detected ==> old(score).killed < u32::MAX,
        ensures
            final(self).out,
            !final(self).activated,
            final(self).shade == 255,
            final(self).alpha == old(self).alpha,
            final(self).detected == old(self).detected,
            final(self).walk_status == old(self).walk_status,
            final(self).animation_count == old(self).animation_count,
            final(self).animation_forward == old(self).animation_forward,
            final(score).target_point == old(score).target_point,
            final(score).killed == (if old(self).detected {
                old(score).killed + 1
            } else {
                old(score).killed as int
            }),
    {
        self.out = true;
        self.activated = false;
        self.shade = 255;
        if self.detected {
            score.killed = score.killed + 1;
        }
    }

    /// The leg of its path done, the enemy walks the next one, round to the
    /// first after the last of its `path_len` legs.
    pub fn next_leg(&mut self, path_len: u32)
        requires
            path_len >= 1,
        ensures
            final(self).walk_status == (if old(self).walk_status < path_len - 1 {
                old(self).walk_status + 1
            } else {
                0
            }),
            *final(self) == (EnemyState { walk_status: final(self).walk_status, ..*old(self) }),
    {
        self.walk_status = next_walk_status(self.walk_status, path_len);
    }

    /// The enemy's animation moves one frame, among `image_count` frames.
    pub fn animate(&mut self, image_count: u32)
        ensures
            (final(self).animation_count, final(self).animation_forward) == animation_next(
                old(self).animation_count,
                old(self).animation_forward,
                image_count,
            ),
            *final(self) == (EnemyState {
                animation_count: final(self).animation_count,
                animation_forward: final(self).animation_forward,
                ..*old(self)
            }),
    {
        if self.animation_forward {
            if self.animation_count < image_count {
                self.animation_count = self.animation_count + 1;
            } else {
                self.animation_forward = false;
                if self.animation_count > 0 {
                    self.animation_count = self.animation_count - 1;
                }
            }
        } else if self.animation_count > 0 {
            self.animation_count = self.animation_count - 1;
        } else {
            self.animation_forward = true;
            if self.animation_count < image_count {
                self.animation_count = self.animation_count + 1;
            }
        }
    }
}

/// The number a variable's value gives when read as a `u32`: its number
/// when it is one, and 0 otherwise.
pub open spec fn u32_or_zero(v: ValueView) -> u32 {
    match v {
        ValueView::UInt(x) => x,
        _ => 0,
    }
}

/// The report made when the variable `name` of `app` is read as a `u32`
/// and does not hold one; none when it does.
pub open spec fn u32_read_reports(app: App, name: Seq<char>) -> Seq<ProblemView> {
    if app.var_value(name) is UInt {
        Seq::empty()
    } else {
        seq![app.wrong_type_report(name, "error_variable_not_u32_type"@)]
    }
}

impl App {
    /// An enemy got through the target line: the operation is no longer a
    /// perfect clear (the variable `perfect_clear` is set to false), the
    /// enemy leaves the field, unshaded, the target points (the variable
    /// `target_point`) drop by `minus`, never below none, and a target enemy
    /// counts as dealt with (the variable `current_killed_target_enemy` goes
    /// up by one). A count that is not a number reads as 0 and is reported,
    /// as reading it always is. The refresh of the enemies stops after this
    /// enemy.
    pub fn enemy_escapes(&mut self, enemy: &mut EnemyState, minus: u32)
        requires
            old(self).wf(),
            old(self).has_var("perfect_clear"@),
            old(self).has_var("target_point"@),
            (old(self).var_value("target_point"@) is UInt) || old(self).can_report_wrong_type("error_variable_not_u32_type"@),
            old(enemy).detected ==> {
                &&& old(self).has_var("current_killed_target_enemy"@)
                &&& (old(self).var_value("current_killed_target_enemy"@) is UInt) || old(self).can_report_wrong_type("error_variable_not_u32_type"@)
                &&& u32_or_zero(old(self).var_value("current_killed_target_enemy"@)) < u32::MAX
            },
        ensures
            final(self).wf(),
            final(self).has_var("perfect_clear"@),
            final(self).var_value("perfect_clear"@) == ValueView::Bool(false),
            final(self).has_var("target_point"@),
            final(self).var_value("target_point"@) == ValueView::UInt(({
                let tp = u32_or_zero(old(self).var_value("target_point"@));
                if tp > minus {
                    (tp - minus) as u32
                } else {
                    0u32
                }
            })),
            old(enemy).detected ==> {
                &&& final(self).has_var("current_killed_target_enemy"@)
                &&& final(self).var_value("current_killed_target_enemy"@) == ValueView::UInt(
                    (u32_or_zero(old(self).var_value("current_killed_target_enemy"@)) + 1) as u32,
                )
            },
            !old(enemy).detected && old(self).has_var("current_killed_target_enemy"@) ==> {
                &&& final(self).has_var("current_killed_target_enemy"@)
                &&& final(self).var_value("current_killed_target_enemy"@) == old(self).var_value(
                    "current_killed_target_enemy"@,
                )
            },
            problem_views(final(self).problem_list@) == problem_views(old(self).problem_list@)
                + u32_read_reports(*old(self), "target_point"@) + (if old(enemy).detected {
                u32_read_reports(*old(self), "current_killed_target_enemy"@)
            } else {
                Seq::empty()
            }),
            final(self).variables@.len() == old(self).variables@.len(),
            final(enemy).out,
            !final(enemy).activated,
            final(enemy).shade == 255,
            final(enemy).alpha == old(enemy).alpha,
            final(enemy).detected == old(enemy).detected,
            final(enemy).walk_status == old(enemy).walk_status,
            final(enemy).animation_count == old(enemy).animation_count,
            final(enemy).animation_forward == old(enemy).animation_forward,
            final(self).config == old(self).config,
            final(self).game_text == old(self).game_text,
            final(self).page == old(self).page,
            final(self).resource_page == old(self).resource_page,
            final(self).resource_switch == old(self).resource_switch,
            final(self).timer == old(self).timer,
    {
        proof {
            reveal_strlit("perfect_clear");
            reveal_strlit("target_point");
            reveal_strlit("current_killed_target_enemy");
            assert("perfect_clear"@.len() == 13);
            assert("target_point"@.len() == 12);
            assert("current_killed_target_enemy"@.len() == 27);
        }
        let ghost s0 = *self;
        self.modify_var("perfect_clear", Value::Bool(false));
        let ghost s1 = *self;
        proof {
            modified_var_reads_back(s0, s1, "perfect_clear"@, ValueView::Bool(false));
            modified_var_keeps_others(s0, s1, "perfect_clear"@, ValueView::Bool(false), "target_point"@);
            if s0.has_var("current_killed_target_enemy"@) {
                modified_var_keeps_others(
                    s0,
                    s1,
                    "perfect_clear"@,
                    ValueView::Bool(false),
                    "current_killed_target_enemy"@,
                );
            }
        }
        enemy.out = true;
        enemy.activated = false;
        enemy.shade = 255;
        let tp = self.var_u("target_point");
        let ghost s2 = *self;
        assert(s2.variables == s1.variables);
        let left = penalized_target_point(tp, minus);
        let ghost v2 = ValueView::UInt(left);
        self.modify_var("target_point", Value::UInt(left));
        let ghost s3 = *self;
        proof {
            assert(s2.has_var("perfect_clear"@) && s2.var_value("perfect_clear"@) == ValueView::Bool(false));
            modified_var_reads_back(s2, s3, "target_point"@, v2);
            modified_var_keeps_others(s2, s3, "target_point"@, v2, "perfect_clear"@);
            if s0.has_var("current_killed_target_enemy"@) {
                modified_var_keeps_others(s2, s3, "target_point"@, v2, "current_killed_target_enemy"@);
            }
        }
        if enemy.detected {
            let k = self.var_u("current_killed_target_enemy");
            let ghost s4 = *self;
            assert(s4.variables == s3.variables);
            let ghost v4 = ValueView::UInt((k + 1) as u32);
            self.modify_var("current_killed_target_enemy", Value::UInt(k + 1));
            let ghost s5 = *self;
            proof {
                modified_var_reads_back(s4, s5, "current_killed_target_enemy"@, v4);
                modified_var_keeps_others(s4, s5, "current_killed_target_enemy"@, v4, "perfect_clear"@);
                modified_var_keeps_others(s4, s5, "current_killed_target_enemy"@, v4, "target_point"@);
            }
        }
    }
}

impl App {
    /// One frame of a fade tracked by the moment named `split_time_name`:
    /// when the fade is due (`due`: a refresh interval has passed since that
    /// moment, by the front end's clock) the opacity `alpha` takes one step
    /// of `fade_speed`, in or out, and the moment is taken again; otherwise
    /// nothing changes. Gives the opacity, which the front end draws the
    /// curtain with. A moment that does not exist stops the game, so that
    /// input is left out.
    pub fn fade(&mut self, alpha: u8, fade_in_or_out: bool, split_time_name: &str, fade_speed: u8, due: bool) -> (r: u8)
        requires
            has_resource(old(self).timer.split_time@, split_time_name@),
        ensures
            due ==> {
                &&& r == faded(alpha, fade_in_or_out, fade_speed)
                &&& final(self).split_views() == old(self).split_views().remove(
                    first_named(old(self).timer.split_time@, split_time_name@),
                ).push((split_time_name@, [old(self).timer.now_time, old(self).timer.total_time]))
                &&& final(self).timer.start_time == old(self).timer.start_time
                &&& final(self).timer.total_time == old(self).timer.total_time
                &&& final(self).timer.now_time == old(self).timer.now_time
                &&& final(self).config == old(self).config
                &&& final(self).game_text == old(self).game_text
                &&& final(self).problem_list == old(self).problem_list
                &&& final(self).page == old(self).page
                &&& final(self).resource_page == old(self).resource_page
                &&& final(self).variables == old(self).variables
                &&& final(self).resource_switch == old(self).resource_switch
            },
            !due ==> r == alpha && *final(self) == *old(self),
    {
        if due {
            self.add_split_time(split_time_name, true);
            fade_step(alpha, fade_in_or_out, fade_speed)
        } else {
            alpha
        }
    }
}

} // verus!
