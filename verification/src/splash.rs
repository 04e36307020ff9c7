//! The launch screen: three slides, each faded in, held, and faded out in
//! turn, before the game moves on to the login or the home page.
use vstd::prelude::*;

verus! {

/// Which slide a stage of the launch screen shows: the first up to stage 1,
/// the second at stages 2 and 3, the third from stage 4 on.
pub open spec fn slide_of(progress: i32) -> u8 {
    if progress < 2 {
        0
    } else if progress < 4 {
        1
    } else {
        2
    }
}

/// Which slide a stage of the launch screen shows.
pub fn splash_slide(progress: i32) -> (r: u8)
    ensures
        r == slide_of(progress),
{
    if progress >= 2 && progress < 4 {
        1
    } else if progress >= 4 {
        2
    } else {
        0
    }
}

/// How many seconds a stage holds once its slide has settled, for the six
/// stages 0 to 5.
pub open spec fn stage_wait(progress: i32) -> Option<u32> {
    if progress == 0 {
        Some(4)
    } else if progress == 1 || progress == 3 || progress == 5 {
        Some(3)
    } else if progress == 2 || progress == 4 {
        Some(2)
    } else {
        None
    }
}

/// How many seconds a stage holds once its slide has settled; `None` for a
/// number that is no stage.
pub fn stage_wait_seconds(progress: i32) -> (r: Option<u32>)
    ensures
        r == stage_wait(progress),
{
    match progress {
        0 => Some(4),
        1 | 3 | 5 => Some(3),
        2 | 4 => Some(2),
        _ => None,
    }
}

/// A stage at which the slide is faded in and held fully shown.
pub open spec fn showing_stage(p: i32) -> bool {
    p == 0 || p == 2 || p == 4
}

/// A stage at which the slide is faded out and held hidden.
pub open spec fn hiding_stage(p: i32) -> bool {
    p == 1 || p == 3 || p == 5
}

/// The launch screen: its stage, and the opacities of the picture and of
/// the caption of the slide on show.
pub struct Splash {
    pub progress: i32,
    pub image_alpha: u8,
    pub text_alpha: u8,
}

/// What one tick of the launch screen did: whether it moved to the next
/// stage (whose clock the front end then starts), whether the last stage
/// ended (the front end then leaves the launch screen), and whether an
/// opacity moved (the front end then restarts the fade clock).
pub struct SplashTick {
    pub advanced: bool,
    pub finished: bool,
    pub faded: bool,
}

impl Splash {
    /// Opacities move in steps of five, so they meet 0 and 255 exactly.
    pub open spec fn wf(&self) -> bool {
        self.image_alpha % 5 == 0 && self.text_alpha % 5 == 0
    }

    /// The slide is where its stage wants it: fully shown at a showing
    /// stage, hidden at a hiding stage.
    pub open spec fn settled(&self) -> bool {
        ||| showing_stage(self.progress) && self.image_alpha == 255 && self.text_alpha == 255
        ||| hiding_stage(self.progress) && self.image_alpha == 0 && self.text_alpha == 0
    }

    /// One tick: a settled stage that has held long enough (`waited`) moves
    /// on, or ends the launch screen at stage 5; then, when the fade clock
    /// is due, one opacity moves by five towards what the (new) stage wants:
    /// the picture before the caption, and fading out before fading in. A
    /// stage that is neither showing nor hiding wants both.
    pub open spec fn tick_spec(self, waited: bool, fade_due: bool) -> (Splash, SplashTick) {
        let go = self.settled() && waited;
        let p = if go && self.progress != 5 {
            self.progress + 1
        } else {
            self.progress as int
        };
        let advanced = go && self.progress != 5;
        let finished = go && self.progress == 5;
        let ia = self.image_alpha;
        let ta = self.text_alpha;
        if fade_due && !showing_stage(p as i32) && ia != 0 {
            (
                Splash { progress: p as i32, image_alpha: (ia - 5) as u8, text_alpha: ta },
                SplashTick { advanced, finished, faded: true },
            )
        } else if fade_due && !showing_stage(p as i32) && ta != 0 {
            (
                Splash { progress: p as i32, image_alpha: ia, text_alpha: (ta - 5) as u8 },
                SplashTick { advanced, finished, faded: true },
            )
        } else if fade_due && !hiding_stage(p as i32) && ia != 255 {
            (
                Splash { progress: p as i32, image_alpha: (ia + 5) as u8, text_alpha: ta },
                SplashTick { advanced, finished, faded: true },
            )
        } else if fade_due && !hiding_stage(p as i32) && ta != 255 {
            (
                Splash { progress: p as i32, image_alpha: ia, text_alpha: (ta + 5) as u8 },
                SplashTick { advanced, finished, faded: true },
            )
        } else {
            (
                Splash { progress: p as i32, image_alpha: ia, text_alpha: ta },
                SplashTick { advanced, finished, faded: false },
            )
        }
    }

    /// One tick of the launch screen; `waited` says whether the stage has
    /// held for its time, `fade_due` whether the fade clock is due. The fade
    /// clock restarts whenever an opacity moves, so a tick moves at most one.
    pub fn tick(&mut self, waited: bool, fade_due: bool) -> (r: SplashTick)
        requires
            old(self).wf(),
        ensures
            final(self).wf(),
            (*final(self), r) == old(self).tick_spec(waited, fade_due),
    {
        let p0 = self.progress;
        let showing = p0 == 0 || p0 == 2 || p0 == 4;
        let hiding = p0 == 1 || p0 == 3 || p0 == 5;
        let settled = (showing && self.image_alpha == 255 && self.text_alpha == 255) || (hiding
            && self.image_alpha == 0 && self.text_alpha == 0);
        let go = settled && waited;
        let advanced = go && p0 != 5;
        let finished = go && p0 == 5;
        if advanced {
            self.progress = p0 + 1;
        }
        let p = self.progress;
        let fade_out = !(p == 0 || p == 2 || p == 4);
        let fade_in = !(p == 1 || p == 3 || p == 5);
        let ia = self.image_alpha;
        let ta = self.text_alpha;
        assert(ia != 0 ==> ia >= 5) by {
            assert(ia % 5 == 0);
        }
        assert(ta != 0 ==> ta >= 5) by {
            assert(ta % 5 == 0);
        }
        assert(ia != 255 ==> ia <= 250) by {
            assert(ia % 5 == 0);
        }
        assert(ta != 255 ==> ta <= 250) by {
            assert(ta % 5 == 0);
        }
        let mut faded = false;
        if fade_due && fade_out && ia != 0 {
            self.image_alpha = ia - 5;
            faded = true;
        } else if fade_due && fade_out && ta != 0 {
            self.text_alpha = ta - 5;
            faded = true;
        } else if fade_due && fade_in && ia != 255 {
            self.image_alpha = ia + 5;
            faded = true;
        } else if fade_due && fade_in && ta != 255 {
            self.text_alpha = ta + 5;
            faded = true;
        }
        SplashTick { advanced, finished, faded }
    }
}

} // verus!
