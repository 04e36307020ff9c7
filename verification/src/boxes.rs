//! The message boxes that a level preloads: which of them come up on a
//! frame, and the names under which the front end shows them.
use vstd::prelude::*;
use crate::engine::App;
use crate::records::{OperationMessageBox, OperationMessageBoxView};
use crate::resource::{RustConstructorResource, SeverityLevel, find_resource, has_resource};
use crate::switch::{PointerButton, SwitchClickAction, SwitchData, appearances_per_state};
use crate::text::{concat, decimal, push_decimal};
use crate::widgets::appearance_views;

verus! {

/// Whether the front end says the box at `i` is due (its appear time has
/// come); a box without a flag is not due.
pub open spec fn due_at(due: Seq<bool>, i: int) -> bool {
    0 <= i < due.len() && due[i]
}

/// Whether the box at `i` comes up now: it is due and has not come up yet.
pub open spec fn comes_up(boxes: Seq<OperationMessageBoxView>, due: Seq<bool>, i: int) -> bool {
    due_at(due, i) && boxes[i].box_enable
}

/// The boxes after a frame: those that came up are no longer enabled, and
/// nothing else changes.
pub open spec fn after_frame(boxes: Seq<OperationMessageBoxView>, due: Seq<bool>) -> Seq<OperationMessageBoxView> {
    Seq::new(
        boxes.len(),
        |i: int|
            if comes_up(boxes, due, i) {
                OperationMessageBoxView { box_enable: false, ..boxes[i] }
            } else {
                boxes[i]
            },
    )
}

/// The preloaded boxes as values.
pub open spec fn box_views(boxes: Seq<OperationMessageBox>) -> Seq<OperationMessageBoxView> {
    boxes.map_values(|b: OperationMessageBox| b@)
}

/// The name of the preloaded box at `i`: `Json_MessageBox` and the index.
pub open spec fn json_box_name(i: nat) -> Seq<char> {
    "Json_MessageBox"@ + decimal(i)
}

/// One frame of the preloaded boxes: the positions, in order, of the boxes
/// that come up now (due by the front end's flag `due`, where a missing
/// flag is not due, and still enabled); those are no longer enabled after
/// it. The front end then shows each in the player's language.
pub fn boxes_coming_up(boxes: &mut Vec<OperationMessageBox>, due: &Vec<bool>) -> (r: Vec<usize>)
    ensures
        box_views(final(boxes)@) == after_frame(box_views(old(boxes)@), due@),
        forall|k: int| 0 <= k < r.len() ==> (r@[k] as int) < old(boxes).len(),
        forall|k: int, l: int| 0 <= k < l < r.len() ==> r@[k] < r@[l],
        forall|i: int|
            0 <= i < old(boxes).len() ==> (r@.contains(i as usize) <==> comes_up(
                box_views(old(boxes)@),
                due@,
                i,
            )),
{
    let ghost before = box_views(boxes@);
    let ghost after = after_frame(before, due@);
    let mut r: Vec<usize> = Vec::new();
    let mut i: usize = 0;
    while i < boxes.len()
        invariant
            0 <= i <= boxes.len(),
            boxes.len() == before.len(),
            before == box_views(old(boxes)@),
            after == after_frame(before, due@),
            forall|j: int| 0 <= j < i ==> #[trigger] boxes@[j]@ == after[j],
            forall|j: int| i <= j < boxes.len() ==> #[trigger] boxes@[j]@ == before[j],
            forall|k: int| 0 <= k < r.len() ==> (r@[k] as int) < i,
            forall|k: int, l: int| 0 <= k < l < r.len() ==> r@[k] < r@[l],
            forall|j: int| 0 <= j < i ==> (r@.contains(j as usize) <==> comes_up(before, due@, j)),
        decreases boxes.len() - i,
    {
        let ghost r0 = r@;
        let ghost b0 = boxes@;
        assert(b0[i as int]@ == before[i as int]);
        let is_due = i < due.len() && due[i];
        if is_due && boxes[i].box_enable {
            boxes[i].box_enable = false;
            r.push(i);
            assert(r@ == r0.push(i));
        }
        proof {
            assert(boxes@[i as int]@ == after[i as int]);
            assert forall|j: int| i < j < boxes.len() implies #[trigger] boxes@[j]@ == before[j] by {
                assert(boxes@[j] == b0[j]);
            }
            assert forall|j: int| 0 <= j < i implies #[trigger] boxes@[j]@ == after[j] by {
                assert(boxes@[j] == b0[j]);
            }
            assert forall|j: int| 0 <= j <= i implies (r@.contains(j as usize) <==> comes_up(
                before,
                due@,
                j,
            )) by {
                if j < i {
                    if r@.contains(j as usize) && r@ != r0 {
                        let k = choose|k: int| 0 <= k < r.len() && r@[k] == j as usize;
                        assert(k < r0.len());
                        assert(r0[k] == j as usize);
                    }
                    if r0.contains(j as usize) {
                        let k = choose|k: int| 0 <= k < r0.len() && r0[k] == j as usize;
                        assert(r@[k] == j as usize);
                    }
                } else {
                    if r@ != r0 {
                        assert(r@[r.len() - 1] == i);
                    } else {
                        assert(!r0.contains(i)) by {
                            if r0.contains(i) {
                                let k = choose|k: int| 0 <= k < r0.len() && r0[k] == i;
                            }
                        }
                    }
                }
            }
        }
        i = i + 1;
    }
    assert forall|j: int| 0 <= j < boxes.len() implies box_views(boxes@)[j] == after[j] by {
        assert(boxes@[j]@ == after[j]);
    }
    assert(box_views(boxes@) =~= after);
    r
}

/// A message box on screen: its name, the names of its title and content
/// texts and of its image, whether it stays until closed, and its size,
/// time on screen, speeds and offset as the bit patterns of the `f32`
/// values that the front end draws it with.
#[derive(Debug)]
pub struct MessageBox {
    pub discern_type: String,
    pub name: String,
    pub box_size: [u32; 2],
    pub box_title_name: String,
    pub box_content_name: String,
    pub box_image_name: String,
    pub box_keep_existing: bool,
    pub box_existing_time: u32,
    pub box_exist: bool,
    pub box_speed: u32,
    pub box_restore_speed: u32,
    pub box_memory_offset: u32,
}

impl RustConstructorResource for MessageBox {
    open spec fn spec_name(&self) -> Seq<char> {
        self.name@
    }

    open spec fn spec_expose_type(&self) -> Seq<char> {
        self.discern_type@
    }

    fn name(&self) -> (r: &str) {
        self.name.as_str()
    }

    fn expose_type(&self) -> (r: &str) {
        self.discern_type.as_str()
    }
}

/// The name under which a part of a message box is kept.
pub open spec fn boxed(name: Seq<char>) -> Seq<char> {
    "MessageBox_"@ + name
}

/// The appearances of a message box's close button: released, hovered and
/// pressed, for each of its two states.
pub open spec fn close_appearances() -> Seq<(Seq<char>, [u8; 4])> {
    seq![
        ("Close_Message_Box"@, [255u8, 255u8, 255u8, 0u8]),
        ("Close_Message_Box"@, [180u8, 180u8, 180u8, 200u8]),
        ("Close_Message_Box"@, [255u8, 255u8, 255u8, 200u8]),
        ("Close_Message_Box"@, [180u8, 180u8, 180u8, 200u8]),
    ]
}

fn close_look(color: [u8; 4]) -> (d: SwitchData)
    ensures
        d@ == ("Close_Message_Box"@, color),
{
    SwitchData { texture: "Close_Message_Box".to_owned(), color }
}

impl App {
    /// Adds the message box `names[0]`, whose title and content are the
    /// texts `names[1]` and `names[2]` and whose image is `names[3]`: the
    /// box keeps those parts under `MessageBox_` and their names (the front
    /// end renames them and lays them out), takes the moment it appeared
    /// (`MessageBox_` and its name, only where it does not stay until
    /// closed) and the moment of its animation (that name and
    /// `_animation`), and gets a close button (`MessageBox_`, its name and
    /// `_Close`) with two states. A box of a name already taken is reported
    /// instead, and nothing else changes (in strict mode the game stops
    /// there, as it does where a text of the report is missing; those
    /// inputs are left out). `true` where the box was added.
    pub fn add_message_box(
        &mut self,
        box_itself_title_content_image_name: [&str; 4],
        box_size: [u32; 2],
        box_keep_existing: bool,
        box_existing_time: u32,
        box_normal_and_restore_speed: [u32; 2],
    ) -> (r: bool)
        requires
            old(self).wf(),
            has_resource(old(self).resource_message_box@, box_itself_title_content_image_name[0]@) ==> {
                &&& !old(self).config.rc_strict_mode
                &&& old(self).has_text("error_message_box_already_exists"@)
                &&& old(self).has_text("error_message_box_already_exists_annotation"@)
            },
        ensures
            ({
                let n = box_itself_title_content_image_name;
                let t = [old(self).timer.now_time, old(self).timer.total_time];
                let sw = final(self).resource_switch@.last();
                let b = final(self).resource_message_box@.last();
                &&& r == !has_resource(old(self).resource_message_box@, n[0]@)
                &&& !r ==> App::reported(
                    *old(self),
                    *final(self),
                    old(self).problem_now(
                        n[0]@ + old(self).text_of("error_message_box_already_exists"@),
                        SeverityLevel::SevereWarning,
                        old(self).text_of("error_message_box_already_exists_annotation"@),
                    ),
                )
                &&& r ==> {
                    &&& final(self).resource_message_box@.len() == old(self).resource_message_box@.len() + 1
                    &&& final(self).resource_message_box@.take(old(self).resource_message_box@.len() as int)
                        == old(self).resource_message_box@
                    &&& b.discern_type@ == "MessageBox"@
                    &&& b.name@ == n[0]@
                    &&& b.box_size == box_size
                    &&& b.box_title_name@ == boxed(n[1]@)
                    &&& b.box_content_name@ == boxed(n[2]@)
                    &&& b.box_image_name@ == boxed(n[3]@)
                    &&& b.box_keep_existing == box_keep_existing
                    &&& b.box_existing_time == box_existing_time
                    &&& b.box_exist
                    &&& b.box_speed == box_normal_and_restore_speed[0]
                    &&& b.box_restore_speed == box_normal_and_restore_speed[1]
                    &&& b.box_memory_offset == 0
                    &&& final(self).split_views() == (if box_keep_existing {
                        old(self).split_views()
                    } else {
                        old(self).split_views().push((boxed(n[0]@), t))
                    }).push((boxed(n[0]@) + "_animation"@, t))
                    &&& final(self).resource_switch@.len() == old(self).resource_switch@.len() + 1
                    &&& final(self).resource_switch@.take(old(self).resource_switch@.len() as int)
                        == old(self).resource_switch@
                    &&& sw.discern_type@ == "Switch"@
                    &&& sw.name@ == boxed(n[0]@) + "_Close"@
                    &&& sw.switch_image_name@ == boxed(n[0]@) + "_Close"@
                    &&& sw.enable_hover_click_image == [false, true]
                    &&& sw.state == 0
                    &&& sw.click_method@ == seq![
                        SwitchClickAction { click_method: PointerButton::Primary, action: true },
                    ]
                    &&& sw.animation_count == 2
                    &&& appearance_views(sw.appearance@) == close_appearances()
                    &&& sw.wf()
                    &&& final(self).problem_list == old(self).problem_list
                    &&& final(self).config == old(self).config
                    &&& final(self).game_text == old(self).game_text
                    &&& final(self).page == old(self).page
                    &&& final(self).resource_page == old(self).resource_page
                    &&& final(self).variables == old(self).variables
                    &&& final(self).timer.start_time == old(self).timer.start_time
                    &&& final(self).timer.total_time == old(self).timer.total_time
                    &&& final(self).timer.now_time == old(self).timer.now_time
                }
            }),
            final(self).wf(),
    {
        let n = box_itself_title_content_image_name;
        if find_resource(&self.resource_message_box, n[0]).is_some() {
            let exists = self.localized("error_message_box_already_exists");
            let problem = concat(n[0], exists.as_str());
            let annotation = self.localized("error_message_box_already_exists_annotation");
            self.problem_report(problem.as_str(), SeverityLevel::SevereWarning, annotation.as_str());
            return false;
        }
        let name = concat("MessageBox_", n[0]);
        if !box_keep_existing {
            self.add_split_time(name.as_str(), false);
        }
        let animation = concat(name.as_str(), "_animation");
        self.add_split_time(animation.as_str(), false);
        let close = concat(name.as_str(), "_Close");
        let mut looks: Vec<SwitchData> = Vec::new();
        looks.push(close_look([255, 255, 255, 0]));
        looks.push(close_look([180, 180, 180, 200]));
        looks.push(close_look([255, 255, 255, 200]));
        looks.push(close_look([180, 180, 180, 200]));
        let ghost given = appearance_views(looks@);
        assert(given =~= close_appearances());
        let mut clicks: Vec<SwitchClickAction> = Vec::new();
        clicks.push(SwitchClickAction { click_method: PointerButton::Primary, action: true });
        assert(appearances_per_state([false, true]) == 2);
        self.add_switch([close.as_str(), close.as_str()], looks, [false, true, true], 2, clicks);
        proof {
            assert(Seq::new(0nat, |k: int| crate::widgets::filler()) =~= Seq::<(Seq<char>, [u8; 4])>::empty());
            assert(given + Seq::new(0nat, |k: int| crate::widgets::filler()) =~= given);
        }
        let b = MessageBox {
            discern_type: "MessageBox".to_owned(),
            name: n[0].to_owned(),
            box_size,
            box_title_name: concat("MessageBox_", n[1]),
            box_content_name: concat("MessageBox_", n[2]),
            box_image_name: concat("MessageBox_", n[3]),
            box_keep_existing,
            box_existing_time,
            box_exist: true,
            box_speed: box_normal_and_restore_speed[0],
            box_restore_speed: box_normal_and_restore_speed[1],
            box_memory_offset: 0,
        };
        let ghost boxes = self.resource_message_box@;
        self.resource_message_box.push(b);
        assert(self.resource_message_box@.take(boxes.len() as int) =~= boxes);
        true
    }
}

/// The names under which the preloaded box at `i` is shown: the box (and
/// its image), its title and its content.
pub fn json_box_names(i: u32) -> (r: (String, String, String))
    ensures
        r.0@ == json_box_name(i as nat),
        r.1@ == json_box_name(i as nat) + "_Title"@,
        r.2@ == json_box_name(i as nat) + "_Content"@,
{
    let mut name = "Json_MessageBox".to_owned();
    push_decimal(&mut name, i);
    let mut title = name.clone();
    title.append("_Title");
    let mut content = name.clone();
    content.append("_Content");
    (name, title, content)
}

} // verus!
