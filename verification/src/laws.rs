//! Properties that relate the engine's operations to one another.
use vstd::prelude::*;
use crate::account::{name_char, sanitized};
use crate::engine::{App, SplitTime, drawn_pages};
use crate::resource::{PageData, RustConstructorResource, first_named, has_resource, is_first_named, lemma_first_named, lemma_first_named_unique};
use crate::value::{ValueView, Variable};
use crate::switch::{Pointer, Switch, first_pressed, is_first_pressed};
use crate::armory::{next_index, previous_index};
use crate::enemy::{animation_next, faded};
use crate::splash::{Splash, showing_stage, hiding_stage};
use crate::json::{Json, keep_some};
use crate::clock::weekday_numeral;
use crate::game_text::str_members;
use crate::records::{
    color_at, enemy_from_json, gun_from_json, gun_size_of, member_at, message_box_from_json,
    move_path_from_json, number_at, number_of, operation_global_from_json, point_of,
    target_enemy_from_json, texts_of, u8_at,
};

verus! {

/// Two lists whose resources have the same names, position by position.
pub open spec fn same_names<T: RustConstructorResource>(a: Seq<T>, b: Seq<T>) -> bool {
    a.len() == b.len() && forall|j: int| 0 <= j < a.len() ==> #[trigger] a[j].spec_name() == b[j].spec_name()
}

/// Renaming nothing leaves the first position of every name where it was.
pub proof fn lemma_same_names_first<T: RustConstructorResource>(a: Seq<T>, b: Seq<T>, name: Seq<char>)
    requires
        same_names(a, b),
        has_resource(a, name),
    ensures
        has_resource(b, name),
        first_named(b, name) == first_named(a, name),
{
    let k = choose|i: int| 0 <= i < a.len() && #[trigger] a[i].spec_name() == name;
    lemma_first_named(a, name, k);
    let i = first_named(a, name);
    assert(b[i].spec_name() == name);
    assert(is_first_named(b, name, i)) by {
        assert forall|j: int| 0 <= j < i implies #[trigger] b[j].spec_name() != name by {
            assert(a[j].spec_name() == b[j].spec_name());
        }
    }
    lemma_first_named(b, name, i);
    lemma_first_named_unique(b, name);
}

/// Reading a variable back after setting it gives the value it was set to:
/// `after` is `before` as `modify_var(name, v)` leaves it.
pub proof fn modified_var_reads_back(before: App, after: App, name: Seq<char>, v: ValueView)
    requires
        before.has_var(name),
        after.variables@.len() == before.variables@.len(),
        after.variables@[before.var_pos(name)].value@ == v,
        after.variables@[before.var_pos(name)].name == before.variables@[before.var_pos(name)].name,
        forall|j: int|
            0 <= j < before.variables.len() && j != before.var_pos(name) ==> #[trigger] after.variables@[j]
                == before.variables@[j],
    ensures
        after.has_var(name),
        after.var_value(name) == v,
{
    assert(same_names(before.variables@, after.variables@)) by {
        assert forall|j: int| 0 <= j < before.variables@.len() implies #[trigger] before.variables@[j].spec_name()
            == after.variables@[j].spec_name() by {
            if j != before.var_pos(name) {
                assert(after.variables@[j] == before.variables@[j]);
            }
        }
    }
    lemma_same_names_first(before.variables@, after.variables@, name);
}

/// Setting a variable leaves every variable of another name reading as
/// before: `after` is `before` as `modify_var(name, v)` leaves it.
pub proof fn modified_var_keeps_others(before: App, after: App, name: Seq<char>, v: ValueView, other: Seq<char>)
    requires
        before.has_var(name),
        before.has_var(other),
        other != name,
        after.variables@.len() == before.variables@.len(),
        after.variables@[before.var_pos(name)].value@ == v,
        after.variables@[before.var_pos(name)].name == before.variables@[before.var_pos(name)].name,
        forall|j: int|
            0 <= j < before.variables.len() && j != before.var_pos(name) ==> #[trigger] after.variables@[j]
                == before.variables@[j],
    ensures
        after.has_var(other),
        after.var_value(other) == before.var_value(other),
{
    assert(same_names(before.variables@, after.variables@)) by {
        assert forall|j: int| 0 <= j < before.variables@.len() implies #[trigger] before.variables@[j].spec_name()
            == after.variables@[j].spec_name() by {
            if j != before.var_pos(name) {
                assert(after.variables@[j] == before.variables@[j]);
            }
        }
    }
    lemma_same_names_first(before.variables@, after.variables@, other);
    let k = choose|i: int| 0 <= i < before.variables.len() && #[trigger] before.variables@[i].spec_name() == other;
    lemma_first_named(before.variables@, other, k);
    let kn = choose|i: int| 0 <= i < before.variables.len() && #[trigger] before.variables@[i].spec_name() == name;
    lemma_first_named(before.variables@, name, kn);
    assert(before.var_pos(other) != before.var_pos(name));
}

/// Adding a variable under a new name makes it readable with the value
/// given, and leaves every variable that was there reading as before:
/// `after` is `before` as `add_var(name, v)` leaves it.
pub proof fn added_var_reads_back(before: App, after: App, name: Seq<char>, v: ValueView, other: Seq<char>)
    requires
        after.variables@.len() == before.variables@.len() + 1,
        after.variables@.take(before.variables@.len() as int) == before.variables@,
        after.variables@.last().name@ == name,
        after.variables@.last().value@ == v,
    ensures
        !before.has_var(name) ==> after.has_var(name) && after.var_value(name) == v,
        before.has_var(other) ==> after.has_var(other) && after.var_value(other) == before.var_value(other),
{
    let n = before.variables@.len() as int;
    assert forall|j: int| 0 <= j < n implies #[trigger] after.variables@[j] == before.variables@[j] by {
        assert(after.variables@.take(n)[j] == after.variables@[j]);
    }
    if !before.has_var(name) {
        assert(after.variables@[n].spec_name() == name);
        assert(is_first_named(after.variables@, name, n)) by {
            assert forall|j: int| 0 <= j < n implies #[trigger] after.variables@[j].spec_name() != name by {
                assert(after.variables@[j] == before.variables@[j]);
                if before.variables@[j].spec_name() == name {
                    assert(has_resource(before.variables@, name));
                }
            }
        }
        lemma_first_named(after.variables@, name, n);
        lemma_first_named_unique(after.variables@, name);
    }
    if before.has_var(other) {
        let k = choose|i: int| 0 <= i < before.variables.len() && #[trigger] before.variables@[i].spec_name() == other;
        lemma_first_named(before.variables@, other, k);
        let i = first_named(before.variables@, other);
        assert(after.variables@[i] == before.variables@[i]);
        assert(is_first_named(after.variables@, other, i)) by {
            assert forall|j: int| 0 <= j < i implies #[trigger] after.variables@[j].spec_name() != other by {
                assert(after.variables@[j] == before.variables@[j]);
            }
        }
        lemma_first_named(after.variables@, other, i);
        lemma_first_named_unique(after.variables@, other);
    }
}

/// Once a page has been marked as set up, asking again finds it set up:
/// `after` is `before` as `new_page_update(name)` (or a `check_updated(name)`
/// that gave `false`) leaves it, for a page that exists.
pub proof fn page_update_sticks(before: App, after: App, name: Seq<char>)
    requires
        has_resource(before.resource_page@, name),
        after.resource_page@.len() == before.resource_page@.len(),
        after.resource_page@[first_named(before.resource_page@, name)].change_page_updated,
        after.resource_page@[first_named(before.resource_page@, name)].name
            == before.resource_page@[first_named(before.resource_page@, name)].name,
        forall|j: int|
            0 <= j < before.resource_page.len() && j != first_named(before.resource_page@, name)
                ==> #[trigger] after.resource_page@[j] == before.resource_page@[j],
    ensures
        has_resource(after.resource_page@, name),
        after.resource_page@[first_named(after.resource_page@, name)].change_page_updated,
{
    let i = first_named(before.resource_page@, name);
    assert(same_names(before.resource_page@, after.resource_page@)) by {
        assert forall|j: int| 0 <= j < before.resource_page@.len() implies #[trigger] before.resource_page@[j].spec_name()
            == after.resource_page@[j].spec_name() by {
            if j != i {
                assert(after.resource_page@[j] == before.resource_page@[j]);
            }
        }
    }
    lemma_same_names_first(before.resource_page@, after.resource_page@, name);
}

/// After taking a moment anew (`add_split_time(name, true)`), reading it
/// gives the times just taken, provided no more than one moment had that
/// name: `after` is `before` as `add_split_time(name, true)` leaves it.
pub proof fn reset_moment_reads_back(before: App, after: App, name: Seq<char>)
    requires
        forall|a: int, b: int|
            0 <= a < before.timer.split_time.len() && 0 <= b < before.timer.split_time.len()
                && (#[trigger] before.timer.split_time@[a]).spec_name() == name
                && (#[trigger] before.timer.split_time@[b]).spec_name() == name ==> a == b,
        after.split_views() == (if has_resource(before.timer.split_time@, name) {
            before.split_views().remove(first_named(before.timer.split_time@, name))
        } else {
            before.split_views()
        }).push((name, [before.timer.now_time, before.timer.total_time])),
    ensures
        has_resource(after.timer.split_time@, name),
        after.timer.split_time@[first_named(after.timer.split_time@, name)].time
            == [before.timer.now_time, before.timer.total_time],
{
    let kept = if has_resource(before.timer.split_time@, name) {
        before.split_views().remove(first_named(before.timer.split_time@, name))
    } else {
        before.split_views()
    };
    let sv = after.split_views();
    let n = kept.len() as int;
    assert(sv.len() == n + 1);
    assert forall|j: int| 0 <= j < n implies (#[trigger] sv[j]).0 != name by {
        assert(sv[j] == kept[j]);
        if has_resource(before.timer.split_time@, name) {
            let k = choose|i: int| 0 <= i < before.timer.split_time.len() && #[trigger] before.timer.split_time@[i].spec_name() == name;
            lemma_first_named(before.timer.split_time@, name, k);
            let f = first_named(before.timer.split_time@, name);
            let src = if j < f { j } else { j + 1 };
            assert(kept[j] == before.split_views()[src]);
            assert(before.split_views()[src].0 == before.timer.split_time@[src].spec_name());
            if before.timer.split_time@[src].spec_name() == name {
                assert(src == f);
            }
        } else {
            assert(kept[j] == before.split_views()[j]);
            assert(before.split_views()[j].0 == before.timer.split_time@[j].spec_name());
        }
    }
    assert forall|j: int| 0 <= j < n implies #[trigger] after.timer.split_time@[j].spec_name() != name by {
        assert(sv[j].0 == after.timer.split_time@[j].spec_name());
    }
    assert(sv[n] == (name, [before.timer.now_time, before.timer.total_time]));
    assert(after.timer.split_time@[n].spec_name() == name);
    assert(is_first_named(after.timer.split_time@, name, n));
    lemma_first_named(after.timer.split_time@, name, n);
    lemma_first_named_unique(after.timer.split_time@, name);
}

/// A cleaned name holds only characters that may stand in a player's name,
/// and cleaning it again changes nothing.
pub proof fn sanitized_is_clean(s: Seq<char>)
    ensures
        forall|i: int| 0 <= i < sanitized(s).len() ==> name_char(#[trigger] sanitized(s)[i]),
        sanitized(sanitized(s)) == sanitized(s),
    decreases s.len(),
{
    if s.len() > 0 {
        sanitized_is_clean(s.drop_last());
        let t = sanitized(s.drop_last());
        if name_char(s.last()) {
            assert(t.push(s.last()).drop_last() =~= t);
        }
    }
}

/// Releasing a press of a click method whose action is set moves a sound
/// switch to the next state, from the last state back to the first: the
/// states are visited cyclically.
pub proof fn release_advances_cyclically(sw: Switch, i: usize)
    requires
        sw.wf(),
        i < sw.click_method.len(),
        sw.click_method@[i as int].action,
    ensures
        sw.released_state(i) as int == (sw.state as int + 1) % sw.state_count(),
        (sw.released_state(i) as int) < sw.state_count(),
{
    let c = sw.state_count();
    assert(c >= 1);
    if (sw.state as int) < c - 1 {
        vstd::arithmetic::div_mod::lemma_small_mod((sw.state + 1) as nat, c as nat);
    } else {
        assert(sw.state as int + 1 == c);
        vstd::arithmetic::div_mod::lemma_mod_self_0(c);
    }
}

/// Choosing the next gun and then the previous one comes back to the gun
/// chosen first, and so does the other way round; the choice stays among
/// the guns.
pub proof fn gun_choice_round_trip(sel: u32, n: u32)
    requires
        sel < n,
    ensures
        next_index(sel, n) < n,
        previous_index(sel, n) < n,
        previous_index(next_index(sel, n), n) == sel,
        next_index(previous_index(sel, n), n) == sel,
{
}

/// The frame of an enemy's animation never leaves the frames from 0 to
/// `image_count` once it is among them.
pub proof fn animation_stays_in_range(count: u32, forward: bool, image_count: u32)
    requires
        count <= image_count,
    ensures
        animation_next(count, forward, image_count).0 <= image_count,
{
}

/// Fading in never lowers the opacity and fading out never raises it; a
/// fade by a step at least as large as the way left reaches the end.
pub proof fn fade_moves_towards_its_end(a: u8, speed: u8)
    ensures
        faded(a, true, speed) >= a,
        faded(a, false, speed) <= a,
        a + speed >= 255 ==> faded(a, true, speed) == 255,
        a <= speed ==> faded(a, false, speed) == 0,
{
}

/// The launch screen never goes back a stage and moves at most one stage
/// per tick; it ends only from stage 5, and only once the last slide is
/// hidden; and opacities stay in steps of five.
pub proof fn splash_moves_forward(s: Splash, waited: bool, fade_due: bool)
    requires
        s.wf(),
    ensures
        ({
            let (t, r) = s.tick_spec(waited, fade_due);
            &&& t.wf()
            &&& t.progress == s.progress || (r.advanced && t.progress == s.progress + 1)
            &&& r.advanced ==> (showing_stage(s.progress) || hiding_stage(s.progress)) && s.progress != 5
            &&& r.finished ==> s.progress == 5 && s.image_alpha == 0 && s.text_alpha == 0
        }),
{
    assert(s.image_alpha != 0 ==> s.image_alpha >= 5);
    assert(s.text_alpha != 0 ==> s.text_alpha >= 5);
    assert(s.image_alpha != 255 ==> s.image_alpha <= 250);
    assert(s.text_alpha != 255 ==> s.text_alpha <= 250);
}

/// Whether a list has a resource of a name depends only on which
/// resources it holds: a list made of two lists has one exactly where one
/// of them has, so adding resources never loses a name.
pub proof fn resource_found_in_joined_lists<T: RustConstructorResource>(a: Seq<T>, b: Seq<T>, name: Seq<char>)
    ensures
        has_resource(a + b, name) == (has_resource(a, name) || has_resource(b, name)),
{
    let c = a + b;
    if has_resource(c, name) {
        let k = choose|i: int| 0 <= i < c.len() && #[trigger] c[i].spec_name() == name;
        if k < a.len() {
            assert(a[k] == c[k]);
        } else {
            assert(b[k - a.len()] == c[k]);
        }
    }
    if has_resource(a, name) {
        let k = choose|i: int| 0 <= i < a.len() && #[trigger] a[i].spec_name() == name;
        assert(c[k] == a[k]);
    }
    if has_resource(b, name) {
        let k = choose|i: int| 0 <= i < b.len() && #[trigger] b[i].spec_name() == name;
        assert(c[k + a.len()] == b[k]);
    }
}

/// Whether a list has a resource of a name does not depend on the order of
/// its resources: two lists with the same resources, in any order, agree.
pub proof fn resource_found_in_any_order<T: RustConstructorResource>(a: Seq<T>, b: Seq<T>, name: Seq<char>)
    requires
        a.to_multiset() == b.to_multiset(),
    ensures
        has_resource(a, name) == has_resource(b, name),
{
    broadcast use vstd::seq_lib::group_to_multiset_ensures;
    if has_resource(a, name) {
        let k = choose|i: int| 0 <= i < a.len() && #[trigger] a[i].spec_name() == name;
        assert(a.contains(a[k]));
        assert(a.to_multiset().count(a[k]) > 0);
        assert(b.to_multiset().count(a[k]) > 0);
        assert(b.contains(a[k]));
        let j = choose|j: int| 0 <= j < b.len() && b[j] == a[k];
        assert(b[j].spec_name() == name);
    }
    if has_resource(b, name) {
        let k = choose|i: int| 0 <= i < b.len() && #[trigger] b[i].spec_name() == name;
        assert(b.contains(b[k]));
        assert(b.to_multiset().count(b[k]) > 0);
        assert(a.to_multiset().count(b[k]) > 0);
        assert(a.contains(b[k]));
        let j = choose|j: int| 0 <= j < a.len() && a[j] == b[k];
        assert(a[j].spec_name() == name);
    }
}

/// A frame of a switch keeps its state among its states, and changes it
/// only on the release of a click method that has an action, and then to
/// the next state round to the first after the last.
pub proof fn switch_state_stays_in_range(sw: Switch, enable: bool, pointer: Pointer, play_sound: bool)
    requires
        sw.wf(),
    ensures
        ({
            let st = sw.step_spec(enable, pointer, play_sound);
            &&& (st.state as int) < sw.state_count()
            &&& st.state != sw.state ==> {
                &&& enable
                &&& pointer is Inside
                &&& sw.last_time_clicked
                &&& sw.click_method@[sw.last_time_clicked_index as int].action
                &&& st.state as int == (sw.state as int + 1) % sw.state_count()
            }
        }),
{
    if sw.last_time_clicked && sw.click_method@[sw.last_time_clicked_index as int].action {
        release_advances_cyclically(sw, sw.last_time_clicked_index);
    }
}

/// After a frame's page check the game is on a page it draws: a drawn
/// page is kept, and any other is left for the error page, which is drawn.
/// `after` is `before` as `check_page` leaves it, `drawn` its answer.
pub proof fn checked_page_is_drawn(before: App, after: App, drawn: bool)
    requires
        drawn == drawn_pages().contains(before.page@),
        drawn ==> after == before,
        !drawn ==> after.page@ == "Error"@,
    ensures
        drawn_pages().contains(after.page@),
{
    if !drawn {
        assert(drawn_pages()[7] == "Error"@);
    }
}

/// A gun read from a document takes each value from the member of its own
/// name (its damage from `gun_basic_damage`, its recoil from `gun_recoil`,
/// and so on), and a gun is read exactly where each member it needs is
/// there with its type.
pub proof fn gun_reads_each_member_by_name(j: Json)
    ensures
        gun_from_json(j) is Some <==> {
            &&& j.field("gun_recognition_name"@).as_str() is Some
            &&& j.field("gun_image"@).as_str() is Some
            &&& j.field("gun_shoot_sound"@).as_str() is Some
            &&& number_of()(j.field("gun_shoot_speed"@)) is Some
            &&& number_of()(j.field("gun_reload_time"@)) is Some
            &&& number_of()(j.field("gun_basic_damage"@)) is Some
            &&& j.field("gun_catridge_clip"@).as_u32() is Some
            &&& number_of()(j.field("gun_recoil"@)) is Some
            &&& j.field("gun_temperature_degree"@).as_u32() is Some
            &&& j.field("gun_initial_unlock"@).as_bool() is Some
            &&& j.field("gun_no_bullet_shoot_sound"@).as_str() is Some
            &&& j.field("gun_reload_bullet_sound"@).as_str() is Some
            &&& j.field("gun_reload_sound"@).as_str() is Some
            &&& number_of()(j.field("gun_reload_interval"@)) is Some
            &&& j.field("gun_overheating_sound"@).as_str() is Some
        },
        gun_from_json(j) matches Some(g) ==> {
            &&& Some(g.gun_recognition_name) == j.field("gun_recognition_name"@).as_str()
            &&& g.gun_name == str_members(j.field("gun_name"@).members())
            &&& g.gun_size == gun_size_of(j)
            &&& Some(g.gun_image) == j.field("gun_image"@).as_str()
            &&& Some(g.gun_shoot_sound) == j.field("gun_shoot_sound"@).as_str()
            &&& Some(g.gun_shoot_speed) == number_of()(j.field("gun_shoot_speed"@))
            &&& Some(g.gun_reload_time) == number_of()(j.field("gun_reload_time"@))
            &&& Some(g.gun_basic_damage) == number_of()(j.field("gun_basic_damage"@))
            &&& Some(g.gun_catridge_clip) == j.field("gun_catridge_clip"@).as_u32()
            &&& Some(g.gun_recoil) == number_of()(j.field("gun_recoil"@))
            &&& Some(g.gun_temperature_degree) == j.field("gun_temperature_degree"@).as_u32()
            &&& g.gun_tag == str_members(j.field("gun_tag"@).members())
            &&& Some(g.gun_initial_unlock) == j.field("gun_initial_unlock"@).as_bool()
            &&& Some(g.gun_no_bullet_shoot_sound) == j.field("gun_no_bullet_shoot_sound"@).as_str()
            &&& Some(g.gun_reload_sound) == j.field("gun_reload_sound"@).as_str()
            &&& Some(g.gun_reload_bullet_sound) == j.field("gun_reload_bullet_sound"@).as_str()
            &&& Some(g.gun_reload_interval) == number_of()(j.field("gun_reload_interval"@))
            &&& Some(g.gun_overheating_sound) == j.field("gun_overheating_sound"@).as_str()
        },
{
}

/// A gun's size is the pair of numbers of its `gun_size` array, first
/// then second, where the array holds exactly two numbers.
pub proof fn gun_size_reads_its_array(j: Json)
    ensures
        ({
            let n = keep_some(j.field("gun_size"@).members(), number_of());
            n.len() == 2 ==> gun_size_of(j) == [n[0], n[1]]
        }),
{
}

/// An enemy read from a document takes each value from the member of its
/// own name (its hit points from `enemy_hp`, its defence from `enemy_def`,
/// and so on), and an enemy is read exactly where each member it needs is
/// there with its type.
pub proof fn enemy_reads_each_member_by_name(j: Json)
    ensures
        enemy_from_json(j) is Some <==> {
            &&& j.field("enemy_recognition_name"@).as_str() is Some
            &&& number_of()(j.field("enemy_hp"@)) is Some
            &&& number_of()(j.field("enemy_def"@)) is Some
            &&& number_of()(j.field("enemy_speed"@)) is Some
            &&& number_of()(j.field("enemy_invincible_time"@)) is Some
            &&& j.field("enemy_image_count"@).as_u32() is Some
            &&& j.field("enemy_image"@).as_str() is Some
            &&& j.field("enemy_image_type"@).as_str() is Some
            &&& j.field("enemy_minus_target_point"@).as_u32() is Some
            &&& number_of()(j.field("enemy_walk_interval"@)) is Some
            &&& number_of()(j.field("enemy_animation_interval"@)) is Some
        },
        enemy_from_json(j) matches Some(e) ==> {
            &&& Some(e.enemy_recognition_name) == j.field("enemy_recognition_name"@).as_str()
            &&& e.enemy_name == texts_of(j.field("enemy_name"@).members())
            &&& Some(e.enemy_hp) == number_of()(j.field("enemy_hp"@))
            &&& Some(e.enemy_def) == number_of()(j.field("enemy_def"@))
            &&& Some(e.enemy_speed) == number_of()(j.field("enemy_speed"@))
            &&& Some(e.enemy_invincible_time) == number_of()(j.field("enemy_invincible_time"@))
            &&& Some(e.enemy_image_count) == j.field("enemy_image_count"@).as_u32()
            &&& e.enemy_tag == texts_of(j.field("enemy_tag"@).members())
            &&& Some(e.enemy_image) == j.field("enemy_image"@).as_str()
            &&& Some(e.enemy_image_type) == j.field("enemy_image_type"@).as_str()
            &&& Some(e.enemy_minus_target_point) == j.field("enemy_minus_target_point"@).as_u32()
            &&& Some(e.enemy_walk_interval) == number_of()(j.field("enemy_walk_interval"@))
            &&& Some(e.enemy_animation_interval) == number_of()(j.field("enemy_animation_interval"@))
        },
{
}

/// The whole of an operation read from a document takes each value from
/// the member of its own name (the rounds in stock from `storage_bullet`,
/// the cost from `cost`, and so on), and it is read exactly where each
/// member it needs is there with its type.
pub proof fn operation_global_reads_each_member_by_name(j: Json)
    ensures
        operation_global_from_json(j) is Some <==> {
            &&& j.field("target_point"@).as_u32() is Some
            &&& j.field("storage_bullet"@).as_u32() is Some
            &&& j.field("cost"@).as_u32() is Some
            &&& number_of()(j.field("cost_recover_speed"@)) is Some
            &&& j.field("instrument_ceiling"@).as_u32() is Some
            &&& j.field("operation_background"@).as_str() is Some
            &&& j.field("operation_background_expand"@).as_str() is Some
            &&& j.field("operation_start_background"@).as_str() is Some
            &&& j.field("operation_over_background"@).as_str() is Some
        },
        operation_global_from_json(j) matches Some(g) ==> {
            &&& Some(g.target_point) == j.field("target_point"@).as_u32()
            &&& Some(g.storage_bullet) == j.field("storage_bullet"@).as_u32()
            &&& Some(g.cost) == j.field("cost"@).as_u32()
            &&& Some(g.cost_recover_speed) == number_of()(j.field("cost_recover_speed"@))
            &&& Some(g.instrument_ceiling) == j.field("instrument_ceiling"@).as_u32()
            &&& g.target_line == keep_some(j.field("target_line"@).members(), point_of())
            &&& Some(g.operation_background) == j.field("operation_background"@).as_str()
            &&& Some(g.operation_background_expand) == j.field("operation_background_expand"@).as_str()
            &&& Some(g.operation_start_background) == j.field("operation_start_background"@).as_str()
            &&& Some(g.operation_over_background) == j.field("operation_over_background"@).as_str()
        },
{
}

/// An enemy that an operation places takes each value from the member of
/// its own name, its position and size from the first and second members
/// of their arrays, and it is read exactly where each of those is there
/// with its type.
pub proof fn target_enemy_reads_each_member_by_name(j: Json)
    ensures
        target_enemy_from_json(j) is Some <==> {
            &&& j.field("enemy_recognition_name"@).as_str() is Some
            &&& number_at(j, "enemy_position"@, 0) is Some
            &&& number_at(j, "enemy_position"@, 1) is Some
            &&& number_at(j, "enemy_size"@, 0) is Some
            &&& number_at(j, "enemy_size"@, 1) is Some
            &&& number_of()(j.field("enemy_approach_time"@)) is Some
            &&& j.field("enemy_approach_alpha"@).as_u8() is Some
            &&& j.field("enemy_increase_alpha_speed"@).as_u8() is Some
        },
        target_enemy_from_json(j) matches Some(e) ==> {
            &&& Some(e.enemy_recognition_name) == j.field("enemy_recognition_name"@).as_str()
            &&& Some(e.enemy_position[0]) == number_at(j, "enemy_position"@, 0)
            &&& Some(e.enemy_position[1]) == number_at(j, "enemy_position"@, 1)
            &&& Some(e.enemy_size[0]) == number_at(j, "enemy_size"@, 0)
            &&& Some(e.enemy_size[1]) == number_at(j, "enemy_size"@, 1)
            &&& e.enemy_path == texts_of(j.field("enemy_path"@).members())
            &&& Some(e.enemy_approach_time) == number_of()(j.field("enemy_approach_time"@))
            &&& Some(e.enemy_approach_alpha) == j.field("enemy_approach_alpha"@).as_u8()
            &&& Some(e.enemy_increase_alpha_speed) == j.field("enemy_increase_alpha_speed"@).as_u8()
        },
{
}

/// A message box an operation shows takes each value from the member of
/// its own name, its size from the first and second members of `box_size`
/// and each colour from the first four members of its array, in order; it
/// is read exactly where each of those is there with its type, and it is
/// still to be shown.
pub proof fn message_box_reads_each_member_by_name(j: Json)
    ensures
        message_box_from_json(j) is Some <==> {
            &&& number_at(j, "box_size"@, 0) is Some
            &&& number_at(j, "box_size"@, 1) is Some
            &&& j.field("box_image_path"@).as_str() is Some
            &&& color_at(j, "box_title_color"@) is Some
            &&& color_at(j, "box_content_color"@) is Some
            &&& number_of()(j.field("box_existing_time"@)) is Some
            &&& number_of()(j.field("box_appear_time"@)) is Some
        },
        message_box_from_json(j) matches Some(b) ==> {
            &&& Some(b.box_size[0]) == number_at(j, "box_size"@, 0)
            &&& Some(b.box_size[1]) == number_at(j, "box_size"@, 1)
            &&& Some(b.box_image_path) == j.field("box_image_path"@).as_str()
            &&& b.box_title == texts_of(j.field("box_title"@).members())
            &&& b.box_content == texts_of(j.field("box_content"@).members())
            &&& forall|k: int| 0 <= k < 4 ==> Some(#[trigger] b.box_title_color[k]) == u8_at(j, "box_title_color"@, k)
            &&& forall|k: int| 0 <= k < 4 ==> Some(#[trigger] b.box_content_color[k]) == u8_at(j, "box_content_color"@, k)
            &&& Some(b.box_existing_time) == number_of()(j.field("box_existing_time"@))
            &&& Some(b.box_appear_time) == number_of()(j.field("box_appear_time"@))
            &&& b.box_enable
        },
{
    if let Some(b) = message_box_from_json(j) {
        assert(u8_at(j, "box_title_color"@, 0) is Some);
        assert forall|k: int| 0 <= k < 4 implies Some(#[trigger] b.box_title_color[k]) == u8_at(j, "box_title_color"@, k) by {
            assert(k == 0 || k == 1 || k == 2 || k == 3);
        }
        assert forall|k: int| 0 <= k < 4 implies Some(#[trigger] b.box_content_color[k]) == u8_at(j, "box_content_color"@, k) by {
            assert(k == 0 || k == 1 || k == 2 || k == 3);
        }
    }
}

/// The boolean member at position `k` of the array under `key` of `j`.
pub open spec fn bool_member(j: Json, key: Seq<char>, k: int) -> Option<bool> {
    match member_at(j, key, k) {
        Some(m) => m.as_bool(),
        None => None,
    }
}

/// A leg of an enemy's path takes its four directions from the first four
/// members of `move_status`, in order (up, down, left, right), and its time
/// from `move_time`; it is read exactly where those are booleans and a
/// number.
pub proof fn move_path_reads_each_member_by_name(j: Json)
    ensures
        move_path_from_json(j) is Some <==> {
            &&& forall|k: int| 0 <= k < 4 ==> #[trigger] bool_member(j, "move_status"@, k) is Some
            &&& number_of()(j.field("move_time"@)) is Some
        },
        move_path_from_json(j) matches Some(p) ==> {
            &&& forall|k: int| 0 <= k < 4 ==> #[trigger] bool_member(j, "move_status"@, k) == Some(p.move_status[k])
            &&& Some(p.move_time) == number_of()(j.field("move_time"@))
        },
{
    if move_path_from_json(j) is Some {
        let p = move_path_from_json(j)->0;
        assert forall|k: int| 0 <= k < 4 implies #[trigger] bool_member(j, "move_status"@, k) == Some(p.move_status[k]) by {
            assert(k == 0 || k == 1 || k == 2 || k == 3);
        }
    } else {
        if number_of()(j.field("move_time"@)) is Some {
            if forall|k: int| 0 <= k < 4 ==> #[trigger] bool_member(j, "move_status"@, k) is Some {
                assert(bool_member(j, "move_status"@, 0) is Some);
                assert(bool_member(j, "move_status"@, 1) is Some);
                assert(bool_member(j, "move_status"@, 2) is Some);
                assert(bool_member(j, "move_status"@, 3) is Some);
            }
        }
    }
}

/// The English names of the weekdays, Monday first.
pub open spec fn english_weekdays() -> Seq<Seq<char>> {
    seq!["Monday"@, "Tuesday"@, "Wednesday"@, "Thursday"@, "Friday"@, "Saturday"@, "Sunday"@]
}

/// The Chinese numerals of the weekdays, Monday first.
pub open spec fn weekday_numerals() -> Seq<Seq<char>> {
    seq!["一"@, "二"@, "三"@, "四"@, "五"@, "六"@, "日"@]
}

/// The seven weekdays get their numerals in week order (Monday 一 to
/// Saturday 六, Sunday 日), so no two weekdays share a numeral.
pub proof fn weekdays_get_their_numerals()
    ensures
        forall|i: int| 0 <= i < 7 ==> weekday_numeral(#[trigger] english_weekdays()[i]) == weekday_numerals()[i],
        forall|i: int, k: int|
            0 <= i < 7 && 0 <= k < 7 && i != k ==> weekday_numeral(#[trigger] english_weekdays()[i])
                != weekday_numeral(#[trigger] english_weekdays()[k]),
{
    reveal_strlit("Monday");
    reveal_strlit("Tuesday");
    reveal_strlit("Wednesday");
    reveal_strlit("Thursday");
    reveal_strlit("Friday");
    reveal_strlit("Saturday");
    reveal_strlit("Sunday");
    reveal_strlit("一");
    reveal_strlit("二");
    reveal_strlit("三");
    reveal_strlit("四");
    reveal_strlit("五");
    reveal_strlit("六");
    reveal_strlit("日");
    let w = english_weekdays();
    let n = weekday_numerals();
    assert(w[0].len() == 6 && w[0][0] == 'M');
    assert(w[1].len() == 7 && w[1][0] == 'T');
    assert(w[2].len() == 9 && w[2][0] == 'W');
    assert(w[3].len() == 8 && w[3][0] == 'T');
    assert(w[4].len() == 6 && w[4][0] == 'F');
    assert(w[5].len() == 8 && w[5][0] == 'S');
    assert(w[6].len() == 6 && w[6][0] == 'S');
    assert(weekday_numeral(w[0]) == n[0]);
    assert(weekday_numeral(w[1]) == n[1]);
    assert(weekday_numeral(w[2]) == n[2]);
    assert(weekday_numeral(w[3]) == n[3]);
    assert(weekday_numeral(w[4]) == n[4]);
    assert(weekday_numeral(w[5]) == n[5]);
    assert(weekday_numeral(w[6]) == n[6]);
    assert forall|i: int| 0 <= i < 7 implies weekday_numeral(#[trigger] w[i]) == n[i] by {
        assert(i == 0 || i == 1 || i == 2 || i == 3 || i == 4 || i == 5 || i == 6);
    }
    assert forall|i: int, k: int| 0 <= i < 7 && 0 <= k < 7 && i != k implies weekday_numeral(#[trigger] w[i])
        != weekday_numeral(#[trigger] w[k]) by {
        assert(i == 0 || i == 1 || i == 2 || i == 3 || i == 4 || i == 5 || i == 6);
        assert(k == 0 || k == 1 || k == 2 || k == 3 || k == 4 || k == 5 || k == 6);
        assert(n[i][0] != n[k][0]);
    }
}

/// A button that is down, among a frame's entries, makes some click
/// method the first one pressed.
pub proof fn lemma_some_pressed(v: Seq<bool>, i: int)
    requires
        0 <= i < v.len(),
        v[i],
    ensures
        first_pressed(v) is Some,
    decreases i,
{
    if exists|j: int| 0 <= j < i && v[j] {
        let j = choose|j: int| 0 <= j < i && v[j];
        lemma_some_pressed(v, j);
    } else {
        assert(is_first_pressed(v, i));
    }
}

/// While the button of one of its click methods is down over an enabled
/// switch, the switch keeps its state and shows, from its state's group of
/// appearances: the pressed one, the last of the group, where the press
/// image is enabled; the plain one, the first of the group, where neither
/// the hover nor the press image is; and leaves what is shown where only
/// the hover image is enabled.
pub proof fn pressed_switch_shows_press_image(sw: Switch, down: Vec<bool>, i: int, play_sound: bool)
    requires
        sw.wf(),
        0 <= i < down.len(),
        i < sw.click_method.len(),
        down@[i],
    ensures
        ({
            let st = sw.step_spec(true, Pointer::Inside(down), play_sound);
            let first = sw.state * sw.animation_count;
            &&& st.state == sw.state
            &&& st.last_time_clicked
            &&& !st.outcome.click_sound
            &&& sw.enable_hover_click_image[1] ==> st.outcome.shown == Some(
                (first + sw.animation_count - 1) as usize,
            )
            &&& sw.enable_hover_click_image[1] ==> first + sw.animation_count - 1 != first
            &&& !sw.enable_hover_click_image[0] && !sw.enable_hover_click_image[1] ==> st.outcome.shown
                == Some(first as usize)
            &&& sw.enable_hover_click_image[0] && !sw.enable_hover_click_image[1] ==> st.outcome.shown is None
        }),
{
    lemma_some_pressed(sw.pressed_view(down@), i);
}

/// Over an enabled switch with no button down and no press in progress,
/// the switch keeps its state and shows, from its state's group, the
/// hover appearance (the second of the group) where the hover image is
/// enabled, else the plain one (the first).
pub proof fn hovered_switch_shows_hover_image(sw: Switch, down: Vec<bool>, play_sound: bool)
    requires
        sw.wf(),
        !sw.last_time_clicked,
        forall|j: int| 0 <= j < down.len() ==> !down@[j],
    ensures
        ({
            let st = sw.step_spec(true, Pointer::Inside(down), play_sound);
            let first = sw.state * sw.animation_count;
            &&& st.state == sw.state
            &&& !st.last_time_clicked
            &&& sw.enable_hover_click_image[0] ==> st.outcome.shown == Some((first + 1) as usize)
            &&& !sw.enable_hover_click_image[0] ==> st.outcome.shown == Some(first as usize)
        }),
{
    let v = sw.pressed_view(down@);
    if exists|u: int| is_first_pressed(v, u) {
        let u = choose|u: int| is_first_pressed(v, u);
        assert(v[u] == down@[u]);
    }
}

} // verus!
