//! The engine's variable store: named values that the pages read and set.
//! A variable is found by its name (the first one of that name). Setting or
//! copying a variable that does not exist stops the game; reading one as a
//! given type where it is missing or of another type is reported and gives
//! the type's default.
use vstd::prelude::*;
use crate::engine::App;
use crate::resource::{find_resource, first_named, has_resource};
use crate::text::value_debug;
use crate::value::{Value, ValueView, Variable, duplicate_values, view_values};

verus! {

impl App {
    /// A variable named `name` exists.
    pub open spec fn has_var(&self, name: Seq<char>) -> bool {
        has_resource(self.variables@, name)
    }

    /// The position of the variable named `name` (0 where there is none).
    pub open spec fn var_pos(&self, name: Seq<char>) -> int {
        if self.has_var(name) {
            first_named(self.variables@, name)
        } else {
            0
        }
    }

    /// The value of the variable named `name`.
    pub open spec fn var_value(&self, name: Seq<char>) -> ValueView {
        self.variables@[self.var_pos(name)].value@
    }

    /// Adds a variable (after any that already has that name).
    pub fn add_var(&mut self, name: &str, value: Value)
        ensures
            final(self).variables@.len() == old(self).variables@.len() + 1,
            final(self).variables@.take(old(self).variables@.len() as int) == old(self).variables@,
            final(self).variables@.last().name@ == name@,
            final(self).variables@.last().discern_type@ == "Variable"@,
            final(self).variables@.last().value@ == value@,
            final(self).config == old(self).config,
            final(self).game_text == old(self).game_text,
            final(self).problem_list == old(self).problem_list,
            final(self).page == old(self).page,
            final(self).resource_page == old(self).resource_page,
            final(self).resource_switch == old(self).resource_switch,
            final(self).timer == old(self).timer,
    {
        let ghost v = value@;
        self.variables.push(
            Variable { discern_type: "Variable".to_owned(), name: name.to_owned(), value },
        );
        assert(self.variables@.take(old(self).variables@.len() as int) =~= old(self).variables@);
    }

    /// Sets the variable named `name` (the first of that name). A variable
    /// that does not exist stops the game, so that input is left out.
    pub fn modify_var(&mut self, name: &str, value: Value)
        requires
            old(self).has_var(name@),
        ensures
            ({
                let i = old(self).var_pos(name@);
                &&& final(self).variables@.len() == old(self).variables@.len()
                &&& final(self).variables@[i].value@ == value@
                &&& final(self).variables@[i].name == old(self).variables@[i].name
                &&& final(self).variables@[i].discern_type == old(self).variables@[i].discern_type
                &&& forall|j: int|
                    0 <= j < old(self).variables.len() && j != i ==> #[trigger] final(self).variables@[j]
                        == old(self).variables@[j]
            }),
            final(self).problem_list == old(self).problem_list,
            final(self).config == old(self).config,
            final(self).game_text == old(self).game_text,
            final(self).login_user_config == old(self).login_user_config,
            final(self).page == old(self).page,
            final(self).resource_page == old(self).resource_page,
            final(self).resource_switch == old(self).resource_switch,
            final(self).timer == old(self).timer,
    {
        let id = find_resource(&self.variables, name).unwrap();
        let ghost v = value@;
        self.variables[id].value = value;
    }

    /// A copy of the value of the variable named `name` (the first of that
    /// name). A variable that does not exist stops the game, so that input
    /// is left out.
    pub fn var(&mut self, name: &str) -> (r: Value)
        requires
            old(self).has_var(name@),
        ensures
            r@ == old(self).var_value(name@),
            *final(self) == *old(self),
    {
        let id = find_resource(&self.variables, name).unwrap();
        self.variables[id].value.duplicate()
    }

    /// The variable named `name` as an `i32`; 0, with the problem reported,
    /// where it is missing or of another type (in strict mode the game stops
    /// instead, so that input is left out).
    pub fn var_i(&mut self, name: &str) -> (r: i32)
        requires
            old(self).wf(),
            (old(self).has_var(name@) && old(self).var_value(name@) is Int) || old(
                self,
            ).can_report_wrong_type("error_variable_not_i32_type"@),
        ensures
            match (old(self).has_var(name@), old(self).var_value(name@)) {
                (true, ValueView::Int(x)) => r == x && *final(self) == *old(self),
                _ => r == 0 && App::reported(
                    *old(self),
                    *final(self),
                    old(self).wrong_type_report(name@, "error_variable_not_i32_type"@),
                ),
            },
    {
        match find_resource(&self.variables, name) {
            Some(i) => match &self.variables[i].value {
                Value::Int(x) => {
                    return *x;
                },
                _ => {},
            },
            None => {},
        }
        self.report_wrong_type(name, "error_variable_not_i32_type");
        0
    }

    /// The variable named `name` as a `u32`; 0, with the problem reported,
    /// where it is missing or of another type (strict mode stops the game).
    pub fn var_u(&mut self, name: &str) -> (r: u32)
        requires
            old(self).wf(),
            (old(self).has_var(name@) && old(self).var_value(name@) is UInt) || old(
                self,
            ).can_report_wrong_type("error_variable_not_u32_type"@),
        ensures
            match (old(self).has_var(name@), old(self).var_value(name@)) {
                (true, ValueView::UInt(x)) => r == x && *final(self) == *old(self),
                _ => r == 0 && App::reported(
                    *old(self),
                    *final(self),
                    old(self).wrong_type_report(name@, "error_variable_not_u32_type"@),
                ),
            },
    {
        match find_resource(&self.variables, name) {
            Some(i) => match &self.variables[i].value {
                Value::UInt(x) => {
                    return *x;
                },
                _ => {},
            },
            None => {},
        }
        self.report_wrong_type(name, "error_variable_not_u32_type");
        0
    }

    /// The variable named `name` as an `f32`, by its bit pattern; that of
    /// 0.0, with the problem reported, where it is missing or of another type
    /// (strict mode stops the game).
    pub fn var_f(&mut self, name: &str) -> (r: u32)
        requires
            old(self).wf(),
            (old(self).has_var(name@) && old(self).var_value(name@) is Float) || old(
                self,
            ).can_report_wrong_type("error_variable_not_f32_type"@),
        ensures
            match (old(self).has_var(name@), old(self).var_value(name@)) {
                (true, ValueView::Float(x)) => r == x && *final(self) == *old(self),
                _ => r == 0 && App::reported(
                    *old(self),
                    *final(self),
                    old(self).wrong_type_report(name@, "error_variable_not_f32_type"@),
                ),
            },
    {
        match find_resource(&self.variables, name) {
            Some(i) => match &self.variables[i].value {
                Value::Float(x) => {
                    return *x;
                },
                _ => {},
            },
            None => {},
        }
        self.report_wrong_type(name, "error_variable_not_f32_type");
        0
    }

    /// The variable named `name` as a `bool`; `false`, with the problem
    /// reported, where it is missing or of another type (strict mode stops
    /// the game).
    pub fn var_b(&mut self, name: &str) -> (r: bool)
        requires
            old(self).wf(),
            (old(self).has_var(name@) && old(self).var_value(name@) is Bool) || old(
                self,
            ).can_report_wrong_type("error_variable_not_bool_type"@),
        ensures
            match (old(self).has_var(name@), old(self).var_value(name@)) {
                (true, ValueView::Bool(x)) => r == x && *final(self) == *old(self),
                _ => r == false && App::reported(
                    *old(self),
                    *final(self),
                    old(self).wrong_type_report(name@, "error_variable_not_bool_type"@),
                ),
            },
    {
        match find_resource(&self.variables, name) {
            Some(i) => match &self.variables[i].value {
                Value::Bool(x) => {
                    return *x;
                },
                _ => {},
            },
            None => {},
        }
        self.report_wrong_type(name, "error_variable_not_bool_type");
        false
    }

    /// The variable named `name` as a list of values; empty, with the problem
    /// reported, where it is missing or of another type (strict mode stops
    /// the game).
    pub fn var_v(&mut self, name: &str) -> (r: Vec<Value>)
        requires
            old(self).wf(),
            (old(self).has_var(name@) && old(self).var_value(name@) is Vec) || old(
                self,
            ).can_report_wrong_type("error_variable_not_vec_type"@),
        ensures
            match (old(self).has_var(name@), old(self).var_value(name@)) {
                (true, ValueView::Vec(x)) => view_values(r@) == x && *final(self) == *old(self),
                _ => r@.len() == 0 && App::reported(
                    *old(self),
                    *final(self),
                    old(self).wrong_type_report(name@, "error_variable_not_vec_type"@),
                ),
            },
    {
        match find_resource(&self.variables, name) {
            Some(i) => match &self.variables[i].value {
                Value::Vec(x) => {
                    return duplicate_values(x);
                },
                _ => {},
            },
            None => {},
        }
        self.report_wrong_type(name, "error_variable_not_vec_type");
        Vec::new()
    }

    /// The variable named `name` as a `String`; empty, with the problem
    /// reported, where it is missing or of another type (strict mode stops
    /// the game).
    pub fn var_s(&mut self, name: &str) -> (r: String)
        requires
            old(self).wf(),
            (old(self).has_var(name@) && old(self).var_value(name@) is String) || old(
                self,
            ).can_report_wrong_type("error_variable_not_string_type"@),
        ensures
            match (old(self).has_var(name@), old(self).var_value(name@)) {
                (true, ValueView::String(x)) => r@ == x && *final(self) == *old(self),
                _ => r@.len() == 0 && App::reported(
                    *old(self),
                    *final(self),
                    old(self).wrong_type_report(name@, "error_variable_not_string_type"@),
                ),
            },
    {
        match find_resource(&self.variables, name) {
            Some(i) => match &self.variables[i].value {
                Value::String(x) => {
                    return x.clone();
                },
                _ => {},
            },
            None => {},
        }
        self.report_wrong_type(name, "error_variable_not_string_type");
        String::new()
    }

    /// A value as a `bool`; `false`, with the problem reported, for a value
    /// of another type (strict mode stops the game).
    pub fn var_decode_b(&mut self, target: Value) -> (r: bool)
        requires
            old(self).wf(),
            target is Bool || old(self).can_report_wrong_type("error_variable_not_bool_type"@),
        ensures
            match target@ {
                ValueView::Bool(x) => r == x && *final(self) == *old(self),
                _ => r == false && App::reported(
                    *old(self),
                    *final(self),
                    old(self).wrong_type_report(value_debug(target@), "error_variable_not_bool_type"@),
                ),
            },
    {
        match target {
            Value::Bool(b) => b,
            _ => {
                let subject = target.debug_text();
                self.report_wrong_type(subject.as_str(), "error_variable_not_bool_type");
                false
            },
        }
    }

    /// A value as an `i32`; 0, with the problem reported, for a value of
    /// another type (strict mode stops the game).
    pub fn var_decode_i(&mut self, target: Value) -> (r: i32)
        requires
            old(self).wf(),
            target is Int || old(self).can_report_wrong_type("error_variable_not_i32_type"@),
        ensures
            match target@ {
                ValueView::Int(x) => r == x && *final(self) == *old(self),
                _ => r == 0 && App::reported(
                    *old(self),
                    *final(self),
                    old(self).wrong_type_report(value_debug(target@), "error_variable_not_i32_type"@),
                ),
            },
    {
        match target {
            Value::Int(i) => i,
            _ => {
                let subject = target.debug_text();
                self.report_wrong_type(subject.as_str(), "error_variable_not_i32_type");
                0
            },
        }
    }

    /// A value as a `u32`; 0, with the problem reported, for a value of
    /// another type (strict mode stops the game).
    pub fn var_decode_u(&mut self, target: Value) -> (r: u32)
        requires
            old(self).wf(),
            target is UInt || old(self).can_report_wrong_type("error_variable_not_u32_type"@),
        ensures
            match target@ {
                ValueView::UInt(x) => r == x && *final(self) == *old(self),
                _ => r == 0 && App::reported(
                    *old(self),
                    *final(self),
                    old(self).wrong_type_report(value_debug(target@), "error_variable_not_u32_type"@),
                ),
            },
    {
        match target {
            Value::UInt(u) => u,
            _ => {
                let subject = target.debug_text();
                self.report_wrong_type(subject.as_str(), "error_variable_not_u32_type");
                0
            },
        }
    }

    /// A value as an `f32`, by its bit pattern; that of 0.0, with the problem
    /// reported, for a value of another type (strict mode stops the game).
    pub fn var_decode_f(&mut self, target: Value) -> (r: u32)
        requires
            old(self).wf(),
            target is Float || old(self).can_report_wrong_type("error_variable_not_f32_type"@),
        ensures
            match target@ {
                ValueView::Float(x) => r == x && *final(self) == *old(self),
                _ => r == 0 && App::reported(
                    *old(self),
                    *final(self),
                    old(self).wrong_type_report(value_debug(target@), "error_variable_not_f32_type"@),
                ),
            },
    {
        match target {
            Value::Float(f) => f,
            _ => {
                let subject = target.debug_text();
                self.report_wrong_type(subject.as_str(), "error_variable_not_f32_type");
                0
            },
        }
    }

    /// A value as a `String`; empty, with the problem reported, for a value
    /// of another type (strict mode stops the game).
    pub fn var_decode_s(&mut self, target: Value) -> (r: String)
        requires
            old(self).wf(),
            target is String || old(self).can_report_wrong_type("error_variable_not_string_type"@),
        ensures
            match target@ {
                ValueView::String(x) => r@ == x && *final(self) == *old(self),
                _ => r@.len() == 0 && App::reported(
                    *old(self),
                    *final(self),
                    old(self).wrong_type_report(value_debug(target@), "error_variable_not_string_type"@),
                ),
            },
    {
        match target {
            Value::String(s) => s,
            _ => {
                let subject = target.debug_text();
                self.report_wrong_type(subject.as_str(), "error_variable_not_string_type");
                String::new()
            },
        }
    }
}

} // verus!
