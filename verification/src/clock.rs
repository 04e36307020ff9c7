//! The date and the time of day that the login page shows, written from
//! the machine's local clock in the formats of the game's texts.
use std::fmt::Write;
use vstd::prelude::*;
use crate::engine::App;
use crate::text::concat;

verus! {

/// Whether `chrono` can write the `strftime` format `fmt` for a local date
/// and time: false exactly where `fmt` holds a specifier that `chrono`'s
/// `StrftimeItems` turns into an error item.
pub uninterp spec fn chrono_format_ok(fmt: Seq<char>) -> bool;

/// `chrono::Local::now().format(fmt)`, written out: the local date and time
/// now in the `strftime` format `fmt`, or `None` where `chrono` cannot write
/// that format (there writing it to a string would stop the program).
/// Claimed: whether the text comes depends on `fmt` alone. A local date and
/// time carries a date, a time and an offset, so `DelayedFormat::write_to`
/// fails only on an error item of the format, never on the clock's value
/// (out-of-range years are written with a sign, offsets stay below a day).
/// What the text says depends on the clock, so nothing is claimed of it.
#[verifier::external_body]
fn local_time_text(fmt: &str) -> (r: Option<String>)
    ensures
        r is Some <==> chrono_format_ok(fmt@),
{
    let mut s = String::new();
    match write!(s, "{}", chrono::Local::now().format(fmt)) {
        Ok(()) => Some(s),
        Err(_) => None,
    }
}

/// The numeral that names a weekday in Chinese, from its English name (one
/// for a name that is no weekday).
pub open spec fn weekday_numeral(name: Seq<char>) -> Seq<char> {
    if name == "Tuesday"@ {
        "二"@
    } else if name == "Wednesday"@ {
        "三"@
    } else if name == "Thursday"@ {
        "四"@
    } else if name == "Friday"@ {
        "五"@
    } else if name == "Saturday"@ {
        "六"@
    } else if name == "Sunday"@ {
        "日"@
    } else {
        "一"@
    }
}

/// The numeral that names the weekday `name` (in English) in Chinese.
pub fn chinese_weekday(name: &str) -> (r: String)
    ensures
        r@ == weekday_numeral(name@),
{
    let n = name.to_owned();
    if n == "Tuesday".to_owned() {
        "二".to_owned()
    } else if n == "Wednesday".to_owned() {
        "三".to_owned()
    } else if n == "Thursday".to_owned() {
        "四".to_owned()
    } else if n == "Friday".to_owned() {
        "五".to_owned()
    } else if n == "Saturday".to_owned() {
        "六".to_owned()
    } else if n == "Sunday".to_owned() {
        "日".to_owned()
    } else {
        "一".to_owned()
    }
}

/// The date line in Chinese: the date as written, a space, the word for
/// the week, and the numeral of the weekday named `weekday` in English.
pub fn chinese_date_line(date: &str, week: &str, weekday: &str) -> (r: String)
    ensures
        r@ == date@ + " "@ + week@ + weekday_numeral(weekday@),
{
    let mut r = concat(date, " ");
    r.append(week);
    let numeral = chinese_weekday(weekday);
    r.append(numeral.as_str());
    r
}

impl App {
    /// The date line of the login page, now: in Chinese (language 0) the
    /// date in the format of the text `date`, a space, the text `week` and
    /// the numeral of today's weekday; in any other language the date in the
    /// format made of the texts `date` and `week` with a space between.
    /// `None` where the clock cannot write one of the formats (where the
    /// game would stop). The texts used must be at hand.
    pub fn date_text(&self) -> (r: Option<String>)
        requires
            self.wf(),
            self.has_text("date"@),
            self.has_text("week"@),
        ensures
            self.config.language == 0 ==> (r is Some <==> (chrono_format_ok(
                self.text_of("date"@) + " "@ + self.text_of("week"@),
            ) && chrono_format_ok(self.text_of("date"@)) && chrono_format_ok("%A"@))),
            self.config.language == 0 ==> (r matches Some(t) ==> exists|d: Seq<char>, w: Seq<char>|
                t@ == d + " "@ + self.text_of("week"@) + weekday_numeral(w)),
            self.config.language != 0 ==> (r is Some <==> chrono_format_ok(
                self.text_of("date"@) + " "@ + self.text_of("week"@),
            )),
    {
        let date = self.localized("date");
        let week = self.localized("week");
        let mut both = concat(date.as_str(), " ");
        both.append(week.as_str());
        let plain = local_time_text(both.as_str());
        if self.config.language == 0 {
            if plain.is_none() {
                return None;
            }
            let d = local_time_text(date.as_str());
            let w = local_time_text("%A");
            match (d, w) {
                (Some(d), Some(w)) => {
                    let t = chinese_date_line(d.as_str(), week.as_str(), w.as_str());
                    assert(t@ == d@ + " "@ + self.text_of("week"@) + weekday_numeral(w@));
                    Some(t)
                },
                _ => None,
            }
        } else {
            plain
        }
    }

    /// The time line of the login page, now: the time in the format of the
    /// text `time`; `None` where the clock cannot write that format (where
    /// the game would stop). The text must be at hand.
    pub fn time_text(&self) -> (r: Option<String>)
        requires
            self.wf(),
            self.has_text("time"@),
        ensures
            r is Some <==> chrono_format_ok(self.text_of("time"@)),
    {
        let format = self.localized("time");
        local_time_text(format.as_str())
    }
}

} // verus!
