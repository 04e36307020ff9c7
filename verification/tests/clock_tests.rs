use targeted_vector::clock::{chinese_date_line, chinese_weekday};
use targeted_vector::codec::parse_json;
use targeted_vector::engine::App;

const TEXTS: &str = r#"{"game_text":{
  "date": ["%Y年%m月%d日", "%Y-%m-%d"],
  "week": ["星期", "%A"],
  "time": ["%H:%M", "%H:%M"]
}}"#;

fn app(language: u8) -> App {
    let texts = parse_json(TEXTS).unwrap();
    let mut a = App::new(None, Some(&texts));
    a.config.language = language;
    a
}

#[test]
fn weekdays_in_chinese() {
    assert_eq!(chinese_weekday("Monday"), "一");
    assert_eq!(chinese_weekday("Wednesday"), "三");
    assert_eq!(chinese_weekday("Sunday"), "日");
    assert_eq!(chinese_weekday("Someday"), "一");
    assert_eq!(chinese_date_line("2024年05月01日", "星期", "Wednesday"), "2024年05月01日 星期三");
}

#[test]
fn the_date_and_time_lines() {
    let zh = app(0).date_text().unwrap();
    assert!(zh.contains(" 星期"));
    assert!(["一", "二", "三", "四", "五", "六", "日"].iter().any(|n| zh.ends_with(n)));
    let en = app(1).date_text().unwrap();
    assert_eq!(en.len(), 11 + en.split(' ').nth(1).unwrap().len());
    let t = app(1).time_text().unwrap();
    assert_eq!(t.len(), 5);
    assert_eq!(&t[2..3], ":");
}

#[test]
fn a_format_that_the_clock_cannot_write_gives_nothing() {
    let texts = parse_json(r#"{"game_text":{
      "date": ["%Y年%m月%d日", "%Y-%m-%d"],
      "week": ["星期", "%"],
      "time": ["%", "%H:%M:%S"]
    }}"#)
    .unwrap();
    let mut a = App::new(None, Some(&texts));
    assert_eq!(a.time_text(), None);
    a.config.language = 1;
    assert_eq!(a.date_text(), None);
    let t = a.time_text().unwrap();
    assert_eq!(t.len(), 8);
    assert_ne!(t, "%H:%M:%S");
    a.config.language = 0;
    let zh = a.date_text().unwrap();
    assert!(zh.contains(" 星期"));
}
