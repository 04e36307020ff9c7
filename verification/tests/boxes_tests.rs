use targeted_vector::boxes::{boxes_coming_up, json_box_names};
use targeted_vector::codec::parse_json;
use targeted_vector::engine::App;
use targeted_vector::resource::SeverityLevel;
use targeted_vector::json::JsonNumber;
use targeted_vector::records::OperationMessageBox;

fn num(m: u64) -> JsonNumber {
    JsonNumber { positive: true, mantissa: m, exponent: 0 }
}

fn preloaded(enable: bool) -> OperationMessageBox {
    OperationMessageBox {
        box_size: [num(400), num(100)],
        box_image_path: "Resources/assets/images/tip.png".to_string(),
        box_title: vec!["提示".to_string(), "Tip".to_string()],
        box_content: vec!["小心".to_string(), "Careful".to_string()],
        box_title_color: [255, 255, 255, 255],
        box_content_color: [200, 200, 200, 255],
        box_existing_time: num(0),
        box_appear_time: num(3),
        box_enable: enable,
    }
}

#[test]
fn due_and_enabled_boxes_come_up_once() {
    let mut boxes = vec![preloaded(true), preloaded(true), preloaded(false), preloaded(true)];
    let shown = boxes_coming_up(&mut boxes, &vec![true, false, true]);
    assert_eq!(shown, vec![0]);
    assert_eq!(boxes.iter().map(|b| b.box_enable).collect::<Vec<_>>(), vec![false, true, false, true]);
    let shown = boxes_coming_up(&mut boxes, &vec![true, true, true, true]);
    assert_eq!(shown, vec![1, 3]);
    assert!(boxes.iter().all(|b| !b.box_enable));
    assert!(boxes_coming_up(&mut boxes, &vec![true, true, true, true]).is_empty());
    assert_eq!(boxes[3].box_title[1], "Tip");
}

#[test]
fn preloaded_boxes_are_named_by_position() {
    let (name, title, content) = json_box_names(12);
    assert_eq!(name, "Json_MessageBox12");
    assert_eq!(title, "Json_MessageBox12_Title");
    assert_eq!(content, "Json_MessageBox12_Content");
    assert_eq!(json_box_names(0).0, "Json_MessageBox0");
}


fn app() -> App {
    let texts = parse_json(r#"{"game_text":{
      "error_message_box_already_exists": [" already exists", "已存在"],
      "error_message_box_already_exists_annotation": ["Use another name.", "换个名字。"]
    }}"#)
    .unwrap();
    App::new(None, Some(&texts))
}

#[test]
fn a_message_box_gets_its_parts_moments_and_close_button() {
    let mut a = app();
    a.timer.now_time = 3;
    a.timer.total_time = 9;
    let size = [400.0f32.to_bits(), 100.0f32.to_bits()];
    let speeds = [30.0f32.to_bits(), 10.0f32.to_bits()];
    assert!(a.add_message_box(["Tip", "Tip_Title", "Tip_Content", "Tip_Image"], size, false, 5.0f32.to_bits(), speeds));
    let b = &a.resource_message_box[0];
    assert_eq!(b.discern_type, "MessageBox");
    assert_eq!(b.name, "Tip");
    assert_eq!(b.box_title_name, "MessageBox_Tip_Title");
    assert_eq!(b.box_content_name, "MessageBox_Tip_Content");
    assert_eq!(b.box_image_name, "MessageBox_Tip_Image");
    assert_eq!(b.box_size, size);
    assert!(b.box_exist && !b.box_keep_existing);
    assert_eq!(f32::from_bits(b.box_speed), 30.0);
    assert_eq!(f32::from_bits(b.box_restore_speed), 10.0);
    assert_eq!(f32::from_bits(b.box_memory_offset), 0.0);
    let moments: Vec<(&str, [u32; 2])> = a.timer.split_time.iter().map(|t| (t.name.as_str(), t.time)).collect();
    assert_eq!(moments, vec![("MessageBox_Tip", [3, 9]), ("MessageBox_Tip_animation", [3, 9])]);
    let sw = &a.resource_switch[0];
    assert_eq!(sw.name, "MessageBox_Tip_Close");
    assert_eq!(sw.appearance.len(), 4);
    assert_eq!(sw.appearance[0].color, [255, 255, 255, 0]);
    assert_eq!(sw.appearance[3].color, [180, 180, 180, 200]);
    assert!(sw.appearance.iter().all(|d| d.texture == "Close_Message_Box"));
    assert!(a.problem_list.is_empty());
}

#[test]
fn a_box_that_stays_takes_no_moment_of_appearing() {
    let mut a = app();
    assert!(a.add_message_box(["Note", "T", "C", "I"], [0, 0], true, 0, [0, 0]));
    let names: Vec<&str> = a.timer.split_time.iter().map(|t| t.name.as_str()).collect();
    assert_eq!(names, vec!["MessageBox_Note_animation"]);
}

#[test]
fn a_taken_message_box_name_is_reported() {
    let mut a = app();
    assert!(a.add_message_box(["Tip", "T", "C", "I"], [0, 0], true, 0, [0, 0]));
    assert!(!a.add_message_box(["Tip", "T2", "C2", "I2"], [0, 0], false, 0, [0, 0]));
    assert_eq!(a.resource_message_box.len(), 1);
    assert_eq!(a.resource_switch.len(), 1);
    assert_eq!(a.problem_list.len(), 1);
    assert_eq!(a.problem_list[0].problem, "Tip already exists");
    assert_eq!(a.problem_list[0].annotation, "Use another name.");
    assert_eq!(a.problem_list[0].severity_level, SeverityLevel::SevereWarning);
}
