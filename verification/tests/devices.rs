use quest_scrcpy::devices::{
    areas_computable, choose_display, find_serial, has_display, has_online, lower_names_quest, model_is_quest,
    order_displays, preferred, Device, DisplayInfo,
};

fn device(serial: &str, state: &str, usb: bool) -> Device {
    Device { serial: serial.into(), state: state.into(), usb, model: "Quest_3S".into() }
}

fn display(id: u32, width: u32, height: u32) -> DisplayInfo {
    DisplayInfo { id, width, height }
}

#[test]
fn only_listed_devices_can_be_used() {
    assert!(device("a", "device", true).online());
    assert!(!device("a", "unauthorized", true).online());
    let list = vec![device("a", "offline", true), device("b", "device", false)];
    assert!(!has_online(&list, &"a".to_string()));
    assert!(has_online(&list, &"b".to_string()));
    assert!(!has_online(&list, &"c".to_string()));
}

#[test]
fn usb_goes_before_wireless() {
    let list = vec![
        device("off", "offline", true),
        device("wifi", "device", false),
        device("usb", "device", true),
        device("usb2", "device", true),
    ];
    assert_eq!(preferred(&list), Some(2));
}

#[test]
fn first_wireless_without_usb() {
    let list = vec![
        device("off", "offline", true),
        device("wifi", "device", false),
        device("wifi2", "device", false),
    ];
    assert_eq!(preferred(&list), Some(1));
    assert_eq!(preferred(&vec![device("off", "offline", true)]), None);
    assert_eq!(preferred(&Vec::new()), None);
}

#[test]
fn first_of_a_serial_is_found() {
    let list = vec![device("x", "offline", true), device("y", "device", true),
        device("x", "device", true)];
    assert_eq!(find_serial(&list, &"x".to_string()), Some(0));
    assert_eq!(find_serial(&list, &"y".to_string()), Some(1));
    assert_eq!(find_serial(&list, &"z".to_string()), None);
}

#[test]
fn quest_models_in_any_case() {
    for m in ["Quest_3S", "QUEST 2", "Oculus Go", "eureka", "META headset"] {
        assert!(model_is_quest(&m.to_string()));
    }
    for m in ["Pixel 8", "", "ques t"] {
        assert!(!model_is_quest(&m.to_string()));
    }
}

#[test]
fn lower_case_names() {
    assert!(lower_names_quest("quest 3"));
    assert!(lower_names_quest("my oculus"));
    assert!(!lower_names_quest("QUEST"));
    assert!(!lower_names_quest("pixel"));
}

#[test]
fn displays_largest_first_and_stable() {
    let all = vec![
        display(4, 1, 4000),
        display(1, 100, 100),
        display(2, 1920, 1080),
        display(3, 50, 200),
        display(5, 3000, 1),
        display(6, 2, 2),
        display(0, 200, 50),
    ];
    let list = order_displays(&all);
    let ids: Vec<u32> = list.iter().map(|d| d.id).collect();
    assert_eq!(ids, vec![2, 1, 3, 0, 6]);
}

#[test]
fn display_choice_falls_back() {
    let list = vec![display(7, 10, 10), display(0, 5, 5), display(3, 4, 4)];
    assert_eq!(choose_display(&list, 3), 3);
    assert_eq!(choose_display(&list, 9), 0);
    assert_eq!(choose_display(&list[..1].to_vec(), 9), 7);
    assert_eq!(choose_display(&Vec::new(), 9), 9);
    assert!(has_display(&list, 7));
    assert!(!has_display(&list, 8));
}

#[test]
fn areas_that_can_be_compared() {
    let huge = display(1, u32::MAX, u32::MAX);
    assert!(areas_computable(&vec![huge, display(2, 1, 1)]));
    assert!(!areas_computable(&vec![huge, display(2, 2, 2)]));
    assert!(areas_computable(&vec![display(1, 65535, 65537), display(2, 2, 2)]));
    assert!(!areas_computable(&vec![display(1, 65536, 65536), display(2, 2, 2)]));
}
