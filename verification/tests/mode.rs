use image_wizard::mode::{
    interpret, parse_menu_choice, settle, Decision, Filter, Notice, Outcome, Request, Settlement,
    WizardMode,
};

fn chosen() -> Option<String> {
    Some(String::from("/tmp/cat.png"))
}

#[test]
fn menu_two_leads_to_resize() {
    let decision = interpret(WizardMode::SelectMode, &None, "2");
    assert_eq!(
        decision,
        Decision { next: WizardMode::ReSize, request: None, notice: None }
    );
}

#[test]
fn menu_ignores_numbers_out_of_range_and_words() {
    for text in ["99", "abc"] {
        let decision = interpret(WizardMode::SelectMode, &None, text);
        assert_eq!(
            decision,
            Decision { next: WizardMode::SelectMode, request: None, notice: None },
            "on {:?}",
            text
        );
    }
}

#[test]
fn menu_names_each_of_the_four_modes() {
    assert_eq!(parse_menu_choice("1"), Some(WizardMode::ImagePicker));
    assert_eq!(parse_menu_choice("2"), Some(WizardMode::ReSize));
    assert_eq!(parse_menu_choice("3"), Some(WizardMode::Grayscale));
    assert_eq!(parse_menu_choice("4"), Some(WizardMode::Blur));
}

#[test]
fn menu_allows_white_space_around_the_number() {
    assert_eq!(parse_menu_choice(" 3 "), Some(WizardMode::Grayscale));
    assert_eq!(parse_menu_choice("\t1\n"), Some(WizardMode::ImagePicker));
    assert_eq!(parse_menu_choice("\u{3000}4\u{A0}"), Some(WizardMode::Blur));
    assert_eq!(parse_menu_choice("+2"), Some(WizardMode::ReSize));
    assert_eq!(parse_menu_choice("002"), Some(WizardMode::ReSize));
    assert_eq!(parse_menu_choice("  +004  "), Some(WizardMode::Blur));
}

#[test]
fn menu_names_nothing_for_other_text() {
    for text in [
        "", " ", "0", "5", "99", "255", "256", "4294967297", "abc", "2a", "2 2", "1.0", "-1",
        "two", "+", "１", "3x", "99999999999999999999",
    ] {
        assert_eq!(parse_menu_choice(text), None, "on {:?}", text);
    }
}

#[test]
fn menu_agrees_with_trimming_and_parsing_a_small_number() {
    let samples = [
        "1", "2", "3", "4", " 1", "2 ", "\n3\r\n", "+4", "04", "0", "5", "256", "257", "258", "259",
        "260", "", "   ", "x", "4 4", "１",
    ];
    for text in samples {
        let expected = match text.trim().parse::<u8>().unwrap_or(0) {
            1 => Some(WizardMode::ImagePicker),
            2 => Some(WizardMode::ReSize),
            3 => Some(WizardMode::Grayscale),
            4 => Some(WizardMode::Blur),
            _ => None,
        };
        assert_eq!(parse_menu_choice(text), expected, "on {:?}", text);
    }
}

#[test]
fn menu_needs_no_image() {
    for target in [None, chosen()] {
        let decision = interpret(WizardMode::SelectMode, &target, "4");
        assert_eq!(decision, Decision { next: WizardMode::Blur, request: None, notice: None });
    }
}

#[test]
fn picker_asks_to_validate_the_path_as_typed() {
    let decision = interpret(WizardMode::ImagePicker, &None, " /home/me/my cat.png");
    assert_eq!(
        decision,
        Decision {
            next: WizardMode::ImagePicker,
            request: Some(Request::Validate { path: String::from(" /home/me/my cat.png") }),
            notice: None,
        }
    );
}

#[test]
fn picker_replaces_an_earlier_choice_only_through_validation() {
    let decision = interpret(WizardMode::ImagePicker, &chosen(), "/tmp/dog.jpg");
    assert_eq!(
        decision.request,
        Some(Request::Validate { path: String::from("/tmp/dog.jpg") })
    );
    assert_eq!(decision.next, WizardMode::ImagePicker);
}

#[test]
fn resize_with_dimensions_asks_for_a_resize() {
    let decision = interpret(WizardMode::ReSize, &chosen(), "600x777");
    assert_eq!(
        decision,
        Decision {
            next: WizardMode::ReSize,
            request: Some(Request::Resize {
                path: String::from("/tmp/cat.png"),
                width: 600,
                height: 777,
                filter: Filter::Triangle,
            }),
            notice: None,
        }
    );
    let request = decision.request.unwrap();
    let settlement = settle(decision.next, &request, Outcome::Done);
    assert_eq!(
        settlement,
        Settlement { next: WizardMode::SelectMode, adopt_path: false, notice: None }
    );
}

#[test]
fn resize_without_an_x_is_rejected_and_stays() {
    let decision = interpret(WizardMode::ReSize, &chosen(), "600");
    assert_eq!(
        decision,
        Decision {
            next: WizardMode::ReSize,
            request: None,
            notice: Some(Notice::BadDimensions),
        }
    );
}

#[test]
fn resize_rejects_other_malformed_sizes() {
    for text in ["", "x", "600x", "x777", "600x777x5", "600 x 777", "axb", "1x4294967296"] {
        let decision = interpret(WizardMode::ReSize, &chosen(), text);
        assert_eq!(decision.next, WizardMode::ReSize, "on {:?}", text);
        assert_eq!(decision.request, None, "on {:?}", text);
        assert_eq!(decision.notice, Some(Notice::BadDimensions), "on {:?}", text);
    }
}

#[test]
fn operations_without_an_image_return_to_the_menu() {
    for mode in [WizardMode::ReSize, WizardMode::Grayscale, WizardMode::Blur] {
        for text in ["600x777", "", "2.5", "600"] {
            let decision = interpret(mode, &None, text);
            assert_eq!(
                decision,
                Decision {
                    next: WizardMode::SelectMode,
                    request: None,
                    notice: Some(Notice::NoImageChosen),
                },
                "in {:?} on {:?}",
                mode,
                text
            );
        }
    }
}

#[test]
fn grayscale_ignores_the_text() {
    for text in ["", "anything", "600x777"] {
        let decision = interpret(WizardMode::Grayscale, &chosen(), text);
        assert_eq!(
            decision,
            Decision {
                next: WizardMode::Grayscale,
                request: Some(Request::Grayscale { path: String::from("/tmp/cat.png") }),
                notice: None,
            }
        );
    }
}

#[test]
fn blur_hands_the_strength_on_as_typed() {
    let decision = interpret(WizardMode::Blur, &chosen(), "1432.12");
    assert_eq!(
        decision,
        Decision {
            next: WizardMode::Blur,
            request: Some(Request::Blur {
                path: String::from("/tmp/cat.png"),
                strength: String::from("1432.12"),
            }),
            notice: None,
        }
    );
    let decision = interpret(WizardMode::Blur, &chosen(), "much");
    assert_eq!(
        decision.request,
        Some(Request::Blur { path: String::from("/tmp/cat.png"), strength: String::from("much") })
    );
}

fn requests() -> Vec<Request> {
    vec![
        Request::Validate { path: String::from("a.png") },
        Request::Resize { path: String::from("a.png"), width: 1, height: 2, filter: Filter::Triangle },
        Request::Grayscale { path: String::from("a.png") },
        Request::Blur { path: String::from("a.png"), strength: String::from("1.5") },
    ]
}

#[test]
fn done_work_leads_to_the_menu() {
    for mode in [WizardMode::ImagePicker, WizardMode::ReSize, WizardMode::Grayscale, WizardMode::Blur] {
        for request in requests() {
            let settlement = settle(mode, &request, Outcome::Done);
            assert_eq!(settlement.next, WizardMode::SelectMode);
            assert_eq!(settlement.notice, None);
            assert_eq!(settlement.adopt_path, matches!(request, Request::Validate { .. }));
        }
    }
}

#[test]
fn a_bad_strength_keeps_the_mode() {
    let request = Request::Blur { path: String::from("a.png"), strength: String::from("much") };
    assert_eq!(
        settle(WizardMode::Blur, &request, Outcome::BadStrength),
        Settlement { next: WizardMode::Blur, adopt_path: false, notice: Some(Notice::BadStrength) }
    );
}

#[test]
fn a_path_that_does_not_open_keeps_the_picker() {
    let request = Request::Validate { path: String::from("missing.png") };
    assert_eq!(
        settle(WizardMode::ImagePicker, &request, Outcome::OpenFailed),
        Settlement {
            next: WizardMode::ImagePicker,
            adopt_path: false,
            notice: Some(Notice::OpenFailed),
        }
    );
}

#[test]
fn a_failed_operation_leads_to_the_menu_with_a_notice() {
    let operations = [
        (WizardMode::ReSize, Request::Resize { path: String::from("a.png"), width: 1, height: 2, filter: Filter::Triangle }),
        (WizardMode::Grayscale, Request::Grayscale { path: String::from("a.png") }),
        (WizardMode::Blur, Request::Blur { path: String::from("a.png"), strength: String::from("1") }),
    ];
    for (mode, request) in operations {
        assert_eq!(
            settle(mode, &request, Outcome::OpenFailed),
            Settlement {
                next: WizardMode::SelectMode,
                adopt_path: false,
                notice: Some(Notice::OpenFailed),
            }
        );
        assert_eq!(
            settle(mode, &request, Outcome::SaveFailed),
            Settlement {
                next: WizardMode::SelectMode,
                adopt_path: false,
                notice: Some(Notice::SaveFailed),
            }
        );
    }
}

#[test]
fn every_request_names_its_file() {
    for request in requests() {
        assert_eq!(request.path(), "a.png");
    }
    let request = Request::Blur { path: String::from("b.png"), strength: String::from("a.png") };
    assert_eq!(request.path(), "b.png");
}

#[test]
fn decisions_are_built_from_their_parts() {
    assert_eq!(
        Decision::go(WizardMode::Blur),
        Decision { next: WizardMode::Blur, request: None, notice: None }
    );
    let request = Request::Grayscale { path: String::from("a.png") };
    assert_eq!(
        Decision::ask(WizardMode::Grayscale, request.clone()),
        Decision { next: WizardMode::Grayscale, request: Some(request), notice: None }
    );
    assert_eq!(
        Decision::refuse(WizardMode::ReSize, Notice::BadDimensions),
        Decision {
            next: WizardMode::ReSize,
            request: None,
            notice: Some(Notice::BadDimensions),
        }
    );
}

#[test]
fn resize_always_asks_for_the_triangle_filter() {
    for text in ["1x1", "600x777", "+5x0007"] {
        match interpret(WizardMode::ReSize, &chosen(), text).request {
            Some(Request::Resize { filter, .. }) => assert_eq!(filter, Filter::Triangle),
            other => panic!("expected a resize, got {:?}", other),
        }
    }
}
