use chatapp::action::Action;

#[test]
fn each_tag_decodes_to_its_action() {
    assert_eq!(Action::decode("open"), Action::Open);
    assert_eq!(Action::decode("hide"), Action::Hide);
    assert_eq!(Action::decode("save"), Action::Save);
    assert_eq!(Action::decode("saveas"), Action::SaveAs);
    assert_eq!(Action::decode("process"), Action::Process);
    assert_eq!(Action::decode("checkme"), Action::CheckMe);
}

#[test]
fn a_tag_outside_the_table_is_unknown() {
    assert_eq!(Action::decode("frobnicate"), Action::Unknown);
    assert_eq!(Action::decode(""), Action::Unknown);
    assert_eq!(Action::decode("quit"), Action::Unknown);
}

#[test]
fn tags_are_matched_exactly() {
    assert_eq!(Action::decode("Open"), Action::Unknown);
    assert_eq!(Action::decode("open "), Action::Unknown);
    assert_eq!(Action::decode(" open"), Action::Unknown);
    assert_eq!(Action::decode("save_as"), Action::Unknown);
    assert_eq!(Action::decode("saveas\u{0}"), Action::Unknown);
    assert_eq!(Action::decode("ope"), Action::Unknown);
    assert_eq!(Action::decode("opén"), Action::Unknown);
}

#[test]
fn every_known_action_has_the_tag_that_decodes_to_it() {
    let known = [
        Action::Open,
        Action::Hide,
        Action::Save,
        Action::SaveAs,
        Action::Process,
        Action::CheckMe,
    ];
    for action in known {
        let tag = action.identifier().unwrap();
        assert_eq!(Action::decode(tag), action);
    }
    assert_eq!(Action::Open.identifier(), Some("open"));
    assert_eq!(Action::SaveAs.identifier(), Some("saveas"));
}

#[test]
fn unknown_has_no_tag() {
    assert_eq!(Action::Unknown.identifier(), None);
}
