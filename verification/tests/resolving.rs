use appimage_installer::paths::file_name;
use appimage_installer::paths::join_path;
use appimage_installer::resolver::ask_user;
use appimage_installer::resolver::get_appname;
use appimage_installer::resolver::get_category;
use appimage_installer::resolver::get_description;
use appimage_installer::resolver::get_icon;
use appimage_installer::resolver::get_target;
use appimage_installer::resolver::resolve_response;
use appimage_installer::resolver::Question;
use appimage_installer::resolver::Reply;
use appimage_installer::resolver::Resolution;
use appimage_installer::text::trim;

#[test]
fn trim_removes_surrounding_whitespace() {
    assert_eq!(trim("  hello  "), "hello");
    assert_eq!(trim("\t y \n"), "y");
    assert_eq!(trim("   "), "");
    assert_eq!(trim(""), "");
    assert_eq!(trim("a b"), "a b");
    assert_eq!(trim("\u{3000}wide\u{3000}"), "wide");
    assert_eq!(trim(" héllo "), "héllo");
}

#[test]
fn file_name_takes_the_final_component() {
    assert_eq!(file_name("a/b/c.txt").as_deref(), Some("c.txt"));
    assert_eq!(file_name("/usr/bin/").as_deref(), Some("bin"));
    assert_eq!(file_name("tmp/foo.txt/.").as_deref(), Some("foo.txt"));
    assert_eq!(file_name("App.AppImage").as_deref(), Some("App.AppImage"));
    assert_eq!(file_name("./App.AppImage").as_deref(), Some("App.AppImage"));
    assert_eq!(file_name("foo.txt/.."), None);
    assert_eq!(file_name("/"), None);
    assert_eq!(file_name(""), None);
    assert_eq!(file_name("."), None);
    assert_eq!(file_name(".."), None);
}

#[test]
fn join_path_inserts_one_separator() {
    assert_eq!(join_path("", "Apps"), "Apps");
    assert_eq!(join_path("/home/u", "Apps"), "/home/u/Apps");
    assert_eq!(join_path("/home/u/", "Apps"), "/home/u/Apps");
}

#[test]
fn flags_are_taken_verbatim() {
    match get_appname(Some(String::from("FreeCAD"))) {
        Resolution::Given(v) => assert_eq!(v, "FreeCAD"),
        _ => panic!("expected the flag value"),
    }
    match get_target(Some(String::from("/opt/apps")), "/home/u") {
        Resolution::Given(v) => assert_eq!(v, "/opt/apps"),
        _ => panic!("expected the flag value"),
    }
}

#[test]
fn missing_name_asks_a_mandatory_question() {
    match get_appname(None) {
        Resolution::Ask(q) => {
            assert_eq!(q.text, "Enter the application name (ex: FreeCAD):");
            assert!(q.mandatory);
            assert!(q.default.is_none());
        }
        _ => panic!("expected a question"),
    }
}

#[test]
fn optional_fields_ask_optional_questions() {
    match get_icon(None) {
        Resolution::Ask(q) => {
            assert_eq!(q.text, "Enter the icon file path (ex: ./freecad.svg):");
            assert!(!q.mandatory);
            assert!(q.default.is_none());
        }
        _ => panic!("expected a question"),
    }
    match get_description(None) {
        Resolution::Ask(q) => {
            assert_eq!(q.text, "Enter the application description:");
            assert!(!q.mandatory);
            assert!(q.default.is_none());
        }
        _ => panic!("expected a question"),
    }
    match get_category(None) {
        Resolution::Ask(q) => {
            assert_eq!(q.text, "Enter the application category (ex: Graphics):");
            assert!(!q.mandatory);
            assert!(q.default.is_none());
        }
        _ => panic!("expected a question"),
    }
}

#[test]
fn missing_target_defaults_to_apps_under_home() {
    match get_target(None, "/home/u") {
        Resolution::Ask(q) => {
            assert_eq!(
                q.text,
                "Enter the application target directory (default: $USER/Apps):"
            );
            assert!(!q.mandatory);
            assert_eq!(q.default.as_deref(), Some("/home/u/Apps"));
        }
        _ => panic!("expected a question"),
    }
    match get_target(None, "") {
        Resolution::Ask(q) => assert_eq!(q.default.as_deref(), Some("Apps")),
        _ => panic!("expected a question"),
    }
}

#[test]
fn blank_mandatory_reply_is_asked_again() {
    assert!(matches!(resolve_response("   ", true, &None), Reply::Again));
    match resolve_response(" FreeCAD ", true, &None) {
        Reply::Value(v) => assert_eq!(v, "FreeCAD"),
        _ => panic!("expected a value"),
    }
}

#[test]
fn blank_optional_reply_takes_the_default() {
    match resolve_response("  ", false, &Some(String::from("/home/u/Apps"))) {
        Reply::Value(v) => assert_eq!(v, "/home/u/Apps"),
        _ => panic!("expected the default"),
    }
    match resolve_response("", false, &None) {
        Reply::Value(v) => assert_eq!(v, ""),
        _ => panic!("expected the empty string"),
    }
    match resolve_response(" /opt ", false, &Some(String::from("/home/u/Apps"))) {
        Reply::Value(v) => assert_eq!(v, "/opt"),
        _ => panic!("expected the typed value"),
    }
}

#[test]
fn ask_user_consumes_blank_lines_until_an_answer() {
    let q = Question {
        text: String::from("Enter the application name (ex: FreeCAD):"),
        mandatory: true,
        default: None,
    };
    let lines = vec![String::from(""), String::from("   "), String::from(" Krita ")];
    assert_eq!(ask_user(&q, &lines).as_deref(), Some("Krita"));
    let blank = vec![String::from(""), String::from(" ")];
    assert_eq!(ask_user(&q, &blank), None);
}

#[test]
fn ask_user_applies_the_default_on_a_blank_line() {
    let q = Question {
        text: String::from("Enter the application target directory (default: $USER/Apps):"),
        mandatory: false,
        default: Some(String::from("/home/u/Apps")),
    };
    let lines = vec![String::from("")];
    assert_eq!(ask_user(&q, &lines).as_deref(), Some("/home/u/Apps"));
}
