use yaak_app::deep_link::{
    begin_link, handle_deep_link, import_file_name, link_failure, LinkAction, LinkInput, LinkState,
};
use yaak_app::toast::ToastColor;

fn begin(url: &str) -> (LinkState, Vec<LinkAction>) {
    handle_deep_link(url).unwrap()
}

fn question(actions: &Vec<LinkAction>) -> (String, String, String) {
    assert_eq!(actions.len(), 2);
    assert!(matches!(actions[0], LinkAction::Focus));
    match &actions[1] {
        LinkAction::Ask { message, agree, refuse } => {
            (message.clone(), agree.clone(), refuse.clone())
        }
        other => panic!("{other:?}"),
    }
}

fn note(actions: &Vec<LinkAction>) -> (String, ToastColor, Option<i32>) {
    match actions.last().unwrap() {
        LinkAction::Show(t) => (t.message.clone(), t.color, t.timeout),
        other => panic!("{other:?}"),
    }
}

#[test]
fn plugin_is_asked_about_and_installed() {
    let (s, a) = begin("yaak://install-plugin?name=%40yaak%2Ffaker&version=1.2.3");
    assert_eq!(
        question(&a),
        (
            "Install plugin @yaak/faker Some(\"1.2.3\")?".to_string(),
            "Install".to_string(),
            "Cancel".to_string()
        )
    );
    let (s, a) = s.step(LinkInput::Answered { agreed: true });
    assert_eq!(a.len(), 1);
    match &a[0] {
        LinkAction::Install { name, version } => {
            assert_eq!(name, "@yaak/faker");
            assert_eq!(version.as_deref(), Some("1.2.3"));
        }
        other => panic!("{other:?}"),
    }
    let (s, a) = s.step(LinkInput::Installed { version: "1.2.4".to_string() });
    assert_eq!(
        note(&a),
        ("Installed @yaak/faker@1.2.4".to_string(), ToastColor::Success, Some(5000))
    );
    let (s, a) = s.step(LinkInput::Noted);
    assert_eq!(a.len(), 0);
    assert!(matches!(s, LinkState::Done));
}

#[test]
fn version_may_be_left_open() {
    let (s, a) = begin("yaak://install-plugin?name=faker");
    assert_eq!(question(&a).0, "Install plugin faker None?");
    let (_, a) = s.step(LinkInput::Answered { agreed: true });
    assert!(matches!(&a[0], LinkAction::Install { version: None, .. }));
}

#[test]
fn versions_are_shown_escaped() {
    let (_, a) = begin("yaak://install-plugin?name=faker&version=%22%0A");
    assert_eq!(question(&a).0, "Install plugin faker Some(\"\\\"\\n\")?");
}

#[test]
fn plugin_without_a_name_is_no_link() {
    assert!(handle_deep_link("yaak://install-plugin?version=1").is_none());
    assert!(handle_deep_link("yaak://install-plugin").is_none());
}

#[test]
fn refusal_ends_the_link() {
    for url in ["yaak://install-plugin?name=p", "yaak://import-data?url=http://x"] {
        let (s, _) = begin(url);
        let (s, a) = s.step(LinkInput::Answered { agreed: false });
        assert_eq!(a.len(), 0);
        let (s, a) = s.step(LinkInput::Answered { agreed: true });
        assert_eq!(a.len(), 0);
        let (s, a) = s.step(LinkInput::Downloaded { path: "p".to_string() });
        assert_eq!(a.len(), 0);
        assert!(matches!(s, LinkState::Done));
    }
}

#[test]
fn data_is_fetched_once_the_user_agrees() {
    let (s, a) = begin("yaak://import-data?name=My+API&url=https%3A%2F%2Fx.dev%2Fa&path=/ignored");
    assert_eq!(
        question(&a),
        (
            "Import My API from https://x.dev/a?".to_string(),
            "Import".to_string(),
            "Cancel".to_string()
        )
    );
    let (s, a) = s.step(LinkInput::Answered { agreed: true });
    assert!(matches!(&a[0], LinkAction::Download { url } if url == "https://x.dev/a"));
    let (s, a) = s.step(LinkInput::Downloaded { path: "/tmp/import-1".to_string() });
    assert!(matches!(&a[0], LinkAction::Import { path } if path == "/tmp/import-1"));
    let (s, a) = s.step(LinkInput::Imported { workspaces: 12 });
    assert_eq!(
        note(&a),
        ("Imported data for 12 workspaces".to_string(), ToastColor::Success, Some(5000))
    );
    assert!(matches!(s.step(LinkInput::Noted).0, LinkState::Done));
}

#[test]
fn failures_end_the_link() {
    let asked = || begin("yaak://install-plugin?name=p").0;
    let installing = || asked().step(LinkInput::Answered { agreed: true }).0;
    let noting = installing().step(LinkInput::Installed { version: "1".to_string() }).0;
    let downloading =
        begin("yaak://import-data?url=u").0.step(LinkInput::Answered { agreed: true }).0;
    let importing = begin("yaak://import-data?path=p").0;
    for s in [installing(), noting, downloading, importing] {
        let (s, a) = s.step(LinkInput::Failed { error: "no network".to_string() });
        assert_eq!(a.len(), 1);
        assert!(matches!(&a[0], LinkAction::HandOn { error } if error == "no network"));
        let (s, a) = s.step(LinkInput::Installed { version: "1".to_string() });
        assert_eq!(a.len(), 0);
        assert!(matches!(s, LinkState::Done));
    }
}

#[test]
fn data_without_a_name_is_data() {
    let (_, a) = begin("yaak://import-data?url=u");
    assert_eq!(question(&a).0, "Import data from u?");
}

#[test]
fn file_is_imported_at_once() {
    let (s, a) = begin("yaak://import-data?path=%2Fhome%2Fa%20b.json");
    assert_eq!(a.len(), 2);
    assert!(matches!(a[0], LinkAction::Focus));
    assert!(matches!(&a[1], LinkAction::Import { path } if path == "/home/a b.json"));
    let (_, a) = s.step(LinkInput::Imported { workspaces: 0 });
    assert_eq!(note(&a).0, "Imported data for 0 workspaces");
}

#[test]
fn import_without_data_fails() {
    let (s, a) = begin("yaak://import-data?name=x");
    assert!(matches!(a[0], LinkAction::Focus));
    assert_eq!(note(&a), ("Failed to import data".to_string(), ToastColor::Danger, None));
    assert!(matches!(s.step(LinkInput::Noted).0, LinkState::Done));
}

#[test]
fn last_value_of_a_name_counts() {
    let (_, a) = begin("yaak://install-plugin?name=a&name=b");
    assert_eq!(question(&a).0, "Install plugin b None?");
}

#[test]
fn other_commands_are_not_known() {
    for (url, expected) in [
        ("yaak://open?name=x", "open"),
        ("yaak://Install-Plugin?name=x", "Install-Plugin"),
        ("mailto:a@b.c", ""),
        ("http://127.0.0.1/?name=x", ""),
        ("no link", ""),
    ] {
        let (s, a) = begin(url);
        assert_eq!(a.len(), 1);
        assert!(matches!(&a[0], LinkAction::Unknown { command } if command == expected));
        assert!(matches!(s, LinkState::Done));
    }
}

#[test]
fn commands_can_be_begun_by_their_parts() {
    let query = vec![("name".to_string(), "p".to_string())];
    let (s, a) = begin_link("install-plugin", &query);
    assert_eq!(question(&a).0, "Install plugin p None?");
    assert!(matches!(s, LinkState::AskedToInstall { .. }));
}

#[test]
fn input_that_is_not_waited_for_changes_nothing() {
    let (s, _) = begin("yaak://install-plugin?name=p");
    let (s, a) = s.step(LinkInput::Installed { version: "1".to_string() });
    assert_eq!(a.len(), 0);
    let (s, a) = s.step(LinkInput::Imported { workspaces: 1 });
    assert_eq!(a.len(), 0);
    assert!(matches!(s, LinkState::AskedToInstall { .. }));
}

#[test]
fn failures_are_shown() {
    let t = link_failure("no network");
    assert_eq!(t.message, "Error handling deep link: no network");
    assert_eq!(t.color, ToastColor::Danger);
    assert_eq!(t.timeout, None);
}

#[test]
fn fetched_data_goes_into_a_file_of_its_own() {
    assert_eq!(import_file_name("abc"), "import-abc");
}
