use eventmail::config::get_settings;
use eventmail::config::list_profiles;
use eventmail::config::resolve;
use eventmail::config::select;
use eventmail::config::Args;
use eventmail::config::ResolutionError;
use eventmail::config::Settings;
use eventmail::profile::Profile;
use eventmail::store::ProfileStore;

fn text(s: &str) -> Option<String> {
    Some(s.to_string())
}

fn args(profile: Option<&str>, list: bool) -> Args {
    Args { profile: profile.map(str::to_string), dry_run: false, config: None, list }
}

fn full(tag: &str) -> Profile {
    Profile {
        date_spec: text(&format!("{tag}-date_spec")),
        event_file: text(&format!("{tag}-event_file")),
        format: text(&format!("{tag}-format")),
        server: text(&format!("{tag}-server")),
        port: Some(if tag == "child" { 25 } else { 587 }),
        user: text(&format!("{tag}-user")),
        password: text(&format!("{tag}-password")),
        from: text(&format!("{tag}-from")),
        to: Some(vec![format!("{tag}-to")]),
        subject: text(&format!("{tag}-subject")),
        body: text(&format!("{tag}-body")),
        doc: text(&format!("{tag}-doc")),
        inherit: text(&format!("{tag}-inherit")),
    }
}

#[test]
fn new_profile_has_no_field_set() {
    let p = Profile::new();
    assert_eq!(p, Profile::default());
    assert_eq!(p.date_spec, None);
    assert_eq!(p.event_file, None);
    assert_eq!(p.format, None);
    assert_eq!(p.server, None);
    assert_eq!(p.port, None);
    assert_eq!(p.user, None);
    assert_eq!(p.password, None);
    assert_eq!(p.from, None);
    assert_eq!(p.to, None);
    assert_eq!(p.subject, None);
    assert_eq!(p.body, None);
    assert_eq!(p.doc, None);
    assert_eq!(p.inherit, None);
}

#[test]
fn inherit_from_keeps_every_field_the_child_has_set() {
    let merged = full("child").inherit_from(full("parent"));
    let expected = Profile { doc: None, inherit: text("parent-inherit"), ..full("child") };
    assert_eq!(merged, expected);
    assert_eq!(merged.port, Some(25));
}

#[test]
fn inherit_from_fills_every_unset_field_from_the_parent() {
    let merged = Profile::new().inherit_from(full("parent"));
    let expected = Profile { doc: None, ..full("parent") };
    assert_eq!(merged, expected);
    assert_eq!(merged.port, Some(587));
}

#[test]
fn inherit_from_clears_doc_and_takes_the_parents_inherit() {
    let child = Profile { doc: text("callable"), inherit: text("parent"), ..Profile::new() };
    let merged = child.inherit_from(Profile::new());
    assert_eq!(merged.doc, None);
    assert_eq!(merged.inherit, None);
}

#[test]
fn inherit_from_mixes_fields_of_both() {
    let child = Profile { subject: text("Hello"), to: Some(vec![]), ..Profile::new() };
    let parent = Profile {
        subject: text("ignored"),
        body: text("Body"),
        to: Some(vec!["a@example.com".to_string()]),
        ..Profile::new()
    };
    let merged = child.inherit_from(parent);
    assert_eq!(merged.subject, text("Hello"));
    assert_eq!(merged.body, text("Body"));
    assert_eq!(merged.to, Some(vec![]));
}

#[test]
fn store_keeps_file_order_and_replaces_in_place() {
    let mut store = ProfileStore::new();
    assert_eq!(store.len(), 0);
    assert_eq!(store.insert("a".to_string(), Profile { doc: text("first"), ..Profile::new() }), None);
    assert_eq!(store.insert("b".to_string(), Profile { doc: text("second"), ..Profile::new() }), None);
    assert_eq!(store.len(), 2);
    let before = store.insert("a".to_string(), Profile { doc: text("again"), ..Profile::new() });
    assert_eq!(before, Some(Profile { doc: text("first"), ..Profile::new() }));
    assert_eq!(store.len(), 2);
    assert_eq!(store.name_and_doc(0), Some(("a".to_string(), text("again"))));
    assert_eq!(store.name_and_doc(1), Some(("b".to_string(), text("second"))));
    assert_eq!(store.name_and_doc(2), None);
}

#[test]
fn removal_puts_the_last_profile_in_the_place_of_the_removed() {
    let mut store = ProfileStore::new();
    for name in ["a", "b", "c", "d"] {
        store.insert(name.to_string(), Profile { doc: text(name), ..Profile::new() });
    }
    assert_eq!(store.remove_by_name("b"), Some(Profile { doc: text("b"), ..Profile::new() }));
    assert_eq!(store.len(), 3);
    assert_eq!(store.name_and_doc(0).unwrap().0, "a");
    assert_eq!(store.name_and_doc(1).unwrap().0, "d");
    assert_eq!(store.name_and_doc(2).unwrap().0, "c");
    assert_eq!(store.remove_by_name("b"), None);
    assert_eq!(store.len(), 3);
    let first = store.remove_first();
    assert_eq!(first, Some(("a".to_string(), Profile { doc: text("a"), ..Profile::new() })));
    assert_eq!(store.name_and_doc(0).unwrap().0, "c");
    assert_eq!(store.name_and_doc(1).unwrap().0, "d");
    assert_eq!(store.remove_by_name("d"), Some(Profile { doc: text("d"), ..Profile::new() }));
    assert_eq!(store.remove_first().unwrap().0, "c");
    assert_eq!(store.remove_first(), None);
    assert_eq!(store.len(), 0);
}

#[test]
fn resolve_without_parent_clears_doc_and_leaves_the_store_alone() {
    let mut store = ProfileStore::new();
    store.insert("other".to_string(), Profile::new());
    let profile = Profile { body: text("Body"), doc: text("callable"), ..Profile::new() };
    let expected = Profile { body: text("Body"), ..Profile::new() };
    assert_eq!(resolve(profile, &mut store), Ok(expected));
    assert_eq!(store.len(), 1);
    let plain = Profile { server: text("smtp.example.com"), ..Profile::new() };
    assert_eq!(resolve(plain.clone(), &mut store), Ok(plain));
}

#[test]
fn every_active_profile_has_doc_and_inherit_cleared() {
    let make = || {
        let mut store = ProfileStore::new();
        store.insert("alone".to_string(), Profile { doc: text("a"), ..Profile::new() });
        store.insert(
            "child".to_string(),
            Profile { doc: text("c"), inherit: text("parent"), ..Profile::new() },
        );
        store.insert(
            "parent".to_string(),
            Profile { doc: text("p"), inherit: text("root"), ..Profile::new() },
        );
        store.insert("root".to_string(), Profile { doc: text("r"), ..Profile::new() });
        store
    };
    for name in [None, Some("alone"), Some("child"), Some("parent"), Some("root")] {
        match get_settings(args(name, false), make()) {
            Ok(Settings::Active(profile, _)) => {
                assert_eq!(profile.doc, None);
                assert_eq!(profile.inherit, None);
            }
            other => panic!("no active profile: {other:?}"),
        }
    }
}

#[test]
fn resolve_takes_server_from_parent() {
    let mut store = ProfileStore::new();
    store.insert("C".to_string(), Profile { server: text("smtp.example.com"), ..Profile::new() });
    let b = Profile { inherit: text("C"), ..Profile::new() };
    let resolved = resolve(b, &mut store).unwrap();
    assert_eq!(resolved.server, text("smtp.example.com"));
    assert_eq!(resolved.inherit, None);
    assert_eq!(store.len(), 0);
}

#[test]
fn resolve_follows_a_chain_with_one_lookup_for_each_ancestor() {
    let mut store = ProfileStore::new();
    store.insert("unrelated".to_string(), Profile { user: text("nobody"), ..Profile::new() });
    store.insert(
        "parent".to_string(),
        Profile { server: text("parent-server"), user: text("parent-user"), inherit: text("grandparent"), ..Profile::new() },
    );
    store.insert(
        "grandparent".to_string(),
        Profile { server: text("old-server"), user: text("old-user"), port: Some(2525), doc: text("old"), ..Profile::new() },
    );
    let child = Profile { server: text("child-server"), inherit: text("parent"), ..Profile::new() };
    let resolved = resolve(child, &mut store).unwrap();
    assert_eq!(
        resolved,
        Profile { server: text("child-server"), user: text("parent-user"), port: Some(2525), ..Profile::new() }
    );
    assert_eq!(store.len(), 1);
    assert_eq!(store.name_and_doc(0).unwrap().0, "unrelated");
}

#[test]
fn resolve_fails_on_a_parent_that_never_existed() {
    let mut store = ProfileStore::new();
    store.insert("other".to_string(), Profile::new());
    let profile = Profile { inherit: text("nowhere"), ..Profile::new() };
    assert_eq!(
        resolve(profile, &mut store),
        Err(ResolutionError::InheritanceLoopOrMissing("nowhere".to_string()))
    );
    assert_eq!(store.len(), 1);
}

#[test]
fn mutual_inheritance_fails_at_the_second_lookup() {
    let mut store = ProfileStore::new();
    store.insert("D".to_string(), Profile { doc: text("d"), inherit: text("E"), ..Profile::new() });
    store.insert("E".to_string(), Profile { inherit: text("D"), ..Profile::new() });
    let (name, d) = select(&mut store, text("D")).unwrap();
    assert_eq!(name, "D");
    assert_eq!(store.len(), 1);
    assert_eq!(
        resolve(d, &mut store),
        Err(ResolutionError::InheritanceLoopOrMissing("D".to_string()))
    );
    // the first lookup found E and took it out of the store; the second found nothing
    assert_eq!(store.len(), 0);
}

#[test]
fn mutual_inheritance_fails_in_get_settings() {
    let mut store = ProfileStore::new();
    store.insert("D".to_string(), Profile { doc: text("d"), inherit: text("E"), ..Profile::new() });
    store.insert("E".to_string(), Profile { inherit: text("D"), ..Profile::new() });
    assert_eq!(
        get_settings(args(Some("D"), false), store),
        Err(ResolutionError::InheritanceLoopOrMissing("D".to_string()))
    );
}

#[test]
fn a_longer_loop_fails_when_a_name_comes_again() {
    let mut store = ProfileStore::new();
    store.insert("a".to_string(), Profile { inherit: text("b"), ..Profile::new() });
    store.insert("b".to_string(), Profile { inherit: text("c"), ..Profile::new() });
    store.insert("c".to_string(), Profile { inherit: text("a"), ..Profile::new() });
    store.insert("z".to_string(), Profile::new());
    let start = Profile { inherit: text("a"), ..Profile::new() };
    assert_eq!(
        resolve(start, &mut store),
        Err(ResolutionError::InheritanceLoopOrMissing("a".to_string()))
    );
    assert_eq!(store.len(), 1);
}

#[test]
fn self_reference_fails_as_missing() {
    let mut store = ProfileStore::new();
    store.insert("me".to_string(), Profile { doc: text("me"), inherit: text("me"), ..Profile::new() });
    assert_eq!(
        get_settings(args(None, false), store),
        Err(ResolutionError::InheritanceLoopOrMissing("me".to_string()))
    );
}

#[test]
fn get_settings_uses_the_first_profile_by_default() {
    let mut store = ProfileStore::new();
    store.insert("first".to_string(), Profile { doc: text("one"), body: text("1"), ..Profile::new() });
    store.insert("second".to_string(), Profile { doc: text("two"), body: text("2"), ..Profile::new() });
    let given = Args { profile: None, dry_run: true, config: text("x.toml"), list: false };
    let expected = Settings::Active(Profile { body: text("1"), ..Profile::new() }, given.clone());
    assert_eq!(get_settings(given, store), Ok(expected));
}

#[test]
fn get_settings_uses_the_named_profile_and_takes_the_name() {
    let mut store = ProfileStore::new();
    store.insert("first".to_string(), Profile { doc: text("one"), body: text("1"), ..Profile::new() });
    store.insert(
        "second".to_string(),
        Profile { doc: text("two"), inherit: text("first"), ..Profile::new() },
    );
    let result = get_settings(args(Some("second"), false), store);
    let expected = Settings::Active(Profile { body: text("1"), ..Profile::new() }, args(None, false));
    assert_eq!(result, Ok(expected));
}

#[test]
fn get_settings_rejects_an_unknown_name() {
    let mut store = ProfileStore::new();
    store.insert("first".to_string(), Profile { doc: text("one"), ..Profile::new() });
    assert_eq!(
        get_settings(args(Some("third"), false), store),
        Err(ResolutionError::UnknownProfile("third".to_string()))
    );
}

#[test]
fn get_settings_rejects_an_empty_store() {
    assert_eq!(get_settings(args(None, false), ProfileStore::new()), Err(ResolutionError::NoProfiles));
}

#[test]
fn get_settings_rejects_a_profile_without_doc() {
    let mut store = ProfileStore::new();
    store.insert("base".to_string(), Profile { body: text("1"), ..Profile::new() });
    store.insert("real".to_string(), Profile { doc: text("two"), ..Profile::new() });
    assert_eq!(
        get_settings(args(None, false), store),
        Err(ResolutionError::NotCallable("base".to_string()))
    );
}

#[test]
fn a_parent_needs_no_doc() {
    let mut store = ProfileStore::new();
    store.insert("real".to_string(), Profile { doc: text("two"), inherit: text("base"), ..Profile::new() });
    store.insert("base".to_string(), Profile { body: text("1"), ..Profile::new() });
    let result = get_settings(args(Some("real"), false), store);
    assert!(matches!(result, Ok(Settings::Active(ref p, _)) if p.body == text("1") && p.doc.is_none()));
}

#[test]
fn listing_shows_documented_profiles_in_file_order() {
    let mut store = ProfileStore::new();
    store.insert("a".to_string(), Profile { doc: text("first"), ..Profile::new() });
    store.insert("hidden".to_string(), Profile { body: text("x"), ..Profile::new() });
    store.insert("b".to_string(), Profile { doc: text("second"), inherit: text("nowhere"), ..Profile::new() });
    let expected =
        vec![("a".to_string(), "first".to_string()), ("b".to_string(), "second".to_string())];
    assert_eq!(list_profiles(&store), expected);
    assert_eq!(get_settings(args(Some("unknown"), true), store), Ok(Settings::Listing(expected)));
}

#[test]
fn listing_of_an_empty_store_is_empty() {
    assert_eq!(list_profiles(&ProfileStore::new()), vec![]);
}

#[test]
fn select_leaves_the_store_alone_when_it_fails() {
    let mut store = ProfileStore::new();
    store.insert("a".to_string(), Profile::new());
    assert_eq!(select(&mut store, text("b")), Err(ResolutionError::UnknownProfile("b".to_string())));
    assert_eq!(store.len(), 1);
    let mut empty = ProfileStore::new();
    assert_eq!(select(&mut empty, None), Err(ResolutionError::NoProfiles));
}
