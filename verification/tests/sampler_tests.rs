use presence_logger::sampler::{check_for_specific_apps, contains_name, list_all_unique_running_apps};

fn names(items: &[&str]) -> Vec<String> {
    items.iter().map(|item| item.to_string()).collect()
}

#[test]
fn ignored_and_repeated_names_are_dropped() {
    let raw = names(&["chrome.exe", "explorer.exe", "chrome.exe"]);
    let ignore = names(&["explorer.exe"]);
    assert_eq!(list_all_unique_running_apps(&raw, &ignore), names(&["chrome.exe"]));
}

#[test]
fn first_sighting_decides_the_order() {
    let raw = names(&["b", "a", "b", "c", "a", "d", "c"]);
    let ignore = names(&[]);
    assert_eq!(list_all_unique_running_apps(&raw, &ignore), names(&["b", "a", "c", "d"]));
}

#[test]
fn result_is_sound_on_a_mixed_list() {
    let raw = names(&["svc", "idle", "svc", "shell", "idle", "editor", "shell", "svc"]);
    let ignore = names(&["idle", "absent", "shell"]);
    let kept = list_all_unique_running_apps(&raw, &ignore);
    assert_eq!(kept, names(&["svc", "editor"]));
    for (i, name) in kept.iter().enumerate() {
        assert!(!ignore.contains(name));
        assert!(raw.contains(name));
        assert!(!kept[..i].contains(name));
    }
    for name in raw.iter() {
        assert_eq!(kept.contains(name), !ignore.contains(name));
    }
}

#[test]
fn nothing_running_gives_nothing() {
    let raw = names(&[]);
    let ignore = names(&["explorer.exe"]);
    assert_eq!(list_all_unique_running_apps(&raw, &ignore), Vec::<String>::new());
}

#[test]
fn everything_ignored_gives_nothing() {
    let raw = names(&["a", "b", "a"]);
    let ignore = names(&["b", "a"]);
    assert_eq!(list_all_unique_running_apps(&raw, &ignore), Vec::<String>::new());
}

#[test]
fn empty_ignore_list_only_removes_repeats() {
    let raw = names(&["x", "x", "x", "y"]);
    assert_eq!(list_all_unique_running_apps(&raw, &names(&[])), names(&["x", "y"]));
}

#[test]
fn names_differ_by_case_and_whitespace() {
    let raw = names(&["Chrome.exe", "chrome.exe", "chrome.exe ", ""]);
    let ignore = names(&["CHROME.EXE"]);
    assert_eq!(
        list_all_unique_running_apps(&raw, &ignore),
        names(&["Chrome.exe", "chrome.exe", "chrome.exe ", ""])
    );
}

#[test]
fn repeated_entries_of_the_ignore_list_change_nothing() {
    let raw = names(&["a", "b", "c"]);
    let ignore = names(&["b", "b", "b"]);
    assert_eq!(list_all_unique_running_apps(&raw, &ignore), names(&["a", "c"]));
}

#[test]
fn sampling_a_sample_changes_nothing() {
    let raw = names(&["p", "q", "p", "r", "q"]);
    let ignore = names(&["r"]);
    let once = list_all_unique_running_apps(&raw, &ignore);
    let twice = list_all_unique_running_apps(&once, &ignore);
    assert_eq!(once, names(&["p", "q"]));
    assert_eq!(twice, once);
}

#[test]
fn listed_apps_are_kept_as_often_as_they_run() {
    let raw = names(&["game.exe", "shell", "client.exe", "game.exe", "other"]);
    let apps = names(&["game.exe", "client.exe", "missing.exe"]);
    assert_eq!(
        check_for_specific_apps(&raw, &apps),
        names(&["game.exe", "client.exe", "game.exe"])
    );
}

#[test]
fn no_listed_app_running_gives_nothing() {
    let raw = names(&["a", "b"]);
    assert_eq!(check_for_specific_apps(&raw, &names(&["c"])), Vec::<String>::new());
    assert_eq!(check_for_specific_apps(&raw, &names(&[])), Vec::<String>::new());
    assert_eq!(check_for_specific_apps(&names(&[]), &names(&["a"])), Vec::<String>::new());
}

#[test]
fn contains_name_finds_exact_names_only() {
    let list = names(&["alpha", "beta", ""]);
    assert!(contains_name(&list, &"alpha".to_string()));
    assert!(contains_name(&list, &"beta".to_string()));
    assert!(contains_name(&list, &"".to_string()));
    assert!(!contains_name(&list, &"alph".to_string()));
    assert!(!contains_name(&list, &"Beta".to_string()));
    assert!(!contains_name(&names(&[]), &"alpha".to_string()));
}
