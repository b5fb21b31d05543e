use contest_greeter::ipc::desktop_file::{
    load_desktop_file, read_desktop_entry, session_from_entry, slug_from_path, DesktopEntry,
    DesktopFileError,
};
use contest_greeter::ipc::sessions::{
    build_session_paths, clone_sessions, get_sessions, list_sessions, select_session, Session,
    SessionFile, SessionType,
};

fn descriptor(name: &str, command: &str) -> String {
    format!("[Desktop Entry]\nName={}\nExec={}\n", name, command)
}

fn file(path: &str, contents: &str, session_type: SessionType) -> SessionFile {
    SessionFile { path: path.to_string(), contents: contents.to_string(), session_type }
}

fn session(name: &str, command: &str) -> Session {
    Session {
        slug: None,
        name: name.to_string(),
        command: command.to_string(),
        session_type: SessionType::Wayland,
        xdg_desktop_names: None,
    }
}

fn names(sessions: &Vec<Session>) -> Vec<String> {
    list_sessions(sessions)
}

#[test]
fn environment_of_a_wayland_session_with_slug_and_desktop_names() {
    let gnome = Session {
        slug: Some("gnome".to_string()),
        name: "GNOME".to_string(),
        command: "gnome-session".to_string(),
        session_type: SessionType::Wayland,
        xdg_desktop_names: Some("GNOME".to_string()),
    };
    let (command, env) = gnome.get_session_command();
    assert_eq!(command, "gnome-session");
    assert_eq!(
        env,
        vec![
            "XDG_SESSION_DESKTOP=gnome".to_string(),
            "DESKTOP_SESSION=gnome".to_string(),
            "XDG_SESSION_TYPE=wayland".to_string(),
            "XDG_CURRENT_DESKTOP=GNOME".to_string(),
        ]
    );
}

#[test]
fn environment_of_an_x11_session_without_slug_or_desktop_names() {
    let plain = Session {
        slug: None,
        name: "Plain".to_string(),
        command: "startx".to_string(),
        session_type: SessionType::X11,
        xdg_desktop_names: None,
    };
    let (command, env) = plain.get_session_command();
    assert_eq!(command, "startx");
    assert_eq!(env, vec!["XDG_SESSION_TYPE=x11".to_string()]);
}

#[test]
fn environment_with_slug_only() {
    let sway = Session {
        slug: Some("sway".to_string()),
        name: "Sway".to_string(),
        command: "sway".to_string(),
        session_type: SessionType::Wayland,
        xdg_desktop_names: None,
    };
    let (_, env) = sway.get_session_command();
    assert_eq!(
        env,
        vec![
            "XDG_SESSION_DESKTOP=sway".to_string(),
            "DESKTOP_SESSION=sway".to_string(),
            "XDG_SESSION_TYPE=wayland".to_string(),
        ]
    );
}

#[test]
fn cloning_a_session_keeps_every_field() {
    let gnome = Session {
        slug: Some("gnome".to_string()),
        name: "GNOME".to_string(),
        command: "gnome-session".to_string(),
        session_type: SessionType::X11,
        xdg_desktop_names: Some("GNOME;Classic".to_string()),
    };
    assert_eq!(gnome.clone(), gnome);
    let list = vec![gnome, session("Sway", "sway")];
    assert_eq!(clone_sessions(&list), list);
}

#[test]
fn catalog_is_ordered_by_name_whatever_the_scan_order() {
    let gnome = descriptor("GNOME", "gnome-session");
    let sway = descriptor("Sway", "sway");
    let one = vec![
        file("/usr/share/wayland-sessions/gnome.desktop", &gnome, SessionType::Wayland),
        file("/usr/share/wayland-sessions/sway.desktop", &sway, SessionType::Wayland),
    ];
    let other = vec![
        file("/usr/share/wayland-sessions/sway.desktop", &sway, SessionType::Wayland),
        file("/usr/share/wayland-sessions/gnome.desktop", &gnome, SessionType::Wayland),
    ];
    assert_eq!(names(&get_sessions(&one)), vec!["GNOME".to_string(), "Sway".to_string()]);
    assert_eq!(names(&get_sessions(&other)), vec!["GNOME".to_string(), "Sway".to_string()]);
}

#[test]
fn catalog_order_is_case_sensitive() {
    let files = vec![
        file("a/b.desktop", &descriptor("budgie", "b"), SessionType::X11),
        file("a/z.desktop", &descriptor("Zed", "z"), SessionType::X11),
        file("a/a.desktop", &descriptor("Awesome", "a"), SessionType::X11),
        file("a/g.desktop", &descriptor("GNOME Classic", "g"), SessionType::X11),
        file("a/h.desktop", &descriptor("GNOME", "h"), SessionType::X11),
    ];
    assert_eq!(
        names(&get_sessions(&files)),
        vec![
            "Awesome".to_string(),
            "GNOME".to_string(),
            "GNOME Classic".to_string(),
            "Zed".to_string(),
            "budgie".to_string(),
        ]
    );
}

#[test]
fn sessions_of_one_name_keep_their_scan_order() {
    let files = vec![
        file("w/plasma.desktop", &descriptor("Plasma", "first"), SessionType::Wayland),
        file("w/i3.desktop", &descriptor("I3", "i3"), SessionType::X11),
        file("x/plasma.desktop", &descriptor("Plasma", "second"), SessionType::X11),
        file("y/plasma.desktop", &descriptor("Plasma", "third"), SessionType::X11),
    ];
    let catalog = get_sessions(&files);
    let commands: Vec<String> = catalog.iter().map(|s| s.command.clone()).collect();
    assert_eq!(
        commands,
        vec!["i3".to_string(), "first".to_string(), "second".to_string(), "third".to_string()]
    );
    assert_eq!(catalog[1].session_type, SessionType::Wayland);
    assert_eq!(catalog[2].session_type, SessionType::X11);
}

#[test]
fn hidden_and_undisplayed_descriptors_stay_out_of_the_catalog() {
    let hidden = "[Desktop Entry]\nName=Ghost\nExec=ghost\nHidden=true\n";
    let undisplayed = "[Desktop Entry]\nName=Shade\nExec=shade\nNoDisplay=true\n";
    let shown = "[Desktop Entry]\nName=Shown\nExec=shown\nHidden=false\nNoDisplay=false\n";
    let files = vec![
        file("s/ghost.desktop", hidden, SessionType::Wayland),
        file("s/shown.desktop", shown, SessionType::Wayland),
        file("s/shade.desktop", undisplayed, SessionType::X11),
    ];
    let catalog = get_sessions(&files);
    assert_eq!(names(&catalog), vec!["Shown".to_string()]);
    assert_eq!(
        load_desktop_file("s/ghost.desktop", hidden, SessionType::Wayland),
        Ok(None)
    );
    assert_eq!(
        load_desktop_file("s/shade.desktop", undisplayed, SessionType::X11),
        Ok(None)
    );
}

#[test]
fn only_the_literal_word_true_hides_a_descriptor() {
    let upper = "[Desktop Entry]\nName=Upper\nExec=upper\nHidden=True\n";
    let one = "[Desktop Entry]\nName=One\nExec=one\nNoDisplay=1\n";
    let files = vec![
        file("s/upper.desktop", upper, SessionType::Wayland),
        file("s/one.desktop", one, SessionType::Wayland),
    ];
    assert_eq!(names(&get_sessions(&files)), vec!["One".to_string(), "Upper".to_string()]);
}

#[test]
fn a_hidden_descriptor_without_name_is_no_error() {
    let text = "[Desktop Entry]\nHidden=true\n";
    assert_eq!(load_desktop_file("s/x.desktop", text, SessionType::X11), Ok(None));
}

#[test]
fn a_broken_descriptor_is_passed_over_and_the_scan_goes_on() {
    let files = vec![
        file("s/noname.desktop", "[Desktop Entry]\nExec=x\n", SessionType::Wayland),
        file("s/sway.desktop", &descriptor("Sway", "sway"), SessionType::Wayland),
        file("s/nosection.desktop", "Name=Loose\nExec=loose\n", SessionType::Wayland),
        file("s/noexec.desktop", "[Desktop Entry]\nName=Idle\n", SessionType::Wayland),
        file("s/garbage.desktop", "[Desktop Entry]\n=oops\n", SessionType::Wayland),
    ];
    assert_eq!(names(&get_sessions(&files)), vec!["Sway".to_string()]);
}

#[test]
fn an_empty_scan_gives_an_empty_catalog() {
    let files: Vec<SessionFile> = Vec::new();
    assert!(get_sessions(&files).is_empty());
}

#[test]
fn a_loaded_descriptor_carries_slug_kind_and_desktop_names() {
    let text = "[Desktop Entry]\nName=GNOME\nExec=gnome-session\nDesktopNames=GNOME\n";
    let loaded = load_desktop_file("/usr/share/wayland-sessions/gnome.desktop", text, SessionType::Wayland);
    assert_eq!(
        loaded,
        Ok(Some(Session {
            slug: Some("gnome".to_string()),
            name: "GNOME".to_string(),
            command: "gnome-session".to_string(),
            session_type: SessionType::Wayland,
            xdg_desktop_names: Some("GNOME".to_string()),
        }))
    );
    let (command, env) = loaded.unwrap().unwrap().get_session_command();
    assert_eq!(command, "gnome-session");
    assert_eq!(
        env,
        vec![
            "XDG_SESSION_DESKTOP=gnome".to_string(),
            "DESKTOP_SESSION=gnome".to_string(),
            "XDG_SESSION_TYPE=wayland".to_string(),
            "XDG_CURRENT_DESKTOP=GNOME".to_string(),
        ]
    );
}

#[test]
fn each_way_a_descriptor_can_fail() {
    assert_eq!(
        load_desktop_file("a.desktop", "[Desktop Entry]\n=value\n", SessionType::X11),
        Err(DesktopFileError::Syntax)
    );
    assert_eq!(
        load_desktop_file("a.desktop", "[Other]\nName=A\nExec=a\n", SessionType::X11),
        Err(DesktopFileError::NoDesktopEntry)
    );
    assert_eq!(
        load_desktop_file("a.desktop", "", SessionType::X11),
        Err(DesktopFileError::NoDesktopEntry)
    );
    assert_eq!(
        load_desktop_file("a.desktop", "[Desktop Entry]\nExec=a\n", SessionType::X11),
        Err(DesktopFileError::NoName)
    );
    assert_eq!(
        load_desktop_file("a.desktop", "[Desktop Entry]\nName=A\n", SessionType::X11),
        Err(DesktopFileError::NoExec)
    );
    assert_eq!(
        load_desktop_file("a.desktop", "[Desktop Entry]\n", SessionType::X11),
        Err(DesktopFileError::NoName)
    );
}

#[test]
fn the_entry_is_read_from_its_own_section_only() {
    let text = "Name=Loose\n[Other]\nName=Other\nExec=other\n[Desktop Entry]\nName=Mine\nExec=mine --flag\nHidden=false\n[Desktop Action x]\nName=Action\nExec=action\n";
    assert_eq!(
        read_desktop_entry(text),
        Ok(DesktopEntry {
            name: Some("Mine".to_string()),
            command: Some("mine --flag".to_string()),
            hidden: Some("false".to_string()),
            no_display: None,
            desktop_names: None,
        })
    );
}

#[test]
fn keys_are_told_apart_by_case() {
    let text = "[Desktop Entry]\nname=lower\nName=Proper\nExec=run\n";
    let entry = read_desktop_entry(text).unwrap();
    assert_eq!(entry.name, Some("Proper".to_string()));
    let other = "[desktop entry]\nName=A\nExec=a\n";
    assert_eq!(read_desktop_entry(other), Err(DesktopFileError::NoDesktopEntry));
}

#[test]
fn the_first_value_of_a_repeated_key_counts() {
    let text = "[Desktop Entry]\nName=First\nName=Second\nExec=one\nExec=two\n";
    let entry = read_desktop_entry(text).unwrap();
    assert_eq!(entry.name, Some("First".to_string()));
    assert_eq!(entry.command, Some("one".to_string()));
}

#[test]
fn the_first_of_two_sections_of_one_name_counts() {
    let text = "[Desktop Entry]\nName=First\nExec=one\n[Desktop Entry]\nName=Second\nExec=two\nHidden=true\n";
    let entry = read_desktop_entry(text).unwrap();
    assert_eq!(entry.name, Some("First".to_string()));
    assert_eq!(entry.hidden, None);
}

#[test]
fn a_byte_order_mark_is_set_aside() {
    let text = "\u{feff}[Desktop Entry]\nName=Marked\nExec=marked\n";
    let entry = read_desktop_entry(text).unwrap();
    assert_eq!(entry.name, Some("Marked".to_string()));
    assert_eq!(entry.command, Some("marked".to_string()));
}

#[test]
fn comments_and_blank_lines_are_no_part_of_the_entry() {
    let text = "# a session\n\n[Desktop Entry]\n; who\nName = Spaced Name \nExec=run it\n\n";
    let entry = read_desktop_entry(text).unwrap();
    assert_eq!(entry.name, Some("Spaced Name".to_string()));
    assert_eq!(entry.command, Some("run it".to_string()));
}

#[test]
fn session_from_entry_by_cases() {
    let full = || DesktopEntry {
        name: Some("N".to_string()),
        command: Some("c".to_string()),
        hidden: None,
        no_display: None,
        desktop_names: Some("D".to_string()),
    };
    assert_eq!(
        session_from_entry(full(), Some("n".to_string()), SessionType::X11),
        Ok(Some(Session {
            slug: Some("n".to_string()),
            name: "N".to_string(),
            command: "c".to_string(),
            session_type: SessionType::X11,
            xdg_desktop_names: Some("D".to_string()),
        }))
    );
    let mut hidden = full();
    hidden.hidden = Some("true".to_string());
    assert_eq!(session_from_entry(hidden, None, SessionType::X11), Ok(None));
    let mut undisplayed = full();
    undisplayed.no_display = Some("true".to_string());
    undisplayed.name = None;
    assert_eq!(session_from_entry(undisplayed, None, SessionType::X11), Ok(None));
    let mut nearly = full();
    nearly.hidden = Some("true ".to_string());
    nearly.no_display = Some("yes".to_string());
    assert!(matches!(session_from_entry(nearly, None, SessionType::X11), Ok(Some(_))));
    let mut nameless = full();
    nameless.name = None;
    nameless.command = None;
    assert_eq!(
        session_from_entry(nameless, None, SessionType::Wayland),
        Err(DesktopFileError::NoName)
    );
    let mut idle = full();
    idle.command = None;
    assert_eq!(
        session_from_entry(idle, None, SessionType::Wayland),
        Err(DesktopFileError::NoExec)
    );
}

#[test]
fn slug_is_the_file_name_without_its_extension() {
    assert_eq!(slug_from_path("/usr/share/xsessions/gnome.desktop"), Some("gnome".to_string()));
    assert_eq!(slug_from_path("gnome.desktop"), Some("gnome".to_string()));
    assert_eq!(slug_from_path("dir.d/plasma"), Some("plasma".to_string()));
    assert_eq!(slug_from_path("a/gnome.classic.desktop"), Some("gnome.classic".to_string()));
    assert_eq!(slug_from_path("a/.profile"), Some(".profile".to_string()));
    assert_eq!(slug_from_path("a/.profile.desktop"), Some(".profile".to_string()));
    assert_eq!(slug_from_path("a/trailing."), Some("trailing".to_string()));
    assert_eq!(slug_from_path("a/..."), Some("..".to_string()));
    assert_eq!(slug_from_path("a/émile.desktop"), Some("émile".to_string()));
}

#[test]
fn a_path_that_names_no_file_has_no_slug() {
    assert_eq!(slug_from_path(""), None);
    assert_eq!(slug_from_path("/"), None);
    assert_eq!(slug_from_path("a/b/"), None);
    assert_eq!(slug_from_path("."), None);
    assert_eq!(slug_from_path(".."), None);
    assert_eq!(slug_from_path("a/."), None);
    assert_eq!(slug_from_path("a/.."), None);
}

#[test]
fn default_search_path_gives_the_two_system_directories() {
    assert_eq!(
        build_session_paths(None),
        vec![
            ("/usr/local/share/wayland-sessions".to_string(), SessionType::Wayland),
            ("/usr/local/share/xsessions".to_string(), SessionType::X11),
            ("/usr/share/wayland-sessions".to_string(), SessionType::Wayland),
            ("/usr/share/xsessions".to_string(), SessionType::X11),
        ]
    );
}

#[test]
fn a_given_search_path_is_cut_at_colons() {
    assert_eq!(
        build_session_paths(Some("/opt/share:/home/u/.local/share/")),
        vec![
            ("/opt/share/wayland-sessions".to_string(), SessionType::Wayland),
            ("/opt/share/xsessions".to_string(), SessionType::X11),
            ("/home/u/.local/share/wayland-sessions".to_string(), SessionType::Wayland),
            ("/home/u/.local/share/xsessions".to_string(), SessionType::X11),
        ]
    );
}

#[test]
fn an_empty_search_path_is_one_empty_directory() {
    assert_eq!(
        build_session_paths(Some("")),
        vec![
            ("wayland-sessions".to_string(), SessionType::Wayland),
            ("xsessions".to_string(), SessionType::X11),
        ]
    );
    assert_eq!(build_session_paths(Some("/a:")).len(), 4);
    assert_eq!(build_session_paths(Some("/a:"))[2].0, "wayland-sessions");
    assert_eq!(build_session_paths(Some(":/a"))[0].0, "wayland-sessions");
    assert_eq!(build_session_paths(Some(":/a"))[3].0, "/a/xsessions");
}

#[test]
fn the_preferred_session_is_chosen_when_exactly_one_bears_the_name() {
    let catalog = vec![session("GNOME", "gnome-session"), session("Sway", "sway")];
    let chosen = select_session(&catalog, &Some("Sway".to_string()));
    assert_eq!(chosen.map(|s| s.command.clone()), Some("sway".to_string()));
}

#[test]
fn without_preference_the_first_session_is_chosen() {
    let catalog = vec![session("GNOME", "gnome-session"), session("Sway", "sway")];
    let chosen = select_session(&catalog, &None);
    assert_eq!(chosen.map(|s| s.command.clone()), Some("gnome-session".to_string()));
}

#[test]
fn an_unknown_preference_falls_back_to_the_first_session() {
    let catalog = vec![session("GNOME", "gnome-session"), session("Sway", "sway")];
    let chosen = select_session(&catalog, &Some("Plasma".to_string()));
    assert_eq!(chosen.map(|s| s.command.clone()), Some("gnome-session".to_string()));
    let near = select_session(&catalog, &Some("sway".to_string()));
    assert_eq!(near.map(|s| s.command.clone()), Some("gnome-session".to_string()));
}

#[test]
fn a_name_borne_by_two_sessions_falls_back_to_the_first_session() {
    let catalog = vec![
        session("Awesome", "awesome"),
        session("Plasma", "plasma-wayland"),
        session("Plasma", "plasma-x11"),
    ];
    let chosen = select_session(&catalog, &Some("Plasma".to_string()));
    assert_eq!(chosen.map(|s| s.command.clone()), Some("awesome".to_string()));
}

#[test]
fn an_empty_catalog_offers_no_session() {
    let catalog: Vec<Session> = Vec::new();
    assert_eq!(select_session(&catalog, &None), None);
    assert_eq!(select_session(&catalog, &Some("GNOME".to_string())), None);
}

#[test]
fn list_sessions_gives_the_names_in_catalog_order() {
    let catalog = vec![session("GNOME", "gnome-session"), session("Sway", "sway")];
    assert_eq!(list_sessions(&catalog), vec!["GNOME".to_string(), "Sway".to_string()]);
    assert!(list_sessions(&Vec::new()).is_empty());
}

#[test]
fn the_catalog_agrees_with_a_stable_sort_by_name() {
    let names = [
        "sway", "GNOME", "Plasma", "i3", "GNOME", "awesome", "Zed", "plasma", "GNOME Classic",
        "", "i3", "Émile", "日本", "Plasma", "a", "B", "sway",
    ];
    let files: Vec<SessionFile> = names
        .iter()
        .enumerate()
        .map(|(k, name)| {
            file(
                &format!("/s/{}.desktop", k),
                &format!("[Desktop Entry]\nName={}\nExec=run{}\n", name, k),
                SessionType::X11,
            )
        })
        .collect();
    let mut expected: Vec<(String, String)> = names
        .iter()
        .enumerate()
        .map(|(k, name)| (name.to_string(), format!("run{}", k)))
        .collect();
    expected.sort_by(|a, b| a.0.cmp(&b.0));
    let got: Vec<(String, String)> = get_sessions(&files)
        .into_iter()
        .map(|s| (s.name, s.command))
        .collect();
    assert_eq!(got, expected);
}
