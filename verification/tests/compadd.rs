use zsh::compsys::compadd::{try_capture_compadd, Cadata, ParamTable, CAF_ARRAYS, CAF_KEYS};
use zsh::compsys::in_editor::CompsysMatch;

fn words(ws: &[&str]) -> Vec<String> {
    ws.iter().map(|w| w.to_string()).collect()
}

fn plain() -> Cadata {
    Cadata {
        aflags: 0,
        disp: None,
        exp: None,
        group: None,
        opar: None,
        apar: None,
        dpar: Vec::new(),
    }
}

fn params() -> ParamTable {
    ParamTable {
        arrays: vec![
            ("ws".to_string(), words(&["build", "test"])),
            ("descs".to_string(), words(&["compile it"])),
            ("plain".to_string(), words(&["p1", "p2"])),
        ],
        assocs: vec![("opts".to_string(), words(&["--all", "--quiet"]))],
    }
}

fn completions(v: &[CompsysMatch]) -> Vec<&str> {
    v.iter().map(|m| m.completion.as_str()).collect()
}

#[test]
fn inactive_capture_passes_through() {
    let mut capture: Option<Vec<CompsysMatch>> = None;
    assert!(!try_capture_compadd(&mut capture, &params(), &plain(), &words(&["a"]), 3));
    assert!(capture.is_none());
}

#[test]
fn query_forms_are_not_captured() {
    for dat in [
        Cadata { opar: Some("allmatching".to_string()), ..plain() },
        Cadata { apar: Some("out".to_string()), ..plain() },
        Cadata { dpar: words(&["narrow"]), ..plain() },
    ] {
        let mut capture = Some(Vec::new());
        assert!(!try_capture_compadd(&mut capture, &params(), &dat, &words(&["a"]), 3));
        assert!(capture.expect("still active").is_empty());
    }
}

#[test]
fn plain_words_are_the_matches() {
    let mut capture = Some(Vec::new());
    let dat = Cadata {
        exp: Some("commands".to_string()),
        group: Some("subcommands".to_string()),
        ..plain()
    };
    assert!(try_capture_compadd(&mut capture, &params(), &dat, &words(&["push", "pull"]), 3));
    let v = capture.expect("active");
    assert_eq!(completions(&v), vec!["push", "pull"]);
    for m in &v {
        assert_eq!(m.description.as_deref(), Some("commands"));
        assert_eq!(m.group.as_deref(), Some("subcommands"));
        assert_eq!(m.replace_start, 3);
    }
}

#[test]
fn array_names_expand_to_elements_with_descriptions() {
    let mut capture = Some(vec![CompsysMatch {
        completion: "earlier".to_string(),
        description: None,
        group: None,
        replace_start: 0,
    }]);
    let dat = Cadata {
        aflags: CAF_ARRAYS,
        disp: Some("descs".to_string()),
        exp: Some("fallback".to_string()),
        ..plain()
    };
    assert!(try_capture_compadd(&mut capture, &params(), &dat, &words(&["ws", "missing", "plain"]), 3));
    let v = capture.expect("active");
    assert_eq!(completions(&v), vec!["earlier", "build", "test", "p1", "p2"]);
    assert_eq!(v[1].description.as_deref(), Some("compile it"));
    assert_eq!(v[2].description.as_deref(), Some("fallback"));
    assert_eq!(v[4].description.as_deref(), Some("fallback"));
}

#[test]
fn keys_flag_reads_assoc_keys_then_array_elements() {
    let mut capture = Some(Vec::new());
    let dat = Cadata { aflags: CAF_KEYS, ..plain() };
    assert!(try_capture_compadd(&mut capture, &params(), &dat, &words(&["opts", "plain", "nothing"]), 3));
    let v = capture.expect("active");
    assert_eq!(completions(&v), vec!["--all", "--quiet", "p1", "p2"]);
    assert!(v.iter().all(|m| m.description.is_none()));
}

#[test]
fn missing_display_array_uses_explanation() {
    let mut capture = Some(Vec::new());
    let dat = Cadata {
        disp: Some("nope".to_string()),
        ..plain()
    };
    assert!(try_capture_compadd(&mut capture, &params(), &dat, &words(&["x"]), 3));
    let v = capture.expect("active");
    assert_eq!(completions(&v), vec!["x"]);
    assert!(v[0].description.is_none());
}

#[test]
fn empty_word_list_captures_nothing_but_claims_the_call() {
    let mut capture = Some(Vec::new());
    assert!(try_capture_compadd(&mut capture, &params(), &plain(), &[], 3));
    assert!(capture.expect("active").is_empty());
}
