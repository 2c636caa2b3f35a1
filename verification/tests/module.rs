use direnv_status::resolve::{allow_marker, deny_marker};
use direnv_status::{
    module, AllowStatus, Context, DirenvConfig, DirenvState, EnvVar, FileEntry, Module,
};
use serde_json::{Number, Value};

fn config() -> DirenvConfig {
    DirenvConfig {
        format: "[$symbol$loaded/$allowed]($style) ".to_string(),
        symbol: "direnv ".to_string(),
        style: "bold bright-yellow".to_string(),
        allowed_msg: "allowed".to_string(),
        not_allowed_msg: "not allowed".to_string(),
        denied_msg: "denied".to_string(),
        loaded_msg: "loaded".to_string(),
        unloaded_msg: "not loaded".to_string(),
    }
}

/// A directory below a scratch directory, with or without a configuration
/// file in it, and the output of the status command.
fn context(dir: &str, with_rc: bool, stdout: Option<String>) -> Context {
    let mut ancestors = Vec::new();
    let mut cur = std::path::Path::new(dir);
    loop {
        ancestors.push(cur.to_str().unwrap().to_string());
        match cur.parent() {
            Some(p) => cur = p,
            None => break,
        }
    }
    let files = if with_rc {
        vec![FileEntry { path: format!("{}/.envrc", dir), content: Some(Vec::new()) }]
    } else {
        Vec::new()
    };
    Context {
        ancestors,
        env: vec![EnvVar { name: "HOME".to_string(), value: "/home/test".to_string() }],
        home_dir: "/home/test".to_string(),
        files,
        status_output: stdout,
        config: config(),
    }
}

/// Fills the template as the template engine would, for templates made of
/// variables, literal text, and one styled group.
fn collect(m: Option<Module>) -> Option<String> {
    let m = m?;
    let chars: Vec<char> = m.format.chars().collect();
    let mut out = String::new();
    let mut i = 0;
    while i < chars.len() {
        match chars[i] {
            '[' | ']' => i += 1,
            '(' => {
                let mut j = i + 1;
                while chars[j] != ')' {
                    j += 1;
                }
                let style: String = chars[i + 1..j].iter().collect();
                assert_eq!(m.style_variable(style.trim_start_matches('$')), Some(&m.style));
                i = j + 1;
            }
            '$' => {
                let mut j = i + 1;
                while j < chars.len() && (chars[j].is_ascii_alphanumeric() || chars[j] == '_') {
                    j += 1;
                }
                let name: String = chars[i + 1..j].iter().collect();
                if let Some(text) = m.variable(&name) {
                    out.push_str(text);
                }
                i = j;
            }
            c => {
                out.push(c);
                i += 1;
            }
        }
    }
    Some(out)
}

fn config_dir() -> &'static str {
    "/home/test/.config/direnv"
}

fn self_path() -> &'static str {
    "/usr/bin/direnv"
}

fn object(members: Vec<(&str, Value)>) -> Value {
    let mut m = serde_json::Map::new();
    for (k, v) in members {
        m.insert(k.to_string(), v);
    }
    Value::Object(m)
}

fn config_json() -> Value {
    object(vec![
        ("ConfigDir", Value::String(config_dir().to_string())),
        ("SelfPath", Value::String(self_path().to_string())),
    ])
}

fn status_cmd_output_without_rc() -> String {
    String::from(
        r"\
direnv exec path /usr/bin/direnv
DIRENV_CONFIG /home/test/.config/direnv
bash_path /usr/bin/bash
disable_stdin false
warn_timeout 5s
whitelist.prefix []
whitelist.exact map[]
No .envrc or .env loaded
No .envrc or .env found",
    )
}

fn status_cmd_output_without_rc_json() -> String {
    object(vec![
        ("config", config_json()),
        ("state", object(vec![("foundRC", Value::Null), ("loadedRC", Value::Null)])),
    ])
    .to_string()
}

fn status_cmd_output_with_rc(
    dir: &str,
    loaded: bool,
    allowed: &str,
    use_legacy_boolean_flags: bool,
) -> String {
    let rc_path = format!("{}/.envrc", dir);

    let allowed_value = match (use_legacy_boolean_flags, allowed) {
        (true, "0") => "true",
        (true, ..) => "false",
        (false, val) => val,
    };

    let loaded = if loaded {
        format!(
            r#"\
            Loaded RC path {rc_path}
            Loaded watch: ".envrc" - 2023-04-30T09:51:04-04:00
            Loaded watch: "../.local/share/direnv/allow/abcd" - 2023-04-30T09:52:58-04:00
            Loaded RC allowed {allowed_value}
            Loaded RC allowPath
            "#
        )
    } else {
        String::from("No .envrc or .env loaded")
    };

    let state = allowed.to_string();

    format!(
        r#"\
direnv exec path /usr/bin/direnv
DIRENV_CONFIG /home/test/.config/direnv
bash_path /usr/bin/bash
disable_stdin false
warn_timeout 5s
whitelist.prefix []
whitelist.exact map[]
{loaded}
Found RC path {rc_path}
Found watch: ".envrc" - 2023-04-25T18:45:54-04:00
Found watch: "../.local/share/direnv/allow/abcd" - 1969-12-31T19:00:00-05:00
Found RC allowed {state}
Found RC allowPath /home/test/.local/share/direnv/allow/abcd
"#
    )
}

fn rc_json(dir: &str, allowed: u8) -> Value {
    object(vec![
        ("allowed", Value::Number(Number::from(allowed))),
        ("path", Value::String(format!("{}/.envrc", dir))),
    ])
}

fn status_cmd_output_with_rc_json(dir: &str, loaded: u8, allowed: u8) -> String {
    object(vec![
        ("config", config_json()),
        (
            "state",
            object(vec![("foundRC", rc_json(dir, allowed)), ("loadedRC", rc_json(dir, loaded))]),
        ),
    ])
    .to_string()
}

fn status_cmd_output_found_only_json(dir: &str, allowed: u8) -> String {
    object(vec![
        ("config", config_json()),
        ("state", object(vec![("foundRC", rc_json(dir, allowed)), ("loadedRC", Value::Null)])),
    ])
    .to_string()
}

const DIR: &str = "/scratch/tmp.Ab12Cd";

#[test]
fn folder_without_rc_files_pre_2_33() {
    let ctx = context(DIR, false, Some(status_cmd_output_without_rc()));
    assert_eq!(None, collect(module(&ctx)));
}

#[test]
fn folder_without_rc_files() {
    let ctx = context(DIR, false, Some(status_cmd_output_without_rc_json()));
    assert_eq!(None, collect(module(&ctx)));
}

#[test]
fn folder_with_unloaded_rc_file_pre_2_33() {
    let ctx = context(DIR, true, Some(status_cmd_output_with_rc(DIR, false, "0", true)));
    assert_eq!(Some(format!("direnv not loaded/allowed ")), collect(module(&ctx)));
}

#[test]
fn folder_with_loaded_rc_file() {
    let ctx = context(DIR, true, Some(status_cmd_output_with_rc_json(DIR, 0, 0)));
    assert_eq!(Some("direnv loaded/allowed ".to_string()), collect(module(&ctx)));
}

#[test]
fn folder_with_loaded_and_not_allowed_rc_file() {
    let ctx = context(DIR, true, Some(status_cmd_output_with_rc_json(DIR, 0, 1)));
    assert_eq!(Some(format!("direnv loaded/not allowed ")), collect(module(&ctx)));
}

#[test]
fn folder_with_loaded_and_denied_rc_file() {
    let ctx = context(DIR, true, Some(status_cmd_output_with_rc_json(DIR, 0, 2)));
    assert_eq!(Some("direnv loaded/denied ".to_string()), collect(module(&ctx)));
}

#[test]
fn found_allowed_and_nothing_loaded() {
    let ctx = context(DIR, true, Some(status_cmd_output_found_only_json(DIR, 0)));
    let m = module(&ctx).unwrap();
    assert_eq!(m.variable("allowed"), Some(&"allowed".to_string()));
    assert_eq!(m.variable("loaded"), Some(&"not loaded".to_string()));
    assert_eq!(Some("direnv not loaded/allowed ".to_string()), collect(Some(m)));
}

#[test]
fn found_denied_and_loaded_denied() {
    let ctx = context(DIR, true, Some(status_cmd_output_with_rc_json(DIR, 2, 2)));
    assert_eq!(Some("direnv loaded/denied ".to_string()), collect(module(&ctx)));
}

#[test]
fn loaded_goes_by_the_loaded_path_alone() {
    for loaded_code in [0u8, 1, 2] {
        let ctx = context(DIR, true, Some(status_cmd_output_with_rc_json(DIR, loaded_code, 0)));
        assert_eq!(Some("direnv loaded/allowed ".to_string()), collect(module(&ctx)));
    }
}

#[test]
fn indented_lines_carry_no_label() {
    // The loaded file is written on indented lines here, so the report
    // names a found file only.
    let text = status_cmd_output_with_rc(DIR, true, "0", true);
    assert!(text.contains("\n            Loaded RC path /scratch/tmp.Ab12Cd/.envrc\n"));
    assert_eq!(
        DirenvState::from_str(&text),
        Ok(DirenvState {
            rc_path: Some(format!("{}/.envrc", DIR)),
            loaded_rc_path: None,
            allowed: Some(AllowStatus::Allowed),
            loaded_allowed: None,
        })
    );
    let ctx = context(DIR, true, Some(text));
    assert_eq!(Some("direnv not loaded/allowed ".to_string()), collect(module(&ctx)));
}

#[test]
fn variables_of_a_module() {
    let state = DirenvState {
        rc_path: Some("/w/.envrc".to_string()),
        loaded_rc_path: None,
        allowed: Some(AllowStatus::NotAllowed),
        loaded_allowed: None,
    };
    let m = Module::new(&state, &config()).unwrap();
    assert_eq!(m.variable("symbol"), Some(&"direnv ".to_string()));
    assert_eq!(m.variable("rc_path"), Some(&"/w/.envrc".to_string()));
    assert_eq!(m.variable("allowed"), Some(&"not allowed".to_string()));
    assert_eq!(m.variable("loaded"), Some(&"not loaded".to_string()));
    assert_eq!(m.variable("style"), None);
    assert_eq!(m.variable("Symbol"), None);
    assert_eq!(m.variable(""), None);
    assert_eq!(m.style_variable("style"), Some(&"bold bright-yellow".to_string()));
    assert_eq!(m.style_variable("symbol"), None);
    assert_eq!(m.format, "[$symbol$loaded/$allowed]($style) ");
}

#[test]
fn variables_without_text() {
    let state = DirenvState {
        rc_path: None,
        loaded_rc_path: Some("/l/.envrc".to_string()),
        allowed: None,
        loaded_allowed: None,
    };
    let m = Module::new(&state, &config()).unwrap();
    assert_eq!(m.variable("rc_path"), None);
    assert_eq!(m.variable("allowed"), None);
    assert_eq!(m.variable("loaded"), Some(&"loaded".to_string()));
    assert_eq!(Some("direnv loaded/ ".to_string()), collect(Some(m)));
}

#[test]
fn each_status_has_its_text() {
    for (status, text) in [
        (AllowStatus::Allowed, "allowed"),
        (AllowStatus::NotAllowed, "not allowed"),
        (AllowStatus::Denied, "denied"),
    ] {
        let state = DirenvState {
            rc_path: Some("/w/.envrc".to_string()),
            loaded_rc_path: None,
            allowed: Some(status),
            loaded_allowed: Some(AllowStatus::Denied),
        };
        let m = Module::new(&state, &config()).unwrap();
        assert_eq!(m.variable("allowed"), Some(&text.to_string()));
    }
}

#[test]
fn nothing_is_displayed_without_any_file() {
    let state = DirenvState {
        rc_path: None,
        loaded_rc_path: None,
        allowed: Some(AllowStatus::Allowed),
        loaded_allowed: Some(AllowStatus::Allowed),
    };
    assert_eq!(Module::new(&state, &config()), None);
}

#[test]
fn without_a_report_the_snapshot_is_resolved() {
    let ctx = context(DIR, true, None);
    assert_eq!(Some("direnv not loaded/not allowed ".to_string()), collect(module(&ctx)));

    let rc = format!("{}/.envrc", DIR);
    let mut ctx = context(DIR, true, None);
    ctx.files.push(FileEntry { path: allow_marker("/home/test", &rc, b""), content: Some(Vec::new()) });
    ctx.env.push(EnvVar { name: "DIRENV_FILE".to_string(), value: rc.clone() });
    assert_eq!(Some("direnv loaded/allowed ".to_string()), collect(module(&ctx)));

    let mut ctx = context(DIR, true, None);
    ctx.files.push(FileEntry { path: deny_marker("/home/test", &rc), content: Some(Vec::new()) });
    assert_eq!(Some("direnv not loaded/denied ".to_string()), collect(module(&ctx)));

    let ctx = context(DIR, false, None);
    assert_eq!(None, collect(module(&ctx)));
}

#[test]
fn a_report_that_cannot_be_decoded_leaves_the_snapshot() {
    let ctx = context(DIR, true, Some("direnv: error".to_string()));
    assert_eq!(Some("direnv not loaded/not allowed ".to_string()), collect(module(&ctx)));
    let ctx = context(DIR, false, Some("direnv: error".to_string()));
    assert_eq!(None, collect(module(&ctx)));
    let ctx = context(
        DIR,
        false,
        Some(r#"{"state": {"foundRC": {"allowed": 7, "path": "/w/.envrc"}}}"#.to_string()),
    );
    assert_eq!(None, collect(module(&ctx)));
}

#[test]
fn a_file_that_cannot_be_read_displays_nothing() {
    let mut ctx = context(DIR, false, None);
    ctx.files.push(FileEntry { path: format!("{}/.envrc", DIR), content: None });
    assert_eq!(None, collect(module(&ctx)));
    let mut ctx = context(DIR, true, None);
    ctx.env.push(EnvVar { name: "DIRENV_FILE".to_string(), value: "/gone/.envrc".to_string() });
    assert_eq!(None, collect(module(&ctx)));
}

#[test]
fn the_report_precedes_the_snapshot() {
    let rc = format!("{}/.envrc", DIR);
    let mut ctx = context(DIR, true, Some(status_cmd_output_found_only_json(DIR, 2)));
    ctx.files.push(FileEntry { path: allow_marker("/home/test", &rc, b""), content: Some(Vec::new()) });
    assert_eq!(Some("direnv not loaded/denied ".to_string()), collect(module(&ctx)));
    assert_eq!(
        DirenvState::resolve(&ctx),
        Some(DirenvState {
            rc_path: Some(rc),
            loaded_rc_path: None,
            allowed: Some(AllowStatus::Denied),
            loaded_allowed: None,
        })
    );
}
