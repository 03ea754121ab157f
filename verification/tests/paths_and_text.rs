use xiaohai::firewall::{add_rule, delete_rule};
use xiaohai::manifest::{FirewallAction, FirewallDirection, FirewallProfile, FirewallRule,
    KeyValue};
use xiaohai::paths::{default_data_root, default_plugin_dir, default_state_file, is_absolute_path,
    join_path, program_data_dir, resolve_path, resolve_under_install_root, PathError};
use xiaohai::textsubst::{apply_replacements, replace_literal};

#[test]
fn join_inserts_one_separator() {
    assert_eq!(join_path(&"C:/base".to_string(), &"leaf".to_string()), "C:/base/leaf");
}

#[test]
fn absolute_paths_are_recognised() {
    assert!(is_absolute_path(&"C:\\test.txt".to_string()));
    assert!(is_absolute_path(&"C:/test.txt".to_string()));
    assert!(is_absolute_path(&"/usr/share".to_string()));
    assert!(is_absolute_path(&"\\\\server\\share".to_string()));
    assert!(!is_absolute_path(&"relative/path".to_string()));
    assert!(!is_absolute_path(&"".to_string()));
}

#[test]
fn resolve_rejects_empty_and_keeps_absolute() {
    assert!(matches!(
        resolve_path(&"C:/base".to_string(), &"".to_string()),
        Err(PathError::Empty)
    ));
    assert_eq!(
        resolve_path(&"C:/base".to_string(), &"C:\\abs.txt".to_string()).unwrap(),
        "C:\\abs.txt"
    );
    assert_eq!(
        resolve_path(&"C:/base".to_string(), &"rel.txt".to_string()).unwrap(),
        "C:/base/rel.txt"
    );
}

#[test]
fn resolve_under_install_root_joins_relative() {
    assert_eq!(
        resolve_under_install_root(&"C:/Apps".to_string(), &"bin/app.exe".to_string()),
        "C:/Apps/bin/app.exe"
    );
    assert_eq!(
        resolve_under_install_root(&"C:/Apps".to_string(), &"D:/other.exe".to_string()),
        "D:/other.exe"
    );
}

#[test]
fn vendor_layout_paths() {
    let pd = "C:/ProgramData".to_string();
    assert_eq!(program_data_dir(&pd), "C:/ProgramData/XiaoHaiAssistant");
    assert_eq!(default_data_root(&pd), "C:/ProgramData/XiaoHaiAssistant/data");
    assert_eq!(default_plugin_dir(&pd), "C:/ProgramData/XiaoHaiAssistant/plugins");
    assert_eq!(
        default_state_file(&pd),
        "C:/ProgramData/XiaoHaiAssistant/install-state.json"
    );
}

#[test]
fn replace_rewrites_each_occurrence_left_to_right() {
    assert_eq!(
        replace_literal(
            &"a {{K}} b {{K}}".to_string(),
            &"{{K}}".to_string(),
            &"v".to_string()
        ),
        "a v b v"
    );
}

#[test]
fn replace_does_not_rescan_inserted_text() {
    assert_eq!(
        replace_literal(&"aaa".to_string(), &"aa".to_string(), &"a".to_string()),
        "aa"
    );
    assert_eq!(
        replace_literal(&"x".to_string(), &"x".to_string(), &"xx".to_string()),
        "xx"
    );
}

#[test]
fn replace_with_empty_key_is_identity() {
    assert_eq!(
        replace_literal(&"abc".to_string(), &"".to_string(), &"zzz".to_string()),
        "abc"
    );
}

#[test]
fn replacements_apply_in_order() {
    let kvs = vec![
        KeyValue { key: "a".to_string(), value: "b".to_string() },
        KeyValue { key: "bb".to_string(), value: "c".to_string() },
    ];
    assert_eq!(apply_replacements(&"ab".to_string(), &kvs), "c");
}

#[test]
fn firewall_add_rule_arguments() {
    let rule = FirewallRule {
        name: "xiaohai-in".to_string(),
        program: "C:/Apps/Bundle/assistant.exe".to_string(),
        direction: FirewallDirection::In,
        action: FirewallAction::Allow,
        profile: FirewallProfile::Any,
    };
    let args = add_rule(&rule);
    assert_eq!(
        args,
        vec![
            "advfirewall".to_string(),
            "firewall".to_string(),
            "add".to_string(),
            "rule".to_string(),
            "name=xiaohai-in".to_string(),
            "dir=in".to_string(),
            "action=allow".to_string(),
            "program=C:/Apps/Bundle/assistant.exe".to_string(),
            "enable=yes".to_string(),
            "profile=any".to_string(),
        ]
    );
}

#[test]
fn firewall_delete_rule_arguments() {
    let args = delete_rule(&"xiaohai-in".to_string());
    assert_eq!(
        args,
        vec![
            "advfirewall".to_string(),
            "firewall".to_string(),
            "delete".to_string(),
            "rule".to_string(),
            "name=xiaohai-in".to_string(),
        ]
    );
}
