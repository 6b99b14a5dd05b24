use dsh_desktop::faults::{fault_message, Fault};
use dsh_desktop::theme::{sync_dsh_theme, theme_verdict, JsonKind};

#[test]
fn a_theme_with_a_background_is_passed_on() {
    let json = r##"{"dark":true,"bg":"#111","fg":"#eee","border":"transparent","avoid":null}"##;
    assert!(sync_dsh_theme(json, &Some("#111".to_string())));
    assert!(!sync_dsh_theme(json, &Some("".to_string())));
    assert!(!sync_dsh_theme(json, &None));
}

#[test]
fn replies_without_a_value_are_dropped() {
    let colour = Some("#111".to_string());
    assert!(!sync_dsh_theme("null", &colour));
    assert!(!sync_dsh_theme(" \t\r\n null \n", &colour));
    assert!(!sync_dsh_theme("", &colour));
    assert!(!sync_dsh_theme("{", &colour));
    assert!(!sync_dsh_theme("nul", &colour));
    assert!(!sync_dsh_theme("undefined", &colour));
}

#[test]
fn every_kind_but_null_may_hold_a_theme() {
    let colour = Some("#111".to_string());
    for json in ["true", "1.5", "\"null\"", "[null]", "{}"] {
        assert!(sync_dsh_theme(json, &colour));
    }
    for kind in [JsonKind::Flag, JsonKind::Number, JsonKind::Text, JsonKind::List, JsonKind::Table] {
        assert!(theme_verdict(Some(kind), &colour));
        assert!(!theme_verdict(Some(kind), &None));
    }
    assert!(!theme_verdict(Some(JsonKind::Null), &colour));
    assert!(!theme_verdict(None, &colour));
}

#[test]
fn faults_are_told_with_their_reason() {
    let told = |fault| fault_message(fault, "x");
    assert_eq!(told(Fault::DataDir), "无法解析应用数据目录：x");
    assert_eq!(told(Fault::SettingsDir), "无法创建设置目录：x");
    assert_eq!(told(Fault::EncodeSettings), "无法序列化设置：x");
    assert_eq!(told(Fault::WriteSettings), "无法写入设置：x");
    assert_eq!(told(Fault::StartCommand), "无法启动命令：x");
    assert_eq!(told(Fault::UpgradeTask), "升级任务失败：x");
    assert_eq!(told(Fault::AskVersion), "无法获取 dsh 版本：x");
    assert_eq!(told(Fault::ReadVersion), "读取 dsh 版本失败：x");
}
