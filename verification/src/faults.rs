//! What the user is told when something outside the application fails.
use vstd::prelude::*;

verus! {

/// Something that failed.
#[derive(Clone, Copy, Debug, PartialEq, Eq, Structural)]
pub enum Fault {
    /// The directory of the application's data could not be determined.
    DataDir,
    /// The directory of the settings could not be created.
    SettingsDir,
    /// The settings could not be put into text.
    EncodeSettings,
    /// The settings could not be written.
    WriteSettings,
    /// A command could not be started.
    StartCommand,
    /// The task of an upgrade did not come to its end.
    UpgradeTask,
    /// The command that asks for the version could not be started.
    AskVersion,
    /// The output of that command could not be read.
    ReadVersion,
}

/// What is said of a fault, up to the reason for it.
pub open spec fn fault_text(fault: Fault) -> Seq<char> {
    match fault {
        Fault::DataDir => "无法解析应用数据目录"@,
        Fault::SettingsDir => "无法创建设置目录"@,
        Fault::EncodeSettings => "无法序列化设置"@,
        Fault::WriteSettings => "无法写入设置"@,
        Fault::StartCommand => "无法启动命令"@,
        Fault::UpgradeTask => "升级任务失败"@,
        Fault::AskVersion => "无法获取 dsh 版本"@,
        Fault::ReadVersion => "读取 dsh 版本失败"@,
    }
}

/// What is said of a fault with the reason `detail`.
pub fn fault_message(fault: Fault, detail: &str) -> (message: String)
    ensures
        message@ == fault_text(fault) + "："@ + detail@,
{
    let text: &'static str = match fault {
        Fault::DataDir => "无法解析应用数据目录",
        Fault::SettingsDir => "无法创建设置目录",
        Fault::EncodeSettings => "无法序列化设置",
        Fault::WriteSettings => "无法写入设置",
        Fault::StartCommand => "无法启动命令",
        Fault::UpgradeTask => "升级任务失败",
        Fault::AskVersion => "无法获取 dsh 版本",
        Fault::ReadVersion => "读取 dsh 版本失败",
    };
    text.to_owned().concat("：").concat(detail)
}

/// What is said of a fault tells which fault it is: no two faults are told in the same words.
pub proof fn law_faults_are_told_apart(one: Fault, other: Fault)
    requires
        one != other,
    ensures
        fault_text(one) != fault_text(other),
{
    reveal_strlit("无法解析应用数据目录");
    reveal_strlit("无法创建设置目录");
    reveal_strlit("无法序列化设置");
    reveal_strlit("无法写入设置");
    reveal_strlit("无法启动命令");
    reveal_strlit("升级任务失败");
    reveal_strlit("无法获取 dsh 版本");
    reveal_strlit("读取 dsh 版本失败");
    assert("无法解析应用数据目录"@.len() == 10 && "无法创建设置目录"@.len() == 8);
    assert("无法序列化设置"@.len() == 7 && "无法写入设置"@.len() == 6);
    assert("无法启动命令"@.len() == 6 && "升级任务失败"@.len() == 6);
    assert("无法获取 dsh 版本"@.len() == 11 && "读取 dsh 版本失败"@.len() == 11);
    assert("无法写入设置"@[2] != "无法启动命令"@[2]);
    assert("无法写入设置"@[0] != "升级任务失败"@[0]);
    assert("无法启动命令"@[0] != "升级任务失败"@[0]);
    assert("无法获取 dsh 版本"@[0] != "读取 dsh 版本失败"@[0]);
}

/// What is said of each fault.
pub proof fn law_fault_words(fault: Fault)
    ensures
        fault == Fault::DataDir ==> fault_text(fault) == "无法解析应用数据目录"@,
        fault == Fault::SettingsDir ==> fault_text(fault) == "无法创建设置目录"@,
        fault == Fault::EncodeSettings ==> fault_text(fault) == "无法序列化设置"@,
        fault == Fault::WriteSettings ==> fault_text(fault) == "无法写入设置"@,
        fault == Fault::StartCommand ==> fault_text(fault) == "无法启动命令"@,
        fault == Fault::UpgradeTask ==> fault_text(fault) == "升级任务失败"@,
        fault == Fault::AskVersion ==> fault_text(fault) == "无法获取 dsh 版本"@,
        fault == Fault::ReadVersion ==> fault_text(fault) == "读取 dsh 版本失败"@,
{
}

} // verus!
