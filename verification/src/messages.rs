//! The launcher's log lines and the texts of its error reports.
use vstd::prelude::*;
use vstd::utf8::{valid_utf8, decode_utf8};
use crate::text::{decimal, zero_padded, push_decimal, push_zero_padded, push_text};

verus! {

/// `yyyy-MM-dd HH:mm:ss` for the given calendar fields.
pub open spec fn timestamp_text(year: nat, month: nat, day: nat, hour: nat, minute: nat, second: nat) -> Seq<
    char,
> {
    zero_padded(year, 4) + "-"@ + zero_padded(month, 2) + "-"@ + zero_padded(day, 2) + " "@
        + zero_padded(hour, 2) + ":"@ + zero_padded(minute, 2) + ":"@ + zero_padded(second, 2)
}

/// Formats local-time fields as `yyyy-MM-dd HH:mm:ss`, zero-padded.
pub fn format_timestamp(year: u16, month: u16, day: u16, hour: u16, minute: u16, second: u16) -> (r:
    String)
    ensures
        r@ == timestamp_text(
            year as nat,
            month as nat,
            day as nat,
            hour as nat,
            minute as nat,
            second as nat,
        ),
{
    let mut t = String::new();
    push_zero_padded(&mut t, year as u64, 4);
    push_text(&mut t, "-");
    push_zero_padded(&mut t, month as u64, 2);
    push_text(&mut t, "-");
    push_zero_padded(&mut t, day as u64, 2);
    push_text(&mut t, " ");
    push_zero_padded(&mut t, hour as u64, 2);
    push_text(&mut t, ":");
    push_zero_padded(&mut t, minute as u64, 2);
    push_text(&mut t, ":");
    push_zero_padded(&mut t, second as u64, 2);
    t
}

/// One line of the launcher log: `[timestamp] message` and a line feed.
pub fn log_line(timestamp: &str, message: &str) -> (r: String)
    ensures
        r@ == "["@ + timestamp@ + "] "@ + message@ + "\n"@,
{
    let mut line = String::new();
    push_text(&mut line, "[");
    push_text(&mut line, timestamp);
    push_text(&mut line, "] ");
    push_text(&mut line, message);
    push_text(&mut line, "\n");
    line
}

/// The first log line of a start.
pub fn startup_banner(version: &str) -> (r: String)
    ensures
        r@ == "== MeNote 启动器 v"@ + version@ + " =="@,
{
    let mut line = String::new();
    push_text(&mut line, "== MeNote 启动器 v");
    push_text(&mut line, version);
    push_text(&mut line, " ==");
    line
}

/// Bytes per mebibyte.
pub const MIB: u64 = 1048576;

/// The log line describing the embedded payload: its version and its size
/// in whole mebibytes.
pub fn payload_summary(version: &str, zip_len: u64) -> (r: String)
    ensures
        r@ == "payload: v"@ + version@ + "，zip "@ + decimal((zip_len / MIB) as nat) + " MB"@,
{
    let mut line = String::new();
    push_text(&mut line, "payload: v");
    push_text(&mut line, version);
    push_text(&mut line, "，zip ");
    push_decimal(&mut line, zip_len / MIB);
    push_text(&mut line, " MB");
    line
}

/// A failure that the launcher reports together with its cause.
#[derive(PartialEq, Eq, Structural, Clone, Copy, Debug)]
pub enum Failure {
    /// The data directories could not be determined.
    InitDirs,
    /// The package trailer could not be read.
    ReadPackage,
    /// The window could not be created.
    CreateWindow,
    /// The web view could not be created.
    CreateWebView,
    /// The launcher's own file could not be opened.
    OpenSelf,
    /// The old runtime could neither be moved nor deleted.
    ClearRuntime,
    /// The payload archive could not be opened.
    ReadPayload,
    /// An archive entry could not be read.
    ReadEntry,
    /// `mklink` could not be run.
    RunMklink,
    /// The service log could not be opened.
    OpenServerLog,
    /// The service process could not be started.
    StartNode,
}

/// The text before the cause.
pub open spec fn failure_prefix(f: Failure) -> Seq<char> {
    match f {
        Failure::InitDirs => "初始化目录失败："@,
        Failure::ReadPackage => "读取发行包失败："@,
        Failure::CreateWindow => "创建窗口失败："@,
        Failure::CreateWebView => "初始化 WebView2 失败："@,
        Failure::OpenSelf => "打开自身失败："@,
        Failure::ClearRuntime => "清理旧运行环境失败："@,
        Failure::ReadPayload => "读取 payload.zip 失败："@,
        Failure::ReadEntry => "读取压缩条目失败："@,
        Failure::RunMklink => "调用 mklink 失败："@,
        Failure::OpenServerLog => "打开日志失败："@,
        Failure::StartNode => "启动 node 失败："@,
    }
}

/// The advice after the cause.
pub open spec fn failure_advice(f: Failure) -> Seq<char> {
    match f {
        Failure::ReadPackage => "\n\n请确认 MeNote.exe 来自完整发行包，不要单独截取。"@,
        Failure::CreateWindow => "\n\n若提示 WebView2 相关错误，请安装 WebView2 Runtime：\nhttps://developer.microsoft.com/microsoft-edge/webview2/"@,
        Failure::CreateWebView => "\n\n请安装 WebView2 Runtime 后重试：\nhttps://developer.microsoft.com/microsoft-edge/webview2/"@,
        _ => ""@,
    }
}

fn prefix_of(f: Failure) -> (r: &'static str)
    ensures
        r@ == failure_prefix(f),
{
    match f {
        Failure::InitDirs => "初始化目录失败：",
        Failure::ReadPackage => "读取发行包失败：",
        Failure::CreateWindow => "创建窗口失败：",
        Failure::CreateWebView => "初始化 WebView2 失败：",
        Failure::OpenSelf => "打开自身失败：",
        Failure::ClearRuntime => "清理旧运行环境失败：",
        Failure::ReadPayload => "读取 payload.zip 失败：",
        Failure::ReadEntry => "读取压缩条目失败：",
        Failure::RunMklink => "调用 mklink 失败：",
        Failure::OpenServerLog => "打开日志失败：",
        Failure::StartNode => "启动 node 失败：",
    }
}

fn advice_of(f: Failure) -> (r: &'static str)
    ensures
        r@ == failure_advice(f),
{
    match f {
        Failure::ReadPackage => "\n\n请确认 MeNote.exe 来自完整发行包，不要单独截取。",
        Failure::CreateWindow => "\n\n若提示 WebView2 相关错误，请安装 WebView2 Runtime：\nhttps://developer.microsoft.com/microsoft-edge/webview2/",
        Failure::CreateWebView => "\n\n请安装 WebView2 Runtime 后重试：\nhttps://developer.microsoft.com/microsoft-edge/webview2/",
        _ => "",
    }
}

/// The report of failure `f` caused by `cause`.
pub fn failure_message(f: Failure, cause: &str) -> (r: String)
    ensures
        r@ == failure_prefix(f) + cause@ + failure_advice(f),
{
    let mut msg = String::new();
    push_text(&mut msg, prefix_of(f));
    push_text(&mut msg, cause);
    push_text(&mut msg, advice_of(f));
    msg
}

/// What the window shows when the start-up work fails: the error and where
/// the two logs are.
pub fn startup_failure(error: &str, launcher_log: &str, server_log: &str) -> (r: String)
    ensures
        r@ == error@ + "\n\n详细信息见：\n"@ + launcher_log@ + "\n"@ + server_log@,
{
    let mut msg = String::new();
    push_text(&mut msg, error);
    push_text(&mut msg, "\n\n详细信息见：\n");
    push_text(&mut msg, launcher_log);
    push_text(&mut msg, "\n");
    push_text(&mut msg, server_log);
    msg
}

/// The text that std `String::from_utf8_lossy` makes of `bytes`.
pub uninterp spec fn utf8_lossy(bytes: Seq<u8>) -> Seq<char>;

/// Decodes bytes as UTF-8, replacing malformed sequences (std
/// `String::from_utf8_lossy`): the result is named [`utf8_lossy`];
/// well-formed input decodes exactly, and how malformed input is replaced
/// is left to that name.
#[verifier::external_body]
fn lossy_text(bytes: &[u8]) -> (r: String)
    ensures
        r@ == utf8_lossy(bytes@),
        valid_utf8(bytes@) ==> r@ == decode_utf8(bytes@),
{
    String::from_utf8_lossy(bytes).into_owned()
}

/// The report of a failed `mklink`, from its error output as text and the
/// link that was asked for.
pub fn junction_report(detail: &str, link: &str, target: &str) -> (r: String)
    ensures
        r@ == "建立数据目录联接失败："@ + detail@ + "\n目标："@ + link@ + " -> "@ + target@,
{
    let mut msg = String::new();
    push_text(&mut msg, "建立数据目录联接失败：");
    push_text(&mut msg, detail);
    push_text(&mut msg, "\n目标：");
    push_text(&mut msg, link);
    push_text(&mut msg, " -> ");
    push_text(&mut msg, target);
    msg
}

/// The report of a failed `mklink`, from the bytes of its error output.
pub fn junction_failure(stderr: &[u8], link: &str, target: &str) -> (r: String)
    ensures
        r@ == "建立数据目录联接失败："@ + utf8_lossy(stderr@) + "\n目标："@ + link@ + " -> "@ + target@,
        valid_utf8(stderr@) ==> r@ == "建立数据目录联接失败："@ + decode_utf8(stderr@) + "\n目标："@
            + link@ + " -> "@ + target@,
{
    let detail = lossy_text(stderr);
    junction_report(detail.as_str(), link, target)
}

/// The extra command-line switches that trim the web view's memory use.
pub open spec fn browser_arguments_text() -> Seq<char> {
    "--disable-features=msWebOOUI,msPdfOOUI,msSmartScreenProtection,CalculateNativeWinOcclusion,BackForwardCache,Translate,MediaRouter,OptimizationGuideModelDownloading --disable-extensions --disable-component-update --disable-domain-reliability --disable-sync --no-first-run --no-default-browser-check --renderer-process-limit=1 --js-flags=--lite-mode"@
}

/// The switches passed to the web view through its environment variable.
pub fn browser_arguments() -> (r: String)
    ensures
        r@ == browser_arguments_text(),
{
    String::from_str(
        "--disable-features=msWebOOUI,msPdfOOUI,msSmartScreenProtection,CalculateNativeWinOcclusion,BackForwardCache,Translate,MediaRouter,OptimizationGuideModelDownloading --disable-extensions --disable-component-update --disable-domain-reliability --disable-sync --no-first-run --no-default-browser-check --renderer-process-limit=1 --js-flags=--lite-mode",
    )
}

/// The value to give the web view's switches variable: the switches, unless
/// the user has already set that variable, which is then left alone.
pub fn browser_arguments_to_set(already_set: bool) -> (r: Option<String>)
    ensures
        r is None <==> already_set,
        r matches Some(a) ==> a@ == browser_arguments_text(),
{
    if already_set {
        None
    } else {
        Some(browser_arguments())
    }
}

/// Whether the service can be started: only with the bundled `node`
/// present; otherwise the runtime is reported incomplete.
pub fn node_check(node_present: bool) -> (r: Result<(), String>)
    ensures
        r is Ok <==> node_present,
        r matches Err(m) ==> m@ == "运行环境不完整：缺少 node.exe"@,
{
    if node_present {
        Ok(())
    } else {
        Err(String::from_str("运行环境不完整：缺少 node.exe"))
    }
}

/// The error for an application-data root that is not set: `未设置 `
/// followed by the variable's name.
pub fn unset_variable_message(variable: &str) -> (r: String)
    ensures
        r@ == "未设置 "@ + variable@,
{
    let mut msg = String::new();
    push_text(&mut msg, "未设置 ");
    push_text(&mut msg, variable);
    msg
}

} // verus!
