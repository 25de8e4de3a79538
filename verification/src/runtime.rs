//! Keeping the program runtime in step with the package: deciding whether
//! it is current, planning its rebuild, restoring the install lock, and
//! reporting the unpacking of the payload.
use vstd::prelude::*;
use crate::text::{decimal, push_decimal, push_text};

verus! {

/// Whether `c` has the Unicode property White_Space.
pub open spec fn is_unicode_whitespace(c: char) -> bool {
    let v = c as u32;
    ||| 0x9 <= v <= 0xD
    ||| v == 0x20
    ||| v == 0x85
    ||| v == 0xA0
    ||| v == 0x1680
    ||| 0x2000 <= v <= 0x200A
    ||| v == 0x2028
    ||| v == 0x2029
    ||| v == 0x202F
    ||| v == 0x205F
    ||| v == 0x3000
}

/// `s` without its leading whitespace.
pub open spec fn trim_start(s: Seq<char>) -> Seq<char>
    decreases s.len(),
{
    if s.len() > 0 && is_unicode_whitespace(s[0]) {
        trim_start(s.drop_first())
    } else {
        s
    }
}

/// `s` without its trailing whitespace.
pub open spec fn trim_end(s: Seq<char>) -> Seq<char>
    decreases s.len(),
{
    if s.len() > 0 && is_unicode_whitespace(s.last()) {
        trim_end(s.drop_last())
    } else {
        s
    }
}

/// `s` without leading and trailing whitespace.
pub open spec fn trimmed(s: Seq<char>) -> Seq<char> {
    trim_end(trim_start(s))
}

/// No printable ASCII character (letter, digit or punctuation) is
/// whitespace, while space, tab, line feed and carriage return are.
pub proof fn lemma_ascii_whitespace(c: char)
    ensures
        0x21 <= (c as u32) <= 0x7E ==> !is_unicode_whitespace(c),
        c == ' ' || c == '\t' || c == '\n' || c == '\r' ==> is_unicode_whitespace(c),
{
}

/// A text that neither begins nor ends with whitespace trims to itself.
pub proof fn lemma_trim_keeps_inner_text(t: Seq<char>)
    requires
        t.len() > 0 ==> !is_unicode_whitespace(t[0]) && !is_unicode_whitespace(t.last()),
    ensures
        trimmed(t) == t,
{
}

/// A marker that holds exactly the package version records it, for any
/// version that neither begins nor ends with whitespace (every version
/// written in printable ASCII, such as `1.0.3`): such a runtime is kept.
pub proof fn lemma_exact_marker_is_current(version: Seq<char>, written: String)
    requires
        written@ == version,
        forall|i: int| 0 <= i < version.len() ==> 0x21 <= (#[trigger] version[i] as u32) <= 0x7E,
    ensures
        marker_records(Some(written), version),
{
    if version.len() > 0 {
        lemma_ascii_whitespace(version[0]);
        lemma_ascii_whitespace(version.last());
        assert(0x21 <= (version[version.len() - 1] as u32) <= 0x7E);
    }
    lemma_trim_keeps_inner_text(version);
}

/// Whether `c` is White_Space.
fn is_whitespace_char(c: char) -> (r: bool)
    ensures
        r == is_unicode_whitespace(c),
{
    let v = c as u32;
    (0x9 <= v && v <= 0xD) || v == 0x20 || v == 0x85 || v == 0xA0 || v == 0x1680 || (0x2000 <= v
        && v <= 0x200A) || v == 0x2028 || v == 0x2029 || v == 0x202F || v == 0x205F || v == 0x3000
}

/// The characters of `s`.
fn chars_of(s: &str) -> (v: Vec<char>)
    ensures
        v@ == s@,
{
    broadcast use vstd::string::axiom_spec_iter;

    let mut v: Vec<char> = Vec::new();
    for c in it: s.chars()
        invariant
            it.seq() == s@,
            v@ == s@.take(it.index() as int),
    {
        v.push(c);
        assert(s@.take(it.index() + 1) =~= s@.take(it.index() as int).push(c));
    }
    assert(s@.take(s@.len() as int) =~= s@);
    v
}

/// The bounds of `s` without its leading and trailing whitespace.
fn trimmed_bounds(s: &Vec<char>) -> (r: (usize, usize))
    ensures
        r.0 <= r.1 <= s@.len(),
        s@.subrange(r.0 as int, r.1 as int) == trimmed(s@),
{
    let n = s.len();
    let mut start: usize = 0;
    assert(s@.subrange(0, n as int) =~= s@);
    while start < n && is_whitespace_char(s[start])
        invariant
            start <= n == s@.len(),
            trim_start(s@) == trim_start(s@.subrange(start as int, n as int)),
        decreases n - start,
    {
        assert(s@.subrange(start as int, n as int).drop_first() =~= s@.subrange(start + 1, n as int));
        start = start + 1;
    }
    proof {
        let rest = s@.subrange(start as int, n as int);
        if start < n {
            assert(rest[0] == s@[start as int]);
        }
        assert(trim_start(rest) == rest);
    }
    let mut end: usize = n;
    while end > start && is_whitespace_char(s[end - 1])
        invariant
            start <= end <= n == s@.len(),
            trim_start(s@) == s@.subrange(start as int, n as int),
            trim_end(s@.subrange(start as int, n as int)) == trim_end(
                s@.subrange(start as int, end as int),
            ),
        decreases end,
    {
        assert(s@.subrange(start as int, end as int).drop_last() =~= s@.subrange(
            start as int,
            end - 1,
        ));
        end = end - 1;
    }
    proof {
        let kept = s@.subrange(start as int, end as int);
        if end > start {
            assert(kept.last() == s@[end - 1]);
        }
        assert(trim_end(kept) == kept);
    }
    (start, end)
}

/// Whether `text`, without its leading and trailing whitespace, is `expected`.
fn trims_to(text: &str, expected: &str) -> (r: bool)
    ensures
        r == (trimmed(text@) == expected@),
{
    let chars = chars_of(text);
    let want = chars_of(expected);
    let (start, end) = trimmed_bounds(&chars);
    if end - start != want.len() {
        return false;
    }
    let mut k: usize = 0;
    while k < want.len()
        invariant
            start <= end <= chars@.len(),
            end - start == want@.len(),
            chars@.subrange(start as int, end as int) == trimmed(text@),
            want@ == expected@,
            k <= want@.len(),
            forall|j: int| 0 <= j < k ==> chars@[start + j] == want@[j],
        decreases want@.len() - k,
    {
        if chars[start + k] != want[k] {
            assert(chars@.subrange(start as int, end as int)[k as int] != want@[k as int]);
            return false;
        }
        k = k + 1;
    }
    assert(chars@.subrange(start as int, end as int) =~= want@);
    true
}

/// Whether a marker read back (`None` when unreadable) records `version`.
pub open spec fn marker_records(marker_text: Option<String>, version: Seq<char>) -> bool {
    match marker_text {
        Some(t) => trimmed(t@) == version,
        None => false,
    }
}

/// Whether the runtime needs no rebuild: the version marker and the
/// service's entry script exist, and the marker (read when both exist;
/// `None` when it could not be read) holds the package version, surrounding
/// whitespace aside.
pub fn runtime_is_current(
    marker_exists: bool,
    server_script_exists: bool,
    marker_text: Option<String>,
    version: &str,
) -> (r: bool)
    ensures
        r == (marker_exists && server_script_exists && marker_records(marker_text, version@)),
{
    if !marker_exists || !server_script_exists {
        return false;
    }
    match marker_text {
        Some(t) => trims_to(t.as_str(), version),
        None => false,
    }
}

/// One step of bringing the runtime up to date.
pub enum RuntimeStep {
    /// Tell the window that the runtime is being prepared, with this text.
    Announce(String),
    /// Remove the junction `runtime\data` (not what it points to).
    DetachDataLink,
    /// Remove the junction `runtime\public\upload` (not what it points to).
    DetachUploadLink,
    /// Delete a leftover backup directory; failure is ignored.
    RemoveStaleBackup,
    /// Move the runtime to the backup directory, or else delete it; failure
    /// of both stops the rebuild.
    MoveRuntimeAside,
    /// Delete the moved runtime; failure is ignored.
    DropBackup,
    /// Create the runtime directory.
    CreateRuntime,
    /// Unpack the payload into the runtime.
    ExtractPayload,
    /// Record the package version in the version marker.
    WriteMarker(String),
}

/// A step as plain values.
pub enum RuntimeStepView {
    Announce(Seq<char>),
    DetachDataLink,
    DetachUploadLink,
    RemoveStaleBackup,
    MoveRuntimeAside,
    DropBackup,
    CreateRuntime,
    ExtractPayload,
    WriteMarker(Seq<char>),
}

impl View for RuntimeStep {
    type V = RuntimeStepView;

    open spec fn view(&self) -> RuntimeStepView {
        match self {
            RuntimeStep::Announce(t) => RuntimeStepView::Announce(t@),
            RuntimeStep::DetachDataLink => RuntimeStepView::DetachDataLink,
            RuntimeStep::DetachUploadLink => RuntimeStepView::DetachUploadLink,
            RuntimeStep::RemoveStaleBackup => RuntimeStepView::RemoveStaleBackup,
            RuntimeStep::MoveRuntimeAside => RuntimeStepView::MoveRuntimeAside,
            RuntimeStep::DropBackup => RuntimeStepView::DropBackup,
            RuntimeStep::CreateRuntime => RuntimeStepView::CreateRuntime,
            RuntimeStep::ExtractPayload => RuntimeStepView::ExtractPayload,
            RuntimeStep::WriteMarker(v) => RuntimeStepView::WriteMarker(v@),
        }
    }
}

/// The status text shown while the runtime for `version` is prepared.
pub open spec fn preparing_text(version: Seq<char>) -> Seq<char> {
    "正在准备运行环境（版本 "@ + version + "）…首次或更新后约需 10~60 秒"@
}

/// The rebuild plan: nothing when the runtime is current; otherwise announce,
/// clear the old runtime (when there is one) with both junctions detached
/// first, create and fill the runtime, and write the marker last.
pub open spec fn plan_steps(
    version: Seq<char>,
    current: bool,
    runtime_exists: bool,
    backup_exists: bool,
) -> Seq<RuntimeStepView> {
    if current {
        seq![]
    } else {
        let clear = if runtime_exists {
            seq![RuntimeStepView::DetachDataLink, RuntimeStepView::DetachUploadLink]
                + if backup_exists {
                seq![RuntimeStepView::RemoveStaleBackup]
            } else {
                seq![]
            } + seq![RuntimeStepView::MoveRuntimeAside, RuntimeStepView::DropBackup]
        } else {
            seq![]
        };
        seq![RuntimeStepView::Announce(preparing_text(version))] + clear + seq![
            RuntimeStepView::CreateRuntime,
            RuntimeStepView::ExtractPayload,
            RuntimeStepView::WriteMarker(version),
        ]
    }
}

/// The steps as plain values.
pub open spec fn steps_view(steps: Seq<RuntimeStep>) -> Seq<RuntimeStepView> {
    steps.map_values(|s: RuntimeStep| s@)
}

/// The steps that bring the runtime to `version`.
pub fn runtime_plan(version: &str, current: bool, runtime_exists: bool, backup_exists: bool) -> (r:
    Vec<RuntimeStep>)
    ensures
        steps_view(r@) == plan_steps(version@, current, runtime_exists, backup_exists),
{
    let mut steps: Vec<RuntimeStep> = Vec::new();
    if current {
        assert(steps_view(steps@) =~= plan_steps(version@, current, runtime_exists, backup_exists));
        return steps;
    }
    let mut text = String::new();
    push_text(&mut text, "正在准备运行环境（版本 ");
    push_text(&mut text, version);
    push_text(&mut text, "）…首次或更新后约需 10~60 秒");
    steps.push(RuntimeStep::Announce(text));
    if runtime_exists {
        steps.push(RuntimeStep::DetachDataLink);
        steps.push(RuntimeStep::DetachUploadLink);
        if backup_exists {
            steps.push(RuntimeStep::RemoveStaleBackup);
        }
        steps.push(RuntimeStep::MoveRuntimeAside);
        steps.push(RuntimeStep::DropBackup);
    }
    steps.push(RuntimeStep::CreateRuntime);
    steps.push(RuntimeStep::ExtractPayload);
    steps.push(RuntimeStep::WriteMarker(String::from_str(version)));
    assert(steps_view(steps@) =~= plan_steps(version@, current, runtime_exists, backup_exists));
    steps
}

/// Whether a step deletes or moves part of the old runtime.
pub open spec fn touches_old_runtime(s: RuntimeStepView) -> bool {
    s is RemoveStaleBackup || s is MoveRuntimeAside || s is DropBackup
}

/// The rebuild is safe and all-or-nothing: a current runtime is left alone;
/// otherwise the version marker is written last (an interrupted rebuild is
/// redone at the next start), after the payload is unpacked, and nothing
/// of the old runtime is moved or deleted before both junctions into the
/// user data are detached (so the user data is never deleted through them).
pub proof fn lemma_plan_safe(version: Seq<char>, current: bool, runtime_exists: bool, backup_exists: bool)
    ensures
        ({
            let p = plan_steps(version, current, runtime_exists, backup_exists);
            &&& current ==> p.len() == 0
            &&& !current ==> {
                &&& p.len() >= 4
                &&& p.last() == RuntimeStepView::WriteMarker(version)
                &&& p[p.len() - 2] == RuntimeStepView::ExtractPayload
                &&& forall|i: int| 0 <= i < p.len() - 1 ==> !(p[i] is WriteMarker)
            }
            &&& forall|i: int|
                0 <= i < p.len() && #[trigger] touches_old_runtime(p[i]) ==> {
                    &&& runtime_exists
                    &&& p[1] == RuntimeStepView::DetachDataLink
                    &&& p[2] == RuntimeStepView::DetachUploadLink
                    &&& 2 < i
                }
        }),
{
}

/// What to do about one data junction.
#[derive(PartialEq, Eq, Structural, Clone, Copy, Debug)]
pub enum JunctionAction {
    /// It exists and leads to the right place: leave it.
    Keep,
    /// Something else is there: detach it, then create the junction.
    Replace,
    /// Nothing is there: create the junction.
    Create,
}

/// Decides on a junction from whether something exists at the link path and
/// whether it leads to the target.
pub fn junction_action(present: bool, leads_to_target: bool) -> (r: JunctionAction)
    ensures
        r == (if !present {
            JunctionAction::Create
        } else if leads_to_target {
            JunctionAction::Keep
        } else {
            JunctionAction::Replace
        }),
{
    if !present {
        JunctionAction::Create
    } else if leads_to_target {
        JunctionAction::Keep
    } else {
        JunctionAction::Replace
    }
}

/// A rebuild ends by writing the package version to the marker; read back
/// at the next start, that marker records the same version, so the rebuilt
/// runtime is current and is not rebuilt again (for a version without
/// surrounding whitespace, which the comparison would trim away).
pub proof fn lemma_rebuilt_runtime_is_current(version: Seq<char>, runtime_exists: bool, backup_exists: bool)
    requires
        trimmed(version) == version,
    ensures
        plan_steps(version, false, runtime_exists, backup_exists).last() == RuntimeStepView::WriteMarker(
            version,
        ),
        forall|written: String| written@ == version ==> marker_records(Some(written), version),
{
    lemma_plan_safe(version, false, runtime_exists, backup_exists);
}

/// Whether the install lock must be written: the database exists (MeNote
/// was installed) but the rebuilt runtime has lost its lock.
pub fn lock_needed(installed: bool, lock_exists: bool) -> (r: bool)
    ensures
        r == (installed && !lock_exists),
{
    installed && !lock_exists
}

/// The text of the install lock for launcher version `version`.
pub open spec fn lock_text(version: Seq<char>) -> Seq<char> {
    "// 本文件标识系统已安装，不可删除。\nmodule.exports = {\n    install: true,\n    version: '"@ + version
        + "'\n};\n"@
}

/// The install lock that tells the service it is installed.
pub fn lock_file_content(version: &str) -> (r: String)
    ensures
        r@ == lock_text(version@),
{
    let mut text = String::new();
    push_text(
        &mut text,
        "// 本文件标识系统已安装，不可删除。\nmodule.exports = {\n    install: true,\n    version: '",
    );
    push_text(&mut text, version);
    push_text(&mut text, "'\n};\n");
    text
}

/// What to do with one entry of the payload archive.
pub enum EntryAction {
    /// The entry's name would escape the target directory: leave it out.
    Skip,
    /// Create this directory (relative to the runtime).
    CreateDir(String),
    /// Write this file (relative to the runtime), creating its parent first.
    WriteFile(String),
}

/// Decides on an archive entry from its sanitised name (`None` when the
/// name is unsafe) and whether it is a directory.
pub fn entry_action(safe_name: Option<String>, is_dir: bool) -> (r: EntryAction)
    ensures
        safe_name is None <==> r is Skip,
        r matches EntryAction::CreateDir(p) ==> is_dir && safe_name == Some(p),
        r matches EntryAction::WriteFile(p) ==> !is_dir && safe_name == Some(p),
{
    match safe_name {
        None => EntryAction::Skip,
        Some(p) => if is_dir {
            EntryAction::CreateDir(p)
        } else {
            EntryAction::WriteFile(p)
        },
    }
}

/// The percentage of entries done after `done` of `total`.
pub open spec fn percent_done(done: nat, total: nat) -> nat {
    done * 100 / total
}

/// Progress of unpacking: after `done` of `total` entries, with the last
/// reported tenth `last_tenth`, the percentage to report when a new tenth
/// has been reached.
pub fn progress_report(done: u64, total: u64, last_tenth: u64) -> (r: Option<u64>)
    requires
        0 < total,
        done <= total,
    ensures
        r == (if percent_done(done as nat, total as nat) / 10 > last_tenth {
            Some(percent_done(done as nat, total as nat) as u64)
        } else {
            None
        }),
        r matches Some(p) ==> p <= 100 && p / 10 > last_tenth && p == percent_done(
            done as nat,
            total as nat,
        ),
        done == total && last_tenth < 10 ==> r == Some(100u64),
{
    let scaled: u128 = (done as u128) * 100;
    let wide: u128 = scaled / (total as u128);
    proof {
        assert(done * 100 <= total * 100) by (nonlinear_arith)
            requires
                done <= total,
        ;
        assert((done * 100) / (total as int) <= 100) by (nonlinear_arith)
            requires
                done * 100 <= total * 100,
                total > 0,
        ;
        if done == total {
            assert((total * 100) / (total as int) == 100) by (nonlinear_arith)
                requires
                    total > 0,
            ;
        }
    }
    let pct: u64 = wide as u64;
    if pct / 10 > last_tenth {
        Some(pct)
    } else {
        None
    }
}

/// The status text shown at `percent` of unpacking.
pub open spec fn unpack_text(percent: nat) -> Seq<char> {
    "正在释放运行环境… "@ + decimal(percent) + "%（首次或更新后约需 10~60 秒）"@
}

/// The status text for an unpacking progress report.
pub fn unpack_status(percent: u64) -> (r: String)
    ensures
        r@ == unpack_text(percent as nat),
{
    let mut text = String::new();
    push_text(&mut text, "正在释放运行环境… ");
    push_decimal(&mut text, percent);
    push_text(&mut text, "%（首次或更新后约需 10~60 秒）");
    text
}

} // verus!
