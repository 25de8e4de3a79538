//! Where the launcher keeps things: the program runtime under the local
//! application-data root, the user data under the roaming root, and the
//! two logs.
use vstd::prelude::*;

verus! {

/// A name that joins as one relative path component: not empty, not `.` or
/// `..`, and free of separators and drive colons.
pub open spec fn is_plain_name(n: Seq<char>) -> bool {
    &&& n.len() > 0
    &&& n != "."@
    &&& n != ".."@
    &&& forall|i: int| 0 <= i < n.len() ==> n[i] != '/' && n[i] != '\\' && n[i] != ':'
}

/// A path separator on some platform.
pub open spec fn is_separator(c: char) -> bool {
    c == '/' || c == '\\'
}

/// A base that a component cannot follow directly: it is not empty and ends
/// neither in a separator nor in a drive colon.
pub open spec fn needs_separator(base: Seq<char>) -> bool {
    &&& base.len() > 0
    &&& !is_separator(base.last())
    &&& base.last() != ':'
}

/// A path that begins like a verbatim (`\\?\`) path, which the platform
/// rebuilds from its components when it is extended.
pub open spec fn starts_verbatim(p: Seq<char>) -> bool {
    &&& p.len() >= 3
    &&& is_separator(p[0])
    &&& is_separator(p[1])
    &&& p[2] == '?'
}

/// `path` is `base` extended by the component `name`: the component itself
/// when `base` is empty; `base`, one separator and the component when `base`
/// needs a separator; otherwise (`base` ends in a separator or a colon)
/// the component follows directly or after the platform's separator.
pub open spec fn joined(base: Seq<char>, name: Seq<char>, path: Seq<char>) -> bool {
    if base.len() == 0 {
        path == name
    } else if needs_separator(base) {
        exists|sep: char| is_separator(sep) && path == base + seq![sep] + name
    } else {
        path == base + name || exists|sep: char| is_separator(sep) && path == base + seq![sep] + name
    }
}

/// Extends `base` by the component `name` (std `Path::join`, then the
/// path's text). Of a base that begins as a verbatim path nothing is
/// stated: the platform may normalise such a path when it extends it.
#[verifier::external_body]
fn path_join(base: &str, name: &str) -> (r: String)
    requires
        is_plain_name(name@),
    ensures
        !starts_verbatim(base@) ==> joined(base@, name@, r@),
{
    std::path::Path::new(base).join(name).to_string_lossy().into_owned()
}

/// Extending a path that does not begin as a verbatim path by a plain
/// component that does not begin with `?` gives such a path again.
proof fn lemma_joined_not_verbatim(base: Seq<char>, name: Seq<char>, path: Seq<char>)
    requires
        !starts_verbatim(base),
        is_plain_name(name),
        name[0] != '?',
        joined(base, name, path),
    ensures
        !starts_verbatim(path),
{
    if starts_verbatim(path) {
        if base.len() == 0 {
            assert(path[0] == name[0]);
        } else if path == base + name {
            if base.len() >= 3 {
                assert(path[0] == base[0] && path[1] == base[1] && path[2] == base[2]);
            } else if base.len() == 2 {
                assert(path[2] == name[0]);
            } else if base.len() == 1 {
                assert(path[1] == name[0]);
            } else {
                assert(path[0] == name[0]);
            }
        } else {
            let sep = choose|sep: char| is_separator(sep) && path == base + seq![sep] + name;
            if base.len() >= 3 {
                assert(path[0] == base[0] && path[1] == base[1] && path[2] == base[2]);
            } else if base.len() == 2 {
                assert(path[2] == sep);
            } else if base.len() == 1 {
                assert(path[2] == name[0]);
            } else {
                assert(path[1] == name[0]);
            }
        }
    }
}

/// Extends `base` by the plain component `name`; the result again does not
/// begin as a verbatim path.
fn join_component(base: &str, name: &str) -> (r: String)
    requires
        is_plain_name(name@),
        name@[0] != '?',
    ensures
        !starts_verbatim(base@) ==> joined(base@, name@, r@) && !starts_verbatim(r@),
{
    let r = path_join(base, name);
    proof {
        if !starts_verbatim(base@) {
            lemma_joined_not_verbatim(base@, name@, r@);
        }
    }
    r
}

/// The launcher's directories and files.
pub struct Dirs {
    /// `<local root>\MeNote`
    pub local: String,
    /// `<local root>\MeNote\runtime`: the program files, rebuilt per version.
    pub runtime: String,
    /// `<roaming root>\MeNote\data`: the user data, never overwritten.
    pub data: String,
    /// `<local root>\MeNote\server.log`: output of the service process.
    pub server_log: String,
    /// `<local root>\MeNote\launcher.log`: the launcher's own log.
    pub launcher_log: String,
}

/// The layout of the directories under the two application-data roots.
pub open spec fn dirs_layout(local_root: Seq<char>, roaming_root: Seq<char>, d: Dirs) -> bool {
    &&& joined(local_root, "MeNote"@, d.local@)
    &&& joined(d.local@, "runtime"@, d.runtime@)
    &&& joined(d.local@, "server.log"@, d.server_log@)
    &&& joined(d.local@, "launcher.log"@, d.launcher_log@)
    &&& exists|app: Seq<char>| joined(roaming_root, "MeNote"@, app) && joined(app, "data"@, d.data@)
}

/// None of the three directories begins as a verbatim path, so that the
/// paths below them are plain extensions of them.
pub open spec fn dirs_plain(d: Dirs) -> bool {
    &&& !starts_verbatim(d.local@)
    &&& !starts_verbatim(d.runtime@)
    &&& !starts_verbatim(d.data@)
}

fn join_app(root: &str) -> (r: String)
    ensures
        !starts_verbatim(root@) ==> joined(root@, "MeNote"@, r@) && !starts_verbatim(r@),
{
    proof {
        reveal_strlit("MeNote");
        reveal_strlit(".");
        reveal_strlit("..");
    }
    join_component(root, "MeNote")
}

fn join_runtime(local: &str) -> (r: String)
    ensures
        !starts_verbatim(local@) ==> joined(local@, "runtime"@, r@) && !starts_verbatim(r@),
{
    proof {
        reveal_strlit("runtime");
        reveal_strlit(".");
        reveal_strlit("..");
    }
    join_component(local, "runtime")
}

fn join_server_log(local: &str) -> (r: String)
    ensures
        !starts_verbatim(local@) ==> joined(local@, "server.log"@, r@),
{
    proof {
        reveal_strlit("server.log");
        reveal_strlit(".");
        reveal_strlit("..");
    }
    join_component(local, "server.log")
}

fn join_launcher_log(local: &str) -> (r: String)
    ensures
        !starts_verbatim(local@) ==> joined(local@, "launcher.log"@, r@),
{
    proof {
        reveal_strlit("launcher.log");
        reveal_strlit(".");
        reveal_strlit("..");
    }
    join_component(local, "launcher.log")
}

fn join_data(base: &str) -> (r: String)
    ensures
        !starts_verbatim(base@) ==> joined(base@, "data"@, r@) && !starts_verbatim(r@),
{
    proof {
        reveal_strlit("data");
        reveal_strlit(".");
        reveal_strlit("..");
    }
    join_component(base, "data")
}

/// The directories, from the local and the roaming application-data roots.
/// Of roots that begin as verbatim paths only the shape of the result is
/// promised: the platform may normalise such paths when it extends them.
pub fn dirs_from_roots(local_root: &str, roaming_root: &str) -> (d: Dirs)
    ensures
        !starts_verbatim(local_root@) && !starts_verbatim(roaming_root@) ==> dirs_layout(
            local_root@,
            roaming_root@,
            d,
        ) && dirs_plain(d),
{
    let local = join_app(local_root);
    let app = join_app(roaming_root);
    let data = join_data(app.as_str());
    let runtime = join_runtime(local.as_str());
    let server_log = join_server_log(local.as_str());
    let launcher_log = join_launcher_log(local.as_str());
    Dirs { runtime, server_log, launcher_log, local, data }
}

/// A path extended by a component ends with that component's last character.
pub proof fn lemma_joined_last(base: Seq<char>, name: Seq<char>, path: Seq<char>)
    requires
        joined(base, name, path),
        name.len() > 0,
    ensures
        path.len() > 0,
        path.last() == name.last(),
{
    if path != base + name {
        let sep = choose|sep: char| is_separator(sep) && path == base + seq![sep] + name;
        assert(path.last() == (base + seq![sep] + name)[path.len() - 1]);
    }
}

/// The program runtime, which each new version deletes and rebuilds, is
/// never the user data directory, whatever the two roots are.
pub proof fn lemma_runtime_apart_from_data(local_root: Seq<char>, roaming_root: Seq<char>, d: Dirs)
    requires
        dirs_layout(local_root, roaming_root, d),
    ensures
        d.runtime@ != d.data@,
{
    reveal_strlit("runtime");
    reveal_strlit("data");
    lemma_joined_last(d.local@, "runtime"@, d.runtime@);
    let app = choose|app: Seq<char>| joined(roaming_root, "MeNote"@, app) && joined(app, "data"@, d.data@);
    lemma_joined_last(app, "data"@, d.data@);
}

/// A copy of the directories.
pub fn clone_dirs(d: &Dirs) -> (r: Dirs)
    ensures
        r == *d,
{
    Dirs {
        local: d.local.clone(),
        runtime: d.runtime.clone(),
        data: d.data.clone(),
        server_log: d.server_log.clone(),
        launcher_log: d.launcher_log.clone(),
    }
}

/// The file that records which package version the runtime was built from,
/// `runtime\.version`.
pub fn runtime_version_marker(dirs: &Dirs) -> (r: String)
    ensures
        !starts_verbatim(dirs.runtime@) ==> joined(dirs.runtime@, ".version"@, r@),
{
    proof {
        reveal_strlit(".version");
        reveal_strlit(".");
        reveal_strlit("..");
    }
    join_component(dirs.runtime.as_str(), ".version")
}

/// The service's entry script, present in a complete runtime.
pub fn server_script(dirs: &Dirs) -> (r: String)
    ensures
        !starts_verbatim(dirs.runtime@) ==> joined(dirs.runtime@, "server.js"@, r@),
{
    proof {
        reveal_strlit("server.js");
        reveal_strlit(".");
        reveal_strlit("..");
    }
    join_component(dirs.runtime.as_str(), "server.js")
}

/// The bundled `node` executable.
pub fn node_exe(dirs: &Dirs) -> (r: String)
    ensures
        !starts_verbatim(dirs.runtime@) ==> joined(dirs.runtime@, "node.exe"@, r@),
{
    proof {
        reveal_strlit("node.exe");
        reveal_strlit(".");
        reveal_strlit("..");
    }
    join_component(dirs.runtime.as_str(), "node.exe")
}

fn join_config(runtime: &str) -> (r: String)
    ensures
        !starts_verbatim(runtime@) ==> joined(runtime@, "config"@, r@) && !starts_verbatim(r@),
{
    proof {
        reveal_strlit("config");
        reveal_strlit(".");
        reveal_strlit("..");
    }
    join_component(runtime, "config")
}

fn join_lock(config: &str) -> (r: String)
    ensures
        !starts_verbatim(config@) ==> joined(config@, "lock.js"@, r@),
{
    proof {
        reveal_strlit("lock.js");
        reveal_strlit(".");
        reveal_strlit("..");
    }
    join_component(config, "lock.js")
}

/// The install lock, `runtime\config\lock.js`.
pub fn lock_file(dirs: &Dirs) -> (r: String)
    ensures
        !starts_verbatim(dirs.runtime@) ==> exists|config: Seq<char>|
            joined(dirs.runtime@, "config"@, config) && joined(config, "lock.js"@, r@),
{
    let config = join_config(dirs.runtime.as_str());
    join_lock(config.as_str())
}

/// The database, whose presence means that MeNote has been installed.
pub fn database_file(dirs: &Dirs) -> (r: String)
    ensures
        !starts_verbatim(dirs.data@) ==> joined(dirs.data@, "menote.db"@, r@),
{
    proof {
        reveal_strlit("menote.db");
        reveal_strlit(".");
        reveal_strlit("..");
    }
    join_component(dirs.data.as_str(), "menote.db")
}

/// The junction `runtime\data`, which points at the data directory.
pub fn data_link(dirs: &Dirs) -> (r: String)
    ensures
        !starts_verbatim(dirs.runtime@) ==> joined(dirs.runtime@, "data"@, r@),
{
    join_data(dirs.runtime.as_str())
}

fn join_public(runtime: &str) -> (r: String)
    ensures
        !starts_verbatim(runtime@) ==> joined(runtime@, "public"@, r@) && !starts_verbatim(r@),
{
    proof {
        reveal_strlit("public");
        reveal_strlit(".");
        reveal_strlit("..");
    }
    join_component(runtime, "public")
}

fn join_upload(base: &str) -> (r: String)
    ensures
        !starts_verbatim(base@) ==> joined(base@, "upload"@, r@),
{
    proof {
        reveal_strlit("upload");
        reveal_strlit(".");
        reveal_strlit("..");
    }
    join_component(base, "upload")
}

/// The junction `runtime\public\upload`, which points at [`upload_dir`].
pub fn upload_link(dirs: &Dirs) -> (r: String)
    ensures
        !starts_verbatim(dirs.runtime@) ==> exists|public: Seq<char>|
            joined(dirs.runtime@, "public"@, public) && joined(public, "upload"@, r@),
{
    let public = join_public(dirs.runtime.as_str());
    join_upload(public.as_str())
}

/// Where uploaded attachments are kept, `data\upload`.
pub fn upload_dir(dirs: &Dirs) -> (r: String)
    ensures
        !starts_verbatim(dirs.data@) ==> joined(dirs.data@, "upload"@, r@),
{
    join_upload(dirs.data.as_str())
}

/// Where an outdated runtime is moved before it is deleted.
pub fn backup_dir(dirs: &Dirs) -> (r: String)
    ensures
        !starts_verbatim(dirs.local@) ==> joined(dirs.local@, "runtime_old"@, r@),
{
    proof {
        reveal_strlit("runtime_old");
        reveal_strlit(".");
        reveal_strlit("..");
    }
    join_component(dirs.local.as_str(), "runtime_old")
}

} // verus!
