//! The build task of the workspace: which guest crates are built to wasm
//! components, in which order, and where their files go.
use vstd::prelude::*;
use crate::paths::{join, join_path};
use crate::text::{push_signed_decimal, same_text, signed_decimal};

verus! {

/// A guest crate: the directory it lives in, the name it is reported under,
/// and the name of the package (and wasm file) that is built for it.
#[derive(Debug)]
pub struct Guest {
    pub path: String,
    pub name: String,
    pub name_output: String,
}

/// The plain value of a guest: path, name and output name.
pub type GuestView = (Seq<char>, Seq<char>, Seq<char>);

impl View for Guest {
    type V = GuestView;

    open spec fn view(&self) -> GuestView {
        (self.path@, self.name@, self.name_output@)
    }
}

impl Guest {
    /// A guest whose output name is `name_output`, or its own name when
    /// there is none.
    pub fn new(path: String, name: &str, name_output: Option<&str>) -> (r: Guest)
        ensures
            r.path@ == path@,
            r.name@ == name@,
            r.name_output@ == match name_output {
                Some(o) => o@,
                None => name@,
            },
    {
        let name_output = match name_output {
            Some(o) => o.to_string(),
            None => name.to_string(),
        };
        let name = name.to_string();
        Guest { path, name, name_output }
    }
}

/// The package that is built for a guest directory whose name differs from
/// its package's.
pub open spec fn output_alias(name: Seq<char>) -> Option<Seq<char>> {
    if name == "js_function"@ {
        Some("mycelia_guest_function"@)
    } else {
        None
    }
}

/// The package built for the guest directory `name`, where it differs.
pub fn output_name_for(name: &str) -> (r: Option<String>)
    ensures
        match output_alias(name@) {
            Some(o) => r matches Some(s) && s@ == o,
            None => r is None,
        },
{
    if same_text(name, "js_function") {
        Some(String::from_str("mycelia_guest_function"))
    } else {
        None
    }
}

/// The build priority of a guest: guests are built by rising priority, and
/// `mycelia_guest_function`, which needs the others, comes last.
pub open spec fn guest_priority(name: Seq<char>) -> nat {
    if name == "mycelia_guest_function"@ {
        1
    } else {
        0
    }
}

/// The position of `name` in the priority list `["*",
/// "mycelia_guest_function"]`, or 0 where it is not listed.
pub fn priority_of(name: &str) -> (r: usize)
    ensures
        r == guest_priority(name@),
{
    proof {
        reveal_strlit("*");
        reveal_strlit("mycelia_guest_function");
        assert("*"@.len() == 1);
        assert("mycelia_guest_function"@.len() == 22);
        assert("*"@ != "mycelia_guest_function"@);
    }
    if same_text(name, "*") {
        0
    } else if same_text(name, "mycelia_guest_function") {
        1
    } else {
        0
    }
}

/// An entry of the guests directory: its path, its file name and whether it
/// is a directory.
#[derive(Debug)]
pub struct GuestEntry {
    pub path: String,
    pub name: String,
    pub is_dir: bool,
}

/// The plain value of a directory entry.
pub type EntryView = (Seq<char>, Seq<char>, bool);

/// The plain values of some entries.
pub open spec fn entry_views(entries: Seq<GuestEntry>) -> Seq<EntryView> {
    entries.map_values(|e: GuestEntry| (e.path@, e.name@, e.is_dir))
}

/// The plain values of some guests.
pub open spec fn guest_views(guests: Seq<Guest>) -> Seq<GuestView> {
    guests.map_values(|g: Guest| g@)
}

/// The guest that a directory entry stands for.
pub open spec fn entry_guest(e: EntryView) -> GuestView {
    (
        e.0,
        e.1,
        match output_alias(e.1) {
            Some(o) => o,
            None => e.1,
        },
    )
}

/// The guests that the directory entries stand for: one per directory, in
/// the order in which they were listed.
pub open spec fn listed_guests(entries: Seq<EntryView>) -> Seq<GuestView> {
    entries.filter(|e: EntryView| e.2).map_values(|e: EntryView| entry_guest(e))
}

/// The build order: guests of a lower priority first, each priority in the
/// order of the listing (a stable sort by priority).
pub open spec fn build_order(guests: Seq<GuestView>) -> Seq<GuestView> {
    guests.filter(|g: GuestView| guest_priority(g.1) == 0) + guests.filter(
        |g: GuestView| guest_priority(g.1) == 1,
    )
}

/// The guests to build, in build order, from the entries of the guests
/// directory.
pub fn guests(entries: Vec<GuestEntry>) -> (r: Vec<Guest>)
    ensures
        guest_views(r@) == build_order(listed_guests(entry_views(entries@))),
{
    let ghost ev = entry_views(entries@);
    let ghost is_dir = |e: EntryView| e.2;
    let ghost to_guest = |e: EntryView| entry_guest(e);
    let mut listed: Vec<Guest> = Vec::new();
    let mut i: usize = 0;
    while i < entries.len()
        invariant
            i <= entries@.len(),
            ev == entry_views(entries@),
            is_dir == (|e: EntryView| e.2),
            to_guest == (|e: EntryView| entry_guest(e)),
            guest_views(listed@) == ev.take(i as int).filter(is_dir).map_values(to_guest),
        decreases entries@.len() - i,
    {
        proof {
            reveal_with_fuel(Seq::filter, 1);
        }
        let e = &entries[i];
        assert(ev.take(i + 1).drop_last() =~= ev.take(i as int));
        assert(ev[i as int] == (e.path@, e.name@, e.is_dir));
        if e.is_dir {
            let alias = output_name_for(e.name.as_str());
            let g = match &alias {
                Some(o) => Guest::new(e.path.clone(), e.name.as_str(), Some(o.as_str())),
                None => Guest::new(e.path.clone(), e.name.as_str(), None),
            };
            assert(g@ == entry_guest(ev[i as int]));
            let ghost before = listed@;
            listed.push(g);
            assert(ev.take(i + 1).filter(is_dir) == ev.take(i as int).filter(is_dir).push(ev[i as int]));
            assert(guest_views(listed@) =~= guest_views(before).push(g@));
            assert(ev.take(i + 1).filter(is_dir).map_values(to_guest) =~= ev.take(i as int).filter(is_dir).map_values(to_guest).push(to_guest(ev[i as int])));
            assert(guest_views(listed@) =~= ev.take(i + 1).filter(is_dir).map_values(to_guest));
        } else {
            assert(guest_views(listed@) =~= ev.take(i + 1).filter(is_dir).map_values(to_guest));
        }
        i = i + 1;
    }
    assert(ev.take(i as int) =~= ev);
    let ghost gv = guest_views(listed@);
    let ghost low = |g: GuestView| guest_priority(g.1) == 0;
    let ghost high = |g: GuestView| guest_priority(g.1) == 1;
    let mut first: Vec<Guest> = Vec::new();
    let mut last: Vec<Guest> = Vec::new();
    let mut k: usize = 0;
    while k < listed.len()
        invariant
            k <= listed@.len(),
            gv == guest_views(listed@),
            low == (|g: GuestView| guest_priority(g.1) == 0),
            high == (|g: GuestView| guest_priority(g.1) == 1),
            guest_views(first@) == gv.take(k as int).filter(low),
            guest_views(last@) == gv.take(k as int).filter(high),
        decreases listed@.len() - k,
    {
        proof {
            reveal_with_fuel(Seq::filter, 1);
        }
        let g = listed[k].duplicate();
        assert(gv.take(k + 1).drop_last() =~= gv.take(k as int));
        assert(gv[k as int] == g@);
        if priority_of(g.name.as_str()) == 0 {
            first.push(g);
        } else {
            last.push(g);
        }
        assert(guest_views(first@) =~= gv.take(k + 1).filter(low));
        assert(guest_views(last@) =~= gv.take(k + 1).filter(high));
        k = k + 1;
    }
    assert(gv.take(k as int) =~= gv);
    let ghost first_view = first@;
    let ghost last_view = last@;
    first.append(&mut last);
    assert(guest_views(first@) =~= guest_views(first_view) + guest_views(last_view));
    first
}

impl Guest {
    /// A copy of this guest.
    pub fn duplicate(&self) -> (r: Guest)
        ensures
            r@ == self@,
    {
        Guest { path: self.path.clone(), name: self.name.clone(), name_output: self.name_output.clone() }
    }
}

/// The target directory of the workspace at `root`.
pub fn dir_target(root: &str) -> (r: String)
    ensures
        r@ == join_path(root@, "target"@),
{
    join(root, "target")
}

/// The directory that the built components are written to.
pub fn dir_components(root: &str) -> (r: String)
    ensures
        r@ == join_path(root@, "components"@),
{
    join(root, "components")
}

/// The directory that holds the guest crates.
pub fn dir_guests(root: &str) -> (r: String)
    ensures
        r@ == join_path(root@, "guests"@),
{
    join(root, "guests")
}

/// The argument that picks the package of a guest for `cargo build`.
pub open spec fn package_arg_text(guest: GuestView) -> Seq<char> {
    "--package="@ + guest.2
}

/// The arguments of `cargo` that build the wasm module of a guest:
/// `build --target=wasm32-wasi --release --package=<name_output>`.
pub fn wasm_build_args(guest: &Guest) -> (r: Vec<String>)
    ensures
        r@.len() == 4,
        r@[0]@ == "build"@,
        r@[1]@ == "--target=wasm32-wasi"@,
        r@[2]@ == "--release"@,
        r@[3]@ == package_arg_text(guest@),
{
    let mut package = String::from_str("--package=");
    package.append(guest.name_output.as_str());
    let mut r: Vec<String> = Vec::new();
    r.push(String::from_str("build"));
    r.push(String::from_str("--target=wasm32-wasi"));
    r.push(String::from_str("--release"));
    r.push(package);
    r
}

/// The files and arguments with which `wasm-tools component new` turns the
/// wasm module of a guest into a component.
#[derive(Debug)]
pub struct ComponentBuild {
    /// The wasm module built for the guest.
    pub wasm_guest: String,
    /// The adapter module.
    pub wasi_snapshot: String,
    /// `--adapt=<wasi_snapshot>`.
    pub adapt_arg: String,
    /// `-o=<components directory>/<name>-component.wasm`.
    pub output_arg: String,
}

/// Where the wasm module of a guest is built, in the workspace at `root`.
pub open spec fn wasm_guest_path(root: Seq<char>, guest: GuestView) -> Seq<char> {
    join_path(join_path(root, "target"@), "wasm32-wasi/release/"@ + guest.2 + ".wasm"@)
}

/// Plans the component build of `guest` in the workspace at `root`.
pub fn component_build(root: &str, guest: &Guest) -> (r: ComponentBuild)
    ensures
        r.wasm_guest@ == wasm_guest_path(root@, guest@),
        r.wasi_snapshot@ == join_path(root@, "wasi_snapshot_preview1.reactor.wasm.dev"@),
        r.adapt_arg@ == "--adapt="@ + r.wasi_snapshot@,
        r.output_arg@ == "-o="@ + join_path(root@, "components"@) + "/"@ + guest.name@
            + "-component.wasm"@,
{
    let mut module = String::from_str("wasm32-wasi/release/");
    module.append(guest.name_output.as_str());
    module.append(".wasm");
    let target = dir_target(root);
    let wasm_guest = join(target.as_str(), module.as_str());
    let wasi_snapshot = join(root, "wasi_snapshot_preview1.reactor.wasm.dev");
    let mut adapt_arg = String::from_str("--adapt=");
    adapt_arg.append(wasi_snapshot.as_str());
    let components = dir_components(root);
    let mut output_arg = String::from_str("-o=");
    output_arg.append(components.as_str());
    output_arg.append("/");
    output_arg.append(guest.name.as_str());
    output_arg.append("-component.wasm");
    ComponentBuild { wasm_guest, wasi_snapshot, adapt_arg, output_arg }
}

/// The tasks of the build tool.
#[derive(Debug)]
pub enum XtaskTask {
    /// Build all guests and the workspace.
    Build,
    /// Print the list of tasks.
    Help,
}

/// The task named by the first argument of the build tool: `build` builds,
/// anything else prints the help.
pub fn task_for(arg: Option<&str>) -> (r: XtaskTask)
    ensures
        r is Build <==> (arg matches Some(a) && a@ == "build"@),
{
    match arg {
        Some(a) => if same_text(a, "build") {
            XtaskTask::Build
        } else {
            XtaskTask::Help
        },
        None => XtaskTask::Help,
    }
}

/// The list of tasks that the build tool prints when no known task is
/// named.
pub open spec fn help_text() -> Seq<char> {
    "Tasks:\n\nwasm            build wasm using wasm32-wasi target\ncomponents      build components using wasm-tools\n"@
}

/// The list of tasks of the build tool.
pub fn print_help() -> (r: String)
    ensures
        r@ == help_text(),
{
    String::from_str(
        "Tasks:\n\nwasm            build wasm using wasm32-wasi target\ncomponents      build components using wasm-tools\n",
    )
}

/// The error of a failed `cargo build --workspace` that exited with `code`.
pub fn workspace_build_failure(code: i32) -> (r: String)
    ensures
        r@ == "`cargo build --workspace` failed.\n\nStatus code: "@ + signed_decimal(code as int),
{
    let mut s = String::from_str("`cargo build --workspace` failed.\n\nStatus code: ");
    push_signed_decimal(&mut s, code);
    s
}

/// The error of a failed wasm build of `guest` that exited with `code`.
pub fn wasm_build_failure(guest: &Guest, code: i32) -> (r: String)
    ensures
        r@ == "Build wasm '"@ + guest.name@ + "' failed.\n\nCommand: `cargo build --target wasm32-wasi --release --package "@
            + guest.name@ + "`\nGuest path: '"@ + guest.path@ + "'\nStatus code: "@ + signed_decimal(
            code as int,
        ),
{
    let mut s = String::from_str("Build wasm '");
    s.append(guest.name.as_str());
    s.append("' failed.\n\nCommand: `cargo build --target wasm32-wasi --release --package ");
    s.append(guest.name.as_str());
    s.append("`\nGuest path: '");
    s.append(guest.path.as_str());
    s.append("'\nStatus code: ");
    push_signed_decimal(&mut s, code);
    s
}

/// Why a component build of `guest` cannot start.
#[derive(Debug)]
pub enum MissingInput {
    /// The wasm module of the guest was not built.
    WasmGuest,
    /// The adapter module is missing.
    WasiSnapshot,
    /// The components directory is missing.
    ComponentsDir,
}

/// Checks the inputs of a component build, in this order: the wasm module
/// of the guest, the adapter module, the components directory. The first
/// one that does not exist stops the build before `wasm-tools` runs.
pub fn missing_input(wasm_guest_exists: bool, wasi_snapshot_exists: bool, components_dir_exists: bool) -> (r: Result<(), MissingInput>)
    ensures
        !wasm_guest_exists ==> r matches Err(MissingInput::WasmGuest),
        wasm_guest_exists && !wasi_snapshot_exists ==> r matches Err(MissingInput::WasiSnapshot),
        wasm_guest_exists && wasi_snapshot_exists && !components_dir_exists ==> r matches Err(
            MissingInput::ComponentsDir,
        ),
        r is Ok <==> (wasm_guest_exists && wasi_snapshot_exists && components_dir_exists),
{
    if !wasm_guest_exists {
        Err(MissingInput::WasmGuest)
    } else if !wasi_snapshot_exists {
        Err(MissingInput::WasiSnapshot)
    } else if !components_dir_exists {
        Err(MissingInput::ComponentsDir)
    } else {
        Ok(())
    }
}

/// The error of a component build of `guest` in the workspace at `root`
/// that cannot start because `missing` does not exist.
pub fn missing_input_failure(root: &str, guest: &Guest, missing: MissingInput) -> (r: String)
    ensures
        match missing {
            MissingInput::WasmGuest => r@ == "wasm guest file '"@ + wasm_guest_path(root@, guest@)
                + "' for '"@ + guest.name@ + "' does not exist"@,
            MissingInput::WasiSnapshot => r@ == "wasi snapshot file '"@ + join_path(
                root@,
                "wasi_snapshot_preview1.reactor.wasm.dev"@,
            ) + "' for '"@ + guest.name@ + "' does not exist"@,
            MissingInput::ComponentsDir => r@ == "component output directory '"@ + join_path(
                root@,
                "components"@,
            ) + "' for '"@ + guest.name@ + "' does not exist"@,
        },
{
    let plan = component_build(root, guest);
    let mut s = match missing {
        MissingInput::WasmGuest => {
            let mut s = String::from_str("wasm guest file '");
            s.append(plan.wasm_guest.as_str());
            s
        },
        MissingInput::WasiSnapshot => {
            let mut s = String::from_str("wasi snapshot file '");
            s.append(plan.wasi_snapshot.as_str());
            s
        },
        MissingInput::ComponentsDir => {
            let mut s = String::from_str("component output directory '");
            let dir = dir_components(root);
            s.append(dir.as_str());
            s
        },
    };
    s.append("' for '");
    s.append(guest.name.as_str());
    s.append("' does not exist");
    s
}

/// The error of a failed component build of `guest` in the workspace at
/// `root` that exited with `code`.
pub fn component_build_failure(root: &str, guest: &Guest, code: i32) -> (r: String)
    ensures
        r@ == "Build component '"@ + guest.name@ + "' failed.\n\nCommand: `wasm-tools component new "@
            + wasm_guest_path(root@, guest@) + " --adapt "@ + join_path(
            root@,
            "wasi_snapshot_preview1.reactor.wasm.dev"@,
        ) + " -o "@ + join_path(root@, "components"@) + "`\nGuest path: '"@ + guest.path@
            + "'\nStatus code: "@ + signed_decimal(code as int),
{
    let plan = component_build(root, guest);
    let dir = dir_components(root);
    let mut s = String::from_str("Build component '");
    s.append(guest.name.as_str());
    s.append("' failed.\n\nCommand: `wasm-tools component new ");
    s.append(plan.wasm_guest.as_str());
    s.append(" --adapt ");
    s.append(plan.wasi_snapshot.as_str());
    s.append(" -o ");
    s.append(dir.as_str());
    s.append("`\nGuest path: '");
    s.append(guest.path.as_str());
    s.append("'\nStatus code: ");
    push_signed_decimal(&mut s, code);
    s
}

/// Reads the exit code of `cargo build --workspace`: success exactly for 0.
pub fn workspace_build_outcome(code: i32) -> (r: Result<(), String>)
    ensures
        code == 0 ==> r is Ok,
        code != 0 ==> (r matches Err(m) && m@ == "`cargo build --workspace` failed.\n\nStatus code: "@
            + signed_decimal(code as int)),
{
    if code == 0 {
        Ok(())
    } else {
        Err(workspace_build_failure(code))
    }
}

/// Reads the exit code of the wasm build of `guest`: success exactly for 0.
pub fn wasm_build_outcome(guest: &Guest, code: i32) -> (r: Result<(), String>)
    ensures
        code == 0 ==> r is Ok,
        code != 0 ==> (r matches Err(m) && m@ == "Build wasm '"@ + guest.name@
            + "' failed.\n\nCommand: `cargo build --target wasm32-wasi --release --package "@ + guest.name@
            + "`\nGuest path: '"@ + guest.path@ + "'\nStatus code: "@ + signed_decimal(code as int)),
{
    if code == 0 {
        Ok(())
    } else {
        Err(wasm_build_failure(guest, code))
    }
}

/// Reads the exit code of `wasm-tools component new` for `guest` in the
/// workspace at `root`: success exactly for 0.
pub fn component_build_outcome(root: &str, guest: &Guest, code: i32) -> (r: Result<(), String>)
    ensures
        code == 0 ==> r is Ok,
        code != 0 ==> (r matches Err(m) && m@ == "Build component '"@ + guest.name@
            + "' failed.\n\nCommand: `wasm-tools component new "@ + wasm_guest_path(root@, guest@)
            + " --adapt "@ + join_path(root@, "wasi_snapshot_preview1.reactor.wasm.dev"@) + " -o "@
            + join_path(root@, "components"@) + "`\nGuest path: '"@ + guest.path@ + "'\nStatus code: "@
            + signed_decimal(code as int)),
{
    if code == 0 {
        Ok(())
    } else {
        Err(component_build_failure(root, guest, code))
    }
}

/// The error of the command-line `build` when `cargo xtask build` exited
/// with `code`.
pub fn xtask_build_failure(code: i32) -> (r: String)
    ensures
        r@ == "`cargo xtask build` failed.\n\nStatus code: "@ + signed_decimal(code as int),
{
    let mut s = String::from_str("`cargo xtask build` failed.\n\nStatus code: ");
    push_signed_decimal(&mut s, code);
    s
}

} // verus!
