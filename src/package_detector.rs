//! The closed set of supported package managers and the lockfile scan.
use vstd::prelude::*;
use crate::manifest::declaration;
use crate::script_handler::{
    declaration_value, declared_manager, read_package_manager_from_package_json, text_view,
};
use crate::text::{is_first_at, name_part};
use crate::text::str_eq;

verus! {

/// A supported package manager.
#[derive(Clone, Copy, Debug, PartialEq, Eq, Structural)]
pub enum PackageManager {
    Npm,
    Yarn,
    Pnpm,
}

/// The supported managers, in the order used for display and for the lockfile scan.
pub open spec fn registry() -> Seq<PackageManager> {
    seq![PackageManager::Npm, PackageManager::Yarn, PackageManager::Pnpm]
}

/// The canonical name of a manager, which is also the name of its executable.
pub open spec fn manager_name(m: PackageManager) -> Seq<char> {
    match m {
        PackageManager::Npm => "npm"@,
        PackageManager::Yarn => "yarn"@,
        PackageManager::Pnpm => "pnpm"@,
    }
}

/// The lockfile whose presence implies that a manager is used.
pub open spec fn lockfile_name(m: PackageManager) -> Seq<char> {
    match m {
        PackageManager::Npm => "package-lock.json"@,
        PackageManager::Yarn => "yarn.lock"@,
        PackageManager::Pnpm => "pnpm-lock.yaml"@,
    }
}

/// The manager whose canonical name is exactly `name`.
pub open spec fn manager_named(name: Seq<char>) -> Option<PackageManager> {
    if name == "npm"@ {
        Some(PackageManager::Npm)
    } else if name == "yarn"@ {
        Some(PackageManager::Yarn)
    } else if name == "pnpm"@ {
        Some(PackageManager::Pnpm)
    } else {
        None
    }
}

/// The manager whose lockfile is exactly `file`.
pub open spec fn manager_of_lockfile(file: Seq<char>) -> Option<PackageManager> {
    if file == "package-lock.json"@ {
        Some(PackageManager::Npm)
    } else if file == "yarn.lock"@ {
        Some(PackageManager::Yarn)
    } else if file == "pnpm-lock.yaml"@ {
        Some(PackageManager::Pnpm)
    } else {
        None
    }
}

/// The names of a list of files.
pub open spec fn file_names(files: Seq<String>) -> Seq<Seq<char>> {
    files.map_values(|f: String| f@)
}

/// `seq![m]` where the lockfile of `m` is among `files`, else the empty sequence.
pub open spec fn evidence_of(m: PackageManager, files: Seq<Seq<char>>) -> Seq<PackageManager> {
    if files.contains(lockfile_name(m)) {
        seq![m]
    } else {
        seq![]
    }
}

/// The managers whose lockfile is among `files`, in registry order.
pub open spec fn lockfile_evidence(files: Seq<Seq<char>>) -> Seq<PackageManager> {
    evidence_of(PackageManager::Npm, files) + evidence_of(PackageManager::Yarn, files)
        + evidence_of(PackageManager::Pnpm, files)
}

/// What detection yields: the declared manager alone where there is one, else
/// the lockfile evidence.
pub open spec fn detection(declared: Option<PackageManager>, files: Seq<Seq<char>>) -> Seq<
    PackageManager,
> {
    match declared {
        Some(m) => seq![m],
        None => lockfile_evidence(files),
    }
}

/// The position of a manager in the registry.
pub open spec fn registry_index(m: PackageManager) -> int {
    match m {
        PackageManager::Npm => 0,
        PackageManager::Yarn => 1,
        PackageManager::Pnpm => 2,
    }
}

/// Distinct managers have distinct names and distinct lockfiles.
pub proof fn lemma_names_distinct()
    ensures
        forall|a: PackageManager, b: PackageManager|
            a != b ==> #[trigger] manager_name(a) != #[trigger] manager_name(b),
        forall|a: PackageManager, b: PackageManager|
            a != b ==> #[trigger] lockfile_name(a) != #[trigger] lockfile_name(b),
        forall|m: PackageManager| manager_named(#[trigger] manager_name(m)) == Some(m),
        forall|m: PackageManager| manager_of_lockfile(#[trigger] lockfile_name(m)) == Some(m),
{
    reveal_strlit("npm");
    reveal_strlit("yarn");
    reveal_strlit("pnpm");
    reveal_strlit("package-lock.json");
    reveal_strlit("yarn.lock");
    reveal_strlit("pnpm-lock.yaml");
    assert("npm"@.len() != "yarn"@.len());
    assert("npm"@.len() != "pnpm"@.len());
    assert("yarn"@[0] != "pnpm"@[0]);
    assert("package-lock.json"@.len() != "yarn.lock"@.len());
    assert("package-lock.json"@.len() != "pnpm-lock.yaml"@.len());
    assert("yarn.lock"@.len() != "pnpm-lock.yaml"@.len());
}

impl PackageManager {
    /// The canonical name of this manager.
    pub fn as_str(&self) -> (r: &'static str)
        ensures
            r@ == manager_name(*self),
    {
        match self {
            PackageManager::Npm => "npm",
            PackageManager::Yarn => "yarn",
            PackageManager::Pnpm => "pnpm",
        }
    }

    /// The lockfile whose presence implies this manager.
    pub fn lockfile(&self) -> (r: &'static str)
        ensures
            r@ == lockfile_name(*self),
    {
        match self {
            PackageManager::Npm => "package-lock.json",
            PackageManager::Yarn => "yarn.lock",
            PackageManager::Pnpm => "pnpm-lock.yaml",
        }
    }

    /// The manager whose canonical name is exactly `name`.
    pub fn from_name(name: &str) -> (r: Option<PackageManager>)
        ensures
            r == manager_named(name@),
    {
        if str_eq(name, "npm") {
            Some(PackageManager::Npm)
        } else if str_eq(name, "yarn") {
            Some(PackageManager::Yarn)
        } else if str_eq(name, "pnpm") {
            Some(PackageManager::Pnpm)
        } else {
            None
        }
    }

    /// The manager whose lockfile is exactly `file`.
    pub fn from_lockfile(file: &str) -> (r: Option<PackageManager>)
        ensures
            r == manager_of_lockfile(file@),
    {
        if str_eq(file, "package-lock.json") {
            Some(PackageManager::Npm)
        } else if str_eq(file, "yarn.lock") {
            Some(PackageManager::Yarn)
        } else if str_eq(file, "pnpm-lock.yaml") {
            Some(PackageManager::Pnpm)
        } else {
            None
        }
    }
}

/// All supported managers, in registry order.
pub fn all_package_managers() -> (r: Vec<PackageManager>)
    ensures
        r@ == registry(),
{
    let r = vec![PackageManager::Npm, PackageManager::Yarn, PackageManager::Pnpm];
    assert(r@ =~= registry());
    r
}

/// Whether a file named `name` is among `files`.
pub fn contains_file(files: &Vec<String>, name: &str) -> (r: bool)
    ensures
        r == file_names(files@).contains(name@),
{
    let mut i: usize = 0;
    while i < files.len()
        invariant
            i <= files@.len(),
            forall|j: int| 0 <= j < i ==> files@[j]@ != name@,
        decreases files@.len() - i,
    {
        if str_eq(files[i].as_str(), name) {
            assert(file_names(files@)[i as int] == name@);
            return true;
        }
        i = i + 1;
    }
    assert(!file_names(files@).contains(name@)) by {
        if file_names(files@).contains(name@) {
            let k = choose|k: int| 0 <= k < file_names(files@).len() && file_names(files@)[k] == name@;
            assert(files@[k]@ == name@);
        }
    }
    false
}

/// Detection once the manifest's declaration is known: the declared manager
/// alone where there is one; else each manager whose lockfile is among
/// `files`, in registry order.
pub fn detect_with_declaration(declared: Option<PackageManager>, files: &Vec<String>) -> (r: Vec<
    PackageManager,
>)
    ensures
        r@ == detection(declared, file_names(files@)),
{
    let mut managers: Vec<PackageManager> = Vec::new();
    if let Some(m) = declared {
        managers.push(m);
        assert(managers@ =~= seq![m]);
        return managers;
    }
    let ghost names = file_names(files@);
    let all = all_package_managers();
    let mut i: usize = 0;
    while i < all.len()
        invariant
            all@ == registry(),
            i <= 3,
            names == file_names(files@),
            managers@ == (if i == 0 {
                seq![]
            } else if i == 1 {
                evidence_of(PackageManager::Npm, names)
            } else if i == 2 {
                evidence_of(PackageManager::Npm, names) + evidence_of(PackageManager::Yarn, names)
            } else {
                lockfile_evidence(names)
            }),
        decreases 3 - i,
    {
        let m = all[i];
        let ghost before = managers@;
        if contains_file(files, m.lockfile()) {
            managers.push(m);
        }
        assert(managers@ =~= before + evidence_of(m, names));
        i = i + 1;
    }
    managers
}

/// The managers that a project uses. `manifest` is the text of its manifest
/// (`None` where it has none), `files` the names of the lockfiles present.
/// A manifest that declares a supported manager decides alone; otherwise each
/// manager whose lockfile is present is listed, in registry order.
pub fn detect_package_manager(manifest: Option<&str>, files: &Vec<String>) -> (r: Vec<
    PackageManager,
>)
    ensures
        r@ == detection(declared_manager(text_view(manifest)), file_names(files@)),
{
    let declared = read_package_manager_from_package_json(manifest);
    detect_with_declaration(declared, files)
}

/// The manager name of a value written for `m`, with or without a version,
/// is the name of `m`.
pub proof fn lemma_name_of_declaration_value(m: PackageManager, version: Option<Seq<char>>)
    ensures
        name_part(declaration_value(m, version)) == manager_name(m),
        manager_named(name_part(declaration_value(m, version))) == Some(m),
{
    reveal_strlit("npm");
    reveal_strlit("yarn");
    reveal_strlit("pnpm");
    reveal_strlit("@");
    lemma_names_distinct();
    let n = manager_name(m);
    let d = declaration_value(m, version);
    assert(forall|j: int| 0 <= j < n.len() ==> n[j] != '@');
    match version {
        Some(v) => {
            assert(d.take(n.len() as int) =~= n);
            assert(is_first_at(d, n.len() as int));
            let k = choose|k: int| is_first_at(d, k);
            assert(k == n.len()) by {
                if k < n.len() {
                    assert(d[k] == n[k]);
                }
                if k > n.len() {
                    assert(d[n.len() as int] == '@');
                }
            }
        },
        None => {
            assert(!exists|k: int| is_first_at(d, k));
        },
    }
}

/// A project whose manifest declares no supported manager and that holds
/// exactly one lockfile is detected as using that lockfile's manager alone.
pub proof fn lemma_single_lockfile_detected(
    manifest: Option<Seq<char>>,
    files: Seq<Seq<char>>,
    m: PackageManager,
)
    requires
        declared_manager(manifest) is None,
        files.contains(lockfile_name(m)),
        forall|o: PackageManager| o != m ==> !files.contains(#[trigger] lockfile_name(o)),
    ensures
        detection(declared_manager(manifest), files) == seq![m],
{
    match m {
        PackageManager::Npm => {
            assert(!files.contains(lockfile_name(PackageManager::Yarn)));
            assert(!files.contains(lockfile_name(PackageManager::Pnpm)));
        },
        PackageManager::Yarn => {
            assert(!files.contains(lockfile_name(PackageManager::Npm)));
            assert(!files.contains(lockfile_name(PackageManager::Pnpm)));
        },
        PackageManager::Pnpm => {
            assert(!files.contains(lockfile_name(PackageManager::Npm)));
            assert(!files.contains(lockfile_name(PackageManager::Yarn)));
        },
    }
    assert(lockfile_evidence(files) =~= seq![m]);
}

/// A manifest that declares a supported manager, with or without a version
/// suffix, decides detection alone, whatever lockfiles are present.
pub proof fn lemma_declaration_decides(
    text: Seq<char>,
    files: Seq<Seq<char>>,
    m: PackageManager,
    version: Option<Seq<char>>,
)
    requires
        declaration(text) == Some(declaration_value(m, version)),
    ensures
        detection(declared_manager(Some(text)), files) == seq![m],
{
    lemma_name_of_declaration_value(m, version);
}

/// A manifest whose declaration names no supported manager is ignored:
/// detection falls back to the lockfiles, as if there were no manifest.
pub proof fn lemma_unknown_declaration_ignored(text: Seq<char>, files: Seq<Seq<char>>)
    requires
        declaration(text) is Some,
        manager_named(name_part(declaration(text)->0)) is None,
    ensures
        detection(declared_manager(Some(text)), files) == lockfile_evidence(files),
        detection(declared_manager(Some(text)), files) == detection(declared_manager(None), files),
{
}

/// Without a manifest, detection lists every manager whose lockfile is
/// present and no other, each once, in registry order; where two or more
/// lockfiles are present it lists several managers, so nothing is picked
/// without asking.
pub proof fn lemma_lockfiles_in_registry_order(files: Seq<Seq<char>>)
    ensures
        forall|m: PackageManager|
            detection(declared_manager(None), files).contains(m) <==> files.contains(
                #[trigger] lockfile_name(m),
            ),
        forall|i: int, j: int|
            0 <= i < j < detection(declared_manager(None), files).len() ==> registry_index(
                #[trigger] detection(declared_manager(None), files)[i],
            ) < registry_index(#[trigger] detection(declared_manager(None), files)[j]),
        forall|a: PackageManager, b: PackageManager|
            a != b && files.contains(#[trigger] lockfile_name(a)) && files.contains(
                #[trigger] lockfile_name(b),
            ) ==> detection(declared_manager(None), files).len() > 1,
{
    let r = detection(declared_manager(None), files);
    let e1 = evidence_of(PackageManager::Npm, files);
    let e2 = evidence_of(PackageManager::Yarn, files);
    let e3 = evidence_of(PackageManager::Pnpm, files);
    assert(r == e1 + e2 + e3);
    assert forall|m: PackageManager| r.contains(m) <==> files.contains(
        #[trigger] lockfile_name(m),
    ) by {
        if files.contains(lockfile_name(m)) {
            match m {
                PackageManager::Npm => assert(r[0] == m),
                PackageManager::Yarn => assert(r[e1.len() as int] == m),
                PackageManager::Pnpm => assert(r[(e1.len() + e2.len()) as int] == m),
            }
        }
        if r.contains(m) {
            let k = choose|k: int| 0 <= k < r.len() && r[k] == m;
            if k < e1.len() {
                assert(e1[k] == m);
            } else if k < e1.len() + e2.len() {
                assert(e2[k - e1.len()] == m);
            } else {
                assert(e3[k - e1.len() - e2.len()] == m);
            }
        }
    }
}

/// A project with neither a manifest nor any lockfile is detected as using
/// no manager.
pub proof fn lemma_no_evidence_detects_nothing(files: Seq<Seq<char>>)
    requires
        forall|m: PackageManager| !files.contains(#[trigger] lockfile_name(m)),
    ensures
        detection(declared_manager(None), files) == Seq::<PackageManager>::empty(),
{
    assert(!files.contains(lockfile_name(PackageManager::Npm)));
    assert(!files.contains(lockfile_name(PackageManager::Yarn)));
    assert(!files.contains(lockfile_name(PackageManager::Pnpm)));
    assert(detection(declared_manager(None), files) =~= Seq::<PackageManager>::empty());
}

} // verus!
