//! The registry of supported package managers, as descriptors.
use vstd::prelude::*;
use crate::package_detector::{
    lemma_names_distinct, lockfile_name, manager_name, manager_named, manager_of_lockfile, registry, PackageManager,
};
use crate::text::str_eq;

verus! {

/// A supported package manager: its canonical name and the lockfiles that
/// imply its use.
#[derive(Clone, Copy, Debug)]
pub struct PackageManagerInfo {
    pub name: &'static str,
    lockfiles: &'static [&'static str],
}

impl PackageManagerInfo {
    /// The canonical name of this manager.
    pub closed spec fn name_view(self) -> Seq<char> {
        self.name@
    }

    /// The canonical name of this manager.
    pub fn name(&self) -> (r: &'static str)
        ensures
            r@ == self.name_view(),
    {
        self.name
    }

    /// The names of the lockfiles of this manager.
    pub closed spec fn lockfile_names(self) -> Seq<Seq<char>> {
        names_of(self.lockfiles@)
    }

    /// The lockfiles that imply this manager.
    pub fn lockfiles(&self) -> (r: &'static [&'static str])
        ensures
            names_of(r@) == self.lockfile_names(),
    {
        self.lockfiles
    }
}

/// The characters of each of a list of names.
pub open spec fn names_of(s: Seq<&str>) -> Seq<Seq<char>> {
    s.map_values(|f: &str| f@)
}

/// `info` is the descriptor of `m`.
pub open spec fn describes(info: PackageManagerInfo, m: PackageManager) -> bool {
    &&& info.name_view() == manager_name(m)
    &&& info.lockfile_names() == seq![lockfile_name(m)]
}

/// The descriptor of `m`.
pub fn info_of(m: PackageManager) -> (r: PackageManagerInfo)
    ensures
        describes(r, m),
{
    let r = match m {
        PackageManager::Npm => PackageManagerInfo { name: "npm", lockfiles: &["package-lock.json"] },
        PackageManager::Yarn => PackageManagerInfo { name: "yarn", lockfiles: &["yarn.lock"] },
        PackageManager::Pnpm => PackageManagerInfo { name: "pnpm", lockfiles: &["pnpm-lock.yaml"] },
    };
    assert(r.lockfile_names() =~= seq![lockfile_name(m)]);
    r
}

/// The descriptors of all supported managers, in registry order.
pub fn package_managers() -> (r: Vec<PackageManagerInfo>)
    ensures
        r@.len() == registry().len(),
        forall|i: int| 0 <= i < r@.len() ==> describes(#[trigger] r@[i], registry()[i]),
{
    vec![info_of(PackageManager::Npm), info_of(PackageManager::Yarn), info_of(PackageManager::Pnpm)]
}

/// The descriptor of the manager that `file` is a lockfile of.
pub fn get_from_lockfile(file: &str) -> (r: Option<PackageManagerInfo>)
    ensures
        match manager_of_lockfile(file@) {
            Some(m) => r is Some && describes(r->0, m),
            None => r is None,
        },
{
    let table = package_managers();
    let mut i: usize = 0;
    while i < table.len()
        invariant
            table@.len() == 3,
            forall|k: int| 0 <= k < 3 ==> describes(#[trigger] table@[k], registry()[k]),
            i <= 3,
            forall|k: int| 0 <= k < i ==> lockfile_name(registry()[k]) != file@,
        decreases 3 - i,
    {
        let pm = table[i];
        let locks = pm.lockfiles();
        let mut j: usize = 0;
        while j < locks.len()
            invariant
                i < 3,
                table@.len() == 3,
                describes(pm, registry()[i as int]),
                names_of(locks@) == seq![lockfile_name(registry()[i as int])],
                j <= locks@.len(),
                forall|k: int| 0 <= k < j ==> locks@[k]@ != file@,
            decreases locks@.len() - j,
        {
            if str_eq(locks[j], file) {
                assert(names_of(locks@)[j as int] == file@);
                proof {
                    lemma_names_distinct();
                    assert(names_of(locks@).len() == locks@.len());
                    assert(j == 0);
                    assert(file@ == lockfile_name(registry()[i as int]));
                }
                return Some(pm);
            }
            j = j + 1;
        }
        assert(names_of(locks@).len() == locks@.len());
        assert(names_of(locks@)[0] == locks@[0]@);
        i = i + 1;
    }
    None
}

/// The canonical names of all supported managers, in registry order.
pub fn list_package_manager_names() -> (r: Vec<&'static str>)
    ensures
        names_of(r@) == registry().map_values(|m: PackageManager| manager_name(m)),
{
    let table = package_managers();
    let mut names: Vec<&'static str> = Vec::new();
    let mut i: usize = 0;
    while i < table.len()
        invariant
            table@.len() == 3,
            forall|k: int| 0 <= k < 3 ==> describes(#[trigger] table@[k], registry()[k]),
            i <= 3,
            names@.len() == i,
            forall|k: int| 0 <= k < i ==> #[trigger] names@[k]@ == manager_name(registry()[k]),
        decreases 3 - i,
    {
        names.push(table[i].name());
        i = i + 1;
    }
    assert(names_of(names@) =~= registry().map_values(
        |m: PackageManager| manager_name(m),
    ));
    names
}

/// The descriptor of the manager whose canonical name is exactly `name`.
pub fn get_package_manager_info_by_name(name: &str) -> (r: Option<PackageManagerInfo>)
    ensures
        match manager_named(name@) {
            Some(m) => r is Some && describes(r->0, m),
            None => r is None,
        },
{
    let table = package_managers();
    let mut i: usize = 0;
    while i < table.len()
        invariant
            table@.len() == 3,
            forall|k: int| 0 <= k < 3 ==> describes(#[trigger] table@[k], registry()[k]),
            i <= 3,
            forall|k: int| 0 <= k < i ==> manager_name(registry()[k]) != name@,
        decreases 3 - i,
    {
        if str_eq(table[i].name(), name) {
            proof {
                lemma_names_distinct();
            }
            return Some(table[i]);
        }
        i = i + 1;
    }
    None
}

} // verus!
