//! Detection and persistence in terms of the registry's descriptors.
use vstd::prelude::*;
use vstd::string::*;
use crate::managers::{describes, get_package_manager_info_by_name, info_of, PackageManagerInfo};
use crate::manifest::{read_declaration, rewrite_manifest, rewritten, ManifestError};
use crate::package_detector::{detect_package_manager, detection, file_names, PackageManager};
use crate::script_handler::{declared_manager, text_view};
use crate::text::split_name;

verus! {

/// `infos` are the descriptors of `ms`, one for one.
pub open spec fn describes_all(infos: Seq<PackageManagerInfo>, ms: Seq<PackageManager>) -> bool {
    &&& infos.len() == ms.len()
    &&& forall|i: int| 0 <= i < ms.len() ==> describes(#[trigger] infos[i], ms[i])
}

/// The value written into the `packageManager` member for a descriptor:
/// its name, followed by `@` and the version where one is known.
pub open spec fn info_value(info: PackageManagerInfo, version: Option<Seq<char>>) -> Seq<char> {
    match version {
        Some(v) => info.name_view() + "@"@ + v,
        None => info.name_view(),
    }
}

/// The descriptor of the manager that the manifest text declares, if any.
/// `manifest` is the manifest's text, `None` where the project has none.
pub fn read_package_manager_from_package_json(manifest: Option<&str>) -> (r: Option<
    PackageManagerInfo,
>)
    ensures
        match declared_manager(text_view(manifest)) {
            Some(m) => r is Some && describes(r->0, m),
            None => r is None,
        },
{
    let text = match manifest {
        Some(t) => t,
        None => return None,
    };
    let decl = match read_declaration(text) {
        Some(d) => d,
        None => return None,
    };
    get_package_manager_info_by_name(split_name(decl.as_str()))
}

/// The descriptors of the managers that a project uses: the declared one
/// alone where the manifest names a supported manager, else one for each
/// lockfile among `files`, in registry order.
pub fn detect_package_managers(manifest: Option<&str>, files: &Vec<String>) -> (r: Vec<
    PackageManagerInfo,
>)
    ensures
        describes_all(r@, detection(declared_manager(text_view(manifest)), file_names(files@))),
{
    let found = detect_package_manager(manifest, files);
    let mut infos: Vec<PackageManagerInfo> = Vec::new();
    let mut i: usize = 0;
    while i < found.len()
        invariant
            i <= found@.len(),
            describes_all(infos@, found@.take(i as int)),
        decreases found@.len() - i,
    {
        infos.push(info_of(found[i]));
        i = i + 1;
    }
    assert(found@.take(found@.len() as int) =~= found@);
    infos
}

/// The new text of the manifest once it declares the manager of
/// `manager_info`, every other member kept: `"<name>"`, or
/// `"<name>@<version>"` where the version is known. Without a manifest the
/// result is `Err(NotFound)`; a manifest that is not one JSON object gives
/// `Err(Parse)`.
pub fn write_package_manager_to_package_json(
    manifest: Option<&str>,
    manager_info: &PackageManagerInfo,
    version: Option<&str>,
) -> (r: Result<String, ManifestError>)
    ensures
        manifest is None <==> r == Err::<String, ManifestError>(ManifestError::NotFound),
        manifest is Some ==> match r {
            Ok(out) => rewritten(manifest->0@, info_value(*manager_info, text_view(version)))
                == Ok::<Seq<char>, ManifestError>(out@),
            Err(e) => rewritten(manifest->0@, info_value(*manager_info, text_view(version)))
                == Err::<Seq<char>, ManifestError>(e),
        },
{
    let text = match manifest {
        Some(t) => t,
        None => return Err(ManifestError::NotFound),
    };
    let mut value = String::from_str(manager_info.name());
    if let Some(v) = version {
        value.append("@");
        value.append(v);
    }
    rewrite_manifest(text, value)
}

} // verus!
