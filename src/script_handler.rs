//! Reading and writing the manager that a manifest declares.
use vstd::prelude::*;
use vstd::string::*;
use crate::manifest::{declaration, read_declaration, rewrite_manifest, rewritten, ManifestError};
use crate::package_detector::{manager_name, manager_named, PackageManager};
use crate::text::{name_part, split_name};

verus! {

/// The characters of an optional text.
pub open spec fn text_view(o: Option<&str>) -> Option<Seq<char>> {
    match o {
        Some(t) => Some(t@),
        None => None,
    }
}

/// The manager that a manifest text declares: its `packageManager` string,
/// up to the first `'@'`, names a supported manager.
pub open spec fn declared_manager(manifest: Option<Seq<char>>) -> Option<PackageManager> {
    match manifest {
        Some(t) => match declaration(t) {
            Some(d) => manager_named(name_part(d)),
            None => None,
        },
        None => None,
    }
}

/// The value written into the `packageManager` member: the manager's name,
/// followed by `@` and the version where one is known.
pub open spec fn declaration_value(m: PackageManager, version: Option<Seq<char>>) -> Seq<char> {
    match version {
        Some(v) => manager_name(m) + "@"@ + v,
        None => manager_name(m),
    }
}

/// The manager that the manifest text declares, if any. `manifest` is the
/// manifest's text, `None` where the project has none.
pub fn read_package_manager_from_package_json(manifest: Option<&str>) -> (r: Option<PackageManager>)
    ensures
        r == declared_manager(text_view(manifest)),
{
    let text = match manifest {
        Some(t) => t,
        None => return None,
    };
    let decl = match read_declaration(text) {
        Some(d) => d,
        None => return None,
    };
    let name = split_name(decl.as_str());
    PackageManager::from_name(name)
}

/// The `packageManager` value for `manager`: `"<name>"`, or
/// `"<name>@<version>"` where the version is known.
pub fn package_manager_value(manager: PackageManager, version: Option<&str>) -> (r: String)
    ensures
        r@ == declaration_value(manager, text_view(version)),
{
    let mut value = String::from_str(manager.as_str());
    if let Some(v) = version {
        value.append("@");
        value.append(v);
    }
    value
}

/// The new text of the manifest once it declares `manager`, every other member
/// kept. Without a manifest there is nothing to write: `Ok(None)`. A manifest
/// that is not one JSON object gives `Err(Parse)`.
pub fn write_package_manager_to_package_json(
    manifest: Option<&str>,
    manager: PackageManager,
    version: Option<&str>,
) -> (r: Result<Option<String>, ManifestError>)
    ensures
        manifest is None <==> r == Ok::<Option<String>, ManifestError>(None),
        manifest is Some ==> match r {
            Ok(Some(out)) => rewritten(manifest->0@, declaration_value(manager, text_view(version)))
                == Ok::<Seq<char>, ManifestError>(out@),
            Ok(None) => false,
            Err(e) => rewritten(manifest->0@, declaration_value(manager, text_view(version)))
                == Err::<Seq<char>, ManifestError>(e),
        },
{
    let text = match manifest {
        Some(t) => t,
        None => return Ok(None),
    };
    let value = package_manager_value(manager, version);
    match rewrite_manifest(text, value) {
        Ok(s) => Ok(Some(s)),
        Err(e) => Err(e),
    }
}

/// The installed version that a probe of the manager's executable printed:
/// `None` where the probe failed or printed only whitespace.
pub fn version_from_output(success: bool, stdout: &str) -> (r: Option<String>)
    ensures
        r is Some <==> success && trimmed(stdout@).len() > 0,
        r is Some ==> r->0@ == trimmed(stdout@),
{
    if !success {
        return None;
    }
    let text = trim(stdout);
    if text.unicode_len() == 0 {
        None
    } else {
        Some(String::from_str(text))
    }
}

/// The flags that probe an executable for its version, in the order tried.
pub fn version_flags() -> (r: Vec<&'static str>)
    ensures
        r@.len() == 2,
        r@[0]@ == "--version"@,
        r@[1]@ == "-v"@,
{
    vec!["--version", "-v"]
}

/// The text without its leading and trailing whitespace.
pub uninterp spec fn trimmed(s: Seq<char>) -> Seq<char>;

/// Relies on str::trim: leading and trailing Unicode whitespace removed; the
/// result depends on the text alone.
#[verifier::external_body]
fn trim(s: &str) -> (r: &str)
    ensures
        r@ == trimmed(s@),
{
    s.trim()
}

} // verus!
