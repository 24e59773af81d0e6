//! The resolver's decision: use the detected manager, or ask the user.
use vstd::prelude::*;
use crate::managers::{names_of, PackageManagerInfo};

verus! {

/// What resolution decides from the detected managers.
#[derive(Debug)]
pub enum Resolution {
    /// Exactly one manager was detected: use it without asking.
    Resolved(PackageManagerInfo),
    /// No manager was detected: ask the user.
    Undetermined,
    /// Several managers were detected, with these names: ask the user.
    Ambiguous(Vec<&'static str>),
}

/// The names of a list of descriptors.
pub open spec fn info_names(infos: Seq<PackageManagerInfo>) -> Seq<Seq<char>> {
    infos.map_values(|i: PackageManagerInfo| i.name_view())
}

/// Decides from the detected managers: one is used as it is; none or several
/// are never settled here and lead to the prompt, several with their names.
pub fn resolve_package_manager(detected: &Vec<PackageManagerInfo>) -> (r: Resolution)
    ensures
        detected@.len() == 1 <==> r is Resolved,
        detected@.len() == 0 <==> r is Undetermined,
        detected@.len() > 1 <==> r is Ambiguous,
        r is Resolved ==> r->Resolved_0 == detected@[0],
        r is Ambiguous ==> names_of(r->Ambiguous_0@) == info_names(detected@),
{
    if detected.len() == 1 {
        return Resolution::Resolved(detected[0]);
    }
    if detected.len() == 0 {
        return Resolution::Undetermined;
    }
    let mut names: Vec<&'static str> = Vec::new();
    let mut i: usize = 0;
    while i < detected.len()
        invariant
            i <= detected@.len(),
            names@.len() == i,
            forall|k: int| 0 <= k < i ==> #[trigger] names@[k]@ == detected@[k].name_view(),
        decreases detected@.len() - i,
    {
        names.push(detected[i].name());
        i = i + 1;
    }
    assert(names_of(names@) =~= info_names(detected@));
    Resolution::Ambiguous(names)
}

} // verus!
