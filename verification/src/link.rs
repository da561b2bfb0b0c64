//! The aggregation-manifest linker.
//!
//! A cluster directory's manifest lists every immediate subdirectory as a
//! resource reference, one per line, in directory-listing order, excluding
//! the sync agent's own reserved control directory. The manifest is always
//! produced whole; a prior manifest is overwritten, never merged.

use vstd::prelude::*;
use vstd::string::StrSliceExecFns;
use vstd::string::StringExecFns;

verus! {

/// The fixed header of the aggregation manifest.
pub open spec fn manifest_header() -> Seq<char> {
    "apiVersion: kustomize.config.k8s.io/v1beta1\nkind: Kustomization\nresources:\n"@
}

/// The reserved control-directory name the manifest never lists.
pub open spec fn reserved_name() -> Seq<char> {
    "flux-system"@
}

/// The subdirectory names the manifest retains: the input names in their
/// listing order, without the reserved one.
pub open spec fn retained(names: Seq<Seq<char>>) -> Seq<Seq<char>>
    decreases names.len(),
{
    if names.len() == 0 {
        Seq::empty()
    } else if names.last() == reserved_name() {
        retained(names.drop_last())
    } else {
        retained(names.drop_last()).push(names.last())
    }
}

/// One resource-reference line of the manifest.
pub open spec fn manifest_line(name: Seq<char>) -> Seq<char> {
    "    - "@ + name + "\n"@
}

/// The resource-reference lines for a run of names, in order.
pub open spec fn manifest_lines(names: Seq<Seq<char>>) -> Seq<char>
    decreases names.len(),
{
    if names.len() == 0 {
        Seq::empty()
    } else {
        manifest_lines(names.drop_last()) + manifest_line(names.last())
    }
}

/// The whole manifest document for a directory listing.
pub open spec fn spec_manifest(names: Seq<Seq<char>>) -> Seq<char> {
    manifest_header() + manifest_lines(retained(names))
}

/// Writes the aggregation manifest for the given immediate-subdirectory
/// names: the fixed header, then one reference per retained name in
/// listing order; the reserved control directory is excluded.
pub fn link_manifest(subdirs: &Vec<String>) -> (r: String)
    ensures
        r@ == spec_manifest(crate::paths::path_view(subdirs@)),
{
    let ghost names = crate::paths::path_view(subdirs@);
    let reserved: String = String::from_str("flux-system");
    let mut out: String = String::from_str(
        "apiVersion: kustomize.config.k8s.io/v1beta1\nkind: Kustomization\nresources:\n",
    );
    let mut i: usize = 0;
    proof {
        assert(names.take(0) =~= Seq::<Seq<char>>::empty());
        assert(out@ =~= manifest_header() + manifest_lines(retained(names.take(0))));
    }
    while i < subdirs.len()
        invariant
            i <= subdirs@.len(),
            names == crate::paths::path_view(subdirs@),
            reserved@ == reserved_name(),
            out@ == manifest_header() + manifest_lines(retained(names.take(i as int))),
        decreases subdirs@.len() - i,
    {
        proof {
            assert(names.take(i as int + 1).drop_last() =~= names.take(i as int));
            assert(names.take(i as int + 1).last() == names[i as int]);
        }
        if !(subdirs[i] == reserved) {
            let ghost before = retained(names.take(i as int));
            out.append("    - ");
            out.append(subdirs[i].as_str());
            out.append("\n");
            proof {
                assert(retained(names.take(i as int + 1)) == before.push(names[i as int]));
                assert(before.push(names[i as int]).drop_last() =~= before);
                assert(out@ =~= manifest_header() + manifest_lines(
                    retained(names.take(i as int + 1)),
                ));
            }
        }
        i = i + 1;
    }
    proof {
        assert(names.take(names.len() as int) =~= names);
    }
    out
}

} // verus!
