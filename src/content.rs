use vstd::prelude::*;

verus! {

pub open spec fn gitignore_text() -> Seq<char> {
    "# Godot 4+ ignores\n.godot/\n\n# Godot 3 ignores\n.import/\n\n# Imported translations (automatically generated from CSV files)\n*.translation\n\n# Mono-specific ignores\n.mono/\ndata_*/\n\n# Glam-specific ignores\n.glam.d/"@
}

pub open spec fn gdignore_text() -> Seq<char> {
    "# Hide this folder from Godot editor"@
}

pub open spec fn empty_manifest_text() -> Seq<char> {
    "{\n    \"packages\" : [\n    ]\n}\n"@
}

/// Text of the host project's `.gitignore`, which keeps the vendoring
/// directory out of its history.
pub fn create_gitignore_file() -> (r: String)
    ensures
        r@ == gitignore_text(),
{
    String::from_str("# Godot 4+ ignores\n.godot/\n\n# Godot 3 ignores\n.import/\n\n# Imported translations (automatically generated from CSV files)\n*.translation\n\n# Mono-specific ignores\n.mono/\ndata_*/\n\n# Glam-specific ignores\n.glam.d/")
}

/// Text of the `.gdignore` file that hides the vendoring directory from the
/// editor.
pub fn create_gdignore_file() -> (r: String)
    ensures
        r@ == gdignore_text(),
{
    String::from_str("# Hide this folder from Godot editor")
}

/// Text of a manifest with no packages.
pub fn create_glam_file() -> (r: String)
    ensures
        r@ == empty_manifest_text(),
{
    String::from_str("{\n    \"packages\" : [\n    ]\n}\n")
}

} // verus!
