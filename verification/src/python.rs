//! Python-side helpers: the names of the kinds of resources found in a
//! Python distribution, and the source of a `print` statement.
use crate::strings::owned;
use vstd::prelude::*;

verus! {

/// The kinds of resources that scanning a Python distribution yields.
#[derive(Clone, Copy, Debug, PartialEq, Eq, Structural)]
pub enum ResourceKind {
    ModuleSource,
    ModuleBytecodeRequest,
    ModuleBytecode,
    PackageResource,
    PackageDistributionResource,
    ExtensionModule,
    EggFile,
    PathExtension,
    File,
}

/// The name of a resource kind: the name of the kind itself.
pub open spec fn spec_resource_type(kind: ResourceKind) -> Seq<char> {
    match kind {
        ResourceKind::ModuleSource => "ModuleSource"@,
        ResourceKind::ModuleBytecodeRequest => "ModuleBytecodeRequest"@,
        ResourceKind::ModuleBytecode => "ModuleBytecode"@,
        ResourceKind::PackageResource => "PackageResource"@,
        ResourceKind::PackageDistributionResource => "PackageDistributionResource"@,
        ResourceKind::ExtensionModule => "ExtensionModule"@,
        ResourceKind::EggFile => "EggFile"@,
        ResourceKind::PathExtension => "PathExtension"@,
        ResourceKind::File => "File"@,
    }
}

/// The name of a resource kind, for debugging output.
pub fn get_python_resource_type(kind: ResourceKind) -> (r: String)
    ensures
        r@ == spec_resource_type(kind),
{
    match kind {
        ResourceKind::ModuleSource => owned("ModuleSource"),
        ResourceKind::ModuleBytecodeRequest => owned("ModuleBytecodeRequest"),
        ResourceKind::ModuleBytecode => owned("ModuleBytecode"),
        ResourceKind::PackageResource => owned("PackageResource"),
        ResourceKind::PackageDistributionResource => owned("PackageDistributionResource"),
        ResourceKind::ExtensionModule => owned("ExtensionModule"),
        ResourceKind::EggFile => owned("EggFile"),
        ResourceKind::PathExtension => owned("PathExtension"),
        ResourceKind::File => owned("File"),
    }
}

/// Different kinds of resources have different names.
pub proof fn lemma_resource_type_names_distinct(a: ResourceKind, b: ResourceKind)
    requires
        a != b,
    ensures
        spec_resource_type(a) != spec_resource_type(b),
{
    reveal_strlit("ModuleSource");
    reveal_strlit("ModuleBytecodeRequest");
    reveal_strlit("ModuleBytecode");
    reveal_strlit("PackageResource");
    reveal_strlit("PackageDistributionResource");
    reveal_strlit("ExtensionModule");
    reveal_strlit("EggFile");
    reveal_strlit("PathExtension");
    reveal_strlit("File");
    let x = spec_resource_type(a);
    let y = spec_resource_type(b);
    if x == y {
        // the names differ in length, or (for the two of fifteen characters)
        // in their first character
        assert(x.len() == y.len() && x[0] == y[0]);
    }
}

/// The Python source that prints `text`: `print("` + text + `")`.
pub open spec fn spec_print_source(text: Seq<char>) -> Seq<char> {
    "print(\""@ + text + "\")"@
}

/// The Python statement that prints `text`, as evaluated by the embedded
/// interpreter.
pub fn print_source(text: &str) -> (r: String)
    ensures
        r@ == spec_print_source(text@),
{
    let mut code = owned("print(\"");
    code.append(text);
    code.append("\")");
    code
}

} // verus!
