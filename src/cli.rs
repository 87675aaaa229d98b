//! The command line and where the document goes.
use vstd::prelude::*;
use crate::policy::str_eq;

verus! {

/// The parsed command line: the path to flatten and whether the document is
/// saved inside it.
pub struct Args {
    pub path: String,
    pub save_inside: bool,
}

/// The flag that places the document inside the walked directory.
pub open spec fn inside_flag() -> Seq<char> {
    "-i"@
}

/// Reads the command line, program name first. `None` when no path is
/// given; the path is the first argument, and the flag may stand anywhere.
pub fn parse_args(args: &Vec<String>) -> (r: Option<Args>)
    ensures
        r is None <==> args@.len() < 2,
        r is Some ==> r->0.path@ == args@[1]@,
        r is Some ==> (r->0.save_inside <==> exists|i: int|
            0 <= i < args@.len() && #[trigger] args@[i]@ == inside_flag()),
{
    if args.len() < 2 {
        return None;
    }
    let path = args[1].clone();
    let mut save_inside = false;
    let mut i: usize = 0;
    while i < args.len()
        invariant
            0 <= i <= args@.len(),
            save_inside <==> exists|j: int| 0 <= j < i && #[trigger] args@[j]@ == inside_flag(),
        decreases args.len() - i,
    {
        if str_eq(args[i].as_str(), "-i") {
            save_inside = true;
        }
        i = i + 1;
    }
    Some(Args { path, save_inside })
}

/// The base name used when the resolved path has no final component.
pub open spec fn default_base_name() -> Seq<char> {
    "项目代码文档"@
}

/// The document's file name for a resolved path whose final component is `base`.
pub open spec fn output_name(base: Option<Seq<char>>) -> Seq<char> {
    match base {
        Some(b) => b + ".md"@,
        None => default_base_name() + ".md"@,
    }
}

/// Names the document after the final component of the resolved path.
pub fn output_file_name(base: Option<&str>) -> (r: String)
    ensures
        r@ == output_name(match base { Some(b) => Some(b@), None => None }),
{
    let mut r = match base {
        Some(b) => String::from_str(b),
        None => String::from_str("项目代码文档"),
    };
    r.append(".md");
    r
}

/// The directory the document is written to.
#[derive(PartialEq, Eq, Structural, Debug, Clone, Copy)]
pub enum OutputDir {
    /// The walked directory itself.
    Source,
    /// The parent of the given path.
    Parent,
}

/// Inside a directory when asked to, else beside the given path; a path
/// without a parent keeps the document in the path itself.
pub open spec fn output_dir_spec(is_dir: bool, save_inside: bool, has_parent: bool) -> OutputDir {
    if (is_dir && save_inside) || !has_parent {
        OutputDir::Source
    } else {
        OutputDir::Parent
    }
}

/// Chooses the document's directory for a path that is a directory when
/// `is_dir` and that has a parent when `has_parent`.
pub fn output_dir(is_dir: bool, save_inside: bool, has_parent: bool) -> (r: OutputDir)
    ensures
        r == output_dir_spec(is_dir, save_inside, has_parent),
{
    if (is_dir && save_inside) || !has_parent {
        OutputDir::Source
    } else {
        OutputDir::Parent
    }
}

} // verus!
