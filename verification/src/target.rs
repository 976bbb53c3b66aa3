//! The targets that code can be generated for, and the plan of one run.

use vstd::prelude::*;
use crate::ir::{Crate, CrateView};
use crate::jni::{
    spec_bridge_all, spec_target_file, spec_target_module, JniWriter,
};
use crate::scan::{clone_path, reports, spec_parse_items, Error, Scanned};
use crate::tree::SourceFile;
use crate::text::{views};
use crate::tree::spec_closed;
use crate::util::same_text;

verus! {

/// A target that code is generated for.
#[derive(Debug, Clone, Copy, PartialEq, Eq, Structural)]
pub enum Target {
    /// Java, through the native-method interface.
    Jni,
}

/// The target that a name in the configuration stands for.
pub open spec fn spec_target(name: Seq<char>) -> Option<Target> {
    if name == "jni"@ {
        Some(Target::Jni)
    } else {
        None
    }
}

impl Target {
    /// The target that a name in the configuration stands for; `None` for
    /// a target that is not supported.
    pub fn from_name(name: &str) -> (r: Option<Target>)
        ensures
            r == spec_target(name@),
    {
        if same_text(name, "jni") {
            Some(Target::Jni)
        } else {
            None
        }
    }

    /// The name of the target, which is also the directory of its code.
    pub fn name(&self) -> (r: &'static str)
        ensures
            spec_target(r@) == Some(*self),
    {
        match self {
            Target::Jni => "jni",
        }
    }
}

/// Whether one of `names` stands for the Java target.
pub open spec fn spec_wants_jni(names: Seq<Seq<char>>) -> bool {
    exists|i: int| 0 <= i < names.len() && spec_target(#[trigger] names[i]) == Some(Target::Jni)
}

/// The targets to generate code for: each supported target that is named,
/// once.
pub fn create_target_code_writers(targets: &[String]) -> (r: Vec<Target>)
    ensures
        spec_wants_jni(views(targets@)) ==> r@ == seq![Target::Jni],
        !spec_wants_jni(views(targets@)) ==> r@.len() == 0,
{
    let mut out: Vec<Target> = Vec::new();
    let mut i: usize = 0;
    while i < targets.len()
        invariant
            i <= targets.len(),
            forall|j: int|
                0 <= j < i ==> spec_target(#[trigger] views(targets@)[j]) != Some(Target::Jni),
            out@.len() == 0,
        decreases targets.len() - i,
    {
        if Target::from_name(targets[i].as_str()).is_some() {
            out.push(Target::Jni);
            proof {
                assert(spec_target(views(targets@)[i as int]) == Some(Target::Jni));
                assert(out@ =~= seq![Target::Jni]);
            }
            return out;
        }
        i += 1;
    }
    out
}

/// What one run writes.
#[derive(Debug, PartialEq)]
pub struct Bindings {
    /// The file of the bridge code.
    pub bridge_file: Vec<String>,
    /// The bridge code: the bridge functions of all targets.
    pub bridge: Vec<String>,
    /// The directories of target code that an earlier run may have left
    /// and that are cleared first.
    pub stale: Vec<Vec<String>>,
    /// The files of target code with their content.
    pub files: Vec<(Vec<String>, String)>,
}

/// The file of the bridge code of a crate.
pub open spec fn spec_bridge_file(output: Seq<Seq<char>>, name: Seq<char>) -> Seq<Seq<char>> {
    output.push(name + ".rs"@)
}

/// The file of the bridge code of a crate. It is removed before the crate
/// is scanned, so that the scan does not read the bridge code of an earlier
/// run.
pub fn bridge_file(output_directory: &Vec<String>, crate_name: &str) -> (r: Vec<String>)
    ensures
        views(r@) == spec_bridge_file(views(output_directory@), crate_name@),
{
    let mut path = clone_path(output_directory);
    let mut name = String::from_str(crate_name);
    name.append(".rs");
    proof {
        assert(views(path@.push(name)) =~= views(path@).push(name@));
    }
    path.push(name);
    path
}

/// Whether `b` is what a run writes for the scanned crate `root` below the
/// directory `output`, for the targets named in `targets`.
pub open spec fn spec_is_bindings(
    b: Bindings,
    root: CrateView,
    output: Seq<Seq<char>>,
    targets: Seq<Seq<char>>,
) -> bool {
    &&& views(b.bridge_file@) == spec_bridge_file(output, root.name)
    &&& spec_wants_jni(targets) ==> {
        &&& views(b.bridge@) == spec_bridge_all(root, root.modules.len())
        &&& b.stale@.len() == 1
        &&& views(b.stale@[0]@) == output.push("jni"@).push(root.name)
        &&& b.files@.len() == root.modules.len()
        &&& forall|i: int|
            0 <= i < b.files@.len() ==> views((#[trigger] b.files@[i]).0@) == output.push("jni"@)
                + spec_target_file(root.modules[i], root) && b.files@[i].1@
                == spec_target_module(root.modules[i], root)
    }
    &&& !spec_wants_jni(targets) ==> b.bridge@.len() == 0 && b.stale@.len() == 0
        && b.files@.len() == 0
}

/// Generates the language bindings of a scanned crate: the bridge code and,
/// for each target, the files of its code below the output directory.
pub fn bindgen(root: &Crate, output_directory: &Vec<String>, targets: &[String]) -> (r: Bindings)
    requires
        spec_closed(root@),
    ensures
        spec_is_bindings(r, root@, views(output_directory@), views(targets@)),
{
    let path = bridge_file(output_directory, root.name.as_str());
    let writers = create_target_code_writers(targets);
    if writers.len() == 0 {
        return Bindings { bridge_file: path, bridge: Vec::new(), stale: Vec::new(), files: Vec::new() };
    }
    let writer = JniWriter;
    let bridge = writer.write_bridge_all(root);
    let mut target_output_directory = clone_path(output_directory);
    let target_name = String::from_str(writers[0].name());
    proof {
        assert(views(target_output_directory@.push(target_name)) =~= views(
            output_directory@,
        ).push("jni"@));
    }
    target_output_directory.push(target_name);
    let ghost base = views(target_output_directory@);
    let mut target_output_directory_root = clone_path(&target_output_directory);
    proof {
        assert(views(target_output_directory_root@.push(root.name)) =~= base.push(root@.name));
    }
    target_output_directory_root.push(root.name.clone());
    let mut stale: Vec<Vec<String>> = Vec::new();
    stale.push(target_output_directory_root);
    let written = writer.write_target_all(root);
    let mut files: Vec<(Vec<String>, String)> = Vec::new();
    let mut i: usize = 0;
    while i < written.len()
        invariant
            i <= written.len(),
            base == views(target_output_directory@),
            written@.len() == root@.modules.len(),
            forall|k: int|
                0 <= k < written@.len() ==> views((#[trigger] written@[k]).0@) == spec_target_file(
                    root@.modules[k],
                    root@,
                ) && written@[k].1@ == spec_target_module(root@.modules[k], root@),
            files@.len() == i,
            forall|k: int|
                0 <= k < files@.len() ==> views((#[trigger] files@[k]).0@) == base
                    + spec_target_file(root@.modules[k], root@) && files@[k].1@
                    == spec_target_module(root@.modules[k], root@),
        decreases written.len() - i,
    {
        let mut dst = clone_path(&target_output_directory);
        let relative = &written[i].0;
        let mut j: usize = 0;
        while j < relative.len()
            invariant
                j <= relative.len(),
                views(dst@) == base + views(relative@).take(j as int),
            decreases relative.len() - j,
        {
            proof {
                assert(views(dst@.push(relative@[j as int])) =~= views(dst@).push(
                    relative@[j as int]@,
                ));
                assert(views(dst@).push(relative@[j as int]@) =~= base + views(relative@).take(
                    j as int + 1,
                ));
            }
            dst.push(relative[j].clone());
            j += 1;
        }
        proof {
            assert(views(relative@).take(relative.len() as int) =~= views(relative@));
        }
        files.push((dst, written[i].1.clone()));
        i += 1;
    }
    Bindings { bridge_file: path, bridge, stale, files }
}

/// Scans the parsed entry file of a crate and generates its language
/// bindings. `src` is the path of the entry file, `name` the name of the
/// crate.
pub fn run(
    file: &SourceFile,
    src: &Vec<String>,
    name: String,
    output_directory: &Vec<String>,
    targets: &[String],
) -> (r: Result<Bindings, Error>)
    ensures
        match spec_parse_items(file.items@, Seq::empty(), views(src@), file.attrs@) {
            Scanned::Good(found) => r matches Ok(b) && spec_is_bindings(
                b,
                CrateView { modules: found, name: name@ },
                views(output_directory@),
                views(targets@),
            ),
            Scanned::Bad(f) => r matches Err(e) && reports(e, f),
        },
{
    match Crate::parse(file, src, name) {
        Ok(root) => Ok(bindgen(&root, output_directory, targets)),
        Err(e) => Err(e),
    }
}

} // verus!
