//! Configuration.

use vstd::prelude::*;
use crate::parse::{is_error, syntax_error};
use crate::scan::clone_path;
use crate::syntax::same_path;
use crate::util::{same_text, SyntaxError};
use crate::text::views;

verus! {

/// Settings of the Java target.
#[derive(Debug, PartialEq)]
pub struct JniConfig {
    pub enabled: bool,
}

/// Fields that are no settings but are kept for further use.
#[derive(Debug, PartialEq)]
pub struct ConfigCachedFields {
    /// Where the generated code is placed, by the segments of the path.
    pub output_directory: Vec<String>,
    /// Crate name.
    pub crate_name: String,
    /// Entry source file of this crate, by the segments of its path; empty
    /// if the package has no proper target.
    pub entry: Vec<String>,
}

/// Settings of one crate.
#[derive(Debug, PartialEq)]
pub struct Config {
    /// What target code should be generated.
    pub targets: Vec<String>,
    pub jni: JniConfig,
    pub cached: ConfigCachedFields,
}

impl JniConfig {
    pub fn default() -> (r: Self)
        ensures
            !r.enabled,
    {
        JniConfig { enabled: false }
    }
}

impl ConfigCachedFields {
    /// No crate name, no entry, and `target/riko` for the output.
    pub fn default() -> (r: Self)
        ensures
            r.crate_name@ == Seq::<char>::empty(),
            views(r.entry@) == Seq::<Seq<char>>::empty(),
            views(r.output_directory@) == seq!["target"@, "riko"@],
    {
        let mut output_directory: Vec<String> = Vec::new();
        output_directory.push(String::from_str("target"));
        output_directory.push(String::from_str("riko"));
        let entry: Vec<String> = Vec::new();
        proof {
            assert(views(entry@) =~= Seq::<Seq<char>>::empty());
            assert(views(output_directory@) =~= seq!["target"@, "riko"@]);
        }
        ConfigCachedFields { output_directory, crate_name: String::new(), entry }
    }
}

impl Config {
    /// No targets, the Java target switched off, and the default cached
    /// fields.
    pub fn default() -> (r: Self)
        ensures
            r.targets@.len() == 0,
            !r.jni.enabled,
            r.cached.crate_name@ == Seq::<char>::empty(),
            views(r.cached.entry@) == Seq::<Seq<char>>::empty(),
            views(r.cached.output_directory@) == seq!["target"@, "riko"@],
    {
        Config {
            targets: Vec::new(),
            jni: JniConfig::default(),
            cached: ConfigCachedFields::default(),
        }
    }

    /// Fills in the cached fields from what the package metadata tell: the
    /// package's name, the directory where the build places its output, and
    /// the entry file of the library target, if there is one.
    pub fn expand_all_fields(
        &mut self,
        package_name: &str,
        target_directory: &Vec<String>,
        entry: Option<&Vec<String>>,
    )
        ensures
            final(self).targets == old(self).targets,
            final(self).jni == old(self).jni,
            final(self).cached.crate_name@ == package_name@,
            views(final(self).cached.output_directory@) == views(target_directory@).push(
                "riko"@,
            ),
            views(final(self).cached.entry@) == match entry {
                Some(path) => views(path@),
                None => Seq::<Seq<char>>::empty(),
            },
    {
        self.cached.crate_name = String::from_str(package_name);
        let mut output = clone_path(target_directory);
        let riko = String::from_str("riko");
        proof {
            assert(views(output@.push(riko)) =~= views(target_directory@).push("riko"@));
        }
        output.push(riko);
        self.cached.output_directory = output;
        self.cached.entry = match entry {
            Some(path) => clone_path(path),
            None => {
                let none: Vec<String> = Vec::new();
                proof {
                    assert(views(none@) =~= Seq::<Seq<char>>::empty());
                }
                none
            },
        };
    }
}

/// Whether `text` ends with `suffix`.
pub open spec fn spec_ends_with(text: Seq<char>, suffix: Seq<char>) -> bool {
    text.len() >= suffix.len() && text.subrange(text.len() - suffix.len(), text.len() as int)
        == suffix
}

/// `text` without any repetition of `suffix` at its end.
pub open spec fn spec_trim_end(text: Seq<char>, suffix: Seq<char>) -> Seq<char>
    decreases text.len(),
{
    if suffix.len() > 0 && spec_ends_with(text, suffix) {
        spec_trim_end(text.take(text.len() - suffix.len()), suffix)
    } else {
        text
    }
}

/// Whether `text` ends with `suffix`.
pub fn ends_with(text: &str, suffix: &str) -> (r: bool)
    ensures
        r == spec_ends_with(text@, suffix@),
{
    let n = text.unicode_len();
    let k = suffix.unicode_len();
    k <= n && same_text(text.substring_char(n - k, n), suffix)
}

/// Removes every repetition of `suffix` from the end of `text`.
pub fn trim_end_matches(text: &str, suffix: &str) -> (r: String)
    ensures
        r@ == spec_trim_end(text@, suffix@),
{
    let k = suffix.unicode_len();
    let mut rest = text;
    if k == 0 {
        return String::from_str(rest);
    }
    while ends_with(rest, suffix)
        invariant
            k == suffix@.len(),
            k > 0,
            spec_trim_end(rest@, suffix@) == spec_trim_end(text@, suffix@),
        decreases rest@.len(),
    {
        let n = rest.unicode_len();
        proof {
            assert(rest@.subrange(0, n - k) =~= rest@.take(n - k));
        }
        rest = rest.substring_char(0, n - k);
    }
    String::from_str(rest)
}

/// The module that a source file holds, judged by its path alone: the
/// crate's name for the entry file; for a file below the entry's directory
/// the crate's name and the file's path from there, the last segment
/// without `.rs`, or dropped where it is `mod.rs` or no source file.
pub open spec fn spec_guess_module(
    crate_name: Seq<char>,
    entry: Seq<Seq<char>>,
    source: Seq<Seq<char>>,
) -> Result<Seq<Seq<char>>, Seq<char>> {
    if crate_name.len() == 0 {
        Err("Unknown crate name."@)
    } else if entry.len() == 0 {
        Err("Unknown crate entry."@)
    } else if source == entry {
        Ok(seq![crate_name])
    } else {
        let dir = entry.drop_last();
        if !(source.len() >= dir.len() && source.take(dir.len() as int) == dir) {
            Err("Source file outside of current crate"@)
        } else {
            let whole = seq![crate_name] + source.skip(dir.len() as int);
            let last = whole.last();
            if last != "mod.rs"@ && spec_ends_with(last, ".rs"@) {
                Ok(whole.drop_last().push(spec_trim_end(last, ".rs"@)))
            } else {
                Ok(whole.drop_last())
            }
        }
    }
}

impl Config {
    /// Gets the module path of a source file according to its path.
    ///
    /// The result will not be correct if the actual module is a sub-module
    /// inside a source file.
    pub fn guess_module(&self, source_file: &Vec<String>) -> (r: Result<Vec<String>, SyntaxError>)
        ensures
            match spec_guess_module(
                self.cached.crate_name@,
                views(self.cached.entry@),
                views(source_file@),
            ) {
                Ok(path) => r matches Ok(found) && views(found@) == path,
                Err(message) => r matches Err(e) && is_error(e, message),
            },
    {
        let entry = &self.cached.entry;
        if self.cached.crate_name.as_str().unicode_len() == 0 {
            return Err(syntax_error("Unknown crate name."));
        }
        if entry.len() == 0 {
            return Err(syntax_error("Unknown crate entry."));
        }
        let mut result: Vec<String> = Vec::new();
        result.push(self.cached.crate_name.clone());
        proof {
            assert(views(result@) =~= seq![self.cached.crate_name@]);
        }
        if same_path(source_file.as_slice(), entry.as_slice()) {
            return Ok(result);
        }
        let depth = entry.len() - 1;
        let ghost dir = views(entry@).drop_last();
        let ghost source = views(source_file@);
        if source_file.len() < depth {
            return Err(syntax_error("Source file outside of current crate"));
        }
        let source_dir = vstd::slice::slice_subrange(source_file.as_slice(), 0, depth);
        let entry_dir = vstd::slice::slice_subrange(entry.as_slice(), 0, depth);
        proof {
            assert(views(source_dir@) =~= source.take(depth as int));
            assert(views(entry_dir@) =~= dir);
        }
        if !same_path(source_dir, entry_dir) {
            return Err(syntax_error("Source file outside of current crate"));
        }
        let ghost whole = seq![self.cached.crate_name@] + source.skip(depth as int);
        let mut i: usize = depth;
        while i < source_file.len()
            invariant
                depth <= i <= source_file.len(),
                source == views(source_file@),
                whole == seq![self.cached.crate_name@] + source.skip(depth as int),
                views(result@) == whole.take(i - depth + 1),
            decreases source_file.len() - i,
        {
            proof {
                assert(whole[i - depth + 1] == source_file@[i as int]@);
                assert(views(result@.push(source_file@[i as int])) =~= views(result@).push(
                    source_file@[i as int]@,
                ));
                assert(views(result@).push(source_file@[i as int]@) =~= whole.take(
                    i - depth + 2,
                ));
            }
            result.push(source_file[i].clone());
            i += 1;
        }
        proof {
            assert(whole.take(source_file.len() - depth + 1) =~= whole);
        }
        let last = match result.pop() {
            Some(last) => last,
            None => {
                proof {
                    assert(false);
                }
                vstd::pervasive::unreached()
            },
        };
        proof {
            assert(views(result@) =~= whole.drop_last());
            assert(last@ == whole.last());
        }
        if !same_text(last.as_str(), "mod.rs") && ends_with(last.as_str(), ".rs") {
            let trimmed = trim_end_matches(last.as_str(), ".rs");
            proof {
                assert(views(result@.push(trimmed)) =~= views(result@).push(trimmed@));
            }
            result.push(trimmed);
        }
        Ok(result)
    }
}

/// Lists where the settings of the sources in `dir` are looked for, from
/// the bottom up. The first of them that is a file holds the settings.
pub fn locate(dir: &Vec<String>) -> (r: Vec<Vec<String>>)
    ensures
        r@.len() == dir@.len(),
        forall|i: int|
            0 <= i < r@.len() ==> views((#[trigger] r@[i])@) == views(dir@).take(
                dir@.len() - i,
            ).push("Riko.toml"@),
{
    let mut out: Vec<Vec<String>> = Vec::new();
    let mut n: usize = dir.len();
    while n > 0
        invariant
            n <= dir.len(),
            out@.len() == dir@.len() - n,
            forall|i: int|
                0 <= i < out@.len() ==> views((#[trigger] out@[i])@) == views(dir@).take(
                    dir@.len() - i,
                ).push("Riko.toml"@),
        decreases n,
    {
        let mut candidate = clone_path(&dir);
        candidate.truncate(n);
        let name = String::from_str("Riko.toml");
        proof {
            assert(views(candidate@.push(name)) =~= views(dir@).take(n as int).push(
                "Riko.toml"@,
            ));
        }
        candidate.push(name);
        out.push(candidate);
        n -= 1;
    }
    out
}

} // verus!
